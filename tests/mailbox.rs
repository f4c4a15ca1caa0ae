use config_api::mailbox::{Mailbox, SendError};

#[test]
fn excess_sends_fail_immediately() {
    let mut m: Mailbox<u32> = Mailbox::new(2);
    assert_eq!(m.try_send(1), Ok(()));
    assert_eq!(m.try_send(2), Ok(()));
    assert_eq!(m.try_send(3), Err(SendError::Full(3)));
    assert_eq!(m.try_send(4), Err(SendError::Full(4)));
    assert_eq!(m.len(), 2);
    assert_eq!(m.capacity(), 2);
}

#[test]
fn mailbox_is_first_in_first_out() {
    let mut m: Mailbox<&str> = Mailbox::new(3);
    m.try_send("a").unwrap();
    m.try_send("b").unwrap();
    assert_eq!(m.recv(), Some("a"));
    m.try_send("c").unwrap();
    assert_eq!(m.recv(), Some("b"));
    assert_eq!(m.recv(), Some("c"));
    assert_eq!(m.recv(), None);
    assert!(m.is_empty());
}

#[test]
fn receiving_makes_room_again() {
    let mut m: Mailbox<u8> = Mailbox::new(1);
    assert_eq!(m.try_send(1), Ok(()));
    assert_eq!(m.try_send(2), Err(SendError::Full(2)));
    assert_eq!(m.recv(), Some(1));
    assert_eq!(m.try_send(3), Ok(()));
}

#[test]
fn closed_mailbox_refuses_and_drains() {
    let mut m: Mailbox<u8> = Mailbox::new(5);
    m.try_send(1).unwrap();
    m.close();
    assert!(m.is_closed());
    assert_eq!(m.try_send(2), Err(SendError::Closed(2)));
    assert_eq!(m.recv(), Some(1));
    assert_eq!(m.recv(), None);
}

#[test]
fn zero_capacity_mailbox_takes_nothing() {
    let mut m: Mailbox<u8> = Mailbox::new(0);
    assert_eq!(m.try_send(1), Err(SendError::Full(1)));
    assert_eq!(m.recv(), None);
}
