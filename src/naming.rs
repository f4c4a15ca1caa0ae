use vstd::prelude::*;

verus! {

/// Characters that separate words in a key.
pub open spec fn is_separator(c: char) -> bool {
    c == ' ' || c == '_'
}

/// ASCII upper case of a character; any other character is kept.
pub open spec fn ascii_upper(c: char) -> char {
    if 'a' <= c && c <= 'z' {
        ((c as u32) - 32) as char
    } else {
        c
    }
}

/// Camel case of `s`, where `started` tells whether a character was already
/// written and `upper` whether the next written character is capitalized.
pub open spec fn camel_from(s: Seq<char>, started: bool, upper: bool) -> Seq<char>
    decreases s.len(),
{
    if s.len() == 0 {
        Seq::empty()
    } else if is_separator(s[0]) {
        camel_from(s.drop_first(), started, started)
    } else if upper {
        seq![ascii_upper(s[0])] + camel_from(s.drop_first(), true, false)
    } else {
        seq![s[0]] + camel_from(s.drop_first(), true, false)
    }
}

/// Separators are dropped, and each word but the first starts with an upper
/// case letter.
pub open spec fn camel(s: Seq<char>) -> Seq<char> {
    camel_from(s, false, false)
}

fn to_ascii_upper(c: char) -> (r: char)
    ensures
        r == ascii_upper(c),
{
    if 'a' <= c && c <= 'z' {
        let code: u32 = (c as u32) - 32;
        (code as u8) as char
    } else {
        c
    }
}

/// Relies on String::push: the character is appended at the end.
#[verifier::external_body]
fn push_char(s: &mut String, c: char)
    ensures
        final(s)@ == old(s)@.push(c),
{
    s.push(c);
}

/// Turns a key written with spaces or underscores into camel case.
pub fn camel_case(source: &str) -> (dest: String)
    ensures
        dest@ == camel(source@),
{
    let mut dest = String::new();
    let mut started = false;
    let mut capitalize = false;
    let ghost s = source@;
    assert(s.skip(0) =~= s);
    assert(dest@ + camel(s) =~= camel(s));
    for ch in it: source.chars()
        invariant
            it.seq() == s,
            started == (dest@.len() > 0),
            camel(s) == dest@ + camel_from(s.skip(it.index() as int), started, capitalize),
    {
        let ghost i = it.index() as int;
        let ghost before = dest@;
        assert(s.skip(i).drop_first() =~= s.skip(i + 1));
        if ch == ' ' || ch == '_' {
            capitalize = started;
        } else {
            let c = if capitalize {
                to_ascii_upper(ch)
            } else {
                ch
            };
            push_char(&mut dest, c);
            assert(before + (seq![c] + camel_from(s.skip(i + 1), true, false)) =~= dest@
                + camel_from(s.skip(i + 1), true, false));
            capitalize = false;
            started = true;
        }
    }
    dest
}

} // verus!
