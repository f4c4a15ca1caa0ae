use vstd::prelude::*;

use crate::store::{Action, StoreCall, StoreEvent};

verus! {

/// The state of one health request.
pub enum HealthProbe {
    /// The store was pinged.
    Probing,
    /// The reply was given.
    Finished,
}

impl HealthProbe {
    /// The first step: ping the store.
    pub open spec fn started(m: HealthProbe, a: Action<bool>) -> bool {
        m is Probing && a == Action::<bool>::Call(StoreCall::Ping)
    }

    /// The step from state `self` on `event` to state `m` and action `a`: the
    /// store is healthy exactly when the ping completed without error.
    pub open spec fn next(self, event: StoreEvent, m: HealthProbe, a: Action<bool>) -> bool {
        match self {
            HealthProbe::Probing => m is Finished && a == Action::<bool>::Reply(event is Done),
            HealthProbe::Finished => m is Finished && a is NoReply,
        }
    }

    /// Starts serving a health request.
    pub fn start() -> (r: (HealthProbe, Action<bool>))
        ensures
            HealthProbe::started(r.0, r.1),
    {
        (HealthProbe::Probing, Action::Call(StoreCall::Ping))
    }

    /// Takes the outcome of the ping and gives the reply.
    pub fn resume(self, event: StoreEvent) -> (r: (HealthProbe, Action<bool>))
        ensures
            self.next(event, r.0, r.1),
    {
        match self {
            HealthProbe::Probing => {
                let healthy = match event {
                    StoreEvent::Done => true,
                    _ => false,
                };
                (HealthProbe::Finished, Action::Reply(healthy))
            },
            HealthProbe::Finished => (HealthProbe::Finished, Action::NoReply),
        }
    }
}

} // verus!
