//! Shutdown: removing the event listeners and leaving the SDK.

use crate::backend::{texts, BreezBackend};
use vstd::prelude::*;

verus! {

/// What is to be done next to disconnect.
#[derive(Debug, PartialEq, Eq)]
pub enum DisconnectStep {
    /// Remove the listener `listener_id`.
    RemoveListener(AwaitRemoval),
    /// Disconnect from the SDK.
    Disconnect(AwaitDisconnection),
}

/// A listener is to be removed, and then the remaining ones.
#[derive(Debug, PartialEq, Eq)]
pub struct AwaitRemoval {
    pub listener_id: String,
    pub remaining: Vec<String>,
}

/// The SDK is to be left.
#[derive(Debug, PartialEq, Eq)]
pub struct AwaitDisconnection;

impl DisconnectStep {
    /// The listeners that are still to be removed, in order. The SDK is left once there is none.
    pub open spec fn removals(self) -> Seq<Seq<char>> {
        match self {
            DisconnectStep::RemoveListener(next) => seq![next.listener_id@] + texts(
                next.remaining@,
            ),
            DisconnectStep::Disconnect(_) => Seq::empty(),
        }
    }

    /// The step at which `listener_ids` are left to be removed.
    fn remove(listener_ids: Vec<String>) -> (step: Self)
        ensures
            step.removals() == texts(listener_ids@),
    {
        let mut remaining = listener_ids;
        if remaining.len() == 0 {
            assert(texts(listener_ids@) =~= Seq::empty());
            DisconnectStep::Disconnect(AwaitDisconnection)
        } else {
            let listener_id = remaining.remove(0);
            assert(texts(listener_ids@) =~= seq![listener_id@] + texts(remaining@));
            DisconnectStep::RemoveListener(AwaitRemoval { listener_id, remaining })
        }
    }
}

/// How disconnecting goes on after a listener: with the listeners behind it.
pub open spec fn listener_passed(state: AwaitRemoval, step: DisconnectStep) -> bool {
    step.removals() == DisconnectStep::RemoveListener(state).removals().drop_first()
}

impl BreezBackend {
    /// Disconnects: first each listener is removed, then the SDK is left.
    pub fn disconnect(&mut self) -> (step: DisconnectStep)
        ensures
            step.removals() == old(self)@.listeners,
            final(self)@ == old(self)@.without_listeners(),
    {
        DisconnectStep::remove(self.take_listeners())
    }
}

impl AwaitRemoval {
    /// Takes the SDK's reply. A listener that could not be removed is passed over.
    pub fn resume(self, _removed: bool) -> (step: DisconnectStep)
        ensures
            listener_passed(self, step),
    {
        let step = DisconnectStep::remove(self.remaining);
        assert(DisconnectStep::RemoveListener(self).removals().drop_first() =~= texts(
            self.remaining@,
        ));
        step
    }
}

impl AwaitDisconnection {
    /// Takes the SDK's reply, a failure as its debug text.
    pub fn resume(self, reply: Result<(), String>) -> (result: Result<(), String>)
        ensures
            match reply {
                Ok(()) => result is Ok,
                Err(failure) => result matches Err(message) && message@
                    == "Failed to disconnect from Breez SDK: "@ + failure@,
            },
    {
        match reply {
            Ok(()) => Ok(()),
            Err(failure) => Err(
                "Failed to disconnect from Breez SDK: ".to_owned().concat(failure.as_str()),
            ),
        }
    }
}

} // verus!
