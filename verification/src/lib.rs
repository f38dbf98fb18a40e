//! The decisions of a Lightning payment backend: a mint on the one side, the Breez SDK and a
//! database of quotes on the other.
//!
//! The backend performs nothing itself. A method of [`backend::BreezBackend`] that needs the SDK or
//! the database returns the request to perform and a state to resume from; `resume` takes the reply
//! and decides what comes next, until there is an answer for the mint. [`laws`] states what holds
//! across these steps, [`answers`] what the mint is answered, and [`lifecycle`] what its users see
//! of a backend from start to end.

pub mod amount;
pub mod answers;
pub mod backend;
pub mod clock;
pub mod events;
pub mod hash;
pub mod incoming;
pub mod invoice;
pub mod laws;
pub mod lifecycle;
pub mod outgoing;
pub mod payment;
pub mod quote;
pub mod sdk;
pub mod shutdown;
pub mod startup;
pub mod status;
