//! The clock.

use vstd::prelude::*;

verus! {

/// The Unix time in seconds, from `cdk_common::util::unix_time`. Nothing is claimed of it: it is
/// whatever the clock of the machine says.
#[verifier::external_body]
pub(crate) fn unix_time() -> (now: u64) {
    cdk_common::util::unix_time()
}

/// `now` is what the clock said when it was read.
pub closed spec fn clock_read(now: u64) -> bool {
    call_ensures(unix_time, (), now)
}

/// Nothing but what [`unix_time`] returned counts as a reading of the clock.
pub(crate) proof fn law_clock_read_is_unix_time(now: u64)
    ensures
        clock_read(now) <==> call_ensures(unix_time, (), now),
{
}

/// Calls `clock` and keeps that it was `clock` that gave the number.
fn reading<C: Fn() -> u64>(clock: C) -> (now: u64)
    requires
        call_requires(clock, ()),
    ensures
        call_ensures(clock, (), now),
{
    clock()
}

/// Reads the clock.
pub(crate) fn read_clock() -> (now: u64)
    ensures
        clock_read(now),
{
    reading(unix_time)
}

} // verus!
