use vstd::prelude::*;

verus! {

/// Number of 100-nanosecond ticks in one second.
pub const TICKS_PER_SECOND: u64 = 10_000_000;

/// Seconds between 1601-01-01T00:00:00Z and 1970-01-01T00:00:00Z.
pub const EPOCH_DELTA_SECS: u64 = 11_644_473_600;

/// Whole seconds since the Unix epoch denoted by a tick count since 1601,
/// with every instant before 1970 (the unset value 0 among them) mapped to 0.
pub open spec fn unix_seconds(ticks: nat) -> nat {
    if ticks / 10_000_000 >= 11_644_473_600 {
        (ticks / 10_000_000 - 11_644_473_600) as nat
    } else {
        0
    }
}

/// The tick count of the instant that lies `seconds` whole seconds and
/// `ticks` further ticks, less than a second, after the Unix epoch
/// converts to `seconds`.
pub proof fn law_seconds_after_epoch(seconds: nat, ticks: nat)
    requires
        ticks < 10_000_000,
    ensures
        unix_seconds((11_644_473_600 + seconds) * 10_000_000 + ticks) == seconds,
{
    let whole = 11_644_473_600 + seconds;
    assert((whole * 10_000_000 + ticks) / 10_000_000 == whole) by (nonlinear_arith)
        requires
            ticks < 10_000_000,
    ;
}

/// An instant before the Unix epoch converts to 0.
pub proof fn law_before_epoch_is_zero(ticks: nat)
    requires
        ticks < 11_644_473_600 * 10_000_000,
    ensures
        unix_seconds(ticks) == 0,
{
    assert(ticks / 10_000_000 < 11_644_473_600) by (nonlinear_arith)
        requires
            ticks < 11_644_473_600 * 10_000_000,
    ;
}

/// Converts a tick count since 1601 to whole Unix seconds.
pub fn filetime_to_unix_seconds(ticks: u64) -> (secs: u64)
    ensures
        secs as nat == unix_seconds(ticks as nat),
{
    if ticks == 0 {
        return 0;
    }
    let whole: u64 = ticks / TICKS_PER_SECOND;
    if whole >= EPOCH_DELTA_SECS {
        whole - EPOCH_DELTA_SECS
    } else {
        0
    }
}

} // verus!
