use vstd::prelude::*;

verus! {

/// The number of connect attempts made after a fault before giving up.
pub const MAX_RECONNECT_ATTEMPTS: u32 = 5;

/// `2^n`.
pub open spec fn pow2(n: nat) -> nat
    decreases n,
{
    if n == 0 {
        1
    } else {
        2 * pow2((n - 1) as nat)
    }
}

/// Seconds to wait before the next connect attempt, after `failures`
/// consecutive failed attempts: none before the first, then 1, 2, 4, ...
pub open spec fn delay_after(failures: nat) -> nat {
    if failures == 0 {
        0
    } else {
        pow2((failures - 1) as nat)
    }
}

/// Computes `delay_after(failures)`.
pub fn backoff_delay(failures: u32) -> (secs: u64)
    requires
        failures < MAX_RECONNECT_ATTEMPTS,
    ensures
        secs as nat == delay_after(failures as nat),
{
    proof {
        reveal_with_fuel(pow2, 4);
    }
    match failures {
        0 => 0,
        1 => 1,
        2 => 2,
        3 => 4,
        _ => 8,
    }
}

} // verus!
