//! Epoch arithmetic over slot numbers.
//!
//! An epoch of `d` slots (a configured length of `0` counts as `1`) spans the
//! slots `k * d .. (k + 1) * d`. The flip to BABE commits in the last slot of an
//! epoch, and BABE's genesis slot is the first slot of the following epoch, so
//! that BABE epochs stay aligned with the sidechain epochs.

use vstd::prelude::*;
use vstd::arithmetic::div_mod::lemma_fundamental_div_mod;

verus! {

/// The epoch length actually used: the configured one, but at least `1`.
pub open spec fn effective_duration(epoch_duration: u64) -> int {
    if epoch_duration == 0 {
        1
    } else {
        epoch_duration as int
    }
}

/// `slot` is the last slot of its epoch.
pub open spec fn is_epoch_end(slot: int, epoch_duration: u64) -> bool {
    (slot + 1) % effective_duration(epoch_duration) == 0
}

/// The first slot of the epoch after the one containing `slot`.
pub open spec fn epoch_boundary_after(slot: int, epoch_duration: u64) -> int {
    let d = effective_duration(epoch_duration);
    (slot / d + 1) * d
}

/// The first slot of the next epoch is the least epoch boundary after `slot`:
/// it starts an epoch, it lies after `slot`, and no more than one epoch length
/// after it.
pub proof fn lemma_boundary_after_is_next_epoch_start(slot: nat, epoch_duration: u64)
    ensures
        epoch_boundary_after(slot as int, epoch_duration) % effective_duration(epoch_duration)
            == 0,
        slot < epoch_boundary_after(slot as int, epoch_duration),
        epoch_boundary_after(slot as int, epoch_duration) <= slot + effective_duration(
            epoch_duration,
        ),
{
    let d = effective_duration(epoch_duration);
    let s = slot as int;
    let q = s / d;
    let r = s % d;
    lemma_fundamental_div_mod(s, d);
    assert((q + 1) * d == d * q + d) by (nonlinear_arith);
    assert(((q + 1) * d) % d == 0) by (nonlinear_arith)
        requires
            d > 0,
    {
        vstd::arithmetic::div_mod::lemma_mod_multiples_basic(q + 1, d);
    }
}

/// At the last slot of an epoch, the first slot of the next epoch is simply
/// the following slot.
pub proof fn lemma_epoch_end_boundary_is_next_slot(slot: nat, epoch_duration: u64)
    requires
        is_epoch_end(slot as int, epoch_duration),
    ensures
        epoch_boundary_after(slot as int, epoch_duration) == slot + 1,
{
    let d = effective_duration(epoch_duration);
    let s = slot as int;
    let q = s / d;
    let r = s % d;
    let k = (s + 1) / d;
    lemma_fundamental_div_mod(s, d);
    lemma_fundamental_div_mod(s + 1, d);
    assert(q == k - 1) by (nonlinear_arith)
        requires
            d > 0,
            s == d * q + r,
            0 <= r < d,
            s + 1 == d * k,
    ;
    assert((q + 1) * d == d * k) by (nonlinear_arith)
        requires
            q == k - 1,
    ;
}

/// A slot ends its epoch exactly when the slot after it is a multiple of the
/// epoch length (a configured length of `0` counting as `1`), and exactly when
/// the next epoch starts at the following slot.
pub proof fn lemma_epoch_end_iff_next_slot_starts_epoch(slot: nat, epoch_duration: u64)
    ensures
        is_epoch_end(slot as int, epoch_duration) <==> (slot + 1) as int % (if epoch_duration == 0 {
            1int
        } else {
            epoch_duration as int
        }) == 0,
        is_epoch_end(slot as int, epoch_duration) <==> epoch_boundary_after(slot as int, epoch_duration)
            == slot + 1,
{
    lemma_boundary_after_is_next_epoch_start(slot, epoch_duration);
    if is_epoch_end(slot as int, epoch_duration) {
        lemma_epoch_end_boundary_is_next_slot(slot, epoch_duration);
    }
}

/// The next epoch start is the multiple of the epoch length (a configured
/// length of `0` counting as `1`) that lies after `slot` by at least one and at
/// most one epoch length; exactly one number has these properties.
pub proof fn lemma_next_epoch_start_is_least_multiple_above(slot: nat, epoch_duration: u64)
    ensures
        ({
            let d = if epoch_duration == 0 {
                1int
            } else {
                epoch_duration as int
            };
            let b = epoch_boundary_after(slot as int, epoch_duration);
            &&& b % d == 0
            &&& slot < b <= slot + d
        }),
{
    lemma_boundary_after_is_next_epoch_start(slot, epoch_duration);
}

} // verus!
