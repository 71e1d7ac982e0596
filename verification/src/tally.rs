//! The arithmetic of a labelled series: one value per slot, each recording
//! adding one to the value of its slot.
//!
//! A series is modelled as a map from slot to value in which an absent slot
//! stands for zero. The value of a slot wraps at the series' modulus, as the
//! machine integer behind it does.

use vstd::prelude::*;

verus! {

/// The modulus of a request count, which is a 64-bit integer.
pub open spec fn count_modulus() -> int {
    0x1_0000_0000_0000_0000
}

/// The modulus of a histogram's observation count, which has 63 bits.
pub open spec fn sample_modulus() -> int {
    0x8000_0000_0000_0000
}

/// A series in which nothing was recorded yet.
pub open spec fn empty_series() -> Map<u64, u64> {
    Map::empty()
}

/// The value that `values` holds for `slot`: zero where the slot is absent.
pub open spec fn value_at(values: Map<u64, u64>, slot: u64) -> int {
    if values.contains_key(slot) {
        values[slot] as int
    } else {
        0
    }
}

/// `values` after one recording in `slot`.
pub open spec fn bumped(values: Map<u64, u64>, slot: u64, modulus: int) -> Map<u64, u64> {
    values.insert(slot, ((value_at(values, slot) + 1) % modulus) as u64)
}

/// One recording adds one to the value of its own slot, up to the modulus,
/// and leaves every other slot as it was.
pub proof fn lemma_bumped(values: Map<u64, u64>, slot: u64, modulus: int, other: u64)
    requires
        0 < modulus <= count_modulus(),
    ensures
        value_at(bumped(values, slot, modulus), slot) == (value_at(values, slot) + 1) % modulus,
        other != slot ==> value_at(bumped(values, slot, modulus), other) == value_at(
            values,
            other,
        ),
{
    let next = (value_at(values, slot) + 1) % modulus;
    assert(0 <= next < modulus) by (nonlinear_arith)
        requires
            next == (value_at(values, slot) + 1) % modulus,
            0 < modulus,
    ;
}

} // verus!
