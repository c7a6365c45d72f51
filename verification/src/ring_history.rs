//! Trusted interface to `bit_mask_ring_buf::BitMaskRB`, the power-of-two
//! ring buffer holding each oscilloscope channel's rolling sample history.
//! Indexing wraps by bit-masking, which for a power-of-two length equals the
//! Euclidean remainder.

use vstd::prelude::*;

verus! {

#[verifier::external_type_specification]
#[verifier::external_body]
#[verifier::reject_recursive_types(T)]
pub struct ExBitMaskRB<T>(bit_mask_ring_buf::BitMaskRB<T>);

/// The ring's backing storage, from raw index 0 up; always a power of two
/// long, at least 2.
pub uninterp spec fn history_data(b: bit_mask_ring_buf::BitMaskRB<i16>) -> Seq<i16>;

/// The storage after the samples of `input` are written one after another
/// starting at raw position `start mod len`, wrapping, the last writer of a
/// position winning.
pub open spec fn ring_overlay(data: Seq<i16>, input: Seq<i16>, start: int) -> Seq<i16> {
    Seq::new(
        data.len(),
        |p: int|
            {
                let len = data.len() as int;
                let k0 = (p - start) % len;
                if k0 < input.len() {
                    input[k0 + ((input.len() - 1 - k0) / len) * len]
                } else {
                    data[p]
                }
            },
    )
}

/// Relies on `BitMaskRB::new`: the length becomes the next power of two at or
/// above the requested length (at least 2), every slot holding `value`.
#[verifier::external_body]
pub fn bmr_new(len: usize, value: i16) -> (b: bit_mask_ring_buf::BitMaskRB<i16>)
    requires
        len <= 0x4000_0000,
    ensures
        history_data(b).len() >= 2,
        history_data(b).len() >= len,
        len >= 2 ==> history_data(b).len() < 2 * len,
        forall|p: int| 0 <= p < history_data(b).len() ==> history_data(b)[p] == value,
{
    bit_mask_ring_buf::BitMaskRB::new(len, value)
}

/// Relies on `BitMaskRB::len`: the current storage length.
#[verifier::external_body]
pub fn bmr_len(b: &bit_mask_ring_buf::BitMaskRB<i16>) -> (n: usize)
    ensures
        n == history_data(*b).len(),
{
    b.len().get()
}

/// Relies on `BitMaskRB::clear_set_len`: the buffer is reallocated to the
/// next power of two at or above the requested length with every slot set to
/// `value`, discarding the old contents.
#[verifier::external_body]
pub fn bmr_clear_set_len(b: &mut bit_mask_ring_buf::BitMaskRB<i16>, len: usize, value: i16)
    requires
        len <= 0x4000_0000,
    ensures
        history_data(*final(b)).len() >= 2,
        history_data(*final(b)).len() >= len,
        len >= 2 ==> history_data(*final(b)).len() < 2 * len,
        forall|p: int|
            0 <= p < history_data(*final(b)).len() ==> history_data(*final(b))[p] == value,
{
    b.clear_set_len(len, value)
}

/// Relies on `BitMaskRB::constrain`: bit-masking an index into the
/// power-of-two storage equals the Euclidean remainder.
#[verifier::external_body]
pub fn bmr_constrain(b: &bit_mask_ring_buf::BitMaskRB<i16>, i: isize) -> (r: isize)
    ensures
        r == i as int % (history_data(*b).len() as int),
        0 <= r < history_data(*b).len(),
{
    b.constrain(i)
}

/// Relies on `BitMaskRB::get`: reads the slot at the wrapped index.
#[verifier::external_body]
pub fn bmr_get(b: &bit_mask_ring_buf::BitMaskRB<i16>, i: isize) -> (s: i16)
    ensures
        s == history_data(*b)[i as int % (history_data(*b).len() as int)],
{
    *b.get(i)
}

/// Relies on `BitMaskRB::write_latest_2`: the two slices land one after the
/// other starting at `start`, wrapping, newer data overwriting older; the
/// length is unchanged. The call offsets `start` by the slice lengths before
/// wrapping, so both are bounded to keep that sum inside `isize` on every
/// platform.
#[verifier::external_body]
pub fn bmr_write_latest_2(
    b: &mut bit_mask_ring_buf::BitMaskRB<i16>,
    first: &[i16],
    second: &[i16],
    start: isize,
)
    requires
        -0x2000_0000 <= start as int <= 0x2000_0000,
        first@.len() + second@.len() <= 0x4000_0000,
    ensures
        history_data(*final(b)) == ring_overlay(history_data(*old(b)), first@ + second@, start as int),
{
    b.write_latest_2(first, second, start)
}

} // verus!
