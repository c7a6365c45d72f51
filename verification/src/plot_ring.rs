//! Trusted interface to `slice_ring_buf::SliceRB`, the exact-length ring that
//! holds the scrolling waveform's envelope points as `(max, min)` pairs.

use vstd::prelude::*;

verus! {

#[verifier::external_type_specification]
#[verifier::external_body]
#[verifier::reject_recursive_types(T)]
pub struct ExSliceRB<T>(slice_ring_buf::SliceRB<T>);

/// The ring's backing storage, from raw index 0 up; exactly as long as
/// requested at creation.
pub uninterp spec fn plot_data(b: slice_ring_buf::SliceRB<(i16, i16)>) -> Seq<(i16, i16)>;

/// Relies on `SliceRB::new`: an exact-length ring, every slot holding
/// `value`.
#[verifier::external_body]
pub fn srb_new(len: usize, value: (i16, i16)) -> (b: slice_ring_buf::SliceRB<(i16, i16)>)
    requires
        1 <= len <= 0x4000_0000,
    ensures
        plot_data(b).len() == len,
        forall|p: int| 0 <= p < plot_data(b).len() ==> plot_data(b)[p] == value,
{
    slice_ring_buf::SliceRB::new(core::num::NonZeroUsize::new(len).unwrap(), value)
}

/// Relies on `SliceRB::len`: the storage length.
#[verifier::external_body]
pub fn srb_len(b: &slice_ring_buf::SliceRB<(i16, i16)>) -> (n: usize)
    ensures
        n == plot_data(*b).len(),
{
    b.len().get()
}

/// Relies on `SliceRB::get_mut`: writes the slot at the wrapped index.
#[verifier::external_body]
pub fn srb_set(b: &mut slice_ring_buf::SliceRB<(i16, i16)>, i: isize, value: (i16, i16))
    ensures
        plot_data(*final(b)) == plot_data(*old(b)).update(
            i as int % (plot_data(*old(b)).len() as int),
            value,
        ),
{
    *b.get_mut(i) = value;
}

/// Relies on `SliceRB::as_slices`: the whole storage as two slices, the first
/// from the wrapped start index to the end, the second from the front up to
/// it.
#[verifier::external_body]
pub fn srb_as_slices(b: &slice_ring_buf::SliceRB<(i16, i16)>, start: isize) -> (slices: (
    &[(i16, i16)],
    &[(i16, i16)],
))
    ensures
        slices.0@ == plot_data(*b).skip(start as int % (plot_data(*b).len() as int)),
        slices.1@ == plot_data(*b).take(start as int % (plot_data(*b).len() as int)),
{
    b.as_slices(start)
}

} // verus!
