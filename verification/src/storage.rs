use vstd::prelude::*;

verus! {

/// One per-channel sample buffer: a fixed-capacity vector of 255 raw samples.
pub type SampleBuffer = heapless::Vec<i32, 255>;

#[verifier::external_type_specification]
#[verifier::external_body]
#[verifier::reject_recursive_types(T)]
pub struct ExHeaplessVec<T, const N: usize>(heapless::Vec<T, N>);

/// The samples a buffer holds, oldest first.
pub uninterp spec fn sample_seq(v: SampleBuffer) -> Seq<i32>;

/// Relies on heapless::Vec::new: a fresh vector holds nothing.
#[verifier::external_body]
pub(crate) fn sample_buffer_new() -> (r: SampleBuffer)
    ensures
        sample_seq(r) == Seq::<i32>::empty(),
{
    heapless::Vec::new()
}

/// Relies on heapless::Vec::len (through its slice view): the number of
/// samples held.
#[verifier::external_body]
pub(crate) fn sample_buffer_len(v: &SampleBuffer) -> (r: usize)
    ensures
        r == sample_seq(*v).len(),
{
    v.len()
}

/// Relies on heapless::Vec::push: below capacity it appends the sample at
/// the back and returns Ok. The requires keeps the full case out, where push
/// would hand the sample back instead.
#[verifier::external_body]
pub(crate) fn sample_buffer_push(v: &mut SampleBuffer, x: i32)
    requires
        sample_seq(*old(v)).len() < 255,
    ensures
        sample_seq(*final(v)) == sample_seq(*old(v)).push(x),
{
    let _ = v.push(x);
}

/// Relies on heapless::Vec::remove at index 0: it removes the oldest sample,
/// shifts the rest down, and returns it. The requires keeps the empty case
/// out, where remove would panic.
#[verifier::external_body]
pub(crate) fn sample_buffer_remove_front(v: &mut SampleBuffer) -> (r: i32)
    requires
        sample_seq(*old(v)).len() > 0,
    ensures
        r == sample_seq(*old(v))[0],
        sample_seq(*final(v)) == sample_seq(*old(v)).drop_first(),
{
    v.remove(0)
}

/// Relies on the slice indexing a heapless::Vec dereferences to: the sample
/// at position `i`, counted from the oldest. The requires keeps out-of-bounds
/// indices out, where the slice would panic.
#[verifier::external_body]
pub(crate) fn sample_buffer_get(v: &SampleBuffer, i: usize) -> (r: i32)
    requires
        i < sample_seq(*v).len(),
    ensures
        r == sample_seq(*v)[i as int],
{
    v[i]
}

} // verus!
