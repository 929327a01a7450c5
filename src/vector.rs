use vstd::prelude::*;

verus! {

/// Four binary32 values, each held as its IEEE-754 bit pattern.
///
/// A position or a direction; the fourth component pads it to the
/// 16-byte alignment the kernel expects.
pub type Vec4 = [u32; 4];

/// A position, laid out exactly like a [`Vec4`].
pub type Point4 = [u32; 4];

/// Bit pattern of `0.0`.
pub const ZERO_BITS: u32 = 0;

/// The four words of a vector, in component order.
pub open spec fn vec_words(v: Vec4) -> Seq<u32> {
    seq![v[0], v[1], v[2], v[3]]
}

/// Appends the four words of `v` to `out`.
pub fn push_vec_words(out: &mut Vec<u32>, v: Vec4)
    ensures
        final(out)@ == old(out)@ + vec_words(v),
{
    out.push(v[0]);
    out.push(v[1]);
    out.push(v[2]);
    out.push(v[3]);
    assert(out@ =~= old(out)@ + vec_words(v));
}

} // verus!
