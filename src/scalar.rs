use vstd::prelude::*;

verus! {

/// The smallest multiple of `alignment` that is at least `value`.
pub open spec fn aligned_up(value: int, alignment: int) -> int
    recommends
        alignment > 0,
{
    value + (alignment - value % alignment) % alignment
}

/// Rounds `value` up to the next multiple of `alignment`.
pub fn align(value: usize, alignment: usize) -> (r: usize)
    requires
        alignment > 0,
        aligned_up(value as int, alignment as int) <= usize::MAX,
    ensures
        r == aligned_up(value as int, alignment as int),
        r % alignment == 0,
        value <= r < value + alignment,
{
    let misalignment = value % alignment;
    let padding = (alignment - misalignment) % alignment;
    proof {
        let a = alignment as int;
        let q = value as int / a;
        vstd::arithmetic::div_mod::lemma_fundamental_div_mod(value as int, a);
        if misalignment == 0 {
            vstd::arithmetic::div_mod::lemma_mod_self_0(a);
            vstd::arithmetic::div_mod::lemma_fundamental_div_mod_converse(value as int, a, q, 0);
        } else {
            vstd::arithmetic::div_mod::lemma_small_mod((a - misalignment) as nat, a as nat);
            assert(a * q + a == (q + 1) * a) by (nonlinear_arith);
            vstd::arithmetic::div_mod::lemma_fundamental_div_mod_converse(
                value + padding,
                a,
                q + 1,
                0,
            );
        }
    }
    value + padding
}

/// Number of bytes that the elements of `slice` occupy in memory.
pub fn slice_byte_len<T>(slice: &[T]) -> (r: usize)
    requires
        slice@.len() * vstd::layout::size_of::<T>() <= usize::MAX,
    ensures
        r == slice@.len() * vstd::layout::size_of::<T>(),
{
    slice.len() * core::mem::size_of::<T>()
}

} // verus!
