use vstd::prelude::*;

verus! {

/// The texel that coordinate `index` reads under mirrored repetition of a
/// `size`-texel axis: 0..size-1, then size-1 down to 0, and so on.
pub open spec fn mirrored(index: int, size: int) -> int {
    let wrapped = index % (2 * size);
    if wrapped < size {
        wrapped
    } else {
        2 * size - wrapped - 1
    }
}

/// Maps a texel coordinate onto a mirrored-repeat axis of `size` texels.
pub fn mirror_index(index: i32, size: i32) -> (res: i32)
    requires
        0 < size <= i32::MAX / 2,
    ensures
        res == mirrored(index as int, size as int),
        0 <= res < size,
{
    let period = size * 2;
    let wrapped = match index.checked_rem_euclid(period) {
        Some(wrapped) => wrapped,
        None => 0,
    };
    if wrapped < size {
        wrapped
    } else {
        period - wrapped - 1
    }
}

/// Mirrored repetition stays on the axis, is the identity on it, repeats
/// every two axis lengths and reflects about the axis's start.
pub proof fn mirrored_repeat_reflects_and_repeats(index: int, size: int)
    requires
        size > 0,
    ensures
        0 <= mirrored(index, size) < size,
        0 <= index < size ==> mirrored(index, size) == index,
        mirrored(index + 2 * size, size) == mirrored(index, size),
        mirrored(-1 - index, size) == mirrored(index, size),
{
    let period = 2 * size;
    let w = index % period;
    assert(0 <= w < period);
    assert((index + period) % period == w) by {
        vstd::arithmetic::div_mod::lemma_mod_add_multiples_vanish(index, period);
    }
    let v = (-1 - index) % period;
    assert(v == period - 1 - w) by {
        vstd::arithmetic::div_mod::lemma_fundamental_div_mod(index, period);
        vstd::arithmetic::div_mod::lemma_fundamental_div_mod(-1 - index, period);
        let q = index / period;
        assert(-1 - index == (-1 - q) * period + (period - 1 - w)) by (nonlinear_arith)
            requires
                index == q * period + w,
        ;
        vstd::arithmetic::div_mod::lemma_fundamental_div_mod_converse(
            -1 - index,
            period,
            -1 - q,
            period - 1 - w,
        );
    }
    if 0 <= index < size {
        vstd::arithmetic::div_mod::lemma_small_mod(index as nat, period as nat);
    }
}

} // verus!
