//! Properties that relate the pattern operations to one another.

use vstd::prelude::*;
use crate::patterns::common::{
    added, is_max_of, is_min_of, max_of, min_of, pushed, removed, inserted, reversed, rot_amount,
    rotated, scale_step, subtracted, sum16, tdiv, trem,
};

verus! {

/// Reversing the used steps twice gives back the steps.
pub proof fn law_reverse_twice(d: Seq<i16>, len: int)
    requires
        0 <= len <= d.len(),
    ensures
        reversed(reversed(d, len), len) == d,
{
    assert(reversed(reversed(d, len), len) =~= d);
}

/// Rotating left by the amount of a right rotation undoes it: the rotation
/// by `-n` lands on the complement of the rotation by `n`, and the two
/// rotations compose to the identity.
pub proof fn law_rotate_back(d: Seq<i16>, len: int, n: i16)
    requires
        0 < len <= 64,
        len <= d.len(),
        n != i16::MIN,
    ensures
        ({
            let m = rot_amount(n as int, len);
            let back = rot_amount(-n, len);
            &&& 0 <= m < len
            &&& 0 <= back < len
            &&& (m == 0 <==> back == 0)
            &&& m != 0 ==> rotated(rotated(d, len, m), len, back) == d
        }),
{
    let m = rot_amount(n as int, len);
    let back = rot_amount(-n, len);
    let r1 = trem(n as int, len);
    let r2 = trem(-n, len);
    assert(r2 == -r1) by (nonlinear_arith)
        requires
            r1 == trem(n as int, len),
            r2 == trem(-n, len),
            len > 0,
    ;
    assert(-len < r1 < len) by (nonlinear_arith)
        requires
            r1 == trem(n as int, len),
            len > 0,
    ;
    assert(m == trem(r1 + len, len));
    assert(back == trem(-r1 + len, len));
    if r1 == 0 {
        assert(m == 0) by (nonlinear_arith)
            requires
                m == trem(len, len),
                len > 0,
        ;
        assert(back == 0) by (nonlinear_arith)
            requires
                back == trem(len, len),
                len > 0,
        ;
    } else if r1 > 0 {
        assert(m == r1) by (nonlinear_arith)
            requires
                m == trem(r1 + len, len),
                0 < r1 < len,
        ;
        assert(back == len - r1) by (nonlinear_arith)
            requires
                back == trem(-r1 + len, len),
                0 < r1 < len,
        ;
    } else {
        assert(m == len + r1) by (nonlinear_arith)
            requires
                m == trem(r1 + len, len),
                -len < r1 < 0,
        ;
        assert(back == -r1) by (nonlinear_arith)
            requires
                back == trem(-r1 + len, len),
                -len < r1 < 0,
        ;
    }
    if m != 0 {
        assert(back == len - m);
        let once = rotated(d, len, m);
        let twice = rotated(once, len, back);
        assert forall|i: int| 0 <= i < d.len() implies twice[i] == d[i] by {
            if i < len {
                let j = (i + len - back) % len;
                assert(j == (i + m) % len);
                assert(0 <= j < len) by (nonlinear_arith)
                    requires
                        j == (i + m) % len,
                        len > 0,
                ;
                assert((j + len - m) % len == i) by (nonlinear_arith)
                    requires
                        j == (i + m) % len,
                        0 <= i < len,
                        0 < m < len,
                ;
            }
        }
        assert(twice =~= d);
    }
}

/// The last used step after a push is the pushed value: a pop right after a
/// push answers what was pushed.
pub proof fn law_pop_after_push(d: Seq<i16>, len: int, v: i16)
    requires
        0 < len <= d.len(),
    ensures
        pushed(d, len, v)[len - 1] == v,
        pushed(d, len, v).len() == d.len(),
{
}

/// Removing at the position of an insertion restores the used steps, except
/// the last one, which the insertion dropped and the removal filled with 0.
pub proof fn law_remove_after_insert(d: Seq<i16>, len: int, idx: int, v: i16)
    requires
        0 <= idx < len <= d.len(),
    ensures
        inserted(d, len, idx, v)[idx] == v,
        removed(inserted(d, len, idx, v), len, idx) == d.update(len - 1, 0),
{
    assert(removed(inserted(d, len, idx, v), len, idx) =~= d.update(len - 1, 0));
}

/// Adding `v` and then subtracting it gives back every step that did not
/// saturate.
pub proof fn law_add_then_sub(d: Seq<i16>, len: int, v: i16)
    requires
        0 <= len <= d.len(),
    ensures
        forall|i: int|
            0 <= i < len && i16::MIN <= d[i] + v <= i16::MAX ==> #[trigger] subtracted(
                added(d, len, v),
                len,
                v,
            )[i] == d[i],
{
}

/// Rescaling maps the least used step onto the new minimum and the greatest
/// onto the new maximum.
pub proof fn law_scale_endpoints(omin: i16, omax: i16, nmin: i16, nmax: i16)
    requires
        omin < omax,
    ensures
        scale_step(omin as int, omin as int, omax as int, nmin as int, nmax as int) == nmin,
        scale_step(omax as int, omin as int, omax as int, nmin as int, nmax as int) == nmax,
{
    let span = nmax - nmin;
    let den = omax - omin;
    assert(tdiv(0, den) == 0);
    assert(tdiv(den * span, den) == span) by (nonlinear_arith)
        requires
            den > 0,
    ;
}

proof fn lemma_sum_between(s: Seq<i16>, lo: int, hi: int)
    requires
        forall|i: int| 0 <= i < s.len() ==> lo <= #[trigger] s[i] <= hi,
    ensures
        lo * s.len() <= sum16(s) <= hi * s.len(),
    decreases s.len(),
{
    if s.len() > 0 {
        let t = s.drop_last();
        assert forall|i: int| 0 <= i < t.len() implies lo <= #[trigger] t[i] <= hi by {
            assert(t[i] == s[i]);
        }
        lemma_sum_between(t, lo, hi);
        assert(lo * s.len() == lo * t.len() + lo) by (nonlinear_arith)
            requires
                s.len() == t.len() + 1,
        ;
        assert(hi * s.len() == hi * t.len() + hi) by (nonlinear_arith)
            requires
                s.len() == t.len() + 1,
        ;
    }
}

/// The mean of the used steps lies between their least and greatest.
pub proof fn law_avg_between_min_max(s: Seq<i16>)
    requires
        s.len() > 0,
    ensures
        min_of(s) <= tdiv(sum16(s), s.len() as int) <= max_of(s),
{
    let lo = min_of(s);
    let hi = max_of(s);
    lemma_min_exists(s);
    lemma_max_exists(s);
    lemma_sum_between(s, lo as int, hi as int);
    let n = s.len() as int;
    let sum = sum16(s);
    assert(lo <= tdiv(sum, n) <= hi) by (nonlinear_arith)
        requires
            n > 0,
            lo * n <= sum <= hi * n,
    ;
}

proof fn lemma_min_exists(s: Seq<i16>)
    requires
        s.len() > 0,
    ensures
        is_min_of(s, min_of(s)),
    decreases s.len(),
{
    if s.len() == 1 {
        assert(is_min_of(s, s[0]));
    } else {
        let t = s.drop_last();
        lemma_min_exists(t);
        let mt = min_of(t);
        let i = choose|i: int| 0 <= i < t.len() && t[i] == mt;
        if s.last() < mt {
            assert(is_min_of(s, s.last())) by {
                assert forall|j: int| 0 <= j < s.len() implies s.last() <= s[j] by {
                    if j < t.len() {
                        assert(s[j] == t[j]);
                    }
                }
            }
        } else {
            assert(is_min_of(s, mt)) by {
                assert(s[i] == mt);
                assert forall|j: int| 0 <= j < s.len() implies mt <= s[j] by {
                    if j < t.len() {
                        assert(s[j] == t[j]);
                    }
                }
            }
        }
    }
}

proof fn lemma_max_exists(s: Seq<i16>)
    requires
        s.len() > 0,
    ensures
        is_max_of(s, max_of(s)),
    decreases s.len(),
{
    if s.len() == 1 {
        assert(is_max_of(s, s[0]));
    } else {
        let t = s.drop_last();
        lemma_max_exists(t);
        let mt = max_of(t);
        let i = choose|i: int| 0 <= i < t.len() && t[i] == mt;
        if s.last() > mt {
            assert(is_max_of(s, s.last())) by {
                assert forall|j: int| 0 <= j < s.len() implies s[j] <= s.last() by {
                    if j < t.len() {
                        assert(s[j] == t[j]);
                    }
                }
            }
        } else {
            assert(is_max_of(s, mt)) by {
                assert(s[i] == mt);
                assert forall|j: int| 0 <= j < s.len() implies s[j] <= mt by {
                    if j < t.len() {
                        assert(s[j] == t[j]);
                    }
                }
            }
        }
    }
}

/// Stepping forward and then back returns to the same play position (for a
/// position inside the used steps).
pub proof fn law_next_then_prev(index: int, length: int)
    requires
        0 <= index < length,
    ensures
        ({
            let ni = (index + 1) % length;
            let back = if ni == 0 { length - 1 } else { ni - 1 };
            back == index
        }),
{
    let ni = (index + 1) % length;
    if index + 1 < length {
        assert(ni == index + 1) by (nonlinear_arith)
            requires
                ni == (index + 1) % length,
                0 <= index + 1 < length,
        ;
    } else {
        assert(ni == 0) by (nonlinear_arith)
            requires
                ni == (index + 1) % length,
                index + 1 == length,
                length > 0,
        ;
    }
}

} // verus!
