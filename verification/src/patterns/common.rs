//! The pattern operations behind the P.* and PN.* commands, each on the
//! working pattern or on a pattern named by number.

use vstd::prelude::*;
use crate::state::{Pattern, PatternStorage};
use crate::text::{dec, parse_i16, parse_i16_token, parse_usize, parse_usize_token, push_int};
use crate::args::{eval_expression, eval_token, tok};
use crate::console::{Console, OutputCategory};
use crate::rng::{random_i16_in, shuffle_prefix, sort_prefix};

verus! {

/// Which pattern an operation works on.
#[derive(Clone, Copy, PartialEq, Eq, Debug, Structural)]
pub enum PatternRef {
    /// The working pattern (`P.*` commands).
    Working,
    /// The pattern with this number (`PN.*` commands).
    Explicit(usize),
}

impl PatternRef {
    pub open spec fn target(self, patterns: PatternStorage) -> int {
        match self {
            PatternRef::Working => patterns.working as int,
            PatternRef::Explicit(idx) => idx as int,
        }
    }

    /// The number of the pattern referred to.
    pub fn index(&self, patterns: &PatternStorage) -> (r: usize)
        ensures
            r == self.target(*patterns),
    {
        match self {
            PatternRef::Working => patterns.working,
            PatternRef::Explicit(idx) => *idx,
        }
    }
}

/// The storage is well formed and `r` names one of its six patterns.
pub open spec fn valid_ref(r: PatternRef, ps: PatternStorage) -> bool {
    ps.wf() && 0 <= r.target(ps) < 6
}

pub open spec fn pat(ps: PatternStorage, k: int) -> Pattern {
    ps.patterns@[k]
}

/// `n` is `o` with the steps of pattern `k` replaced by `d`; nothing else moved.
pub open spec fn data_updated(o: PatternStorage, n: PatternStorage, k: int, d: Seq<i16>) -> bool {
    &&& n.wf()
    &&& n.working == o.working
    &&& n.toggle_state == o.toggle_state
    &&& n.patterns@.len() == o.patterns@.len()
    &&& forall|j: int| 0 <= j < 6 && j != k ==> n.patterns@[j] == o.patterns@[j]
    &&& n.patterns@[k].length == o.patterns@[k].length
    &&& n.patterns@[k].index == o.patterns@[k].index
    &&& n.patterns@[k].data@ == d
}

/// `n` is `o` with the play position of pattern `k` set to `idx`; nothing else moved.
pub open spec fn index_updated(o: PatternStorage, n: PatternStorage, k: int, idx: int) -> bool {
    &&& n.wf()
    &&& n.working == o.working
    &&& n.toggle_state == o.toggle_state
    &&& n.patterns@.len() == o.patterns@.len()
    &&& forall|j: int| 0 <= j < 6 && j != k ==> n.patterns@[j] == o.patterns@[j]
    &&& n.patterns@[k].length == o.patterns@[k].length
    &&& n.patterns@[k].data@ == o.patterns@[k].data@
    &&& n.patterns@[k].index == idx
}

// ---------------------------------------------------------------------------
// Arithmetic on steps
// ---------------------------------------------------------------------------

/// The nearest `i16` to `x` (`saturating_*` and `clamp`).
pub open spec fn clamp16(x: int) -> i16 {
    if x < i16::MIN {
        i16::MIN
    } else if x > i16::MAX {
        i16::MAX
    } else {
        x as i16
    }
}

/// Integer division rounding toward zero, as Rust's `/` does.
pub open spec fn tdiv(x: int, d: int) -> int {
    if x == 0 {
        0
    } else if x > 0 && d > 0 {
        x / d
    } else if x < 0 && d < 0 {
        (-x) / (-d)
    } else if x < 0 {
        -((-x) / d)
    } else {
        -(x / (-d))
    }
}

/// The remainder that goes with `tdiv`, as Rust's `%` computes it.
pub open spec fn trem(x: int, d: int) -> int {
    if x == 0 {
        0
    } else if x > 0 && d > 0 {
        x % d
    } else if x < 0 && d < 0 {
        -((-x) % (-d))
    } else if x < 0 {
        -((-x) % d)
    } else {
        x % (-d)
    }
}

pub(crate) fn sat_add(a: i16, b: i16) -> (r: i16)
    ensures
        r == clamp16(a + b),
{
    let s: i32 = a as i32 + b as i32;
    clamp_i32(s)
}

pub(crate) fn sat_sub(a: i16, b: i16) -> (r: i16)
    ensures
        r == clamp16(a - b),
{
    let s: i32 = a as i32 - b as i32;
    clamp_i32(s)
}

pub(crate) fn sat_mul(a: i16, b: i16) -> (r: i16)
    ensures
        r == clamp16(a * b),
{
    assert(-32768 * 32768 <= (a as int) * (b as int) <= 32768 * 32768) by (nonlinear_arith)
        requires
            -32768 <= a <= 32767,
            -32768 <= b <= 32767,
    ;
    let s: i32 = a as i32 * b as i32;
    clamp_i32(s)
}

fn clamp_i32(s: i32) -> (r: i16)
    ensures
        r == clamp16(s as int),
{
    if s < -32768 {
        i16::MIN
    } else if s > 32767 {
        i16::MAX
    } else {
        s as i16
    }
}

pub(crate) fn div16(a: i16, b: i16) -> (r: i16)
    requires
        b != 0,
        !(a == i16::MIN && b == -1),
    ensures
        r as int == tdiv(a as int, b as int),
{
    match a.checked_div(b) {
        Some(q) => q,
        None => {
            proof {
                assert(false) by (nonlinear_arith)
                    requires
                        b != 0,
                        !(a == -32768 && b == -1),
                        -32768 <= a <= 32767,
                        -32768 <= b <= 32767,
                        tdiv(a as int, b as int) < -32768 || tdiv(a as int, b as int) > 32767,
                ;
            }
            0
        },
    }
}

pub(crate) fn rem16(a: i16, b: i16) -> (r: i16)
    requires
        b != 0,
        !(a == i16::MIN && b == -1),
    ensures
        r as int == trem(a as int, b as int),
{
    match a.checked_rem(b) {
        Some(q) => q,
        None => {
            proof {
                assert(false) by (nonlinear_arith)
                    requires
                        b != 0,
                        !(a == -32768 && b == -1),
                        -32768 <= a <= 32767,
                        -32768 <= b <= 32767,
                        trem(a as int, b as int) < -32768 || trem(a as int, b as int) > 32767,
                ;
            }
            0
        },
    }
}

// ---------------------------------------------------------------------------
// What each operation makes of the steps
// ---------------------------------------------------------------------------

pub open spec fn added(d: Seq<i16>, len: int, v: i16) -> Seq<i16> {
    Seq::new(d.len(), |i: int| if i < len { clamp16(d[i] + v) } else { d[i] })
}

pub open spec fn subtracted(d: Seq<i16>, len: int, v: i16) -> Seq<i16> {
    Seq::new(d.len(), |i: int| if i < len { clamp16(d[i] - v) } else { d[i] })
}

pub open spec fn multiplied(d: Seq<i16>, len: int, v: i16) -> Seq<i16> {
    Seq::new(d.len(), |i: int| if i < len { clamp16(d[i] * v) } else { d[i] })
}

pub open spec fn divided(d: Seq<i16>, len: int, v: i16) -> Seq<i16> {
    Seq::new(d.len(), |i: int| if i < len { tdiv(d[i] as int, v as int) as i16 } else { d[i] })
}

pub open spec fn reduced(d: Seq<i16>, len: int, v: i16) -> Seq<i16> {
    Seq::new(d.len(), |i: int| if i < len { trem(d[i] as int, v as int) as i16 } else { d[i] })
}

/// Division by `v` and remainder by `v` stay in range on the first `len` steps
/// (Rust panics on `i16::MIN / -1` and `i16::MIN % -1`).
pub open spec fn no_div_overflow(d: Seq<i16>, len: int, v: i16) -> bool {
    v == -1 ==> forall|i: int| 0 <= i < len ==> d[i] != i16::MIN
}

/// All steps shifted one to the left, `v` entering at the last used step.
pub open spec fn pushed(d: Seq<i16>, len: int, v: i16) -> Seq<i16> {
    Seq::new(
        d.len(),
        |i: int|
            if i < len - 1 {
                d[i + 1]
            } else if i == len - 1 {
                v
            } else {
                d[i]
            },
    )
}

/// `v` inserted at `idx`; the steps after it move right and the last used step falls off.
pub open spec fn inserted(d: Seq<i16>, len: int, idx: int, v: i16) -> Seq<i16> {
    Seq::new(
        d.len(),
        |i: int|
            if i < idx {
                d[i]
            } else if i == idx {
                v
            } else if i < len {
                d[i - 1]
            } else {
                d[i]
            },
    )
}

/// The step at `idx` taken out; the steps after it move left and a 0 enters at the end.
pub open spec fn removed(d: Seq<i16>, len: int, idx: int) -> Seq<i16> {
    Seq::new(
        d.len(),
        |i: int|
            if i < idx {
                d[i]
            } else if i < len - 1 {
                d[i + 1]
            } else if i == len - 1 {
                0
            } else {
                d[i]
            },
    )
}

/// The used steps in reverse order.
pub open spec fn reversed(d: Seq<i16>, len: int) -> Seq<i16> {
    Seq::new(d.len(), |i: int| if i < len { d[len - 1 - i] } else { d[i] })
}

/// The used steps rotated right by `n` (with `0 <= n < len`).
pub open spec fn rotated(d: Seq<i16>, len: int, n: int) -> Seq<i16> {
    Seq::new(d.len(), |i: int| if i < len { d[(i + len - n) % len] } else { d[i] })
}

/// `((n % len) + len) % len` with Rust's `%`: the rotation in `[0, len)`.
pub open spec fn rot_amount(n: int, len: int) -> int {
    trem(trem(n, len) + len, len)
}

/// Sum of a sequence of steps.
pub open spec fn sum16(s: Seq<i16>) -> int
    decreases s.len(),
{
    if s.len() == 0 {
        0
    } else {
        sum16(s.drop_last()) + s.last()
    }
}

pub open spec fn is_min_of(s: Seq<i16>, m: i16) -> bool {
    (exists|i: int| 0 <= i < s.len() && s[i] == m) && forall|i: int| 0 <= i < s.len() ==> m <= s[i]
}

pub open spec fn is_max_of(s: Seq<i16>, m: i16) -> bool {
    (exists|i: int| 0 <= i < s.len() && s[i] == m) && forall|i: int| 0 <= i < s.len() ==> s[i] <= m
}

/// Position of the first `v` in `s`, or -1.
pub open spec fn first_index_of(s: Seq<i16>, v: i16, r: int) -> bool {
    if r == -1 {
        forall|i: int| 0 <= i < s.len() ==> s[i] != v
    } else {
        0 <= r < s.len() && s[r] == v && forall|i: int| 0 <= i < r ==> s[i] != v
    }
}

/// The position of the first `v` in `s`, or -1.
pub open spec fn find_pos(s: Seq<i16>, v: i16) -> int {
    choose|r: int| first_index_of(s, v, r)
}

pub proof fn lemma_find_pos(s: Seq<i16>, v: i16, r: int)
    requires
        first_index_of(s, v, r),
    ensures
        find_pos(s, v) == r,
{
    let c = find_pos(s, v);
    assert(first_index_of(s, v, c));
    if c != r {
        if c == -1 {
            assert(s[r] == v);
        } else if r == -1 {
            assert(s[c] == v);
        } else if c < r {
            assert(s[c] == v);
        } else {
            assert(s[r] == v);
        }
    }
}

/// The value a step takes when the used steps are rescaled from
/// `[omin, omax]` to `[nmin, nmax]`, computed in `i32` as the program does.
pub open spec fn scale_step(x: int, omin: int, omax: int, nmin: int, nmax: int) -> i16 {
    clamp16(tdiv((x - omin) * (nmax - nmin), omax - omin) + nmin)
}

pub open spec fn scaled(d: Seq<i16>, len: int, omin: i16, omax: i16, nmin: i16, nmax: i16) -> Seq<i16> {
    Seq::new(
        d.len(),
        |i: int|
            if i < len {
                if omin == omax {
                    nmin
                } else {
                    scale_step(d[i] as int, omin as int, omax as int, nmin as int, nmax as int)
                }
            } else {
                d[i]
            },
    )
}

/// `r` is the error with text `t`.
pub open spec fn err_text<T>(r: Result<T, &str>, t: Seq<char>) -> bool {
    match r {
        Err(e) => e@ == t,
        Ok(_) => false,
    }
}

/// `r` is the error whose message reads `t`.
pub open spec fn err_string<T>(r: Result<T, String>, t: Seq<char>) -> bool {
    match r {
        Err(e) => e@ == t,
        Ok(_) => false,
    }
}

/// `r` is a success whose message reads `t`.
pub open spec fn ok_text<E>(r: Result<String, E>, t: Seq<char>) -> bool {
    match r {
        Ok(m) => m@ == t,
        Err(_) => false,
    }
}

/// The used steps of pattern `k`.
pub open spec fn used(ps: PatternStorage, k: int) -> Seq<i16> {
    ps.patterns@[k].data@.take(ps.patterns@[k].length as int)
}

// ---------------------------------------------------------------------------
// Messages
// ---------------------------------------------------------------------------

fn msg_int_int(a: &str, x: i128, b: &str, y: i128) -> (s: String)
    requires
        x > i128::MIN,
        y > i128::MIN,
    ensures
        s@ == a@ + dec(x as int) + b@ + dec(y as int),
{
    let mut s = String::from_str(a);
    push_int(&mut s, x);
    s.append(b);
    push_int(&mut s, y);
    s
}

fn msg_int_int_int(a: &str, x: i128, b: &str, y: i128, c: &str, z: i128) -> (s: String)
    requires
        x > i128::MIN,
        y > i128::MIN,
        z > i128::MIN,
    ensures
        s@ == a@ + dec(x as int) + b@ + dec(y as int) + c@ + dec(z as int),
{
    let mut s = msg_int_int(a, x, b, y);
    s.append(c);
    push_int(&mut s, z);
    s
}

pub(crate) fn text_int_int(a: &str, x: i128, b: &str, y: i128) -> (s: String)
    requires
        x > i128::MIN,
        y > i128::MIN,
    ensures
        s@ == a@ + dec(x as int) + b@ + dec(y as int),
{
    msg_int_int(a, x, b, y)
}

pub(crate) fn text_int_int_int(a: &str, x: i128, b: &str, y: i128, c: &str, z: i128) -> (s: String)
    requires
        x > i128::MIN,
        y > i128::MIN,
        z > i128::MIN,
    ensures
        s@ == a@ + dec(x as int) + b@ + dec(y as int) + c@ + dec(z as int),
{
    msg_int_int_int(a, x, b, y, c, z)
}

// ---------------------------------------------------------------------------
// Element-wise arithmetic
// ---------------------------------------------------------------------------

/// Which element-wise operation to apply.
#[derive(Clone, Copy, PartialEq, Eq, Debug, Structural)]
enum StepOp {
    Add,
    Sub,
    Mul,
    Div,
    Rem,
}

spec fn step_result(op: StepOp, d: Seq<i16>, len: int, v: i16) -> Seq<i16> {
    match op {
        StepOp::Add => added(d, len, v),
        StepOp::Sub => subtracted(d, len, v),
        StepOp::Mul => multiplied(d, len, v),
        StepOp::Div => divided(d, len, v),
        StepOp::Rem => reduced(d, len, v),
    }
}

fn apply_steps(op: StepOp, k: usize, v: i16, patterns: &mut PatternStorage)
    requires
        old(patterns).wf(),
        k < 6,
        (op == StepOp::Div || op == StepOp::Rem) ==> v != 0 && no_div_overflow(
            old(patterns).patterns@[k as int].data@,
            old(patterns).patterns@[k as int].length as int,
            v,
        ),
    ensures
        data_updated(
            *old(patterns),
            *final(patterns),
            k as int,
            step_result(
                op,
                old(patterns).patterns@[k as int].data@,
                old(patterns).patterns@[k as int].length as int,
                v,
            ),
        ),
{
    let len = patterns.patterns[k].length;
    let ghost d0 = patterns.patterns@[k as int].data@;
    let mut i: usize = 0;
    while i < len
        invariant
            patterns.wf(),
            old(patterns).wf(),
            k < 6,
            i <= len,
            len == patterns.patterns@[k as int].length,
            len == old(patterns).patterns@[k as int].length,
            d0 == old(patterns).patterns@[k as int].data@,
            (op == StepOp::Div || op == StepOp::Rem) ==> v != 0 && no_div_overflow(d0, len as int, v),
            patterns.working == old(patterns).working,
            patterns.toggle_state == old(patterns).toggle_state,
            forall|j: int| 0 <= j < 6 && j != k ==> patterns.patterns@[j] == old(patterns).patterns@[j],
            patterns.patterns@[k as int].index == old(patterns).patterns@[k as int].index,
            forall|j: int|
                0 <= j < 64 ==> patterns.patterns@[k as int].data@[j] == (if j < i {
                    step_result(op, d0, len as int, v)[j]
                } else {
                    d0[j]
                }),
        decreases len - i,
    {
        let x = patterns.patterns[k].data[i];
        assert(x == d0[i as int]);
        let y = match op {
            StepOp::Add => sat_add(x, v),
            StepOp::Sub => sat_sub(x, v),
            StepOp::Mul => sat_mul(x, v),
            StepOp::Div => div16(x, v),
            StepOp::Rem => rem16(x, v),
        };
        assert(y == step_result(op, d0, len as int, v)[i as int]);
        patterns.patterns[k].data[i] = y;
        i = i + 1;
    }
    proof {
        assert(patterns.patterns@[k as int].data@ =~= step_result(op, d0, len as int, v));
    }
}

/// Adds `val` to every used step, saturating at the `i16` bounds.
pub fn pattern_add_impl(pat_ref: PatternRef, val: i16, patterns: &mut PatternStorage) -> (msg: String)
    requires
        valid_ref(pat_ref, *old(patterns)),
    ensures
        ({
            let k = pat_ref.target(*old(patterns));
            &&& data_updated(*old(patterns), *final(patterns), k, added(pat(*old(patterns), k).data@, pat(*old(patterns), k).length as int, val))
            &&& msg@ == "ADDED "@ + dec(val as int) + " TO PAT "@ + dec(k)
        }),
{
    let k = pat_ref.index(patterns);
    apply_steps(StepOp::Add, k, val, patterns);
    msg_int_int("ADDED ", val as i128, " TO PAT ", k as i128)
}

/// Subtracts `val` from every used step, saturating at the `i16` bounds.
pub fn pattern_sub_impl(pat_ref: PatternRef, val: i16, patterns: &mut PatternStorage) -> (msg: String)
    requires
        valid_ref(pat_ref, *old(patterns)),
    ensures
        ({
            let k = pat_ref.target(*old(patterns));
            &&& data_updated(*old(patterns), *final(patterns), k, subtracted(pat(*old(patterns), k).data@, pat(*old(patterns), k).length as int, val))
            &&& msg@ == "SUBTRACTED "@ + dec(val as int) + " FROM PAT "@ + dec(k)
        }),
{
    let k = pat_ref.index(patterns);
    apply_steps(StepOp::Sub, k, val, patterns);
    msg_int_int("SUBTRACTED ", val as i128, " FROM PAT ", k as i128)
}

/// Multiplies every used step by `val`, saturating at the `i16` bounds.
pub fn pattern_mul_impl(pat_ref: PatternRef, val: i16, patterns: &mut PatternStorage) -> (msg: String)
    requires
        valid_ref(pat_ref, *old(patterns)),
    ensures
        ({
            let k = pat_ref.target(*old(patterns));
            &&& data_updated(*old(patterns), *final(patterns), k, multiplied(pat(*old(patterns), k).data@, pat(*old(patterns), k).length as int, val))
            &&& msg@ == "MULTIPLIED PAT "@ + dec(k) + " BY "@ + dec(val as int)
        }),
{
    let k = pat_ref.index(patterns);
    apply_steps(StepOp::Mul, k, val, patterns);
    msg_int_int("MULTIPLIED PAT ", k as i128, " BY ", val as i128)
}

/// Divides every used step by `val` (rounding toward zero); refuses 0.
pub fn pattern_div_impl(pat_ref: PatternRef, val: i16, patterns: &mut PatternStorage) -> (r: Result<String, &'static str>)
    requires
        valid_ref(pat_ref, *old(patterns)),
        no_div_overflow(
            pat(*old(patterns), pat_ref.target(*old(patterns))).data@,
            pat(*old(patterns), pat_ref.target(*old(patterns))).length as int,
            val,
        ),
    ensures
        val == 0 ==> (*final(patterns) == *old(patterns) && err_text(r, "DIVISION BY ZERO"@)),
        val != 0 ==> ({
            let k = pat_ref.target(*old(patterns));
            &&& data_updated(*old(patterns), *final(patterns), k, divided(pat(*old(patterns), k).data@, pat(*old(patterns), k).length as int, val))
            &&& ok_text(r, "DIVIDED PAT "@ + dec(k) + " BY "@ + dec(val as int))
        }),
{
    if val == 0 {
        return Err("DIVISION BY ZERO");
    }
    let k = pat_ref.index(patterns);
    apply_steps(StepOp::Div, k, val, patterns);
    Ok(msg_int_int("DIVIDED PAT ", k as i128, " BY ", val as i128))
}

/// Replaces every used step by its remainder by `val`; refuses 0.
pub fn pattern_mod_impl(pat_ref: PatternRef, val: i16, patterns: &mut PatternStorage) -> (r: Result<String, &'static str>)
    requires
        valid_ref(pat_ref, *old(patterns)),
        no_div_overflow(
            pat(*old(patterns), pat_ref.target(*old(patterns))).data@,
            pat(*old(patterns), pat_ref.target(*old(patterns))).length as int,
            val,
        ),
    ensures
        val == 0 ==> (*final(patterns) == *old(patterns) && err_text(r, "MODULO BY ZERO"@)),
        val != 0 ==> ({
            let k = pat_ref.target(*old(patterns));
            &&& data_updated(*old(patterns), *final(patterns), k, reduced(pat(*old(patterns), k).data@, pat(*old(patterns), k).length as int, val))
            &&& ok_text(r, "MODULO PAT "@ + dec(k) + " BY "@ + dec(val as int))
        }),
{
    if val == 0 {
        return Err("MODULO BY ZERO");
    }
    let k = pat_ref.index(patterns);
    apply_steps(StepOp::Rem, k, val, patterns);
    Ok(msg_int_int("MODULO PAT ", k as i128, " BY ", val as i128))
}

// ---------------------------------------------------------------------------
// Extremes of the used steps
// ---------------------------------------------------------------------------

/// The least of a non-empty sequence of steps.
pub open spec fn min_of(s: Seq<i16>) -> i16 {
    choose|m: i16| is_min_of(s, m)
}

/// The greatest of a non-empty sequence of steps.
pub open spec fn max_of(s: Seq<i16>) -> i16 {
    choose|m: i16| is_max_of(s, m)
}

pub proof fn lemma_min_of_unique(s: Seq<i16>, m: i16)
    requires
        is_min_of(s, m),
    ensures
        min_of(s) == m,
{
    let c = min_of(s);
    assert(is_min_of(s, c));
    let i = choose|i: int| 0 <= i < s.len() && s[i] == c;
    let j = choose|j: int| 0 <= j < s.len() && s[j] == m;
    assert(m <= s[i]);
    assert(c <= s[j]);
}

pub proof fn lemma_max_of_unique(s: Seq<i16>, m: i16)
    requires
        is_max_of(s, m),
    ensures
        max_of(s) == m,
{
    let c = max_of(s);
    assert(is_max_of(s, c));
    let i = choose|i: int| 0 <= i < s.len() && s[i] == c;
    let j = choose|j: int| 0 <= j < s.len() && s[j] == m;
    assert(s[i] <= m);
    assert(s[j] <= c);
}

fn prefix_min(d: &Vec<i16>, len: usize) -> (m: i16)
    requires
        0 < len <= d@.len(),
    ensures
        is_min_of(d@.take(len as int), m),
        m == min_of(d@.take(len as int)),
{
    let mut m = d[0];
    let mut i: usize = 1;
    while i < len
        invariant
            0 < len <= d@.len(),
            1 <= i <= len,
            exists|j: int| 0 <= j < i && d@[j] == m,
            forall|j: int| 0 <= j < i ==> m <= d@[j],
        decreases len - i,
    {
        if d[i] < m {
            m = d[i];
        }
        i = i + 1;
    }
    proof {
        let s = d@.take(len as int);
        let j = choose|j: int| 0 <= j < len && d@[j] == m;
        assert(s[j] == m);
        lemma_min_of_unique(s, m);
    }
    m
}

fn prefix_max(d: &Vec<i16>, len: usize) -> (m: i16)
    requires
        0 < len <= d@.len(),
    ensures
        is_max_of(d@.take(len as int), m),
        m == max_of(d@.take(len as int)),
{
    let mut m = d[0];
    let mut i: usize = 1;
    while i < len
        invariant
            0 < len <= d@.len(),
            1 <= i <= len,
            exists|j: int| 0 <= j < i && d@[j] == m,
            forall|j: int| 0 <= j < i ==> d@[j] <= m,
        decreases len - i,
    {
        if d[i] > m {
            m = d[i];
        }
        i = i + 1;
    }
    proof {
        let s = d@.take(len as int);
        let j = choose|j: int| 0 <= j < len && d@[j] == m;
        assert(s[j] == m);
        lemma_max_of_unique(s, m);
    }
    m
}

/// The `i32` products of a rescale to `[nmin, nmax]` stay in range
/// (Rust panics on overflow in debug builds).
pub open spec fn scale_fits(s: Seq<i16>, nmin: i16, nmax: i16) -> bool {
    forall|i: int|
        0 <= i < s.len() ==> i32::MIN <= #[trigger] ((s[i] - min_of(s)) * (nmax - nmin)) <= i32::MAX
}

/// What rescaling pattern `k` to `[nmin, nmax]` asks of its steps: the
/// products stay in `i32` wherever they are computed.
pub open spec fn scale_ok(ps: PatternStorage, k: int, nmin: i16, nmax: i16) -> bool {
    (nmin != nmax && used(ps, k).len() > 0 && min_of(used(ps, k)) != max_of(used(ps, k)))
        ==> scale_fits(used(ps, k), nmin, nmax)
}

/// What rescaling pattern `k` to `[nmin, nmax]` asks of its steps when the
/// target range may be a single value.
pub open spec fn steps_scale_ok(ps: PatternStorage, k: int, nmin: i16, nmax: i16) -> bool {
    (used(ps, k).len() > 0 && min_of(used(ps, k)) != max_of(used(ps, k)))
        ==> scale_fits(used(ps, k), nmin, nmax)
}

/// Rescales the used steps of pattern `k` (which has some) onto `[new_min, new_max]`.
pub(crate) fn scale_steps(k: usize, new_min: i16, new_max: i16, patterns: &mut PatternStorage)
    requires
        old(patterns).wf(),
        k < 6,
        old(patterns).patterns@[k as int].length > 0,
        steps_scale_ok(*old(patterns), k as int, new_min, new_max),
    ensures
        ({
            let p = pat(*old(patterns), k as int);
            let u = used(*old(patterns), k as int);
            data_updated(*old(patterns), *final(patterns), k as int,
                scaled(p.data@, p.length as int, min_of(u), max_of(u), new_min, new_max))
        }),
{
    let len = patterns.patterns[k].length;
    let old_min = prefix_min(&patterns.patterns[k].data, len);
    let old_max = prefix_max(&patterns.patterns[k].data, len);
    let ghost d0 = patterns.patterns@[k as int].data@;
    let ghost u = d0.take(len as int);
    let mut i: usize = 0;
    while i < len
        invariant
            patterns.wf(),
            old(patterns).wf(),
            k < 6,
            i <= len,
            len == patterns.patterns@[k as int].length,
            len == old(patterns).patterns@[k as int].length,
            d0 == old(patterns).patterns@[k as int].data@,
            u == d0.take(len as int),
            old_min == min_of(u),
            old_max == max_of(u),
            is_min_of(u, old_min),
            is_max_of(u, old_max),
            old_min != old_max ==> scale_fits(u, new_min, new_max),
            patterns.working == old(patterns).working,
            patterns.toggle_state == old(patterns).toggle_state,
            forall|j: int| 0 <= j < 6 && j != k ==> patterns.patterns@[j] == old(patterns).patterns@[j],
            patterns.patterns@[k as int].index == old(patterns).patterns@[k as int].index,
            forall|j: int|
                0 <= j < 64 ==> patterns.patterns@[k as int].data@[j] == (if j < i {
                    scaled(d0, len as int, old_min, old_max, new_min, new_max)[j]
                } else {
                    d0[j]
                }),
        decreases len - i,
    {
        if old_min == old_max {
            patterns.patterns[k].data[i] = new_min;
        } else {
            let x = patterns.patterns[k].data[i];
            assert(x == u[i as int]);
            assert(i32::MIN <= (u[i as int] - min_of(u)) * (new_max - new_min) <= i32::MAX);
            assert(old_min <= x);
            let diff: i32 = x as i32 - old_min as i32;
            let span: i32 = new_max as i32 - new_min as i32;
            let prod: i32 = diff * span;
            let den: i32 = old_max as i32 - old_min as i32;
            proof {
                let j = choose|j: int| 0 <= j < u.len() && u[j] == old_max;
                assert(old_min <= u[j]);
                assert(den > 0);
            }
            let q: i32 = match prod.checked_div(den) {
                Some(q) => q,
                None => {
                    proof {
                        assert(false) by (nonlinear_arith)
                            requires
                                den > 0,
                                i32::MIN <= prod <= i32::MAX,
                                tdiv(prod as int, den as int) < i32::MIN || tdiv(prod as int, den as int) > i32::MAX,
                        ;
                    }
                    0
                },
            };
            assert(-65536 <= q <= 65536) by (nonlinear_arith)
                requires
                    q == tdiv(prod as int, den as int),
                    prod == diff * span,
                    0 <= diff <= den,
                    den > 0,
                    -65535 <= span <= 65535,
            ;
            let scaled_v: i32 = q + new_min as i32;
            patterns.patterns[k].data[i] = clamp_i32(scaled_v);
        }
        i = i + 1;
    }
    proof {
        assert(patterns.patterns@[k as int].data@ =~= scaled(d0, len as int, old_min, old_max, new_min, new_max));
    }
}

/// Maps the used steps linearly from their own range onto `[new_min, new_max]`.
pub fn pattern_scale_impl(pat_ref: PatternRef, new_min: i16, new_max: i16, patterns: &mut PatternStorage) -> (r: Result<String, String>)
    requires
        valid_ref(pat_ref, *old(patterns)),
        scale_ok(*old(patterns), pat_ref.target(*old(patterns)), new_min, new_max),
    ensures
        ({
            let k = pat_ref.target(*old(patterns));
            let p = pat(*old(patterns), k);
            let u = used(*old(patterns), k);
            if new_min == new_max {
                *final(patterns) == *old(patterns) && err_string(r, "MIN AND MAX CANNOT BE EQUAL"@)
            } else if p.length == 0 {
                *final(patterns) == *old(patterns) && err_string(r, "PAT LENGTH IS ZERO"@)
            } else {
                &&& data_updated(*old(patterns), *final(patterns), k,
                        scaled(p.data@, p.length as int, min_of(u), max_of(u), new_min, new_max))
                &&& ok_text(r, "SCALED PAT "@ + dec(k) + " TO "@ + dec(new_min as int) + "-"@ + dec(new_max as int))
            }
        }),
{
    if new_min == new_max {
        return Err(String::from_str("MIN AND MAX CANNOT BE EQUAL"));
    }
    let k = pat_ref.index(patterns);
    let len = patterns.patterns[k].length;
    if len == 0 {
        return Err(String::from_str("PAT LENGTH IS ZERO"));
    }
    scale_steps(k, new_min, new_max, patterns);
    let mut s = text_int_int("SCALED PAT ", k as i128, " TO ", new_min as i128);
    s.append("-");
    push_int(&mut s, new_max as i128);
    Ok(s)
}

// ---------------------------------------------------------------------------
// Moving steps around
// ---------------------------------------------------------------------------

/// Shifts the used steps one to the left and puts `val` in the last one.
pub fn pattern_push_impl(pat_ref: PatternRef, val: i16, patterns: &mut PatternStorage) -> (r: Result<String, &'static str>)
    requires
        valid_ref(pat_ref, *old(patterns)),
    ensures
        ({
            let k = pat_ref.target(*old(patterns));
            let p = pat(*old(patterns), k);
            if p.length == 0 {
                *final(patterns) == *old(patterns) && err_text(r, "CANNOT OPERATE ON EMPTY PAT"@)
            } else {
                &&& data_updated(*old(patterns), *final(patterns), k, pushed(p.data@, p.length as int, val))
                &&& ok_text(r, "PUSHED "@ + dec(val as int) + " TO PAT "@ + dec(k))
            }
        }),
{
    let k = pat_ref.index(patterns);
    let len = patterns.patterns[k].length;
    if len == 0 {
        return Err("CANNOT OPERATE ON EMPTY PAT");
    }
    let ghost d0 = patterns.patterns@[k as int].data@;
    let mut i: usize = 0;
    while i < len - 1
        invariant
            patterns.wf(),
            old(patterns).wf(),
            k < 6,
            0 < len <= 64,
            i <= len - 1,
            len == patterns.patterns@[k as int].length,
            len == old(patterns).patterns@[k as int].length,
            d0 == old(patterns).patterns@[k as int].data@,
            patterns.working == old(patterns).working,
            patterns.toggle_state == old(patterns).toggle_state,
            forall|j: int| 0 <= j < 6 && j != k ==> patterns.patterns@[j] == old(patterns).patterns@[j],
            patterns.patterns@[k as int].index == old(patterns).patterns@[k as int].index,
            forall|j: int|
                0 <= j < 64 ==> patterns.patterns@[k as int].data@[j] == (if j < i {
                    d0[j + 1]
                } else {
                    d0[j]
                }),
        decreases len - 1 - i,
    {
        let x = patterns.patterns[k].data[i + 1];
        patterns.patterns[k].data[i] = x;
        i = i + 1;
    }
    patterns.patterns[k].data[len - 1] = val;
    proof {
        assert(patterns.patterns@[k as int].data@ =~= pushed(d0, len as int, val));
    }
    Ok(msg_int_int("PUSHED ", val as i128, " TO PAT ", k as i128))
}

/// The last used step (the pattern is left as it is).
pub fn pattern_pop_impl(pat_ref: PatternRef, patterns: &PatternStorage) -> (r: Result<(i16, usize), &'static str>)
    requires
        valid_ref(pat_ref, *patterns),
    ensures
        ({
            let k = pat_ref.target(*patterns);
            let p = pat(*patterns, k);
            if p.length == 0 {
                err_text(r, "PAT LENGTH IS ZERO"@)
            } else {
                r == Ok::<(i16, usize), &'static str>((p.data@[p.length - 1], k as usize))
            }
        }),
{
    let k = pat_ref.index(patterns);
    let len = patterns.patterns[k].length;
    if len == 0 {
        return Err("PAT LENGTH IS ZERO");
    }
    Ok((patterns.patterns[k].data[len - 1], k))
}

/// Inserts `val` at `idx`; the used steps after it move right and the last one falls off.
pub fn pattern_ins_impl(pat_ref: PatternRef, idx: usize, val: i16, patterns: &mut PatternStorage) -> (r: Result<String, String>)
    requires
        valid_ref(pat_ref, *old(patterns)),
    ensures
        ({
            let k = pat_ref.target(*old(patterns));
            let p = pat(*old(patterns), k);
            if idx >= p.length {
                &&& *final(patterns) == *old(patterns)
                &&& err_string(r, "IDX "@ + dec(idx as int) + " OUT OF RANGE (LEN "@ + dec(p.length as int) + ")"@)
            } else {
                &&& data_updated(*old(patterns), *final(patterns), k, inserted(p.data@, p.length as int, idx as int, val))
                &&& ok_text(r, "INSERTED "@ + dec(val as int) + " AT IDX "@ + dec(idx as int) + " IN PAT "@ + dec(k))
            }
        }),
{
    let k = pat_ref.index(patterns);
    let len = patterns.patterns[k].length;
    if idx >= len {
        let mut e = text_int_int("IDX ", idx as i128, " OUT OF RANGE (LEN ", len as i128);
        e.append(")");
        return Err(e);
    }
    let ghost d0 = patterns.patterns@[k as int].data@;
    let mut i: usize = len - 1;
    while i > idx
        invariant
            patterns.wf(),
            old(patterns).wf(),
            k < 6,
            idx < len <= 64,
            idx <= i <= len - 1,
            len == patterns.patterns@[k as int].length,
            len == old(patterns).patterns@[k as int].length,
            d0 == old(patterns).patterns@[k as int].data@,
            patterns.working == old(patterns).working,
            patterns.toggle_state == old(patterns).toggle_state,
            forall|j: int| 0 <= j < 6 && j != k ==> patterns.patterns@[j] == old(patterns).patterns@[j],
            patterns.patterns@[k as int].index == old(patterns).patterns@[k as int].index,
            forall|j: int|
                0 <= j < 64 ==> patterns.patterns@[k as int].data@[j] == (if i < j < len {
                    d0[j - 1]
                } else {
                    d0[j]
                }),
        decreases i,
    {
        let x = patterns.patterns[k].data[i - 1];
        patterns.patterns[k].data[i] = x;
        i = i - 1;
    }
    patterns.patterns[k].data[idx] = val;
    proof {
        assert(patterns.patterns@[k as int].data@ =~= inserted(d0, len as int, idx as int, val));
    }
    Ok(msg_int_int_int("INSERTED ", val as i128, " AT IDX ", idx as i128, " IN PAT ", k as i128))
}

/// Takes out the step at `idx`; the used steps after it move left and a 0 enters at the end.
pub fn pattern_rm_impl(pat_ref: PatternRef, idx: usize, patterns: &mut PatternStorage) -> (r: Result<String, String>)
    requires
        valid_ref(pat_ref, *old(patterns)),
    ensures
        ({
            let k = pat_ref.target(*old(patterns));
            let p = pat(*old(patterns), k);
            if idx >= p.length {
                &&& *final(patterns) == *old(patterns)
                &&& err_string(r, "IDX "@ + dec(idx as int) + " OUT OF RANGE (LEN "@ + dec(p.length as int) + ")"@)
            } else {
                &&& data_updated(*old(patterns), *final(patterns), k, removed(p.data@, p.length as int, idx as int))
                &&& ok_text(r, "REMOVED "@ + dec(p.data@[idx as int] as int) + " FROM IDX "@ + dec(idx as int) + " IN PAT "@ + dec(k))
            }
        }),
{
    let k = pat_ref.index(patterns);
    let len = patterns.patterns[k].length;
    if idx >= len {
        let mut e = text_int_int("IDX ", idx as i128, " OUT OF RANGE (LEN ", len as i128);
        e.append(")");
        return Err(e);
    }
    let removed_val = patterns.patterns[k].data[idx];
    let ghost d0 = patterns.patterns@[k as int].data@;
    let mut i: usize = idx;
    while i < len - 1
        invariant
            patterns.wf(),
            old(patterns).wf(),
            k < 6,
            idx < len <= 64,
            idx <= i <= len - 1,
            len == patterns.patterns@[k as int].length,
            len == old(patterns).patterns@[k as int].length,
            d0 == old(patterns).patterns@[k as int].data@,
            patterns.working == old(patterns).working,
            patterns.toggle_state == old(patterns).toggle_state,
            forall|j: int| 0 <= j < 6 && j != k ==> patterns.patterns@[j] == old(patterns).patterns@[j],
            patterns.patterns@[k as int].index == old(patterns).patterns@[k as int].index,
            forall|j: int|
                0 <= j < 64 ==> patterns.patterns@[k as int].data@[j] == (if idx <= j < i {
                    d0[j + 1]
                } else {
                    d0[j]
                }),
        decreases len - 1 - i,
    {
        let x = patterns.patterns[k].data[i + 1];
        patterns.patterns[k].data[i] = x;
        i = i + 1;
    }
    patterns.patterns[k].data[len - 1] = 0;
    proof {
        assert(patterns.patterns@[k as int].data@ =~= removed(d0, len as int, idx as int));
    }
    Ok(msg_int_int_int("REMOVED ", removed_val as i128, " FROM IDX ", idx as i128, " IN PAT ", k as i128))
}

/// Reverses the used steps; answers the pattern's number.
pub fn pattern_rev_impl(pat_ref: PatternRef, patterns: &mut PatternStorage) -> (k: usize)
    requires
        valid_ref(pat_ref, *old(patterns)),
    ensures
        k == pat_ref.target(*old(patterns)),
        data_updated(*old(patterns), *final(patterns), k as int,
            reversed(pat(*old(patterns), k as int).data@, pat(*old(patterns), k as int).length as int)),
{
    let k = pat_ref.index(patterns);
    let len = patterns.patterns[k].length;
    let ghost d0 = patterns.patterns@[k as int].data@;
    let mut i: usize = 0;
    while i < len / 2
        invariant
            patterns.wf(),
            old(patterns).wf(),
            k < 6,
            len <= 64,
            i <= len / 2,
            len == patterns.patterns@[k as int].length,
            len == old(patterns).patterns@[k as int].length,
            d0 == old(patterns).patterns@[k as int].data@,
            patterns.working == old(patterns).working,
            patterns.toggle_state == old(patterns).toggle_state,
            forall|j: int| 0 <= j < 6 && j != k ==> patterns.patterns@[j] == old(patterns).patterns@[j],
            patterns.patterns@[k as int].index == old(patterns).patterns@[k as int].index,
            forall|j: int|
                0 <= j < 64 ==> patterns.patterns@[k as int].data@[j] == (if j < i || (len - i <= j < len) {
                    d0[len - 1 - j]
                } else {
                    d0[j]
                }),
        decreases len / 2 - i,
    {
        let a = patterns.patterns[k].data[i];
        let b = patterns.patterns[k].data[len - 1 - i];
        patterns.patterns[k].data[i] = b;
        patterns.patterns[k].data[len - 1 - i] = a;
        i = i + 1;
    }
    proof {
        assert(patterns.patterns@[k as int].data@ =~= reversed(d0, len as int));
    }
    k
}

/// Rotates the used steps right by `n` (negative `n` rotates left).
pub fn pattern_rot_impl(pat_ref: PatternRef, n: i16, patterns: &mut PatternStorage) -> (r: Result<String, &'static str>)
    requires
        valid_ref(pat_ref, *old(patterns)),
    ensures
        ({
            let k = pat_ref.target(*old(patterns));
            let p = pat(*old(patterns), k);
            let m = rot_amount(n as int, p.length as int);
            if p.length == 0 {
                *final(patterns) == *old(patterns) && err_text(r, "PAT LENGTH IS ZERO"@)
            } else if m == 0 {
                *final(patterns) == *old(patterns) && ok_text(r, "PAT "@ + dec(k) + " UNCHANGED (ROT 0)"@)
            } else {
                &&& 0 < m < p.length
                &&& data_updated(*old(patterns), *final(patterns), k, rotated(p.data@, p.length as int, m))
                &&& ok_text(r, "ROTATED PAT "@ + dec(k) + " BY "@ + dec(m))
            }
        }),
{
    let k = pat_ref.index(patterns);
    let len_u = patterns.patterns[k].length;
    let len = len_u as i16;
    if len == 0 {
        return Err("PAT LENGTH IS ZERO");
    }
    let r1 = rem16(n, len);
    assert(-64 < r1 < 64) by (nonlinear_arith)
        requires
            r1 == trem(n as int, len as int),
            0 < len <= 64,
    ;
    let m = rem16(r1 + len, len);
    assert(0 <= m < len) by (nonlinear_arith)
        requires
            m == trem(r1 + len, len as int),
            0 < len <= 64,
            -64 < r1 < 64,
            r1 + len > 0,
    ;
    if m == 0 {
        let mut s = String::from_str("PAT ");
        push_int(&mut s, k as i128);
        s.append(" UNCHANGED (ROT 0)");
        return Ok(s);
    }
    let m_u = m as usize;
    let ghost d0 = patterns.patterns@[k as int].data@;
    let mut temp: Vec<i16> = Vec::new();
    let mut i: usize = 0;
    while i < len_u
        invariant
            patterns == old(patterns),
            old(patterns).wf(),
            k < 6,
            i <= len_u,
            len_u == old(patterns).patterns@[k as int].length,
            d0 == old(patterns).patterns@[k as int].data@,
            temp@ == d0.take(i as int),
        decreases len_u - i,
    {
        temp.push(patterns.patterns[k].data[i]);
        i = i + 1;
    }
    i = 0;
    while i < len_u
        invariant
            patterns.wf(),
            old(patterns).wf(),
            k < 6,
            0 < m_u < len_u <= 64,
            i <= len_u,
            len_u == patterns.patterns@[k as int].length,
            len_u == old(patterns).patterns@[k as int].length,
            d0 == old(patterns).patterns@[k as int].data@,
            temp@ == d0.take(len_u as int),
            patterns.working == old(patterns).working,
            patterns.toggle_state == old(patterns).toggle_state,
            forall|j: int| 0 <= j < 6 && j != k ==> patterns.patterns@[j] == old(patterns).patterns@[j],
            patterns.patterns@[k as int].index == old(patterns).patterns@[k as int].index,
            forall|j: int|
                0 <= j < 64 ==> patterns.patterns@[k as int].data@[j] == (if j < i {
                    rotated(d0, len_u as int, m_u as int)[j]
                } else {
                    d0[j]
                }),
        decreases len_u - i,
    {
        let src = (i + len_u - m_u) % len_u;
        let x = temp[src];
        patterns.patterns[k].data[i] = x;
        i = i + 1;
    }
    proof {
        assert(patterns.patterns@[k as int].data@ =~= rotated(d0, len_u as int, m_u as int));
    }
    Ok(msg_int_int("ROTATED PAT ", k as i128, " BY ", m as i128))
}

/// Puts the used steps in a random order.
pub fn pattern_shuf_impl(pat_ref: PatternRef, patterns: &mut PatternStorage) -> (r: Result<usize, &'static str>)
    requires
        valid_ref(pat_ref, *old(patterns)),
    ensures
        ({
            let k = pat_ref.target(*old(patterns));
            let p = pat(*old(patterns), k);
            let q = pat(*final(patterns), k);
            if p.length == 0 {
                *final(patterns) == *old(patterns) && err_text(r, "CANNOT OPERATE ON EMPTY PAT"@)
            } else {
                &&& r == Ok::<usize, &'static str>(k as usize)
                &&& data_updated(*old(patterns), *final(patterns), k, q.data@)
                &&& used(*final(patterns), k).to_multiset() == used(*old(patterns), k).to_multiset()
                &&& q.data@.skip(p.length as int) == p.data@.skip(p.length as int)
            }
        }),
{
    let k = pat_ref.index(patterns);
    let len = patterns.patterns[k].length;
    if len == 0 {
        return Err("CANNOT OPERATE ON EMPTY PAT");
    }
    shuffle_prefix(&mut patterns.patterns[k].data, len);
    proof {
        let o = old(patterns).patterns@[k as int].data@;
        let n = patterns.patterns@[k as int].data@;
        assert(o.subrange(0, len as int) =~= o.take(len as int));
        assert(n.subrange(0, len as int) =~= n.take(len as int));
        assert(o.subrange(len as int, 64) =~= o.skip(len as int));
        assert(n.subrange(len as int, 64) =~= n.skip(len as int));
    }
    Ok(k)
}

/// Sorts the used steps in ascending order; answers the pattern's number.
pub fn pattern_sort_impl(pat_ref: PatternRef, patterns: &mut PatternStorage) -> (k: usize)
    requires
        valid_ref(pat_ref, *old(patterns)),
    ensures
        k == pat_ref.target(*old(patterns)),
        ({
            let p = pat(*old(patterns), k as int);
            let q = pat(*final(patterns), k as int);
            &&& data_updated(*old(patterns), *final(patterns), k as int, q.data@)
            &&& used(*final(patterns), k as int).to_multiset() == used(*old(patterns), k as int).to_multiset()
            &&& forall|i: int, j: int| 0 <= i <= j < p.length ==> q.data@[i] <= q.data@[j]
            &&& q.data@.skip(p.length as int) == p.data@.skip(p.length as int)
        }),
{
    let k = pat_ref.index(patterns);
    let len = patterns.patterns[k].length;
    sort_prefix(&mut patterns.patterns[k].data, len);
    proof {
        let o = old(patterns).patterns@[k as int].data@;
        let n = patterns.patterns@[k as int].data@;
        assert(o.subrange(0, len as int) =~= o.take(len as int));
        assert(n.subrange(0, len as int) =~= n.take(len as int));
        assert(o.subrange(len as int, 64) =~= o.skip(len as int));
        assert(n.subrange(len as int, 64) =~= n.skip(len as int));
    }
    k
}

/// Fills the used steps with random values in `[min, max]`; answers the pattern's number.
pub fn pattern_rnd_impl(pat_ref: PatternRef, min: i16, max: i16, patterns: &mut PatternStorage) -> (k: usize)
    requires
        valid_ref(pat_ref, *old(patterns)),
        pat(*old(patterns), pat_ref.target(*old(patterns))).length > 0 ==> min <= max,
    ensures
        k == pat_ref.target(*old(patterns)),
        ({
            let p = pat(*old(patterns), k as int);
            let q = pat(*final(patterns), k as int);
            &&& data_updated(*old(patterns), *final(patterns), k as int, q.data@)
            &&& forall|i: int| 0 <= i < p.length ==> min <= #[trigger] q.data@[i] <= max
            &&& q.data@.skip(p.length as int) == p.data@.skip(p.length as int)
        }),
{
    let k = pat_ref.index(patterns);
    let len = patterns.patterns[k].length;
    let ghost d0 = patterns.patterns@[k as int].data@;
    let mut i: usize = 0;
    while i < len
        invariant
            patterns.wf(),
            old(patterns).wf(),
            k < 6,
            i <= len,
            len == patterns.patterns@[k as int].length,
            len == old(patterns).patterns@[k as int].length,
            len > 0 ==> min <= max,
            d0 == old(patterns).patterns@[k as int].data@,
            patterns.working == old(patterns).working,
            patterns.toggle_state == old(patterns).toggle_state,
            forall|j: int| 0 <= j < 6 && j != k ==> patterns.patterns@[j] == old(patterns).patterns@[j],
            patterns.patterns@[k as int].index == old(patterns).patterns@[k as int].index,
            forall|j: int| 0 <= j < i ==> min <= #[trigger] patterns.patterns@[k as int].data@[j] <= max,
            forall|j: int| i <= j < 64 ==> #[trigger] patterns.patterns@[k as int].data@[j] == d0[j],
        decreases len - i,
    {
        let v = random_i16_in(min, max);
        patterns.patterns[k].data[i] = v;
        i = i + 1;
    }
    proof {
        assert(patterns.patterns@[k as int].data@.skip(len as int) =~= d0.skip(len as int));
    }
    k
}

// ---------------------------------------------------------------------------
// Queries
// ---------------------------------------------------------------------------

/// The least used step.
pub fn pattern_min_impl(pat_ref: PatternRef, patterns: &PatternStorage) -> (r: Result<i16, &'static str>)
    requires
        valid_ref(pat_ref, *patterns),
    ensures
        ({
            let k = pat_ref.target(*patterns);
            if pat(*patterns, k).length == 0 {
                err_text(r, "PAT LENGTH IS ZERO"@)
            } else {
                r == Ok::<i16, &'static str>(min_of(used(*patterns, k)))
            }
        }),
{
    let k = pat_ref.index(patterns);
    let len = patterns.patterns[k].length;
    if len == 0 {
        return Err("PAT LENGTH IS ZERO");
    }
    Ok(prefix_min(&patterns.patterns[k].data, len))
}

/// The greatest used step.
pub fn pattern_max_impl(pat_ref: PatternRef, patterns: &PatternStorage) -> (r: Result<i16, &'static str>)
    requires
        valid_ref(pat_ref, *patterns),
    ensures
        ({
            let k = pat_ref.target(*patterns);
            if pat(*patterns, k).length == 0 {
                err_text(r, "PAT LENGTH IS ZERO"@)
            } else {
                r == Ok::<i16, &'static str>(max_of(used(*patterns, k)))
            }
        }),
{
    let k = pat_ref.index(patterns);
    let len = patterns.patterns[k].length;
    if len == 0 {
        return Err("PAT LENGTH IS ZERO");
    }
    Ok(prefix_max(&patterns.patterns[k].data, len))
}

proof fn lemma_sum16_bounds(s: Seq<i16>)
    ensures
        -32768 * s.len() <= sum16(s) <= 32767 * s.len(),
    decreases s.len(),
{
    if s.len() > 0 {
        lemma_sum16_bounds(s.drop_last());
    }
}

fn prefix_sum(d: &Vec<i16>, len: usize) -> (s: i32)
    requires
        len <= d@.len(),
        len <= 64,
    ensures
        s == sum16(d@.take(len as int)),
{
    let mut s: i32 = 0;
    let mut i: usize = 0;
    while i < len
        invariant
            i <= len <= 64,
            len <= d@.len(),
            s == sum16(d@.take(i as int)),
        decreases len - i,
    {
        proof {
            assert(d@.take(i + 1).drop_last() =~= d@.take(i as int));
            lemma_sum16_bounds(d@.take(i as int));
        }
        s = s + d[i] as i32;
        i = i + 1;
    }
    s
}

/// The sum of the used steps.
pub fn pattern_sum_impl(pat_ref: PatternRef, patterns: &PatternStorage) -> (s: i32)
    requires
        valid_ref(pat_ref, *patterns),
    ensures
        s == sum16(used(*patterns, pat_ref.target(*patterns))),
{
    let k = pat_ref.index(patterns);
    prefix_sum(&patterns.patterns[k].data, patterns.patterns[k].length)
}

/// The mean of the used steps, rounded toward zero.
pub fn pattern_avg_impl(pat_ref: PatternRef, patterns: &PatternStorage) -> (r: Result<i32, &'static str>)
    requires
        valid_ref(pat_ref, *patterns),
    ensures
        ({
            let k = pat_ref.target(*patterns);
            let n = pat(*patterns, k).length;
            if n == 0 {
                err_text(r, "PAT LENGTH IS ZERO"@)
            } else {
                r matches Ok(a) && a as int == tdiv(sum16(used(*patterns, k)), n as int)
            }
        }),
{
    let k = pat_ref.index(patterns);
    let len = patterns.patterns[k].length;
    if len == 0 {
        return Err("PAT LENGTH IS ZERO");
    }
    let sum = prefix_sum(&patterns.patterns[k].data, len);
    let d: i32 = len as i32;
    match sum.checked_div(d) {
        Some(a) => Ok(a),
        None => {
            proof {
                lemma_sum16_bounds(patterns.patterns@[k as int].data@.take(len as int));
                assert(false) by (nonlinear_arith)
                    requires
                        0 < d <= 64,
                        -32768 * 64 <= sum <= 32767 * 64,
                        tdiv(sum as int, d as int) < i32::MIN || tdiv(sum as int, d as int) > i32::MAX,
                ;
            }
            Err("PAT LENGTH IS ZERO")
        },
    }
}

/// Position of the first used step equal to `val`, or -1.
pub fn pattern_fnd_impl(pat_ref: PatternRef, val: i16, patterns: &PatternStorage) -> (r: i16)
    requires
        valid_ref(pat_ref, *patterns),
    ensures
        first_index_of(used(*patterns, pat_ref.target(*patterns)), val, r as int),
        r as int == find_pos(used(*patterns, pat_ref.target(*patterns)), val),
{
    let k = pat_ref.index(patterns);
    let len = patterns.patterns[k].length;
    let mut i: usize = 0;
    while i < len
        invariant
            patterns.wf(),
            k < 6,
            i <= len <= 64,
            len == patterns.patterns@[k as int].length,
            k == pat_ref.target(*patterns),
            forall|j: int| 0 <= j < i ==> patterns.patterns@[k as int].data@[j] != val,
        decreases len - i,
    {
        if patterns.patterns[k].data[i] == val {
            proof {
                let u = used(*patterns, k as int);
                assert(u.len() == len);
                assert(u[i as int] == val);
                assert((i as i16) as int == i as int);
                assert forall|j: int| 0 <= j < i implies u[j] != val by {
                    assert(u[j] == patterns.patterns@[k as int].data@[j]);
                }
            }
            let r = i as i16;
            proof {
                let u = used(*patterns, k as int);
                assert(first_index_of(u, val, r as int));
                lemma_find_pos(u, val, r as int);
            }
            return r;
        }
        i = i + 1;
    }
    proof {
        let u = used(*patterns, k as int);
        assert forall|j: int| 0 <= j < u.len() implies u[j] != val by {
            assert(u[j] == patterns.patterns@[k as int].data@[j]);
        }
        lemma_find_pos(u, val, -1);
    }
    -1
}

/// The step at the play position, and the pattern's number.
pub fn pattern_here_impl(pat_ref: PatternRef, patterns: &PatternStorage) -> (r: (i16, usize))
    requires
        valid_ref(pat_ref, *patterns),
    ensures
        ({
            let k = pat_ref.target(*patterns);
            r == (pat(*patterns, k).data@[pat(*patterns, k).index as int], k as usize)
        }),
{
    let k = pat_ref.index(patterns);
    let idx = patterns.patterns[k].index;
    (patterns.patterns[k].data[idx], k)
}

/// Advances the play position, wrapping at the used length; answers the
/// step there, the pattern's number and the new position.
pub fn pattern_next_impl(pat_ref: PatternRef, patterns: &mut PatternStorage) -> (r: (i16, usize, usize))
    requires
        valid_ref(pat_ref, *old(patterns)),
        pat(*old(patterns), pat_ref.target(*old(patterns))).length > 0,
    ensures
        ({
            let k = pat_ref.target(*old(patterns));
            let p = pat(*old(patterns), k);
            let ni = (p.index + 1) % (p.length as int);
            &&& index_updated(*old(patterns), *final(patterns), k, ni)
            &&& r == (p.data@[ni], k as usize, ni as usize)
        }),
{
    let k = pat_ref.index(patterns);
    let len = patterns.patterns[k].length;
    let ni = (patterns.patterns[k].index + 1) % len;
    patterns.patterns[k].index = ni;
    (patterns.patterns[k].data[ni], k, ni)
}

/// Moves the play position back, wrapping from 0 to the last used step;
/// answers the step there, the pattern's number and the new position.
pub fn pattern_prev_impl(pat_ref: PatternRef, patterns: &mut PatternStorage) -> (r: (i16, usize, usize))
    requires
        valid_ref(pat_ref, *old(patterns)),
        pat(*old(patterns), pat_ref.target(*old(patterns))).index == 0 ==> pat(
            *old(patterns),
            pat_ref.target(*old(patterns)),
        ).length > 0,
    ensures
        ({
            let k = pat_ref.target(*old(patterns));
            let p = pat(*old(patterns), k);
            let ni = if p.index == 0 { p.length - 1 } else { p.index - 1 };
            &&& index_updated(*old(patterns), *final(patterns), k, ni)
            &&& r == (p.data@[ni], k as usize, ni as usize)
        }),
{
    let k = pat_ref.index(patterns);
    let cur = patterns.patterns[k].index;
    let ni = if cur == 0 {
        patterns.patterns[k].length - 1
    } else {
        cur - 1
    };
    patterns.patterns[k].index = ni;
    (patterns.patterns[k].data[ni], k, ni)
}

/// Reads argument `idx` as a pattern number (0 to 5). A number out of range
/// is reported as an error line and gives `None`; a token that is no number
/// is an error.
pub fn parse_pattern_num(parts: &[&str], idx: usize, out: &mut Console) -> (r: Result<Option<usize>, String>)
    requires
        idx < parts@.len(),
    ensures
        match eval_token(tok(parts@, idx as int)) {
            Some(v) => if 0 <= v <= 5 {
                r == Ok::<Option<usize>, String>(Some(v as usize)) && final(out)@ == old(out)@
            } else {
                r == Ok::<Option<usize>, String>(None) && final(out)@ == old(out)@.push(
                    (OutputCategory::Error, "ERROR: PAT NUM MUST BE 0-5"@),
                )
            },
            None => match parse_usize(tok(parts@, idx as int)) {
                None => (r matches Err(e) && e@ == "Failed to parse pattern number"@) && final(out)@ == old(out)@,
                Some(k) => if k <= 5 {
                    r == Ok::<Option<usize>, String>(Some(k)) && final(out)@ == old(out)@
                } else {
                    r == Ok::<Option<usize>, String>(None) && final(out)@ == old(out)@.push(
                        (OutputCategory::Error, "ERROR: PAT NUM MUST BE 0-5"@),
                    )
                },
            },
        },
{
    let pat: usize = match eval_expression(parts, idx) {
        Some((v, _)) => {
            if v < 0 || v > 5 {
                out.emit_str(OutputCategory::Error, "ERROR: PAT NUM MUST BE 0-5");
                return Ok(None);
            }
            v as usize
        },
        None => match parse_usize_token(parts[idx]) {
            Some(k) => k,
            None => return Err(String::from_str("Failed to parse pattern number")),
        },
    };
    if pat > 5 {
        out.emit_str(OutputCategory::Error, "ERROR: PAT NUM MUST BE 0-5");
        return Ok(None);
    }
    Ok(Some(pat))
}

/// Reads argument `idx` as an `i16`: its evaluated value, else the token
/// parsed; anything else is the error "Failed to parse value".
pub fn parse_i16_expr(parts: &[&str], idx: usize) -> (r: Result<i16, String>)
    requires
        idx < parts@.len(),
    ensures
        match eval_token(tok(parts@, idx as int)) {
            Some(v) => r == Ok::<i16, String>(v),
            None => match parse_i16(tok(parts@, idx as int)) {
                Some(v) => r == Ok::<i16, String>(v),
                None => r matches Err(e) && e@ == "Failed to parse value"@,
            },
        },
{
    match eval_expression(parts, idx) {
        Some((v, _)) => Ok(v),
        None => match parse_i16_token(parts[idx]) {
            Some(v) => Ok(v),
            None => Err(String::from_str("Failed to parse value")),
        },
    }
}

/// The error for a negative value where a count or index is wanted.
pub open spec fn negative_value_error(v: i16) -> Seq<char> {
    "Value must be non-negative, got "@ + dec(v as int)
}

/// Reads argument `idx` as a `usize`: its evaluated value, which must not be
/// negative, else the token parsed; anything else is the error
/// "Failed to parse value".
pub fn parse_usize_expr(parts: &[&str], idx: usize) -> (r: Result<usize, String>)
    requires
        idx < parts@.len(),
    ensures
        match eval_token(tok(parts@, idx as int)) {
            Some(v) => if v < 0 {
                r matches Err(e) && e@ == negative_value_error(v)
            } else {
                r == Ok::<usize, String>(v as usize)
            },
            None => match parse_usize(tok(parts@, idx as int)) {
                Some(k) => r == Ok::<usize, String>(k),
                None => r matches Err(e) && e@ == "Failed to parse value"@,
            },
        },
{
    match eval_expression(parts, idx) {
        Some((v, _)) => {
            if v < 0 {
                let mut e = String::from_str("Value must be non-negative, got ");
                push_int(&mut e, v as i128);
                return Err(e);
            }
            Ok(v as usize)
        },
        None => match parse_usize_token(parts[idx]) {
            Some(k) => Ok(k),
            None => Err(String::from_str("Failed to parse value")),
        },
    }
}

} // verus!
