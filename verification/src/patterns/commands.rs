//! The P.* commands (on the working pattern) and PN.* commands (on a pattern
//! given by number): read the arguments, run the operation, print the answer.

use vstd::prelude::*;
use crate::args::{i16_arg, i16_argument, tok, usize_arg, usize_argument};
use crate::console::{line, Console, OutputCategory};
use crate::patterns::common::{
    added, data_updated, divided, index_updated, max_of, min_of, multiplied, no_div_overflow,
    pat, pattern_add_impl, pattern_avg_impl, pattern_div_impl, pattern_fnd_impl,
    pattern_here_impl, pattern_max_impl, pattern_min_impl, pattern_mod_impl, pattern_mul_impl,
    pattern_next_impl, pattern_prev_impl, pattern_push_impl, pattern_rev_impl, pattern_rot_impl,
    pattern_sort_impl, pattern_sub_impl, pattern_sum_impl, pattern_shuf_impl, pushed, reduced,
    reversed, rot_amount, rotated, subtracted, sum16, tdiv, text_int_int, used,
    PatternRef,
};
use crate::state::PatternStorage;
use crate::patterns::common::{
    inserted, removed, scaled, steps_scale_ok, scale_steps, pattern_ins_impl, pattern_rm_impl,
    pattern_rnd_impl,
};
use crate::text::{dec, push_int, text_int};

verus! {

pub open spec fn working(ps: PatternStorage) -> int {
    ps.working as int
}

/// `r` failed with the message `t`.
pub open spec fn failed(r: Result<(), String>, t: Seq<char>) -> bool {
    match r {
        Err(e) => e@ == t,
        Ok(_) => false,
    }
}

fn say(out: &mut Console, text: String)
    ensures
        final(out)@ == old(out)@.push(line(text@)),
{
    out.emit(OutputCategory::Always, text);
}

fn say_str(out: &mut Console, text: &str)
    ensures
        final(out)@ == old(out)@.push(line(text@)),
{
    out.emit_str(OutputCategory::Always, text);
}

// ---------------------------------------------------------------------------
// Working pattern, no arguments
// ---------------------------------------------------------------------------

/// P.HERE: prints the step at the play position.
pub fn handle_pattern_here(patterns: &PatternStorage, out: &mut Console)
    requires
        patterns.wf(),
    ensures
        final(out)@ == old(out)@.push(line("P.HERE = "@ + dec(
            pat(*patterns, working(*patterns)).data@[pat(*patterns, working(*patterns)).index as int] as int,
        ))),
{
    let (v, _) = pattern_here_impl(PatternRef::Working, patterns);
    say(out, text_int("P.HERE = ", v as i128));
}

/// P.NEXT: advances the play position and prints the step there.
pub fn handle_pattern_next(patterns: &mut PatternStorage, out: &mut Console)
    requires
        old(patterns).wf(),
        pat(*old(patterns), working(*old(patterns))).length > 0,
    ensures
        ({
            let p = pat(*old(patterns), working(*old(patterns)));
            let ni = (p.index + 1) % (p.length as int);
            &&& index_updated(*old(patterns), *final(patterns), working(*old(patterns)), ni)
            &&& final(out)@ == old(out)@.push(line("P.NEXT = "@ + dec(p.data@[ni] as int) + " (INDEX NOW "@ + dec(ni) + ")"@))
        }),
{
    let (v, _, ni) = pattern_next_impl(PatternRef::Working, patterns);
    let mut s = text_int_int("P.NEXT = ", v as i128, " (INDEX NOW ", ni as i128);
    s.append(")");
    say(out, s);
}

/// P.PREV: moves the play position back and prints the step there.
pub fn handle_pattern_prev(patterns: &mut PatternStorage, out: &mut Console)
    requires
        old(patterns).wf(),
        pat(*old(patterns), working(*old(patterns))).index == 0 ==> pat(*old(patterns), working(*old(patterns))).length > 0,
    ensures
        ({
            let p = pat(*old(patterns), working(*old(patterns)));
            let ni = if p.index == 0 { p.length - 1 } else { p.index - 1 };
            &&& index_updated(*old(patterns), *final(patterns), working(*old(patterns)), ni)
            &&& final(out)@ == old(out)@.push(line("P.PREV = "@ + dec(p.data@[ni] as int) + " (INDEX NOW "@ + dec(ni) + ")"@))
        }),
{
    let (v, _, ni) = pattern_prev_impl(PatternRef::Working, patterns);
    let mut s = text_int_int("P.PREV = ", v as i128, " (INDEX NOW ", ni as i128);
    s.append(")");
    say(out, s);
}

/// P.POP: prints the last used step.
pub fn handle_pattern_pop(patterns: &mut PatternStorage, out: &mut Console)
    requires
        old(patterns).wf(),
    ensures
        *final(patterns) == *old(patterns),
        ({
            let p = pat(*old(patterns), working(*old(patterns)));
            if p.length == 0 {
                final(out)@ == old(out)@.push(line("ERROR: PATTERN LENGTH IS ZERO"@))
            } else {
                final(out)@ == old(out)@.push(line("P.POP = "@ + dec(p.data@[p.length - 1] as int)))
            }
        }),
{
    match pattern_pop_impl_ref(patterns) {
        Err(_) => say_str(out, "ERROR: PATTERN LENGTH IS ZERO"),
        Ok((v, _)) => say(out, text_int("P.POP = ", v as i128)),
    }
}

fn pattern_pop_impl_ref(patterns: &PatternStorage) -> (r: Result<(i16, usize), &'static str>)
    requires
        patterns.wf(),
    ensures
        ({
            let p = pat(*patterns, working(*patterns));
            if p.length == 0 {
                r is Err
            } else {
                r == Ok::<(i16, usize), &'static str>((p.data@[p.length - 1], patterns.working))
            }
        }),
{
    crate::patterns::common::pattern_pop_impl(PatternRef::Working, patterns)
}

/// P.REV: reverses the used steps.
pub fn handle_pattern_rev(patterns: &mut PatternStorage, out: &mut Console)
    requires
        old(patterns).wf(),
    ensures
        ({
            let w = working(*old(patterns));
            &&& data_updated(*old(patterns), *final(patterns), w,
                    reversed(pat(*old(patterns), w).data@, pat(*old(patterns), w).length as int))
            &&& final(out)@ == old(out)@.push(line("REVERSED PATTERN "@ + dec(w)))
        }),
{
    let k = pattern_rev_impl(PatternRef::Working, patterns);
    say(out, text_int("REVERSED PATTERN ", k as i128));
}

/// P.SHUF: puts the used steps in a random order.
pub fn handle_pattern_shuf(patterns: &mut PatternStorage, out: &mut Console)
    requires
        old(patterns).wf(),
    ensures
        ({
            let w = working(*old(patterns));
            let p = pat(*old(patterns), w);
            let q = pat(*final(patterns), w);
            &&& data_updated(*old(patterns), *final(patterns), w, q.data@)
            &&& used(*final(patterns), w).to_multiset() == used(*old(patterns), w).to_multiset()
            &&& q.data@.skip(p.length as int) == p.data@.skip(p.length as int)
            &&& final(out)@ == old(out)@.push(line("SHUFFLED PATTERN "@ + dec(w)))
        }),
{
    let w = patterns.working;
    let _ = pattern_shuf_impl(PatternRef::Working, patterns);
    proof {
        if patterns.patterns@[w as int].length == 0 {
            assert(used(*patterns, w as int) =~= used(*old(patterns), w as int));
        }
    }
    say(out, text_int("SHUFFLED PATTERN ", w as i128));
}

/// P.SORT: sorts the used steps in ascending order.
pub fn handle_pattern_sort(patterns: &mut PatternStorage, out: &mut Console)
    requires
        old(patterns).wf(),
    ensures
        ({
            let w = working(*old(patterns));
            let p = pat(*old(patterns), w);
            let q = pat(*final(patterns), w);
            &&& data_updated(*old(patterns), *final(patterns), w, q.data@)
            &&& used(*final(patterns), w).to_multiset() == used(*old(patterns), w).to_multiset()
            &&& forall|i: int, j: int| 0 <= i <= j < p.length ==> q.data@[i] <= q.data@[j]
            &&& q.data@.skip(p.length as int) == p.data@.skip(p.length as int)
            &&& final(out)@ == old(out)@.push(line("SORTED PATTERN "@ + dec(w)))
        }),
{
    let k = pattern_sort_impl(PatternRef::Working, patterns);
    say(out, text_int("SORTED PATTERN ", k as i128));
}

/// P.MIN: prints the least used step.
pub fn handle_pattern_min(patterns: &PatternStorage, out: &mut Console)
    requires
        patterns.wf(),
    ensures
        ({
            let w = working(*patterns);
            if pat(*patterns, w).length == 0 {
                final(out)@ == old(out)@.push(line("ERROR: PATTERN LENGTH IS ZERO"@))
            } else {
                final(out)@ == old(out)@.push(line("P.MIN = "@ + dec(min_of(used(*patterns, w)) as int)))
            }
        }),
{
    match pattern_min_impl(PatternRef::Working, patterns) {
        Err(_) => say_str(out, "ERROR: PATTERN LENGTH IS ZERO"),
        Ok(v) => say(out, text_int("P.MIN = ", v as i128)),
    }
}

/// P.MAX: prints the greatest used step.
pub fn handle_pattern_max(patterns: &PatternStorage, out: &mut Console)
    requires
        patterns.wf(),
    ensures
        ({
            let w = working(*patterns);
            if pat(*patterns, w).length == 0 {
                final(out)@ == old(out)@.push(line("ERROR: PATTERN LENGTH IS ZERO"@))
            } else {
                final(out)@ == old(out)@.push(line("P.MAX = "@ + dec(max_of(used(*patterns, w)) as int)))
            }
        }),
{
    match pattern_max_impl(PatternRef::Working, patterns) {
        Err(_) => say_str(out, "ERROR: PATTERN LENGTH IS ZERO"),
        Ok(v) => say(out, text_int("P.MAX = ", v as i128)),
    }
}

/// P.SUM: prints the sum of the used steps.
pub fn handle_pattern_sum(patterns: &PatternStorage, out: &mut Console)
    requires
        patterns.wf(),
    ensures
        final(out)@ == old(out)@.push(line("P.SUM = "@ + dec(sum16(used(*patterns, working(*patterns)))))),
{
    let s = pattern_sum_impl(PatternRef::Working, patterns);
    say(out, text_int("P.SUM = ", s as i128));
}

/// P.AVG: prints the mean of the used steps, rounded toward zero.
pub fn handle_pattern_avg(patterns: &PatternStorage, out: &mut Console)
    requires
        patterns.wf(),
    ensures
        ({
            let w = working(*patterns);
            let n = pat(*patterns, w).length;
            if n == 0 {
                final(out)@ == old(out)@.push(line("ERROR: PATTERN LENGTH IS ZERO"@))
            } else {
                final(out)@ == old(out)@.push(line("P.AVG = "@ + dec(tdiv(sum16(used(*patterns, w)), n as int))))
            }
        }),
{
    match pattern_avg_impl(PatternRef::Working, patterns) {
        Err(_) => say_str(out, "ERROR: PATTERN LENGTH IS ZERO"),
        Ok(v) => say(out, text_int("P.AVG = ", v as i128)),
    }
}

/// P.ADD: adds a value to every used step (saturating).
pub fn handle_pattern_add(parts: &[&str], patterns: &mut PatternStorage, out: &mut Console) -> (r: Result<(), String>)
    requires
        old(patterns).wf(),
    ensures
        parts@.len() < 2 ==> *final(patterns) == *old(patterns) && r is Ok
            && final(out)@ == old(out)@.push(line("ERROR: P.ADD REQUIRES A VALUE"@)),
        parts@.len() >= 2 ==> match i16_arg(tok(parts@, 1)) {
            None => *final(patterns) == *old(patterns) && final(out)@ == old(out)@
                && failed(r, "Failed to parse add value"@),
            Some(v) => {
                let w = working(*old(patterns));
                &&& data_updated(*old(patterns), *final(patterns), w,
                        added(pat(*old(patterns), w).data@, pat(*old(patterns), w).length as int, v))
                &&& r is Ok
                &&& final(out)@ == old(out)@.push(line("ADDED "@ + dec(v as int) + " TO PATTERN "@ + dec(w)))
            },
        },
{
    if parts.len() < 2 {
        say_str(out, "ERROR: P.ADD REQUIRES A VALUE");
        return Ok(());
    }
    let v = i16_argument(parts, 1, "Failed to parse add value")?;
    let w = patterns.working;
    let _ = pattern_add_impl(PatternRef::Working, v, patterns);
    say(out, text_int_int("ADDED ", v as i128, " TO PATTERN ", w as i128));
    Ok(())
}

/// P.SUB: subtracts a value from every used step (saturating).
pub fn handle_pattern_sub(parts: &[&str], patterns: &mut PatternStorage, out: &mut Console) -> (r: Result<(), String>)
    requires
        old(patterns).wf(),
    ensures
        parts@.len() < 2 ==> *final(patterns) == *old(patterns) && r is Ok
            && final(out)@ == old(out)@.push(line("ERROR: P.SUB REQUIRES A VALUE"@)),
        parts@.len() >= 2 ==> match i16_arg(tok(parts@, 1)) {
            None => *final(patterns) == *old(patterns) && final(out)@ == old(out)@
                && failed(r, "Failed to parse sub value"@),
            Some(v) => {
                let w = working(*old(patterns));
                &&& data_updated(*old(patterns), *final(patterns), w,
                        subtracted(pat(*old(patterns), w).data@, pat(*old(patterns), w).length as int, v))
                &&& r is Ok
                &&& final(out)@ == old(out)@.push(line("SUBTRACTED "@ + dec(v as int) + " FROM PATTERN "@ + dec(w)))
            },
        },
{
    if parts.len() < 2 {
        say_str(out, "ERROR: P.SUB REQUIRES A VALUE");
        return Ok(());
    }
    let v = i16_argument(parts, 1, "Failed to parse sub value")?;
    let w = patterns.working;
    let _ = pattern_sub_impl(PatternRef::Working, v, patterns);
    say(out, text_int_int("SUBTRACTED ", v as i128, " FROM PATTERN ", w as i128));
    Ok(())
}

/// P.MUL: multiplies every used step by a value (saturating).
pub fn handle_pattern_mul(parts: &[&str], patterns: &mut PatternStorage, out: &mut Console) -> (r: Result<(), String>)
    requires
        old(patterns).wf(),
    ensures
        parts@.len() < 2 ==> *final(patterns) == *old(patterns) && r is Ok
            && final(out)@ == old(out)@.push(line("ERROR: P.MUL REQUIRES A VALUE"@)),
        parts@.len() >= 2 ==> match i16_arg(tok(parts@, 1)) {
            None => *final(patterns) == *old(patterns) && final(out)@ == old(out)@
                && failed(r, "Failed to parse mul value"@),
            Some(v) => {
                let w = working(*old(patterns));
                &&& data_updated(*old(patterns), *final(patterns), w,
                        multiplied(pat(*old(patterns), w).data@, pat(*old(patterns), w).length as int, v))
                &&& r is Ok
                &&& final(out)@ == old(out)@.push(line("MULTIPLIED PATTERN "@ + dec(w) + " BY "@ + dec(v as int)))
            },
        },
{
    if parts.len() < 2 {
        say_str(out, "ERROR: P.MUL REQUIRES A VALUE");
        return Ok(());
    }
    let v = i16_argument(parts, 1, "Failed to parse mul value")?;
    let w = patterns.working;
    let _ = pattern_mul_impl(PatternRef::Working, v, patterns);
    say(out, text_int_int("MULTIPLIED PATTERN ", w as i128, " BY ", v as i128));
    Ok(())
}

/// P.DIV: divides every used step by a value (rounding toward zero); a zero is refused.
pub fn handle_pattern_div(parts: &[&str], patterns: &mut PatternStorage, out: &mut Console) -> (r: Result<(), String>)
    requires
        old(patterns).wf(),
        parts@.len() >= 2 ==> match i16_arg(tok(parts@, 1)) {
            Some(v) => no_div_overflow(pat(*old(patterns), working(*old(patterns))).data@,
                pat(*old(patterns), working(*old(patterns))).length as int, v),
            None => true,
        },
    ensures
        parts@.len() < 2 ==> *final(patterns) == *old(patterns) && r is Ok
            && final(out)@ == old(out)@.push(line("ERROR: P.DIV REQUIRES A VALUE"@)),
        parts@.len() >= 2 ==> match i16_arg(tok(parts@, 1)) {
            None => *final(patterns) == *old(patterns) && final(out)@ == old(out)@
                && failed(r, "Failed to parse div value"@),
            Some(v) => if v == 0 {
                *final(patterns) == *old(patterns) && r is Ok
                    && final(out)@ == old(out)@.push(line("ERROR: DIVISION BY ZERO"@))
            } else {
                let w = working(*old(patterns));
                &&& data_updated(*old(patterns), *final(patterns), w,
                        divided(pat(*old(patterns), w).data@, pat(*old(patterns), w).length as int, v))
                &&& r is Ok
                &&& final(out)@ == old(out)@.push(line("DIVIDED PATTERN "@ + dec(w) + " BY "@ + dec(v as int)))
            },
        },
{
    if parts.len() < 2 {
        say_str(out, "ERROR: P.DIV REQUIRES A VALUE");
        return Ok(());
    }
    let v = i16_argument(parts, 1, "Failed to parse div value")?;
    if v == 0 {
        say_str(out, "ERROR: DIVISION BY ZERO");
        return Ok(());
    }
    let w = patterns.working;
    let _ = pattern_div_impl(PatternRef::Working, v, patterns);
    say(out, text_int_int("DIVIDED PATTERN ", w as i128, " BY ", v as i128));
    Ok(())
}

/// P.MOD: replaces every used step by its remainder by a value; a zero is refused.
pub fn handle_pattern_mod(parts: &[&str], patterns: &mut PatternStorage, out: &mut Console) -> (r: Result<(), String>)
    requires
        old(patterns).wf(),
        parts@.len() >= 2 ==> match i16_arg(tok(parts@, 1)) {
            Some(v) => no_div_overflow(pat(*old(patterns), working(*old(patterns))).data@,
                pat(*old(patterns), working(*old(patterns))).length as int, v),
            None => true,
        },
    ensures
        parts@.len() < 2 ==> *final(patterns) == *old(patterns) && r is Ok
            && final(out)@ == old(out)@.push(line("ERROR: P.MOD REQUIRES A VALUE"@)),
        parts@.len() >= 2 ==> match i16_arg(tok(parts@, 1)) {
            None => *final(patterns) == *old(patterns) && final(out)@ == old(out)@
                && failed(r, "Failed to parse mod value"@),
            Some(v) => if v == 0 {
                *final(patterns) == *old(patterns) && r is Ok
                    && final(out)@ == old(out)@.push(line("ERROR: MODULO BY ZERO"@))
            } else {
                let w = working(*old(patterns));
                &&& data_updated(*old(patterns), *final(patterns), w,
                        reduced(pat(*old(patterns), w).data@, pat(*old(patterns), w).length as int, v))
                &&& r is Ok
                &&& final(out)@ == old(out)@.push(line("MODULO PATTERN "@ + dec(w) + " BY "@ + dec(v as int)))
            },
        },
{
    if parts.len() < 2 {
        say_str(out, "ERROR: P.MOD REQUIRES A VALUE");
        return Ok(());
    }
    let v = i16_argument(parts, 1, "Failed to parse mod value")?;
    if v == 0 {
        say_str(out, "ERROR: MODULO BY ZERO");
        return Ok(());
    }
    let w = patterns.working;
    let _ = pattern_mod_impl(PatternRef::Working, v, patterns);
    say(out, text_int_int("MODULO PATTERN ", w as i128, " BY ", v as i128));
    Ok(())
}

/// P.PUSH: shifts the used steps left and puts a value in the last one.
pub fn handle_pattern_push(parts: &[&str], patterns: &mut PatternStorage, out: &mut Console) -> (r: Result<(), String>)
    requires
        old(patterns).wf(),
        parts@.len() >= 2 && i16_arg(tok(parts@, 1)) is Some ==> pat(*old(patterns), working(*old(patterns))).length > 0,
    ensures
        parts@.len() < 2 ==> *final(patterns) == *old(patterns) && r is Ok
            && final(out)@ == old(out)@.push(line("ERROR: P.PUSH REQUIRES A VALUE"@)),
        parts@.len() >= 2 ==> match i16_arg(tok(parts@, 1)) {
            None => *final(patterns) == *old(patterns) && final(out)@ == old(out)@
                && failed(r, "Failed to parse push value"@),
            Some(v) => {
                let w = working(*old(patterns));
                &&& data_updated(*old(patterns), *final(patterns), w,
                        pushed(pat(*old(patterns), w).data@, pat(*old(patterns), w).length as int, v))
                &&& r is Ok
                &&& final(out)@ == old(out)@.push(line("PUSHED "@ + dec(v as int) + " TO PATTERN "@ + dec(w)))
            },
        },
{
    if parts.len() < 2 {
        say_str(out, "ERROR: P.PUSH REQUIRES A VALUE");
        return Ok(());
    }
    let v = i16_argument(parts, 1, "Failed to parse push value")?;
    let w = patterns.working;
    let _ = pattern_push_impl(PatternRef::Working, v, patterns);
    say(out, text_int_int("PUSHED ", v as i128, " TO PATTERN ", w as i128));
    Ok(())
}

/// P.ROT: rotates the used steps right by a value (left when negative).
pub fn handle_pattern_rot(parts: &[&str], patterns: &mut PatternStorage, out: &mut Console) -> (r: Result<(), String>)
    requires
        old(patterns).wf(),
    ensures
        parts@.len() < 2 ==> *final(patterns) == *old(patterns) && r is Ok
            && final(out)@ == old(out)@.push(line("ERROR: P.ROT REQUIRES A ROTATION AMOUNT"@)),
        parts@.len() >= 2 ==> match i16_arg(tok(parts@, 1)) {
            None => *final(patterns) == *old(patterns) && final(out)@ == old(out)@
                && failed(r, "Failed to parse rotation amount"@),
            Some(n) => {
                let w = working(*old(patterns));
                let p = pat(*old(patterns), w);
                let m = rot_amount(n as int, p.length as int);
                &&& r is Ok
                &&& if p.length == 0 {
                    *final(patterns) == *old(patterns)
                        && final(out)@ == old(out)@.push(line("ERROR: PATTERN LENGTH IS ZERO"@))
                } else if m == 0 {
                    *final(patterns) == *old(patterns)
                        && final(out)@ == old(out)@.push(line("PATTERN "@ + dec(w) + " UNCHANGED (ROTATION 0)"@))
                } else {
                    &&& data_updated(*old(patterns), *final(patterns), w, rotated(p.data@, p.length as int, m))
                    &&& final(out)@ == old(out)@.push(line("ROTATED PATTERN "@ + dec(w) + " BY "@ + dec(m)))
                }
            },
        },
{
    if parts.len() < 2 {
        say_str(out, "ERROR: P.ROT REQUIRES A ROTATION AMOUNT");
        return Ok(());
    }
    let n = i16_argument(parts, 1, "Failed to parse rotation amount")?;
    let w = patterns.working;
    rot_command(PatternRef::Working, n, w, patterns, out);
    Ok(())
}

/// Rotates pattern `k` and prints what the ROT commands print.
fn rot_command(pat_ref: PatternRef, n: i16, k: usize, patterns: &mut PatternStorage, out: &mut Console)
    requires
        crate::patterns::common::valid_ref(pat_ref, *old(patterns)),
        k == pat_ref.target(*old(patterns)),
    ensures
        ({
            let p = pat(*old(patterns), k as int);
            let m = rot_amount(n as int, p.length as int);
            if p.length == 0 {
                *final(patterns) == *old(patterns)
                    && final(out)@ == old(out)@.push(line("ERROR: PATTERN LENGTH IS ZERO"@))
            } else if m == 0 {
                *final(patterns) == *old(patterns)
                    && final(out)@ == old(out)@.push(line("PATTERN "@ + dec(k as int) + " UNCHANGED (ROTATION 0)"@))
            } else {
                &&& data_updated(*old(patterns), *final(patterns), k as int, rotated(p.data@, p.length as int, m))
                &&& final(out)@ == old(out)@.push(line("ROTATED PATTERN "@ + dec(k as int) + " BY "@ + dec(m)))
            }
        }),
{
    let len = patterns.patterns[k].length;
    let r = pattern_rot_impl(pat_ref, n, patterns);
    if len == 0 {
        say_str(out, "ERROR: PATTERN LENGTH IS ZERO");
        return;
    }
    let ghost m = rot_amount(n as int, len as int);
    let len16 = len as i16;
    let m_exec = rem_normal(n, len16);
    if m_exec == 0 {
        let mut s = text_int("PATTERN ", k as i128);
        s.append(" UNCHANGED (ROTATION 0)");
        say(out, s);
    } else {
        say(out, text_int_int("ROTATED PATTERN ", k as i128, " BY ", m_exec as i128));
    }
}

/// `((n % len) + len) % len`.
fn rem_normal(n: i16, len: i16) -> (m: i16)
    requires
        0 < len <= 64,
    ensures
        m as int == rot_amount(n as int, len as int),
{
    match n.checked_rem(len) {
        Some(r1) => {
            assert(-64 < r1 < 64) by (nonlinear_arith)
                requires
                    r1 == crate::patterns::common::trem(n as int, len as int),
                    0 < len <= 64,
            ;
            match (r1 + len).checked_rem(len) {
                Some(m) => m,
                None => 0,
            }
        },
        None => 0,
    }
}

/// P.FND: prints the position of the first used step equal to a value, or -1.
pub fn handle_pattern_fnd(parts: &[&str], patterns: &mut PatternStorage, out: &mut Console) -> (r: Result<(), String>)
    requires
        old(patterns).wf(),
    ensures
        *final(patterns) == *old(patterns),
        parts@.len() < 2 ==> r is Ok && final(out)@ == old(out)@.push(line("ERROR: P.FND REQUIRES A VALUE"@)),
        parts@.len() >= 2 ==> match i16_arg(tok(parts@, 1)) {
            None => final(out)@ == old(out)@ && failed(r, "Failed to parse find value"@),
            Some(v) => r is Ok && final(out)@ == old(out)@.push(line("P.FND = "@
                + dec(crate::patterns::common::find_pos(used(*old(patterns), working(*old(patterns))), v)))),
        },
{
    if parts.len() < 2 {
        say_str(out, "ERROR: P.FND REQUIRES A VALUE");
        return Ok(());
    }
    let v = i16_argument(parts, 1, "Failed to parse find value")?;
    let idx = pattern_fnd_impl(PatternRef::Working, v, patterns);
    say(out, text_int("P.FND = ", idx as i128));
    Ok(())
}

/// `n` is `o` with the used length of pattern `k` set to `len`; nothing else moved.
pub open spec fn length_updated(o: PatternStorage, n: PatternStorage, k: int, len: int) -> bool {
    &&& n.wf()
    &&& n.working == o.working
    &&& n.toggle_state == o.toggle_state
    &&& n.patterns@.len() == o.patterns@.len()
    &&& forall|j: int| 0 <= j < 6 && j != k ==> n.patterns@[j] == o.patterns@[j]
    &&& n.patterns@[k].index == o.patterns@[k].index
    &&& n.patterns@[k].data@ == o.patterns@[k].data@
    &&& n.patterns@[k].length == len
}

/// P.INS: inserts a value at an index of the used steps.
pub fn handle_pattern_ins(parts: &[&str], patterns: &mut PatternStorage, out: &mut Console) -> (r: Result<(), String>)
    requires
        old(patterns).wf(),
    ensures
        parts@.len() < 3 ==> *final(patterns) == *old(patterns) && r is Ok
            && final(out)@ == old(out)@.push(line("ERROR: P.INS REQUIRES INDEX AND VALUE"@)),
        parts@.len() >= 3 ==> match (usize_arg(tok(parts@, 1)), i16_arg(tok(parts@, 2))) {
            (None, _) => *final(patterns) == *old(patterns) && final(out)@ == old(out)@
                && failed(r, "Failed to parse insert index"@),
            (Some(_), None) => *final(patterns) == *old(patterns) && final(out)@ == old(out)@
                && failed(r, "Failed to parse insert value"@),
            (Some(idx), Some(v)) => {
                let w = working(*old(patterns));
                let p = pat(*old(patterns), w);
                &&& r is Ok
                &&& if idx >= p.length {
                    *final(patterns) == *old(patterns) && final(out)@ == old(out)@.push(line(
                        "ERROR: INDEX "@ + dec(idx as int) + " OUT OF RANGE (LENGTH "@ + dec(p.length as int) + ")"@))
                } else {
                    &&& data_updated(*old(patterns), *final(patterns), w, inserted(p.data@, p.length as int, idx as int, v))
                    &&& final(out)@ == old(out)@.push(line("INSERTED "@ + dec(v as int) + " AT INDEX "@
                        + dec(idx as int) + " IN PATTERN "@ + dec(w)))
                }
            },
        },
{
    if parts.len() < 3 {
        say_str(out, "ERROR: P.INS REQUIRES INDEX AND VALUE");
        return Ok(());
    }
    let idx = usize_argument(parts, 1, "Failed to parse insert index")?;
    let v = i16_argument(parts, 2, "Failed to parse insert value")?;
    let w = patterns.working;
    ins_command(PatternRef::Working, w, idx, v, patterns, out);
    Ok(())
}

fn ins_command(pat_ref: PatternRef, k: usize, idx: usize, v: i16, patterns: &mut PatternStorage, out: &mut Console)
    requires
        crate::patterns::common::valid_ref(pat_ref, *old(patterns)),
        k == pat_ref.target(*old(patterns)),
    ensures
        ({
            let p = pat(*old(patterns), k as int);
            if idx >= p.length {
                *final(patterns) == *old(patterns) && final(out)@ == old(out)@.push(line(
                    "ERROR: INDEX "@ + dec(idx as int) + " OUT OF RANGE (LENGTH "@ + dec(p.length as int) + ")"@))
            } else {
                &&& data_updated(*old(patterns), *final(patterns), k as int, inserted(p.data@, p.length as int, idx as int, v))
                &&& final(out)@ == old(out)@.push(line("INSERTED "@ + dec(v as int) + " AT INDEX "@
                    + dec(idx as int) + " IN PATTERN "@ + dec(k as int)))
            }
        }),
{
    let len = patterns.patterns[k].length;
    if idx >= len {
        let mut s = text_int_int("ERROR: INDEX ", idx as i128, " OUT OF RANGE (LENGTH ", len as i128);
        s.append(")");
        say(out, s);
        return;
    }
    let _ = pattern_ins_impl(pat_ref, idx, v, patterns);
    let mut s = text_int_int("INSERTED ", v as i128, " AT INDEX ", idx as i128);
    s.append(" IN PATTERN ");
    push_int(&mut s, k as i128);
    say(out, s);
}

/// P.RM: takes out the step at an index of the used steps.
pub fn handle_pattern_rm(parts: &[&str], patterns: &mut PatternStorage, out: &mut Console) -> (r: Result<(), String>)
    requires
        old(patterns).wf(),
    ensures
        parts@.len() < 2 ==> *final(patterns) == *old(patterns) && r is Ok
            && final(out)@ == old(out)@.push(line("ERROR: P.RM REQUIRES AN INDEX"@)),
        parts@.len() >= 2 ==> match usize_arg(tok(parts@, 1)) {
            None => *final(patterns) == *old(patterns) && final(out)@ == old(out)@
                && failed(r, "Failed to parse remove index"@),
            Some(idx) => {
                let w = working(*old(patterns));
                let p = pat(*old(patterns), w);
                &&& r is Ok
                &&& if idx >= p.length {
                    *final(patterns) == *old(patterns) && final(out)@ == old(out)@.push(line(
                        "ERROR: INDEX "@ + dec(idx as int) + " OUT OF RANGE (LENGTH "@ + dec(p.length as int) + ")"@))
                } else {
                    &&& data_updated(*old(patterns), *final(patterns), w, removed(p.data@, p.length as int, idx as int))
                    &&& final(out)@ == old(out)@.push(line("REMOVED "@ + dec(p.data@[idx as int] as int) + " FROM INDEX "@
                        + dec(idx as int) + " IN PATTERN "@ + dec(w)))
                }
            },
        },
{
    if parts.len() < 2 {
        say_str(out, "ERROR: P.RM REQUIRES AN INDEX");
        return Ok(());
    }
    let idx = usize_argument(parts, 1, "Failed to parse remove index")?;
    let w = patterns.working;
    rm_command(PatternRef::Working, w, idx, patterns, out);
    Ok(())
}

fn rm_command(pat_ref: PatternRef, k: usize, idx: usize, patterns: &mut PatternStorage, out: &mut Console)
    requires
        crate::patterns::common::valid_ref(pat_ref, *old(patterns)),
        k == pat_ref.target(*old(patterns)),
    ensures
        ({
            let p = pat(*old(patterns), k as int);
            if idx >= p.length {
                *final(patterns) == *old(patterns) && final(out)@ == old(out)@.push(line(
                    "ERROR: INDEX "@ + dec(idx as int) + " OUT OF RANGE (LENGTH "@ + dec(p.length as int) + ")"@))
            } else {
                &&& data_updated(*old(patterns), *final(patterns), k as int, removed(p.data@, p.length as int, idx as int))
                &&& final(out)@ == old(out)@.push(line("REMOVED "@ + dec(p.data@[idx as int] as int) + " FROM INDEX "@
                    + dec(idx as int) + " IN PATTERN "@ + dec(k as int)))
            }
        }),
{
    let len = patterns.patterns[k].length;
    if idx >= len {
        let mut s = text_int_int("ERROR: INDEX ", idx as i128, " OUT OF RANGE (LENGTH ", len as i128);
        s.append(")");
        say(out, s);
        return;
    }
    let removed_val = patterns.patterns[k].data[idx];
    let _ = pattern_rm_impl(pat_ref, idx, patterns);
    let mut s = text_int_int("REMOVED ", removed_val as i128, " FROM INDEX ", idx as i128);
    s.append(" IN PATTERN ");
    push_int(&mut s, k as i128);
    say(out, s);
}

/// P.SCALE: maps the used steps linearly onto a new range.
pub fn handle_pattern_scale(parts: &[&str], patterns: &mut PatternStorage, out: &mut Console) -> (r: Result<(), String>)
    requires
        old(patterns).wf(),
        parts@.len() >= 3 ==> match (i16_arg(tok(parts@, 1)), i16_arg(tok(parts@, 2))) {
            (Some(a), Some(b)) => steps_scale_ok(*old(patterns), working(*old(patterns)), a, b),
            _ => true,
        },
    ensures
        parts@.len() < 3 ==> *final(patterns) == *old(patterns) && r is Ok
            && final(out)@ == old(out)@.push(line("ERROR: P.SCALE REQUIRES MIN AND MAX VALUES"@)),
        parts@.len() >= 3 ==> match (i16_arg(tok(parts@, 1)), i16_arg(tok(parts@, 2))) {
            (None, _) => *final(patterns) == *old(patterns) && final(out)@ == old(out)@
                && failed(r, "Failed to parse new min value"@),
            (Some(_), None) => *final(patterns) == *old(patterns) && final(out)@ == old(out)@
                && failed(r, "Failed to parse new max value"@),
            (Some(a), Some(b)) => {
                let w = working(*old(patterns));
                let p = pat(*old(patterns), w);
                let u = used(*old(patterns), w);
                &&& r is Ok
                &&& if p.length == 0 {
                    *final(patterns) == *old(patterns)
                        && final(out)@ == old(out)@.push(line("ERROR: PATTERN LENGTH IS ZERO"@))
                } else {
                    &&& data_updated(*old(patterns), *final(patterns), w,
                            scaled(p.data@, p.length as int, min_of(u), max_of(u), a, b))
                    &&& final(out)@ == old(out)@.push(line("SCALED PATTERN "@ + dec(w) + " TO RANGE "@
                        + dec(a as int) + " TO "@ + dec(b as int)))
                }
            },
        },
{
    if parts.len() < 3 {
        say_str(out, "ERROR: P.SCALE REQUIRES MIN AND MAX VALUES");
        return Ok(());
    }
    let a = i16_argument(parts, 1, "Failed to parse new min value")?;
    let b = i16_argument(parts, 2, "Failed to parse new max value")?;
    let w = patterns.working;
    scale_command(w, a, b, patterns, out);
    Ok(())
}

fn scale_command(k: usize, a: i16, b: i16, patterns: &mut PatternStorage, out: &mut Console)
    requires
        old(patterns).wf(),
        k < 6,
        steps_scale_ok(*old(patterns), k as int, a, b),
    ensures
        ({
            let p = pat(*old(patterns), k as int);
            let u = used(*old(patterns), k as int);
            if p.length == 0 {
                *final(patterns) == *old(patterns)
                    && final(out)@ == old(out)@.push(line("ERROR: PATTERN LENGTH IS ZERO"@))
            } else {
                &&& data_updated(*old(patterns), *final(patterns), k as int,
                        scaled(p.data@, p.length as int, min_of(u), max_of(u), a, b))
                &&& final(out)@ == old(out)@.push(line("SCALED PATTERN "@ + dec(k as int) + " TO RANGE "@
                    + dec(a as int) + " TO "@ + dec(b as int)))
            }
        }),
{
    if patterns.patterns[k].length == 0 {
        say_str(out, "ERROR: PATTERN LENGTH IS ZERO");
        return;
    }
    scale_steps(k, a, b, patterns);
    let mut s = text_int_int("SCALED PATTERN ", k as i128, " TO RANGE ", a as i128);
    s.append(" TO ");
    push_int(&mut s, b as i128);
    say(out, s);
}

/// The range P.RND and PN.RND draw from: the two arguments from `first` on
/// when there are enough, else 0 to 127.
pub open spec fn rnd_range(parts: Seq<&str>, first: int) -> Option<(i16, i16)> {
    if parts.len() >= first + 2 {
        match (i16_arg(tok(parts, first)), i16_arg(tok(parts, first + 1))) {
            (Some(a), Some(b)) => Some((a, b)),
            _ => None,
        }
    } else {
        Some((0i16, 127i16))
    }
}

/// P.RND: fills the used steps with random values in a range (0 to 127 by default).
pub fn handle_pattern_rnd(parts: &[&str], patterns: &mut PatternStorage, out: &mut Console) -> (r: Result<(), String>)
    requires
        old(patterns).wf(),
        match rnd_range(parts@, 1) {
            Some((a, b)) => pat(*old(patterns), working(*old(patterns))).length > 0 ==> a <= b,
            None => true,
        },
    ensures
        match rnd_range(parts@, 1) {
            None => *final(patterns) == *old(patterns) && final(out)@ == old(out)@ && (if i16_arg(tok(parts@, 1)) is None {
                failed(r, "Failed to parse min value"@)
            } else {
                failed(r, "Failed to parse max value"@)
            }),
            Some((a, b)) => {
                let w = working(*old(patterns));
                let p = pat(*old(patterns), w);
                let q = pat(*final(patterns), w);
                &&& r is Ok
                &&& data_updated(*old(patterns), *final(patterns), w, q.data@)
                &&& forall|i: int| 0 <= i < p.length ==> a <= #[trigger] q.data@[i] <= b
                &&& q.data@.skip(p.length as int) == p.data@.skip(p.length as int)
                &&& final(out)@ == old(out)@.push(line("RANDOMIZED PATTERN "@ + dec(w) + " (RANGE "@
                    + dec(a as int) + " TO "@ + dec(b as int) + ")"@))
            },
        },
{
    let (a, b) = if parts.len() >= 3 {
        let a = i16_argument(parts, 1, "Failed to parse min value")?;
        let b = i16_argument(parts, 2, "Failed to parse max value")?;
        (a, b)
    } else {
        (0i16, 127i16)
    };
    let w = pattern_rnd_impl(PatternRef::Working, a, b, patterns);
    let mut s = text_int_int("RANDOMIZED PATTERN ", w as i128, " (RANGE ", a as i128);
    s.append(" TO ");
    push_int(&mut s, b as i128);
    s.append(")");
    say(out, s);
    Ok(())
}

// ---------------------------------------------------------------------------
// Working pattern: number, length, position, single steps
// ---------------------------------------------------------------------------

/// P.N: prints the working pattern's number, or makes another pattern the working one.
pub fn handle_pattern_n(parts: &[&str], patterns: &mut PatternStorage, out: &mut Console)
    requires
        old(patterns).wf(),
        parts@.len() >= 1,
    ensures
        parts@.len() == 1 ==> *final(patterns) == *old(patterns)
            && final(out)@ == old(out)@.push((OutputCategory::Query, "P.N = "@ + dec(old(patterns).working as int))),
        parts@.len() > 1 ==> match crate::text::parse_usize(tok(parts@, 1)) {
            None => *final(patterns) == *old(patterns)
                && final(out)@ == old(out)@.push((OutputCategory::Error, "ERROR: FAILED TO PARSE PATTERN NUMBER"@)),
            Some(v) => if v > 5 {
                *final(patterns) == *old(patterns)
                    && final(out)@ == old(out)@.push((OutputCategory::Error, "ERROR: PATTERN NUMBER MUST BE 0-5"@))
            } else {
                *final(patterns) == (PatternStorage { working: v, ..*old(patterns) })
                    && final(out)@ == old(out)@.push((OutputCategory::Confirm, "SET WORKING PATTERN TO "@ + dec(v as int)))
            },
        },
{
    if parts.len() == 1 {
        out.emit(OutputCategory::Query, text_int("P.N = ", patterns.working as i128));
        return;
    }
    match crate::text::parse_usize_token(parts[1]) {
        None => out.emit_str(OutputCategory::Error, "ERROR: FAILED TO PARSE PATTERN NUMBER"),
        Some(v) => {
            if v > 5 {
                out.emit_str(OutputCategory::Error, "ERROR: PATTERN NUMBER MUST BE 0-5");
            } else {
                patterns.working = v;
                out.emit(OutputCategory::Confirm, text_int("SET WORKING PATTERN TO ", v as i128));
            }
        },
    }
}

/// P.L: prints the working pattern's used length, or sets it (1 to 64).
pub fn handle_pattern_l(parts: &[&str], patterns: &mut PatternStorage, out: &mut Console)
    requires
        old(patterns).wf(),
        parts@.len() >= 1,
    ensures
        ({
            let w = working(*old(patterns));
            &&& parts@.len() == 1 ==> *final(patterns) == *old(patterns)
                && final(out)@ == old(out)@.push((OutputCategory::Query, "P.L = "@ + dec(pat(*old(patterns), w).length as int)))
            &&& parts@.len() > 1 ==> match crate::text::parse_usize(tok(parts@, 1)) {
                None => *final(patterns) == *old(patterns)
                    && final(out)@ == old(out)@.push((OutputCategory::Error, "ERROR: FAILED TO PARSE PATTERN LENGTH"@)),
                Some(v) => if v < 1 || v > 64 {
                    *final(patterns) == *old(patterns)
                        && final(out)@ == old(out)@.push((OutputCategory::Error, "ERROR: PATTERN LENGTH MUST BE 1-64"@))
                } else {
                    length_updated(*old(patterns), *final(patterns), w, v as int)
                        && final(out)@ == old(out)@.push((OutputCategory::Confirm, "SET PATTERN "@ + dec(w) + " LENGTH TO "@ + dec(v as int)))
                },
            }
        }),
{
    let w = patterns.working;
    if parts.len() == 1 {
        out.emit(OutputCategory::Query, text_int("P.L = ", patterns.patterns[w].length as i128));
        return;
    }
    match crate::text::parse_usize_token(parts[1]) {
        None => out.emit_str(OutputCategory::Error, "ERROR: FAILED TO PARSE PATTERN LENGTH"),
        Some(v) => {
            if v < 1 || v > 64 {
                out.emit_str(OutputCategory::Error, "ERROR: PATTERN LENGTH MUST BE 1-64");
            } else {
                patterns.patterns[w].length = v;
                out.emit(OutputCategory::Confirm, text_int_int("SET PATTERN ", w as i128, " LENGTH TO ", v as i128));
            }
        },
    }
}

/// P.I: prints the working pattern's play position, or sets it (0 to 63).
pub fn handle_pattern_i(parts: &[&str], patterns: &mut PatternStorage, out: &mut Console)
    requires
        old(patterns).wf(),
        parts@.len() >= 1,
    ensures
        ({
            let w = working(*old(patterns));
            &&& parts@.len() == 1 ==> *final(patterns) == *old(patterns)
                && final(out)@ == old(out)@.push((OutputCategory::Query, "P.I = "@ + dec(pat(*old(patterns), w).index as int)))
            &&& parts@.len() > 1 ==> match crate::text::parse_usize(tok(parts@, 1)) {
                None => *final(patterns) == *old(patterns)
                    && final(out)@ == old(out)@.push((OutputCategory::Error, "ERROR: FAILED TO PARSE PATTERN INDEX"@)),
                Some(v) => if v > 63 {
                    *final(patterns) == *old(patterns)
                        && final(out)@ == old(out)@.push((OutputCategory::Error, "ERROR: PATTERN INDEX MUST BE 0-63"@))
                } else {
                    index_updated(*old(patterns), *final(patterns), w, v as int)
                        && final(out)@ == old(out)@.push((OutputCategory::Confirm, "SET PATTERN "@ + dec(w) + " INDEX TO "@ + dec(v as int)))
                },
            }
        }),
{
    let w = patterns.working;
    if parts.len() == 1 {
        out.emit(OutputCategory::Query, text_int("P.I = ", patterns.patterns[w].index as i128));
        return;
    }
    match crate::text::parse_usize_token(parts[1]) {
        None => out.emit_str(OutputCategory::Error, "ERROR: FAILED TO PARSE PATTERN INDEX"),
        Some(v) => {
            if v > 63 {
                out.emit_str(OutputCategory::Error, "ERROR: PATTERN INDEX MUST BE 0-63");
            } else {
                patterns.patterns[w].index = v;
                out.emit(OutputCategory::Confirm, text_int_int("SET PATTERN ", w as i128, " INDEX TO ", v as i128));
            }
        },
    }
}

/// P: prints the working pattern's step at an index (0 to 63), or sets it.
pub fn handle_pattern(parts: &[&str], patterns: &mut PatternStorage, out: &mut Console) -> (r: Result<(), String>)
    requires
        old(patterns).wf(),
        parts@.len() >= 1,
    ensures
        parts@.len() == 1 ==> *final(patterns) == *old(patterns) && r is Ok
            && final(out)@ == old(out)@.push((OutputCategory::Error, "ERROR: P REQUIRES AN INDEX"@)),
        parts@.len() > 1 ==> match usize_arg(tok(parts@, 1)) {
            None => *final(patterns) == *old(patterns) && final(out)@ == old(out)@
                && failed(r, "Failed to parse pattern index"@),
            Some(idx) => {
                let w = working(*old(patterns));
                let p = pat(*old(patterns), w);
                if idx > 63 {
                    *final(patterns) == *old(patterns) && r is Ok
                        && final(out)@ == old(out)@.push((OutputCategory::Error, "ERROR: PATTERN INDEX MUST BE 0-63"@))
                } else if parts@.len() == 2 {
                    *final(patterns) == *old(patterns) && r is Ok
                        && final(out)@ == old(out)@.push((OutputCategory::Query, "P "@ + dec(idx as int) + " = "@ + dec(p.data@[idx as int] as int)))
                } else {
                    match i16_arg(tok(parts@, 2)) {
                        None => *final(patterns) == *old(patterns) && final(out)@ == old(out)@
                            && failed(r, "Failed to parse pattern value"@),
                        Some(v) => r is Ok
                            && data_updated(*old(patterns), *final(patterns), w, p.data@.update(idx as int, v))
                            && final(out)@ == old(out)@.push((OutputCategory::Confirm, "SET P "@ + dec(idx as int) + " TO "@ + dec(v as int))),
                    }
                }
            },
        },
{
    if parts.len() == 1 {
        out.emit_str(OutputCategory::Error, "ERROR: P REQUIRES AN INDEX");
        return Ok(());
    }
    let idx = usize_argument(parts, 1, "Failed to parse pattern index")?;
    if idx > 63 {
        out.emit_str(OutputCategory::Error, "ERROR: PATTERN INDEX MUST BE 0-63");
        return Ok(());
    }
    let w = patterns.working;
    if parts.len() == 2 {
        out.emit(OutputCategory::Query, text_int_int("P ", idx as i128, " = ", patterns.patterns[w].data[idx] as i128));
        return Ok(());
    }
    let v = i16_argument(parts, 2, "Failed to parse pattern value")?;
    patterns.patterns[w].data[idx] = v;
    out.emit(OutputCategory::Confirm, text_int_int("SET P ", idx as i128, " TO ", v as i128));
    Ok(())
}

/// Reads the pattern number in argument 1; prints the range error and
/// answers `None` when it is above 5.
fn pattern_number(parts: &[&str], out: &mut Console) -> (r: Result<Option<usize>, String>)
    requires
        parts@.len() >= 2,
    ensures
        match usize_arg(tok(parts@, 1)) {
            None => final(out)@ == old(out)@ && (r matches Err(e) && e@ == "Failed to parse pattern number"@),
            Some(k) => if k > 5 {
                r == Ok::<Option<usize>, String>(None)
                    && final(out)@ == old(out)@.push(line("ERROR: PATTERN NUMBER MUST BE 0-5"@))
            } else {
                r == Ok::<Option<usize>, String>(Some(k)) && final(out)@ == old(out)@
            },
        },
{
    let k = usize_argument(parts, 1, "Failed to parse pattern number")?;
    if k > 5 {
        say_str(out, "ERROR: PATTERN NUMBER MUST BE 0-5");
        return Ok(None);
    }
    Ok(Some(k))
}

/// Reads the pattern number in argument 1 as `pattern_number` does, the
/// range error being printed as an error.
fn pattern_number_reported(parts: &[&str], out: &mut Console) -> (r: Result<Option<usize>, String>)
    requires
        parts@.len() >= 2,
    ensures
        match usize_arg(tok(parts@, 1)) {
            None => final(out)@ == old(out)@ && (r matches Err(e) && e@ == "Failed to parse pattern number"@),
            Some(k) => if k > 5 {
                r == Ok::<Option<usize>, String>(None) && final(out)@ == old(out)@.push(
                    (OutputCategory::Error, "ERROR: PATTERN NUMBER MUST BE 0-5"@),
                )
            } else {
                r == Ok::<Option<usize>, String>(Some(k)) && final(out)@ == old(out)@
            },
        },
{
    let k = usize_argument(parts, 1, "Failed to parse pattern number")?;
    if k > 5 {
        out.emit_str(OutputCategory::Error, "ERROR: PATTERN NUMBER MUST BE 0-5");
        return Ok(None);
    }
    Ok(Some(k))
}

/// PN.L: prints a pattern's used length, or sets it (1 to 64).
pub fn handle_pn_l(parts: &[&str], patterns: &mut PatternStorage, out: &mut Console) -> (r: Result<(), String>)
    requires
        old(patterns).wf(),
    ensures
        parts@.len() < 2 ==> *final(patterns) == *old(patterns) && r is Ok
            && final(out)@ == old(out)@.push((OutputCategory::Error, "ERROR: PN.L REQUIRES PATTERN NUMBER (0-5)"@)),
        parts@.len() >= 2 ==> match usize_arg(tok(parts@, 1)) {
            None => *final(patterns) == *old(patterns) && final(out)@ == old(out)@
                && failed(r, "Failed to parse pattern number"@),
            Some(k) => if k > 5 {
                *final(patterns) == *old(patterns) && r is Ok
                    && final(out)@ == old(out)@.push((OutputCategory::Error, "ERROR: PATTERN NUMBER MUST BE 0-5"@))
            } else {
                let p = pat(*old(patterns), k as int);
                if parts@.len() == 2 {
                    *final(patterns) == *old(patterns) && r is Ok
                        && final(out)@ == old(out)@.push((OutputCategory::Query, "PN.L "@ + dec(k as int) + " = "@ + dec(p.length as int)))
                } else {
                    match usize_arg(tok(parts@, 2)) {
                        None => *final(patterns) == *old(patterns) && final(out)@ == old(out)@
                            && failed(r, "Failed to parse pattern length"@),
                        Some(v) => r is Ok && if v < 1 || v > 64 {
                            *final(patterns) == *old(patterns)
                                && final(out)@ == old(out)@.push((OutputCategory::Error, "ERROR: PATTERN LENGTH MUST BE 1-64"@))
                        } else {
                            length_updated(*old(patterns), *final(patterns), k as int, v as int)
                                && final(out)@ == old(out)@.push((OutputCategory::Confirm, "SET PATTERN "@ + dec(k as int) + " LENGTH TO "@ + dec(v as int)))
                        },
                    }
                }
            },
        },
{
    if parts.len() < 2 {
        out.emit_str(OutputCategory::Error, "ERROR: PN.L REQUIRES PATTERN NUMBER (0-5)");
        return Ok(());
    }
    let k = match pattern_number_reported(parts, out)? {
        Some(k) => k,
        None => return Ok(()),
    };
    if parts.len() == 2 {
        out.emit(OutputCategory::Query, text_int_int("PN.L ", k as i128, " = ", patterns.patterns[k].length as i128));
        return Ok(());
    }
    let v = usize_argument(parts, 2, "Failed to parse pattern length")?;
    if v < 1 || v > 64 {
        out.emit_str(OutputCategory::Error, "ERROR: PATTERN LENGTH MUST BE 1-64");
        return Ok(());
    }
    patterns.patterns[k].length = v;
    out.emit(OutputCategory::Confirm, text_int_int("SET PATTERN ", k as i128, " LENGTH TO ", v as i128));
    Ok(())
}

/// PN.I: prints a pattern's play position, or sets it (0 to 63).
pub fn handle_pn_i(parts: &[&str], patterns: &mut PatternStorage, out: &mut Console) -> (r: Result<(), String>)
    requires
        old(patterns).wf(),
    ensures
        parts@.len() < 2 ==> *final(patterns) == *old(patterns) && r is Ok
            && final(out)@ == old(out)@.push((OutputCategory::Error, "ERROR: PN.I REQUIRES PATTERN NUMBER (0-5)"@)),
        parts@.len() >= 2 ==> match usize_arg(tok(parts@, 1)) {
            None => *final(patterns) == *old(patterns) && final(out)@ == old(out)@
                && failed(r, "Failed to parse pattern number"@),
            Some(k) => if k > 5 {
                *final(patterns) == *old(patterns) && r is Ok
                    && final(out)@ == old(out)@.push((OutputCategory::Error, "ERROR: PATTERN NUMBER MUST BE 0-5"@))
            } else {
                let p = pat(*old(patterns), k as int);
                if parts@.len() == 2 {
                    *final(patterns) == *old(patterns) && r is Ok
                        && final(out)@ == old(out)@.push((OutputCategory::Query, "PN.I "@ + dec(k as int) + " = "@ + dec(p.index as int)))
                } else {
                    match usize_arg(tok(parts@, 2)) {
                        None => *final(patterns) == *old(patterns) && final(out)@ == old(out)@
                            && failed(r, "Failed to parse pattern index"@),
                        Some(v) => r is Ok && if v > 63 {
                            *final(patterns) == *old(patterns)
                                && final(out)@ == old(out)@.push((OutputCategory::Error, "ERROR: PATTERN INDEX MUST BE 0-63"@))
                        } else {
                            index_updated(*old(patterns), *final(patterns), k as int, v as int)
                                && final(out)@ == old(out)@.push((OutputCategory::Confirm, "SET PATTERN "@ + dec(k as int) + " INDEX TO "@ + dec(v as int)))
                        },
                    }
                }
            },
        },
{
    if parts.len() < 2 {
        out.emit_str(OutputCategory::Error, "ERROR: PN.I REQUIRES PATTERN NUMBER (0-5)");
        return Ok(());
    }
    let k = match pattern_number_reported(parts, out)? {
        Some(k) => k,
        None => return Ok(()),
    };
    if parts.len() == 2 {
        out.emit(OutputCategory::Query, text_int_int("PN.I ", k as i128, " = ", patterns.patterns[k].index as i128));
        return Ok(());
    }
    let v = usize_argument(parts, 2, "Failed to parse pattern index")?;
    if v > 63 {
        out.emit_str(OutputCategory::Error, "ERROR: PATTERN INDEX MUST BE 0-63");
        return Ok(());
    }
    patterns.patterns[k].index = v;
    out.emit(OutputCategory::Confirm, text_int_int("SET PATTERN ", k as i128, " INDEX TO ", v as i128));
    Ok(())
}

/// PN.HERE: prints the step at a pattern's play position.
pub fn handle_pn_here(parts: &[&str], patterns: &mut PatternStorage, out: &mut Console) -> (r: Result<(), String>)
    requires
        old(patterns).wf(),
    ensures
        parts@.len() < 2 ==> *final(patterns) == *old(patterns) && r is Ok
            && final(out)@ == old(out)@.push(line("ERROR: PN.HERE REQUIRES PATTERN NUMBER (0-5)"@)),
        parts@.len() >= 2 ==> match usize_arg(tok(parts@, 1)) {
            None => *final(patterns) == *old(patterns) && final(out)@ == old(out)@
                && failed(r, "Failed to parse pattern number"@),
            Some(k) => if k > 5 {
                *final(patterns) == *old(patterns) && r is Ok
                    && final(out)@ == old(out)@.push(line("ERROR: PATTERN NUMBER MUST BE 0-5"@))
            } else {
                let p = pat(*old(patterns), k as int);
                *final(patterns) == *old(patterns) && r is Ok
                    && final(out)@ == old(out)@.push(line("PN.HERE "@ + dec(k as int) + " = "@ + dec(p.data@[p.index as int] as int)))
            },
        },
{
    if parts.len() < 2 {
        say_str(out, "ERROR: PN.HERE REQUIRES PATTERN NUMBER (0-5)");
        return Ok(());
    }
    let k = match pattern_number(parts, out)? {
        Some(k) => k,
        None => return Ok(()),
    };
    let (v, _) = pattern_here_impl(PatternRef::Explicit(k), patterns);
    say(out, text_int_int("PN.HERE ", k as i128, " = ", v as i128));
    Ok(())
}

/// PN.NEXT: advances a pattern's play position and prints the step there.
pub fn handle_pn_next(parts: &[&str], patterns: &mut PatternStorage, out: &mut Console) -> (r: Result<(), String>)
    requires
        old(patterns).wf(),
        parts@.len() >= 2 ==> match usize_arg(tok(parts@, 1)) {
            Some(k) => k <= 5 ==> {
                let p = pat(*old(patterns), k as int);
                p.length > 0
            },
            None => true,
        },
    ensures
        parts@.len() < 2 ==> *final(patterns) == *old(patterns) && r is Ok
            && final(out)@ == old(out)@.push(line("ERROR: PN.NEXT REQUIRES PATTERN NUMBER (0-5)"@)),
        parts@.len() >= 2 ==> match usize_arg(tok(parts@, 1)) {
            None => *final(patterns) == *old(patterns) && final(out)@ == old(out)@
                && failed(r, "Failed to parse pattern number"@),
            Some(k) => if k > 5 {
                *final(patterns) == *old(patterns) && r is Ok
                    && final(out)@ == old(out)@.push(line("ERROR: PATTERN NUMBER MUST BE 0-5"@))
            } else {
                let p = pat(*old(patterns), k as int);
                let ni = (p.index + 1) % (p.length as int);
                &&& r is Ok
                &&& index_updated(*old(patterns), *final(patterns), k as int, ni)
                &&& final(out)@ == old(out)@.push(line("PN.NEXT "@ + dec(k as int) + " = "@ + dec(p.data@[ni] as int)
                    + " (INDEX NOW "@ + dec(ni) + ")"@))
            },
        },
{
    if parts.len() < 2 {
        say_str(out, "ERROR: PN.NEXT REQUIRES PATTERN NUMBER (0-5)");
        return Ok(());
    }
    let k = match pattern_number(parts, out)? {
        Some(k) => k,
        None => return Ok(()),
    };
    let (v, _, ni) = pattern_next_impl(PatternRef::Explicit(k), patterns);
    let mut s = text_int_int("PN.NEXT ", k as i128, " = ", v as i128);
    s.append(" (INDEX NOW ");
    push_int(&mut s, ni as i128);
    s.append(")");
    say(out, s);
    Ok(())
}

/// PN.PREV: moves a pattern's play position back and prints the step there.
pub fn handle_pn_prev(parts: &[&str], patterns: &mut PatternStorage, out: &mut Console) -> (r: Result<(), String>)
    requires
        old(patterns).wf(),
        parts@.len() >= 2 ==> match usize_arg(tok(parts@, 1)) {
            Some(k) => k <= 5 ==> {
                let p = pat(*old(patterns), k as int);
                p.index == 0 ==> p.length > 0
            },
            None => true,
        },
    ensures
        parts@.len() < 2 ==> *final(patterns) == *old(patterns) && r is Ok
            && final(out)@ == old(out)@.push(line("ERROR: PN.PREV REQUIRES PATTERN NUMBER (0-5)"@)),
        parts@.len() >= 2 ==> match usize_arg(tok(parts@, 1)) {
            None => *final(patterns) == *old(patterns) && final(out)@ == old(out)@
                && failed(r, "Failed to parse pattern number"@),
            Some(k) => if k > 5 {
                *final(patterns) == *old(patterns) && r is Ok
                    && final(out)@ == old(out)@.push(line("ERROR: PATTERN NUMBER MUST BE 0-5"@))
            } else {
                let p = pat(*old(patterns), k as int);
                let ni = if p.index == 0 { p.length - 1 } else { p.index - 1 };
                &&& r is Ok
                &&& index_updated(*old(patterns), *final(patterns), k as int, ni)
                &&& final(out)@ == old(out)@.push(line("PN.PREV "@ + dec(k as int) + " = "@ + dec(p.data@[ni] as int)
                    + " (INDEX NOW "@ + dec(ni) + ")"@))
            },
        },
{
    if parts.len() < 2 {
        say_str(out, "ERROR: PN.PREV REQUIRES PATTERN NUMBER (0-5)");
        return Ok(());
    }
    let k = match pattern_number(parts, out)? {
        Some(k) => k,
        None => return Ok(()),
    };
    let (v, _, ni) = pattern_prev_impl(PatternRef::Explicit(k), patterns);
    let mut s = text_int_int("PN.PREV ", k as i128, " = ", v as i128);
    s.append(" (INDEX NOW ");
    push_int(&mut s, ni as i128);
    s.append(")");
    say(out, s);
    Ok(())
}

/// PN: prints a pattern's step at an index (0 to 63), or sets it.
pub fn handle_pn(parts: &[&str], patterns: &mut PatternStorage, out: &mut Console) -> (r: Result<(), String>)
    requires
        old(patterns).wf(),
    ensures
        parts@.len() < 3 ==> *final(patterns) == *old(patterns) && r is Ok
            && final(out)@ == old(out)@.push((OutputCategory::Error, "ERROR: PN NEEDS PAT (0-5) AND IDX (0-63)"@)),
        parts@.len() >= 3 ==> match usize_arg(tok(parts@, 1)) {
            None => *final(patterns) == *old(patterns) && final(out)@ == old(out)@
                && failed(r, "Failed to parse pattern number"@),
            Some(k) => if k > 5 {
                *final(patterns) == *old(patterns) && r is Ok
                    && final(out)@ == old(out)@.push((OutputCategory::Error, "ERROR: PATTERN NUMBER MUST BE 0-5"@))
            } else {
                let p = pat(*old(patterns), k as int);
                match usize_arg(tok(parts@, 2)) {
                    None => *final(patterns) == *old(patterns) && final(out)@ == old(out)@
                        && failed(r, "Failed to parse pattern index"@),
                    Some(idx) => if idx > 63 {
                        *final(patterns) == *old(patterns) && r is Ok
                            && final(out)@ == old(out)@.push((OutputCategory::Error, "ERROR: PATTERN INDEX MUST BE 0-63"@))
                    } else if parts@.len() == 3 {
                        *final(patterns) == *old(patterns) && r is Ok
                            && final(out)@ == old(out)@.push((OutputCategory::Query, "PN "@ + dec(k as int) + " "@ + dec(idx as int) + " = "@
                                + dec(p.data@[idx as int] as int)))
                    } else {
                        match i16_arg(tok(parts@, 3)) {
                            None => *final(patterns) == *old(patterns) && final(out)@ == old(out)@
                                && failed(r, "Failed to parse pattern value"@),
                            Some(v) => r is Ok
                                && data_updated(*old(patterns), *final(patterns), k as int, p.data@.update(idx as int, v))
                                && final(out)@ == old(out)@.push((OutputCategory::Confirm, "SET PN "@ + dec(k as int) + " "@ + dec(idx as int)
                                    + " TO "@ + dec(v as int))),
                        }
                    },
                }
            },
        },
{
    if parts.len() < 3 {
        out.emit_str(OutputCategory::Error, "ERROR: PN NEEDS PAT (0-5) AND IDX (0-63)");
        return Ok(());
    }
    let k = match pattern_number_reported(parts, out)? {
        Some(k) => k,
        None => return Ok(()),
    };
    let idx = usize_argument(parts, 2, "Failed to parse pattern index")?;
    if idx > 63 {
        out.emit_str(OutputCategory::Error, "ERROR: PATTERN INDEX MUST BE 0-63");
        return Ok(());
    }
    if parts.len() == 3 {
        let mut s = text_int_int("PN ", k as i128, " ", idx as i128);
        s.append(" = ");
        push_int(&mut s, patterns.patterns[k].data[idx] as i128);
        out.emit(OutputCategory::Query, s);
        return Ok(());
    }
    let v = i16_argument(parts, 3, "Failed to parse pattern value")?;
    patterns.patterns[k].data[idx] = v;
    let mut s = text_int_int("SET PN ", k as i128, " ", idx as i128);
    s.append(" TO ");
    push_int(&mut s, v as i128);
    out.emit(OutputCategory::Confirm, s);
    Ok(())
}

/// PN.PUSH: shifts a pattern's used steps left and puts a value in the last one.
pub fn handle_pn_push(parts: &[&str], patterns: &mut PatternStorage, out: &mut Console) -> (r: Result<(), String>)
    requires
        old(patterns).wf(),
        parts@.len() >= 3 ==> match usize_arg(tok(parts@, 1)) {
            Some(k) => k <= 5 ==> {
                let p = pat(*old(patterns), k as int);
                i16_arg(tok(parts@, 2)) is Some ==> p.length > 0
            },
            None => true,
        },
    ensures
        parts@.len() < 3 ==> *final(patterns) == *old(patterns) && r is Ok
            && final(out)@ == old(out)@.push(line("ERROR: PN.PUSH REQUIRES PATTERN NUMBER AND VALUE"@)),
        parts@.len() >= 3 ==> match usize_arg(tok(parts@, 1)) {
            None => *final(patterns) == *old(patterns) && final(out)@ == old(out)@
                && failed(r, "Failed to parse pattern number"@),
            Some(k) => if k > 5 {
                *final(patterns) == *old(patterns) && r is Ok
                    && final(out)@ == old(out)@.push(line("ERROR: PATTERN NUMBER MUST BE 0-5"@))
            } else {
                let p = pat(*old(patterns), k as int);
                match i16_arg(tok(parts@, 2)) {
                    None => *final(patterns) == *old(patterns) && final(out)@ == old(out)@
                        && failed(r, "Failed to parse push value"@),
                    Some(v) => r is Ok
                        && data_updated(*old(patterns), *final(patterns), k as int, pushed(p.data@, p.length as int, v))
                        && final(out)@ == old(out)@.push(line("PUSHED "@ + dec(v as int) + " TO PATTERN "@ + dec(k as int))),
                }
            },
        },
{
    if parts.len() < 3 {
        say_str(out, "ERROR: PN.PUSH REQUIRES PATTERN NUMBER AND VALUE");
        return Ok(());
    }
    let k = match pattern_number(parts, out)? {
        Some(k) => k,
        None => return Ok(()),
    };
    let v = i16_argument(parts, 2, "Failed to parse push value")?;
    let _ = pattern_push_impl(PatternRef::Explicit(k), v, patterns);
    say(out, text_int_int("PUSHED ", v as i128, " TO PATTERN ", k as i128));
    Ok(())
}

/// PN.POP: prints a pattern's last used step.
pub fn handle_pn_pop(parts: &[&str], patterns: &mut PatternStorage, out: &mut Console) -> (r: Result<(), String>)
    requires
        old(patterns).wf(),
    ensures
        parts@.len() < 2 ==> *final(patterns) == *old(patterns) && r is Ok
            && final(out)@ == old(out)@.push(line("ERROR: PN.POP REQUIRES PATTERN NUMBER (0-5)"@)),
        parts@.len() >= 2 ==> match usize_arg(tok(parts@, 1)) {
            None => *final(patterns) == *old(patterns) && final(out)@ == old(out)@
                && failed(r, "Failed to parse pattern number"@),
            Some(k) => if k > 5 {
                *final(patterns) == *old(patterns) && r is Ok
                    && final(out)@ == old(out)@.push(line("ERROR: PATTERN NUMBER MUST BE 0-5"@))
            } else {
                let p = pat(*old(patterns), k as int);
                *final(patterns) == *old(patterns) && r is Ok && if p.length == 0 {
                    final(out)@ == old(out)@.push(line("ERROR: PATTERN LENGTH IS ZERO"@))
                } else {
                    final(out)@ == old(out)@.push(line("PN.POP "@ + dec(k as int) + " = "@ + dec(p.data@[p.length - 1] as int)))
                }
            },
        },
{
    if parts.len() < 2 {
        say_str(out, "ERROR: PN.POP REQUIRES PATTERN NUMBER (0-5)");
        return Ok(());
    }
    let k = match pattern_number(parts, out)? {
        Some(k) => k,
        None => return Ok(()),
    };
    let len = patterns.patterns[k].length;
    if len == 0 {
        say_str(out, "ERROR: PATTERN LENGTH IS ZERO");
        return Ok(());
    }
    let v = patterns.patterns[k].data[len - 1];
    say(out, text_int_int("PN.POP ", k as i128, " = ", v as i128));
    Ok(())
}

/// PN.INS: inserts a value at an index of a pattern's used steps.
pub fn handle_pn_ins(parts: &[&str], patterns: &mut PatternStorage, out: &mut Console) -> (r: Result<(), String>)
    requires
        old(patterns).wf(),
    ensures
        parts@.len() < 4 ==> *final(patterns) == *old(patterns) && r is Ok
            && final(out)@ == old(out)@.push(line("ERROR: PN.INS REQUIRES PATTERN NUMBER, INDEX, AND VALUE"@)),
        parts@.len() >= 4 ==> match usize_arg(tok(parts@, 1)) {
            None => *final(patterns) == *old(patterns) && final(out)@ == old(out)@
                && failed(r, "Failed to parse pattern number"@),
            Some(k) => if k > 5 {
                *final(patterns) == *old(patterns) && r is Ok
                    && final(out)@ == old(out)@.push(line("ERROR: PATTERN NUMBER MUST BE 0-5"@))
            } else {
                let p = pat(*old(patterns), k as int);
                match (usize_arg(tok(parts@, 2)), i16_arg(tok(parts@, 3))) {
                    (None, _) => *final(patterns) == *old(patterns) && final(out)@ == old(out)@
                        && failed(r, "Failed to parse insert index"@),
                    (Some(_), None) => *final(patterns) == *old(patterns) && final(out)@ == old(out)@
                        && failed(r, "Failed to parse insert value"@),
                    (Some(idx), Some(v)) => r is Ok && if idx >= p.length {
                        *final(patterns) == *old(patterns) && final(out)@ == old(out)@.push(line(
                            "ERROR: INDEX "@ + dec(idx as int) + " OUT OF RANGE (LENGTH "@ + dec(p.length as int) + ")"@))
                    } else {
                        &&& data_updated(*old(patterns), *final(patterns), k as int, inserted(p.data@, p.length as int, idx as int, v))
                        &&& final(out)@ == old(out)@.push(line("INSERTED "@ + dec(v as int) + " AT INDEX "@
                            + dec(idx as int) + " IN PATTERN "@ + dec(k as int)))
                    },
                }
            },
        },
{
    if parts.len() < 4 {
        say_str(out, "ERROR: PN.INS REQUIRES PATTERN NUMBER, INDEX, AND VALUE");
        return Ok(());
    }
    let k = match pattern_number(parts, out)? {
        Some(k) => k,
        None => return Ok(()),
    };
    let idx = usize_argument(parts, 2, "Failed to parse insert index")?;
    let v = i16_argument(parts, 3, "Failed to parse insert value")?;
    ins_command(PatternRef::Explicit(k), k, idx, v, patterns, out);
    Ok(())
}

/// PN.RM: takes out the step at an index of a pattern's used steps.
pub fn handle_pn_rm(parts: &[&str], patterns: &mut PatternStorage, out: &mut Console) -> (r: Result<(), String>)
    requires
        old(patterns).wf(),
    ensures
        parts@.len() < 3 ==> *final(patterns) == *old(patterns) && r is Ok
            && final(out)@ == old(out)@.push(line("ERROR: PN.RM REQUIRES PATTERN NUMBER AND INDEX"@)),
        parts@.len() >= 3 ==> match usize_arg(tok(parts@, 1)) {
            None => *final(patterns) == *old(patterns) && final(out)@ == old(out)@
                && failed(r, "Failed to parse pattern number"@),
            Some(k) => if k > 5 {
                *final(patterns) == *old(patterns) && r is Ok
                    && final(out)@ == old(out)@.push(line("ERROR: PATTERN NUMBER MUST BE 0-5"@))
            } else {
                let p = pat(*old(patterns), k as int);
                match usize_arg(tok(parts@, 2)) {
                    None => *final(patterns) == *old(patterns) && final(out)@ == old(out)@
                        && failed(r, "Failed to parse remove index"@),
                    Some(idx) => r is Ok && if idx >= p.length {
                        *final(patterns) == *old(patterns) && final(out)@ == old(out)@.push(line(
                            "ERROR: INDEX "@ + dec(idx as int) + " OUT OF RANGE (LENGTH "@ + dec(p.length as int) + ")"@))
                    } else {
                        &&& data_updated(*old(patterns), *final(patterns), k as int, removed(p.data@, p.length as int, idx as int))
                        &&& final(out)@ == old(out)@.push(line("REMOVED "@ + dec(p.data@[idx as int] as int) + " FROM INDEX "@
                            + dec(idx as int) + " IN PATTERN "@ + dec(k as int)))
                    },
                }
            },
        },
{
    if parts.len() < 3 {
        say_str(out, "ERROR: PN.RM REQUIRES PATTERN NUMBER AND INDEX");
        return Ok(());
    }
    let k = match pattern_number(parts, out)? {
        Some(k) => k,
        None => return Ok(()),
    };
    let idx = usize_argument(parts, 2, "Failed to parse remove index")?;
    rm_command(PatternRef::Explicit(k), k, idx, patterns, out);
    Ok(())
}

/// PN.REV: reverses a pattern's used steps.
pub fn handle_pn_rev(parts: &[&str], patterns: &mut PatternStorage, out: &mut Console) -> (r: Result<(), String>)
    requires
        old(patterns).wf(),
    ensures
        parts@.len() < 2 ==> *final(patterns) == *old(patterns) && r is Ok
            && final(out)@ == old(out)@.push(line("ERROR: PN.REV REQUIRES PATTERN NUMBER (0-5)"@)),
        parts@.len() >= 2 ==> match usize_arg(tok(parts@, 1)) {
            None => *final(patterns) == *old(patterns) && final(out)@ == old(out)@
                && failed(r, "Failed to parse pattern number"@),
            Some(k) => if k > 5 {
                *final(patterns) == *old(patterns) && r is Ok
                    && final(out)@ == old(out)@.push(line("ERROR: PATTERN NUMBER MUST BE 0-5"@))
            } else {
                let p = pat(*old(patterns), k as int);
                &&& r is Ok
                &&& data_updated(*old(patterns), *final(patterns), k as int, reversed(p.data@, p.length as int))
                &&& final(out)@ == old(out)@.push(line("REVERSED PATTERN "@ + dec(k as int)))
            },
        },
{
    if parts.len() < 2 {
        say_str(out, "ERROR: PN.REV REQUIRES PATTERN NUMBER (0-5)");
        return Ok(());
    }
    let k = match pattern_number(parts, out)? {
        Some(k) => k,
        None => return Ok(()),
    };
    let _ = pattern_rev_impl(PatternRef::Explicit(k), patterns);
    say(out, text_int("REVERSED PATTERN ", k as i128));
    Ok(())
}

/// PN.ROT: rotates a pattern's used steps right by a value (left when negative).
pub fn handle_pn_rot(parts: &[&str], patterns: &mut PatternStorage, out: &mut Console) -> (r: Result<(), String>)
    requires
        old(patterns).wf(),
    ensures
        parts@.len() < 3 ==> *final(patterns) == *old(patterns) && r is Ok
            && final(out)@ == old(out)@.push(line("ERROR: PN.ROT REQUIRES PATTERN NUMBER AND ROTATION AMOUNT"@)),
        parts@.len() >= 3 ==> match usize_arg(tok(parts@, 1)) {
            None => *final(patterns) == *old(patterns) && final(out)@ == old(out)@
                && failed(r, "Failed to parse pattern number"@),
            Some(k) => if k > 5 {
                *final(patterns) == *old(patterns) && r is Ok
                    && final(out)@ == old(out)@.push(line("ERROR: PATTERN NUMBER MUST BE 0-5"@))
            } else {
                let p = pat(*old(patterns), k as int);
                match i16_arg(tok(parts@, 2)) {
                    None => *final(patterns) == *old(patterns) && final(out)@ == old(out)@
                        && failed(r, "Failed to parse rotation amount"@),
                    Some(n) => {
                        let m = rot_amount(n as int, p.length as int);
                        &&& r is Ok
                        &&& if p.length == 0 {
                            *final(patterns) == *old(patterns)
                                && final(out)@ == old(out)@.push(line("ERROR: PATTERN LENGTH IS ZERO"@))
                        } else if m == 0 {
                            *final(patterns) == *old(patterns)
                                && final(out)@ == old(out)@.push(line("PATTERN "@ + dec(k as int) + " UNCHANGED (ROTATION 0)"@))
                        } else {
                            &&& data_updated(*old(patterns), *final(patterns), k as int, rotated(p.data@, p.length as int, m))
                            &&& final(out)@ == old(out)@.push(line("ROTATED PATTERN "@ + dec(k as int) + " BY "@ + dec(m)))
                        }
                    },
                }
            },
        },
{
    if parts.len() < 3 {
        say_str(out, "ERROR: PN.ROT REQUIRES PATTERN NUMBER AND ROTATION AMOUNT");
        return Ok(());
    }
    let k = match pattern_number(parts, out)? {
        Some(k) => k,
        None => return Ok(()),
    };
    let n = i16_argument(parts, 2, "Failed to parse rotation amount")?;
    rot_command(PatternRef::Explicit(k), n, k, patterns, out);
    Ok(())
}

/// PN.SHUF: puts a pattern's used steps in a random order.
pub fn handle_pn_shuf(parts: &[&str], patterns: &mut PatternStorage, out: &mut Console) -> (r: Result<(), String>)
    requires
        old(patterns).wf(),
    ensures
        parts@.len() < 2 ==> *final(patterns) == *old(patterns) && r is Ok
            && final(out)@ == old(out)@.push(line("ERROR: PN.SHUF REQUIRES PATTERN NUMBER (0-5)"@)),
        parts@.len() >= 2 ==> match usize_arg(tok(parts@, 1)) {
            None => *final(patterns) == *old(patterns) && final(out)@ == old(out)@
                && failed(r, "Failed to parse pattern number"@),
            Some(k) => if k > 5 {
                *final(patterns) == *old(patterns) && r is Ok
                    && final(out)@ == old(out)@.push(line("ERROR: PATTERN NUMBER MUST BE 0-5"@))
            } else {
                let p = pat(*old(patterns), k as int);
                let q = pat(*final(patterns), k as int);
                &&& r is Ok
                &&& data_updated(*old(patterns), *final(patterns), k as int, q.data@)
                &&& used(*final(patterns), k as int).to_multiset() == used(*old(patterns), k as int).to_multiset()
                &&& q.data@.skip(p.length as int) == p.data@.skip(p.length as int)
                &&& final(out)@ == old(out)@.push(line("SHUFFLED PATTERN "@ + dec(k as int)))
            },
        },
{
    if parts.len() < 2 {
        say_str(out, "ERROR: PN.SHUF REQUIRES PATTERN NUMBER (0-5)");
        return Ok(());
    }
    let k = match pattern_number(parts, out)? {
        Some(k) => k,
        None => return Ok(()),
    };
    let _ = pattern_shuf_impl(PatternRef::Explicit(k), patterns);
    proof {
        if patterns.patterns@[k as int].length == 0 {
            assert(used(*patterns, k as int) =~= used(*old(patterns), k as int));
        }
    }
    say(out, text_int("SHUFFLED PATTERN ", k as i128));
    Ok(())
}

/// PN.SORT: sorts a pattern's used steps in ascending order.
pub fn handle_pn_sort(parts: &[&str], patterns: &mut PatternStorage, out: &mut Console) -> (r: Result<(), String>)
    requires
        old(patterns).wf(),
    ensures
        parts@.len() < 2 ==> *final(patterns) == *old(patterns) && r is Ok
            && final(out)@ == old(out)@.push(line("ERROR: PN.SORT REQUIRES PATTERN NUMBER (0-5)"@)),
        parts@.len() >= 2 ==> match usize_arg(tok(parts@, 1)) {
            None => *final(patterns) == *old(patterns) && final(out)@ == old(out)@
                && failed(r, "Failed to parse pattern number"@),
            Some(k) => if k > 5 {
                *final(patterns) == *old(patterns) && r is Ok
                    && final(out)@ == old(out)@.push(line("ERROR: PATTERN NUMBER MUST BE 0-5"@))
            } else {
                let p = pat(*old(patterns), k as int);
                let q = pat(*final(patterns), k as int);
                &&& r is Ok
                &&& data_updated(*old(patterns), *final(patterns), k as int, q.data@)
                &&& used(*final(patterns), k as int).to_multiset() == used(*old(patterns), k as int).to_multiset()
                &&& forall|i: int, j: int| 0 <= i <= j < p.length ==> q.data@[i] <= q.data@[j]
                &&& q.data@.skip(p.length as int) == p.data@.skip(p.length as int)
                &&& final(out)@ == old(out)@.push(line("SORTED PATTERN "@ + dec(k as int)))
            },
        },
{
    if parts.len() < 2 {
        say_str(out, "ERROR: PN.SORT REQUIRES PATTERN NUMBER (0-5)");
        return Ok(());
    }
    let k = match pattern_number(parts, out)? {
        Some(k) => k,
        None => return Ok(()),
    };
    let _ = pattern_sort_impl(PatternRef::Explicit(k), patterns);
    say(out, text_int("SORTED PATTERN ", k as i128));
    Ok(())
}

/// PN.RND: fills a pattern's used steps with random values in a range (0 to 127 by default).
pub fn handle_pn_rnd(parts: &[&str], patterns: &mut PatternStorage, out: &mut Console) -> (r: Result<(), String>)
    requires
        old(patterns).wf(),
        parts@.len() >= 2 ==> match usize_arg(tok(parts@, 1)) {
            Some(k) => k <= 5 ==> {
                let p = pat(*old(patterns), k as int);
                match rnd_range(parts@, 2) {
                    Some((a, b)) => p.length > 0 ==> a <= b,
                    None => true,
                }
            },
            None => true,
        },
    ensures
        parts@.len() < 2 ==> *final(patterns) == *old(patterns) && r is Ok
            && final(out)@ == old(out)@.push(line("ERROR: PN.RND REQUIRES PATTERN NUMBER (0-5)"@)),
        parts@.len() >= 2 ==> match usize_arg(tok(parts@, 1)) {
            None => *final(patterns) == *old(patterns) && final(out)@ == old(out)@
                && failed(r, "Failed to parse pattern number"@),
            Some(k) => if k > 5 {
                *final(patterns) == *old(patterns) && r is Ok
                    && final(out)@ == old(out)@.push(line("ERROR: PATTERN NUMBER MUST BE 0-5"@))
            } else {
                let p = pat(*old(patterns), k as int);
                match rnd_range(parts@, 2) {
                    None => *final(patterns) == *old(patterns) && final(out)@ == old(out)@ && (if i16_arg(tok(parts@, 2)) is None {
                        failed(r, "Failed to parse min value"@)
                    } else {
                        failed(r, "Failed to parse max value"@)
                    }),
                    Some((a, b)) => {
                        let q = pat(*final(patterns), k as int);
                        &&& r is Ok
                        &&& data_updated(*old(patterns), *final(patterns), k as int, q.data@)
                        &&& forall|i: int| 0 <= i < p.length ==> a <= #[trigger] q.data@[i] <= b
                        &&& q.data@.skip(p.length as int) == p.data@.skip(p.length as int)
                        &&& final(out)@ == old(out)@.push(line("RANDOMIZED PATTERN "@ + dec(k as int) + " (RANGE "@
                            + dec(a as int) + " TO "@ + dec(b as int) + ")"@))
                    },
                }
            },
        },
{
    if parts.len() < 2 {
        say_str(out, "ERROR: PN.RND REQUIRES PATTERN NUMBER (0-5)");
        return Ok(());
    }
    let k = match pattern_number(parts, out)? {
        Some(k) => k,
        None => return Ok(()),
    };
    let (a, b) = if parts.len() >= 4 {
        let a = i16_argument(parts, 2, "Failed to parse min value")?;
        let b = i16_argument(parts, 3, "Failed to parse max value")?;
        (a, b)
    } else {
        (0i16, 127i16)
    };
    let _ = pattern_rnd_impl(PatternRef::Explicit(k), a, b, patterns);
    let mut s = text_int_int("RANDOMIZED PATTERN ", k as i128, " (RANGE ", a as i128);
    s.append(" TO ");
    push_int(&mut s, b as i128);
    s.append(")");
    say(out, s);
    Ok(())
}

/// PN.ADD: adds a value to every used step of a pattern (saturating).
pub fn handle_pn_add(parts: &[&str], patterns: &mut PatternStorage, out: &mut Console) -> (r: Result<(), String>)
    requires
        old(patterns).wf(),
    ensures
        parts@.len() < 3 ==> *final(patterns) == *old(patterns) && r is Ok
            && final(out)@ == old(out)@.push(line("ERROR: PN.ADD REQUIRES PATTERN NUMBER AND VALUE"@)),
        parts@.len() >= 3 ==> match usize_arg(tok(parts@, 1)) {
            None => *final(patterns) == *old(patterns) && final(out)@ == old(out)@
                && failed(r, "Failed to parse pattern number"@),
            Some(k) => if k > 5 {
                *final(patterns) == *old(patterns) && r is Ok
                    && final(out)@ == old(out)@.push(line("ERROR: PATTERN NUMBER MUST BE 0-5"@))
            } else {
                let p = pat(*old(patterns), k as int);
                match i16_arg(tok(parts@, 2)) {
                    None => *final(patterns) == *old(patterns) && final(out)@ == old(out)@
                        && failed(r, "Failed to parse add value"@),
                    Some(v) => r is Ok
                        && data_updated(*old(patterns), *final(patterns), k as int, added(p.data@, p.length as int, v))
                        && final(out)@ == old(out)@.push(line("ADDED "@ + dec(v as int) + " TO PATTERN "@ + dec(k as int))),
                }
            },
        },
{
    if parts.len() < 3 {
        say_str(out, "ERROR: PN.ADD REQUIRES PATTERN NUMBER AND VALUE");
        return Ok(());
    }
    let k = match pattern_number(parts, out)? {
        Some(k) => k,
        None => return Ok(()),
    };
    let v = i16_argument(parts, 2, "Failed to parse add value")?;
    let _ = pattern_add_impl(PatternRef::Explicit(k), v, patterns);
    say(out, text_int_int("ADDED ", v as i128, " TO PATTERN ", k as i128));
    Ok(())
}

/// PN.SUB: subtracts a value from every used step of a pattern (saturating).
pub fn handle_pn_sub(parts: &[&str], patterns: &mut PatternStorage, out: &mut Console) -> (r: Result<(), String>)
    requires
        old(patterns).wf(),
    ensures
        parts@.len() < 3 ==> *final(patterns) == *old(patterns) && r is Ok
            && final(out)@ == old(out)@.push(line("ERROR: PN.SUB REQUIRES PATTERN NUMBER AND VALUE"@)),
        parts@.len() >= 3 ==> match usize_arg(tok(parts@, 1)) {
            None => *final(patterns) == *old(patterns) && final(out)@ == old(out)@
                && failed(r, "Failed to parse pattern number"@),
            Some(k) => if k > 5 {
                *final(patterns) == *old(patterns) && r is Ok
                    && final(out)@ == old(out)@.push(line("ERROR: PATTERN NUMBER MUST BE 0-5"@))
            } else {
                let p = pat(*old(patterns), k as int);
                match i16_arg(tok(parts@, 2)) {
                    None => *final(patterns) == *old(patterns) && final(out)@ == old(out)@
                        && failed(r, "Failed to parse sub value"@),
                    Some(v) => r is Ok
                        && data_updated(*old(patterns), *final(patterns), k as int, subtracted(p.data@, p.length as int, v))
                        && final(out)@ == old(out)@.push(line("SUBTRACTED "@ + dec(v as int) + " FROM PATTERN "@ + dec(k as int))),
                }
            },
        },
{
    if parts.len() < 3 {
        say_str(out, "ERROR: PN.SUB REQUIRES PATTERN NUMBER AND VALUE");
        return Ok(());
    }
    let k = match pattern_number(parts, out)? {
        Some(k) => k,
        None => return Ok(()),
    };
    let v = i16_argument(parts, 2, "Failed to parse sub value")?;
    let _ = pattern_sub_impl(PatternRef::Explicit(k), v, patterns);
    say(out, text_int_int("SUBTRACTED ", v as i128, " FROM PATTERN ", k as i128));
    Ok(())
}

/// PN.MUL: multiplies every used step of a pattern by a value (saturating).
pub fn handle_pn_mul(parts: &[&str], patterns: &mut PatternStorage, out: &mut Console) -> (r: Result<(), String>)
    requires
        old(patterns).wf(),
    ensures
        parts@.len() < 3 ==> *final(patterns) == *old(patterns) && r is Ok
            && final(out)@ == old(out)@.push(line("ERROR: PN.MUL REQUIRES PATTERN NUMBER AND VALUE"@)),
        parts@.len() >= 3 ==> match usize_arg(tok(parts@, 1)) {
            None => *final(patterns) == *old(patterns) && final(out)@ == old(out)@
                && failed(r, "Failed to parse pattern number"@),
            Some(k) => if k > 5 {
                *final(patterns) == *old(patterns) && r is Ok
                    && final(out)@ == old(out)@.push(line("ERROR: PATTERN NUMBER MUST BE 0-5"@))
            } else {
                let p = pat(*old(patterns), k as int);
                match i16_arg(tok(parts@, 2)) {
                    None => *final(patterns) == *old(patterns) && final(out)@ == old(out)@
                        && failed(r, "Failed to parse mul value"@),
                    Some(v) => r is Ok
                        && data_updated(*old(patterns), *final(patterns), k as int, multiplied(p.data@, p.length as int, v))
                        && final(out)@ == old(out)@.push(line("MULTIPLIED PATTERN "@ + dec(k as int) + " BY "@ + dec(v as int))),
                }
            },
        },
{
    if parts.len() < 3 {
        say_str(out, "ERROR: PN.MUL REQUIRES PATTERN NUMBER AND VALUE");
        return Ok(());
    }
    let k = match pattern_number(parts, out)? {
        Some(k) => k,
        None => return Ok(()),
    };
    let v = i16_argument(parts, 2, "Failed to parse mul value")?;
    let _ = pattern_mul_impl(PatternRef::Explicit(k), v, patterns);
    say(out, text_int_int("MULTIPLIED PATTERN ", k as i128, " BY ", v as i128));
    Ok(())
}

/// PN.DIV: divides every used step of a pattern by a value (rounding toward zero); a zero is refused.
pub fn handle_pn_div(parts: &[&str], patterns: &mut PatternStorage, out: &mut Console) -> (r: Result<(), String>)
    requires
        old(patterns).wf(),
        parts@.len() >= 3 ==> match usize_arg(tok(parts@, 1)) {
            Some(k) => k <= 5 ==> {
                let p = pat(*old(patterns), k as int);
                match i16_arg(tok(parts@, 2)) {
                    Some(v) => no_div_overflow(p.data@, p.length as int, v),
                    None => true,
                }
            },
            None => true,
        },
    ensures
        parts@.len() < 3 ==> *final(patterns) == *old(patterns) && r is Ok
            && final(out)@ == old(out)@.push(line("ERROR: PN.DIV REQUIRES PATTERN NUMBER AND VALUE"@)),
        parts@.len() >= 3 ==> match usize_arg(tok(parts@, 1)) {
            None => *final(patterns) == *old(patterns) && final(out)@ == old(out)@
                && failed(r, "Failed to parse pattern number"@),
            Some(k) => if k > 5 {
                *final(patterns) == *old(patterns) && r is Ok
                    && final(out)@ == old(out)@.push(line("ERROR: PATTERN NUMBER MUST BE 0-5"@))
            } else {
                let p = pat(*old(patterns), k as int);
                match i16_arg(tok(parts@, 2)) {
                    None => *final(patterns) == *old(patterns) && final(out)@ == old(out)@
                        && failed(r, "Failed to parse div value"@),
                    Some(v) => r is Ok && if v == 0 {
                        *final(patterns) == *old(patterns) && final(out)@ == old(out)@.push(line("ERROR: DIVISION BY ZERO"@))
                    } else {
                        data_updated(*old(patterns), *final(patterns), k as int, divided(p.data@, p.length as int, v))
                            && final(out)@ == old(out)@.push(line("DIVIDED PATTERN "@ + dec(k as int) + " BY "@ + dec(v as int)))
                    },
                }
            },
        },
{
    if parts.len() < 3 {
        say_str(out, "ERROR: PN.DIV REQUIRES PATTERN NUMBER AND VALUE");
        return Ok(());
    }
    let k = match pattern_number(parts, out)? {
        Some(k) => k,
        None => return Ok(()),
    };
    let v = i16_argument(parts, 2, "Failed to parse div value")?;
    if v == 0 {
        say_str(out, "ERROR: DIVISION BY ZERO");
        return Ok(());
    }
    let _ = pattern_div_impl(PatternRef::Explicit(k), v, patterns);
    say(out, text_int_int("DIVIDED PATTERN ", k as i128, " BY ", v as i128));
    Ok(())
}

/// PN.MOD: replaces every used step of a pattern by its remainder by a value; a zero is refused.
pub fn handle_pn_mod(parts: &[&str], patterns: &mut PatternStorage, out: &mut Console) -> (r: Result<(), String>)
    requires
        old(patterns).wf(),
        parts@.len() >= 3 ==> match usize_arg(tok(parts@, 1)) {
            Some(k) => k <= 5 ==> {
                let p = pat(*old(patterns), k as int);
                match i16_arg(tok(parts@, 2)) {
                    Some(v) => no_div_overflow(p.data@, p.length as int, v),
                    None => true,
                }
            },
            None => true,
        },
    ensures
        parts@.len() < 3 ==> *final(patterns) == *old(patterns) && r is Ok
            && final(out)@ == old(out)@.push(line("ERROR: PN.MOD REQUIRES PATTERN NUMBER AND VALUE"@)),
        parts@.len() >= 3 ==> match usize_arg(tok(parts@, 1)) {
            None => *final(patterns) == *old(patterns) && final(out)@ == old(out)@
                && failed(r, "Failed to parse pattern number"@),
            Some(k) => if k > 5 {
                *final(patterns) == *old(patterns) && r is Ok
                    && final(out)@ == old(out)@.push(line("ERROR: PATTERN NUMBER MUST BE 0-5"@))
            } else {
                let p = pat(*old(patterns), k as int);
                match i16_arg(tok(parts@, 2)) {
                    None => *final(patterns) == *old(patterns) && final(out)@ == old(out)@
                        && failed(r, "Failed to parse mod value"@),
                    Some(v) => r is Ok && if v == 0 {
                        *final(patterns) == *old(patterns) && final(out)@ == old(out)@.push(line("ERROR: MODULO BY ZERO"@))
                    } else {
                        data_updated(*old(patterns), *final(patterns), k as int, reduced(p.data@, p.length as int, v))
                            && final(out)@ == old(out)@.push(line("MODULO PATTERN "@ + dec(k as int) + " BY "@ + dec(v as int)))
                    },
                }
            },
        },
{
    if parts.len() < 3 {
        say_str(out, "ERROR: PN.MOD REQUIRES PATTERN NUMBER AND VALUE");
        return Ok(());
    }
    let k = match pattern_number(parts, out)? {
        Some(k) => k,
        None => return Ok(()),
    };
    let v = i16_argument(parts, 2, "Failed to parse mod value")?;
    if v == 0 {
        say_str(out, "ERROR: MODULO BY ZERO");
        return Ok(());
    }
    let _ = pattern_mod_impl(PatternRef::Explicit(k), v, patterns);
    say(out, text_int_int("MODULO PATTERN ", k as i128, " BY ", v as i128));
    Ok(())
}

/// PN.SCALE: maps a pattern's used steps linearly onto a new range.
pub fn handle_pn_scale(parts: &[&str], patterns: &mut PatternStorage, out: &mut Console) -> (r: Result<(), String>)
    requires
        old(patterns).wf(),
        parts@.len() >= 4 ==> match usize_arg(tok(parts@, 1)) {
            Some(k) => k <= 5 ==> {
                let p = pat(*old(patterns), k as int);
                match (i16_arg(tok(parts@, 2)), i16_arg(tok(parts@, 3))) {
                    (Some(a), Some(b)) => steps_scale_ok(*old(patterns), k as int, a, b),
                    _ => true,
                }
            },
            None => true,
        },
    ensures
        parts@.len() < 4 ==> *final(patterns) == *old(patterns) && r is Ok
            && final(out)@ == old(out)@.push(line("ERROR: PN.SCALE REQUIRES PATTERN NUMBER, MIN, AND MAX VALUES"@)),
        parts@.len() >= 4 ==> match usize_arg(tok(parts@, 1)) {
            None => *final(patterns) == *old(patterns) && final(out)@ == old(out)@
                && failed(r, "Failed to parse pattern number"@),
            Some(k) => if k > 5 {
                *final(patterns) == *old(patterns) && r is Ok
                    && final(out)@ == old(out)@.push(line("ERROR: PATTERN NUMBER MUST BE 0-5"@))
            } else {
                let p = pat(*old(patterns), k as int);
                let u = used(*old(patterns), k as int);
                match (i16_arg(tok(parts@, 2)), i16_arg(tok(parts@, 3))) {
                    (None, _) => *final(patterns) == *old(patterns) && final(out)@ == old(out)@
                        && failed(r, "Failed to parse new min value"@),
                    (Some(_), None) => *final(patterns) == *old(patterns) && final(out)@ == old(out)@
                        && failed(r, "Failed to parse new max value"@),
                    (Some(a), Some(b)) => r is Ok && if p.length == 0 {
                        *final(patterns) == *old(patterns)
                            && final(out)@ == old(out)@.push(line("ERROR: PATTERN LENGTH IS ZERO"@))
                    } else {
                        &&& data_updated(*old(patterns), *final(patterns), k as int,
                                scaled(p.data@, p.length as int, min_of(u), max_of(u), a, b))
                        &&& final(out)@ == old(out)@.push(line("SCALED PATTERN "@ + dec(k as int) + " TO RANGE "@
                            + dec(a as int) + " TO "@ + dec(b as int)))
                    },
                }
            },
        },
{
    if parts.len() < 4 {
        say_str(out, "ERROR: PN.SCALE REQUIRES PATTERN NUMBER, MIN, AND MAX VALUES");
        return Ok(());
    }
    let k = match pattern_number(parts, out)? {
        Some(k) => k,
        None => return Ok(()),
    };
    let a = i16_argument(parts, 2, "Failed to parse new min value")?;
    let b = i16_argument(parts, 3, "Failed to parse new max value")?;
    scale_command(k, a, b, patterns, out);
    Ok(())
}

/// PN.MIN: prints the least used step of a pattern.
pub fn handle_pn_min(parts: &[&str], patterns: &mut PatternStorage, out: &mut Console) -> (r: Result<(), String>)
    requires
        old(patterns).wf(),
    ensures
        parts@.len() < 2 ==> *final(patterns) == *old(patterns) && r is Ok
            && final(out)@ == old(out)@.push(line("ERROR: PN.MIN REQUIRES PATTERN NUMBER (0-5)"@)),
        parts@.len() >= 2 ==> match usize_arg(tok(parts@, 1)) {
            None => *final(patterns) == *old(patterns) && final(out)@ == old(out)@
                && failed(r, "Failed to parse pattern number"@),
            Some(k) => if k > 5 {
                *final(patterns) == *old(patterns) && r is Ok
                    && final(out)@ == old(out)@.push(line("ERROR: PATTERN NUMBER MUST BE 0-5"@))
            } else {
                let p = pat(*old(patterns), k as int);
                *final(patterns) == *old(patterns) && r is Ok && if p.length == 0 {
                    final(out)@ == old(out)@.push(line("ERROR: PATTERN LENGTH IS ZERO"@))
                } else {
                    final(out)@ == old(out)@.push(line("PN.MIN "@ + dec(k as int) + " = "@ + dec(min_of(used(*old(patterns), k as int)) as int)))
                }
            },
        },
{
    if parts.len() < 2 {
        say_str(out, "ERROR: PN.MIN REQUIRES PATTERN NUMBER (0-5)");
        return Ok(());
    }
    let k = match pattern_number(parts, out)? {
        Some(k) => k,
        None => return Ok(()),
    };
    match pattern_min_impl(PatternRef::Explicit(k), patterns) {
        Err(_) => say_str(out, "ERROR: PATTERN LENGTH IS ZERO"),
        Ok(v) => say(out, text_int_int("PN.MIN ", k as i128, " = ", v as i128)),
    }
    Ok(())
}

/// PN.MAX: prints the greatest used step of a pattern.
pub fn handle_pn_max(parts: &[&str], patterns: &mut PatternStorage, out: &mut Console) -> (r: Result<(), String>)
    requires
        old(patterns).wf(),
    ensures
        parts@.len() < 2 ==> *final(patterns) == *old(patterns) && r is Ok
            && final(out)@ == old(out)@.push(line("ERROR: PN.MAX REQUIRES PATTERN NUMBER (0-5)"@)),
        parts@.len() >= 2 ==> match usize_arg(tok(parts@, 1)) {
            None => *final(patterns) == *old(patterns) && final(out)@ == old(out)@
                && failed(r, "Failed to parse pattern number"@),
            Some(k) => if k > 5 {
                *final(patterns) == *old(patterns) && r is Ok
                    && final(out)@ == old(out)@.push(line("ERROR: PATTERN NUMBER MUST BE 0-5"@))
            } else {
                let p = pat(*old(patterns), k as int);
                *final(patterns) == *old(patterns) && r is Ok && if p.length == 0 {
                    final(out)@ == old(out)@.push(line("ERROR: PATTERN LENGTH IS ZERO"@))
                } else {
                    final(out)@ == old(out)@.push(line("PN.MAX "@ + dec(k as int) + " = "@ + dec(max_of(used(*old(patterns), k as int)) as int)))
                }
            },
        },
{
    if parts.len() < 2 {
        say_str(out, "ERROR: PN.MAX REQUIRES PATTERN NUMBER (0-5)");
        return Ok(());
    }
    let k = match pattern_number(parts, out)? {
        Some(k) => k,
        None => return Ok(()),
    };
    match pattern_max_impl(PatternRef::Explicit(k), patterns) {
        Err(_) => say_str(out, "ERROR: PATTERN LENGTH IS ZERO"),
        Ok(v) => say(out, text_int_int("PN.MAX ", k as i128, " = ", v as i128)),
    }
    Ok(())
}

/// PN.SUM: prints the sum of a pattern's used steps.
pub fn handle_pn_sum(parts: &[&str], patterns: &mut PatternStorage, out: &mut Console) -> (r: Result<(), String>)
    requires
        old(patterns).wf(),
    ensures
        parts@.len() < 2 ==> *final(patterns) == *old(patterns) && r is Ok
            && final(out)@ == old(out)@.push(line("ERROR: PN.SUM REQUIRES PATTERN NUMBER (0-5)"@)),
        parts@.len() >= 2 ==> match usize_arg(tok(parts@, 1)) {
            None => *final(patterns) == *old(patterns) && final(out)@ == old(out)@
                && failed(r, "Failed to parse pattern number"@),
            Some(k) => if k > 5 {
                *final(patterns) == *old(patterns) && r is Ok
                    && final(out)@ == old(out)@.push(line("ERROR: PATTERN NUMBER MUST BE 0-5"@))
            } else {
                let p = pat(*old(patterns), k as int);
                *final(patterns) == *old(patterns) && r is Ok
                    && final(out)@ == old(out)@.push(line("PN.SUM "@ + dec(k as int) + " = "@ + dec(sum16(used(*old(patterns), k as int)))))
            },
        },
{
    if parts.len() < 2 {
        say_str(out, "ERROR: PN.SUM REQUIRES PATTERN NUMBER (0-5)");
        return Ok(());
    }
    let k = match pattern_number(parts, out)? {
        Some(k) => k,
        None => return Ok(()),
    };
    let s = pattern_sum_impl(PatternRef::Explicit(k), patterns);
    say(out, text_int_int("PN.SUM ", k as i128, " = ", s as i128));
    Ok(())
}

/// PN.AVG: prints the mean of a pattern's used steps, rounded toward zero.
pub fn handle_pn_avg(parts: &[&str], patterns: &mut PatternStorage, out: &mut Console) -> (r: Result<(), String>)
    requires
        old(patterns).wf(),
    ensures
        parts@.len() < 2 ==> *final(patterns) == *old(patterns) && r is Ok
            && final(out)@ == old(out)@.push(line("ERROR: PN.AVG REQUIRES PATTERN NUMBER (0-5)"@)),
        parts@.len() >= 2 ==> match usize_arg(tok(parts@, 1)) {
            None => *final(patterns) == *old(patterns) && final(out)@ == old(out)@
                && failed(r, "Failed to parse pattern number"@),
            Some(k) => if k > 5 {
                *final(patterns) == *old(patterns) && r is Ok
                    && final(out)@ == old(out)@.push(line("ERROR: PATTERN NUMBER MUST BE 0-5"@))
            } else {
                let p = pat(*old(patterns), k as int);
                *final(patterns) == *old(patterns) && r is Ok && if p.length == 0 {
                    final(out)@ == old(out)@.push(line("ERROR: PATTERN LENGTH IS ZERO"@))
                } else {
                    final(out)@ == old(out)@.push(line("PN.AVG "@ + dec(k as int) + " = "@
                        + dec(tdiv(sum16(used(*old(patterns), k as int)), p.length as int))))
                }
            },
        },
{
    if parts.len() < 2 {
        say_str(out, "ERROR: PN.AVG REQUIRES PATTERN NUMBER (0-5)");
        return Ok(());
    }
    let k = match pattern_number(parts, out)? {
        Some(k) => k,
        None => return Ok(()),
    };
    match pattern_avg_impl(PatternRef::Explicit(k), patterns) {
        Err(_) => say_str(out, "ERROR: PATTERN LENGTH IS ZERO"),
        Ok(v) => say(out, text_int_int("PN.AVG ", k as i128, " = ", v as i128)),
    }
    Ok(())
}

/// PN.FND: prints the position of the first used step of a pattern equal to a value, or -1.
pub fn handle_pn_fnd(parts: &[&str], patterns: &mut PatternStorage, out: &mut Console) -> (r: Result<(), String>)
    requires
        old(patterns).wf(),
    ensures
        parts@.len() < 3 ==> *final(patterns) == *old(patterns) && r is Ok
            && final(out)@ == old(out)@.push(line("ERROR: PN.FND REQUIRES PATTERN NUMBER AND VALUE"@)),
        parts@.len() >= 3 ==> match usize_arg(tok(parts@, 1)) {
            None => *final(patterns) == *old(patterns) && final(out)@ == old(out)@
                && failed(r, "Failed to parse pattern number"@),
            Some(k) => if k > 5 {
                *final(patterns) == *old(patterns) && r is Ok
                    && final(out)@ == old(out)@.push(line("ERROR: PATTERN NUMBER MUST BE 0-5"@))
            } else {
                let p = pat(*old(patterns), k as int);
                *final(patterns) == *old(patterns) && match i16_arg(tok(parts@, 2)) {
                    None => final(out)@ == old(out)@ && failed(r, "Failed to parse find value"@),
                    Some(v) => r is Ok && final(out)@ == old(out)@.push(line("PN.FND "@ + dec(k as int) + " = "@
                        + dec(crate::patterns::common::find_pos(used(*old(patterns), k as int), v)))),
                }
            },
        },
{
    if parts.len() < 3 {
        say_str(out, "ERROR: PN.FND REQUIRES PATTERN NUMBER AND VALUE");
        return Ok(());
    }
    let k = match pattern_number(parts, out)? {
        Some(k) => k,
        None => return Ok(()),
    };
    let v = i16_argument(parts, 2, "Failed to parse find value")?;
    let idx = pattern_fnd_impl(PatternRef::Explicit(k), v, patterns);
    say(out, text_int_int("PN.FND ", k as i128, " = ", idx as i128));
    Ok(())
}

} // verus!
