//! RND, RRND, TOSS, EITH and TOG: random values, and choices between two
//! values that are remembered per command line.

use vstd::prelude::*;
use crate::args::{eval_expression, tok};
use crate::console::{line, Console, OutputCategory};
use crate::math_ops::operand;
use crate::rng::{random_bool, random_i16_in};
use crate::state::PatternStorage;
use crate::text::{dec, fmt_int, join_strs, joined, parse_i16, parse_i16_token, push_int, push_str};

verus! {

/// The toggle key of a command line: `cmd_`, the script's number, `_`, and
/// the line's words joined by `_`.
pub open spec fn line_key(script_index: usize, parts: Seq<&str>) -> Seq<char> {
    "cmd_"@ + dec(script_index as int) + "_"@ + joined(parts, "_"@)
}

/// The count stored under `key`, 0 where there is none.
pub open spec fn count_of(m: Map<Seq<char>, u32>, key: Seq<char>) -> u32 {
    if m.contains_key(key) {
        m[key]
    } else {
        0
    }
}

/// `c + 1`, wrapping to 0 past `u32::MAX`.
pub open spec fn bump(c: u32) -> u32 {
    if c == u32::MAX {
        0
    } else {
        (c + 1) as u32
    }
}

fn line_key_of(script_index: usize, parts: &[&str]) -> (s: String)
    ensures
        s@ == line_key(script_index, parts@),
{
    let mut s = String::from_str("cmd_");
    push_int(&mut s, script_index as i128);
    push_str(&mut s, "_");
    let j = join_strs(parts, "_");
    push_str(&mut s, j.as_str());
    s
}

/// RND max: prints a random value from 0 to `max`, or 0 where `max` is not
/// positive.
pub fn handle_rnd(parts: &[&str], out: &mut Console) -> (r: Result<(), String>)
    ensures
        parts@.len() < 2 ==> r is Ok && final(out)@ == old(out)@.push(
            line("ERROR: RND REQUIRES A MAX VALUE"@),
        ),
        parts@.len() >= 2 ==> match parse_i16(tok(parts@, 1)) {
            None => r is Err && r->Err_0@ == "Failed to parse max value as number"@
                && final(out)@ == old(out)@,
            Some(max) => r is Ok && if max <= 0 {
                final(out)@ == old(out)@.push(line("0"@))
            } else {
                exists|v: i16| 0 <= v <= max && final(out)@ == old(out)@.push(line(dec(v as int)))
            },
        },
{
    if parts.len() < 2 {
        out.emit_str(OutputCategory::Always, "ERROR: RND REQUIRES A MAX VALUE");
        return Ok(());
    }
    let max = match parse_i16_token(parts[1]) {
        Some(v) => v,
        None => return Err(String::from_str("Failed to parse max value as number")),
    };
    if max <= 0 {
        out.emit_str(OutputCategory::Always, "0");
    } else {
        let v = random_i16_in(0, max);
        out.emit(OutputCategory::Always, fmt_int(v as i128));
    }
    Ok(())
}

/// RRND a b: prints a random value between `a` and `b`, both included, in
/// whichever order they come.
pub fn handle_rrnd(parts: &[&str], out: &mut Console) -> (r: Result<(), String>)
    ensures
        parts@.len() < 3 ==> r is Ok && final(out)@ == old(out)@.push(
            line("ERROR: RRND REQUIRES MIN AND MAX VALUES"@),
        ),
        parts@.len() >= 3 ==> match (parse_i16(tok(parts@, 1)), parse_i16(tok(parts@, 2))) {
            (None, _) => r is Err && r->Err_0@ == "Failed to parse min value as number"@
                && final(out)@ == old(out)@,
            (Some(_), None) => r is Err && r->Err_0@ == "Failed to parse max value as number"@
                && final(out)@ == old(out)@,
            (Some(a), Some(b)) => {
                let lo = if a <= b { a } else { b };
                let hi = if a <= b { b } else { a };
                r is Ok && exists|v: i16| lo <= v <= hi && final(out)@ == old(out)@.push(line(dec(v as int)))
            },
        },
{
    if parts.len() < 3 {
        out.emit_str(OutputCategory::Always, "ERROR: RRND REQUIRES MIN AND MAX VALUES");
        return Ok(());
    }
    let mut min = match parse_i16_token(parts[1]) {
        Some(v) => v,
        None => return Err(String::from_str("Failed to parse min value as number")),
    };
    let mut max = match parse_i16_token(parts[2]) {
        Some(v) => v,
        None => return Err(String::from_str("Failed to parse max value as number")),
    };
    if min > max {
        let t = min;
        min = max;
        max = t;
    }
    let v = random_i16_in(min, max);
    out.emit(OutputCategory::Always, fmt_int(v as i128));
    Ok(())
}

/// TOSS: prints 0 or 1 at random.
pub fn handle_toss(out: &mut Console)
    ensures
        final(out)@ == old(out)@.push(line("0"@)) || final(out)@ == old(out)@.push(line("1"@)),
{
    if random_bool() {
        out.emit_str(OutputCategory::Always, "1");
    } else {
        out.emit_str(OutputCategory::Always, "0");
    }
}

/// EITH a b: prints `a` or `b` at random, and remembers under the line's key
/// which it was (0 for `a`, 1 for `b`).
pub fn handle_eith(parts: &[&str], script_index: usize, patterns: &mut PatternStorage, out: &mut Console)
    requires
        old(patterns).wf(),
    ensures
        final(patterns).wf(),
        final(patterns).patterns == old(patterns).patterns,
        final(patterns).working == old(patterns).working,
        parts@.len() < 2 ==> final(patterns).toggle_state@ == old(patterns).toggle_state@
            && final(out)@ == old(out)@.push(line("ERROR: EITH REQUIRES TWO VALUES"@)),
        parts@.len() >= 2 ==> match (operand(parts@, 1), operand(parts@, 2)) {
            (None, _) => final(patterns).toggle_state@ == old(patterns).toggle_state@
                && final(out)@ == old(out)@.push(line("ERROR: FAILED TO EVALUATE FIRST VALUE"@)),
            (Some(_), None) => final(patterns).toggle_state@ == old(patterns).toggle_state@
                && final(out)@ == old(out)@.push(line("ERROR: FAILED TO EVALUATE SECOND VALUE"@)),
            (Some(a), Some(b)) => {
                let key = line_key(script_index, parts@);
                ||| final(patterns).toggle_state@ == old(patterns).toggle_state@.insert(key, 0)
                    && final(out)@ == old(out)@.push(line(dec(a as int)))
                ||| final(patterns).toggle_state@ == old(patterns).toggle_state@.insert(key, 1)
                    && final(out)@ == old(out)@.push(line(dec(b as int)))
            },
        },
{
    if parts.len() < 2 {
        out.emit_str(OutputCategory::Always, "ERROR: EITH REQUIRES TWO VALUES");
        return;
    }
    match eval_expression(parts, 1) {
        None => out.emit_str(OutputCategory::Always, "ERROR: FAILED TO EVALUATE FIRST VALUE"),
        Some((a, used)) => match eval_expression(parts, 1 + used) {
            None => out.emit_str(OutputCategory::Always, "ERROR: FAILED TO EVALUATE SECOND VALUE"),
            Some((b, _)) => {
                let key = line_key_of(script_index, parts);
                let first = random_bool();
                let selected: u32 = if first {
                    0
                } else {
                    1
                };
                patterns.toggle_state.insert(key, selected);
                let v = if selected == 0 {
                    a
                } else {
                    b
                };
                out.emit(OutputCategory::Always, fmt_int(v as i128));
            },
        },
    }
}

/// What TOG prints and stores, given the count `c` found under its key and
/// its two values: `a` on an even count, `b` on an odd one.
pub open spec fn tog_pick(c: u32, a: i16, b: i16) -> i16 {
    if c % 2 == 0 {
        a
    } else {
        b
    }
}

/// What TOG does, for the command line `parts` of script `script_index`.
pub open spec fn tog_done(
    parts: Seq<&str>,
    script_index: usize,
    old_state: Map<Seq<char>, u32>,
    new_state: Map<Seq<char>, u32>,
    out_old: Seq<(OutputCategory, Seq<char>)>,
    out_new: Seq<(OutputCategory, Seq<char>)>,
) -> bool {
    if parts.len() < 3 {
        new_state == old_state && out_new == out_old.push(
            line("ERROR: TOG REQUIRES AT LEAST TWO VALUES"@),
        )
    } else {
        match (operand(parts, 1), operand(parts, 2)) {
            (None, _) => new_state == old_state && out_new == out_old.push(
                line("ERROR: FAILED TO EVALUATE FIRST VALUE"@),
            ),
            (Some(_), None) => new_state == old_state && out_new == out_old.push(
                line("ERROR: FAILED TO EVALUATE SECOND VALUE"@),
            ),
            (Some(a), Some(b)) => {
                let key = line_key(script_index, parts);
                let c = count_of(old_state, key);
                &&& new_state == old_state.insert(key, bump(c))
                &&& out_new == out_old.push(line(dec(tog_pick(c, a, b) as int)))
            },
        }
    }
}

/// TOG a b: prints `a` and `b` in turn, counting the calls under the line's key.
pub fn handle_tog(parts: &[&str], script_index: usize, patterns: &mut PatternStorage, out: &mut Console)
    requires
        old(patterns).wf(),
    ensures
        final(patterns).wf(),
        final(patterns).patterns == old(patterns).patterns,
        final(patterns).working == old(patterns).working,
        tog_done(
            parts@,
            script_index,
            old(patterns).toggle_state@,
            final(patterns).toggle_state@,
            old(out)@,
            final(out)@,
        ),
{
    if parts.len() < 3 {
        out.emit_str(OutputCategory::Always, "ERROR: TOG REQUIRES AT LEAST TWO VALUES");
        return;
    }
    match eval_expression(parts, 1) {
        None => out.emit_str(OutputCategory::Always, "ERROR: FAILED TO EVALUATE FIRST VALUE"),
        Some((a, used)) => match eval_expression(parts, 1 + used) {
            None => out.emit_str(OutputCategory::Always, "ERROR: FAILED TO EVALUATE SECOND VALUE"),
            Some((b, _)) => {
                let key = line_key_of(script_index, parts);
                let c: u32 = match patterns.toggle_state.get(&key) {
                    Some(c) => c,
                    None => 0,
                };
                let v = if c % 2 == 0 {
                    a
                } else {
                    b
                };
                let next: u32 = if c == u32::MAX {
                    0
                } else {
                    c + 1
                };
                patterns.toggle_state.insert(key, next);
                out.emit(OutputCategory::Always, fmt_int(v as i128));
            },
        },
    }
}

/// Two TOGs in a row on the same line print its two values, one each.
pub proof fn law_tog_alternates(
    parts: Seq<&str>,
    script_index: usize,
    s0: Map<Seq<char>, u32>,
    s1: Map<Seq<char>, u32>,
    s2: Map<Seq<char>, u32>,
    o0: Seq<(OutputCategory, Seq<char>)>,
    o1: Seq<(OutputCategory, Seq<char>)>,
    o2: Seq<(OutputCategory, Seq<char>)>,
)
    requires
        tog_done(parts, script_index, s0, s1, o0, o1),
        tog_done(parts, script_index, s1, s2, o1, o2),
        parts.len() >= 3,
        operand(parts, 1) is Some,
        operand(parts, 2) is Some,
    ensures
        ({
            let a = line(dec(operand(parts, 1)->Some_0 as int));
            let b = line(dec(operand(parts, 2)->Some_0 as int));
            o2 == o0.push(a).push(b) || o2 == o0.push(b).push(a)
        }),
{
    let key = line_key(script_index, parts);
    let c = count_of(s0, key);
    assert(count_of(s1, key) == bump(c));
    assert(c % 2 != bump(c) % 2);
}

} // verus!
