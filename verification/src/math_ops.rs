//! ADD, SUB, MUL, DIV, MOD: evaluate two operands and print the result.
//! Sums, differences and products saturate at the `i16` bounds; quotients
//! and remainders are Rust's, rounding toward zero.

use vstd::prelude::*;
use crate::args::{eval_expression, eval_token, tok};
use crate::console::{line, Console, OutputCategory};
use crate::patterns::common::{clamp16, div16, rem16, sat_add, sat_mul, sat_sub, tdiv, trem};
use crate::text::{dec, fmt_int, push_str};

verus! {

/// What evaluating the argument at `i` gives, if there is one.
pub open spec fn operand(parts: Seq<&str>, i: int) -> Option<i16> {
    if 0 <= i < parts.len() {
        eval_token(tok(parts, i))
    } else {
        None
    }
}

/// What a command on two operands prints: `result(x, y)` for the operands
/// `x` and `y`, else why there are none.
pub open spec fn two_operand_text(
    parts: Seq<&str>,
    op: Seq<char>,
    result: spec_fn(i16, i16) -> Seq<char>,
) -> Seq<char> {
    if parts.len() < 2 {
        "ERROR: "@ + op + " REQUIRES TWO OPERANDS"@
    } else {
        match operand(parts, 1) {
            None => "ERROR: FAILED TO EVALUATE FIRST OPERAND"@,
            Some(x) => match operand(parts, 2) {
                None => "ERROR: FAILED TO EVALUATE SECOND OPERAND"@,
                Some(y) => result(x, y),
            },
        }
    }
}

/// The two operands, where both evaluate.
pub open spec fn operands(parts: Seq<&str>) -> Option<(i16, i16)> {
    match (operand(parts, 1), operand(parts, 2)) {
        (Some(x), Some(y)) => Some((x, y)),
        _ => None,
    }
}

/// Rust's `/` and `%` overflow on `i16::MIN` and `-1`.
pub open spec fn no_overflow(parts: Seq<&str>) -> bool {
    operands(parts) != Some((i16::MIN, -1i16))
}

pub open spec fn quotient_text(x: i16, y: i16) -> Seq<char> {
    if y == 0 {
        "ERROR: DIVISION BY ZERO"@
    } else {
        dec(tdiv(x as int, y as int))
    }
}

pub open spec fn remainder_text(x: i16, y: i16) -> Seq<char> {
    if y == 0 {
        "ERROR: MODULO BY ZERO"@
    } else {
        dec(trem(x as int, y as int))
    }
}

/// Reads the two operands, printing why where there are none.
fn read_operands(parts: &[&str], op: &str, out: &mut Console) -> (r: Option<(i16, i16)>)
    ensures
        parts@.len() >= 2 ==> r == operands(parts@),
        r is None ==> final(out)@ == old(out)@.push(
            line(two_operand_text(parts@, op@, |x: i16, y: i16| Seq::<char>::empty())),
        ),
        r is Some ==> final(out)@ == old(out)@ && parts@.len() >= 2,
{
    if parts.len() < 2 {
        let mut s = String::from_str("ERROR: ");
        push_str(&mut s, op);
        push_str(&mut s, " REQUIRES TWO OPERANDS");
        out.emit(OutputCategory::Always, s);
        return None;
    }
    match eval_expression(parts, 1) {
        None => {
            out.emit_str(OutputCategory::Always, "ERROR: FAILED TO EVALUATE FIRST OPERAND");
            None
        },
        Some((x, used)) => match eval_expression(parts, 1 + used) {
            None => {
                out.emit_str(OutputCategory::Always, "ERROR: FAILED TO EVALUATE SECOND OPERAND");
                None
            },
            Some((y, _)) => Some((x, y)),
        },
    }
}

/// ADD x y: prints `x + y`, saturating.
pub fn handle_add(parts: &[&str], out: &mut Console)
    ensures
        final(out)@ == old(out)@.push(
            line(two_operand_text(parts@, "ADD"@, |x: i16, y: i16| dec(clamp16(x + y) as int))),
        ),
{
    match read_operands(parts, "ADD", out) {
        Some((x, y)) => out.emit(OutputCategory::Always, fmt_int(sat_add(x, y) as i128)),
        None => {},
    }
}

/// SUB x y: prints `x - y`, saturating.
pub fn handle_sub(parts: &[&str], out: &mut Console)
    ensures
        final(out)@ == old(out)@.push(
            line(two_operand_text(parts@, "SUB"@, |x: i16, y: i16| dec(clamp16(x - y) as int))),
        ),
{
    match read_operands(parts, "SUB", out) {
        Some((x, y)) => out.emit(OutputCategory::Always, fmt_int(sat_sub(x, y) as i128)),
        None => {},
    }
}

/// MUL x y: prints `x * y`, saturating.
pub fn handle_mul(parts: &[&str], out: &mut Console)
    ensures
        final(out)@ == old(out)@.push(
            line(two_operand_text(parts@, "MUL"@, |x: i16, y: i16| dec(clamp16(x * y) as int))),
        ),
{
    match read_operands(parts, "MUL", out) {
        Some((x, y)) => out.emit(OutputCategory::Always, fmt_int(sat_mul(x, y) as i128)),
        None => {},
    }
}

/// DIV x y: prints `x / y`, or the division-by-zero error.
pub fn handle_div(parts: &[&str], out: &mut Console)
    requires
        no_overflow(parts@),
    ensures
        final(out)@ == old(out)@.push(
            line(two_operand_text(parts@, "DIV"@, |x: i16, y: i16| quotient_text(x, y))),
        ),
{
    match read_operands(parts, "DIV", out) {
        Some((x, y)) => {
            if y == 0 {
                out.emit_str(OutputCategory::Always, "ERROR: DIVISION BY ZERO");
            } else {
                out.emit(OutputCategory::Always, fmt_int(div16(x, y) as i128));
            }
        },
        None => {},
    }
}

/// MOD x y: prints `x % y`, or the modulo-by-zero error.
pub fn handle_mod(parts: &[&str], out: &mut Console)
    requires
        no_overflow(parts@),
    ensures
        final(out)@ == old(out)@.push(
            line(two_operand_text(parts@, "MOD"@, |x: i16, y: i16| remainder_text(x, y))),
        ),
{
    match read_operands(parts, "MOD", out) {
        Some((x, y)) => {
            if y == 0 {
                out.emit_str(OutputCategory::Always, "ERROR: MODULO BY ZERO");
            } else {
                out.emit(OutputCategory::Always, fmt_int(rem16(x, y) as i128));
            }
        },
        None => {},
    }
}

} // verus!
