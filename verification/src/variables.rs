//! The global variables A, B, C, D, X, Y, Z, T and I, and the per-script
//! variables J and K: a bare name prints the value, a name with an argument
//! sets it.

use vstd::prelude::*;
use crate::args::{i16_arg, tok};
use crate::console::{Console, OutputCategory};
use crate::counters::parse_i16_expr;
use crate::state::{ScriptVars, Variables};
use crate::text::{dec, parse_i16, parse_i16_token, push_int, push_str};

verus! {

/// One of the global variables.
#[derive(Clone, Copy, PartialEq, Eq, Debug, Structural)]
pub enum VarName {
    A,
    B,
    C,
    D,
    X,
    Y,
    Z,
    T,
    I,
}

/// The name of variable `n`.
pub open spec fn var_label(n: VarName) -> Seq<char> {
    match n {
        VarName::A => "A"@,
        VarName::B => "B"@,
        VarName::C => "C"@,
        VarName::D => "D"@,
        VarName::X => "X"@,
        VarName::Y => "Y"@,
        VarName::Z => "Z"@,
        VarName::T => "T"@,
        VarName::I => "I"@,
    }
}

/// The value of variable `n`.
pub open spec fn var_value(v: Variables, n: VarName) -> i16 {
    match n {
        VarName::A => v.a,
        VarName::B => v.b,
        VarName::C => v.c,
        VarName::D => v.d,
        VarName::X => v.x,
        VarName::Y => v.y,
        VarName::Z => v.z,
        VarName::T => v.t,
        VarName::I => v.i,
    }
}

/// `v` with variable `n` set to `x`.
pub open spec fn var_set(v: Variables, n: VarName, x: i16) -> Variables {
    match n {
        VarName::A => Variables { a: x, ..v },
        VarName::B => Variables { b: x, ..v },
        VarName::C => Variables { c: x, ..v },
        VarName::D => Variables { d: x, ..v },
        VarName::X => Variables { x: x, ..v },
        VarName::Y => Variables { y: x, ..v },
        VarName::Z => Variables { z: x, ..v },
        VarName::T => Variables { t: x, ..v },
        VarName::I => Variables { i: x, ..v },
    }
}

fn label(n: VarName) -> (s: &'static str)
    ensures
        s@ == var_label(n),
{
    match n {
        VarName::A => "A",
        VarName::B => "B",
        VarName::C => "C",
        VarName::D => "D",
        VarName::X => "X",
        VarName::Y => "Y",
        VarName::Z => "Z",
        VarName::T => "T",
        VarName::I => "I",
    }
}

fn get(v: &Variables, n: VarName) -> (x: i16)
    ensures
        x == var_value(*v, n),
{
    match n {
        VarName::A => v.a,
        VarName::B => v.b,
        VarName::C => v.c,
        VarName::D => v.d,
        VarName::X => v.x,
        VarName::Y => v.y,
        VarName::Z => v.z,
        VarName::T => v.t,
        VarName::I => v.i,
    }
}

fn set(v: &mut Variables, n: VarName, x: i16)
    ensures
        *final(v) == var_set(*old(v), n, x),
{
    match n {
        VarName::A => v.a = x,
        VarName::B => v.b = x,
        VarName::C => v.c = x,
        VarName::D => v.d = x,
        VarName::X => v.x = x,
        VarName::Y => v.y = x,
        VarName::Z => v.z = x,
        VarName::T => v.t = x,
        VarName::I => v.i = x,
    }
}

/// `name = value`, the answer to a query.
pub open spec fn query_line(name: Seq<char>, x: i16) -> (OutputCategory, Seq<char>) {
    (OutputCategory::Query, name + " = "@ + dec(x as int))
}

/// `SET name TO value`, the confirmation of a change.
pub open spec fn set_line(name: Seq<char>, x: i16) -> (OutputCategory, Seq<char>) {
    (OutputCategory::Confirm, "SET "@ + name + " TO "@ + dec(x as int))
}

fn query_text(name: &str, x: i16) -> (s: String)
    ensures
        s@ == name@ + " = "@ + dec(x as int),
{
    let mut s = String::from_str(name);
    push_str(&mut s, " = ");
    push_int(&mut s, x as i128);
    s
}

fn set_text(name: &str, x: i16) -> (s: String)
    ensures
        s@ == "SET "@ + name@ + " TO "@ + dec(x as int),
{
    let mut s = String::from_str("SET ");
    push_str(&mut s, name);
    push_str(&mut s, " TO ");
    push_int(&mut s, x as i128);
    s
}

/// What a global variable command does: a bare name prints the value; with
/// an argument (evaluated, else read as an `i16`) it sets the value.
pub open spec fn variable_done(
    n: VarName,
    parts: Seq<&str>,
    v0: Variables,
    v1: Variables,
    o0: Seq<(OutputCategory, Seq<char>)>,
    o1: Seq<(OutputCategory, Seq<char>)>,
) -> bool {
    if parts.len() <= 1 {
        v1 == v0 && o1 == o0.push(query_line(var_label(n), var_value(v0, n)))
    } else {
        match i16_arg(tok(parts, 1)) {
            None => v1 == v0 && o1 == o0.push(
                (OutputCategory::Always, "ERROR: FAILED TO PARSE VALUE FOR "@ + var_label(n)),
            ),
            Some(x) => v1 == var_set(v0, n, x) && o1 == o0.push(set_line(var_label(n), x)),
        }
    }
}

fn variable(n: VarName, parts: &[&str], vars: &mut Variables, out: &mut Console)
    requires
        n != VarName::I,
    ensures
        variable_done(n, parts@, *old(vars), *final(vars), old(out)@, final(out)@),
{
    let name = label(n);
    if parts.len() <= 1 {
        out.emit(OutputCategory::Query, query_text(name, get(vars, n)));
        return;
    }
    match parse_i16_expr(parts, 1, name, out) {
        None => {},
        Some(x) => {
            set(vars, n, x);
            out.emit(OutputCategory::Confirm, set_text(name, x));
        },
    }
}

/// A: prints or sets the variable A.
pub fn handle_variable_a(parts: &[&str], vars: &mut Variables, out: &mut Console)
    ensures
        variable_done(VarName::A, parts@, *old(vars), *final(vars), old(out)@, final(out)@),
{
    variable(VarName::A, parts, vars, out);
}

/// B: prints or sets the variable B.
pub fn handle_variable_b(parts: &[&str], vars: &mut Variables, out: &mut Console)
    ensures
        variable_done(VarName::B, parts@, *old(vars), *final(vars), old(out)@, final(out)@),
{
    variable(VarName::B, parts, vars, out);
}

/// C: prints or sets the variable C.
pub fn handle_variable_c(parts: &[&str], vars: &mut Variables, out: &mut Console)
    ensures
        variable_done(VarName::C, parts@, *old(vars), *final(vars), old(out)@, final(out)@),
{
    variable(VarName::C, parts, vars, out);
}

/// D: prints or sets the variable D.
pub fn handle_variable_d(parts: &[&str], vars: &mut Variables, out: &mut Console)
    ensures
        variable_done(VarName::D, parts@, *old(vars), *final(vars), old(out)@, final(out)@),
{
    variable(VarName::D, parts, vars, out);
}

/// X: prints or sets the variable X.
pub fn handle_variable_x(parts: &[&str], vars: &mut Variables, out: &mut Console)
    ensures
        variable_done(VarName::X, parts@, *old(vars), *final(vars), old(out)@, final(out)@),
{
    variable(VarName::X, parts, vars, out);
}

/// Y: prints or sets the variable Y.
pub fn handle_variable_y(parts: &[&str], vars: &mut Variables, out: &mut Console)
    ensures
        variable_done(VarName::Y, parts@, *old(vars), *final(vars), old(out)@, final(out)@),
{
    variable(VarName::Y, parts, vars, out);
}

/// Z: prints or sets the variable Z.
pub fn handle_variable_z(parts: &[&str], vars: &mut Variables, out: &mut Console)
    ensures
        variable_done(VarName::Z, parts@, *old(vars), *final(vars), old(out)@, final(out)@),
{
    variable(VarName::Z, parts, vars, out);
}

/// T: prints or sets the variable T.
pub fn handle_variable_t(parts: &[&str], vars: &mut Variables, out: &mut Console)
    ensures
        variable_done(VarName::T, parts@, *old(vars), *final(vars), old(out)@, final(out)@),
{
    variable(VarName::T, parts, vars, out);
}

/// I: prints or sets the variable I; its value is read as an `i16`, not
/// evaluated, and a wrong one is reported as an error.
pub fn handle_variable_i(parts: &[&str], vars: &mut Variables, out: &mut Console)
    ensures
        parts@.len() <= 1 ==> *final(vars) == *old(vars) && final(out)@ == old(out)@.push(
            query_line("I"@, old(vars).i),
        ),
        parts@.len() > 1 ==> match parse_i16(tok(parts@, 1)) {
            None => *final(vars) == *old(vars) && final(out)@ == old(out)@.push(
                (OutputCategory::Error, "ERROR: FAILED TO PARSE VALUE FOR I"@),
            ),
            Some(x) => *final(vars) == var_set(*old(vars), VarName::I, x) && final(out)@
                == old(out)@.push(set_line("I"@, x)),
        },
{
    if parts.len() <= 1 {
        out.emit(OutputCategory::Query, query_text("I", vars.i));
        return;
    }
    match parse_i16_token(parts[1]) {
        None => out.emit_str(OutputCategory::Error, "ERROR: FAILED TO PARSE VALUE FOR I"),
        Some(x) => {
            vars.i = x;
            out.emit(OutputCategory::Confirm, set_text("I", x));
        },
    }
}

/// Scripts that have their own J and K (the eight scripts, the metronome
/// script and the init script).
pub const SCRIPT_SLOTS: usize = 10;

/// What J or K does in script `script_index`; `j` picks J over K.
pub open spec fn script_variable_done(
    j: bool,
    parts: Seq<&str>,
    script_index: usize,
    s0: Seq<ScriptVars>,
    s1: Seq<ScriptVars>,
    o0: Seq<(OutputCategory, Seq<char>)>,
    o1: Seq<(OutputCategory, Seq<char>)>,
) -> bool {
    let name = if j { "J"@ } else { "K"@ };
    if script_index >= SCRIPT_SLOTS {
        s1 == s0 && o1 == o0.push((OutputCategory::Error, "ERROR: "@ + name + " REQUIRES SCRIPT CONTEXT"@))
    } else {
        let cur = s0[script_index as int];
        let value = if j { cur.j } else { cur.k };
        if parts.len() <= 1 {
            s1 == s0 && o1 == o0.push(query_line(name, value))
        } else {
            match i16_arg(tok(parts, 1)) {
                None => s1 == s0 && o1 == o0.push(
                    (OutputCategory::Always, "ERROR: FAILED TO PARSE VALUE FOR "@ + name),
                ),
                Some(x) => s1 == s0.update(
                    script_index as int,
                    if j { ScriptVars { j: x, ..cur } } else { ScriptVars { k: x, ..cur } },
                ) && o1 == o0.push(set_line(name, x)),
            }
        }
    }
}

fn script_variable(j: bool, parts: &[&str], script_index: usize, scripts: &mut Vec<ScriptVars>, out: &mut Console)
    requires
        old(scripts)@.len() >= SCRIPT_SLOTS,
    ensures
        final(scripts)@.len() == old(scripts)@.len(),
        script_variable_done(j, parts@, script_index, old(scripts)@, final(scripts)@, old(out)@, final(out)@),
{
    let name = if j {
        "J"
    } else {
        "K"
    };
    if script_index >= SCRIPT_SLOTS {
        let mut s = String::from_str("ERROR: ");
        push_str(&mut s, name);
        push_str(&mut s, " REQUIRES SCRIPT CONTEXT");
        out.emit(OutputCategory::Error, s);
        return;
    }
    let cur = scripts[script_index];
    if parts.len() <= 1 {
        let value = if j {
            cur.j
        } else {
            cur.k
        };
        out.emit(OutputCategory::Query, query_text(name, value));
        return;
    }
    match parse_i16_expr(parts, 1, name, out) {
        None => {},
        Some(x) => {
            let updated = if j {
                ScriptVars { j: x, ..cur }
            } else {
                ScriptVars { k: x, ..cur }
            };
            scripts.set(script_index, updated);
            out.emit(OutputCategory::Confirm, set_text(name, x));
        },
    }
}

/// J: prints or sets the J of the running script.
pub fn handle_variable_j(parts: &[&str], script_index: usize, scripts: &mut Vec<ScriptVars>, out: &mut Console)
    requires
        old(scripts)@.len() >= SCRIPT_SLOTS,
    ensures
        final(scripts)@.len() == old(scripts)@.len(),
        script_variable_done(true, parts@, script_index, old(scripts)@, final(scripts)@, old(out)@, final(out)@),
{
    script_variable(true, parts, script_index, scripts, out);
}

/// K: prints or sets the K of the running script.
pub fn handle_variable_k(parts: &[&str], script_index: usize, scripts: &mut Vec<ScriptVars>, out: &mut Console)
    requires
        old(scripts)@.len() >= SCRIPT_SLOTS,
    ensures
        final(scripts)@.len() == old(scripts)@.len(),
        script_variable_done(false, parts@, script_index, old(scripts)@, final(scripts)@, old(out)@, final(out)@),
{
    script_variable(false, parts, script_index, scripts, out);
}

/// Setting a variable and then asking for it prints the value set.
pub proof fn law_set_then_query(n: VarName, v: Variables, x: i16)
    ensures
        var_value(var_set(v, n, x), n) == x,
        forall|m: VarName| m != n ==> var_value(var_set(v, n, x), m) == var_value(v, m),
{
}

} // verus!
