//! Reading command arguments.
//!
//! An argument is first evaluated; where evaluation gives nothing, the token
//! is parsed as the type the command wants. The evaluator here reads integer
//! literals: a token that spells an `i16` evaluates to it.

use vstd::prelude::*;
use crate::text::{parse_i16, parse_i16_token, parse_usize, parse_usize_token};

verus! {

/// The characters of argument `i`.
pub open spec fn tok(parts: Seq<&str>, i: int) -> Seq<char> {
    parts[i]@
}

/// What argument evaluation gives for a token: the `i16` it spells, if any.
pub open spec fn eval_token(t: Seq<char>) -> Option<i16> {
    parse_i16(t)
}

/// An `i16` argument: the evaluated value, else the token parsed as `i16`
/// (which gives the same).
pub open spec fn i16_arg(t: Seq<char>) -> Option<i16> {
    match eval_token(t) {
        Some(v) => Some(v),
        None => parse_i16(t),
    }
}

/// A `usize` argument: the evaluated value converted with `as usize`, else
/// the token parsed as `usize`.
pub open spec fn usize_arg(t: Seq<char>) -> Option<usize> {
    match eval_token(t) {
        Some(v) => Some(v as usize),
        None => parse_usize(t),
    }
}

/// `r` carries the argument's value `a`, or the error `what` where there is none.
pub open spec fn arg_result<T>(r: Result<T, String>, a: Option<T>, what: Seq<char>) -> bool {
    match a {
        Some(v) => r == Ok::<T, String>(v),
        None => match r {
            Err(e) => e@ == what,
            Ok(_) => false,
        },
    }
}

/// Evaluates argument `idx`, if there is one: its value and how many tokens
/// it took.
pub fn eval_expression(parts: &[&str], idx: usize) -> (r: Option<(i16, usize)>)
    ensures
        r == (if idx < parts@.len() {
            match eval_token(tok(parts@, idx as int)) {
                Some(v) => Some((v, 1usize)),
                None => None,
            }
        } else {
            None
        }),
{
    if idx >= parts.len() {
        return None;
    }
    match parse_i16_token(parts[idx]) {
        Some(v) => Some((v, 1)),
        None => None,
    }
}

/// Argument `idx` as an `i16`; `what` is the error when it is not one.
pub fn i16_argument(parts: &[&str], idx: usize, what: &str) -> (r: Result<i16, String>)
    requires
        idx < parts@.len(),
    ensures
        arg_result(r, i16_arg(tok(parts@, idx as int)), what@),
{
    match eval_expression(parts, idx) {
        Some((v, _)) => Ok(v),
        None => match parse_i16_token(parts[idx]) {
            Some(v) => Ok(v),
            None => Err(String::from_str(what)),
        },
    }
}

/// Argument `idx` as a `usize`; `what` is the error when it is not one.
pub fn usize_argument(parts: &[&str], idx: usize, what: &str) -> (r: Result<usize, String>)
    requires
        idx < parts@.len(),
    ensures
        arg_result(r, usize_arg(tok(parts@, idx as int)), what@),
{
    match eval_expression(parts, idx) {
        Some((v, _)) => Ok(v as usize),
        None => match parse_usize_token(parts[idx]) {
            Some(v) => Ok(v),
            None => Err(String::from_str(what)),
        },
    }
}

} // verus!
