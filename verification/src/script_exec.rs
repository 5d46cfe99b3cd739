//! The decisions of the script interpreter.
//!
//! A script line is split on `;` into sub-commands. A sub-command is a bare
//! command, `IF cond: command`, `ELIF cond: command`, `ELSE: command`, or any
//! other `cond: command` (such as `PROB`). Whether an `ELIF` or `ELSE` runs
//! depends on a flag that the last `IF` set and that a taken branch sets.
//! A line may start with `EV n:` (run every n-th time) or `SKIP n:` (skip
//! every n-th time), and `L a b: commands` runs its commands once for each
//! value of `I` from `a` to `b`.
//!
//! Conditions are evaluated by the caller: the functions here say when one
//! must be evaluated, and what follows from its outcome. Keywords are matched
//! without regard to ASCII case.

use vstd::prelude::*;
use crate::args::{eval_expression, eval_token};
use crate::console::{Console, OutputCategory};
use crate::input_line::{ascii_upper, to_ascii_upper};
use crate::text::{
    dec, find_char, find_char_index, push_int, split_ws, str_chars, string_from_chars, trim,
    trim_chars, views, words,
};

verus! {

// ---------------------------------------------------------------------------
// Keywords and pieces of text
// ---------------------------------------------------------------------------

/// `s` starts with the upper-case keyword `k`, in any ASCII case.
pub open spec fn starts_ci(s: Seq<char>, k: Seq<char>) -> bool {
    &&& k.len() <= s.len()
    &&& forall|i: int| 0 <= i < k.len() ==> ascii_upper(#[trigger] s[i]) == k[i]
}

/// Whether `s` starts with the upper-case keyword `k`, in any ASCII case.
pub fn starts_with_ci(s: &[char], k: &str) -> (b: bool)
    ensures
        b == starts_ci(s@, k@),
{
    let kc = str_chars(k);
    if kc.len() > s.len() {
        return false;
    }
    let mut i: usize = 0;
    while i < kc.len()
        invariant
            kc@ == k@,
            kc@.len() <= s@.len(),
            i <= kc@.len(),
            forall|j: int| 0 <= j < i ==> ascii_upper(#[trigger] s@[j]) == kc@[j],
        decreases kc@.len() - i,
    {
        if to_ascii_upper(s[i]) != kc[i] {
            return false;
        }
        i = i + 1;
    }
    true
}

/// The characters of `s` from `a` up to `b`, trimmed, as a `String`.
fn trimmed_piece(s: &[char], a: usize, b: usize) -> (r: String)
    requires
        a <= b <= s@.len(),
    ensures
        r@ == trim(s@.subrange(a as int, b as int)),
{
    let v = piece_chars_from(s, a, b);
    let t = trim_chars(v.as_slice());
    string_from_chars(t.as_slice())
}

/// The characters of `s` from `a` up to `b`, as a `String`.
fn piece(s: &[char], a: usize, b: usize) -> (r: String)
    requires
        a <= b <= s@.len(),
    ensures
        r@ == s@.subrange(a as int, b as int),
{
    let v = piece_chars_from(s, a, b);
    string_from_chars(v.as_slice())
}

/// The characters of `s` from `a` up to `b`.
fn piece_chars_from(s: &[char], a: usize, b: usize) -> (v: Vec<char>)
    requires
        a <= b <= s@.len(),
    ensures
        v@ == s@.subrange(a as int, b as int),
{
    let mut v: Vec<char> = Vec::new();
    let mut i: usize = a;
    while i < b
        invariant
            a <= i <= b <= s@.len(),
            v@ == s@.subrange(a as int, i as int),
        decreases b - i,
    {
        v.push(s[i]);
        i = i + 1;
        proof {
            assert(v@ =~= s@.subrange(a as int, i as int));
        }
    }
    v
}

// ---------------------------------------------------------------------------
// Sub-commands
// ---------------------------------------------------------------------------

/// What a sub-command is, as values.
pub enum SubSpec {
    Elif { condition: Seq<char>, command: Seq<char> },
    Else { command: Seq<char> },
    If { condition: Seq<char>, command: Seq<char> },
    Guarded { condition: Seq<char>, command: Seq<char> },
    Plain { command: Seq<char> },
    Empty,
}

/// What a sub-command is.
#[derive(Debug, PartialEq, Eq)]
pub enum SubCommand {
    /// `ELIF cond: command`: runs if no branch was taken and `cond` holds.
    Elif { condition: String, command: String },
    /// `ELSE: command`: runs if no branch was taken.
    Else { command: String },
    /// `IF cond: command` (the condition keeps its `IF`).
    If { condition: String, command: String },
    /// Any other `cond: command`: runs if `cond` holds.
    Guarded { condition: String, command: String },
    /// A command with no condition.
    Plain { command: String },
    /// Nothing to run.
    Empty,
}

impl View for SubCommand {
    type V = SubSpec;

    open spec fn view(&self) -> SubSpec {
        match self {
            SubCommand::Elif { condition, command } => SubSpec::Elif { condition: condition@, command: command@ },
            SubCommand::Else { command } => SubSpec::Else { command: command@ },
            SubCommand::If { condition, command } => SubSpec::If { condition: condition@, command: command@ },
            SubCommand::Guarded { condition, command } => SubSpec::Guarded {
                condition: condition@,
                command: command@,
            },
            SubCommand::Plain { command } => SubSpec::Plain { command: command@ },
            SubCommand::Empty => SubSpec::Empty,
        }
    }
}

/// What the sub-command `s` is, once trimmed.
pub open spec fn sub_kind(s: Seq<char>) -> SubSpec {
    let t = trim(s);
    if t.len() == 0 {
        SubSpec::Empty
    } else if starts_ci(t, "ELIF "@) && find_char(t, ':') is Some {
        let c = find_char(t, ':')->0;
        SubSpec::Elif { condition: trim(t.subrange(5, c)), command: trim(t.subrange(c + 1, t.len() as int)) }
    } else if starts_ci(t, "ELSE:"@) {
        SubSpec::Else { command: trim(t.subrange(5, t.len() as int)) }
    } else {
        match find_char(t, ':') {
            Some(c) => {
                let cond = t.subrange(0, c);
                let cmd = trim(t.subrange(c + 1, t.len() as int));
                if cmd.len() == 0 {
                    SubSpec::Empty
                } else if starts_ci(trim(cond), "IF "@) {
                    SubSpec::If { condition: cond, command: cmd }
                } else {
                    SubSpec::Guarded { condition: cond, command: cmd }
                }
            },
            None => SubSpec::Plain { command: t },
        }
    }
}

/// Reads the sub-command `s`.
pub fn classify_sub_command(s: &str) -> (r: SubCommand)
    ensures
        r@ == sub_kind(s@),
{
    let raw = str_chars(s);
    let t = trim_chars(raw.as_slice());
    let n = t.len();
    if n == 0 {
        return SubCommand::Empty;
    }
    let colon = find_char_index(t.as_slice(), ':');
    if starts_with_ci(t.as_slice(), "ELIF ") {
        if let Some(c) = colon {
            proof {
                reveal_strlit("ELIF ");
                assert(t@[c as int] == ':');
            }
            let condition = trimmed_piece(t.as_slice(), 5, c);
            let command = trimmed_piece(t.as_slice(), c + 1, n);
            return SubCommand::Elif { condition, command };
        }
    }
    if starts_with_ci(t.as_slice(), "ELSE:") {
        proof {
            reveal_strlit("ELSE:");
        }
        let command = trimmed_piece(t.as_slice(), 5, n);
        return SubCommand::Else { command };
    }
    match colon {
        Some(c) => {
            let command = trimmed_piece(t.as_slice(), c + 1, n);
            if command.as_str().unicode_len() == 0 {
                return SubCommand::Empty;
            }
            let cond_chars = trim_chars(piece_chars_from(t.as_slice(), 0, c).as_slice());
            let condition = piece(t.as_slice(), 0, c);
            if starts_with_ci(cond_chars.as_slice(), "IF ") {
                SubCommand::If { condition, command }
            } else {
                SubCommand::Guarded { condition, command }
            }
        },
        None => SubCommand::Plain { command: string_from_chars(t.as_slice()) },
    }
}

// ---------------------------------------------------------------------------
// IF / ELIF / ELSE
// ---------------------------------------------------------------------------

/// What to do first for a sub-command, as values.
pub enum StepSpec {
    Nothing,
    Run(Seq<char>),
    Evaluate(Seq<char>),
}

/// What to do first for a sub-command.
#[derive(Debug, PartialEq, Eq)]
pub enum Step {
    /// Nothing runs.
    Nothing,
    /// Run this command.
    Run(String),
    /// Evaluate this condition, then call `finish_sub_command`.
    Evaluate(String),
}

impl View for Step {
    type V = StepSpec;

    open spec fn view(&self) -> StepSpec {
        match self {
            Step::Nothing => StepSpec::Nothing,
            Step::Run(c) => StepSpec::Run(c@),
            Step::Evaluate(c) => StepSpec::Evaluate(c@),
        }
    }
}

/// The first step of sub-command `k` when the flag "a branch was taken"
/// is `taken`: the new flag and the step.
pub open spec fn start_spec(taken: bool, k: SubSpec) -> (bool, StepSpec) {
    match k {
        SubSpec::Elif { condition, .. } => if taken {
            (taken, StepSpec::Nothing)
        } else {
            (taken, StepSpec::Evaluate(condition))
        },
        SubSpec::Else { command } => if taken {
            (taken, StepSpec::Nothing)
        } else {
            (true, StepSpec::Run(command))
        },
        SubSpec::If { condition, .. } => (false, StepSpec::Evaluate(condition)),
        SubSpec::Guarded { condition, .. } => (taken, StepSpec::Evaluate(condition)),
        SubSpec::Plain { command } => (taken, StepSpec::Run(command)),
        SubSpec::Empty => (taken, StepSpec::Nothing),
    }
}

/// What follows from a condition of sub-command `k` that `holds` or not:
/// the new flag and the command to run, if any.
pub open spec fn finish_spec(taken: bool, k: SubSpec, holds: bool) -> (bool, Option<Seq<char>>) {
    match k {
        SubSpec::Elif { command, .. } => if holds {
            (true, Some(command))
        } else {
            (taken, None)
        },
        SubSpec::If { command, .. } => if holds {
            (true, Some(command))
        } else {
            (taken, None)
        },
        SubSpec::Guarded { command, .. } => if holds {
            (taken, Some(command))
        } else {
            (taken, None)
        },
        _ => (taken, None),
    }
}

/// The first step of `sub`; `taken` says whether a branch of the current
/// `IF` chain was taken.
pub fn start_sub_command(taken: &mut bool, sub: &SubCommand) -> (s: Step)
    ensures
        (*final(taken), s@) == start_spec(*old(taken), sub@),
{
    match sub {
        SubCommand::Elif { condition, .. } => {
            if *taken {
                Step::Nothing
            } else {
                Step::Evaluate(condition.clone())
            }
        },
        SubCommand::Else { command } => {
            if *taken {
                Step::Nothing
            } else {
                *taken = true;
                Step::Run(command.clone())
            }
        },
        SubCommand::If { condition, .. } => {
            *taken = false;
            Step::Evaluate(condition.clone())
        },
        SubCommand::Guarded { condition, .. } => Step::Evaluate(condition.clone()),
        SubCommand::Plain { command } => Step::Run(command.clone()),
        SubCommand::Empty => Step::Nothing,
    }
}

/// The view of an optional command.
pub open spec fn opt_view(r: Option<String>) -> Option<Seq<char>> {
    match r {
        Some(c) => Some(c@),
        None => None,
    }
}

/// What follows once the condition of `sub` was evaluated to `holds`.
pub fn finish_sub_command(taken: &mut bool, sub: SubCommand, holds: bool) -> (r: Option<String>)
    ensures
        (*final(taken), opt_view(r)) == finish_spec(*old(taken), sub@, holds),
{
    match sub {
        SubCommand::Elif { command, .. } => {
            if holds {
                *taken = true;
                Some(command)
            } else {
                None
            }
        },
        SubCommand::If { command, .. } => {
            if holds {
                *taken = true;
                Some(command)
            } else {
                None
            }
        },
        SubCommand::Guarded { command, .. } => {
            if holds {
                Some(command)
            } else {
                None
            }
        },
        _ => None,
    }
}

/// A whole sub-command, its condition (where it is evaluated) being `holds`:
/// the new flag and the command that runs, if any.
pub open spec fn run_sub(taken: bool, k: SubSpec, holds: bool) -> (bool, Option<Seq<char>>) {
    let (t1, st) = start_spec(taken, k);
    match st {
        StepSpec::Nothing => (t1, None),
        StepSpec::Run(c) => (t1, Some(c)),
        StepSpec::Evaluate(_) => finish_spec(t1, k, holds),
    }
}

/// Runs the sub-commands `ks` in turn, the `i`-th condition being
/// `outcomes[i]`: the final flag and how many commands ran.
pub open spec fn run_chain(taken: bool, ks: Seq<SubSpec>, outcomes: Seq<bool>) -> (bool, nat)
    decreases ks.len(),
{
    if ks.len() == 0 {
        (taken, 0)
    } else {
        let (t1, r) = run_sub(taken, ks[0], outcomes[0]);
        let (t2, n) = run_chain(t1, ks.drop_first(), outcomes.drop_first());
        (t2, n + if r is Some { 1nat } else { 0nat })
    }
}

/// `k` is an `ELIF` or an `ELSE`.
pub open spec fn is_alternative(k: SubSpec) -> bool {
    k is Elif || k is Else
}

pub open spec fn flag_count(b: bool) -> nat {
    if b { 1 } else { 0 }
}

proof fn lemma_alternatives_run_once(taken: bool, ks: Seq<SubSpec>, outcomes: Seq<bool>)
    requires
        forall|i: int| 0 <= i < ks.len() ==> is_alternative(#[trigger] ks[i]),
    ensures
        flag_count(taken) + run_chain(taken, ks, outcomes).1 == flag_count(run_chain(taken, ks, outcomes).0),
        taken ==> run_chain(taken, ks, outcomes).0,
    decreases ks.len(),
{
    if ks.len() > 0 {
        let (t1, r) = run_sub(taken, ks[0], outcomes[0]);
        assert(is_alternative(ks[0]));
        let rest = ks.drop_first();
        assert forall|i: int| 0 <= i < rest.len() implies is_alternative(#[trigger] rest[i]) by {
            assert(rest[i] == ks[i + 1]);
        }
        lemma_alternatives_run_once(t1, rest, outcomes.drop_first());
    }
}

/// Only `IF`, `ELIF` and `ELSE` touch the flag "a branch was taken": a
/// bare command, a guarded command (such as `PROB`) and an empty piece leave
/// it as it was, whether their condition holds or not. An `IF` sets it to
/// whether its condition holds, an `ELIF` sets it where its condition holds,
/// and an `ELSE` always leaves it set.
pub proof fn law_only_conditionals_touch_the_flag(taken: bool, k: SubSpec, holds: bool)
    ensures
        (k is Plain || k is Guarded || k is Empty) ==> start_spec(taken, k).0 == taken && run_sub(taken, k, holds).0
            == taken,
        k is If ==> run_sub(taken, k, holds).0 == holds,
        k is Elif ==> run_sub(taken, k, holds).0 == (taken || holds),
        k is Else ==> run_sub(taken, k, holds).0,
{
}

/// A bare command between an `IF` and its `ELSE` does not reopen the chain:
/// after `IF c: x; y; ELSE: z`, the `ELSE` runs exactly when `c` did not
/// hold, and the bare command `y` runs either way.
pub proof fn law_plain_command_keeps_the_chain(taken: bool, cond: Seq<char>, x: Seq<char>, y: Seq<char>, z: Seq<char>, holds: bool, h2: bool, h3: bool)
    ensures
        ({
            let (t1, r1) = run_sub(taken, SubSpec::If { condition: cond, command: x }, holds);
            let (t2, r2) = run_sub(t1, SubSpec::Plain { command: y }, h2);
            let (t3, r3) = run_sub(t2, SubSpec::Else { command: z }, h3);
            &&& r1 == (if holds { Some(x) } else { None::<Seq<char>> })
            &&& r2 == Some(y)
            &&& r3 == (if holds { None::<Seq<char>> } else { Some(z) })
        }),
{
}

/// In a chain `IF ...; ELIF ...; ...; ELSE ...`, at most one command runs;
/// the `IF` command runs when its condition holds, and where the chain has
/// an `ELSE`, exactly one command runs.
pub proof fn law_one_branch_of_a_chain(taken: bool, ks: Seq<SubSpec>, outcomes: Seq<bool>)
    requires
        ks.len() >= 1,
        ks[0] is If,
        forall|i: int| 1 <= i < ks.len() ==> is_alternative(#[trigger] ks[i]),
    ensures
        run_chain(taken, ks, outcomes).1 <= 1,
        outcomes[0] ==> run_sub(taken, ks[0], outcomes[0]).1 is Some && run_chain(taken, ks, outcomes).1 == 1,
        (exists|i: int| 1 <= i < ks.len() && ks[i] is Else) ==> run_chain(taken, ks, outcomes).1 == 1,
{
    let (t1, r) = run_sub(taken, ks[0], outcomes[0]);
    let rest = ks.drop_first();
    let outs = outcomes.drop_first();
    assert forall|i: int| 0 <= i < rest.len() implies is_alternative(#[trigger] rest[i]) by {
        assert(rest[i] == ks[i + 1]);
    }
    lemma_alternatives_run_once(t1, rest, outs);
    assert(t1 == outcomes[0]);
    if exists|i: int| 1 <= i < ks.len() && ks[i] is Else {
        let i = choose|i: int| 1 <= i < ks.len() && ks[i] is Else;
        lemma_else_sets_flag(t1, rest, outs, i - 1);
    }
}

proof fn lemma_else_sets_flag(taken: bool, ks: Seq<SubSpec>, outcomes: Seq<bool>, j: int)
    requires
        0 <= j < ks.len(),
        ks[j] is Else,
        forall|i: int| 0 <= i < ks.len() ==> is_alternative(#[trigger] ks[i]),
    ensures
        run_chain(taken, ks, outcomes).0,
    decreases ks.len(),
{
    let (t1, r) = run_sub(taken, ks[0], outcomes[0]);
    let rest = ks.drop_first();
    assert forall|i: int| 0 <= i < rest.len() implies is_alternative(#[trigger] rest[i]) by {
        assert(rest[i] == ks[i + 1]);
    }
    if j == 0 {
        assert(t1);
        lemma_alternatives_run_once(t1, rest, outcomes.drop_first());
    } else {
        assert(rest[j - 1] == ks[j]);
        lemma_else_sets_flag(t1, rest, outcomes.drop_first(), j - 1);
    }
}

// ---------------------------------------------------------------------------
// EV and SKIP
// ---------------------------------------------------------------------------

/// The parts of an `EV n:` or `SKIP n:` line: whether it is `EV`, the
/// positive number `n`, and the trimmed rest of the line. A line with no such
/// prefix, or whose `n` is not a positive number, has none.
pub open spec fn every_parts(line: Seq<char>) -> Option<(bool, i16, Seq<char>)> {
    let ev = starts_ci(line, "EV "@);
    let skip = !ev && starts_ci(line, "SKIP "@);
    if (ev || skip) && find_char(line, ':') is Some {
        let c = find_char(line, ':')->0;
        let ws = words(line.subrange(if ev { 3 } else { 5 }, c));
        if ws.len() >= 1 && eval_token(ws[0]) is Some && eval_token(ws[0])->0 > 0 {
            Some((ev, eval_token(ws[0])->0, trim(line.subrange(c + 1, line.len() as int))))
        } else {
            None
        }
    } else {
        None
    }
}

/// The number `n` of an `EV n:` or `SKIP n:` line (0 for other lines).
pub open spec fn every_divisor(line: Seq<char>) -> nat {
    match every_parts(line) {
        Some((_, d, _)) => d as nat,
        None => 0,
    }
}

/// The trimmed script line `line` with its `EV n:` or `SKIP n:` prefix
/// dealt with, given the line's counter: what is left to run (empty when the
/// line is skipped this time) and the new counter. `EV n:` runs the rest when
/// the counted number is a multiple of `n`, `SKIP n:` when it is not. Any
/// other line stays as it is, and so does its counter.
pub open spec fn every_spec(line: Seq<char>, counter: u32) -> (Seq<char>, u32) {
    match every_parts(line) {
        Some((ev, d, body)) => {
            let n = (counter + 1) as u32;
            let fires = if ev { n % (d as u32) == 0 } else { n % (d as u32) != 0 };
            (if fires { body } else { Seq::empty() }, n)
        },
        None => (line, counter),
    }
}

/// How many of `m` successive runs of `line`, from the counter `counter`,
/// leave something to run.
pub open spec fn runs_of(line: Seq<char>, counter: u32, m: nat) -> nat
    decreases m,
{
    if m == 0 {
        0
    } else {
        let (r, c1) = every_spec(line, counter);
        (if r.len() > 0 { 1nat } else { 0nat }) + runs_of(line, c1, (m - 1) as nat)
    }
}

proof fn lemma_runs_split(line: Seq<char>, counter: u32, a: nat, b: nat)
    requires
        every_parts(line) is Some,
        counter + a + b <= u32::MAX,
    ensures
        runs_of(line, counter, a + b) == runs_of(line, counter, a) + runs_of(line, (counter + a) as u32, b),
    decreases a,
{
    if a > 0 {
        lemma_runs_split(line, (counter + 1) as u32, (a - 1) as nat, b);
        assert((a + b - 1) as nat == (a - 1) as nat + b);
    }
}

proof fn lemma_runs_block(line: Seq<char>, k: nat, i: nat)
    requires
        every_parts(line) matches Some((ev, d, body)) && body.len() > 0 && i <= d,
        k * every_divisor(line) + every_divisor(line) <= u32::MAX,
    ensures
        ({
            let (ev, d, body) = every_parts(line)->0;
            runs_of(line, (k * (d as nat) + i) as u32, (d - i) as nat) == if ev {
                if i < d { 1nat } else { 0nat }
            } else {
                if i < d { (d - i - 1) as nat } else { 0nat }
            }
        }),
    decreases every_divisor(line) - i,
{
    let (ev, d, body) = every_parts(line)->0;
    let dd = d as nat;
    if i < d {
        let c = (k * dd + i) as u32;
        let n = (c + 1) as u32;
        assert(n as int == dd * k + (i + 1)) by (nonlinear_arith)
            requires
                c as int == k * dd + i,
                n as int == c + 1,
        ;
        vstd::arithmetic::div_mod::lemma_mod_multiples_vanish(k as int, (i + 1) as int, dd as int);
        if i + 1 < d {
            vstd::arithmetic::div_mod::lemma_small_mod((i + 1) as nat, dd);
        } else {
            assert((i + 1) as int % dd as int == 0) by {
                vstd::arithmetic::div_mod::lemma_mod_self_0(dd as int);
            }
        }
        assert(n % (d as u32) == (i + 1) as int % dd as int);
        lemma_runs_block(line, k, i + 1);
        assert((k * dd + (i + 1)) as u32 == n);
        assert((d - i - 1) as nat == (d - (i + 1)) as nat);
    }
}

proof fn lemma_runs_blocks(line: Seq<char>, k: nat)
    requires
        every_parts(line) matches Some((ev, d, body)) && body.len() > 0,
        k * every_divisor(line) <= u32::MAX,
    ensures
        ({
            let (ev, d, body) = every_parts(line)->0;
            runs_of(line, 0, k * (d as nat)) == if ev { k } else { k * ((d - 1) as nat) }
        }),
    decreases k,
{
    let (ev, d, body) = every_parts(line)->0;
    let dd = d as nat;
    if k > 0 {
        let k1 = (k - 1) as nat;
        assert(k * dd == k1 * dd + dd) by (nonlinear_arith)
            requires
                k1 == k - 1,
        ;
        assert(k1 * dd <= k * dd) by (nonlinear_arith)
            requires
                k1 <= k,
        ;
        lemma_runs_blocks(line, k1);
        lemma_runs_split(line, 0, k1 * dd, dd);
        lemma_runs_block(line, k1, 0);
        let a = runs_of(line, 0, k1 * dd);
        let b = runs_of(line, (0 + k1 * dd) as u32, dd);
        assert(b == runs_of(line, (k1 * dd + 0) as u32, (d - 0) as nat));
        assert(runs_of(line, 0, k * dd) == a + b);
        if !ev {
            assert(k * ((d - 1) as nat) == k1 * ((d - 1) as nat) + ((d - 1) as nat)) by (nonlinear_arith)
                requires
                    k1 == k - 1,
            ;
        }
    } else {
        assert(k * dd == 0) by (nonlinear_arith)
            requires
                k == 0,
        ;
        assert(k * ((d - 1) as nat) == 0) by (nonlinear_arith)
            requires
                k == 0,
        ;
    }
}

/// `EV n:` runs the rest of its line every n-th time and `SKIP n:` skips it
/// every n-th time: over k·n runs from a fresh counter, the rest runs k
/// times under `EV n:` and k·(n - 1) times under `SKIP n:`.
pub proof fn law_every_nth(line: Seq<char>, k: nat)
    requires
        every_parts(line) matches Some((ev, d, body)) && body.len() > 0,
        k * every_divisor(line) <= u32::MAX,
    ensures
        ({
            let (ev, d, body) = every_parts(line)->0;
            runs_of(line, 0, k * (d as nat)) == if ev { k } else { k * ((d - 1) as nat) }
        }),
{
    lemma_runs_blocks(line, k);
}

/// Deals with an `EV n:` or `SKIP n:` prefix of the trimmed script line
/// `line`, counting on `counter`; gives what is left to run.
pub fn every_prefix(line: &str, counter: &mut u32) -> (r: String)
    requires
        *old(counter) < u32::MAX,
    ensures
        (r@, *final(counter)) == every_spec(line@, *old(counter)),
{
    let t = str_chars(line);
    let n = t.len();
    let ev = starts_with_ci(t.as_slice(), "EV ");
    let skip = !ev && starts_with_ci(t.as_slice(), "SKIP ");
    if !(ev || skip) {
        return String::from_str(line);
    }
    let c = match find_char_index(t.as_slice(), ':') {
        Some(c) => c,
        None => return String::from_str(line),
    };
    let k: usize = if ev { 3 } else { 5 };
    proof {
        reveal_strlit("EV ");
        reveal_strlit("SKIP ");
        assert(t@[c as int] == ':');
        assert(k <= c) by {
            if c < k {
                assert(ascii_upper(t@[c as int]) == (if ev { "EV "@ } else { "SKIP "@ })[c as int]);
            }
        }
    }
    let middle = piece_chars_from(t.as_slice(), k, c);
    let ws = split_ws(middle.as_slice());
    if ws.len() >= 1 {
        let w = string_from_chars(ws[0].as_slice());
        proof {
            assert(views(ws@)[0] == ws@[0]@);
        }
        if let Some((d, _)) = eval_expression(&[w.as_str()], 0) {
            if d > 0 {
                *counter = *counter + 1;
                let fires = if ev {
                    *counter % (d as u32) == 0
                } else {
                    *counter % (d as u32) != 0
                };
                if fires {
                    return trimmed_piece(t.as_slice(), c + 1, n);
                } else {
                    return String::new();
                }
            }
        }
    }
    String::from_str(line)
}

// ---------------------------------------------------------------------------
// Loops
// ---------------------------------------------------------------------------

/// What an `L a b: commands` line asks for, as values.
pub enum LoopSpec {
    NotALoop,
    Failed(Seq<char>),
    Loop { start: i16, end: i16, commands: Seq<char> },
}

/// What an `L a b: commands` line asks for.
#[derive(Debug, PartialEq, Eq)]
pub enum LoopLine {
    /// The line is no loop; it runs as an ordinary line.
    NotALoop,
    /// The bounds could not be evaluated: print this line and go on.
    Failed(String),
    /// Run `commands` once for each value of `I` from `start` to `end`.
    Loop { start: i16, end: i16, commands: String },
}

impl View for LoopLine {
    type V = LoopSpec;

    open spec fn view(&self) -> LoopSpec {
        match self {
            LoopLine::NotALoop => LoopSpec::NotALoop,
            LoopLine::Failed(e) => LoopSpec::Failed(e@),
            LoopLine::Loop { start, end, commands } => LoopSpec::Loop {
                start: *start,
                end: *end,
                commands: commands@,
            },
        }
    }
}

/// How the trimmed line `line` reads as a loop.
pub open spec fn loop_spec(line: Seq<char>) -> LoopSpec {
    if starts_ci(line, "L "@) && find_char(line, ':') is Some {
        let c = find_char(line, ':')->0;
        let ws = words(line.subrange(2, c));
        if ws.len() >= 2 {
            match eval_token(ws[0]) {
                None => LoopSpec::Failed("Error: Failed to evaluate loop start value"@),
                Some(a) => match eval_token(ws[1]) {
                    None => LoopSpec::Failed("Error: Failed to evaluate loop end value"@),
                    Some(b) => LoopSpec::Loop { start: a, end: b, commands: trim(line.subrange(c + 1, line.len() as int)) },
                },
            }
        } else {
            LoopSpec::NotALoop
        }
    } else {
        LoopSpec::NotALoop
    }
}

/// Reads the trimmed line `line` as a loop.
pub fn parse_loop_line(line: &str) -> (r: LoopLine)
    ensures
        r@ == loop_spec(line@),
{
    let t = str_chars(line);
    let n = t.len();
    if !starts_with_ci(t.as_slice(), "L ") {
        return LoopLine::NotALoop;
    }
    let c = match find_char_index(t.as_slice(), ':') {
        Some(c) => c,
        None => return LoopLine::NotALoop,
    };
    proof {
        reveal_strlit("L ");
        assert(t@[c as int] == ':');
        assert(2 <= c) by {
            if c < 2 {
                assert(ascii_upper(t@[c as int]) == "L "@[c as int]);
            }
        }
    }
    let middle = piece_chars_from(t.as_slice(), 2, c);
    let ws = split_ws(middle.as_slice());
    if ws.len() < 2 {
        return LoopLine::NotALoop;
    }
    proof {
        assert(views(ws@)[0] == ws@[0]@);
        assert(views(ws@)[1] == ws@[1]@);
    }
    let w0 = string_from_chars(ws[0].as_slice());
    let w1 = string_from_chars(ws[1].as_slice());
    let start = match eval_expression(&[w0.as_str()], 0) {
        Some((v, _)) => v,
        None => return LoopLine::Failed(String::from_str("Error: Failed to evaluate loop start value")),
    };
    let end = match eval_expression(&[w1.as_str()], 0) {
        Some((v, _)) => v,
        None => return LoopLine::Failed(String::from_str("Error: Failed to evaluate loop end value")),
    };
    LoopLine::Loop { start, end, commands: trimmed_piece(t.as_slice(), c + 1, n) }
}

/// The values `I` takes in a loop from `start` to `end`: counting up, or
/// down where `start` is above `end`, both ends included.
pub open spec fn loop_seq(start: i16, end: i16) -> Seq<i16> {
    if start <= end {
        Seq::new((end - start + 1) as nat, |k: int| (start + k) as i16)
    } else {
        Seq::new((start - end + 1) as nat, |k: int| (start - k) as i16)
    }
}

/// The values `I` takes in a loop from `start` to `end`.
pub fn loop_values(start: i16, end: i16) -> (v: Vec<i16>)
    ensures
        v@ == loop_seq(start, end),
{
    let mut v: Vec<i16> = Vec::new();
    let mut x: i16 = start;
    if start <= end {
        loop
            invariant_except_break
                start <= x <= end,
                v@ == Seq::new((x - start) as nat, |k: int| (start + k) as i16),
            ensures
                v@ == loop_seq(start, end),
            decreases end - x,
        {
            v.push(x);
            proof {
                assert(v@ =~= Seq::new((x + 1 - start) as nat, |k: int| (start + k) as i16));
            }
            if x == end {
                break;
            }
            x = x + 1;
        }
    } else {
        loop
            invariant_except_break
                end <= x <= start,
                end < start,
                v@ == Seq::new((start - x) as nat, |k: int| (start - k) as i16),
            ensures
                v@ == loop_seq(start, end),
            decreases x - end,
        {
            v.push(x);
            proof {
                assert(v@ =~= Seq::new((start - x + 1) as nat, |k: int| (start - k) as i16));
            }
            if x == end {
                break;
            }
            x = x - 1;
        }
    }
    v
}

/// A loop from `start` to `end` gives `I` the value `start` first and `end`
/// last, one value per step, |end - start| + 1 values in all.
pub proof fn law_loop_covers_range(start: i16, end: i16)
    ensures
        loop_seq(start, end).len() == (if start <= end { end - start } else { start - end }) + 1,
        loop_seq(start, end)[0] == start,
        loop_seq(start, end).last() == end,
        forall|k: int|
            0 <= k < loop_seq(start, end).len() - 1 ==> #[trigger] loop_seq(start, end)[k + 1] - loop_seq(start, end)[k]
                == (if start <= end { 1int } else { -1int }),
{
}

// ---------------------------------------------------------------------------
// Splitting on semicolons
// ---------------------------------------------------------------------------

/// The pieces of `s` from position `i` on, `cur` being the piece read so far.
pub open spec fn split_from(s: Seq<char>, sep: char, i: int, cur: Seq<char>) -> Seq<Seq<char>>
    decreases s.len() - i,
{
    if i < 0 || i >= s.len() {
        seq![cur]
    } else if s[i] == sep {
        seq![cur] + split_from(s, sep, i + 1, Seq::empty())
    } else {
        split_from(s, sep, i + 1, cur.push(s[i]))
    }
}

/// The pieces of `s` between occurrences of `sep`, in order, empty ones
/// included (`str::split`).
pub open spec fn split_on(s: Seq<char>, sep: char) -> Seq<Seq<char>> {
    split_from(s, sep, 0, Seq::empty())
}

/// The views of a list of strings.
pub open spec fn string_views(v: Seq<String>) -> Seq<Seq<char>> {
    v.map_values(|w: String| w@)
}

/// The pieces of `line` between semicolons.
pub fn split_sub_commands(line: &str) -> (r: Vec<String>)
    ensures
        string_views(r@) == split_on(line@, ';'),
{
    let s = str_chars(line);
    let n = s.len();
    let mut r: Vec<String> = Vec::new();
    let mut cur: Vec<char> = Vec::new();
    let mut i: usize = 0;
    proof {
        assert(string_views(r@) + split_from(s@, ';', 0, cur@) =~= split_on(line@, ';'));
    }
    while i < n
        invariant
            n == s@.len(),
            s@ == line@,
            i <= n,
            string_views(r@) + split_from(s@, ';', i as int, cur@) == split_on(line@, ';'),
        decreases n - i,
    {
        if s[i] == ';' {
            let piece = string_from_chars(cur.as_slice());
            proof {
                assert(string_views(r@.push(piece)) =~= string_views(r@).push(cur@));
                assert(string_views(r@).push(cur@) + split_from(s@, ';', i + 1, Seq::empty()) =~= string_views(
                    r@,
                ) + (seq![cur@] + split_from(s@, ';', i + 1, Seq::empty())));
            }
            r.push(piece);
            cur = Vec::new();
        } else {
            cur.push(s[i]);
        }
        i = i + 1;
    }
    let piece = string_from_chars(cur.as_slice());
    proof {
        assert(string_views(r@.push(piece)) =~= string_views(r@) + seq![cur@]);
    }
    r.push(piece);
    r
}

// ---------------------------------------------------------------------------
// Running scripts
// ---------------------------------------------------------------------------

/// Scripts nest at most this deep.
pub const MAX_SCRIPT_DEPTH: usize = 10;

/// Script slots (eight scripts, the metronome script and the init script).
pub const SCRIPT_COUNT: usize = 10;

/// Whether script `script_index` may run at nesting depth `depth`; where it
/// may not, the reason is printed as an error line.
pub fn script_call_allowed(script_index: usize, depth: usize, out: &mut Console) -> (ok: bool)
    ensures
        ok == (script_index < SCRIPT_COUNT && depth <= MAX_SCRIPT_DEPTH),
        script_index >= SCRIPT_COUNT ==> final(out)@ == old(out)@.push(
            (OutputCategory::Error, "INVALID SCRIPT INDEX "@ + dec(script_index as int)),
        ),
        script_index < SCRIPT_COUNT && depth > MAX_SCRIPT_DEPTH ==> final(out)@ == old(out)@.push(
            (OutputCategory::Error, "SCRIPT RECURSION DEPTH EXCEEDED (MAX 10)"@),
        ),
        ok ==> final(out)@ == old(out)@,
{
    if script_index >= SCRIPT_COUNT {
        let mut s = String::from_str("INVALID SCRIPT INDEX ");
        push_int(&mut s, script_index as i128);
        out.emit(OutputCategory::Error, s);
        return false;
    }
    if depth > MAX_SCRIPT_DEPTH {
        out.emit_str(OutputCategory::Error, "SCRIPT RECURSION DEPTH EXCEEDED (MAX 10)");
        return false;
    }
    true
}

/// `SCRIPT n`: the script (1 to 8) to run now, counted from 0.
pub fn handle_script(parts: &[&str], out: &mut Console) -> (r: Result<Option<usize>, String>)
    ensures
        parts@.len() < 2 ==> r == Ok::<Option<usize>, String>(None) && final(out)@ == old(out)@.push(
            (OutputCategory::Always, "ERROR: SCRIPT REQUIRES NUMBER 1-8"@),
        ),
        parts@.len() >= 2 ==> match crate::text::parse_usize(parts@[1]@) {
            None => (r matches Err(e) && e@ == "Failed to parse script number"@) && final(out)@ == old(out)@,
            Some(k) => if 1 <= k <= 8 {
                r == Ok::<Option<usize>, String>(Some((k - 1) as usize)) && final(out)@ == old(out)@
            } else {
                r == Ok::<Option<usize>, String>(None) && final(out)@ == old(out)@.push(
                    (OutputCategory::Always, "ERROR: SCRIPT NUMBER MUST BE 1-8"@),
                )
            },
        },
{
    if parts.len() < 2 {
        out.emit_str(OutputCategory::Always, "ERROR: SCRIPT REQUIRES NUMBER 1-8");
        return Ok(None);
    }
    let k = match crate::text::parse_usize_token(parts[1]) {
        Some(k) => k,
        None => return Err(String::from_str("Failed to parse script number")),
    };
    if k < 1 || k > 8 {
        out.emit_str(OutputCategory::Always, "ERROR: SCRIPT NUMBER MUST BE 1-8");
        return Ok(None);
    }
    Ok(Some(k - 1))
}

// ---------------------------------------------------------------------------
// Lines typed at the prompt
// ---------------------------------------------------------------------------

/// `s` equals the upper-case word `k`, in any ASCII case.
pub open spec fn eq_ci(s: Seq<char>, k: Seq<char>) -> bool {
    s.len() == k.len() && starts_ci(s, k)
}

/// `c` in ASCII lower case.
pub open spec fn ascii_lower(c: char) -> char {
    if 'A' <= c && c <= 'Z' {
        ((c as u32) + 32) as char
    } else {
        c
    }
}

/// What a line typed at the prompt asks for, as values.
pub enum EntrySpec {
    Empty,
    Quit,
    Clear,
    Dump(Seq<char>),
    Command(Seq<char>),
}

/// What a line typed at the prompt asks for.
#[derive(Debug, PartialEq, Eq)]
pub enum Entry {
    /// Nothing (a blank line).
    Empty,
    /// `Q`, `QUIT` or `EXIT`: leave the program.
    Quit,
    /// `CLEAR`: empty the output.
    Clear,
    /// `REPL.DUMP [file]`: write the output to this file.
    Dump(String),
    /// Anything else: run this (trimmed) line.
    Command(String),
}

impl View for Entry {
    type V = EntrySpec;

    open spec fn view(&self) -> EntrySpec {
        match self {
            Entry::Empty => EntrySpec::Empty,
            Entry::Quit => EntrySpec::Quit,
            Entry::Clear => EntrySpec::Clear,
            Entry::Dump(f) => EntrySpec::Dump(f@),
            Entry::Command(c) => EntrySpec::Command(c@),
        }
    }
}

/// How the typed line `input` reads.
pub open spec fn entry_spec(input: Seq<char>) -> EntrySpec {
    let t = trim(input);
    if t.len() == 0 {
        EntrySpec::Empty
    } else if eq_ci(t, "Q"@) || eq_ci(t, "QUIT"@) || eq_ci(t, "EXIT"@) {
        EntrySpec::Quit
    } else if eq_ci(t, "CLEAR"@) {
        EntrySpec::Clear
    } else if starts_ci(t, "REPL.DUMP"@) {
        let ws = words(t);
        if ws.len() > 1 {
            EntrySpec::Dump(ws[1].map_values(|c: char| ascii_lower(ascii_upper(c))))
        } else {
            EntrySpec::Dump("repl_dump.txt"@)
        }
    } else {
        EntrySpec::Command(t)
    }
}

/// Whether `s` is the upper-case word `k`, in any ASCII case.
fn equals_ci(s: &[char], k: &str) -> (b: bool)
    ensures
        b == eq_ci(s@, k@),
{
    let n = crate::text::str_chars(k).len();
    s.len() == n && starts_with_ci(s, k)
}

/// Reads a line typed at the prompt.
pub fn read_entry(input: &str) -> (e: Entry)
    ensures
        e@ == entry_spec(input@),
{
    let raw = str_chars(input);
    let t = trim_chars(raw.as_slice());
    if t.len() == 0 {
        return Entry::Empty;
    }
    if equals_ci(t.as_slice(), "Q") || equals_ci(t.as_slice(), "QUIT") || equals_ci(t.as_slice(), "EXIT") {
        return Entry::Quit;
    }
    if equals_ci(t.as_slice(), "CLEAR") {
        return Entry::Clear;
    }
    if starts_with_ci(t.as_slice(), "REPL.DUMP") {
        let ws = split_ws(t.as_slice());
        if ws.len() > 1 {
            let w = &ws[1];
            let mut name: Vec<char> = Vec::new();
            let mut i: usize = 0;
            proof {
                assert(views(ws@)[1] == w@);
            }
            while i < w.len()
                invariant
                    i <= w@.len(),
                    name@ == w@.take(i as int).map_values(|c: char| ascii_lower(ascii_upper(c))),
                decreases w@.len() - i,
            {
                let u = to_ascii_upper(w[i]);
                let l = if 'A' <= u && u <= 'Z' {
                    ((u as u32 + 32) as u8) as char
                } else {
                    u
                };
                name.push(l);
                i = i + 1;
                proof {
                    assert(name@ =~= w@.take(i as int).map_values(|c: char| ascii_lower(ascii_upper(c))));
                }
            }
            proof {
                assert(w@.take(w@.len() as int) =~= w@);
            }
            return Entry::Dump(string_from_chars(name.as_slice()));
        }
        return Entry::Dump(String::from_str("repl_dump.txt"));
    }
    Entry::Command(string_from_chars(t.as_slice()))
}

/// An `EV n:` or `SKIP n:` prefix typed at the prompt, where nothing is
/// counted: the rest of the line runs, with a warning where `n` is a
/// positive number.
pub open spec fn prompt_prefix_spec(cmd: Seq<char>) -> (Seq<char>, Option<Seq<char>>) {
    let ev = starts_ci(cmd, "EV "@);
    let skip = !ev && starts_ci(cmd, "SKIP "@);
    if (ev || skip) && find_char(cmd, ':') is Some {
        let c = find_char(cmd, ':')->0;
        let ws = words(cmd.subrange(if ev { 3 } else { 5 }, c));
        let warn = ws.len() >= 1 && eval_token(ws[0]) is Some && eval_token(ws[0])->0 > 0;
        (
            trim(cmd.subrange(c + 1, cmd.len() as int)),
            if warn {
                Some(
                    if ev {
                        "Warning: EV in interactive mode - counters not persisted"@
                    } else {
                        "Warning: SKIP in interactive mode - counters not persisted"@
                    },
                )
            } else {
                None
            },
        )
    } else {
        (cmd, None)
    }
}

/// Deals with an `EV n:` or `SKIP n:` prefix of the trimmed line `cmd` typed
/// at the prompt; the warning, if any, goes to `out`.
pub fn prompt_prefix(cmd: &str, out: &mut Console) -> (r: String)
    ensures
        r@ == prompt_prefix_spec(cmd@).0,
        final(out)@ == match prompt_prefix_spec(cmd@).1 {
            Some(w) => old(out)@.push((OutputCategory::Always, w)),
            None => old(out)@,
        },
{
    let t = str_chars(cmd);
    let n = t.len();
    let ev = starts_with_ci(t.as_slice(), "EV ");
    let skip = !ev && starts_with_ci(t.as_slice(), "SKIP ");
    if !(ev || skip) {
        return String::from_str(cmd);
    }
    let c = match find_char_index(t.as_slice(), ':') {
        Some(c) => c,
        None => return String::from_str(cmd),
    };
    let k: usize = if ev { 3 } else { 5 };
    proof {
        reveal_strlit("EV ");
        reveal_strlit("SKIP ");
        assert(t@[c as int] == ':');
        assert(k <= c) by {
            if c < k {
                assert(ascii_upper(t@[c as int]) == (if ev { "EV "@ } else { "SKIP "@ })[c as int]);
            }
        }
    }
    let middle = piece_chars_from(t.as_slice(), k, c);
    let ws = split_ws(middle.as_slice());
    if ws.len() >= 1 {
        let w = string_from_chars(ws[0].as_slice());
        proof {
            assert(views(ws@)[0] == ws@[0]@);
        }
        if let Some((d, _)) = eval_expression(&[w.as_str()], 0) {
            if d > 0 {
                if ev {
                    out.emit_str(OutputCategory::Always, "Warning: EV in interactive mode - counters not persisted");
                } else {
                    out.emit_str(OutputCategory::Always, "Warning: SKIP in interactive mode - counters not persisted");
                }
            }
        }
    }
    trimmed_piece(t.as_slice(), c + 1, n)
}

// ---------------------------------------------------------------------------
// Whole lines
// ---------------------------------------------------------------------------

/// What a line asks for, as values.
pub enum PlanSpec {
    Nothing,
    Failed(Seq<char>),
    Loop { values: Seq<i16>, pieces: Seq<Seq<char>> },
    Run(Seq<Seq<char>>),
}

/// What a line asks for.
#[derive(Debug, PartialEq, Eq)]
pub enum LinePlan {
    /// Nothing runs.
    Nothing,
    /// Print this error line.
    Failed(String),
    /// For each value, in order, set `I` to it and run the sub-commands;
    /// then give `I` back its value from before.
    Loop { values: Vec<i16>, pieces: Vec<String> },
    /// Run these sub-commands, in order.
    Run(Vec<String>),
}

impl View for LinePlan {
    type V = PlanSpec;

    open spec fn view(&self) -> PlanSpec {
        match self {
            LinePlan::Nothing => PlanSpec::Nothing,
            LinePlan::Failed(e) => PlanSpec::Failed(e@),
            LinePlan::Loop { values, pieces } => PlanSpec::Loop { values: values@, pieces: string_views(pieces@) },
            LinePlan::Run(pieces) => PlanSpec::Run(string_views(pieces@)),
        }
    }
}

/// The plan for what is left of a line once its prefixes are dealt with.
pub open spec fn run_plan(rest: Seq<char>) -> PlanSpec {
    if rest.len() == 0 {
        PlanSpec::Nothing
    } else {
        PlanSpec::Run(split_on(rest, ';'))
    }
}

/// The plan for a line that may be a loop; `other` is the plan where it is
/// none.
pub open spec fn loop_or(t: Seq<char>, other: PlanSpec) -> PlanSpec {
    match loop_spec(t) {
        LoopSpec::Loop { start, end, commands } => PlanSpec::Loop {
            values: loop_seq(start, end),
            pieces: split_on(commands, ';'),
        },
        LoopSpec::Failed(e) => PlanSpec::Failed(e),
        LoopSpec::NotALoop => other,
    }
}

/// The plan for the script line `line`, given its `EV`/`SKIP` counter, and
/// the new counter.
pub open spec fn line_plan_spec(line: Seq<char>, counter: u32) -> (PlanSpec, u32) {
    let t = trim(line);
    if t.len() == 0 {
        (PlanSpec::Nothing, counter)
    } else if !(loop_spec(t) is NotALoop) {
        (loop_or(t, PlanSpec::Nothing), counter)
    } else {
        let (rest, c1) = every_spec(t, counter);
        (run_plan(rest), c1)
    }
}

fn loop_plan(l: LoopLine) -> (p: LinePlan)
    requires
        !(l@ is NotALoop),
    ensures
        p@ == (match l@ {
            LoopSpec::Loop { start, end, commands } => PlanSpec::Loop {
                values: loop_seq(start, end),
                pieces: split_on(commands, ';'),
            },
            LoopSpec::Failed(e) => PlanSpec::Failed(e),
            LoopSpec::NotALoop => PlanSpec::Nothing,
        }),
{
    match l {
        LoopLine::Loop { start, end, commands } => LinePlan::Loop {
            values: loop_values(start, end),
            pieces: split_sub_commands(commands.as_str()),
        },
        LoopLine::Failed(e) => LinePlan::Failed(e),
        LoopLine::NotALoop => LinePlan::Nothing,
    }
}

/// What the script line `line` asks for, counting its `EV`/`SKIP` prefix on
/// `counter`.
pub fn plan_line(line: &str, counter: &mut u32) -> (p: LinePlan)
    requires
        *old(counter) < u32::MAX,
    ensures
        (p@, *final(counter)) == line_plan_spec(line@, *old(counter)),
{
    let t = string_from_chars(trim_chars(str_chars(line).as_slice()).as_slice());
    if t.as_str().unicode_len() == 0 {
        return LinePlan::Nothing;
    }
    let l = parse_loop_line(t.as_str());
    if let LoopLine::NotALoop = l {
        let rest = every_prefix(t.as_str(), counter);
        if rest.as_str().unicode_len() == 0 {
            LinePlan::Nothing
        } else {
            LinePlan::Run(split_sub_commands(rest.as_str()))
        }
    } else {
        loop_plan(l)
    }
}

/// What the line `cmd` typed at the prompt asks for; an `EV`/`SKIP` prefix
/// there counts nothing, and its warning goes to `out`.
pub fn plan_typed(cmd: &str, out: &mut Console) -> (p: LinePlan)
    ensures
        !(loop_spec(cmd@) is NotALoop) ==> p@ == loop_or(cmd@, PlanSpec::Nothing) && final(out)@ == old(out)@,
        loop_spec(cmd@) is NotALoop ==> p@ == PlanSpec::Run(split_on(prompt_prefix_spec(cmd@).0, ';'))
            && final(out)@ == match prompt_prefix_spec(cmd@).1 {
            Some(w) => old(out)@.push((OutputCategory::Always, w)),
            None => old(out)@,
        },
{
    let l = parse_loop_line(cmd);
    if let LoopLine::NotALoop = l {
        let rest = prompt_prefix(cmd, out);
        LinePlan::Run(split_sub_commands(rest.as_str()))
    } else {
        loop_plan(l)
    }
}

} // verus!
