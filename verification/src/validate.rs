//! Checking a script line before it is stored: control-flow prefixes and
//! compound lines pass, and a plain command must be known and have a
//! fitting number of arguments. Command names are compared in upper case.

use vstd::prelude::*;
use crate::state::{starts_with, starts_with_chars};
use crate::text::{
    find_char, find_char_index, is_first, is_ws, split_ws, str_chars, string_from_chars, trim, trim_chars,
    trim_end, trim_start, views, words, words_from,
};
use crate::input_line::ascii_upper;
use crate::router::{command_named, route_of};
use crate::synth_params::int_param_named;

verus! {

/// What `str::to_uppercase` gives for `s`: the Unicode upper case of each
/// character (some become more than one).
pub uninterp spec fn uppercase(s: Seq<char>) -> Seq<char>;

/// Every character of `s` is ASCII.
pub open spec fn is_ascii_text(s: Seq<char>) -> bool {
    forall|i: int| 0 <= i < s.len() ==> (#[trigger] s[i] as u32) < 128
}

/// `s` with `a` to `z` made `A` to `Z` and every other character kept.
pub open spec fn ascii_up(s: Seq<char>) -> Seq<char> {
    s.map_values(|c: char| ascii_upper(c))
}

/// `str::to_uppercase`, whose result is named `uppercase`. On ASCII text,
/// as std documents, it makes `a` to `z` upper case and keeps every other
/// character, as `str::to_ascii_uppercase` does.
#[verifier::external_body]
fn to_upper(s: &str) -> (r: String)
    ensures
        r@ == uppercase(s@),
        is_ascii_text(s@) ==> r@ == ascii_up(s@),
{
    s.to_uppercase()
}

/// How many arguments a command takes.
#[derive(Clone, Copy, PartialEq, Eq, Debug, Structural)]
pub enum Arity {
    /// Any number.
    Any,
    /// None.
    NoArgs,
    /// None or one.
    UpToOne,
    /// At least one.
    AtLeastOne,
    /// At least one, the pattern number.
    AtLeastOnePattern,
    /// At least two.
    AtLeastTwo,
    /// Exactly one.
    ExactlyOne,
}

/// The arity of the (upper-case) command `c`; none for an unknown command.
pub open spec fn arity_of(c: Seq<char>) -> Option<Arity> {
    if c == "A"@ || c == "B"@ || c == "C"@ || c == "D"@ || c == "I"@ || c == "X"@ || c == "Y"@ || c == "Z"@ || c == "T"@ || c == "J"@ || c == "K"@ {
        Some(Arity::Any)
    } else if c == "P.HERE"@ || c == "P.NEXT"@ || c == "P.PREV"@ {
        Some(Arity::NoArgs)
    } else if c == "P.N"@ || c == "P.L"@ || c == "P.I"@ {
        Some(Arity::UpToOne)
    } else if c == "P"@ {
        Some(Arity::AtLeastOne)
    } else if c == "PN.HERE"@ || c == "PN.NEXT"@ || c == "PN.PREV"@ {
        Some(Arity::AtLeastOnePattern)
    } else if c == "PN.L"@ || c == "PN.I"@ {
        Some(Arity::AtLeastOne)
    } else if c == "PN"@ {
        Some(Arity::AtLeastTwo)
    } else if c == "ADD"@ || c == "SUB"@ || c == "MUL"@ || c == "DIV"@ || c == "MOD"@ || c == "+"@ || c == "-"@ || c == "*"@ || c == "/"@ || c == "%"@ {
        Some(Arity::AtLeastTwo)
    } else if c == "RND"@ {
        Some(Arity::AtLeastOne)
    } else if c == "RRND"@ {
        Some(Arity::AtLeastTwo)
    } else if c == "TOSS"@ {
        Some(Arity::NoArgs)
    } else if c == "EITH"@ {
        Some(Arity::AtLeastTwo)
    } else if c == "N"@ {
        Some(Arity::AtLeastOne)
    } else if c == "EZ"@ || c == "NZ"@ {
        Some(Arity::AtLeastOne)
    } else if c == "EQ"@ || c == "NE"@ || c == "GT"@ || c == "LT"@ || c == "GTE"@ || c == "LTE"@ {
        Some(Arity::AtLeastTwo)
    } else if c == "SCRIPT"@ {
        Some(Arity::ExactlyOne)
    } else if c == "SAVE"@ || c == "LOAD"@ || c == "DELETE"@ {
        Some(Arity::ExactlyOne)
    } else if c == "SCENES"@ {
        Some(Arity::NoArgs)
    } else if c == "THEME"@ {
        Some(Arity::UpToOne)
    } else if c == "M"@ {
        Some(Arity::UpToOne)
    } else if c == "M.BPM"@ || c == "M.ACT"@ || c == "M.SCRIPT"@ {
        Some(Arity::ExactlyOne)
    } else if c == "TR"@ || c == "RST"@ || c == "HELP"@ {
        Some(Arity::NoArgs)
    } else if c == "VOL"@ {
        Some(Arity::ExactlyOne)
    } else if c == "PF"@ || c == "MF"@ || c == "PW"@ || c == "MW"@ || c == "DC"@ || c == "TK"@ || c == "MB"@ || c == "FM"@ || c == "MX"@ || c == "FA"@ || c == "DA"@ || c == "DM"@ || c == "MP"@ || c == "MD"@ || c == "MT"@ || c == "MA"@ || c == "MM"@ || c == "ME"@ || c == "AD"@ || c == "PD"@ || c == "FD"@ || c == "DD"@ || c == "PA"@ {
        Some(Arity::AtLeastOne)
    } else {
        None
    }}

/// Whether the command `c`, given `argc` arguments, passes; else the
/// message saying why not.
pub open spec fn argument_check(c: Seq<char>, argc: int) -> Result<(), Seq<char>> {
    match arity_of(c) {
        None => Err("Unknown command: "@ + c),
        Some(Arity::Any) => Ok(()),
        Some(Arity::NoArgs) => if argc > 0 {
            Err(c + " takes no arguments"@)
        } else {
            Ok(())
        },
        Some(Arity::UpToOne) => if argc > 1 {
            Err(c + " takes 0-1 arguments"@)
        } else {
            Ok(())
        },
        Some(Arity::AtLeastOne) => if argc < 1 {
            Err(c + " requires at least 1 argument"@)
        } else {
            Ok(())
        },
        Some(Arity::AtLeastOnePattern) => if argc < 1 {
            Err(c + " requires at least 1 argument (pattern number)"@)
        } else {
            Ok(())
        },
        Some(Arity::AtLeastTwo) => if argc < 2 {
            Err(c + " requires at least 2 arguments"@)
        } else {
            Ok(())
        },
        Some(Arity::ExactlyOne) => if argc != 1 {
            Err(c + " takes exactly 1 argument"@)
        } else {
            Ok(())
        },
    }
}

/// The (upper-case) text before a colon opens a control-flow line.
pub open spec fn control_prefix(p: Seq<char>) -> bool {
    ||| starts_with(p, "IF "@)
    ||| starts_with(p, "ELIF "@)
    ||| p == "ELSE"@
    ||| starts_with(p, "PROB "@)
    ||| starts_with(p, "EV "@)
    ||| starts_with(p, "SKIP "@)
    ||| starts_with(p, "L "@)
}

/// The check of a plain command `c` (in upper case) with `argc` arguments.
/// With `routed`, a command that the argument table does not know passes
/// with any number of arguments if the router knows it; otherwise the table
/// decides.
pub open spec fn command_check(c: Seq<char>, argc: int, routed: bool) -> Result<(), Seq<char>> {
    if routed && arity_of(c) is None && command_named(c) is Some {
        Ok(())
    } else {
        argument_check(c, argc)
    }
}

/// Whether the script line `cmd` passes, else the message saying why not,
/// with `up` as the rule that puts text in upper case; `routed` says whether
/// the router's commands count as known (see `command_check`).
pub open spec fn script_check_by(cmd: Seq<char>, up: spec_fn(Seq<char>) -> Seq<char>, routed: bool) -> Result<(), Seq<char>> {
    let t = trim(cmd);
    if t.len() == 0 {
        Ok(())
    } else if (match find_char(t, ':') {
        Some(p) => control_prefix(up(trim(t.take(p)))),
        None => false,
    }) {
        Ok(())
    } else if starts_with(up(t), "L "@) {
        Ok(())
    } else if find_char(t, ';') is Some {
        Ok(())
    } else if words(t).len() == 0 {
        Ok(())
    } else {
        command_check(up(words(t)[0]), words(t).len() - 1, routed)
    }
}

/// Whether the script line `cmd` passes the argument table, else the
/// message saying why not.
pub open spec fn script_check(cmd: Seq<char>) -> Result<(), Seq<char>> {
    script_check_by(cmd, |x: Seq<char>| uppercase(x), false)
}

/// Whether the script line `cmd` may be stored in a script: it passes the
/// argument table, or its command is one the router runs.
pub open spec fn line_check(cmd: Seq<char>) -> Result<(), Seq<char>> {
    script_check_by(cmd, |x: Seq<char>| uppercase(x), true)
}

fn is(c: &String, lit: &str) -> (b: bool)
    ensures
        b == (c@ == lit@),
{
    *c == String::from_str(lit)
}

fn arity_lookup(c: &String) -> (r: Option<Arity>)
    ensures
        r == arity_of(c@),
{
    if is(c, "A") || is(c, "B") || is(c, "C") || is(c, "D") || is(c, "I") || is(c, "X") || is(c, "Y") || is(c, "Z") || is(c, "T") || is(c, "J") || is(c, "K") {
        Some(Arity::Any)
    } else if is(c, "P.HERE") || is(c, "P.NEXT") || is(c, "P.PREV") {
        Some(Arity::NoArgs)
    } else if is(c, "P.N") || is(c, "P.L") || is(c, "P.I") {
        Some(Arity::UpToOne)
    } else if is(c, "P") {
        Some(Arity::AtLeastOne)
    } else if is(c, "PN.HERE") || is(c, "PN.NEXT") || is(c, "PN.PREV") {
        Some(Arity::AtLeastOnePattern)
    } else if is(c, "PN.L") || is(c, "PN.I") {
        Some(Arity::AtLeastOne)
    } else if is(c, "PN") {
        Some(Arity::AtLeastTwo)
    } else if is(c, "ADD") || is(c, "SUB") || is(c, "MUL") || is(c, "DIV") || is(c, "MOD") || is(c, "+") || is(c, "-") || is(c, "*") || is(c, "/") || is(c, "%") {
        Some(Arity::AtLeastTwo)
    } else if is(c, "RND") {
        Some(Arity::AtLeastOne)
    } else if is(c, "RRND") {
        Some(Arity::AtLeastTwo)
    } else if is(c, "TOSS") {
        Some(Arity::NoArgs)
    } else if is(c, "EITH") {
        Some(Arity::AtLeastTwo)
    } else if is(c, "N") {
        Some(Arity::AtLeastOne)
    } else if is(c, "EZ") || is(c, "NZ") {
        Some(Arity::AtLeastOne)
    } else if is(c, "EQ") || is(c, "NE") || is(c, "GT") || is(c, "LT") || is(c, "GTE") || is(c, "LTE") {
        Some(Arity::AtLeastTwo)
    } else if is(c, "SCRIPT") {
        Some(Arity::ExactlyOne)
    } else if is(c, "SAVE") || is(c, "LOAD") || is(c, "DELETE") {
        Some(Arity::ExactlyOne)
    } else if is(c, "SCENES") {
        Some(Arity::NoArgs)
    } else if is(c, "THEME") {
        Some(Arity::UpToOne)
    } else if is(c, "M") {
        Some(Arity::UpToOne)
    } else if is(c, "M.BPM") || is(c, "M.ACT") || is(c, "M.SCRIPT") {
        Some(Arity::ExactlyOne)
    } else if is(c, "TR") || is(c, "RST") || is(c, "HELP") {
        Some(Arity::NoArgs)
    } else if is(c, "VOL") {
        Some(Arity::ExactlyOne)
    } else if is(c, "PF") || is(c, "MF") || is(c, "PW") || is(c, "MW") || is(c, "DC") || is(c, "TK") || is(c, "MB") || is(c, "FM") || is(c, "MX") || is(c, "FA") || is(c, "DA") || is(c, "DM") || is(c, "MP") || is(c, "MD") || is(c, "MT") || is(c, "MA") || is(c, "MM") || is(c, "ME") || is(c, "AD") || is(c, "PD") || is(c, "FD") || is(c, "DD") || is(c, "PA") {
        Some(Arity::AtLeastOne)
    } else {
        None
    }}

fn message(a: &str, b: &str) -> (s: String)
    ensures
        s@ == a@ + b@,
{
    let mut s = String::from_str(a);
    s.append(b);
    s
}

/// Checks the argument count of the upper-case command `command`.
pub fn check_arguments(command: &str, argc: usize) -> (r: Result<(), String>)
    ensures
        match (r, argument_check(command@, argc as int)) {
            (Ok(_), Ok(_)) => true,
            (Err(e), Err(m)) => e@ == m,
            _ => false,
        },
{
    let c = String::from_str(command);
    match arity_lookup(&c) {
        None => Err(message("Unknown command: ", command)),
        Some(Arity::Any) => Ok(()),
        Some(Arity::NoArgs) => if argc > 0 {
            Err(message(command, " takes no arguments"))
        } else {
            Ok(())
        },
        Some(Arity::UpToOne) => if argc > 1 {
            Err(message(command, " takes 0-1 arguments"))
        } else {
            Ok(())
        },
        Some(Arity::AtLeastOne) => if argc < 1 {
            Err(message(command, " requires at least 1 argument"))
        } else {
            Ok(())
        },
        Some(Arity::AtLeastOnePattern) => if argc < 1 {
            Err(message(command, " requires at least 1 argument (pattern number)"))
        } else {
            Ok(())
        },
        Some(Arity::AtLeastTwo) => if argc < 2 {
            Err(message(command, " requires at least 2 arguments"))
        } else {
            Ok(())
        },
        Some(Arity::ExactlyOne) => if argc != 1 {
            Err(message(command, " takes exactly 1 argument"))
        } else {
            Ok(())
        },
    }
}

fn starts_with_str(s: &String, p: &str) -> (b: bool)
    ensures
        b == starts_with(s@, p@),
{
    let sc = str_chars(s.as_str());
    let pc = str_chars(p);
    starts_with_chars(sc.as_slice(), pc.as_slice())
}

/// Whether the upper-case text `prefix`, found before a colon, opens a
/// control-flow line (IF, ELIF, ELSE, PROB, EV, SKIP, L).
pub fn is_control_prefix(prefix: &str) -> (b: bool)
    ensures
        b == control_prefix(prefix@),
{
    let p = String::from_str(prefix);
    starts_with_str(&p, "IF ") || starts_with_str(&p, "ELIF ") || is(&p, "ELSE") || starts_with_str(
        &p,
        "PROB ",
    ) || starts_with_str(&p, "EV ") || starts_with_str(&p, "SKIP ") || starts_with_str(&p, "L ")
}

/// Checks a script line: `Ok` where it may be stored, else why not.
pub fn validate_script_command(cmd: &str) -> (r: Result<(), String>)
    ensures
        match (r, script_check(cmd@)) {
            (Ok(_), Ok(_)) => true,
            (Err(e), Err(m)) => e@ == m,
            _ => false,
        },
        is_ascii_text(cmd@) ==> script_check(cmd@) == script_check_by(cmd@, |x: Seq<char>| ascii_up(x), false),
{
    validate_with(cmd, false)
}

/// Checks a script line before it is stored: as `validate_script_command`,
/// but a command the router runs passes too.
pub fn validate_line(cmd: &str) -> (r: Result<(), String>)
    ensures
        match (r, line_check(cmd@)) {
            (Ok(_), Ok(_)) => true,
            (Err(e), Err(m)) => e@ == m,
            _ => false,
        },
        is_ascii_text(cmd@) ==> line_check(cmd@) == script_check_by(cmd@, |x: Seq<char>| ascii_up(x), true),
{
    validate_with(cmd, true)
}

/// The plain-command check (see `command_check`).
fn check_command(command: &str, argc: usize, routed: bool) -> (r: Result<(), String>)
    ensures
        match (r, command_check(command@, argc as int, routed)) {
            (Ok(_), Ok(_)) => true,
            (Err(e), Err(m)) => e@ == m,
            _ => false,
        },
{
    if routed {
        let c = String::from_str(command);
        if arity_lookup(&c).is_none() && route_of(command).is_some() {
            return Ok(());
        }
    }
    check_arguments(command, argc)
}

fn validate_with(cmd: &str, routed: bool) -> (r: Result<(), String>)
    ensures
        match (r, script_check_by(cmd@, |x: Seq<char>| uppercase(x), routed)) {
            (Ok(_), Ok(_)) => true,
            (Err(e), Err(m)) => e@ == m,
            _ => false,
        },
        is_ascii_text(cmd@) ==> script_check_by(cmd@, |x: Seq<char>| uppercase(x), routed) == script_check_by(
            cmd@,
            |x: Seq<char>| ascii_up(x),
            routed,
        ),
{
    let cs = str_chars(cmd);
    let t = trim_chars(cs.as_slice());
    proof {
        if is_ascii_text(cmd@) {
            lemma_ascii_trim(cmd@);
            lemma_ascii_words(t@);
            match find_char(t@, ':') {
                Some(p) => {
                    assert(is_ascii_text(t@.take(p)));
                    lemma_ascii_trim(t@.take(p));
                },
                None => {},
            }
        }
    }
    if t.len() == 0 {
        return Ok(());
    }
    match find_char_index(t.as_slice(), ':') {
        Some(p) => {
            let before = vstd::slice::slice_subrange(t.as_slice(), 0, p);
            proof {
                assert(before@ =~= t@.take(p as int));
            }
            let prefix = trim_chars(before);
            let up = to_upper(string_from_chars(prefix.as_slice()).as_str());
            if is_control_prefix(up.as_str()) {
                return Ok(());
            }
        },
        None => {},
    }
    let whole = to_upper(string_from_chars(t.as_slice()).as_str());
    if starts_with_str(&whole, "L ") {
        return Ok(());
    }
    if find_char_index(t.as_slice(), ';').is_some() {
        return Ok(());
    }
    let ws = split_ws(t.as_slice());
    if ws.len() == 0 {
        return Ok(());
    }
    proof {
        assert(views(ws@)[0] == ws@[0]@);
    }
    let command = to_upper(string_from_chars(ws[0].as_slice()).as_str());
    check_command(command.as_str(), ws.len() - 1, routed)
}

// ---------------------------------------------------------------------------
// ASCII case
// ---------------------------------------------------------------------------

proof fn lemma_up_keeps_ws(c: char)
    ensures
        is_ws(ascii_upper(c)) == is_ws(c),
        (ascii_upper(c) == ':') == (c == ':'),
        (ascii_upper(c) == ';') == (c == ';'),
        ascii_upper(ascii_upper(c)) == ascii_upper(c),
{
}

proof fn lemma_up_twice(s: Seq<char>)
    ensures
        ascii_up(ascii_up(s)) == ascii_up(s),
{
    assert forall|i: int| 0 <= i < s.len() implies ascii_up(ascii_up(s))[i] == ascii_up(s)[i] by {
        lemma_up_keeps_ws(s[i]);
    }
    assert(ascii_up(ascii_up(s)) =~= ascii_up(s));
}

proof fn lemma_up_trim_start(s: Seq<char>)
    ensures
        trim_start(ascii_up(s)) == ascii_up(trim_start(s)),
    decreases s.len(),
{
    if s.len() > 0 {
        lemma_up_keeps_ws(s[0]);
        assert(ascii_up(s)[0] == ascii_upper(s[0]));
        if is_ws(s[0]) {
            assert(ascii_up(s).drop_first() =~= ascii_up(s.drop_first()));
            lemma_up_trim_start(s.drop_first());
        }
    } else {
        assert(ascii_up(s) =~= s);
    }
}

proof fn lemma_up_trim_end(s: Seq<char>)
    ensures
        trim_end(ascii_up(s)) == ascii_up(trim_end(s)),
    decreases s.len(),
{
    if s.len() > 0 {
        lemma_up_keeps_ws(s.last());
        assert(ascii_up(s).last() == ascii_upper(s.last()));
        if is_ws(s.last()) {
            assert(ascii_up(s).drop_last() =~= ascii_up(s.drop_last()));
            lemma_up_trim_end(s.drop_last());
        }
    } else {
        assert(ascii_up(s) =~= s);
    }
}

proof fn lemma_up_trim(s: Seq<char>)
    ensures
        trim(ascii_up(s)) == ascii_up(trim(s)),
{
    lemma_up_trim_start(s);
    lemma_up_trim_end(trim_start(s));
}

proof fn lemma_up_find(s: Seq<char>, c: char)
    requires
        c == ':' || c == ';',
    ensures
        find_char(ascii_up(s), c) == find_char(s, c),
{
    assert forall|i: int| 0 <= i < s.len() implies (ascii_up(s)[i] == c) == (s[i] == c) by {
        lemma_up_keeps_ws(s[i]);
    }
    assert forall|i: int| is_first(ascii_up(s), c, i) == is_first(s, c, i) by {
        if 0 <= i < s.len() {
            assert forall|j: int| 0 <= j < i implies (ascii_up(s)[j] != c) == (s[j] != c) by {}
        }
    }
    if exists|i: int| is_first(s, c, i) {
        let i = choose|i: int| is_first(s, c, i);
        let k = choose|k: int| is_first(ascii_up(s), c, k);
        assert(is_first(ascii_up(s), c, i));
        assert(is_first(s, c, k));
        assert(k == i) by {
            if k < i {
                assert(s[k] != c);
            } else if k > i {
                assert(s[i] != c);
            }
        }
    } else {
        assert(!exists|k: int| is_first(ascii_up(s), c, k)) by {
            if exists|k: int| is_first(ascii_up(s), c, k) {
                let k = choose|k: int| is_first(ascii_up(s), c, k);
                assert(is_first(s, c, k));
            }
        }
    }
}

proof fn lemma_up_words_from(s: Seq<char>, i: int, cur: Seq<char>)
    ensures
        words_from(ascii_up(s), i, ascii_up(cur)) == words_from(s, i, cur).map_values(|w: Seq<char>| ascii_up(w)),
    decreases s.len() - i,
{
    let us = ascii_up(s);
    if i < 0 || i >= s.len() {
        if cur.len() > 0 {
            assert(words_from(s, i, cur).map_values(|w: Seq<char>| ascii_up(w)) =~= seq![ascii_up(cur)]);
        } else {
            assert(words_from(s, i, cur).map_values(|w: Seq<char>| ascii_up(w)) =~= Seq::<Seq<char>>::empty());
        }
    } else {
        lemma_up_keeps_ws(s[i]);
        assert(us[i] == ascii_upper(s[i]));
        if is_ws(s[i]) {
            lemma_up_words_from(s, i + 1, Seq::empty());
            assert(ascii_up(Seq::<char>::empty()) =~= Seq::<char>::empty());
            let rest = words_from(s, i + 1, Seq::empty());
            if cur.len() > 0 {
                assert((seq![cur] + rest).map_values(|w: Seq<char>| ascii_up(w)) =~= seq![ascii_up(cur)]
                    + rest.map_values(|w: Seq<char>| ascii_up(w)));
            } else {
                assert((Seq::<Seq<char>>::empty() + rest).map_values(|w: Seq<char>| ascii_up(w))
                    =~= Seq::<Seq<char>>::empty() + rest.map_values(|w: Seq<char>| ascii_up(w)));
            }
        } else {
            assert(ascii_up(cur).push(us[i]) =~= ascii_up(cur.push(s[i])));
            lemma_up_words_from(s, i + 1, cur.push(s[i]));
        }
    }
}

proof fn lemma_up_words(s: Seq<char>)
    ensures
        words(ascii_up(s)) == words(s).map_values(|w: Seq<char>| ascii_up(w)),
{
    assert(ascii_up(Seq::<char>::empty()) =~= Seq::<char>::empty());
    lemma_up_words_from(s, 0, Seq::empty());
}

/// Script lines are checked without regard to ASCII case: with command
/// names and control-flow prefixes put in upper case the ASCII way, an ASCII
/// line and the same line in upper case get the same answer.
pub proof fn law_validation_ignores_ascii_case(cmd: Seq<char>, routed: bool)
    requires
        is_ascii_text(cmd),
    ensures
        script_check_by(ascii_up(cmd), |x: Seq<char>| ascii_up(x), routed) == script_check_by(
            cmd,
            |x: Seq<char>| ascii_up(x),
            routed,
        ),
{
    let t = trim(cmd);
    lemma_up_trim(cmd);
    let ut = trim(ascii_up(cmd));
    assert(ut == ascii_up(t));
    lemma_up_twice(t);
    lemma_up_find(t, ':');
    lemma_up_find(t, ';');
    match find_char(t, ':') {
        Some(p) => {
            assert(ascii_up(t).take(p) =~= ascii_up(t.take(p)));
            lemma_up_trim(t.take(p));
            lemma_up_twice(trim(t.take(p)));
        },
        None => {},
    }
    lemma_up_words(t);
    if words(t).len() > 0 {
        lemma_up_twice(words(t)[0]);
    }
}

proof fn lemma_ascii_trim(s: Seq<char>)
    requires
        is_ascii_text(s),
    ensures
        is_ascii_text(trim(s)),
{
    lemma_ascii_trim_start(s);
    lemma_ascii_trim_end(trim_start(s));
}

proof fn lemma_ascii_trim_start(s: Seq<char>)
    requires
        is_ascii_text(s),
    ensures
        is_ascii_text(trim_start(s)),
    decreases s.len(),
{
    if s.len() > 0 && is_ws(s[0]) {
        assert(is_ascii_text(s.drop_first()));
        lemma_ascii_trim_start(s.drop_first());
    }
}

proof fn lemma_ascii_trim_end(s: Seq<char>)
    requires
        is_ascii_text(s),
    ensures
        is_ascii_text(trim_end(s)),
    decreases s.len(),
{
    if s.len() > 0 && is_ws(s.last()) {
        assert(is_ascii_text(s.drop_last()));
        lemma_ascii_trim_end(s.drop_last());
    }
}

proof fn lemma_ascii_words_from(s: Seq<char>, i: int, cur: Seq<char>)
    requires
        is_ascii_text(s),
        is_ascii_text(cur),
    ensures
        forall|k: int| 0 <= k < words_from(s, i, cur).len() ==> is_ascii_text(#[trigger] words_from(s, i, cur)[k]),
    decreases s.len() - i,
{
    let wl = crate::text::word_list(cur);
    assert forall|k: int| 0 <= k < wl.len() implies is_ascii_text(#[trigger] wl[k]) by {
        assert(wl[k] == cur);
    }
    if i < 0 || i >= s.len() {
        assert(words_from(s, i, cur) == wl);
    } else if is_ws(s[i]) {
        assert(is_ascii_text(Seq::<char>::empty()));
        lemma_ascii_words_from(s, i + 1, Seq::empty());
        let rest = words_from(s, i + 1, Seq::empty());
        let ws = words_from(s, i, cur);
        assert(ws == wl + rest);
        assert forall|k: int| 0 <= k < ws.len() implies is_ascii_text(#[trigger] ws[k]) by {
            if k < wl.len() {
                assert(ws[k] == wl[k]);
            } else {
                assert(ws[k] == rest[k - wl.len()]);
            }
        }
    } else {
        assert(is_ascii_text(cur.push(s[i])));
        lemma_ascii_words_from(s, i + 1, cur.push(s[i]));
        assert(words_from(s, i, cur) == words_from(s, i + 1, cur.push(s[i])));
    }
}

proof fn lemma_ascii_words(s: Seq<char>)
    requires
        is_ascii_text(s),
    ensures
        forall|k: int| 0 <= k < words(s).len() ==> is_ascii_text(#[trigger] words(s)[k]),
{
    lemma_ascii_words_from(s, 0, Seq::empty());
}

/// A script line may be stored whenever its command is one the router runs
/// and the argument table does not count, whatever its arguments; a line the
/// argument table accepts may be stored too.
pub proof fn law_routed_lines_are_stored(cmd: Seq<char>, up: spec_fn(Seq<char>) -> Seq<char>)
    ensures
        script_check_by(cmd, up, false) is Ok ==> script_check_by(cmd, up, true) is Ok,
        ({
            let t = trim(cmd);
            &&& words(t).len() > 0
            &&& command_named(up(words(t)[0])) is Some
            &&& arity_of(up(words(t)[0])) is None
        }) ==> script_check_by(cmd, up, true) is Ok,
{
}

proof fn lemma_table_words()
    ensures
        arity_of("VOL"@) == Some(Arity::ExactlyOne),
        forall|c: Seq<char>| #[trigger] int_param_named(c) is Some ==> arity_of(c) == Some(Arity::AtLeastOne),
{
    assert(arity_of("VOL"@) == Some(Arity::ExactlyOne)) by {
        reveal_strlit("A");
        assert("A"@.len() == 1 && "A"@[0] == 'A');
        reveal_strlit("B");
        assert("B"@.len() == 1 && "B"@[0] == 'B');
        reveal_strlit("C");
        assert("C"@.len() == 1 && "C"@[0] == 'C');
        reveal_strlit("D");
        assert("D"@.len() == 1 && "D"@[0] == 'D');
        reveal_strlit("I");
        assert("I"@.len() == 1 && "I"@[0] == 'I');
        reveal_strlit("X");
        assert("X"@.len() == 1 && "X"@[0] == 'X');
        reveal_strlit("Y");
        assert("Y"@.len() == 1 && "Y"@[0] == 'Y');
        reveal_strlit("Z");
        assert("Z"@.len() == 1 && "Z"@[0] == 'Z');
        reveal_strlit("T");
        assert("T"@.len() == 1 && "T"@[0] == 'T');
        reveal_strlit("J");
        assert("J"@.len() == 1 && "J"@[0] == 'J');
        reveal_strlit("K");
        assert("K"@.len() == 1 && "K"@[0] == 'K');
        reveal_strlit("P.HERE");
        assert("P.HERE"@.len() == 6 && "P.HERE"@[0] == 'P' && "P.HERE"@[1] == '.');
        reveal_strlit("P.NEXT");
        assert("P.NEXT"@.len() == 6 && "P.NEXT"@[0] == 'P' && "P.NEXT"@[1] == '.');
        reveal_strlit("P.PREV");
        assert("P.PREV"@.len() == 6 && "P.PREV"@[0] == 'P' && "P.PREV"@[1] == '.');
        reveal_strlit("P.N");
        assert("P.N"@.len() == 3 && "P.N"@[0] == 'P' && "P.N"@[1] == '.');
        reveal_strlit("P.L");
        assert("P.L"@.len() == 3 && "P.L"@[0] == 'P' && "P.L"@[1] == '.');
        reveal_strlit("P.I");
        assert("P.I"@.len() == 3 && "P.I"@[0] == 'P' && "P.I"@[1] == '.');
        reveal_strlit("P");
        assert("P"@.len() == 1 && "P"@[0] == 'P');
        reveal_strlit("PN.HERE");
        assert("PN.HERE"@.len() == 7 && "PN.HERE"@[0] == 'P' && "PN.HERE"@[1] == 'N');
        reveal_strlit("PN.NEXT");
        assert("PN.NEXT"@.len() == 7 && "PN.NEXT"@[0] == 'P' && "PN.NEXT"@[1] == 'N');
        reveal_strlit("PN.PREV");
        assert("PN.PREV"@.len() == 7 && "PN.PREV"@[0] == 'P' && "PN.PREV"@[1] == 'N');
        reveal_strlit("PN.L");
        assert("PN.L"@.len() == 4 && "PN.L"@[0] == 'P' && "PN.L"@[1] == 'N');
        reveal_strlit("PN.I");
        assert("PN.I"@.len() == 4 && "PN.I"@[0] == 'P' && "PN.I"@[1] == 'N');
        reveal_strlit("PN");
        assert("PN"@.len() == 2 && "PN"@[0] == 'P' && "PN"@[1] == 'N');
        reveal_strlit("ADD");
        assert("ADD"@.len() == 3 && "ADD"@[0] == 'A' && "ADD"@[1] == 'D');
        reveal_strlit("SUB");
        assert("SUB"@.len() == 3 && "SUB"@[0] == 'S' && "SUB"@[1] == 'U');
        reveal_strlit("MUL");
        assert("MUL"@.len() == 3 && "MUL"@[0] == 'M' && "MUL"@[1] == 'U');
        reveal_strlit("DIV");
        assert("DIV"@.len() == 3 && "DIV"@[0] == 'D' && "DIV"@[1] == 'I');
        reveal_strlit("MOD");
        assert("MOD"@.len() == 3 && "MOD"@[0] == 'M' && "MOD"@[1] == 'O');
        reveal_strlit("+");
        assert("+"@.len() == 1 && "+"@[0] == '+');
        reveal_strlit("-");
        assert("-"@.len() == 1 && "-"@[0] == '-');
        reveal_strlit("*");
        assert("*"@.len() == 1 && "*"@[0] == '*');
        reveal_strlit("/");
        assert("/"@.len() == 1 && "/"@[0] == '/');
        reveal_strlit("%");
        assert("%"@.len() == 1 && "%"@[0] == '%');
        reveal_strlit("RND");
        assert("RND"@.len() == 3 && "RND"@[0] == 'R' && "RND"@[1] == 'N');
        reveal_strlit("RRND");
        assert("RRND"@.len() == 4 && "RRND"@[0] == 'R' && "RRND"@[1] == 'R');
        reveal_strlit("TOSS");
        assert("TOSS"@.len() == 4 && "TOSS"@[0] == 'T' && "TOSS"@[1] == 'O');
        reveal_strlit("EITH");
        assert("EITH"@.len() == 4 && "EITH"@[0] == 'E' && "EITH"@[1] == 'I');
        reveal_strlit("N");
        assert("N"@.len() == 1 && "N"@[0] == 'N');
        reveal_strlit("EZ");
        assert("EZ"@.len() == 2 && "EZ"@[0] == 'E' && "EZ"@[1] == 'Z');
        reveal_strlit("NZ");
        assert("NZ"@.len() == 2 && "NZ"@[0] == 'N' && "NZ"@[1] == 'Z');
        reveal_strlit("EQ");
        assert("EQ"@.len() == 2 && "EQ"@[0] == 'E' && "EQ"@[1] == 'Q');
        reveal_strlit("NE");
        assert("NE"@.len() == 2 && "NE"@[0] == 'N' && "NE"@[1] == 'E');
        reveal_strlit("GT");
        assert("GT"@.len() == 2 && "GT"@[0] == 'G' && "GT"@[1] == 'T');
        reveal_strlit("LT");
        assert("LT"@.len() == 2 && "LT"@[0] == 'L' && "LT"@[1] == 'T');
        reveal_strlit("GTE");
        assert("GTE"@.len() == 3 && "GTE"@[0] == 'G' && "GTE"@[1] == 'T');
        reveal_strlit("LTE");
        assert("LTE"@.len() == 3 && "LTE"@[0] == 'L' && "LTE"@[1] == 'T');
        reveal_strlit("SCRIPT");
        assert("SCRIPT"@.len() == 6 && "SCRIPT"@[0] == 'S' && "SCRIPT"@[1] == 'C');
        reveal_strlit("SAVE");
        assert("SAVE"@.len() == 4 && "SAVE"@[0] == 'S' && "SAVE"@[1] == 'A');
        reveal_strlit("LOAD");
        assert("LOAD"@.len() == 4 && "LOAD"@[0] == 'L' && "LOAD"@[1] == 'O');
        reveal_strlit("DELETE");
        assert("DELETE"@.len() == 6 && "DELETE"@[0] == 'D' && "DELETE"@[1] == 'E');
        reveal_strlit("SCENES");
        assert("SCENES"@.len() == 6 && "SCENES"@[0] == 'S' && "SCENES"@[1] == 'C');
        reveal_strlit("THEME");
        assert("THEME"@.len() == 5 && "THEME"@[0] == 'T' && "THEME"@[1] == 'H');
        reveal_strlit("M");
        assert("M"@.len() == 1 && "M"@[0] == 'M');
        reveal_strlit("M.BPM");
        assert("M.BPM"@.len() == 5 && "M.BPM"@[0] == 'M' && "M.BPM"@[1] == '.');
        reveal_strlit("M.ACT");
        assert("M.ACT"@.len() == 5 && "M.ACT"@[0] == 'M' && "M.ACT"@[1] == '.');
        reveal_strlit("M.SCRIPT");
        assert("M.SCRIPT"@.len() == 8 && "M.SCRIPT"@[0] == 'M' && "M.SCRIPT"@[1] == '.');
        reveal_strlit("TR");
        assert("TR"@.len() == 2 && "TR"@[0] == 'T' && "TR"@[1] == 'R');
        reveal_strlit("RST");
        assert("RST"@.len() == 3 && "RST"@[0] == 'R' && "RST"@[1] == 'S');
        reveal_strlit("HELP");
        assert("HELP"@.len() == 4 && "HELP"@[0] == 'H' && "HELP"@[1] == 'E');
        reveal_strlit("VOL");
        assert("VOL"@.len() == 3 && "VOL"@[0] == 'V' && "VOL"@[1] == 'O');
        reveal_strlit("PF");
        assert("PF"@.len() == 2 && "PF"@[0] == 'P' && "PF"@[1] == 'F');
        reveal_strlit("MF");
        assert("MF"@.len() == 2 && "MF"@[0] == 'M' && "MF"@[1] == 'F');
        reveal_strlit("PW");
        assert("PW"@.len() == 2 && "PW"@[0] == 'P' && "PW"@[1] == 'W');
        reveal_strlit("MW");
        assert("MW"@.len() == 2 && "MW"@[0] == 'M' && "MW"@[1] == 'W');
        reveal_strlit("DC");
        assert("DC"@.len() == 2 && "DC"@[0] == 'D' && "DC"@[1] == 'C');
        reveal_strlit("TK");
        assert("TK"@.len() == 2 && "TK"@[0] == 'T' && "TK"@[1] == 'K');
        reveal_strlit("MB");
        assert("MB"@.len() == 2 && "MB"@[0] == 'M' && "MB"@[1] == 'B');
        reveal_strlit("FM");
        assert("FM"@.len() == 2 && "FM"@[0] == 'F' && "FM"@[1] == 'M');
        reveal_strlit("MX");
        assert("MX"@.len() == 2 && "MX"@[0] == 'M' && "MX"@[1] == 'X');
        reveal_strlit("FA");
        assert("FA"@.len() == 2 && "FA"@[0] == 'F' && "FA"@[1] == 'A');
        reveal_strlit("DA");
        assert("DA"@.len() == 2 && "DA"@[0] == 'D' && "DA"@[1] == 'A');
        reveal_strlit("DM");
        assert("DM"@.len() == 2 && "DM"@[0] == 'D' && "DM"@[1] == 'M');
        reveal_strlit("MP");
        assert("MP"@.len() == 2 && "MP"@[0] == 'M' && "MP"@[1] == 'P');
        reveal_strlit("MD");
        assert("MD"@.len() == 2 && "MD"@[0] == 'M' && "MD"@[1] == 'D');
        reveal_strlit("MT");
        assert("MT"@.len() == 2 && "MT"@[0] == 'M' && "MT"@[1] == 'T');
        reveal_strlit("MA");
        assert("MA"@.len() == 2 && "MA"@[0] == 'M' && "MA"@[1] == 'A');
        reveal_strlit("MM");
        assert("MM"@.len() == 2 && "MM"@[0] == 'M' && "MM"@[1] == 'M');
        reveal_strlit("ME");
        assert("ME"@.len() == 2 && "ME"@[0] == 'M' && "ME"@[1] == 'E');
        reveal_strlit("AD");
        assert("AD"@.len() == 2 && "AD"@[0] == 'A' && "AD"@[1] == 'D');
        reveal_strlit("PD");
        assert("PD"@.len() == 2 && "PD"@[0] == 'P' && "PD"@[1] == 'D');
        reveal_strlit("FD");
        assert("FD"@.len() == 2 && "FD"@[0] == 'F' && "FD"@[1] == 'D');
        reveal_strlit("DD");
        assert("DD"@.len() == 2 && "DD"@[0] == 'D' && "DD"@[1] == 'D');
        reveal_strlit("PA");
        assert("PA"@.len() == 2 && "PA"@[0] == 'P' && "PA"@[1] == 'A');
    }
    assert forall|c: Seq<char>| #[trigger] int_param_named(c) is Some implies arity_of(c) == Some(Arity::AtLeastOne) by {
        reveal_strlit("A");
        assert("A"@.len() == 1 && "A"@[0] == 'A');
        reveal_strlit("B");
        assert("B"@.len() == 1 && "B"@[0] == 'B');
        reveal_strlit("C");
        assert("C"@.len() == 1 && "C"@[0] == 'C');
        reveal_strlit("D");
        assert("D"@.len() == 1 && "D"@[0] == 'D');
        reveal_strlit("I");
        assert("I"@.len() == 1 && "I"@[0] == 'I');
        reveal_strlit("X");
        assert("X"@.len() == 1 && "X"@[0] == 'X');
        reveal_strlit("Y");
        assert("Y"@.len() == 1 && "Y"@[0] == 'Y');
        reveal_strlit("Z");
        assert("Z"@.len() == 1 && "Z"@[0] == 'Z');
        reveal_strlit("T");
        assert("T"@.len() == 1 && "T"@[0] == 'T');
        reveal_strlit("J");
        assert("J"@.len() == 1 && "J"@[0] == 'J');
        reveal_strlit("K");
        assert("K"@.len() == 1 && "K"@[0] == 'K');
        reveal_strlit("P.HERE");
        assert("P.HERE"@.len() == 6 && "P.HERE"@[0] == 'P' && "P.HERE"@[1] == '.');
        reveal_strlit("P.NEXT");
        assert("P.NEXT"@.len() == 6 && "P.NEXT"@[0] == 'P' && "P.NEXT"@[1] == '.');
        reveal_strlit("P.PREV");
        assert("P.PREV"@.len() == 6 && "P.PREV"@[0] == 'P' && "P.PREV"@[1] == '.');
        reveal_strlit("P.N");
        assert("P.N"@.len() == 3 && "P.N"@[0] == 'P' && "P.N"@[1] == '.');
        reveal_strlit("P.L");
        assert("P.L"@.len() == 3 && "P.L"@[0] == 'P' && "P.L"@[1] == '.');
        reveal_strlit("P.I");
        assert("P.I"@.len() == 3 && "P.I"@[0] == 'P' && "P.I"@[1] == '.');
        reveal_strlit("P");
        assert("P"@.len() == 1 && "P"@[0] == 'P');
        reveal_strlit("PN.HERE");
        assert("PN.HERE"@.len() == 7 && "PN.HERE"@[0] == 'P' && "PN.HERE"@[1] == 'N');
        reveal_strlit("PN.NEXT");
        assert("PN.NEXT"@.len() == 7 && "PN.NEXT"@[0] == 'P' && "PN.NEXT"@[1] == 'N');
        reveal_strlit("PN.PREV");
        assert("PN.PREV"@.len() == 7 && "PN.PREV"@[0] == 'P' && "PN.PREV"@[1] == 'N');
        reveal_strlit("PN.L");
        assert("PN.L"@.len() == 4 && "PN.L"@[0] == 'P' && "PN.L"@[1] == 'N');
        reveal_strlit("PN.I");
        assert("PN.I"@.len() == 4 && "PN.I"@[0] == 'P' && "PN.I"@[1] == 'N');
        reveal_strlit("PN");
        assert("PN"@.len() == 2 && "PN"@[0] == 'P' && "PN"@[1] == 'N');
        reveal_strlit("ADD");
        assert("ADD"@.len() == 3 && "ADD"@[0] == 'A' && "ADD"@[1] == 'D');
        reveal_strlit("SUB");
        assert("SUB"@.len() == 3 && "SUB"@[0] == 'S' && "SUB"@[1] == 'U');
        reveal_strlit("MUL");
        assert("MUL"@.len() == 3 && "MUL"@[0] == 'M' && "MUL"@[1] == 'U');
        reveal_strlit("DIV");
        assert("DIV"@.len() == 3 && "DIV"@[0] == 'D' && "DIV"@[1] == 'I');
        reveal_strlit("MOD");
        assert("MOD"@.len() == 3 && "MOD"@[0] == 'M' && "MOD"@[1] == 'O');
        reveal_strlit("+");
        assert("+"@.len() == 1 && "+"@[0] == '+');
        reveal_strlit("-");
        assert("-"@.len() == 1 && "-"@[0] == '-');
        reveal_strlit("*");
        assert("*"@.len() == 1 && "*"@[0] == '*');
        reveal_strlit("/");
        assert("/"@.len() == 1 && "/"@[0] == '/');
        reveal_strlit("%");
        assert("%"@.len() == 1 && "%"@[0] == '%');
        reveal_strlit("RND");
        assert("RND"@.len() == 3 && "RND"@[0] == 'R' && "RND"@[1] == 'N');
        reveal_strlit("RRND");
        assert("RRND"@.len() == 4 && "RRND"@[0] == 'R' && "RRND"@[1] == 'R');
        reveal_strlit("TOSS");
        assert("TOSS"@.len() == 4 && "TOSS"@[0] == 'T' && "TOSS"@[1] == 'O');
        reveal_strlit("EITH");
        assert("EITH"@.len() == 4 && "EITH"@[0] == 'E' && "EITH"@[1] == 'I');
        reveal_strlit("N");
        assert("N"@.len() == 1 && "N"@[0] == 'N');
        reveal_strlit("EZ");
        assert("EZ"@.len() == 2 && "EZ"@[0] == 'E' && "EZ"@[1] == 'Z');
        reveal_strlit("NZ");
        assert("NZ"@.len() == 2 && "NZ"@[0] == 'N' && "NZ"@[1] == 'Z');
        reveal_strlit("EQ");
        assert("EQ"@.len() == 2 && "EQ"@[0] == 'E' && "EQ"@[1] == 'Q');
        reveal_strlit("NE");
        assert("NE"@.len() == 2 && "NE"@[0] == 'N' && "NE"@[1] == 'E');
        reveal_strlit("GT");
        assert("GT"@.len() == 2 && "GT"@[0] == 'G' && "GT"@[1] == 'T');
        reveal_strlit("LT");
        assert("LT"@.len() == 2 && "LT"@[0] == 'L' && "LT"@[1] == 'T');
        reveal_strlit("GTE");
        assert("GTE"@.len() == 3 && "GTE"@[0] == 'G' && "GTE"@[1] == 'T');
        reveal_strlit("LTE");
        assert("LTE"@.len() == 3 && "LTE"@[0] == 'L' && "LTE"@[1] == 'T');
        reveal_strlit("SCRIPT");
        assert("SCRIPT"@.len() == 6 && "SCRIPT"@[0] == 'S' && "SCRIPT"@[1] == 'C');
        reveal_strlit("SAVE");
        assert("SAVE"@.len() == 4 && "SAVE"@[0] == 'S' && "SAVE"@[1] == 'A');
        reveal_strlit("LOAD");
        assert("LOAD"@.len() == 4 && "LOAD"@[0] == 'L' && "LOAD"@[1] == 'O');
        reveal_strlit("DELETE");
        assert("DELETE"@.len() == 6 && "DELETE"@[0] == 'D' && "DELETE"@[1] == 'E');
        reveal_strlit("SCENES");
        assert("SCENES"@.len() == 6 && "SCENES"@[0] == 'S' && "SCENES"@[1] == 'C');
        reveal_strlit("THEME");
        assert("THEME"@.len() == 5 && "THEME"@[0] == 'T' && "THEME"@[1] == 'H');
        reveal_strlit("M");
        assert("M"@.len() == 1 && "M"@[0] == 'M');
        reveal_strlit("M.BPM");
        assert("M.BPM"@.len() == 5 && "M.BPM"@[0] == 'M' && "M.BPM"@[1] == '.');
        reveal_strlit("M.ACT");
        assert("M.ACT"@.len() == 5 && "M.ACT"@[0] == 'M' && "M.ACT"@[1] == '.');
        reveal_strlit("M.SCRIPT");
        assert("M.SCRIPT"@.len() == 8 && "M.SCRIPT"@[0] == 'M' && "M.SCRIPT"@[1] == '.');
        reveal_strlit("TR");
        assert("TR"@.len() == 2 && "TR"@[0] == 'T' && "TR"@[1] == 'R');
        reveal_strlit("RST");
        assert("RST"@.len() == 3 && "RST"@[0] == 'R' && "RST"@[1] == 'S');
        reveal_strlit("HELP");
        assert("HELP"@.len() == 4 && "HELP"@[0] == 'H' && "HELP"@[1] == 'E');
        reveal_strlit("VOL");
        assert("VOL"@.len() == 3 && "VOL"@[0] == 'V' && "VOL"@[1] == 'O');
        reveal_strlit("PF");
        assert("PF"@.len() == 2 && "PF"@[0] == 'P' && "PF"@[1] == 'F');
        reveal_strlit("MF");
        assert("MF"@.len() == 2 && "MF"@[0] == 'M' && "MF"@[1] == 'F');
        reveal_strlit("PW");
        assert("PW"@.len() == 2 && "PW"@[0] == 'P' && "PW"@[1] == 'W');
        reveal_strlit("MW");
        assert("MW"@.len() == 2 && "MW"@[0] == 'M' && "MW"@[1] == 'W');
        reveal_strlit("DC");
        assert("DC"@.len() == 2 && "DC"@[0] == 'D' && "DC"@[1] == 'C');
        reveal_strlit("TK");
        assert("TK"@.len() == 2 && "TK"@[0] == 'T' && "TK"@[1] == 'K');
        reveal_strlit("MB");
        assert("MB"@.len() == 2 && "MB"@[0] == 'M' && "MB"@[1] == 'B');
        reveal_strlit("FM");
        assert("FM"@.len() == 2 && "FM"@[0] == 'F' && "FM"@[1] == 'M');
        reveal_strlit("MX");
        assert("MX"@.len() == 2 && "MX"@[0] == 'M' && "MX"@[1] == 'X');
        reveal_strlit("FA");
        assert("FA"@.len() == 2 && "FA"@[0] == 'F' && "FA"@[1] == 'A');
        reveal_strlit("DA");
        assert("DA"@.len() == 2 && "DA"@[0] == 'D' && "DA"@[1] == 'A');
        reveal_strlit("DM");
        assert("DM"@.len() == 2 && "DM"@[0] == 'D' && "DM"@[1] == 'M');
        reveal_strlit("MP");
        assert("MP"@.len() == 2 && "MP"@[0] == 'M' && "MP"@[1] == 'P');
        reveal_strlit("MD");
        assert("MD"@.len() == 2 && "MD"@[0] == 'M' && "MD"@[1] == 'D');
        reveal_strlit("MT");
        assert("MT"@.len() == 2 && "MT"@[0] == 'M' && "MT"@[1] == 'T');
        reveal_strlit("MA");
        assert("MA"@.len() == 2 && "MA"@[0] == 'M' && "MA"@[1] == 'A');
        reveal_strlit("MM");
        assert("MM"@.len() == 2 && "MM"@[0] == 'M' && "MM"@[1] == 'M');
        reveal_strlit("ME");
        assert("ME"@.len() == 2 && "ME"@[0] == 'M' && "ME"@[1] == 'E');
        reveal_strlit("AD");
        assert("AD"@.len() == 2 && "AD"@[0] == 'A' && "AD"@[1] == 'D');
        reveal_strlit("PD");
        assert("PD"@.len() == 2 && "PD"@[0] == 'P' && "PD"@[1] == 'D');
        reveal_strlit("FD");
        assert("FD"@.len() == 2 && "FD"@[0] == 'F' && "FD"@[1] == 'D');
        reveal_strlit("DD");
        assert("DD"@.len() == 2 && "DD"@[0] == 'D' && "DD"@[1] == 'D');
        reveal_strlit("PA");
        assert("PA"@.len() == 2 && "PA"@[0] == 'P' && "PA"@[1] == 'A');
    }
}

/// `VOL` takes exactly one argument, the volume: a `VOL` line is accepted
/// with one argument and refused with none or with more.
pub proof fn law_vol_takes_one_value(argc: int)
    ensures
        (argument_check("VOL"@, argc) is Ok) == (argc == 1),
        argc != 1 ==> argument_check("VOL"@, argc) == Err::<(), Seq<char>>("VOL"@ + " takes exactly 1 argument"@),
{
    lemma_table_words();
}

/// Every command that sets a whole-number synth parameter needs a value:
/// its line is accepted with one or more arguments and refused with none.
pub proof fn law_param_commands_need_a_value(c: Seq<char>, argc: int)
    requires
        int_param_named(c) is Some,
    ensures
        (argument_check(c, argc) is Ok) == (argc >= 1),
{
    lemma_table_words();
}

} // verus!
