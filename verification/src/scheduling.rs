//! DEL, DEL.X, DEL.R and DEL.CLR: commands run later by the metronome.
//!
//! A line reads `DEL ms: command`, `DEL.X count ms: command` or
//! `DEL.R count ms: command`. A handler checks it and gives back what to
//! send to the metronome and the confirmation to print once that is sent;
//! where the line is wrong it prints why and gives back nothing.

use vstd::prelude::*;
use crate::args::{eval_token, i16_arg};
use crate::console::{line, Console, Output, OutputCategory};
use crate::text::{
    dec, find_char, find_char_index, parse_i16_chars, parse_u64, parse_u64_chars, push_int,
    push_str, split_ws, str_chars, string_from_chars, trim, trim_chars, views, words,
};

verus! {

/// A request to the metronome.
pub enum Scheduled {
    /// Run `command` once, `delay_ms` from now.
    Delayed { command: String, delay_ms: u64 },
    /// Run `command` `count` times, `interval_ms` apart.
    Repeated { command: String, count: i16, interval_ms: u64 },
    /// Forget every command still waiting.
    ClearAll,
}

/// A request, with its command as characters.
pub enum Request {
    Delayed(Seq<char>, u64),
    Repeated(Seq<char>, i16, u64),
    ClearAll,
}

impl View for Scheduled {
    type V = Request;

    open spec fn view(&self) -> Request {
        match self {
            Scheduled::Delayed { command, delay_ms } => Request::Delayed(command@, *delay_ms),
            Scheduled::Repeated { command, count, interval_ms } => Request::Repeated(
                command@,
                *count,
                *interval_ms,
            ),
            Scheduled::ClearAll => Request::ClearAll,
        }
    }
}

/// What to send, in order, and what to print once it is sent.
pub struct Schedule {
    pub sends: Vec<Scheduled>,
    pub confirmation: Output,
}

impl View for Schedule {
    type V = (Seq<Request>, (OutputCategory, Seq<char>));

    open spec fn view(&self) -> (Seq<Request>, (OutputCategory, Seq<char>)) {
        (
            self.sends@.map_values(|s: Scheduled| s@),
            (self.confirmation.category, self.confirmation.text@),
        )
    }
}

/// The words before the first colon of `input` and the trimmed text after
/// it; nothing where there is no colon.
pub open spec fn split_line(input: Seq<char>) -> Option<(Seq<Seq<char>>, Seq<char>)> {
    match find_char(input, ':') {
        None => None,
        Some(p) => Some((words(input.take(p)), trim(input.skip(p + 1)))),
    }
}

/// A time of 0 to 16000 ms read from `w`, or the error to print; `what` is
/// `DELAY TIME` or `INTERVAL`.
pub open spec fn read_ms(w: Seq<char>, negative: Seq<char>, too_long: Seq<char>, unreadable: Seq<char>) -> Result<u64, Seq<char>> {
    match eval_token(w) {
        Some(v) => if v < 0 {
            Err(negative)
        } else if v > 16000 {
            Err(too_long)
        } else {
            Ok(v as u64)
        },
        None => match parse_u64(w) {
            Some(v) => if v > 16000 {
                Err(too_long)
            } else {
                Ok(v)
            },
            None => Err(unreadable),
        },
    }
}

/// A repeat count of at least 1 read from `w`, or the error to print.
pub open spec fn read_count(w: Seq<char>) -> Result<i16, Seq<char>> {
    match i16_arg(w) {
        Some(v) => if v < 1 {
            Err("ERROR: COUNT MUST BE AT LEAST 1"@)
        } else {
            Ok(v)
        },
        None => Err("ERROR: FAILED TO PARSE COUNT"@),
    }
}

/// What `DEL ms: command` asks for, or the error to print.
pub open spec fn del_outcome(input: Seq<char>) -> Result<(Seq<Request>, Seq<char>), Seq<char>> {
    match split_line(input) {
        None => Err("ERROR: DEL REQUIRES FORMAT: DEL <ms>: <cmd>"@),
        Some((ws, cmd)) => if cmd.len() == 0 {
            Err("ERROR: DEL REQUIRES A COMMAND AFTER COLON"@)
        } else if ws.len() < 2 {
            Err("ERROR: DEL REQUIRES A DELAY TIME"@)
        } else {
            match read_ms(
                ws[1],
                "ERROR: DELAY TIME CANNOT BE NEGATIVE"@,
                "ERROR: DELAY TIME MAX 16000MS"@,
                "ERROR: FAILED TO PARSE DELAY TIME"@,
            ) {
                Err(e) => Err(e),
                Ok(ms) => Ok(
                    (seq![Request::Delayed(cmd, ms)], "DELAYED "@ + dec(ms as int) + "MS: "@ + cmd),
                ),
            }
        },
    }
}

/// The command, count and interval of `NAME count ms: command`, or the error
/// to print; `name` is `DEL.X` or `DEL.R`.
pub open spec fn repeat_parse(input: Seq<char>, name: Seq<char>) -> Result<(Seq<char>, i16, u64), Seq<char>> {
    match split_line(input) {
        None => Err("ERROR: "@ + name + " FORMAT: "@ + name + " N MS: CMD"@),
        Some((ws, cmd)) => if cmd.len() == 0 {
            Err("ERROR: "@ + name + " REQUIRES A COMMAND AFTER COLON"@)
        } else if ws.len() < 3 {
            Err("ERROR: "@ + name + " REQUIRES COUNT AND INTERVAL"@)
        } else {
            match read_count(ws[1]) {
                Err(e) => Err(e),
                Ok(count) => match read_ms(
                    ws[2],
                    "ERROR: INTERVAL CANNOT BE NEGATIVE"@,
                    "ERROR: INTERVAL MAX 16000MS"@,
                    "ERROR: FAILED TO PARSE INTERVAL"@,
                ) {
                    Err(e) => Err(e),
                    Ok(ms) => Ok((cmd, count, ms)),
                },
            }
        },
    }
}

/// What `DEL.X count ms: command` asks for, or the error to print.
pub open spec fn del_x_outcome(input: Seq<char>) -> Result<(Seq<Request>, Seq<char>), Seq<char>> {
    match repeat_parse(input, "DEL.X"@) {
        Err(e) => Err(e),
        Ok((cmd, count, ms)) => Ok(
            (
                seq![Request::Repeated(cmd, count, ms)],
                "REPEAT "@ + dec(count as int) + "x @"@ + dec(ms as int) + "MS: "@ + cmd,
            ),
        ),
    }
}

/// What `DEL.R count ms: command` asks for, or the error to print: the
/// command at once, then `count - 1` more times.
pub open spec fn del_r_outcome(input: Seq<char>) -> Result<(Seq<Request>, Seq<char>), Seq<char>> {
    match repeat_parse(input, "DEL.R"@) {
        Err(e) => Err(e),
        Ok((cmd, count, ms)) => if count > 1 {
            Ok(
                (
                    seq![Request::Delayed(cmd, 0), Request::Repeated(cmd, (count - 1) as i16, ms)],
                    "IMMEDIATE +"@ + dec(count - 1) + "x @"@ + dec(ms as int) + "MS: "@ + cmd,
                ),
            )
        } else {
            Ok((seq![Request::Delayed(cmd, 0)], "IMMEDIATE: "@ + cmd))
        },
    }
}

/// `r` and the printed lines are what `outcome` says, the confirmation in
/// the category `cat`.
pub open spec fn schedule_done(
    outcome: Result<(Seq<Request>, Seq<char>), Seq<char>>,
    cat: OutputCategory,
    r: Option<Schedule>,
    out_old: Seq<(OutputCategory, Seq<char>)>,
    out_new: Seq<(OutputCategory, Seq<char>)>,
) -> bool {
    match outcome {
        Err(e) => r is None && out_new == out_old.push(line(e)),
        Ok((reqs, text)) => out_new == out_old && match r {
            Some(s) => s@ == (reqs, (cat, text)),
            None => false,
        },
    }
}

/// The words before the first colon and the trimmed command after it.
fn split_input(input: &str) -> (r: Option<(Vec<Vec<char>>, Vec<char>)>)
    ensures
        match r {
            None => split_line(input@) is None,
            Some((ws, cmd)) => split_line(input@) == Some((views(ws@), cmd@)),
        },
{
    let cs = str_chars(input);
    match find_char_index(cs.as_slice(), ':') {
        None => None,
        Some(p) => {
            let n = cs.len();
            let mut before: Vec<char> = Vec::new();
            let mut i: usize = 0;
            while i < p
                invariant
                    n == cs@.len(),
                    i <= p < cs@.len(),
                    before@ == cs@.take(i as int),
                decreases p - i,
            {
                before.push(cs[i]);
                i = i + 1;
                proof {
                    assert(before@ =~= cs@.take(i as int));
                }
            }
            let mut after: Vec<char> = Vec::new();
            let mut j: usize = p + 1;
            while j < n
                invariant
                    n == cs@.len(),
                    p < j <= cs@.len(),
                    after@ == cs@.subrange(p + 1, j as int),
                decreases cs@.len() - j,
            {
                after.push(cs[j]);
                j = j + 1;
                proof {
                    assert(after@ =~= cs@.subrange(p + 1, j as int));
                }
            }
            proof {
                assert(after@ =~= cs@.skip(p + 1));
            }
            let ws = split_ws(before.as_slice());
            let cmd = trim_chars(after.as_slice());
            Some((ws, cmd))
        },
    }
}

/// Reads a time of 0 to 16000 ms.
fn ms_of(w: &[char], negative: &'static str, too_long: &'static str, unreadable: &'static str) -> (r: Result<u64, &'static str>)
    ensures
        match (r, read_ms(w@, negative@, too_long@, unreadable@)) {
            (Ok(a), Ok(b)) => a == b,
            (Err(a), Err(b)) => a@ == b,
            _ => false,
        },
{
    match parse_i16_chars(w) {
        Some(v) => {
            if v < 0 {
                Err(negative)
            } else if v > 16000 {
                Err(too_long)
            } else {
                Ok(v as u64)
            }
        },
        None => match parse_u64_chars(w) {
            Some(v) => {
                if v > 16000 {
                    Err(too_long)
                } else {
                    Ok(v)
                }
            },
            None => Err(unreadable),
        },
    }
}

/// Reads a repeat count of at least 1.
fn count_of(w: &[char]) -> (r: Result<i16, &'static str>)
    ensures
        match (r, read_count(w@)) {
            (Ok(a), Ok(b)) => a == b,
            (Err(a), Err(b)) => a@ == b,
            _ => false,
        },
{
    match parse_i16_chars(w) {
        Some(v) => {
            if v < 1 {
                Err("ERROR: COUNT MUST BE AT LEAST 1")
            } else {
                Ok(v)
            }
        },
        None => Err("ERROR: FAILED TO PARSE COUNT"),
    }
}

fn schedule(sends: Vec<Scheduled>, category: OutputCategory, text: String) -> (s: Schedule)
    ensures
        s@ == (sends@.map_values(|x: Scheduled| x@), (category, text@)),
{
    Schedule { sends, confirmation: Output { category, text } }
}

/// DEL ms: command — runs the command once, `ms` (0 to 16000) from now.
pub fn handle_del(input: &str, out: &mut Console) -> (r: Option<Schedule>)
    ensures
        schedule_done(del_outcome(input@), OutputCategory::ConfirmLevel, r, old(out)@, final(out)@),
{
    let (ws, cmd) = match split_input(input) {
        None => {
            out.emit_str(OutputCategory::Always, "ERROR: DEL REQUIRES FORMAT: DEL <ms>: <cmd>");
            return None;
        },
        Some(x) => x,
    };
    if cmd.len() == 0 {
        out.emit_str(OutputCategory::Always, "ERROR: DEL REQUIRES A COMMAND AFTER COLON");
        return None;
    }
    if ws.len() < 2 {
        out.emit_str(OutputCategory::Always, "ERROR: DEL REQUIRES A DELAY TIME");
        return None;
    }
    let ms = match ms_of(
        ws[1].as_slice(),
        "ERROR: DELAY TIME CANNOT BE NEGATIVE",
        "ERROR: DELAY TIME MAX 16000MS",
        "ERROR: FAILED TO PARSE DELAY TIME",
    ) {
        Err(e) => {
            out.emit_str(OutputCategory::Always, e);
            return None;
        },
        Ok(ms) => ms,
    };
    let command = string_from_chars(cmd.as_slice());
    let mut text = String::from_str("DELAYED ");
    push_int(&mut text, ms as i128);
    push_str(&mut text, "MS: ");
    push_str(&mut text, command.as_str());
    let mut sends: Vec<Scheduled> = Vec::new();
    sends.push(Scheduled::Delayed { command, delay_ms: ms });
    let s = schedule(sends, OutputCategory::ConfirmLevel, text);
    proof {
        assert(s@.0 =~= seq![Request::Delayed(cmd@, ms)]);
    }
    Some(s)
}

/// Reads `NAME count ms: command`, printing why where it is wrong.
fn read_repeat(input: &str, name: &str, out: &mut Console) -> (r: Option<(String, i16, u64)>)
    ensures
        match repeat_parse(input@, name@) {
            Err(e) => r is None && final(out)@ == old(out)@.push(line(e)),
            Ok((cmd, count, ms)) => final(out)@ == old(out)@ && match r {
                Some((c, n, m)) => c@ == cmd && n == count && m == ms,
                None => false,
            },
        },
{
    let (ws, cmd) = match split_input(input) {
        None => {
            let mut s = String::from_str("ERROR: ");
            push_str(&mut s, name);
            push_str(&mut s, " FORMAT: ");
            push_str(&mut s, name);
            push_str(&mut s, " N MS: CMD");
            out.emit(OutputCategory::Always, s);
            return None;
        },
        Some(x) => x,
    };
    if cmd.len() == 0 {
        let mut s = String::from_str("ERROR: ");
        push_str(&mut s, name);
        push_str(&mut s, " REQUIRES A COMMAND AFTER COLON");
        out.emit(OutputCategory::Always, s);
        return None;
    }
    if ws.len() < 3 {
        let mut s = String::from_str("ERROR: ");
        push_str(&mut s, name);
        push_str(&mut s, " REQUIRES COUNT AND INTERVAL");
        out.emit(OutputCategory::Always, s);
        return None;
    }
    let count = match count_of(ws[1].as_slice()) {
        Err(e) => {
            out.emit_str(OutputCategory::Always, e);
            return None;
        },
        Ok(c) => c,
    };
    let ms = match ms_of(
        ws[2].as_slice(),
        "ERROR: INTERVAL CANNOT BE NEGATIVE",
        "ERROR: INTERVAL MAX 16000MS",
        "ERROR: FAILED TO PARSE INTERVAL",
    ) {
        Err(e) => {
            out.emit_str(OutputCategory::Always, e);
            return None;
        },
        Ok(ms) => ms,
    };
    Some((string_from_chars(cmd.as_slice()), count, ms))
}

/// DEL.X count ms: command — runs the command `count` times, `ms` apart.
pub fn handle_del_x(input: &str, out: &mut Console) -> (r: Option<Schedule>)
    ensures
        schedule_done(del_x_outcome(input@), OutputCategory::ConfirmLevel, r, old(out)@, final(out)@),
{
    let (command, count, ms) = match read_repeat(input, "DEL.X", out) {
        None => return None,
        Some(x) => x,
    };
    let mut text = String::from_str("REPEAT ");
    push_int(&mut text, count as i128);
    push_str(&mut text, "x @");
    push_int(&mut text, ms as i128);
    push_str(&mut text, "MS: ");
    push_str(&mut text, command.as_str());
    let ghost c = command@;
    let mut sends: Vec<Scheduled> = Vec::new();
    sends.push(Scheduled::Repeated { command, count, interval_ms: ms });
    let s = schedule(sends, OutputCategory::ConfirmLevel, text);
    proof {
        assert(s@.0 =~= seq![Request::Repeated(c, count, ms)]);
    }
    Some(s)
}

/// DEL.R count ms: command — runs the command at once, then `count - 1`
/// more times, `ms` apart.
pub fn handle_del_r(input: &str, out: &mut Console) -> (r: Option<Schedule>)
    ensures
        schedule_done(del_r_outcome(input@), OutputCategory::ConfirmLevel, r, old(out)@, final(out)@),
{
    let (command, count, ms) = match read_repeat(input, "DEL.R", out) {
        None => return None,
        Some(x) => x,
    };
    let ghost c = command@;
    let mut sends: Vec<Scheduled> = Vec::new();
    if count > 1 {
        let mut text = String::from_str("IMMEDIATE +");
        push_int(&mut text, (count - 1) as i128);
        push_str(&mut text, "x @");
        push_int(&mut text, ms as i128);
        push_str(&mut text, "MS: ");
        push_str(&mut text, command.as_str());
        sends.push(Scheduled::Delayed { command: command.clone(), delay_ms: 0 });
        sends.push(Scheduled::Repeated { command, count: count - 1, interval_ms: ms });
        let s = schedule(sends, OutputCategory::ConfirmLevel, text);
        proof {
            assert(s@.0 =~= seq![Request::Delayed(c, 0), Request::Repeated(c, (count - 1) as i16, ms)]);
        }
        Some(s)
    } else {
        let mut text = String::from_str("IMMEDIATE: ");
        push_str(&mut text, command.as_str());
        sends.push(Scheduled::Delayed { command, delay_ms: 0 });
        let s = schedule(sends, OutputCategory::ConfirmLevel, text);
        proof {
            assert(s@.0 =~= seq![Request::Delayed(c, 0)]);
        }
        Some(s)
    }
}

/// DEL.CLR: forgets every waiting command.
pub fn handle_del_clr() -> (r: Schedule)
    ensures
        r@ == (seq![Request::ClearAll], (OutputCategory::Essential, "CLEARED ALL DELAYED COMMANDS"@)),
{
    let mut sends: Vec<Scheduled> = Vec::new();
    sends.push(Scheduled::ClearAll);
    let s = schedule(sends, OutputCategory::Essential, String::from_str("CLEARED ALL DELAYED COMMANDS"));
    proof {
        assert(s@.0 =~= seq![Request::ClearAll]);
    }
    s
}

} // verus!
