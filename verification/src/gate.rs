//! GATE and the envelope gates (AENV.GATE, PENV.GATE, FMEV.GATE, DENV.GATE,
//! FBEV.GATE, FLEV.GATE): a gate time of 0 to 10000 ms for the metronome.
//!
//! A handler reads the argument. Where it evaluates to an integer, the
//! handler checks the range and says what to send; the caller sends it (in
//! seconds) and then has the confirmation printed. An argument that is no
//! integer is read by the caller as a decimal number.

use vstd::prelude::*;
use crate::args::{eval_expression, eval_token, tok};
use crate::console::{line, Console, OutputCategory};
use crate::text::{dec, push_int, push_str};

verus! {

/// Which gate a command sets.
#[derive(Clone, Copy, PartialEq, Eq, Debug, Structural)]
pub enum GateKind {
    Global,
    AmpEnv,
    PitchEnv,
    FmEnv,
    DcEnv,
    FeedbackEnv,
    FilterEnv,
}

/// What a gate command asks of its caller.
#[derive(Clone, Copy, PartialEq, Eq, Debug, Structural)]
pub enum GateStep {
    /// A message was printed; nothing is to be sent.
    Done,
    /// The argument evaluates to no integer: it is to be read as a decimal
    /// number of milliseconds.
    ReadNumber,
    /// Send a gate of this many milliseconds (0 to 10000).
    Send(i16),
}

/// The command's name.
pub open spec fn command_name(k: GateKind) -> Seq<char> {
    match k {
        GateKind::Global => "GATE"@,
        GateKind::AmpEnv => "AENV.GATE"@,
        GateKind::PitchEnv => "PENV.GATE"@,
        GateKind::FmEnv => "FMEV.GATE"@,
        GateKind::DcEnv => "DENV.GATE"@,
        GateKind::FeedbackEnv => "FBEV.GATE"@,
        GateKind::FilterEnv => "FLEV.GATE"@,
    }
}

/// The name that the range error uses.
pub open spec fn range_name(k: GateKind) -> Seq<char> {
    match k {
        GateKind::Global => "GATE"@,
        GateKind::AmpEnv => "AMP ENV GATE"@,
        GateKind::PitchEnv => "PITCH ENV GATE"@,
        GateKind::FmEnv => "FM ENV GATE"@,
        GateKind::DcEnv => "DC ENV GATE"@,
        GateKind::FeedbackEnv => "FEEDBACK ENV GATE"@,
        GateKind::FilterEnv => "FILTER ENV GATE"@,
    }
}

/// The name that the confirmation uses.
pub open spec fn set_name(k: GateKind) -> Seq<char> {
    match k {
        GateKind::Global => "GLOBAL GATE"@,
        GateKind::AmpEnv => "AMP ENV GATE"@,
        GateKind::PitchEnv => "PITCH ENV GATE"@,
        GateKind::FmEnv => "FM ENV GATE"@,
        GateKind::DcEnv => "DC ENV GATE"@,
        GateKind::FeedbackEnv => "FEEDBACK ENV GATE"@,
        GateKind::FilterEnv => "FILTER ENV GATE"@,
    }
}

/// The envelope that owns this gate; none for the global one.
pub open spec fn env_name_of(k: GateKind) -> Option<Seq<char>> {
    match k {
        GateKind::Global => None,
        GateKind::AmpEnv => Some("aenv"@),
        GateKind::PitchEnv => Some("penv"@),
        GateKind::FmEnv => Some("fmev"@),
        GateKind::DcEnv => Some("denv"@),
        GateKind::FeedbackEnv => Some("fbev"@),
        GateKind::FilterEnv => Some("flev"@),
    }
}

/// The error where the argument is not a number either.
pub open spec fn parse_error_of(k: GateKind) -> Seq<char> {
    match k {
        GateKind::Global => "Failed to parse gate time value"@,
        GateKind::AmpEnv => "Failed to parse amp env gate time"@,
        GateKind::PitchEnv => "Failed to parse pitch env gate time"@,
        GateKind::FmEnv => "Failed to parse FM env gate time"@,
        GateKind::DcEnv => "Failed to parse DC env gate time"@,
        GateKind::FeedbackEnv => "Failed to parse feedback env gate time"@,
        GateKind::FilterEnv => "Failed to parse filter env gate time"@,
    }
}

impl GateKind {
    pub fn command_name(&self) -> (s: &'static str)
        ensures
            s@ == command_name(*self),
    {
        match self {
            GateKind::Global => "GATE",
            GateKind::AmpEnv => "AENV.GATE",
            GateKind::PitchEnv => "PENV.GATE",
            GateKind::FmEnv => "FMEV.GATE",
            GateKind::DcEnv => "DENV.GATE",
            GateKind::FeedbackEnv => "FBEV.GATE",
            GateKind::FilterEnv => "FLEV.GATE",
        }
    }

    pub fn range_name(&self) -> (s: &'static str)
        ensures
            s@ == range_name(*self),
    {
        match self {
            GateKind::Global => "GATE",
            GateKind::AmpEnv => "AMP ENV GATE",
            GateKind::PitchEnv => "PITCH ENV GATE",
            GateKind::FmEnv => "FM ENV GATE",
            GateKind::DcEnv => "DC ENV GATE",
            GateKind::FeedbackEnv => "FEEDBACK ENV GATE",
            GateKind::FilterEnv => "FILTER ENV GATE",
        }
    }

    pub fn set_name(&self) -> (s: &'static str)
        ensures
            s@ == set_name(*self),
    {
        match self {
            GateKind::Global => "GLOBAL GATE",
            GateKind::AmpEnv => "AMP ENV GATE",
            GateKind::PitchEnv => "PITCH ENV GATE",
            GateKind::FmEnv => "FM ENV GATE",
            GateKind::DcEnv => "DC ENV GATE",
            GateKind::FeedbackEnv => "FEEDBACK ENV GATE",
            GateKind::FilterEnv => "FILTER ENV GATE",
        }
    }

    /// The envelope that owns this gate, as the metronome calls it.
    pub fn env_name(&self) -> (s: Option<&'static str>)
        ensures
            match s {
                Some(n) => env_name_of(*self) == Some(n@),
                None => env_name_of(*self) is None,
            },
    {
        match self {
            GateKind::Global => None,
            GateKind::AmpEnv => Some("aenv"),
            GateKind::PitchEnv => Some("penv"),
            GateKind::FmEnv => Some("fmev"),
            GateKind::DcEnv => Some("denv"),
            GateKind::FeedbackEnv => Some("fbev"),
            GateKind::FilterEnv => Some("flev"),
        }
    }

    /// The error for an argument that is not a number.
    pub fn parse_error(&self) -> (s: &'static str)
        ensures
            s@ == parse_error_of(*self),
    {
        match self {
            GateKind::Global => "Failed to parse gate time value",
            GateKind::AmpEnv => "Failed to parse amp env gate time",
            GateKind::PitchEnv => "Failed to parse pitch env gate time",
            GateKind::FmEnv => "Failed to parse FM env gate time",
            GateKind::DcEnv => "Failed to parse DC env gate time",
            GateKind::FeedbackEnv => "Failed to parse feedback env gate time",
            GateKind::FilterEnv => "Failed to parse filter env gate time",
        }
    }
}

/// The message that a gate time must lie in 0..=10000 ms.
pub open spec fn range_text(k: GateKind) -> Seq<char> {
    range_name(k) + " TIME 0-10000 MS"@
}

/// What a gate command does with the argument tokens `parts`.
pub open spec fn gate_done(
    k: GateKind,
    parts: Seq<&str>,
    r: GateStep,
    out_old: Seq<(OutputCategory, Seq<char>)>,
    out_new: Seq<(OutputCategory, Seq<char>)>,
) -> bool {
    if parts.len() < 2 {
        r == GateStep::Done && out_new == out_old.push(
            line(command_name(k) + " NEEDS TIME 0-10000 MS"@),
        )
    } else {
        match eval_token(tok(parts, 1)) {
            None => r == GateStep::ReadNumber && out_new == out_old,
            Some(ms) => if 0 <= ms <= 10000 {
                r == GateStep::Send(ms) && out_new == out_old
            } else {
                r == GateStep::Done && out_new == out_old.push(line(range_text(k)))
            },
        }
    }
}

fn gate_request(k: GateKind, parts: &[&str], out: &mut Console) -> (r: GateStep)
    ensures
        gate_done(k, parts@, r, old(out)@, final(out)@),
{
    if parts.len() < 2 {
        let mut s = String::from_str(k.command_name());
        push_str(&mut s, " NEEDS TIME 0-10000 MS");
        out.emit(OutputCategory::Always, s);
        return GateStep::Done;
    }
    match eval_expression(parts, 1) {
        None => GateStep::ReadNumber,
        Some((ms, _)) => {
            if 0 <= ms && ms <= 10000 {
                GateStep::Send(ms)
            } else {
                let mut s = String::from_str(k.range_name());
                push_str(&mut s, " TIME 0-10000 MS");
                out.emit(OutputCategory::Always, s);
                GateStep::Done
            }
        },
    }
}

/// The confirmation once a gate of `ms` milliseconds was sent: printed at
/// debug level 2 and above.
pub fn gate_confirmation(k: GateKind, ms: i16, debug_level: u8, out: &mut Console)
    ensures
        debug_level >= 2 ==> final(out)@ == old(out)@.push(
            line("SET "@ + set_name(k) + " TO "@ + dec(ms as int) + " MS"@),
        ),
        debug_level < 2 ==> final(out)@ == old(out)@,
{
    if debug_level >= 2 {
        let mut s = String::from_str("SET ");
        push_str(&mut s, k.set_name());
        push_str(&mut s, " TO ");
        push_int(&mut s, ms as i128);
        push_str(&mut s, " MS");
        out.emit(OutputCategory::Always, s);
    }
}

/// GATE ms: the global gate time.
pub fn handle_gate(parts: &[&str], out: &mut Console) -> (r: GateStep)
    ensures
        gate_done(GateKind::Global, parts@, r, old(out)@, final(out)@),
{
    gate_request(GateKind::Global, parts, out)
}

/// AENV.GATE ms: the amplitude envelope's gate time.
pub fn handle_aenv_gate(parts: &[&str], out: &mut Console) -> (r: GateStep)
    ensures
        gate_done(GateKind::AmpEnv, parts@, r, old(out)@, final(out)@),
{
    gate_request(GateKind::AmpEnv, parts, out)
}

/// PENV.GATE ms: the pitch envelope's gate time.
pub fn handle_penv_gate(parts: &[&str], out: &mut Console) -> (r: GateStep)
    ensures
        gate_done(GateKind::PitchEnv, parts@, r, old(out)@, final(out)@),
{
    gate_request(GateKind::PitchEnv, parts, out)
}

/// FMEV.GATE ms: the FM envelope's gate time.
pub fn handle_fmev_gate(parts: &[&str], out: &mut Console) -> (r: GateStep)
    ensures
        gate_done(GateKind::FmEnv, parts@, r, old(out)@, final(out)@),
{
    gate_request(GateKind::FmEnv, parts, out)
}

/// DENV.GATE ms: the discontinuity envelope's gate time.
pub fn handle_denv_gate(parts: &[&str], out: &mut Console) -> (r: GateStep)
    ensures
        gate_done(GateKind::DcEnv, parts@, r, old(out)@, final(out)@),
{
    gate_request(GateKind::DcEnv, parts, out)
}

/// FBEV.GATE ms: the feedback envelope's gate time.
pub fn handle_fbev_gate(parts: &[&str], out: &mut Console) -> (r: GateStep)
    ensures
        gate_done(GateKind::FeedbackEnv, parts@, r, old(out)@, final(out)@),
{
    gate_request(GateKind::FeedbackEnv, parts, out)
}

/// FLEV.GATE ms: the filter envelope's gate time.
pub fn handle_flev_gate(parts: &[&str], out: &mut Console) -> (r: GateStep)
    ensures
        gate_done(GateKind::FilterEnv, parts@, r, old(out)@, final(out)@),
{
    gate_request(GateKind::FilterEnv, parts, out)
}

} // verus!
