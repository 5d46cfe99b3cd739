//! Whole-number synth parameters (PW, MW, DC, DM, TK, MB, MP, MD, MT, MA,
//! FM, AD, PD, FD, DD, MX, MM, ME, FA, DA) and the metronome settings M,
//! M.ACT and M.SCRIPT. A handler reads and checks the value and says what to
//! send to the sound engine or the metronome, with the line to print once it
//! is sent; a value that is missing or out of range is reported instead.

use vstd::prelude::*;
use crate::args::{eval_expression, eval_token, tok};
use crate::script_exec::ascii_lower;
use crate::console::{line, Console, OutputCategory};
use crate::text::{dec, parse_i32, parse_i32_token, parse_u64, parse_usize, parse_usize_token, push_int, push_str, str_chars, parse_u64_chars};

verus! {

/// A whole-number synth parameter.
#[derive(Clone, Copy, PartialEq, Eq, Debug, Structural)]
pub enum IntParam {
    Pw,
    Mw,
    Dc,
    Dm,
    Tk,
    Mb,
    Mp,
    Md,
    Mt,
    Ma,
    Fm,
    Ad,
    Pd,
    Fd,
    Dd,
    Mx,
    Mm,
    Me,
    Fa,
    Da,
}

/// What a parameter is called and how it is checked and reported.
pub struct ParamInfo {
    /// The engine's name for it.
    pub osc: Seq<char>,
    pub lo: i32,
    pub hi: i32,
    /// Printed when the value is missing.
    pub needs: Seq<char>,
    /// Printed when the value is out of range.
    pub range: Seq<char>,
    /// The error when the value is not a number.
    pub unreadable: Seq<char>,
    /// The confirmation, before the value.
    pub set: Seq<char>,
    /// The confirmation, after the value.
    pub unit: Seq<char>,
}

/// The table of parameters.
pub open spec fn param_info(p: IntParam) -> ParamInfo {
    match p {
        IntParam::Pw => ParamInfo {
            osc: "pw"@,
            lo: 0,
            hi: 2,
            needs: "ERROR: PW REQUIRES A WAVEFORM VALUE (0-2)"@,
            range: "ERROR: WAVEFORM MUST BE 0 (SIN), 1 (TRI), OR 2 (SAW)"@,
            unreadable: "Failed to parse waveform value"@,
            set: "SET PRIMARY WAVEFORM TO "@,
            unit: ""@,
        },
        IntParam::Mw => ParamInfo {
            osc: "mw"@,
            lo: 0,
            hi: 2,
            needs: "ERROR: MW REQUIRES A WAVEFORM VALUE (0-2)"@,
            range: "ERROR: WAVEFORM MUST BE 0 (SIN), 1 (TRI), OR 2 (SAW)"@,
            unreadable: "Failed to parse waveform value"@,
            set: "SET MOD WAVEFORM TO "@,
            unit: ""@,
        },
        IntParam::Dc => ParamInfo {
            osc: "dc"@,
            lo: 0,
            hi: 16383,
            needs: "ERROR: DC REQUIRES A VALUE (0-16383)"@,
            range: "ERROR: DISCONTINUITY AMOUNT MUST BE BETWEEN 0 AND 16383"@,
            unreadable: "Failed to parse discontinuity amount"@,
            set: "SET DISCONTINUITY AMOUNT TO "@,
            unit: ""@,
        },
        IntParam::Dm => ParamInfo {
            osc: "dm"@,
            lo: 0,
            hi: 2,
            needs: "ERROR: DM REQUIRES A MODE VALUE (0-2)"@,
            range: "ERROR: MODE MUST BE 0 (FOLD), 1 (TANH), OR 2 (SOFTCLIP)"@,
            unreadable: "Failed to parse discontinuity mode"@,
            set: "SET DISCONTINUITY MODE TO "@,
            unit: ""@,
        },
        IntParam::Tk => ParamInfo {
            osc: "tk"@,
            lo: 0,
            hi: 16383,
            needs: "ERROR: TK REQUIRES A VALUE (0-16383)"@,
            range: "ERROR: TRACKING AMOUNT MUST BE BETWEEN 0 AND 16383"@,
            unreadable: "Failed to parse tracking amount"@,
            set: "SET TRACKING AMOUNT TO "@,
            unit: ""@,
        },
        IntParam::Mb => ParamInfo {
            osc: "mb"@,
            lo: 0,
            hi: 16383,
            needs: "ERROR: MB REQUIRES A VALUE (0-16383)"@,
            range: "ERROR: MOD BUS AMOUNT MUST BE BETWEEN 0 AND 16383"@,
            unreadable: "Failed to parse mod bus amount"@,
            set: "SET MOD BUS AMOUNT TO "@,
            unit: ""@,
        },
        IntParam::Mp => ParamInfo {
            osc: "mp"@,
            lo: 0,
            hi: 1,
            needs: "ERROR: MP REQUIRES A VALUE (0 OR 1)"@,
            range: "ERROR: VALUE MUST BE 0 OR 1"@,
            unreadable: "Failed to parse mod -> primary value"@,
            set: "SET MOD -> PRIMARY FREQ TO "@,
            unit: ""@,
        },
        IntParam::Md => ParamInfo {
            osc: "md"@,
            lo: 0,
            hi: 1,
            needs: "ERROR: MD REQUIRES A VALUE (0 OR 1)"@,
            range: "ERROR: VALUE MUST BE 0 OR 1"@,
            unreadable: "Failed to parse mod -> discontinuity value"@,
            set: "SET MOD -> DISCONTINUITY TO "@,
            unit: ""@,
        },
        IntParam::Mt => ParamInfo {
            osc: "mt"@,
            lo: 0,
            hi: 1,
            needs: "ERROR: MT REQUIRES A VALUE (0 OR 1)"@,
            range: "ERROR: VALUE MUST BE 0 OR 1"@,
            unreadable: "Failed to parse mod -> tracking value"@,
            set: "SET MOD -> TRACKING TO "@,
            unit: ""@,
        },
        IntParam::Ma => ParamInfo {
            osc: "ma"@,
            lo: 0,
            hi: 1,
            needs: "ERROR: MA REQUIRES A VALUE (0 OR 1)"@,
            range: "ERROR: VALUE MUST BE 0 OR 1"@,
            unreadable: "Failed to parse mod -> amplitude value"@,
            set: "SET MOD -> AMPLITUDE TO "@,
            unit: ""@,
        },
        IntParam::Fm => ParamInfo {
            osc: "fm"@,
            lo: 0,
            hi: 16383,
            needs: "ERROR: FM REQUIRES A VALUE (0-16383)"@,
            range: "ERROR: FM INDEX MUST BE BETWEEN 0 AND 16383"@,
            unreadable: "Failed to parse FM index"@,
            set: "SET FM INDEX TO "@,
            unit: ""@,
        },
        IntParam::Ad => ParamInfo {
            osc: "ad"@,
            lo: 1,
            hi: 10000,
            needs: "ERROR: AD REQUIRES A TIME VALUE (1-10000 MS)"@,
            range: "ERROR: AMP DECAY MUST BE BETWEEN 1 AND 10000 MS"@,
            unreadable: "Failed to parse amp decay time"@,
            set: "SET AMP DECAY TO "@,
            unit: " MS"@,
        },
        IntParam::Pd => ParamInfo {
            osc: "pd"@,
            lo: 1,
            hi: 10000,
            needs: "ERROR: PD REQUIRES A TIME VALUE (1-10000 MS)"@,
            range: "ERROR: PITCH DECAY MUST BE BETWEEN 1 AND 10000 MS"@,
            unreadable: "Failed to parse pitch decay time"@,
            set: "SET PITCH DECAY TO "@,
            unit: " MS"@,
        },
        IntParam::Fd => ParamInfo {
            osc: "fd"@,
            lo: 1,
            hi: 10000,
            needs: "ERROR: FD REQUIRES A TIME VALUE (1-10000 MS)"@,
            range: "ERROR: FM DECAY MUST BE BETWEEN 1 AND 10000 MS"@,
            unreadable: "Failed to parse FM decay time"@,
            set: "SET FM DECAY TO "@,
            unit: " MS"@,
        },
        IntParam::Dd => ParamInfo {
            osc: "dd"@,
            lo: 1,
            hi: 10000,
            needs: "ERROR: DD REQUIRES A TIME VALUE (1-10000 MS)"@,
            range: "ERROR: DISCONTINUITY DECAY MUST BE BETWEEN 1 AND 10000 MS"@,
            unreadable: "Failed to parse discontinuity decay time"@,
            set: "SET DISCONTINUITY DECAY TO "@,
            unit: " MS"@,
        },
        IntParam::Mx => ParamInfo {
            osc: "mx"@,
            lo: 0,
            hi: 16383,
            needs: "ERROR: MX REQUIRES A VALUE (0-16383)"@,
            range: "ERROR: MIX AMOUNT MUST BE BETWEEN 0 AND 16383"@,
            unreadable: "Failed to parse mix amount"@,
            set: "SET MIX AMOUNT TO "@,
            unit: ""@,
        },
        IntParam::Mm => ParamInfo {
            osc: "mm"@,
            lo: 0,
            hi: 1,
            needs: "ERROR: MM REQUIRES A VALUE (0 OR 1)"@,
            range: "ERROR: VALUE MUST BE 0 OR 1"@,
            unreadable: "Failed to parse mod bus -> mix value"@,
            set: "SET MOD BUS -> MIX TO "@,
            unit: ""@,
        },
        IntParam::Me => ParamInfo {
            osc: "me"@,
            lo: 0,
            hi: 1,
            needs: "ERROR: ME REQUIRES A VALUE (0 OR 1)"@,
            range: "ERROR: VALUE MUST BE 0 OR 1"@,
            unreadable: "Failed to parse envelope -> mix value"@,
            set: "SET ENVELOPE -> MIX TO "@,
            unit: ""@,
        },
        IntParam::Fa => ParamInfo {
            osc: "fa"@,
            lo: 0,
            hi: 16383,
            needs: "ERROR: FA REQUIRES A VALUE (0-16383)"@,
            range: "ERROR: FM ENVELOPE AMOUNT MUST BE BETWEEN 0 AND 16383"@,
            unreadable: "Failed to parse FM envelope amount"@,
            set: "SET FM ENVELOPE AMOUNT TO "@,
            unit: ""@,
        },
        IntParam::Da => ParamInfo {
            osc: "da"@,
            lo: 0,
            hi: 16383,
            needs: "ERROR: DA REQUIRES A VALUE (0-16383)"@,
            range: "ERROR: DC ENVELOPE AMOUNT MUST BE BETWEEN 0 AND 16383"@,
            unreadable: "Failed to parse DC envelope amount"@,
            set: "SET DC ENVELOPE AMOUNT TO "@,
            unit: ""@,
        },
    }
}

/// The table of parameters, as text.
struct ParamText {
    osc: &'static str,
    lo: i32,
    hi: i32,
    needs: &'static str,
    range: &'static str,
    unreadable: &'static str,
    set: &'static str,
    unit: &'static str,
}

fn param_text(p: IntParam) -> (t: ParamText)
    ensures
        t.osc@ == param_info(p).osc,
        t.lo == param_info(p).lo,
        t.hi == param_info(p).hi,
        t.needs@ == param_info(p).needs,
        t.range@ == param_info(p).range,
        t.unreadable@ == param_info(p).unreadable,
        t.set@ == param_info(p).set,
        t.unit@ == param_info(p).unit,
{
    match p {
        IntParam::Pw => ParamText {
            osc: "pw",
            lo: 0,
            hi: 2,
            needs: "ERROR: PW REQUIRES A WAVEFORM VALUE (0-2)",
            range: "ERROR: WAVEFORM MUST BE 0 (SIN), 1 (TRI), OR 2 (SAW)",
            unreadable: "Failed to parse waveform value",
            set: "SET PRIMARY WAVEFORM TO ",
            unit: "",
        },
        IntParam::Mw => ParamText {
            osc: "mw",
            lo: 0,
            hi: 2,
            needs: "ERROR: MW REQUIRES A WAVEFORM VALUE (0-2)",
            range: "ERROR: WAVEFORM MUST BE 0 (SIN), 1 (TRI), OR 2 (SAW)",
            unreadable: "Failed to parse waveform value",
            set: "SET MOD WAVEFORM TO ",
            unit: "",
        },
        IntParam::Dc => ParamText {
            osc: "dc",
            lo: 0,
            hi: 16383,
            needs: "ERROR: DC REQUIRES A VALUE (0-16383)",
            range: "ERROR: DISCONTINUITY AMOUNT MUST BE BETWEEN 0 AND 16383",
            unreadable: "Failed to parse discontinuity amount",
            set: "SET DISCONTINUITY AMOUNT TO ",
            unit: "",
        },
        IntParam::Dm => ParamText {
            osc: "dm",
            lo: 0,
            hi: 2,
            needs: "ERROR: DM REQUIRES A MODE VALUE (0-2)",
            range: "ERROR: MODE MUST BE 0 (FOLD), 1 (TANH), OR 2 (SOFTCLIP)",
            unreadable: "Failed to parse discontinuity mode",
            set: "SET DISCONTINUITY MODE TO ",
            unit: "",
        },
        IntParam::Tk => ParamText {
            osc: "tk",
            lo: 0,
            hi: 16383,
            needs: "ERROR: TK REQUIRES A VALUE (0-16383)",
            range: "ERROR: TRACKING AMOUNT MUST BE BETWEEN 0 AND 16383",
            unreadable: "Failed to parse tracking amount",
            set: "SET TRACKING AMOUNT TO ",
            unit: "",
        },
        IntParam::Mb => ParamText {
            osc: "mb",
            lo: 0,
            hi: 16383,
            needs: "ERROR: MB REQUIRES A VALUE (0-16383)",
            range: "ERROR: MOD BUS AMOUNT MUST BE BETWEEN 0 AND 16383",
            unreadable: "Failed to parse mod bus amount",
            set: "SET MOD BUS AMOUNT TO ",
            unit: "",
        },
        IntParam::Mp => ParamText {
            osc: "mp",
            lo: 0,
            hi: 1,
            needs: "ERROR: MP REQUIRES A VALUE (0 OR 1)",
            range: "ERROR: VALUE MUST BE 0 OR 1",
            unreadable: "Failed to parse mod -> primary value",
            set: "SET MOD -> PRIMARY FREQ TO ",
            unit: "",
        },
        IntParam::Md => ParamText {
            osc: "md",
            lo: 0,
            hi: 1,
            needs: "ERROR: MD REQUIRES A VALUE (0 OR 1)",
            range: "ERROR: VALUE MUST BE 0 OR 1",
            unreadable: "Failed to parse mod -> discontinuity value",
            set: "SET MOD -> DISCONTINUITY TO ",
            unit: "",
        },
        IntParam::Mt => ParamText {
            osc: "mt",
            lo: 0,
            hi: 1,
            needs: "ERROR: MT REQUIRES A VALUE (0 OR 1)",
            range: "ERROR: VALUE MUST BE 0 OR 1",
            unreadable: "Failed to parse mod -> tracking value",
            set: "SET MOD -> TRACKING TO ",
            unit: "",
        },
        IntParam::Ma => ParamText {
            osc: "ma",
            lo: 0,
            hi: 1,
            needs: "ERROR: MA REQUIRES A VALUE (0 OR 1)",
            range: "ERROR: VALUE MUST BE 0 OR 1",
            unreadable: "Failed to parse mod -> amplitude value",
            set: "SET MOD -> AMPLITUDE TO ",
            unit: "",
        },
        IntParam::Fm => ParamText {
            osc: "fm",
            lo: 0,
            hi: 16383,
            needs: "ERROR: FM REQUIRES A VALUE (0-16383)",
            range: "ERROR: FM INDEX MUST BE BETWEEN 0 AND 16383",
            unreadable: "Failed to parse FM index",
            set: "SET FM INDEX TO ",
            unit: "",
        },
        IntParam::Ad => ParamText {
            osc: "ad",
            lo: 1,
            hi: 10000,
            needs: "ERROR: AD REQUIRES A TIME VALUE (1-10000 MS)",
            range: "ERROR: AMP DECAY MUST BE BETWEEN 1 AND 10000 MS",
            unreadable: "Failed to parse amp decay time",
            set: "SET AMP DECAY TO ",
            unit: " MS",
        },
        IntParam::Pd => ParamText {
            osc: "pd",
            lo: 1,
            hi: 10000,
            needs: "ERROR: PD REQUIRES A TIME VALUE (1-10000 MS)",
            range: "ERROR: PITCH DECAY MUST BE BETWEEN 1 AND 10000 MS",
            unreadable: "Failed to parse pitch decay time",
            set: "SET PITCH DECAY TO ",
            unit: " MS",
        },
        IntParam::Fd => ParamText {
            osc: "fd",
            lo: 1,
            hi: 10000,
            needs: "ERROR: FD REQUIRES A TIME VALUE (1-10000 MS)",
            range: "ERROR: FM DECAY MUST BE BETWEEN 1 AND 10000 MS",
            unreadable: "Failed to parse FM decay time",
            set: "SET FM DECAY TO ",
            unit: " MS",
        },
        IntParam::Dd => ParamText {
            osc: "dd",
            lo: 1,
            hi: 10000,
            needs: "ERROR: DD REQUIRES A TIME VALUE (1-10000 MS)",
            range: "ERROR: DISCONTINUITY DECAY MUST BE BETWEEN 1 AND 10000 MS",
            unreadable: "Failed to parse discontinuity decay time",
            set: "SET DISCONTINUITY DECAY TO ",
            unit: " MS",
        },
        IntParam::Mx => ParamText {
            osc: "mx",
            lo: 0,
            hi: 16383,
            needs: "ERROR: MX REQUIRES A VALUE (0-16383)",
            range: "ERROR: MIX AMOUNT MUST BE BETWEEN 0 AND 16383",
            unreadable: "Failed to parse mix amount",
            set: "SET MIX AMOUNT TO ",
            unit: "",
        },
        IntParam::Mm => ParamText {
            osc: "mm",
            lo: 0,
            hi: 1,
            needs: "ERROR: MM REQUIRES A VALUE (0 OR 1)",
            range: "ERROR: VALUE MUST BE 0 OR 1",
            unreadable: "Failed to parse mod bus -> mix value",
            set: "SET MOD BUS -> MIX TO ",
            unit: "",
        },
        IntParam::Me => ParamText {
            osc: "me",
            lo: 0,
            hi: 1,
            needs: "ERROR: ME REQUIRES A VALUE (0 OR 1)",
            range: "ERROR: VALUE MUST BE 0 OR 1",
            unreadable: "Failed to parse envelope -> mix value",
            set: "SET ENVELOPE -> MIX TO ",
            unit: "",
        },
        IntParam::Fa => ParamText {
            osc: "fa",
            lo: 0,
            hi: 16383,
            needs: "ERROR: FA REQUIRES A VALUE (0-16383)",
            range: "ERROR: FM ENVELOPE AMOUNT MUST BE BETWEEN 0 AND 16383",
            unreadable: "Failed to parse FM envelope amount",
            set: "SET FM ENVELOPE AMOUNT TO ",
            unit: "",
        },
        IntParam::Da => ParamText {
            osc: "da",
            lo: 0,
            hi: 16383,
            needs: "ERROR: DA REQUIRES A VALUE (0-16383)",
            range: "ERROR: DC ENVELOPE AMOUNT MUST BE BETWEEN 0 AND 16383",
            unreadable: "Failed to parse DC envelope amount",
            set: "SET DC ENVELOPE AMOUNT TO ",
            unit: "",
        },
    }
}

/// The parameter command `cmd` (in upper case), if it is one.
pub open spec fn int_param_named(cmd: Seq<char>) -> Option<IntParam> {
    if cmd == "PW"@ {
        Some(IntParam::Pw)
    } else if cmd == "MW"@ {
        Some(IntParam::Mw)
    } else if cmd == "DC"@ {
        Some(IntParam::Dc)
    } else if cmd == "DM"@ {
        Some(IntParam::Dm)
    } else if cmd == "TK"@ {
        Some(IntParam::Tk)
    } else if cmd == "MB"@ {
        Some(IntParam::Mb)
    } else if cmd == "MP"@ {
        Some(IntParam::Mp)
    } else if cmd == "MD"@ {
        Some(IntParam::Md)
    } else if cmd == "MT"@ {
        Some(IntParam::Mt)
    } else if cmd == "MA"@ {
        Some(IntParam::Ma)
    } else if cmd == "FM"@ {
        Some(IntParam::Fm)
    } else if cmd == "AD"@ {
        Some(IntParam::Ad)
    } else if cmd == "PD"@ {
        Some(IntParam::Pd)
    } else if cmd == "FD"@ {
        Some(IntParam::Fd)
    } else if cmd == "DD"@ {
        Some(IntParam::Dd)
    } else if cmd == "MX"@ {
        Some(IntParam::Mx)
    } else if cmd == "MM"@ {
        Some(IntParam::Mm)
    } else if cmd == "ME"@ {
        Some(IntParam::Me)
    } else if cmd == "FA"@ {
        Some(IntParam::Fa)
    } else if cmd == "DA"@ {
        Some(IntParam::Da)
    } else {
        None
    }
}

/// Which parameter command `cmd` (in upper case) is, if any.
pub fn int_param_of(cmd: &str) -> (r: Option<IntParam>)
    ensures
        r == int_param_named(cmd@),
{
    let c = String::from_str(cmd);
    if c == String::from_str("PW") {
        Some(IntParam::Pw)
    } else if c == String::from_str("MW") {
        Some(IntParam::Mw)
    } else if c == String::from_str("DC") {
        Some(IntParam::Dc)
    } else if c == String::from_str("DM") {
        Some(IntParam::Dm)
    } else if c == String::from_str("TK") {
        Some(IntParam::Tk)
    } else if c == String::from_str("MB") {
        Some(IntParam::Mb)
    } else if c == String::from_str("MP") {
        Some(IntParam::Mp)
    } else if c == String::from_str("MD") {
        Some(IntParam::Md)
    } else if c == String::from_str("MT") {
        Some(IntParam::Mt)
    } else if c == String::from_str("MA") {
        Some(IntParam::Ma)
    } else if c == String::from_str("FM") {
        Some(IntParam::Fm)
    } else if c == String::from_str("AD") {
        Some(IntParam::Ad)
    } else if c == String::from_str("PD") {
        Some(IntParam::Pd)
    } else if c == String::from_str("FD") {
        Some(IntParam::Fd)
    } else if c == String::from_str("DD") {
        Some(IntParam::Dd)
    } else if c == String::from_str("MX") {
        Some(IntParam::Mx)
    } else if c == String::from_str("MM") {
        Some(IntParam::Mm)
    } else if c == String::from_str("ME") {
        Some(IntParam::Me)
    } else if c == String::from_str("FA") {
        Some(IntParam::Fa)
    } else if c == String::from_str("DA") {
        Some(IntParam::Da)
    } else {
        None
    }
}

/// A whole-number argument: the evaluated value widened to `i32`, else the
/// token parsed as `i32`.
pub open spec fn i32_arg(t: Seq<char>) -> Option<i32> {
    match eval_token(t) {
        Some(v) => Some(v as i32),
        None => parse_i32(t),
    }
}

/// A parameter value to send to the sound engine, and the line to print once
/// it is sent.
pub struct ParamSet {
    pub osc: String,
    pub value: i32,
    pub confirmation: String,
}

/// The confirmation for setting `p` to `v`.
pub open spec fn param_confirmation(p: IntParam, v: i32) -> Seq<char> {
    param_info(p).set + dec(v as int) + param_info(p).unit
}

/// Handles the parameter command `p` with arguments `parts` (the command
/// first). A missing or out-of-range value is reported on `out` and nothing
/// is sent; a value that is not a number is an error.
pub fn handle_int_param(p: IntParam, parts: &[&str], out: &mut Console) -> (r: Result<Option<ParamSet>, String>)
    ensures
        parts@.len() < 2 ==> r == Ok::<Option<ParamSet>, String>(None) && final(out)@ == old(out)@.push(
            line(param_info(p).needs),
        ),
        parts@.len() >= 2 ==> match i32_arg(tok(parts@, 1)) {
            None => r matches Err(e) && e@ == param_info(p).unreadable && final(out)@ == old(out)@,
            Some(v) => if v < param_info(p).lo || v > param_info(p).hi {
                r == Ok::<Option<ParamSet>, String>(None) && final(out)@ == old(out)@.push(
                    line(param_info(p).range),
                )
            } else {
                r matches Ok(Some(s)) && s.osc@ == param_info(p).osc && s.value == v
                    && s.confirmation@ == param_confirmation(p, v) && final(out)@ == old(out)@
            },
        },
{
    let t = param_text(p);
    if parts.len() < 2 {
        out.emit_str(OutputCategory::Always, t.needs);
        return Ok(None);
    }
    let value: i32 = match eval_expression(parts, 1) {
        Some((v, _)) => v as i32,
        None => match parse_i32_token(parts[1]) {
            Some(v) => v,
            None => return Err(String::from_str(t.unreadable)),
        },
    };
    if value < t.lo || value > t.hi {
        out.emit_str(OutputCategory::Always, t.range);
        return Ok(None);
    }
    let mut confirmation = String::from_str(t.set);
    push_int(&mut confirmation, value as i128);
    push_str(&mut confirmation, t.unit);
    Ok(Some(ParamSet { osc: String::from_str(t.osc), value, confirmation }))
}

/// A metronome setting to hand to the metronome.
#[derive(Clone, Copy, PartialEq, Eq, Debug, Structural)]
pub enum MetroSetting {
    /// The tick interval, in milliseconds.
    Interval(u64),
    /// Whether the metronome runs.
    Active(bool),
    /// The script it calls on each tick, counted from 0.
    Script(usize),
}

/// A metronome setting and the line to print once it is handed over.
pub struct MetroChange {
    pub setting: MetroSetting,
    pub confirmation: String,
}

/// `M`: with no argument, prints the interval `interval`; with one, sets the
/// interval in milliseconds, which must be above 0.
pub fn handle_m(parts: &[&str], interval: u64, out: &mut Console) -> (r: Result<Option<MetroChange>, String>)
    requires
        parts@.len() >= 1,
    ensures
        parts@.len() == 1 ==> r == Ok::<Option<MetroChange>, String>(None) && final(out)@ == old(out)@.push(
            line("METRO INTERVAL: "@ + dec(interval as int) + "MS"@),
        ),
        parts@.len() > 1 ==> match parse_u64(tok(parts@, 1)) {
            None => r matches Err(e) && e@ == "Failed to parse interval as milliseconds"@ && final(out)@
                == old(out)@,
            Some(v) => if v == 0 {
                r == Ok::<Option<MetroChange>, String>(None) && final(out)@ == old(out)@.push(
                    line("ERROR: INTERVAL MUST BE GREATER THAN 0"@),
                )
            } else {
                r matches Ok(Some(c)) && c.setting == MetroSetting::Interval(v) && c.confirmation@
                    == "SET METRO INTERVAL TO "@ + dec(v as int) + "MS"@ && final(out)@ == old(out)@
            },
        },
{
    if parts.len() == 1 {
        let mut s = String::from_str("METRO INTERVAL: ");
        push_int(&mut s, interval as i128);
        push_str(&mut s, "MS");
        out.emit(OutputCategory::Always, s);
        return Ok(None);
    }
    let cs = str_chars(parts[1]);
    let value = match parse_u64_chars(cs.as_slice()) {
        Some(v) => v,
        None => return Err(String::from_str("Failed to parse interval as milliseconds")),
    };
    if value == 0 {
        out.emit_str(OutputCategory::Always, "ERROR: INTERVAL MUST BE GREATER THAN 0");
        return Ok(None);
    }
    let mut s = String::from_str("SET METRO INTERVAL TO ");
    push_int(&mut s, value as i128);
    push_str(&mut s, "MS");
    Ok(Some(MetroChange { setting: MetroSetting::Interval(value), confirmation: s }))
}

/// `M.ACT`: starts (1) or stops (0) the metronome.
pub fn handle_m_act(parts: &[&str], out: &mut Console) -> (r: Result<Option<MetroChange>, String>)
    ensures
        parts@.len() < 2 ==> r == Ok::<Option<MetroChange>, String>(None) && final(out)@ == old(out)@.push(
            line("ERROR: M.ACT REQUIRES 0 OR 1"@),
        ),
        parts@.len() >= 2 ==> match parse_i32(tok(parts@, 1)) {
            None => r matches Err(e) && e@ == "Failed to parse M.ACT value"@ && final(out)@ == old(out)@,
            Some(v) => if v < 0 || v > 1 {
                r == Ok::<Option<MetroChange>, String>(None) && final(out)@ == old(out)@.push(
                    line("ERROR: M.ACT VALUE MUST BE 0 OR 1"@),
                )
            } else {
                r matches Ok(Some(c)) && c.setting == MetroSetting::Active(v == 1) && c.confirmation@ == (
                if v == 1 {
                    "METRO ACTIVATED"@
                } else {
                    "METRO DEACTIVATED"@
                }) && final(out)@ == old(out)@
            },
        },
{
    if parts.len() < 2 {
        out.emit_str(OutputCategory::Always, "ERROR: M.ACT REQUIRES 0 OR 1");
        return Ok(None);
    }
    let value = match parse_i32_token(parts[1]) {
        Some(v) => v,
        None => return Err(String::from_str("Failed to parse M.ACT value")),
    };
    if value < 0 || value > 1 {
        out.emit_str(OutputCategory::Always, "ERROR: M.ACT VALUE MUST BE 0 OR 1");
        return Ok(None);
    }
    let active = value != 0;
    let confirmation = if active {
        String::from_str("METRO ACTIVATED")
    } else {
        String::from_str("METRO DEACTIVATED")
    };
    Ok(Some(MetroChange { setting: MetroSetting::Active(active), confirmation }))
}

/// `M.SCRIPT`: the script (1 to 8) the metronome calls on each tick.
pub fn handle_m_script(parts: &[&str], out: &mut Console) -> (r: Result<Option<MetroChange>, String>)
    ensures
        parts@.len() < 2 ==> r == Ok::<Option<MetroChange>, String>(None) && final(out)@ == old(out)@.push(
            line("ERROR: M.SCRIPT REQUIRES A SCRIPT NUMBER (1-8)"@),
        ),
        parts@.len() >= 2 ==> match parse_usize(tok(parts@, 1)) {
            None => r matches Err(e) && e@ == "Failed to parse script number"@ && final(out)@ == old(out)@,
            Some(v) => if v < 1 || v > 8 {
                r == Ok::<Option<MetroChange>, String>(None) && final(out)@ == old(out)@.push(
                    line("ERROR: M.SCRIPT VALUE MUST BE 1-8"@),
                )
            } else {
                r matches Ok(Some(c)) && c.setting == MetroSetting::Script((v - 1) as usize) && c.confirmation@
                    == "METRO WILL CALL SCRIPT "@ + dec(v as int) + " ON EACH TICK"@ && final(out)@ == old(out)@
            },
        },
{
    if parts.len() < 2 {
        out.emit_str(OutputCategory::Always, "ERROR: M.SCRIPT REQUIRES A SCRIPT NUMBER (1-8)");
        return Ok(None);
    }
    let value = match parse_usize_token(parts[1]) {
        Some(v) => v,
        None => return Err(String::from_str("Failed to parse script number")),
    };
    if value < 1 || value > 8 {
        out.emit_str(OutputCategory::Always, "ERROR: M.SCRIPT VALUE MUST BE 1-8");
        return Ok(None);
    }
    let mut s = String::from_str("METRO WILL CALL SCRIPT ");
    push_int(&mut s, value as i128);
    push_str(&mut s, " ON EACH TICK");
    Ok(Some(MetroChange { setting: MetroSetting::Script(value - 1), confirmation: s }))
}

/// The engine name of a parameter: its command word in lower case.
pub open spec fn lower_word(c: Seq<char>) -> Seq<char> {
    c.map_values(|x: char| ascii_lower(x))
}

/// Each parameter is sent to the sound engine under its own command word in
/// lower case (`MW` is sent as `mw`), so no two parameters share an engine
/// name.
pub proof fn law_params_send_under_their_own_names(c: Seq<char>, p: IntParam, q: IntParam)
    ensures
        int_param_named(c) == Some(p) ==> param_info(p).osc == lower_word(c),
        p != q ==> param_info(p).osc != param_info(q).osc,
{

    reveal_strlit("PW");
    assert("PW"@.len() == 2 && "PW"@[0] == 'P' && "PW"@[1] == 'W');
    reveal_strlit("pw");
    assert("pw"@.len() == 2 && "pw"@[0] == 'p' && "pw"@[1] == 'w');
    reveal_strlit("MW");
    assert("MW"@.len() == 2 && "MW"@[0] == 'M' && "MW"@[1] == 'W');
    reveal_strlit("mw");
    assert("mw"@.len() == 2 && "mw"@[0] == 'm' && "mw"@[1] == 'w');
    reveal_strlit("DC");
    assert("DC"@.len() == 2 && "DC"@[0] == 'D' && "DC"@[1] == 'C');
    reveal_strlit("dc");
    assert("dc"@.len() == 2 && "dc"@[0] == 'd' && "dc"@[1] == 'c');
    reveal_strlit("DM");
    assert("DM"@.len() == 2 && "DM"@[0] == 'D' && "DM"@[1] == 'M');
    reveal_strlit("dm");
    assert("dm"@.len() == 2 && "dm"@[0] == 'd' && "dm"@[1] == 'm');
    reveal_strlit("TK");
    assert("TK"@.len() == 2 && "TK"@[0] == 'T' && "TK"@[1] == 'K');
    reveal_strlit("tk");
    assert("tk"@.len() == 2 && "tk"@[0] == 't' && "tk"@[1] == 'k');
    reveal_strlit("MB");
    assert("MB"@.len() == 2 && "MB"@[0] == 'M' && "MB"@[1] == 'B');
    reveal_strlit("mb");
    assert("mb"@.len() == 2 && "mb"@[0] == 'm' && "mb"@[1] == 'b');
    reveal_strlit("MP");
    assert("MP"@.len() == 2 && "MP"@[0] == 'M' && "MP"@[1] == 'P');
    reveal_strlit("mp");
    assert("mp"@.len() == 2 && "mp"@[0] == 'm' && "mp"@[1] == 'p');
    reveal_strlit("MD");
    assert("MD"@.len() == 2 && "MD"@[0] == 'M' && "MD"@[1] == 'D');
    reveal_strlit("md");
    assert("md"@.len() == 2 && "md"@[0] == 'm' && "md"@[1] == 'd');
    reveal_strlit("MT");
    assert("MT"@.len() == 2 && "MT"@[0] == 'M' && "MT"@[1] == 'T');
    reveal_strlit("mt");
    assert("mt"@.len() == 2 && "mt"@[0] == 'm' && "mt"@[1] == 't');
    reveal_strlit("MA");
    assert("MA"@.len() == 2 && "MA"@[0] == 'M' && "MA"@[1] == 'A');
    reveal_strlit("ma");
    assert("ma"@.len() == 2 && "ma"@[0] == 'm' && "ma"@[1] == 'a');
    reveal_strlit("FM");
    assert("FM"@.len() == 2 && "FM"@[0] == 'F' && "FM"@[1] == 'M');
    reveal_strlit("fm");
    assert("fm"@.len() == 2 && "fm"@[0] == 'f' && "fm"@[1] == 'm');
    reveal_strlit("AD");
    assert("AD"@.len() == 2 && "AD"@[0] == 'A' && "AD"@[1] == 'D');
    reveal_strlit("ad");
    assert("ad"@.len() == 2 && "ad"@[0] == 'a' && "ad"@[1] == 'd');
    reveal_strlit("PD");
    assert("PD"@.len() == 2 && "PD"@[0] == 'P' && "PD"@[1] == 'D');
    reveal_strlit("pd");
    assert("pd"@.len() == 2 && "pd"@[0] == 'p' && "pd"@[1] == 'd');
    reveal_strlit("FD");
    assert("FD"@.len() == 2 && "FD"@[0] == 'F' && "FD"@[1] == 'D');
    reveal_strlit("fd");
    assert("fd"@.len() == 2 && "fd"@[0] == 'f' && "fd"@[1] == 'd');
    reveal_strlit("DD");
    assert("DD"@.len() == 2 && "DD"@[0] == 'D' && "DD"@[1] == 'D');
    reveal_strlit("dd");
    assert("dd"@.len() == 2 && "dd"@[0] == 'd' && "dd"@[1] == 'd');
    reveal_strlit("MX");
    assert("MX"@.len() == 2 && "MX"@[0] == 'M' && "MX"@[1] == 'X');
    reveal_strlit("mx");
    assert("mx"@.len() == 2 && "mx"@[0] == 'm' && "mx"@[1] == 'x');
    reveal_strlit("MM");
    assert("MM"@.len() == 2 && "MM"@[0] == 'M' && "MM"@[1] == 'M');
    reveal_strlit("mm");
    assert("mm"@.len() == 2 && "mm"@[0] == 'm' && "mm"@[1] == 'm');
    reveal_strlit("ME");
    assert("ME"@.len() == 2 && "ME"@[0] == 'M' && "ME"@[1] == 'E');
    reveal_strlit("me");
    assert("me"@.len() == 2 && "me"@[0] == 'm' && "me"@[1] == 'e');
    reveal_strlit("FA");
    assert("FA"@.len() == 2 && "FA"@[0] == 'F' && "FA"@[1] == 'A');
    reveal_strlit("fa");
    assert("fa"@.len() == 2 && "fa"@[0] == 'f' && "fa"@[1] == 'a');
    reveal_strlit("DA");
    assert("DA"@.len() == 2 && "DA"@[0] == 'D' && "DA"@[1] == 'A');
    reveal_strlit("da");
    assert("da"@.len() == 2 && "da"@[0] == 'd' && "da"@[1] == 'a');
    match p {
        IntParam::Pw => {
            if int_param_named(c) == Some(p) {
                assert(c == "PW"@);
                assert(lower_word(c) =~= "pw"@);
            }
        },
        IntParam::Mw => {
            if int_param_named(c) == Some(p) {
                assert(c == "MW"@);
                assert(lower_word(c) =~= "mw"@);
            }
        },
        IntParam::Dc => {
            if int_param_named(c) == Some(p) {
                assert(c == "DC"@);
                assert(lower_word(c) =~= "dc"@);
            }
        },
        IntParam::Dm => {
            if int_param_named(c) == Some(p) {
                assert(c == "DM"@);
                assert(lower_word(c) =~= "dm"@);
            }
        },
        IntParam::Tk => {
            if int_param_named(c) == Some(p) {
                assert(c == "TK"@);
                assert(lower_word(c) =~= "tk"@);
            }
        },
        IntParam::Mb => {
            if int_param_named(c) == Some(p) {
                assert(c == "MB"@);
                assert(lower_word(c) =~= "mb"@);
            }
        },
        IntParam::Mp => {
            if int_param_named(c) == Some(p) {
                assert(c == "MP"@);
                assert(lower_word(c) =~= "mp"@);
            }
        },
        IntParam::Md => {
            if int_param_named(c) == Some(p) {
                assert(c == "MD"@);
                assert(lower_word(c) =~= "md"@);
            }
        },
        IntParam::Mt => {
            if int_param_named(c) == Some(p) {
                assert(c == "MT"@);
                assert(lower_word(c) =~= "mt"@);
            }
        },
        IntParam::Ma => {
            if int_param_named(c) == Some(p) {
                assert(c == "MA"@);
                assert(lower_word(c) =~= "ma"@);
            }
        },
        IntParam::Fm => {
            if int_param_named(c) == Some(p) {
                assert(c == "FM"@);
                assert(lower_word(c) =~= "fm"@);
            }
        },
        IntParam::Ad => {
            if int_param_named(c) == Some(p) {
                assert(c == "AD"@);
                assert(lower_word(c) =~= "ad"@);
            }
        },
        IntParam::Pd => {
            if int_param_named(c) == Some(p) {
                assert(c == "PD"@);
                assert(lower_word(c) =~= "pd"@);
            }
        },
        IntParam::Fd => {
            if int_param_named(c) == Some(p) {
                assert(c == "FD"@);
                assert(lower_word(c) =~= "fd"@);
            }
        },
        IntParam::Dd => {
            if int_param_named(c) == Some(p) {
                assert(c == "DD"@);
                assert(lower_word(c) =~= "dd"@);
            }
        },
        IntParam::Mx => {
            if int_param_named(c) == Some(p) {
                assert(c == "MX"@);
                assert(lower_word(c) =~= "mx"@);
            }
        },
        IntParam::Mm => {
            if int_param_named(c) == Some(p) {
                assert(c == "MM"@);
                assert(lower_word(c) =~= "mm"@);
            }
        },
        IntParam::Me => {
            if int_param_named(c) == Some(p) {
                assert(c == "ME"@);
                assert(lower_word(c) =~= "me"@);
            }
        },
        IntParam::Fa => {
            if int_param_named(c) == Some(p) {
                assert(c == "FA"@);
                assert(lower_word(c) =~= "fa"@);
            }
        },
        IntParam::Da => {
            if int_param_named(c) == Some(p) {
                assert(c == "DA"@);
                assert(lower_word(c) =~= "da"@);
            }
        },
    }
}

} // verus!
