//! Which command a command word names. Command words are compared as they
//! are given (callers put them in upper case and resolve long names first);
//! a word that names no command has no route.

use vstd::prelude::*;
use crate::gate::GateKind;
use crate::synth_params::{int_param_named, int_param_of, IntParam};
use crate::variables::{var_label, VarName};

verus! {

/// A pattern operation, on the working pattern (`P.*`) or on a pattern named
/// by number (`PN.*`).
#[derive(Clone, Copy, PartialEq, Eq, Debug, Structural)]
pub enum PatternOp {
    N,
    L,
    I,
    Here,
    Next,
    Prev,
    Pop,
    Rev,
    Shuf,
    Sort,
    Min,
    Max,
    Sum,
    Avg,
    Push,
    Ins,
    Rm,
    Rot,
    Rnd,
    Add,
    Sub,
    Mul,
    Div,
    Mod,
    Scale,
    Fnd,
}

/// An arithmetic command.
#[derive(Clone, Copy, PartialEq, Eq, Debug, Structural)]
pub enum MathOp {
    Add,
    Sub,
    Mul,
    Div,
    Mod,
}

/// A synth parameter with a decimal value.
#[derive(Clone, Copy, PartialEq, Eq, Debug, Structural)]
pub enum FloatParam {
    /// `PF`: primary frequency.
    Pf,
    /// `MF`: modulator frequency.
    Mf,
    /// `PA`: pitch envelope amount.
    Pa,
}

/// A command, as the router tells them apart.
#[derive(Clone, Copy, PartialEq, Eq, Debug, Structural)]
pub enum Command {
    Variable(VarName),
    ScriptJ,
    ScriptK,
    Script,
    Trigger,
    Volume,
    Reset,
    Help,
    Metro,
    MetroBpm,
    MetroAct,
    MetroScript,
    FloatParam(FloatParam),
    IntParam(IntParam),
    Working(PatternOp),
    /// `P`: a step of the working pattern.
    PatternValue,
    Explicit(PatternOp),
    /// `PN`: a step of a pattern named by number.
    ExplicitValue,
    /// `N1` to `N4`, counted from 0.
    Counter(u8),
    CounterReset(u8),
    CounterMax(u8),
    CounterMin(u8),
    Math(MathOp),
    Rnd,
    Rrnd,
    Toss,
    Eith,
    Tog,
    QRoot,
    QScale,
    QBit,
    Sync,
    SyncSeq,
    SyncTog,
    SyncPat,
    RndP,
    RndPn,
    RndPall,
    RndFm,
    RndMod,
    RndVerb,
    RndVoice,
    RndOsc,
    RndEnv,
    RndFx,
    RndFilt,
    RndDly,
    RndPl,
    Gate(GateKind),
    Del,
    DelX,
    DelR,
    DelClr,
}

/// The commands of this group, by name.
pub open spec fn names_misc(cmd: Seq<char>) -> Option<Command> {
    if cmd == "A"@ {
        Some(Command::Variable(VarName::A))
    } else if cmd == "B"@ {
        Some(Command::Variable(VarName::B))
    } else if cmd == "C"@ {
        Some(Command::Variable(VarName::C))
    } else if cmd == "D"@ {
        Some(Command::Variable(VarName::D))
    } else if cmd == "X"@ {
        Some(Command::Variable(VarName::X))
    } else if cmd == "Y"@ {
        Some(Command::Variable(VarName::Y))
    } else if cmd == "Z"@ {
        Some(Command::Variable(VarName::Z))
    } else if cmd == "T"@ {
        Some(Command::Variable(VarName::T))
    } else if cmd == "I"@ {
        Some(Command::Variable(VarName::I))
    } else if cmd == "J"@ {
        Some(Command::ScriptJ)
    } else if cmd == "K"@ {
        Some(Command::ScriptK)
    } else if cmd == "SCRIPT"@ {
        Some(Command::Script)
    } else if cmd == "TR"@ {
        Some(Command::Trigger)
    } else if cmd == "VOL"@ {
        Some(Command::Volume)
    } else if cmd == "RST"@ {
        Some(Command::Reset)
    } else if cmd == "HELP"@ {
        Some(Command::Help)
    } else if cmd == "M"@ {
        Some(Command::Metro)
    } else if cmd == "M.BPM"@ {
        Some(Command::MetroBpm)
    } else if cmd == "M.ACT"@ {
        Some(Command::MetroAct)
    } else if cmd == "M.SCRIPT"@ {
        Some(Command::MetroScript)
    } else if cmd == "PF"@ {
        Some(Command::FloatParam(FloatParam::Pf))
    } else if cmd == "MF"@ {
        Some(Command::FloatParam(FloatParam::Mf))
    } else if cmd == "PA"@ {
        Some(Command::FloatParam(FloatParam::Pa))
    } else {
        None
    }
}

fn names_misc_of(c: &String) -> (r: Option<Command>)
    ensures
        r == names_misc(c@),
{
    if *c == String::from_str("A") {
        Some(Command::Variable(VarName::A))
    } else if *c == String::from_str("B") {
        Some(Command::Variable(VarName::B))
    } else if *c == String::from_str("C") {
        Some(Command::Variable(VarName::C))
    } else if *c == String::from_str("D") {
        Some(Command::Variable(VarName::D))
    } else if *c == String::from_str("X") {
        Some(Command::Variable(VarName::X))
    } else if *c == String::from_str("Y") {
        Some(Command::Variable(VarName::Y))
    } else if *c == String::from_str("Z") {
        Some(Command::Variable(VarName::Z))
    } else if *c == String::from_str("T") {
        Some(Command::Variable(VarName::T))
    } else if *c == String::from_str("I") {
        Some(Command::Variable(VarName::I))
    } else if *c == String::from_str("J") {
        Some(Command::ScriptJ)
    } else if *c == String::from_str("K") {
        Some(Command::ScriptK)
    } else if *c == String::from_str("SCRIPT") {
        Some(Command::Script)
    } else if *c == String::from_str("TR") {
        Some(Command::Trigger)
    } else if *c == String::from_str("VOL") {
        Some(Command::Volume)
    } else if *c == String::from_str("RST") {
        Some(Command::Reset)
    } else if *c == String::from_str("HELP") {
        Some(Command::Help)
    } else if *c == String::from_str("M") {
        Some(Command::Metro)
    } else if *c == String::from_str("M.BPM") {
        Some(Command::MetroBpm)
    } else if *c == String::from_str("M.ACT") {
        Some(Command::MetroAct)
    } else if *c == String::from_str("M.SCRIPT") {
        Some(Command::MetroScript)
    } else if *c == String::from_str("PF") {
        Some(Command::FloatParam(FloatParam::Pf))
    } else if *c == String::from_str("MF") {
        Some(Command::FloatParam(FloatParam::Mf))
    } else if *c == String::from_str("PA") {
        Some(Command::FloatParam(FloatParam::Pa))
    } else {
        None
    }
}

/// The commands of this group, by name.
pub open spec fn names_working(cmd: Seq<char>) -> Option<Command> {
    if cmd == "P.N"@ {
        Some(Command::Working(PatternOp::N))
    } else if cmd == "P.L"@ {
        Some(Command::Working(PatternOp::L))
    } else if cmd == "P.I"@ {
        Some(Command::Working(PatternOp::I))
    } else if cmd == "P.HERE"@ {
        Some(Command::Working(PatternOp::Here))
    } else if cmd == "P.NEXT"@ {
        Some(Command::Working(PatternOp::Next))
    } else if cmd == "P.PREV"@ {
        Some(Command::Working(PatternOp::Prev))
    } else if cmd == "P.POP"@ {
        Some(Command::Working(PatternOp::Pop))
    } else if cmd == "P.REV"@ {
        Some(Command::Working(PatternOp::Rev))
    } else if cmd == "P.SHUF"@ {
        Some(Command::Working(PatternOp::Shuf))
    } else if cmd == "P.SORT"@ {
        Some(Command::Working(PatternOp::Sort))
    } else if cmd == "P.MIN"@ {
        Some(Command::Working(PatternOp::Min))
    } else if cmd == "P.MAX"@ {
        Some(Command::Working(PatternOp::Max))
    } else if cmd == "P.SUM"@ {
        Some(Command::Working(PatternOp::Sum))
    } else if cmd == "P.AVG"@ {
        Some(Command::Working(PatternOp::Avg))
    } else if cmd == "P.PUSH"@ {
        Some(Command::Working(PatternOp::Push))
    } else if cmd == "P.INS"@ {
        Some(Command::Working(PatternOp::Ins))
    } else if cmd == "P.RM"@ {
        Some(Command::Working(PatternOp::Rm))
    } else if cmd == "P.ROT"@ {
        Some(Command::Working(PatternOp::Rot))
    } else if cmd == "P.RND"@ {
        Some(Command::Working(PatternOp::Rnd))
    } else if cmd == "P.ADD"@ {
        Some(Command::Working(PatternOp::Add))
    } else if cmd == "P.SUB"@ {
        Some(Command::Working(PatternOp::Sub))
    } else if cmd == "P.MUL"@ {
        Some(Command::Working(PatternOp::Mul))
    } else if cmd == "P.DIV"@ {
        Some(Command::Working(PatternOp::Div))
    } else if cmd == "P.MOD"@ {
        Some(Command::Working(PatternOp::Mod))
    } else if cmd == "P.SCALE"@ {
        Some(Command::Working(PatternOp::Scale))
    } else if cmd == "P.FND"@ {
        Some(Command::Working(PatternOp::Fnd))
    } else if cmd == "P"@ {
        Some(Command::PatternValue)
    } else {
        None
    }
}

fn names_working_of(c: &String) -> (r: Option<Command>)
    ensures
        r == names_working(c@),
{
    if *c == String::from_str("P.N") {
        Some(Command::Working(PatternOp::N))
    } else if *c == String::from_str("P.L") {
        Some(Command::Working(PatternOp::L))
    } else if *c == String::from_str("P.I") {
        Some(Command::Working(PatternOp::I))
    } else if *c == String::from_str("P.HERE") {
        Some(Command::Working(PatternOp::Here))
    } else if *c == String::from_str("P.NEXT") {
        Some(Command::Working(PatternOp::Next))
    } else if *c == String::from_str("P.PREV") {
        Some(Command::Working(PatternOp::Prev))
    } else if *c == String::from_str("P.POP") {
        Some(Command::Working(PatternOp::Pop))
    } else if *c == String::from_str("P.REV") {
        Some(Command::Working(PatternOp::Rev))
    } else if *c == String::from_str("P.SHUF") {
        Some(Command::Working(PatternOp::Shuf))
    } else if *c == String::from_str("P.SORT") {
        Some(Command::Working(PatternOp::Sort))
    } else if *c == String::from_str("P.MIN") {
        Some(Command::Working(PatternOp::Min))
    } else if *c == String::from_str("P.MAX") {
        Some(Command::Working(PatternOp::Max))
    } else if *c == String::from_str("P.SUM") {
        Some(Command::Working(PatternOp::Sum))
    } else if *c == String::from_str("P.AVG") {
        Some(Command::Working(PatternOp::Avg))
    } else if *c == String::from_str("P.PUSH") {
        Some(Command::Working(PatternOp::Push))
    } else if *c == String::from_str("P.INS") {
        Some(Command::Working(PatternOp::Ins))
    } else if *c == String::from_str("P.RM") {
        Some(Command::Working(PatternOp::Rm))
    } else if *c == String::from_str("P.ROT") {
        Some(Command::Working(PatternOp::Rot))
    } else if *c == String::from_str("P.RND") {
        Some(Command::Working(PatternOp::Rnd))
    } else if *c == String::from_str("P.ADD") {
        Some(Command::Working(PatternOp::Add))
    } else if *c == String::from_str("P.SUB") {
        Some(Command::Working(PatternOp::Sub))
    } else if *c == String::from_str("P.MUL") {
        Some(Command::Working(PatternOp::Mul))
    } else if *c == String::from_str("P.DIV") {
        Some(Command::Working(PatternOp::Div))
    } else if *c == String::from_str("P.MOD") {
        Some(Command::Working(PatternOp::Mod))
    } else if *c == String::from_str("P.SCALE") {
        Some(Command::Working(PatternOp::Scale))
    } else if *c == String::from_str("P.FND") {
        Some(Command::Working(PatternOp::Fnd))
    } else if *c == String::from_str("P") {
        Some(Command::PatternValue)
    } else {
        None
    }
}

/// The commands of this group, by name.
pub open spec fn names_explicit(cmd: Seq<char>) -> Option<Command> {
    if cmd == "PN.L"@ {
        Some(Command::Explicit(PatternOp::L))
    } else if cmd == "PN.I"@ {
        Some(Command::Explicit(PatternOp::I))
    } else if cmd == "PN.HERE"@ {
        Some(Command::Explicit(PatternOp::Here))
    } else if cmd == "PN.NEXT"@ {
        Some(Command::Explicit(PatternOp::Next))
    } else if cmd == "PN.PREV"@ {
        Some(Command::Explicit(PatternOp::Prev))
    } else if cmd == "PN.PUSH"@ {
        Some(Command::Explicit(PatternOp::Push))
    } else if cmd == "PN.POP"@ {
        Some(Command::Explicit(PatternOp::Pop))
    } else if cmd == "PN.INS"@ {
        Some(Command::Explicit(PatternOp::Ins))
    } else if cmd == "PN.RM"@ {
        Some(Command::Explicit(PatternOp::Rm))
    } else if cmd == "PN.REV"@ {
        Some(Command::Explicit(PatternOp::Rev))
    } else if cmd == "PN.ROT"@ {
        Some(Command::Explicit(PatternOp::Rot))
    } else if cmd == "PN.SHUF"@ {
        Some(Command::Explicit(PatternOp::Shuf))
    } else if cmd == "PN.SORT"@ {
        Some(Command::Explicit(PatternOp::Sort))
    } else if cmd == "PN.RND"@ {
        Some(Command::Explicit(PatternOp::Rnd))
    } else if cmd == "PN.ADD"@ {
        Some(Command::Explicit(PatternOp::Add))
    } else if cmd == "PN.SUB"@ {
        Some(Command::Explicit(PatternOp::Sub))
    } else if cmd == "PN.MUL"@ {
        Some(Command::Explicit(PatternOp::Mul))
    } else if cmd == "PN.DIV"@ {
        Some(Command::Explicit(PatternOp::Div))
    } else if cmd == "PN.MOD"@ {
        Some(Command::Explicit(PatternOp::Mod))
    } else if cmd == "PN.SCALE"@ {
        Some(Command::Explicit(PatternOp::Scale))
    } else if cmd == "PN.MIN"@ {
        Some(Command::Explicit(PatternOp::Min))
    } else if cmd == "PN.MAX"@ {
        Some(Command::Explicit(PatternOp::Max))
    } else if cmd == "PN.SUM"@ {
        Some(Command::Explicit(PatternOp::Sum))
    } else if cmd == "PN.AVG"@ {
        Some(Command::Explicit(PatternOp::Avg))
    } else if cmd == "PN.FND"@ {
        Some(Command::Explicit(PatternOp::Fnd))
    } else if cmd == "PN"@ {
        Some(Command::ExplicitValue)
    } else {
        None
    }
}

fn names_explicit_of(c: &String) -> (r: Option<Command>)
    ensures
        r == names_explicit(c@),
{
    if *c == String::from_str("PN.L") {
        Some(Command::Explicit(PatternOp::L))
    } else if *c == String::from_str("PN.I") {
        Some(Command::Explicit(PatternOp::I))
    } else if *c == String::from_str("PN.HERE") {
        Some(Command::Explicit(PatternOp::Here))
    } else if *c == String::from_str("PN.NEXT") {
        Some(Command::Explicit(PatternOp::Next))
    } else if *c == String::from_str("PN.PREV") {
        Some(Command::Explicit(PatternOp::Prev))
    } else if *c == String::from_str("PN.PUSH") {
        Some(Command::Explicit(PatternOp::Push))
    } else if *c == String::from_str("PN.POP") {
        Some(Command::Explicit(PatternOp::Pop))
    } else if *c == String::from_str("PN.INS") {
        Some(Command::Explicit(PatternOp::Ins))
    } else if *c == String::from_str("PN.RM") {
        Some(Command::Explicit(PatternOp::Rm))
    } else if *c == String::from_str("PN.REV") {
        Some(Command::Explicit(PatternOp::Rev))
    } else if *c == String::from_str("PN.ROT") {
        Some(Command::Explicit(PatternOp::Rot))
    } else if *c == String::from_str("PN.SHUF") {
        Some(Command::Explicit(PatternOp::Shuf))
    } else if *c == String::from_str("PN.SORT") {
        Some(Command::Explicit(PatternOp::Sort))
    } else if *c == String::from_str("PN.RND") {
        Some(Command::Explicit(PatternOp::Rnd))
    } else if *c == String::from_str("PN.ADD") {
        Some(Command::Explicit(PatternOp::Add))
    } else if *c == String::from_str("PN.SUB") {
        Some(Command::Explicit(PatternOp::Sub))
    } else if *c == String::from_str("PN.MUL") {
        Some(Command::Explicit(PatternOp::Mul))
    } else if *c == String::from_str("PN.DIV") {
        Some(Command::Explicit(PatternOp::Div))
    } else if *c == String::from_str("PN.MOD") {
        Some(Command::Explicit(PatternOp::Mod))
    } else if *c == String::from_str("PN.SCALE") {
        Some(Command::Explicit(PatternOp::Scale))
    } else if *c == String::from_str("PN.MIN") {
        Some(Command::Explicit(PatternOp::Min))
    } else if *c == String::from_str("PN.MAX") {
        Some(Command::Explicit(PatternOp::Max))
    } else if *c == String::from_str("PN.SUM") {
        Some(Command::Explicit(PatternOp::Sum))
    } else if *c == String::from_str("PN.AVG") {
        Some(Command::Explicit(PatternOp::Avg))
    } else if *c == String::from_str("PN.FND") {
        Some(Command::Explicit(PatternOp::Fnd))
    } else if *c == String::from_str("PN") {
        Some(Command::ExplicitValue)
    } else {
        None
    }
}

/// The commands of this group, by name.
pub open spec fn names_counting(cmd: Seq<char>) -> Option<Command> {
    if cmd == "N1"@ {
        Some(Command::Counter(0u8))
    } else if cmd == "N1.RST"@ {
        Some(Command::CounterReset(0u8))
    } else if cmd == "N1.MAX"@ {
        Some(Command::CounterMax(0u8))
    } else if cmd == "N1.MIN"@ {
        Some(Command::CounterMin(0u8))
    } else if cmd == "N2"@ {
        Some(Command::Counter(1u8))
    } else if cmd == "N2.RST"@ {
        Some(Command::CounterReset(1u8))
    } else if cmd == "N2.MAX"@ {
        Some(Command::CounterMax(1u8))
    } else if cmd == "N2.MIN"@ {
        Some(Command::CounterMin(1u8))
    } else if cmd == "N3"@ {
        Some(Command::Counter(2u8))
    } else if cmd == "N3.RST"@ {
        Some(Command::CounterReset(2u8))
    } else if cmd == "N3.MAX"@ {
        Some(Command::CounterMax(2u8))
    } else if cmd == "N3.MIN"@ {
        Some(Command::CounterMin(2u8))
    } else if cmd == "N4"@ {
        Some(Command::Counter(3u8))
    } else if cmd == "N4.RST"@ {
        Some(Command::CounterReset(3u8))
    } else if cmd == "N4.MAX"@ {
        Some(Command::CounterMax(3u8))
    } else if cmd == "N4.MIN"@ {
        Some(Command::CounterMin(3u8))
    } else if cmd == "ADD"@ {
        Some(Command::Math(MathOp::Add))
    } else if cmd == "+"@ {
        Some(Command::Math(MathOp::Add))
    } else if cmd == "SUB"@ {
        Some(Command::Math(MathOp::Sub))
    } else if cmd == "-"@ {
        Some(Command::Math(MathOp::Sub))
    } else if cmd == "MUL"@ {
        Some(Command::Math(MathOp::Mul))
    } else if cmd == "*"@ {
        Some(Command::Math(MathOp::Mul))
    } else if cmd == "DIV"@ {
        Some(Command::Math(MathOp::Div))
    } else if cmd == "/"@ {
        Some(Command::Math(MathOp::Div))
    } else if cmd == "MOD"@ {
        Some(Command::Math(MathOp::Mod))
    } else if cmd == "%"@ {
        Some(Command::Math(MathOp::Mod))
    } else {
        None
    }
}

fn names_counting_of(c: &String) -> (r: Option<Command>)
    ensures
        r == names_counting(c@),
{
    if *c == String::from_str("N1") {
        Some(Command::Counter(0u8))
    } else if *c == String::from_str("N1.RST") {
        Some(Command::CounterReset(0u8))
    } else if *c == String::from_str("N1.MAX") {
        Some(Command::CounterMax(0u8))
    } else if *c == String::from_str("N1.MIN") {
        Some(Command::CounterMin(0u8))
    } else if *c == String::from_str("N2") {
        Some(Command::Counter(1u8))
    } else if *c == String::from_str("N2.RST") {
        Some(Command::CounterReset(1u8))
    } else if *c == String::from_str("N2.MAX") {
        Some(Command::CounterMax(1u8))
    } else if *c == String::from_str("N2.MIN") {
        Some(Command::CounterMin(1u8))
    } else if *c == String::from_str("N3") {
        Some(Command::Counter(2u8))
    } else if *c == String::from_str("N3.RST") {
        Some(Command::CounterReset(2u8))
    } else if *c == String::from_str("N3.MAX") {
        Some(Command::CounterMax(2u8))
    } else if *c == String::from_str("N3.MIN") {
        Some(Command::CounterMin(2u8))
    } else if *c == String::from_str("N4") {
        Some(Command::Counter(3u8))
    } else if *c == String::from_str("N4.RST") {
        Some(Command::CounterReset(3u8))
    } else if *c == String::from_str("N4.MAX") {
        Some(Command::CounterMax(3u8))
    } else if *c == String::from_str("N4.MIN") {
        Some(Command::CounterMin(3u8))
    } else if *c == String::from_str("ADD") {
        Some(Command::Math(MathOp::Add))
    } else if *c == String::from_str("+") {
        Some(Command::Math(MathOp::Add))
    } else if *c == String::from_str("SUB") {
        Some(Command::Math(MathOp::Sub))
    } else if *c == String::from_str("-") {
        Some(Command::Math(MathOp::Sub))
    } else if *c == String::from_str("MUL") {
        Some(Command::Math(MathOp::Mul))
    } else if *c == String::from_str("*") {
        Some(Command::Math(MathOp::Mul))
    } else if *c == String::from_str("DIV") {
        Some(Command::Math(MathOp::Div))
    } else if *c == String::from_str("/") {
        Some(Command::Math(MathOp::Div))
    } else if *c == String::from_str("MOD") {
        Some(Command::Math(MathOp::Mod))
    } else if *c == String::from_str("%") {
        Some(Command::Math(MathOp::Mod))
    } else {
        None
    }
}

/// The commands of this group, by name.
pub open spec fn names_other(cmd: Seq<char>) -> Option<Command> {
    if cmd == "RND"@ {
        Some(Command::Rnd)
    } else if cmd == "RRND"@ {
        Some(Command::Rrnd)
    } else if cmd == "TOSS"@ {
        Some(Command::Toss)
    } else if cmd == "EITH"@ {
        Some(Command::Eith)
    } else if cmd == "TOG"@ {
        Some(Command::Tog)
    } else if cmd == "Q.ROOT"@ {
        Some(Command::QRoot)
    } else if cmd == "Q.SCALE"@ {
        Some(Command::QScale)
    } else if cmd == "Q.BIT"@ {
        Some(Command::QBit)
    } else if cmd == "SYNC"@ {
        Some(Command::Sync)
    } else if cmd == "SYNC.SEQ"@ {
        Some(Command::SyncSeq)
    } else if cmd == "SYNC.TOG"@ {
        Some(Command::SyncTog)
    } else if cmd == "SYNC.PAT"@ {
        Some(Command::SyncPat)
    } else if cmd == "RND.P"@ {
        Some(Command::RndP)
    } else if cmd == "RND.PN"@ {
        Some(Command::RndPn)
    } else if cmd == "RND.PALL"@ {
        Some(Command::RndPall)
    } else if cmd == "RND.FM"@ {
        Some(Command::RndFm)
    } else if cmd == "RND.MOD"@ {
        Some(Command::RndMod)
    } else if cmd == "RND.VERB"@ {
        Some(Command::RndVerb)
    } else if cmd == "RND.VOICE"@ {
        Some(Command::RndVoice)
    } else if cmd == "RND.OSC"@ {
        Some(Command::RndOsc)
    } else if cmd == "RND.ENV"@ {
        Some(Command::RndEnv)
    } else if cmd == "RND.FX"@ {
        Some(Command::RndFx)
    } else if cmd == "RND.FILT"@ {
        Some(Command::RndFilt)
    } else if cmd == "RND.DLY"@ {
        Some(Command::RndDly)
    } else if cmd == "RND.PL"@ {
        Some(Command::RndPl)
    } else if cmd == "GATE"@ {
        Some(Command::Gate(GateKind::Global))
    } else if cmd == "AENV.GATE"@ {
        Some(Command::Gate(GateKind::AmpEnv))
    } else if cmd == "PENV.GATE"@ {
        Some(Command::Gate(GateKind::PitchEnv))
    } else if cmd == "FMEV.GATE"@ {
        Some(Command::Gate(GateKind::FmEnv))
    } else if cmd == "DENV.GATE"@ {
        Some(Command::Gate(GateKind::DcEnv))
    } else if cmd == "FBEV.GATE"@ {
        Some(Command::Gate(GateKind::FeedbackEnv))
    } else if cmd == "FLEV.GATE"@ {
        Some(Command::Gate(GateKind::FilterEnv))
    } else if cmd == "DEL"@ {
        Some(Command::Del)
    } else if cmd == "DEL.X"@ {
        Some(Command::DelX)
    } else if cmd == "DEL.R"@ {
        Some(Command::DelR)
    } else if cmd == "DEL.CLR"@ {
        Some(Command::DelClr)
    } else {
        None
    }
}

fn names_other_of(c: &String) -> (r: Option<Command>)
    ensures
        r == names_other(c@),
{
    if *c == String::from_str("RND") {
        Some(Command::Rnd)
    } else if *c == String::from_str("RRND") {
        Some(Command::Rrnd)
    } else if *c == String::from_str("TOSS") {
        Some(Command::Toss)
    } else if *c == String::from_str("EITH") {
        Some(Command::Eith)
    } else if *c == String::from_str("TOG") {
        Some(Command::Tog)
    } else if *c == String::from_str("Q.ROOT") {
        Some(Command::QRoot)
    } else if *c == String::from_str("Q.SCALE") {
        Some(Command::QScale)
    } else if *c == String::from_str("Q.BIT") {
        Some(Command::QBit)
    } else if *c == String::from_str("SYNC") {
        Some(Command::Sync)
    } else if *c == String::from_str("SYNC.SEQ") {
        Some(Command::SyncSeq)
    } else if *c == String::from_str("SYNC.TOG") {
        Some(Command::SyncTog)
    } else if *c == String::from_str("SYNC.PAT") {
        Some(Command::SyncPat)
    } else if *c == String::from_str("RND.P") {
        Some(Command::RndP)
    } else if *c == String::from_str("RND.PN") {
        Some(Command::RndPn)
    } else if *c == String::from_str("RND.PALL") {
        Some(Command::RndPall)
    } else if *c == String::from_str("RND.FM") {
        Some(Command::RndFm)
    } else if *c == String::from_str("RND.MOD") {
        Some(Command::RndMod)
    } else if *c == String::from_str("RND.VERB") {
        Some(Command::RndVerb)
    } else if *c == String::from_str("RND.VOICE") {
        Some(Command::RndVoice)
    } else if *c == String::from_str("RND.OSC") {
        Some(Command::RndOsc)
    } else if *c == String::from_str("RND.ENV") {
        Some(Command::RndEnv)
    } else if *c == String::from_str("RND.FX") {
        Some(Command::RndFx)
    } else if *c == String::from_str("RND.FILT") {
        Some(Command::RndFilt)
    } else if *c == String::from_str("RND.DLY") {
        Some(Command::RndDly)
    } else if *c == String::from_str("RND.PL") {
        Some(Command::RndPl)
    } else if *c == String::from_str("GATE") {
        Some(Command::Gate(GateKind::Global))
    } else if *c == String::from_str("AENV.GATE") {
        Some(Command::Gate(GateKind::AmpEnv))
    } else if *c == String::from_str("PENV.GATE") {
        Some(Command::Gate(GateKind::PitchEnv))
    } else if *c == String::from_str("FMEV.GATE") {
        Some(Command::Gate(GateKind::FmEnv))
    } else if *c == String::from_str("DENV.GATE") {
        Some(Command::Gate(GateKind::DcEnv))
    } else if *c == String::from_str("FBEV.GATE") {
        Some(Command::Gate(GateKind::FeedbackEnv))
    } else if *c == String::from_str("FLEV.GATE") {
        Some(Command::Gate(GateKind::FilterEnv))
    } else if *c == String::from_str("DEL") {
        Some(Command::Del)
    } else if *c == String::from_str("DEL.X") {
        Some(Command::DelX)
    } else if *c == String::from_str("DEL.R") {
        Some(Command::DelR)
    } else if *c == String::from_str("DEL.CLR") {
        Some(Command::DelClr)
    } else {
        None
    }
}

/// The command the word `cmd` names, if any.
pub open spec fn command_named(cmd: Seq<char>) -> Option<Command> {
    if names_misc(cmd) is Some {
        names_misc(cmd)
    } else if names_working(cmd) is Some {
        names_working(cmd)
    } else if names_explicit(cmd) is Some {
        names_explicit(cmd)
    } else if names_counting(cmd) is Some {
        names_counting(cmd)
    } else if names_other(cmd) is Some {
        names_other(cmd)
    } else {
        match int_param_named(cmd) {
            Some(p) => Some(Command::IntParam(p)),
            None => None,
        }
    }
}

/// The command the word `cmd` names, if any.
pub fn route_of(cmd: &str) -> (r: Option<Command>)
    ensures
        r == command_named(cmd@),
{
    let c = String::from_str(cmd);
    let r = names_misc_of(&c);
    if r.is_some() {
        return r;
    }
    let r = names_working_of(&c);
    if r.is_some() {
        return r;
    }
    let r = names_explicit_of(&c);
    if r.is_some() {
        return r;
    }
    let r = names_counting_of(&c);
    if r.is_some() {
        return r;
    }
    let r = names_other_of(&c);
    if r.is_some() {
        return r;
    }
    match int_param_of(cmd) {
        Some(p) => Some(Command::IntParam(p)),
        None => None,
    }
}

/// Each variable's command word names that variable: the word is the
/// variable's own label, and the command sets or reads that variable and no
/// other.
pub proof fn law_variables_route_to_themselves(n: VarName)
    ensures
        command_named(var_label(n)) == Some(Command::Variable(n)),
{
    reveal_strlit("A");
    assert("A"@[0] == 'A');
    reveal_strlit("B");
    assert("B"@[0] == 'B');
    reveal_strlit("C");
    assert("C"@[0] == 'C');
    reveal_strlit("D");
    assert("D"@[0] == 'D');
    reveal_strlit("X");
    assert("X"@[0] == 'X');
    reveal_strlit("Y");
    assert("Y"@[0] == 'Y');
    reveal_strlit("Z");
    assert("Z"@[0] == 'Z');
    reveal_strlit("T");
    assert("T"@[0] == 'T');
    reveal_strlit("I");
    assert("I"@[0] == 'I');
}

} // verus!
