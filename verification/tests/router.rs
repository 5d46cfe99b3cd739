use monokit::gate::GateKind;
use monokit::router::{route_of, Command, FloatParam, MathOp, PatternOp};
use monokit::synth_params::IntParam;
use monokit::variables::VarName;

#[test]
fn command_words_route() {
    assert_eq!(route_of("A"), Some(Command::Variable(VarName::A)));
    assert_eq!(route_of("J"), Some(Command::ScriptJ));
    assert_eq!(route_of("P.PUSH"), Some(Command::Working(PatternOp::Push)));
    assert_eq!(route_of("PN.PUSH"), Some(Command::Explicit(PatternOp::Push)));
    assert_eq!(route_of("P"), Some(Command::PatternValue));
    assert_eq!(route_of("PN"), Some(Command::ExplicitValue));
    assert_eq!(route_of("N3"), Some(Command::Counter(2)));
    assert_eq!(route_of("N1.RST"), Some(Command::CounterReset(0)));
    assert_eq!(route_of("%"), Some(Command::Math(MathOp::Mod)));
    assert_eq!(route_of("DIV"), Some(Command::Math(MathOp::Div)));
    assert_eq!(route_of("FLEV.GATE"), Some(Command::Gate(GateKind::FilterEnv)));
    assert_eq!(route_of("DEL.CLR"), Some(Command::DelClr));
    assert_eq!(route_of("PW"), Some(Command::IntParam(IntParam::Pw)));
    assert_eq!(route_of("PF"), Some(Command::FloatParam(FloatParam::Pf)));
    assert_eq!(route_of("SCRIPT"), Some(Command::Script));
    assert_eq!(route_of("M.SCRIPT"), Some(Command::MetroScript));
}

#[test]
fn unknown_words_have_no_route() {
    assert_eq!(route_of("PN.N"), None);
    assert_eq!(route_of("a"), None);
    assert_eq!(route_of(""), None);
    assert_eq!(route_of("THEME"), None);
}
