use monokit::console::{Console, OutputCategory};
use monokit::gate::{gate_confirmation, handle_aenv_gate, handle_flev_gate, handle_gate, GateKind, GateStep};
use monokit::math_ops::{handle_add, handle_div, handle_mod, handle_mul, handle_sub};
use monokit::random_ops::{handle_eith, handle_rnd, handle_rrnd, handle_tog, handle_toss};
use monokit::scale::{
    get_preset_mask, handle_q_bit, handle_q_root, handle_q_scale, parse_binary_mask, SCALE_MAJOR,
};
use monokit::scheduling::{handle_del, handle_del_clr, handle_del_r, handle_del_x, Scheduled};
use monokit::state::{Counters, PatternStorage, ScaleState, ScriptVars, Variables};
use monokit::sync::{handle_sync, handle_sync_pat, handle_sync_seq, handle_sync_tog};
use monokit::variables::{handle_variable_a, handle_variable_i, handle_variable_j, handle_variable_t};

fn texts(c: &Console) -> Vec<String> {
    c.lines.iter().map(|o| o.text.clone()).collect()
}

#[test]
fn math_on_two_operands() {
    let mut out = Console::new();
    handle_add(&["ADD", "30000", "30000"], &mut out);
    handle_sub(&["SUB", "3", "10"], &mut out);
    handle_mul(&["MUL", "-200", "300"], &mut out);
    handle_div(&["DIV", "-7", "2"], &mut out);
    handle_mod(&["MOD", "-7", "2"], &mut out);
    handle_div(&["DIV", "1", "0"], &mut out);
    handle_mod(&["MOD", "1", "0"], &mut out);
    handle_add(&["ADD"], &mut out);
    handle_add(&["ADD", "x", "1"], &mut out);
    handle_add(&["ADD", "1"], &mut out);
    assert_eq!(
        texts(&out),
        vec![
            "32767",
            "-7",
            "-32768",
            "-3",
            "-1",
            "ERROR: DIVISION BY ZERO",
            "ERROR: MODULO BY ZERO",
            "ERROR: ADD REQUIRES TWO OPERANDS",
            "ERROR: FAILED TO EVALUATE FIRST OPERAND",
            "ERROR: FAILED TO EVALUATE SECOND OPERAND",
        ]
    );
}

fn scale_state() -> ScaleState {
    ScaleState { root: 0, divisions: 12, mask: get_preset_mask(0), scale_preset: Some(0) }
}

#[test]
fn preset_masks_follow_their_bits() {
    let m = get_preset_mask(1);
    let want: Vec<bool> = (0..12).map(|i| (SCALE_MAJOR >> i) & 1 == 1).collect();
    assert_eq!(m, want);
    assert_eq!(get_preset_mask(0), vec![true; 12]);
    assert_eq!(get_preset_mask(200), want);
}

#[test]
fn binary_masks() {
    assert_eq!(parse_binary_mask("1010"), Some(vec![true, false, true, false]));
    assert_eq!(parse_binary_mask(""), None);
    assert_eq!(parse_binary_mask("10a1"), None);
}

#[test]
fn quantizer_commands() {
    let mut sc = scale_state();
    let mut out = Console::new();
    handle_q_root(&["Q.ROOT", "3"], &mut sc, &mut out);
    handle_q_root(&["Q.ROOT", "12"], &mut sc, &mut out);
    handle_q_root(&["Q.ROOT"], &mut sc, &mut out);
    handle_q_scale(&["Q.SCALE", "2"], &mut sc, &mut out);
    handle_q_scale(&["Q.SCALE", "12"], &mut sc, &mut out);
    handle_q_bit(&["Q.BIT", "10101"], &mut sc, &mut out);
    handle_q_bit(&["Q.BIT", "102"], &mut sc, &mut out);
    assert_eq!(
        texts(&out),
        vec![
            "SET SCALE ROOT TO 3",
            "ERROR: Q.ROOT MUST BE 0-11",
            "ERROR: Q.ROOT REQUIRES A VALUE",
            "SET SCALE PRESET TO 2",
            "ERROR: Q.SCALE MUST BE 0-11",
            "SET CUSTOM SCALE MASK (5 DIVISIONS)",
            "ERROR: Q.BIT NEEDS BINARY STR (0,1)",
        ]
    );
    assert_eq!(out.lines[0].category, OutputCategory::EssentialLevel);
    assert_eq!(out.lines[1].category, OutputCategory::Always);
    assert_eq!(sc.root, 3);
    assert_eq!(sc.divisions, 5);
    assert_eq!(sc.scale_preset, None);
    assert_eq!(sc.mask, vec![true, false, true, false, true]);
}

#[test]
fn long_mask_divisions_wrap_as_u8() {
    let mut sc = scale_state();
    let mut out = Console::new();
    let long = "1".repeat(257);
    handle_q_bit(&["Q.BIT", long.as_str()], &mut sc, &mut out);
    assert_eq!(sc.divisions, 1);
    assert_eq!(sc.mask.len(), 257);
}

#[test]
fn sync_resets_state() {
    let mut ps = PatternStorage::new(8);
    ps.patterns[2].index = 5;
    ps.toggle_state.insert("seq_a".to_string(), 3);
    let mut c = Counters::new();
    c.values[1] = 9;
    c.min[1] = 2;
    let mut ev = [[7u32; 8]; 10];
    let mut out = Console::new();
    handle_sync(&mut ps, &mut c, &mut ev, &mut out);
    assert_eq!(ps.patterns[2].index, 0);
    assert_eq!(ps.toggle_state.get(&"seq_a".to_string()), None);
    assert_eq!(c.values, vec![0, 2, 0, 0]);
    assert!(ev.iter().all(|s| s.iter().all(|v| *v == 0)));
    assert_eq!(texts(&out), vec!["SYNC: ALL STATE RESET"]);
    assert_eq!(out.lines[0].category, OutputCategory::Confirm);
}

#[test]
fn sync_seq_and_tog_forget_their_keys() {
    let mut ps = PatternStorage::new(8);
    ps.toggle_state.insert("seq_1".to_string(), 1);
    ps.toggle_state.insert("cmd_0_X_TOG_Y".to_string(), 2);
    ps.toggle_state.insert("other".to_string(), 3);
    let mut out = Console::new();
    handle_sync_seq(&mut ps, &mut out);
    assert_eq!(ps.toggle_state.get(&"seq_1".to_string()), None);
    assert_eq!(ps.toggle_state.get(&"cmd_0_X_TOG_Y".to_string()), Some(2));
    handle_sync_tog(&mut ps, &mut out);
    assert_eq!(ps.toggle_state.get(&"cmd_0_X_TOG_Y".to_string()), None);
    assert_eq!(ps.toggle_state.get(&"other".to_string()), Some(3));
    ps.patterns[0].index = 3;
    handle_sync_pat(&mut ps, &mut out);
    assert_eq!(ps.patterns[0].index, 0);
    assert_eq!(
        texts(&out),
        vec!["SYNC.SEQ: SEQ STATE RESET", "SYNC.TOG: TOG/EITH STATE RESET", "SYNC.PAT: PATTERN INDICES RESET"]
    );
}

#[test]
fn tog_alternates_between_its_values() {
    let mut ps = PatternStorage::new(8);
    let mut out = Console::new();
    for _ in 0..3 {
        handle_tog(&["TOG", "4", "9"], 2, &mut ps, &mut out);
    }
    handle_tog(&["TOG", "4"], 2, &mut ps, &mut out);
    assert_eq!(texts(&out), vec!["4", "9", "4", "ERROR: TOG REQUIRES AT LEAST TWO VALUES"]);
    assert_eq!(ps.toggle_state.get(&"cmd_2_TOG_4_9".to_string()), Some(3));
}

#[test]
fn eith_picks_one_and_remembers() {
    let mut ps = PatternStorage::new(8);
    let mut out = Console::new();
    handle_eith(&["EITH", "4", "9"], 1, &mut ps, &mut out);
    let t = texts(&out);
    let stored = ps.toggle_state.get(&"cmd_1_EITH_4_9".to_string()).unwrap();
    assert!((t[0] == "4" && stored == 0) || (t[0] == "9" && stored == 1));
    handle_eith(&["EITH", "4"], 1, &mut ps, &mut out);
    assert_eq!(texts(&out)[1], "ERROR: FAILED TO EVALUATE SECOND VALUE");
}

#[test]
fn random_values_in_range() {
    let mut out = Console::new();
    handle_rnd(&["RND", "5"], &mut out).unwrap();
    handle_rnd(&["RND", "-5"], &mut out).unwrap();
    handle_rrnd(&["RRND", "9", "7"], &mut out).unwrap();
    handle_toss(&mut out);
    let t = texts(&out);
    let v: i16 = t[0].parse().unwrap();
    assert!((0..=5).contains(&v));
    assert_eq!(t[1], "0");
    let w: i16 = t[2].parse().unwrap();
    assert!((7..=9).contains(&w));
    assert!(t[3] == "0" || t[3] == "1");
    assert_eq!(handle_rnd(&["RND", "x"], &mut out).unwrap_err(), "Failed to parse max value as number");
    assert_eq!(handle_rrnd(&["RRND", "x", "1"], &mut out).unwrap_err(), "Failed to parse min value as number");
}

#[test]
fn gate_requests() {
    let mut out = Console::new();
    assert_eq!(handle_gate(&["GATE", "250"], &mut out), GateStep::Send(250));
    assert_eq!(handle_gate(&["GATE", "20000"], &mut out), GateStep::Done);
    assert_eq!(handle_gate(&["GATE", "40000"], &mut out), GateStep::ReadNumber);
    assert_eq!(handle_gate(&["GATE", "-1"], &mut out), GateStep::Done);
    assert_eq!(handle_aenv_gate(&["AENV.GATE"], &mut out), GateStep::Done);
    assert_eq!(handle_flev_gate(&["FLEV.GATE", "12.5"], &mut out), GateStep::ReadNumber);
    gate_confirmation(GateKind::AmpEnv, 250, 2, &mut out);
    gate_confirmation(GateKind::Global, 250, 1, &mut out);
    assert_eq!(
        texts(&out),
        vec![
            "GATE TIME 0-10000 MS",
            "GATE TIME 0-10000 MS",
            "AENV.GATE NEEDS TIME 0-10000 MS",
            "SET AMP ENV GATE TO 250 MS",
        ]
    );
    assert_eq!(GateKind::FilterEnv.env_name(), Some("flev"));
    assert_eq!(GateKind::Global.env_name(), None);
}

fn requests(s: &[Scheduled]) -> Vec<String> {
    s.iter()
        .map(|r| match r {
            Scheduled::Delayed { command, delay_ms } => format!("delayed {} {}", delay_ms, command),
            Scheduled::Repeated { command, count, interval_ms } => {
                format!("repeated {} {} {}", count, interval_ms, command)
            }
            Scheduled::ClearAll => "clear".to_string(),
        })
        .collect()
}

#[test]
fn delayed_commands() {
    let mut out = Console::new();
    let s = handle_del("DEL 500:  TR  ", &mut out).unwrap();
    assert_eq!(requests(&s.sends), vec!["delayed 500 TR"]);
    assert_eq!(s.confirmation.text, "DELAYED 500MS: TR");
    assert_eq!(s.confirmation.category, OutputCategory::ConfirmLevel);
    assert!(handle_del("DEL 500 TR", &mut out).is_none());
    assert!(handle_del("DEL 500:   ", &mut out).is_none());
    assert!(handle_del("DEL: TR", &mut out).is_none());
    assert!(handle_del("DEL -5: TR", &mut out).is_none());
    assert!(handle_del("DEL 16001: TR", &mut out).is_none());
    assert!(handle_del("DEL 40000: TR", &mut out).is_none());
    assert!(handle_del("DEL soon: TR", &mut out).is_none());
    assert_eq!(
        texts(&out),
        vec![
            "ERROR: DEL REQUIRES FORMAT: DEL <ms>: <cmd>",
            "ERROR: DEL REQUIRES A COMMAND AFTER COLON",
            "ERROR: DEL REQUIRES A DELAY TIME",
            "ERROR: DELAY TIME CANNOT BE NEGATIVE",
            "ERROR: DELAY TIME MAX 16000MS",
            "ERROR: DELAY TIME MAX 16000MS",
            "ERROR: FAILED TO PARSE DELAY TIME",
        ]
    );
}

#[test]
fn repeated_commands() {
    let mut out = Console::new();
    let x = handle_del_x("DEL.X 3 100: P.NEXT", &mut out).unwrap();
    assert_eq!(requests(&x.sends), vec!["repeated 3 100 P.NEXT"]);
    assert_eq!(x.confirmation.text, "REPEAT 3x @100MS: P.NEXT");
    let r = handle_del_r("DEL.R 3 100: TR", &mut out).unwrap();
    assert_eq!(requests(&r.sends), vec!["delayed 0 TR", "repeated 2 100 TR"]);
    assert_eq!(r.confirmation.text, "IMMEDIATE +2x @100MS: TR");
    let one = handle_del_r("DEL.R 1 100: TR", &mut out).unwrap();
    assert_eq!(requests(&one.sends), vec!["delayed 0 TR"]);
    assert_eq!(one.confirmation.text, "IMMEDIATE: TR");
    assert!(handle_del_x("DEL.X 0 100: TR", &mut out).is_none());
    assert!(handle_del_x("DEL.X 2: TR", &mut out).is_none());
    assert!(handle_del_r("DEL.R 2 100 TR", &mut out).is_none());
    assert_eq!(
        texts(&out),
        vec![
            "ERROR: COUNT MUST BE AT LEAST 1",
            "ERROR: DEL.X REQUIRES COUNT AND INTERVAL",
            "ERROR: DEL.R FORMAT: DEL.R N MS: CMD",
        ]
    );
    let c = handle_del_clr();
    assert_eq!(requests(&c.sends), vec!["clear"]);
    assert_eq!(c.confirmation.text, "CLEARED ALL DELAYED COMMANDS");
    assert_eq!(c.confirmation.category, OutputCategory::Essential);
}

#[test]
fn global_and_script_variables() {
    let mut v = Variables { a: 0, b: 0, c: 0, d: 0, x: 0, y: 0, z: 0, t: 0, i: 0 };
    let mut out = Console::new();
    handle_variable_a(&["A", "12"], &mut v, &mut out);
    handle_variable_a(&["A"], &mut v, &mut out);
    handle_variable_t(&["T", "q"], &mut v, &mut out);
    handle_variable_i(&["I", "q"], &mut v, &mut out);
    let mut scripts = vec![ScriptVars { j: 0, k: 0 }; 10];
    handle_variable_j(&["J", "4"], 3, &mut scripts, &mut out);
    handle_variable_j(&["J"], 12, &mut scripts, &mut out);
    assert_eq!(
        texts(&out),
        vec![
            "SET A TO 12",
            "A = 12",
            "ERROR: FAILED TO PARSE VALUE FOR T",
            "ERROR: FAILED TO PARSE VALUE FOR I",
            "SET J TO 4",
            "ERROR: J REQUIRES SCRIPT CONTEXT",
        ]
    );
    assert_eq!(v.a, 12);
    assert_eq!(scripts[3].j, 4);
    assert_eq!(out.lines[0].category, OutputCategory::Confirm);
    assert_eq!(out.lines[1].category, OutputCategory::Query);
    assert_eq!(out.lines[3].category, OutputCategory::Error);
}
