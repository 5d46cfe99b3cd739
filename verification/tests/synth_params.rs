use monokit::console::{Console, OutputCategory};
use monokit::synth_params::{
    handle_int_param, handle_m, handle_m_act, handle_m_script, int_param_of, IntParam, MetroSetting,
};

fn texts(c: &Console) -> Vec<String> {
    c.lines.iter().map(|o| o.text.clone()).collect()
}

#[test]
fn parameter_names() {
    assert_eq!(int_param_of("PW"), Some(IntParam::Pw));
    assert_eq!(int_param_of("DA"), Some(IntParam::Da));
    assert_eq!(int_param_of("AD"), Some(IntParam::Ad));
    assert_eq!(int_param_of("PF"), None);
    assert_eq!(int_param_of("pw"), None);
}

#[test]
fn waveform_in_range_is_sent() {
    let mut out = Console::new();
    let r = handle_int_param(IntParam::Pw, &["PW", "2"], &mut out).unwrap().unwrap();
    assert_eq!(r.osc, "pw");
    assert_eq!(r.value, 2);
    assert_eq!(r.confirmation, "SET PRIMARY WAVEFORM TO 2");
    assert!(out.lines.is_empty());
}

#[test]
fn decay_confirmation_has_unit() {
    let mut out = Console::new();
    let r = handle_int_param(IntParam::Ad, &["AD", "250"], &mut out).unwrap().unwrap();
    assert_eq!(r.osc, "ad");
    assert_eq!(r.value, 250);
    assert_eq!(r.confirmation, "SET AMP DECAY TO 250 MS");
}

#[test]
fn parameter_value_problems() {
    let mut out = Console::new();
    assert!(handle_int_param(IntParam::Pw, &["PW"], &mut out).unwrap().is_none());
    assert!(handle_int_param(IntParam::Pw, &["PW", "3"], &mut out).unwrap().is_none());
    assert!(handle_int_param(IntParam::Ad, &["AD", "0"], &mut out).unwrap().is_none());
    assert!(handle_int_param(IntParam::Dc, &["DC", "16384"], &mut out).unwrap().is_none());
    assert_eq!(
        texts(&out),
        vec![
            "ERROR: PW REQUIRES A WAVEFORM VALUE (0-2)",
            "ERROR: WAVEFORM MUST BE 0 (SIN), 1 (TRI), OR 2 (SAW)",
            "ERROR: AMP DECAY MUST BE BETWEEN 1 AND 10000 MS",
            "ERROR: DISCONTINUITY AMOUNT MUST BE BETWEEN 0 AND 16383",
        ]
    );
    assert!(out.lines.iter().all(|o| o.category == OutputCategory::Always));
    let e = handle_int_param(IntParam::Dc, &["DC", "lots"], &mut out);
    assert_eq!(e.err().unwrap(), "Failed to parse discontinuity amount");
    assert_eq!(out.lines.len(), 4);
}

#[test]
fn large_value_parsed_past_i16() {
    let mut out = Console::new();
    let r = handle_int_param(IntParam::Tk, &["TK", "16383"], &mut out).unwrap().unwrap();
    assert_eq!(r.value, 16383);
    let r = handle_int_param(IntParam::Tk, &["TK", "40000"], &mut out).unwrap();
    assert!(r.is_none());
    assert_eq!(texts(&out), vec!["ERROR: TRACKING AMOUNT MUST BE BETWEEN 0 AND 16383"]);
}

#[test]
fn metro_interval() {
    let mut out = Console::new();
    assert!(handle_m(&["M"], 500, &mut out).unwrap().is_none());
    let c = handle_m(&["M", "250"], 500, &mut out).unwrap().unwrap();
    assert_eq!(c.setting, MetroSetting::Interval(250));
    assert_eq!(c.confirmation, "SET METRO INTERVAL TO 250MS");
    assert!(handle_m(&["M", "0"], 500, &mut out).unwrap().is_none());
    assert_eq!(
        handle_m(&["M", "-5"], 500, &mut out).err().unwrap(),
        "Failed to parse interval as milliseconds"
    );
    assert_eq!(texts(&out), vec!["METRO INTERVAL: 500MS", "ERROR: INTERVAL MUST BE GREATER THAN 0"]);
}

#[test]
fn metro_activation() {
    let mut out = Console::new();
    let c = handle_m_act(&["M.ACT", "1"], &mut out).unwrap().unwrap();
    assert_eq!(c.setting, MetroSetting::Active(true));
    assert_eq!(c.confirmation, "METRO ACTIVATED");
    let c = handle_m_act(&["M.ACT", "0"], &mut out).unwrap().unwrap();
    assert_eq!(c.setting, MetroSetting::Active(false));
    assert_eq!(c.confirmation, "METRO DEACTIVATED");
    assert!(handle_m_act(&["M.ACT", "2"], &mut out).unwrap().is_none());
    assert!(handle_m_act(&["M.ACT"], &mut out).unwrap().is_none());
    assert_eq!(handle_m_act(&["M.ACT", "on"], &mut out).err().unwrap(), "Failed to parse M.ACT value");
    assert_eq!(texts(&out), vec!["ERROR: M.ACT VALUE MUST BE 0 OR 1", "ERROR: M.ACT REQUIRES 0 OR 1"]);
}

#[test]
fn metro_script() {
    let mut out = Console::new();
    let c = handle_m_script(&["M.SCRIPT", "3"], &mut out).unwrap().unwrap();
    assert_eq!(c.setting, MetroSetting::Script(2));
    assert_eq!(c.confirmation, "METRO WILL CALL SCRIPT 3 ON EACH TICK");
    assert!(handle_m_script(&["M.SCRIPT", "9"], &mut out).unwrap().is_none());
    assert!(handle_m_script(&["M.SCRIPT", "0"], &mut out).unwrap().is_none());
    assert!(handle_m_script(&["M.SCRIPT"], &mut out).unwrap().is_none());
    assert_eq!(
        handle_m_script(&["M.SCRIPT", "x"], &mut out).err().unwrap(),
        "Failed to parse script number"
    );
    assert_eq!(
        texts(&out),
        vec![
            "ERROR: M.SCRIPT VALUE MUST BE 1-8",
            "ERROR: M.SCRIPT VALUE MUST BE 1-8",
            "ERROR: M.SCRIPT REQUIRES A SCRIPT NUMBER (1-8)",
        ]
    );
}
