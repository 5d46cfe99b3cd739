use monokit::console::{Console, OutputCategory};
use monokit::counters::{
    handle_n1, handle_n1_max, handle_n1_min, handle_n1_rst, handle_n2, handle_n2_max, handle_n3_min,
    handle_n4_rst, parse_i16_expr,
};
use monokit::state::Counters;

fn texts(c: &Console) -> Vec<String> {
    c.lines.iter().map(|o| o.text.clone()).collect()
}

#[test]
fn counter_reads_and_steps() {
    let mut c = Counters::new();
    let mut out = Console::new();
    handle_n1(&mut c, &mut out);
    handle_n1(&mut c, &mut out);
    assert_eq!(texts(&out), vec!["0", "1"]);
    assert_eq!(c.values[0], 2);
    assert_eq!(out.lines[0].category, OutputCategory::Always);
}

#[test]
fn counter_wraps_at_max() {
    let mut c = Counters::new();
    let mut out = Console::new();
    handle_n2_max(&["N2.MAX", "2"], &mut c, &mut out);
    assert_eq!(texts(&out), vec!["N2.MAX SET TO 2"]);
    for _ in 0..4 {
        handle_n2(&mut c, &mut out);
    }
    assert_eq!(texts(&out)[1..].to_vec(), vec!["0", "1", "2", "0"]);
}

#[test]
fn counter_without_max_wraps_around_i16() {
    let mut c = Counters::new();
    c.values[0] = i16::MAX;
    let mut out = Console::new();
    handle_n1(&mut c, &mut out);
    assert_eq!(c.values[0], i16::MIN);
    assert_eq!(texts(&out), vec!["32767"]);
}

#[test]
fn counter_max_below_min_is_refused() {
    let mut c = Counters::new();
    let mut out = Console::new();
    handle_n1_min(&["N1.MIN", "5"], &mut c, &mut out);
    handle_n1_max(&["N1.MAX", "3"], &mut c, &mut out);
    handle_n1_max(&["N1.MAX", "0"], &mut c, &mut out);
    handle_n1_max(&["N1.MAX"], &mut c, &mut out);
    handle_n1_max(&["N1.MAX", "x"], &mut c, &mut out);
    assert_eq!(
        texts(&out),
        vec![
            "N1.MIN SET TO 5",
            "ERROR: MAX (3) MUST BE >= MIN (5)",
            "N1.MAX DISABLED (NO WRAP)",
            "N1.MAX REQUIRES A VALUE",
            "ERROR: FAILED TO PARSE VALUE FOR N1.MAX",
        ]
    );
    assert_eq!(c.max[0], 0);
    assert_eq!(c.min[0], 5);
}

#[test]
fn counter_reset_goes_to_min() {
    let mut c = Counters::new();
    let mut out = Console::new();
    handle_n3_min(&["N3.MIN", "-4"], &mut c, &mut out);
    handle_n4_rst(&mut c, &mut out);
    c.values[0] = 9;
    c.min[0] = 3;
    handle_n1_rst(&mut c, &mut out);
    assert_eq!(texts(&out), vec!["N3.MIN SET TO -4", "N4 RESET TO 0", "N1 RESET TO 3"]);
    assert_eq!(c.values[0], 3);
}

#[test]
fn parse_i16_expr_reports_errors() {
    let mut out = Console::new();
    assert_eq!(parse_i16_expr(&["X", "12"], 1, "X", &mut out), Some(12));
    assert_eq!(parse_i16_expr(&["X"], 1, "X", &mut out), None);
    assert_eq!(parse_i16_expr(&["X", "abc"], 1, "X", &mut out), None);
    assert_eq!(
        texts(&out),
        vec!["ERROR: X REQUIRES A VALUE", "ERROR: FAILED TO PARSE VALUE FOR X"]
    );
}
