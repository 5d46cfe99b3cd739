use monokit::args::{eval_expression, i16_argument, usize_argument};
use monokit::console::{Console, OutputCategory};
use monokit::state::ToggleState;
use monokit::text::{
    fmt_int, join_strs, parse_i16_token, parse_u64_chars, parse_usize_token, split_ws, str_chars,
    trim_chars,
};

fn chars(s: &str) -> Vec<char> {
    s.chars().collect()
}

#[test]
fn integers_parse_as_rust_does() {
    assert_eq!(parse_i16_token("-32768"), Some(i16::MIN));
    assert_eq!(parse_i16_token("+12"), Some(12));
    assert_eq!(parse_i16_token("32768"), None);
    assert_eq!(parse_i16_token(""), None);
    assert_eq!(parse_i16_token("-"), None);
    assert_eq!(parse_i16_token(" 1"), None);
    assert_eq!(parse_usize_token("0042"), Some(42));
    assert_eq!(parse_usize_token("-1"), None);
    assert_eq!(parse_u64_chars(&chars("18446744073709551615")), Some(u64::MAX));
}

#[test]
fn integers_render_as_rust_does() {
    assert_eq!(fmt_int(0), "0");
    assert_eq!(fmt_int(-305), "-305");
    assert_eq!(fmt_int(i16::MIN as i128), "-32768");
}

#[test]
fn arguments_evaluate_or_parse() {
    assert_eq!(eval_expression(&["X", "7"], 1), Some((7, 1)));
    assert_eq!(eval_expression(&["X", "A"], 1), None);
    assert_eq!(eval_expression(&["X"], 1), None);
    assert_eq!(i16_argument(&["X", "q"], 1, "bad"), Err("bad".to_string()));
    assert_eq!(usize_argument(&["X", "-1"], 1, "bad"), Ok(usize::MAX));
    assert_eq!(usize_argument(&["X", "70000"], 1, "bad"), Ok(70000));
}

#[test]
fn trimming_and_splitting_on_white_space() {
    assert_eq!(trim_chars(&chars("\t a b \u{3000}")), chars("a b"));
    assert_eq!(trim_chars(&chars("   ")), Vec::<char>::new());
    let w: Vec<String> = split_ws(&chars("  DEL  5 \n x")).into_iter().map(|v| v.into_iter().collect()).collect();
    assert_eq!(w, vec!["DEL", "5", "x"]);
    assert_eq!(str_chars("héllo").len(), 5);
    assert_eq!(join_strs(&["A", "B", "C"], "_"), "A_B_C");
    assert_eq!(join_strs(&[], "_"), "");
}

#[test]
fn toggle_memory_maps_keys() {
    let mut t = ToggleState::new();
    t.insert("k".to_string(), 1);
    t.insert("k".to_string(), 2);
    t.insert("j".to_string(), 5);
    assert_eq!(t.get(&"k".to_string()), Some(2));
    assert_eq!(t.entries.len(), 2);
    t.clear();
    assert_eq!(t.get(&"j".to_string()), None);
}

#[test]
fn console_keeps_lines_in_order() {
    let mut c = Console::new();
    c.emit_str(OutputCategory::Query, "a");
    c.emit(OutputCategory::Error, "b".to_string());
    assert_eq!(c.len(), 2);
    assert_eq!(c.lines[1].category, OutputCategory::Error);
    assert_eq!(c.lines[0].text, "a");
}
