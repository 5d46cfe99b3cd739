use monokit::console::Console;
use monokit::counters::{handle_n1, handle_n1_max, handle_n1_min, handle_n1_rst};
use monokit::patterns::commands::{
    handle_pattern_add, handle_pattern_avg, handle_pattern_ins, handle_pattern_max,
    handle_pattern_min, handle_pattern_next, handle_pattern_pop, handle_pattern_prev,
    handle_pattern_push, handle_pattern_rev, handle_pattern_rm, handle_pattern_rot,
    handle_pattern_scale, handle_pattern_sub,
};
use monokit::random_ops::handle_tog;
use monokit::state::{Counters, PatternStorage, Variables};
use monokit::variables::{handle_variable_x, handle_variable_y};

fn storage(steps: &[i16]) -> PatternStorage {
    let mut ps = PatternStorage::new(steps.len());
    for (i, v) in steps.iter().enumerate() {
        ps.patterns[0].data[i] = *v;
    }
    ps
}

fn used(ps: &PatternStorage) -> Vec<i16> {
    ps.patterns[0].data[..ps.patterns[0].length].to_vec()
}

fn last(c: &Console) -> String {
    c.lines.last().unwrap().text.clone()
}

#[test]
fn reverse_twice_restores() {
    let mut ps = storage(&[4, -1, 7, 0, 2]);
    let mut out = Console::new();
    handle_pattern_rev(&mut ps, &mut out);
    handle_pattern_rev(&mut ps, &mut out);
    assert_eq!(used(&ps), vec![4, -1, 7, 0, 2]);
}

#[test]
fn rotate_back_restores() {
    let mut ps = storage(&[1, 2, 3, 4, 5]);
    let mut out = Console::new();
    handle_pattern_rot(&["P.ROT", "7"], &mut ps, &mut out).unwrap();
    handle_pattern_rot(&["P.ROT", "-7"], &mut ps, &mut out).unwrap();
    assert_eq!(used(&ps), vec![1, 2, 3, 4, 5]);
}

#[test]
fn pop_after_push_answers_the_pushed_value() {
    let mut ps = storage(&[9, 8, 7]);
    let mut out = Console::new();
    handle_pattern_push(&["P.PUSH", "-3"], &mut ps, &mut out).unwrap();
    handle_pattern_pop(&mut ps, &mut out);
    assert_eq!(last(&out), "P.POP = -3");
}

#[test]
fn remove_after_insert_restores_but_the_last_step() {
    let mut ps = storage(&[1, 2, 3, 4]);
    let mut out = Console::new();
    handle_pattern_ins(&["P.INS", "1", "9"], &mut ps, &mut out).unwrap();
    handle_pattern_rm(&["P.RM", "1"], &mut ps, &mut out).unwrap();
    assert_eq!(used(&ps), vec![1, 2, 3, 0]);
}

#[test]
fn add_then_sub_restores_unsaturated_steps() {
    let mut ps = storage(&[10, -20, 32000]);
    let mut out = Console::new();
    handle_pattern_add(&["P.ADD", "1000"], &mut ps, &mut out).unwrap();
    handle_pattern_sub(&["P.SUB", "1000"], &mut ps, &mut out).unwrap();
    let after = used(&ps);
    assert_eq!(&after[..2], &[10, -20]);
    assert_eq!(after[2], 31767);
}

#[test]
fn scale_hits_both_endpoints() {
    let mut ps = storage(&[-5, 3, 11, 0]);
    let mut out = Console::new();
    handle_pattern_scale(&["P.SCALE", "100", "200"], &mut ps, &mut out).unwrap();
    let s = used(&ps);
    assert_eq!(*s.iter().min().unwrap(), 100);
    assert_eq!(*s.iter().max().unwrap(), 200);
    assert_eq!(s[0], 100);
    assert_eq!(s[2], 200);
}

#[test]
fn average_lies_between_min_and_max() {
    let ps = storage(&[-7, 2, 30, 1]);
    let mut out = Console::new();
    handle_pattern_min(&ps, &mut out);
    handle_pattern_max(&ps, &mut out);
    handle_pattern_avg(&ps, &mut out);
    let v: Vec<i32> = out.lines.iter().map(|l| l.text.split(" = ").nth(1).unwrap().parse().unwrap()).collect();
    assert!(v[0] <= v[2] && v[2] <= v[1]);
    assert_eq!(v[2], 6);
}

#[test]
fn next_then_prev_returns() {
    let mut ps = storage(&[1, 2, 3]);
    ps.patterns[0].index = 2;
    let mut out = Console::new();
    handle_pattern_next(&mut ps, &mut out);
    handle_pattern_prev(&mut ps, &mut out);
    assert_eq!(ps.patterns[0].index, 2);
}

#[test]
fn counter_cycles_through_its_range() {
    let mut c = Counters::new();
    let mut out = Console::new();
    handle_n1_min(&["N1.MIN", "3"], &mut c, &mut out);
    handle_n1_max(&["N1.MAX", "6"], &mut c, &mut out);
    handle_n1_rst(&mut c, &mut out);
    let start = out.lines.len();
    for _ in 0..8 {
        handle_n1(&mut c, &mut out);
    }
    let reads: Vec<String> = out.lines[start..].iter().map(|l| l.text.clone()).collect();
    assert_eq!(reads, vec!["3", "4", "5", "6", "3", "4", "5", "6"]);
    assert_eq!(c.values[0], 3);
}

#[test]
fn tog_gives_each_value_in_turn() {
    let mut ps = PatternStorage::new(4);
    let mut out = Console::new();
    handle_tog(&["TOG", "1", "2"], 0, &mut ps, &mut out);
    handle_tog(&["TOG", "1", "2"], 0, &mut ps, &mut out);
    let mut two: Vec<String> = out.lines.iter().map(|l| l.text.clone()).collect();
    two.sort();
    assert_eq!(two, vec!["1", "2"]);
}

#[test]
fn setting_a_variable_leaves_the_others() {
    let mut v = Variables { a: 1, b: 2, c: 3, d: 4, x: 5, y: 6, z: 7, t: 8, i: 9 };
    let mut out = Console::new();
    handle_variable_x(&["X", "-40"], &mut v, &mut out);
    handle_variable_x(&["X"], &mut v, &mut out);
    handle_variable_y(&["Y"], &mut v, &mut out);
    assert_eq!(last(&out), "Y = 6");
    assert_eq!(out.lines[1].text, "X = -40");
    assert_eq!((v.a, v.b, v.t, v.i), (1, 2, 8, 9));
}
