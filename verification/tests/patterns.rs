use monokit::patterns::common::{parse_i16_expr, parse_pattern_num, parse_usize_expr};
use monokit::console::{Console, OutputCategory};
use monokit::patterns::commands::{
    handle_pattern, handle_pattern_add, handle_pattern_avg, handle_pattern_div, handle_pattern_fnd,
    handle_pattern_here, handle_pattern_i, handle_pattern_ins, handle_pattern_l, handle_pattern_max,
    handle_pattern_min, handle_pattern_mod, handle_pattern_mul, handle_pattern_n, handle_pattern_next,
    handle_pattern_pop, handle_pattern_prev, handle_pattern_push, handle_pattern_rev,
    handle_pattern_rm, handle_pattern_rnd, handle_pattern_rot, handle_pattern_scale,
    handle_pattern_shuf, handle_pattern_sort, handle_pattern_sub, handle_pattern_sum, handle_pn,
    handle_pn_add, handle_pn_avg, handle_pn_div, handle_pn_fnd, handle_pn_here, handle_pn_i,
    handle_pn_ins, handle_pn_l, handle_pn_max, handle_pn_min, handle_pn_mod, handle_pn_mul,
    handle_pn_next, handle_pn_pop, handle_pn_prev, handle_pn_push, handle_pn_rev, handle_pn_rm,
    handle_pn_rnd, handle_pn_rot, handle_pn_scale, handle_pn_shuf, handle_pn_sort, handle_pn_sub,
    handle_pn_sum,
};
use monokit::state::PatternStorage;

fn texts(c: &Console) -> Vec<String> {
    c.lines.iter().map(|o| o.text.clone()).collect()
}

fn storage(steps: &[i16]) -> PatternStorage {
    let mut ps = PatternStorage::new(steps.len());
    for (i, v) in steps.iter().enumerate() {
        ps.patterns[0].data[i] = *v;
    }
    ps
}

fn used(ps: &PatternStorage, p: usize) -> Vec<i16> {
    ps.patterns[p].data[..ps.patterns[p].length].to_vec()
}

#[test]
fn working_pattern_number_length_and_index() {
    let mut ps = PatternStorage::new(8);
    let mut out = Console::new();
    handle_pattern_n(&["P.N"], &mut ps, &mut out);
    handle_pattern_n(&["P.N", "3"], &mut ps, &mut out);
    handle_pattern_n(&["P.N", "6"], &mut ps, &mut out);
    handle_pattern_n(&["P.N", "x"], &mut ps, &mut out);
    handle_pattern_l(&["P.L", "16"], &mut ps, &mut out);
    handle_pattern_l(&["P.L", "0"], &mut ps, &mut out);
    handle_pattern_l(&["P.L"], &mut ps, &mut out);
    handle_pattern_i(&["P.I", "5"], &mut ps, &mut out);
    handle_pattern_i(&["P.I", "64"], &mut ps, &mut out);
    handle_pattern_i(&["P.I"], &mut ps, &mut out);
    assert_eq!(
        texts(&out),
        vec![
            "P.N = 0",
            "SET WORKING PATTERN TO 3",
            "ERROR: PATTERN NUMBER MUST BE 0-5",
            "ERROR: FAILED TO PARSE PATTERN NUMBER",
            "SET PATTERN 3 LENGTH TO 16",
            "ERROR: PATTERN LENGTH MUST BE 1-64",
            "P.L = 16",
            "SET PATTERN 3 INDEX TO 5",
            "ERROR: PATTERN INDEX MUST BE 0-63",
            "P.I = 5",
        ]
    );
    assert_eq!(ps.working, 3);
    assert_eq!(ps.patterns[3].length, 16);
    assert_eq!(out.lines[0].category, OutputCategory::Query);
    assert_eq!(out.lines[1].category, OutputCategory::Confirm);
    assert_eq!(out.lines[2].category, OutputCategory::Error);
}

#[test]
fn step_read_and_write() {
    let mut ps = storage(&[1, 2, 3]);
    let mut out = Console::new();
    assert!(handle_pattern(&["P", "1"], &mut ps, &mut out).is_ok());
    assert!(handle_pattern(&["P", "1", "-7"], &mut ps, &mut out).is_ok());
    assert!(handle_pattern(&["P", "64"], &mut ps, &mut out).is_ok());
    assert!(handle_pattern(&["P"], &mut ps, &mut out).is_ok());
    assert_eq!(
        texts(&out),
        vec!["P 1 = 2", "SET P 1 TO -7", "ERROR: PATTERN INDEX MUST BE 0-63", "ERROR: P REQUIRES AN INDEX"]
    );
    assert_eq!(ps.patterns[0].data[1], -7);
    let err = handle_pattern(&["P", "one"], &mut ps, &mut out).unwrap_err();
    assert_eq!(err, "Failed to parse pattern index");
}

#[test]
fn play_position_moves_and_wraps() {
    let mut ps = storage(&[10, 20, 30]);
    let mut out = Console::new();
    handle_pattern_here(&ps, &mut out);
    handle_pattern_next(&mut ps, &mut out);
    handle_pattern_next(&mut ps, &mut out);
    handle_pattern_next(&mut ps, &mut out);
    handle_pattern_prev(&mut ps, &mut out);
    assert_eq!(
        texts(&out),
        vec![
            "P.HERE = 10",
            "P.NEXT = 20 (INDEX NOW 1)",
            "P.NEXT = 30 (INDEX NOW 2)",
            "P.NEXT = 10 (INDEX NOW 0)",
            "P.PREV = 30 (INDEX NOW 2)",
        ]
    );
}

#[test]
fn push_pop_insert_remove() {
    let mut ps = storage(&[1, 2, 3, 4]);
    let mut out = Console::new();
    handle_pattern_push(&["P.PUSH", "9"], &mut ps, &mut out).unwrap();
    assert_eq!(used(&ps, 0), vec![2, 3, 4, 9]);
    handle_pattern_pop(&mut ps, &mut out);
    handle_pattern_ins(&["P.INS", "1", "7"], &mut ps, &mut out).unwrap();
    assert_eq!(used(&ps, 0), vec![2, 7, 3, 4]);
    handle_pattern_ins(&["P.INS", "4", "7"], &mut ps, &mut out).unwrap();
    handle_pattern_rm(&["P.RM", "0"], &mut ps, &mut out).unwrap();
    handle_pattern_rm(&["P.RM", "9"], &mut ps, &mut out).unwrap();
    assert_eq!(
        texts(&out),
        vec![
            "PUSHED 9 TO PATTERN 0",
            "P.POP = 9",
            "INSERTED 7 AT INDEX 1 IN PATTERN 0",
            "ERROR: INDEX 4 OUT OF RANGE (LENGTH 4)",
            "REMOVED 2 FROM INDEX 0 IN PATTERN 0",
            "ERROR: INDEX 9 OUT OF RANGE (LENGTH 4)",
        ]
    );
}

#[test]
fn reverse_rotate_sort_shuffle() {
    let mut ps = storage(&[3, 1, 2, 5]);
    let mut out = Console::new();
    handle_pattern_rev(&mut ps, &mut out);
    assert_eq!(used(&ps, 0), vec![5, 2, 1, 3]);
    handle_pattern_rot(&["P.ROT", "1"], &mut ps, &mut out).unwrap();
    assert_eq!(used(&ps, 0), vec![3, 5, 2, 1]);
    handle_pattern_rot(&["P.ROT", "-5"], &mut ps, &mut out).unwrap();
    assert_eq!(used(&ps, 0), vec![5, 2, 1, 3]);
    handle_pattern_rot(&["P.ROT", "8"], &mut ps, &mut out).unwrap();
    handle_pattern_sort(&mut ps, &mut out);
    assert_eq!(used(&ps, 0), vec![1, 2, 3, 5]);
    handle_pattern_shuf(&mut ps, &mut out);
    let mut after = used(&ps, 0);
    after.sort();
    assert_eq!(after, vec![1, 2, 3, 5]);
    assert_eq!(
        texts(&out),
        vec![
            "REVERSED PATTERN 0",
            "ROTATED PATTERN 0 BY 1",
            "ROTATED PATTERN 0 BY 3",
            "PATTERN 0 UNCHANGED (ROTATION 0)",
            "SORTED PATTERN 0",
            "SHUFFLED PATTERN 0",
        ]
    );
}

#[test]
fn arithmetic_on_steps_saturates() {
    let mut ps = storage(&[30000, -5, 7]);
    let mut out = Console::new();
    handle_pattern_add(&["P.ADD", "10000"], &mut ps, &mut out).unwrap();
    assert_eq!(used(&ps, 0), vec![32767, 9995, 10007]);
    handle_pattern_sub(&["P.SUB", "7"], &mut ps, &mut out).unwrap();
    assert_eq!(used(&ps, 0), vec![32760, 9988, 10000]);
    handle_pattern_mul(&["P.MUL", "-2"], &mut ps, &mut out).unwrap();
    assert_eq!(used(&ps, 0), vec![-32768, -19976, -20000]);
    handle_pattern_div(&["P.DIV", "7"], &mut ps, &mut out).unwrap();
    assert_eq!(used(&ps, 0), vec![-4681, -2853, -2857]);
    handle_pattern_mod(&["P.MOD", "10"], &mut ps, &mut out).unwrap();
    assert_eq!(used(&ps, 0), vec![-1, -3, -7]);
    handle_pattern_div(&["P.DIV", "0"], &mut ps, &mut out).unwrap();
    handle_pattern_mod(&["P.MOD", "0"], &mut ps, &mut out).unwrap();
    assert_eq!(
        texts(&out),
        vec![
            "ADDED 10000 TO PATTERN 0",
            "SUBTRACTED 7 FROM PATTERN 0",
            "MULTIPLIED PATTERN 0 BY -2",
            "DIVIDED PATTERN 0 BY 7",
            "MODULO PATTERN 0 BY 10",
            "ERROR: DIVISION BY ZERO",
            "ERROR: MODULO BY ZERO",
        ]
    );
    let err = handle_pattern_add(&["P.ADD", "big"], &mut ps, &mut out).unwrap_err();
    assert_eq!(err, "Failed to parse add value");
}

#[test]
fn scale_maps_range() {
    let mut ps = storage(&[0, 5, 10]);
    let mut out = Console::new();
    handle_pattern_scale(&["P.SCALE", "0", "100"], &mut ps, &mut out).unwrap();
    assert_eq!(used(&ps, 0), vec![0, 50, 100]);
    let mut flat = storage(&[4, 4]);
    handle_pattern_scale(&["P.SCALE", "-3", "3"], &mut flat, &mut out).unwrap();
    assert_eq!(used(&flat, 0), vec![-3, -3]);
    assert_eq!(texts(&out)[0], "SCALED PATTERN 0 TO RANGE 0 TO 100");
}

#[test]
fn queries_on_steps() {
    let mut ps = storage(&[4, -2, 9, 4]);
    let mut out = Console::new();
    handle_pattern_min(&ps, &mut out);
    handle_pattern_max(&ps, &mut out);
    handle_pattern_sum(&ps, &mut out);
    handle_pattern_avg(&ps, &mut out);
    handle_pattern_fnd(&["P.FND", "4"], &mut ps, &mut out).unwrap();
    handle_pattern_fnd(&["P.FND", "5"], &mut ps, &mut out).unwrap();
    assert_eq!(
        texts(&out),
        vec!["P.MIN = -2", "P.MAX = 9", "P.SUM = 15", "P.AVG = 3", "P.FND = 0", "P.FND = -1"]
    );
    let empty = PatternStorage::new(0);
    let mut out2 = Console::new();
    handle_pattern_avg(&empty, &mut out2);
    handle_pattern_min(&empty, &mut out2);
    assert_eq!(texts(&out2), vec!["ERROR: PATTERN LENGTH IS ZERO", "ERROR: PATTERN LENGTH IS ZERO"]);
}

#[test]
fn random_steps_stay_in_range() {
    let mut ps = storage(&[0; 16]);
    let mut out = Console::new();
    handle_pattern_rnd(&["P.RND", "-3", "3"], &mut ps, &mut out).unwrap();
    assert!(used(&ps, 0).iter().all(|v| (-3..=3).contains(v)));
    handle_pattern_rnd(&["P.RND"], &mut ps, &mut out).unwrap();
    assert!(used(&ps, 0).iter().all(|v| (0..=127).contains(v)));
    assert_eq!(
        texts(&out),
        vec!["RANDOMIZED PATTERN 0 (RANGE -3 TO 3)", "RANDOMIZED PATTERN 0 (RANGE 0 TO 127)"]
    );
}

#[test]
fn explicit_pattern_commands() {
    let mut ps = PatternStorage::new(3);
    ps.patterns[2].data[0] = 5;
    ps.patterns[2].data[1] = 6;
    ps.patterns[2].data[2] = 7;
    let mut out = Console::new();
    handle_pn(&["PN", "2", "1"], &mut ps, &mut out).unwrap();
    handle_pn(&["PN", "2", "1", "60"], &mut ps, &mut out).unwrap();
    handle_pn(&["PN", "6", "1"], &mut ps, &mut out).unwrap();
    handle_pn_l(&["PN.L", "2"], &mut ps, &mut out).unwrap();
    handle_pn_i(&["PN.I", "2", "2"], &mut ps, &mut out).unwrap();
    handle_pn_here(&["PN.HERE", "2"], &mut ps, &mut out).unwrap();
    handle_pn_next(&["PN.NEXT", "2"], &mut ps, &mut out).unwrap();
    handle_pn_prev(&["PN.PREV", "2"], &mut ps, &mut out).unwrap();
    handle_pn_pop(&["PN.POP", "2"], &mut ps, &mut out).unwrap();
    handle_pn(&["PN", "2"], &mut ps, &mut out).unwrap();
    assert_eq!(
        texts(&out),
        vec![
            "PN 2 1 = 6",
            "SET PN 2 1 TO 60",
            "ERROR: PATTERN NUMBER MUST BE 0-5",
            "PN.L 2 = 3",
            "SET PATTERN 2 INDEX TO 2",
            "PN.HERE 2 = 7",
            "PN.NEXT 2 = 5 (INDEX NOW 0)",
            "PN.PREV 2 = 7 (INDEX NOW 2)",
            "PN.POP 2 = 7",
            "ERROR: PN NEEDS PAT (0-5) AND IDX (0-63)",
        ]
    );
    assert_eq!(out.lines[8].category, OutputCategory::Always);
    assert_eq!(out.lines[9].category, OutputCategory::Error);
}

#[test]
fn explicit_pattern_edits() {
    let mut ps = PatternStorage::new(4);
    for i in 0..4 {
        ps.patterns[1].data[i] = (i as i16) + 1;
    }
    let mut out = Console::new();
    handle_pn_push(&["PN.PUSH", "1", "8"], &mut ps, &mut out).unwrap();
    assert_eq!(used(&ps, 1), vec![2, 3, 4, 8]);
    handle_pn_ins(&["PN.INS", "1", "0", "-1"], &mut ps, &mut out).unwrap();
    assert_eq!(used(&ps, 1), vec![-1, 2, 3, 4]);
    handle_pn_rm(&["PN.RM", "1", "3"], &mut ps, &mut out).unwrap();
    assert_eq!(used(&ps, 1), vec![-1, 2, 3, 0]);
    handle_pn_rev(&["PN.REV", "1"], &mut ps, &mut out).unwrap();
    assert_eq!(used(&ps, 1), vec![0, 3, 2, -1]);
    handle_pn_rot(&["PN.ROT", "1", "2"], &mut ps, &mut out).unwrap();
    assert_eq!(used(&ps, 1), vec![2, -1, 0, 3]);
    handle_pn_sort(&["PN.SORT", "1"], &mut ps, &mut out).unwrap();
    assert_eq!(used(&ps, 1), vec![-1, 0, 2, 3]);
    handle_pn_shuf(&["PN.SHUF", "1"], &mut ps, &mut out).unwrap();
    let mut s = used(&ps, 1);
    s.sort();
    assert_eq!(s, vec![-1, 0, 2, 3]);
    assert_eq!(texts(&out)[0], "PUSHED 8 TO PATTERN 1");
    assert_eq!(texts(&out)[2], "REMOVED 4 FROM INDEX 3 IN PATTERN 1");
}

#[test]
fn explicit_pattern_math_and_queries() {
    let mut ps = PatternStorage::new(3);
    ps.patterns[4].data[0] = 10;
    ps.patterns[4].data[1] = -20;
    ps.patterns[4].data[2] = 30;
    let mut out = Console::new();
    handle_pn_add(&["PN.ADD", "4", "1"], &mut ps, &mut out).unwrap();
    handle_pn_sub(&["PN.SUB", "4", "2"], &mut ps, &mut out).unwrap();
    handle_pn_mul(&["PN.MUL", "4", "3"], &mut ps, &mut out).unwrap();
    assert_eq!(used(&ps, 4), vec![27, -63, 87]);
    handle_pn_div(&["PN.DIV", "4", "2"], &mut ps, &mut out).unwrap();
    assert_eq!(used(&ps, 4), vec![13, -31, 43]);
    handle_pn_mod(&["PN.MOD", "4", "5"], &mut ps, &mut out).unwrap();
    assert_eq!(used(&ps, 4), vec![3, -1, 3]);
    handle_pn_min(&["PN.MIN", "4"], &mut ps, &mut out).unwrap();
    handle_pn_max(&["PN.MAX", "4"], &mut ps, &mut out).unwrap();
    handle_pn_sum(&["PN.SUM", "4"], &mut ps, &mut out).unwrap();
    handle_pn_avg(&["PN.AVG", "4"], &mut ps, &mut out).unwrap();
    handle_pn_fnd(&["PN.FND", "4", "-1"], &mut ps, &mut out).unwrap();
    handle_pn_scale(&["PN.SCALE", "4", "0", "4"], &mut ps, &mut out).unwrap();
    assert_eq!(used(&ps, 4), vec![4, 0, 4]);
    handle_pn_rnd(&["PN.RND", "4", "1", "2"], &mut ps, &mut out).unwrap();
    assert!(used(&ps, 4).iter().all(|v| *v == 1 || *v == 2));
    let t = texts(&out);
    assert_eq!(t[0], "ADDED 1 TO PATTERN 4");
}

#[test]
fn pattern_number_argument() {
    let mut out = Console::new();
    assert_eq!(parse_pattern_num(&["PN.L", "3"], 1, &mut out), Ok(Some(3)));
    assert_eq!(parse_pattern_num(&["PN.L", "6"], 1, &mut out), Ok(None));
    assert_eq!(parse_pattern_num(&["PN.L", "-1"], 1, &mut out), Ok(None));
    assert_eq!(parse_pattern_num(&["PN.L", "99999"], 1, &mut out), Ok(None));
    assert_eq!(
        parse_pattern_num(&["PN.L", "x"], 1, &mut out),
        Err("Failed to parse pattern number".to_string())
    );
    assert_eq!(out.lines.len(), 3);
    assert!(out
        .lines
        .iter()
        .all(|o| o.text == "ERROR: PAT NUM MUST BE 0-5" && o.category == OutputCategory::Error));
}

#[test]
fn value_arguments() {
    assert_eq!(parse_i16_expr(&["P.PUSH", "-12"], 1), Ok(-12));
    assert_eq!(parse_i16_expr(&["P.PUSH", "40000"], 1), Err("Failed to parse value".to_string()));
    assert_eq!(parse_usize_expr(&["P.RM", "7"], 1), Ok(7));
    assert_eq!(parse_usize_expr(&["P.RM", "70000"], 1), Ok(70000));
    assert_eq!(
        parse_usize_expr(&["P.RM", "-4"], 1),
        Err("Value must be non-negative, got -4".to_string())
    );
    assert_eq!(parse_usize_expr(&["P.RM", "four"], 1), Err("Failed to parse value".to_string()));
}
