use monokit::console::{Console, OutputCategory};
use monokit::script_exec::{
    classify_sub_command, every_prefix, plan_line, plan_typed, LinePlan, finish_sub_command, handle_script, loop_values,
    parse_loop_line, prompt_prefix, read_entry, script_call_allowed, split_sub_commands,
    start_sub_command, Entry, LoopLine, Step, SubCommand,
};

fn s(x: &str) -> String {
    x.to_string()
}

#[test]
fn sub_command_kinds() {
    assert_eq!(
        classify_sub_command(" IF EQ A 1: TR "),
        SubCommand::If { condition: s("IF EQ A 1"), command: s("TR") }
    );
    assert_eq!(
        classify_sub_command("elif  B : A 2"),
        SubCommand::Elif { condition: s("B"), command: s("A 2") }
    );
    assert_eq!(classify_sub_command("Else:  X 3"), SubCommand::Else { command: s("X 3") });
    assert_eq!(
        classify_sub_command("PROB 50: TR"),
        SubCommand::Guarded { condition: s("PROB 50"), command: s("TR") }
    );
    assert_eq!(classify_sub_command("A 5"), SubCommand::Plain { command: s("A 5") });
    assert_eq!(classify_sub_command("IF A:  "), SubCommand::Empty);
    assert_eq!(classify_sub_command("   "), SubCommand::Empty);
    assert_eq!(classify_sub_command("ELIF A"), SubCommand::Plain { command: s("ELIF A") });
}

/// Runs a chain with the given condition outcomes; gives the commands run.
fn run_chain(pieces: &[&str], outcomes: &[bool]) -> Vec<String> {
    let mut taken = true;
    let mut ran = Vec::new();
    let mut k = 0;
    for p in pieces {
        let sub = classify_sub_command(p);
        match start_sub_command(&mut taken, &sub) {
            Step::Nothing => {}
            Step::Run(c) => ran.push(c),
            Step::Evaluate(_) => {
                let holds = outcomes[k];
                k += 1;
                if let Some(c) = finish_sub_command(&mut taken, sub, holds) {
                    ran.push(c);
                }
            }
        }
    }
    ran
}

#[test]
fn one_branch_of_a_chain_runs() {
    let chain = ["IF A: TR", "ELIF B: X 1", "ELIF C: X 2", "ELSE: X 3"];
    assert_eq!(run_chain(&chain, &[true]), vec!["TR"]);
    assert_eq!(run_chain(&chain, &[false, true]), vec!["X 1"]);
    assert_eq!(run_chain(&chain, &[false, false, true]), vec!["X 2"]);
    assert_eq!(run_chain(&chain, &[false, false, false]), vec!["X 3"]);
    assert_eq!(run_chain(&["IF A: TR", "ELIF B: X 1"], &[false, false]), Vec::<String>::new());
}

#[test]
fn else_without_if_follows_the_flag() {
    let mut taken = true;
    assert_eq!(start_sub_command(&mut taken, &classify_sub_command("ELSE: TR")), Step::Nothing);
    let mut taken = false;
    assert_eq!(start_sub_command(&mut taken, &classify_sub_command("ELSE: TR")), Step::Run(s("TR")));
    assert!(taken);
    assert_eq!(start_sub_command(&mut taken, &classify_sub_command("ELSE: TR")), Step::Nothing);
}

#[test]
fn guarded_commands_leave_the_flag() {
    let mut taken = false;
    let sub = classify_sub_command("PROB 50: TR");
    assert_eq!(start_sub_command(&mut taken, &sub), Step::Evaluate(s("PROB 50")));
    assert_eq!(finish_sub_command(&mut taken, sub, true), Some(s("TR")));
    assert!(!taken);
}

#[test]
fn every_and_skip_prefixes() {
    let mut c = 0u32;
    let got: Vec<String> = (0..6).map(|_| every_prefix("EV 3: TR", &mut c)).collect();
    assert_eq!(got, vec!["", "", "TR", "", "", "TR"]);
    assert_eq!(c, 6);
    let mut c = 0u32;
    let got: Vec<String> = (0..4).map(|_| every_prefix("skip 2: A 1; B 2", &mut c)).collect();
    assert_eq!(got, vec!["A 1; B 2", "", "A 1; B 2", ""]);
    let mut c = 7u32;
    assert_eq!(every_prefix("EV X: TR", &mut c), "EV X: TR");
    assert_eq!(every_prefix("EV 0: TR", &mut c), "EV 0: TR");
    assert_eq!(every_prefix("TR", &mut c), "TR");
    assert_eq!(c, 7);
}

#[test]
fn every_nth_over_many_runs() {
    let mut c = 0u32;
    let ev = (0..12).filter(|_| !every_prefix("EV 4: TR", &mut c).is_empty()).count();
    assert_eq!(ev, 3);
    let mut c = 0u32;
    let skip = (0..12).filter(|_| !every_prefix("SKIP 4: TR", &mut c).is_empty()).count();
    assert_eq!(skip, 9);
}

#[test]
fn loop_lines() {
    assert_eq!(
        parse_loop_line("L 1 4: A 1; B 2"),
        LoopLine::Loop { start: 1, end: 4, commands: s("A 1; B 2") }
    );
    assert_eq!(
        parse_loop_line("l 5 -2 : TR"),
        LoopLine::Loop { start: 5, end: -2, commands: s("TR") }
    );
    assert_eq!(
        parse_loop_line("L X 4: TR"),
        LoopLine::Failed(s("Error: Failed to evaluate loop start value"))
    );
    assert_eq!(
        parse_loop_line("L 1 Y: TR"),
        LoopLine::Failed(s("Error: Failed to evaluate loop end value"))
    );
    assert_eq!(parse_loop_line("L 1: TR"), LoopLine::NotALoop);
    assert_eq!(parse_loop_line("L 1 2 TR"), LoopLine::NotALoop);
    assert_eq!(parse_loop_line("LX 1 2: TR"), LoopLine::NotALoop);
}

#[test]
fn loop_counts_both_ways() {
    assert_eq!(loop_values(1, 4), vec![1, 2, 3, 4]);
    assert_eq!(loop_values(3, 1), vec![3, 2, 1]);
    assert_eq!(loop_values(5, 5), vec![5]);
    assert_eq!(loop_values(-1, 1), vec![-1, 0, 1]);
}

#[test]
fn splitting_on_semicolons() {
    assert_eq!(split_sub_commands("A 1; B 2;;C"), vec!["A 1", " B 2", "", "C"]);
    assert_eq!(split_sub_commands(""), vec![""]);
    assert_eq!(split_sub_commands("TR;"), vec!["TR", ""]);
}

#[test]
fn script_calls() {
    let mut out = Console::new();
    assert!(script_call_allowed(3, 10, &mut out));
    assert!(!script_call_allowed(3, 11, &mut out));
    assert!(!script_call_allowed(12, 0, &mut out));
    let texts: Vec<&str> = out.lines.iter().map(|o| o.text.as_str()).collect();
    assert_eq!(texts, vec!["SCRIPT RECURSION DEPTH EXCEEDED (MAX 10)", "INVALID SCRIPT INDEX 12"]);
    assert!(out.lines.iter().all(|o| o.category == OutputCategory::Error));
}

#[test]
fn script_command() {
    let mut out = Console::new();
    assert_eq!(handle_script(&["SCRIPT", "2"], &mut out), Ok(Some(1)));
    assert_eq!(handle_script(&["SCRIPT", "9"], &mut out), Ok(None));
    assert_eq!(handle_script(&["SCRIPT"], &mut out), Ok(None));
    assert_eq!(handle_script(&["SCRIPT", "two"], &mut out), Err(s("Failed to parse script number")));
    let texts: Vec<&str> = out.lines.iter().map(|o| o.text.as_str()).collect();
    assert_eq!(texts, vec!["ERROR: SCRIPT NUMBER MUST BE 1-8", "ERROR: SCRIPT REQUIRES NUMBER 1-8"]);
}

#[test]
fn typed_lines() {
    assert_eq!(read_entry("  "), Entry::Empty);
    assert_eq!(read_entry("quit"), Entry::Quit);
    assert_eq!(read_entry("Q"), Entry::Quit);
    assert_eq!(read_entry(" exit "), Entry::Quit);
    assert_eq!(read_entry("Clear"), Entry::Clear);
    assert_eq!(read_entry("repl.dump Out.TXT"), Entry::Dump(s("out.txt")));
    assert_eq!(read_entry("REPL.DUMP"), Entry::Dump(s("repl_dump.txt")));
    assert_eq!(read_entry(" A 5 "), Entry::Command(s("A 5")));
    assert_eq!(read_entry("QUITE"), Entry::Command(s("QUITE")));
}

#[test]
fn typed_every_prefix() {
    let mut out = Console::new();
    assert_eq!(prompt_prefix("EV 4: TR", &mut out), "TR");
    assert_eq!(prompt_prefix("SKIP 0: A 1", &mut out), "A 1");
    assert_eq!(prompt_prefix("SKIP 2: A 1", &mut out), "A 1");
    assert_eq!(prompt_prefix("TR", &mut out), "TR");
    let texts: Vec<&str> = out.lines.iter().map(|o| o.text.as_str()).collect();
    assert_eq!(
        texts,
        vec![
            "Warning: EV in interactive mode - counters not persisted",
            "Warning: SKIP in interactive mode - counters not persisted",
        ]
    );
}

#[test]
fn planning_script_lines() {
    let mut c = 0u32;
    assert_eq!(plan_line("   ", &mut c), LinePlan::Nothing);
    assert_eq!(plan_line(" A 1; TR ", &mut c), LinePlan::Run(vec![s("A 1"), s(" TR")]));
    assert_eq!(
        plan_line("L 1 3: X I; TR", &mut c),
        LinePlan::Loop { values: vec![1, 2, 3], pieces: vec![s("X I"), s(" TR")] }
    );
    assert_eq!(
        plan_line("L A 3: TR", &mut c),
        LinePlan::Failed(s("Error: Failed to evaluate loop start value"))
    );
    assert_eq!(c, 0);
    assert_eq!(plan_line("EV 2: TR", &mut c), LinePlan::Nothing);
    assert_eq!(plan_line("EV 2: TR", &mut c), LinePlan::Run(vec![s("TR")]));
    assert_eq!(c, 2);
    let mut out = Console::new();
    assert_eq!(plan_typed("SKIP 3: A 1;B 2", &mut out), LinePlan::Run(vec![s("A 1"), s("B 2")]));
    assert_eq!(out.lines.len(), 1);
}
