use monokit::aliases::{resolve_alias, resolve_to_short, table_names_distinct};
use monokit::audio_devices::{find_device_by_name, require_devices, AudioDevice};
use monokit::editor::{
    copy_line, cut_line, delete_entire_line, duplicate_line, paste_line, redo, save_line,
    select_line_down, select_line_up, undo, Edit, LinePage, PageKind, Pages,
};
use monokit::navigation::Page;
use monokit::history::{clear_all_undo_stacks, EditAction, UndoStack};
use monokit::input_line::{
    clear_input, delete_char, delete_to_start, history_next, history_prev, insert_char,
    move_cursor_left, move_cursor_right, move_cursor_word_left, move_cursor_word_right,
};
use monokit::validate::{check_arguments, is_control_prefix, validate_script_command};

fn page(lines: &[&str]) -> LinePage {
    let mut p = LinePage::new();
    for (i, l) in lines.iter().enumerate() {
        p.lines[i] = l.to_string();
    }
    p
}

#[test]
fn undo_stack_caps_at_fifty() {
    let mut s = UndoStack::new();
    for i in 0..60 {
        s.push(EditAction::DeleteLine { line_idx: i % 8, content: format!("{}", i) });
    }
    assert_eq!(s.undo.len(), 50);
    match s.pop_undo() {
        Some(EditAction::DeleteLine { content, .. }) => assert_eq!(content, "59"),
        _ => panic!("wrong action"),
    }
    s.push_redo(EditAction::CutLine { line_idx: 0, content: "x".to_string() });
    assert_eq!(s.redo.len(), 1);
    s.push(EditAction::CutLine { line_idx: 0, content: "y".to_string() });
    assert!(s.redo.is_empty());
    s.clear();
    assert!(s.undo.is_empty() && s.pop_redo().is_none());
}

#[test]
fn save_then_undo_then_redo() {
    let mut p = page(&["A 1", "", "B 2"]);
    let mut s = UndoStack::new();
    p.input = "X 5".to_string();
    assert_eq!(save_line(&mut p, &mut s, PageKind::Script), Edit::Made);
    assert_eq!(p.lines[1], "X 5");
    assert_eq!(p.selected_line, Some(2));
    assert_eq!(p.input, "");
    undo(&mut p, &mut s, PageKind::Script);
    assert_eq!(p.lines[1], "");
    redo(&mut p, &mut s, PageKind::Script);
    assert_eq!(p.lines[1], "X 5");
}

#[test]
fn save_refuses_bad_script_line() {
    let mut p = page(&[]);
    let mut s = UndoStack::new();
    p.input = "FOO 1".to_string();
    assert_eq!(save_line(&mut p, &mut s, PageKind::Script), Edit::Refused("Unknown command: FOO".to_string()));
    assert!(s.undo.is_empty());
    assert_eq!(save_line(&mut p, &mut s, PageKind::Notes), Edit::Made);
    assert_eq!(p.lines[0], "FOO 1");
}

#[test]
fn duplicate_and_its_undo() {
    let mut p = page(&["a", "b", "c", "d", "e", "f", "g", "h"]);
    let mut s = UndoStack::new();
    p.selected_line = Some(1);
    assert_eq!(duplicate_line(&mut p, &mut s, PageKind::Notes), Edit::Made);
    assert_eq!(p.lines, vec!["a", "b", "b", "c", "d", "e", "f", "g"]);
    assert_eq!(p.selected_line, Some(2));
    undo(&mut p, &mut s, PageKind::Notes);
    assert_eq!(p.lines, vec!["a", "b", "", "c", "d", "e", "f", "g"]);
    assert_eq!(p.selected_line, Some(1));
    assert_eq!(p.input, "b");
    p.selected_line = Some(7);
    assert_eq!(duplicate_line(&mut p, &mut s, PageKind::Notes), Edit::Nothing);
}

#[test]
fn delete_cut_copy_paste() {
    let mut p = page(&["A 1", "B 2"]);
    let mut s = UndoStack::new();
    let mut clip = String::new();
    p.selected_line = Some(0);
    copy_line(&p, &mut clip);
    assert_eq!(clip, "A 1");
    assert_eq!(cut_line(&mut p, &mut clip, &mut s, PageKind::Script), Edit::Made);
    assert_eq!(p.lines[0], "");
    p.selected_line = Some(1);
    assert_eq!(paste_line(&mut p, &clip, &mut s, PageKind::Script), Edit::Made);
    assert_eq!(p.lines[1], "A 1");
    assert_eq!(p.input, "A 1");
    assert_eq!(p.cursor_position, 3);
    undo(&mut p, &mut s, PageKind::Script);
    assert_eq!(p.lines[1], "B 2");
    assert_eq!(p.input, "B 2");
    assert_eq!(delete_entire_line(&mut p, &mut s, PageKind::Script), Edit::Made);
    assert_eq!(p.lines[1], "");
    undo(&mut p, &mut s, PageKind::Script);
    assert_eq!(p.lines[1], "B 2");
    undo(&mut p, &mut s, PageKind::Script);
    assert_eq!(p.lines[0], "A 1");
}

#[test]
fn selection_moves_and_loads() {
    let mut p = page(&["A 1", "B 2"]);
    select_line_down(&mut p);
    assert_eq!(p.selected_line, Some(0));
    assert_eq!(p.input, "A 1");
    select_line_up(&mut p);
    assert_eq!(p.selected_line, Some(0));
    p.selected_line = None;
    select_line_up(&mut p);
    assert_eq!(p.selected_line, Some(7));
}

#[test]
fn typing_and_cursor() {
    let mut s = String::from("ab");
    let mut c: usize = 1;
    insert_char(&mut s, &mut c, 'x');
    assert_eq!(s, "aXb");
    assert_eq!(c, 2);
    delete_char(&mut s, &mut c);
    assert_eq!(s, "ab");
    assert_eq!(c, 1);
    move_cursor_left(&mut c);
    move_cursor_left(&mut c);
    assert_eq!(c, 0);
    move_cursor_right(&s, &mut c);
    move_cursor_right(&s, &mut c);
    move_cursor_right(&s, &mut c);
    assert_eq!(c, 2);
    let mut t = String::from("P.ADD 12 34");
    let mut k: usize = 11;
    move_cursor_word_left(&t, &mut k);
    assert_eq!(k, 9);
    move_cursor_word_left(&t, &mut k);
    assert_eq!(k, 6);
    move_cursor_word_right(&t, &mut k);
    assert_eq!(k, 9);
    delete_to_start(&mut t, &mut k);
    assert_eq!(t, "34");
    assert_eq!(k, 0);
    clear_input(&mut t, &mut k);
    assert_eq!(t, "");
}

#[test]
fn backspace_past_end_removes_first_character() {
    let mut s = String::from("abc");
    let mut c: usize = 7;
    delete_char(&mut s, &mut c);
    assert_eq!(s, "bc");
    assert_eq!(c, 6);
}

#[test]
fn history_walk() {
    let h = vec!["A 1".to_string(), "B 2".to_string()];
    let mut s = String::new();
    let mut c: usize = 0;
    let mut at: Option<usize> = None;
    history_prev(&mut s, &mut c, &h, &mut at);
    assert_eq!((s.as_str(), c, at), ("B 2", 3, Some(1)));
    history_prev(&mut s, &mut c, &h, &mut at);
    history_prev(&mut s, &mut c, &h, &mut at);
    assert_eq!((s.as_str(), at), ("A 1", Some(0)));
    history_next(&mut s, &mut c, &h, &mut at);
    assert_eq!((s.as_str(), at), ("B 2", Some(1)));
    history_next(&mut s, &mut c, &h, &mut at);
    assert_eq!((s.as_str(), c, at), ("", 0, None));
}

#[test]
fn script_validation() {
    assert!(validate_script_command("").is_ok());
    assert!(validate_script_command("if x: tr").is_ok());
    assert!(validate_script_command("A 5").is_ok());
    assert!(validate_script_command("p.next").is_ok());
    assert!(validate_script_command("L 1 4: TR").is_ok());
    assert!(validate_script_command("X 1; Y 2").is_ok());
    assert_eq!(validate_script_command("p.here 1").unwrap_err(), "P.HERE takes no arguments");
    assert_eq!(validate_script_command("ADD 1").unwrap_err(), "ADD requires at least 2 arguments");
    assert_eq!(validate_script_command("SCRIPT").unwrap_err(), "SCRIPT takes exactly 1 argument");
    assert_eq!(validate_script_command("PN.NEXT").unwrap_err(), "PN.NEXT requires at least 1 argument (pattern number)");
    assert_eq!(validate_script_command("THEME A B").unwrap_err(), "THEME takes 0-1 arguments");
    assert_eq!(validate_script_command("NOPE").unwrap_err(), "Unknown command: NOPE");
    assert!(is_control_prefix("ELSE"));
    assert!(!is_control_prefix("ELSEWHERE"));
    assert!(check_arguments("PF", 1).is_ok());
}

#[test]
fn aliases_resolve_both_ways() {
    let table = [("SR", "S.RATE"), ("RW", "REV.WET"), ("RWET", "REV.WET")];
    assert_eq!(resolve_alias(&table, "SR"), "S.RATE");
    assert_eq!(resolve_alias(&table, "TR"), "TR");
    assert_eq!(resolve_to_short(&table, "REV.WET"), "RWET");
    assert_eq!(resolve_to_short(&table, "S.RATE"), "SR");
    assert_eq!(resolve_to_short(&table, "M"), "M");
}

#[test]
fn devices_by_name() {
    let devs = vec![
        AudioDevice { name: "Speakers".to_string(), index: 0 },
        AudioDevice { name: "USB".to_string(), index: 2 },
    ];
    assert_eq!(devs[1].label(), "2: USB");
    let found = find_device_by_name(Ok(devs.clone()), "USB").unwrap().unwrap();
    assert_eq!(found.index, 2);
    assert!(find_device_by_name(Ok(devs), "HDMI").unwrap().is_none());
    assert_eq!(find_device_by_name(Err("no host".to_string()), "USB").unwrap_err(), "no host");
    assert_eq!(require_devices(vec![]).unwrap_err(), "No audio output devices found");
}

#[test]
fn clearing_every_undo_stack() {
    let mut scripts: Vec<UndoStack> = (0..3).map(|_| UndoStack::new()).collect();
    scripts[1].push(EditAction::DeleteLine { line_idx: 0, content: "A 1".to_string() });
    scripts[2].push_redo(EditAction::CutLine { line_idx: 1, content: "TR".to_string() });
    let mut notes = UndoStack::new();
    notes.push(EditAction::DeleteNotesLine { line_idx: 0, content: "hi".to_string() });
    clear_all_undo_stacks(&mut scripts, &mut notes);
    assert_eq!(scripts.len(), 3);
    assert!(scripts.iter().all(|s| s.undo.is_empty() && s.redo.is_empty()));
    assert!(notes.undo.is_empty() && notes.redo.is_empty());
}

#[test]
fn repeated_alias_keeps_the_last() {
    let table = [("X", "FIRST.X"), ("Y", "WHY"), ("X", "SECOND.X")];
    assert_eq!(resolve_alias(&table, "X"), "SECOND.X");
    assert_eq!(resolve_alias(&table, "Y"), "WHY");
}

#[test]
fn alias_round_trip() {
    let table = [("SR", "S.RATE"), ("RW", "REV.WET")];
    let short = resolve_to_short(&table, "REV.WET");
    assert_eq!(short, "RW");
    assert_eq!(resolve_alias(&table, &short), "REV.WET");
    assert_eq!(resolve_to_short(&table, "RW"), "RW");
}

#[test]
fn devices_numbered_in_host_order() {
    let names = vec![Some("Speakers".to_string()), None, Some("USB".to_string())];
    let devs = monokit::audio_devices::number_devices(&names);
    assert_eq!(devs.len(), 2);
    assert_eq!((devs[0].index, devs[0].name.as_str()), (0, "Speakers"));
    assert_eq!((devs[1].index, devs[1].name.as_str()), (2, "USB"));
    assert!(monokit::audio_devices::number_devices(&vec![None, None]).is_empty());
}

#[test]
fn each_page_keeps_its_own_undo() {
    let mut pages = Pages {
        scripts: (0..10).map(|_| LinePage::new()).collect(),
        script_undo: (0..10).map(|_| UndoStack::new()).collect(),
        notes: LinePage::new(),
        notes_undo: UndoStack::new(),
    };
    pages.scripts[2].selected_line = Some(1);
    pages.scripts[2].input = "A 5".to_string();
    save_line(&mut pages.scripts[2], &mut pages.script_undo[2], PageKind::Script);
    pages.notes.selected_line = Some(0);
    pages.notes.input = "hello".to_string();
    save_line(&mut pages.notes, &mut pages.notes_undo, PageKind::Notes);
    pages.undo_on(Page::Script3);
    assert_eq!(pages.scripts[2].lines[1], "");
    assert_eq!(pages.script_undo[2].undo.len(), 0);
    assert_eq!(pages.script_undo[2].redo.len(), 1);
    assert_eq!(pages.notes.lines[0], "hello");
    assert_eq!(pages.notes_undo.undo.len(), 1);
    pages.redo_on(Page::Script3);
    assert_eq!(pages.scripts[2].lines[1], "A 5");
    assert_eq!(pages.script_undo[2].redo.len(), 0);
    pages.undo_on(Page::Live);
    assert_eq!(pages.scripts[2].lines[1], "A 5");
    assert_eq!(pages.notes.lines[0], "hello");
    pages.undo_on(Page::Notes);
    assert_eq!(pages.notes.lines[0], "");
}

#[test]
fn validation_ignores_ascii_case() {
    for line in ["tr", "p.push 3", "if eq a 1: tr", "elif x: tr", "l 1 4: a i", "nope 1", "m.act", "a 1 2 3"] {
        assert_eq!(
            validate_script_command(line).is_ok(),
            validate_script_command(&line.to_ascii_uppercase()).is_ok(),
            "{}",
            line
        );
    }
    assert!(validate_script_command("else: tr").is_ok());
}

#[test]
fn routed_commands_are_stored_and_undone() {
    for line in ["N1", "TOG 1 2", "DEL 100: TR", "n2.rst", "SYNC"] {
        let mut page = LinePage::new();
        let mut stack = UndoStack::new();
        page.lines[2] = "A 1".to_string();
        page.selected_line = Some(2);
        page.input = line.to_string();
        assert!(matches!(save_line(&mut page, &mut stack, PageKind::Script), Edit::Made), "{}", line);
        assert_eq!(page.lines[2], line);
        undo(&mut page, &mut stack, PageKind::Script);
        assert_eq!(page.lines[2], "A 1");
        assert_eq!(stack.redo.len(), 1);
        match &stack.redo[0] {
            EditAction::SaveLine { line_idx, old, new } => {
                assert_eq!((*line_idx, old.as_str(), new.as_str()), (2, "A 1", line));
            }
            _ => panic!("not a save"),
        }
        redo(&mut page, &mut stack, PageKind::Script);
        assert_eq!(page.lines[2], line);
        assert!(stack.redo.is_empty());
    }
}

#[test]
fn unknown_commands_are_still_refused() {
    let mut page = LinePage::new();
    let mut stack = UndoStack::new();
    page.selected_line = Some(0);
    page.input = "NOPE 1".to_string();
    match save_line(&mut page, &mut stack, PageKind::Script) {
        Edit::Refused(m) => assert_eq!(m, "Unknown command: NOPE"),
        _ => panic!("stored"),
    }
    assert_eq!(page.lines[0], "");
    assert!(monokit::validate::validate_line("N1").is_ok());
    assert!(validate_script_command("N1").is_err());
}

#[test]
fn distinct_command_names() {
    assert!(table_names_distinct(&[("SR", "S.RATE"), ("RW", "REV.WET")]));
    assert!(!table_names_distinct(&[("X", "A"), ("Y", "B"), ("X", "C")]));
    assert!(table_names_distinct(&[]));
}
