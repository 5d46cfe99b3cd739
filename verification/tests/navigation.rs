use monokit::console::{Console, Display, OutputCategory, OutputLog, OUTPUT_LIMIT, TIER_ESSENTIAL};
use monokit::navigation::{Navigation, Page};
use monokit::search::{Search, SearchMatch, SearchScope};

fn nav() -> Navigation {
    Navigation { current_page: Page::Live, previous_page: Page::Live, selected_line: Some(2), help_page: 0, help_scroll: 5 }
}

#[test]
fn going_to_pages() {
    let mut n = nav();
    n.go_to_page(Page::Script3);
    assert_eq!(n.current_page, Page::Script3);
    assert_eq!(n.previous_page, Page::Script3);
    assert_eq!(n.selected_line, None);
    n.go_to_page(Page::Help);
    assert_eq!(n.current_page, Page::Help);
    assert_eq!(n.previous_page, Page::Script3);
}

#[test]
fn help_round_trip() {
    let mut n = nav();
    n.go_to_page(Page::Notes);
    n.toggle_help();
    assert_eq!(n.current_page, Page::Help);
    assert_eq!(n.previous_page, Page::Notes);
    n.toggle_help();
    assert_eq!(n.current_page, Page::Notes);
}

#[test]
fn help_pages_wrap() {
    let mut n = nav();
    n.prev_help_page(4);
    assert_eq!(n.help_page, 3);
    assert_eq!(n.help_scroll, 0);
    n.next_help_page(4);
    assert_eq!(n.help_page, 0);
    n.next_help_page(4);
    assert_eq!(n.help_page, 1);
}

#[test]
fn script_pages() {
    let mut n = nav();
    assert!(!n.is_script_page());
    assert_eq!(n.current_script_index(), None);
    n.go_to_page(Page::Script8);
    assert!(n.is_script_page());
    assert_eq!(n.current_script_index(), Some(7));
    n.go_to_page(Page::Init);
    assert_eq!(n.current_script_index(), Some(9));
    n.go_to_page(Page::Metro);
    assert_eq!(n.current_script_index(), Some(8));
    n.go_to_page(Page::Patterns);
    assert!(!n.is_script_page());
}

fn m(page: Page, scope: SearchScope, page_index: usize, line_index: usize) -> SearchMatch {
    SearchMatch { page, scope, page_index, line_index }
}

#[test]
fn moving_between_matches() {
    let mut n = nav();
    let mut s = Search::new();
    s.enter_search_mode();
    s.found(
        vec![m(Page::Help, SearchScope::Help, 2, 7), m(Page::Script2, SearchScope::Script, 0, 3)],
        &mut n,
    );
    assert_eq!(n.current_page, Page::Help);
    assert_eq!(n.previous_page, Page::Live);
    assert_eq!((n.help_page, n.help_scroll), (2, 7));
    s.next_search_match(&mut n);
    assert_eq!(s.current_match, 1);
    assert_eq!(n.current_page, Page::Script2);
    assert_eq!(n.previous_page, Page::Script2);
    assert_eq!(n.selected_line, Some(3));
    s.next_search_match(&mut n);
    assert_eq!(s.current_match, 0);
    s.prev_search_match(&mut n);
    assert_eq!(s.current_match, 1);
    s.prev_search_match(&mut n);
    assert_eq!(s.current_match, 0);
    s.exit_search_mode();
    assert!(!s.mode);
    assert!(s.matches.is_empty());
}

#[test]
fn no_matches_leave_the_page() {
    let mut n = nav();
    let mut s = Search::new();
    s.found(vec![], &mut n);
    s.next_search_match(&mut n);
    assert_eq!(n.current_page, Page::Live);
    assert_eq!(n.selected_line, Some(2));
}

#[test]
fn typing_a_query() {
    let mut s = Search::new();
    s.enter_search_mode();
    s.search_insert_char('t');
    s.search_insert_char('r');
    assert_eq!(s.query, "TR");
    s.search_move_cursor_left();
    s.search_insert_char('x');
    assert_eq!(s.query, "TXR");
    assert!(s.search_delete_char());
    assert_eq!(s.query, "TR");
    assert_eq!(s.cursor, 1);
    s.search_move_cursor_left();
    assert!(!s.search_delete_char());
    s.search_move_cursor_right();
    s.search_move_cursor_right();
    s.search_move_cursor_right();
    assert_eq!(s.cursor, 2);
}

#[test]
fn output_screen_keeps_the_newest_lines() {
    let mut o = OutputLog::new();
    for i in 0..105 {
        o.add_output(format!("L{}", i));
    }
    assert_eq!(o.lines.len(), OUTPUT_LIMIT);
    assert_eq!(o.lines[0], "L5");
    assert_eq!(o.lines[99], "L104");
    o.scroll = 3;
    o.add_output("X".to_string());
    assert_eq!(o.scroll, 0);
    assert_eq!(o.lines.last().unwrap(), "X");
}

#[test]
fn display_rule_by_tier_and_switch() {
    let quiet = Display { debug_level: 0, out_err: false, out_ess: false, out_qry: false, out_cfm: false };
    assert!(quiet.should_output(OutputCategory::Always));
    assert!(!quiet.should_output(OutputCategory::Error));
    let errs = Display { out_err: true, ..quiet };
    assert!(errs.should_output(OutputCategory::Error));
    assert!(!errs.should_output(OutputCategory::Essential));
    let ess = Display { debug_level: TIER_ESSENTIAL, ..quiet };
    assert!(ess.should_output(OutputCategory::Error));
    assert!(ess.should_output(OutputCategory::Essential));
    assert!(ess.should_output(OutputCategory::EssentialLevel));
    assert!(!ess.should_output(OutputCategory::Confirm));
    let cfm = Display { out_cfm: true, ..quiet };
    assert!(cfm.should_output(OutputCategory::Confirm));
    assert!(!cfm.should_output(OutputCategory::ConfirmLevel));
    let mut c = Console::new();
    c.emit_str(OutputCategory::Error, "E");
    c.emit_str(OutputCategory::Always, "A");
    c.emit_str(OutputCategory::Confirm, "C");
    assert_eq!(c.take_shown(errs), vec!["E", "A"]);
    assert!(c.lines.is_empty());
}
