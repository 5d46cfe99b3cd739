//! Searching help pages or scripts: the query being typed, the matches
//! found, and moving from match to match. Finding the matches for a query is
//! the caller's part; it hands them over with `Search::found`.

use vstd::prelude::*;
use crate::input_line::{delete_at, delete_char, insert_at, insert_char, inserted_char, ascii_upper, move_cursor_left, move_cursor_right};
use crate::navigation::{Navigation, Page};

verus! {

/// Where a match lies.
#[derive(Clone, Copy, PartialEq, Eq, Debug, Structural)]
pub enum SearchScope {
    /// On a help page.
    Help,
    /// In a script.
    Script,
}

/// One match: the page it is on, and its help page and line, or its line.
#[derive(Clone, Copy, PartialEq, Eq, Debug, Structural)]
pub struct SearchMatch {
    pub page: Page,
    pub scope: SearchScope,
    pub page_index: usize,
    pub line_index: usize,
}

/// The search being typed.
pub struct Search {
    pub mode: bool,
    pub query: String,
    pub cursor: usize,
    pub matches: Vec<SearchMatch>,
    pub current_match: usize,
}

/// `n` after moving to match `m`: its page is shown (and remembered, unless
/// it is help), then its help page and line, or its line, is selected.
pub open spec fn jumped(n: Navigation, m: SearchMatch) -> Navigation {
    let n1 = if m.page != n.current_page {
        Navigation {
            current_page: m.page,
            previous_page: if m.page != Page::Help { m.page } else { n.previous_page },
            ..n
        }
    } else {
        n
    };
    match m.scope {
        SearchScope::Help => Navigation { help_page: m.page_index, help_scroll: m.line_index, ..n1 },
        SearchScope::Script => Navigation { selected_line: Some(m.line_index), ..n1 },
    }
}

impl Search {
    /// The current match is one of the matches, or 0 where there are none.
    pub open spec fn wf(&self) -> bool {
        if self.matches@.len() == 0 {
            self.current_match == 0
        } else {
            self.current_match < self.matches@.len()
        }
    }

    pub fn new() -> (s: Search)
        ensures
            s.wf(),
            !s.mode,
            s.query@ == Seq::<char>::empty(),
            s.cursor == 0,
            s.matches@ == Seq::<SearchMatch>::empty(),
    {
        Search { mode: false, query: String::new(), cursor: 0, matches: Vec::new(), current_match: 0 }
    }

    /// Starts a search with an empty query.
    pub fn enter_search_mode(&mut self)
        ensures
            final(self).wf(),
            final(self).mode,
            final(self).query@ == Seq::<char>::empty(),
            final(self).cursor == 0,
            final(self).matches@ == Seq::<SearchMatch>::empty(),
            final(self).current_match == 0,
    {
        self.mode = true;
        self.query = String::new();
        self.cursor = 0;
        self.matches = Vec::new();
        self.current_match = 0;
    }

    /// Ends the search; the query and the matches are dropped (the cursor
    /// stays where it was).
    pub fn exit_search_mode(&mut self)
        ensures
            final(self).wf(),
            !final(self).mode,
            final(self).query@ == Seq::<char>::empty(),
            final(self).cursor == old(self).cursor,
            final(self).matches@ == Seq::<SearchMatch>::empty(),
            final(self).current_match == 0,
    {
        self.mode = false;
        self.query = String::new();
        self.matches = Vec::new();
        self.current_match = 0;
    }

    /// Moves `nav` to the current match.
    fn jump_to_current_match(&self, nav: &mut Navigation)
        requires
            self.wf(),
        ensures
            self.matches@.len() == 0 ==> *final(nav) == *old(nav),
            self.matches@.len() > 0 ==> *final(nav) == jumped(*old(nav), self.matches@[self.current_match as int]),
    {
        if self.matches.len() == 0 {
            return;
        }
        let m = self.matches[self.current_match];
        if m.page != nav.current_page {
            if m.page != Page::Help {
                nav.previous_page = m.page;
            }
            nav.current_page = m.page;
        }
        match m.scope {
            SearchScope::Help => {
                nav.help_page = m.page_index;
                nav.help_scroll = m.line_index;
            },
            SearchScope::Script => {
                nav.selected_line = Some(m.line_index);
            },
        }
    }

    /// Takes the matches found for the query; the first, if any, becomes
    /// the current match and `nav` moves to it.
    pub fn found(&mut self, matches: Vec<SearchMatch>, nav: &mut Navigation)
        ensures
            final(self).wf(),
            final(self).matches@ == matches@,
            final(self).current_match == 0,
            final(self).mode == old(self).mode,
            final(self).query@ == old(self).query@,
            final(self).cursor == old(self).cursor,
            matches@.len() == 0 ==> *final(nav) == *old(nav),
            matches@.len() > 0 ==> *final(nav) == jumped(*old(nav), matches@[0]),
    {
        self.matches = matches;
        self.current_match = 0;
        self.jump_to_current_match(nav);
    }

    /// Moves to the next match, after the last to the first.
    pub fn next_search_match(&mut self, nav: &mut Navigation)
        requires
            old(self).wf(),
        ensures
            final(self).wf(),
            final(self).matches@ == old(self).matches@,
            final(self).query@ == old(self).query@,
            final(self).cursor == old(self).cursor,
            final(self).mode == old(self).mode,
            old(self).matches@.len() == 0 ==> *final(nav) == *old(nav) && final(self).current_match
                == old(self).current_match,
            old(self).matches@.len() > 0 ==> final(self).current_match == (old(self).current_match + 1)
                % (old(self).matches@.len() as int) && *final(nav) == jumped(
                *old(nav),
                final(self).matches@[final(self).current_match as int],
            ),
    {
        if self.matches.len() == 0 {
            return;
        }
        self.current_match = (self.current_match + 1) % self.matches.len();
        self.jump_to_current_match(nav);
    }

    /// Moves to the previous match, before the first to the last.
    pub fn prev_search_match(&mut self, nav: &mut Navigation)
        requires
            old(self).wf(),
        ensures
            final(self).wf(),
            final(self).matches@ == old(self).matches@,
            final(self).query@ == old(self).query@,
            final(self).cursor == old(self).cursor,
            final(self).mode == old(self).mode,
            old(self).matches@.len() == 0 ==> *final(nav) == *old(nav) && final(self).current_match
                == old(self).current_match,
            old(self).matches@.len() > 0 ==> final(self).current_match == (if old(self).current_match == 0 {
                old(self).matches@.len() - 1
            } else {
                old(self).current_match - 1
            }) && *final(nav) == jumped(*old(nav), final(self).matches@[final(self).current_match as int]),
    {
        if self.matches.len() == 0 {
            return;
        }
        if self.current_match == 0 {
            self.current_match = self.matches.len() - 1;
        } else {
            self.current_match = self.current_match - 1;
        }
        self.jump_to_current_match(nav);
    }

    /// Types `c` (in ASCII upper case) into the query at the cursor. The
    /// caller then searches again and hands the matches to `found`.
    pub fn search_insert_char(&mut self, c: char)
        requires
            old(self).cursor < usize::MAX,
        ensures
            final(self).query@ == inserted_char(old(self).query@, insert_at(old(self).query@, old(self).cursor), ascii_upper(c)),
            final(self).cursor == old(self).cursor + 1,
            final(self).mode == old(self).mode,
            final(self).matches@ == old(self).matches@,
            final(self).current_match == old(self).current_match,
    {
        insert_char(&mut self.query, &mut self.cursor, c);
    }

    /// Removes the character before the cursor (the first one where the
    /// cursor is past the end); gives whether the query changed, after which
    /// the caller searches again.
    pub fn search_delete_char(&mut self) -> (changed: bool)
        requires
            old(self).cursor > 0 ==> old(self).query@.len() > 0,
        ensures
            changed == (old(self).cursor > 0),
            !changed ==> final(self).query@ == old(self).query@ && final(self).cursor == old(self).cursor,
            changed ==> final(self).query@ == old(self).query@.remove(delete_at(old(self).query@, old(self).cursor))
                && final(self).cursor == old(self).cursor - 1,
            final(self).mode == old(self).mode,
            final(self).matches@ == old(self).matches@,
            final(self).current_match == old(self).current_match,
    {
        if self.cursor > 0 {
            delete_char(&mut self.query, &mut self.cursor);
            true
        } else {
            false
        }
    }

    /// Moves the query's cursor one place left, if it can.
    pub fn search_move_cursor_left(&mut self)
        ensures
            final(self).cursor == if old(self).cursor > 0 { old(self).cursor - 1 } else { 0 },
            final(self).query@ == old(self).query@,
            final(self).matches@ == old(self).matches@,
            final(self).current_match == old(self).current_match,
            final(self).mode == old(self).mode,
    {
        move_cursor_left(&mut self.cursor);
    }

    /// Moves the query's cursor one place right, up to the end of the query.
    pub fn search_move_cursor_right(&mut self)
        ensures
            final(self).cursor == if old(self).cursor < old(self).query@.len() {
                (old(self).cursor + 1) as usize
            } else {
                old(self).cursor
            },
            final(self).query@ == old(self).query@,
            final(self).matches@ == old(self).matches@,
            final(self).current_match == old(self).current_match,
            final(self).mode == old(self).mode,
    {
        move_cursor_right(&self.query, &mut self.cursor);
    }
}

/// Moving to the next match and then to the previous one comes back to the
/// same match, and so does the other way round.
pub proof fn law_next_then_prev(current: usize, len: usize)
    requires
        current < len,
    ensures
        ({
            let next = (current + 1) % (len as int);
            (if next == 0 { len - 1 } else { next - 1 }) == current
        }),
        ({
            let prev = if current == 0 { len - 1 } else { current - 1 };
            (prev + 1) % (len as int) == current
        }),
{
    if current + 1 < len {
        vstd::arithmetic::div_mod::lemma_small_mod((current + 1) as nat, len as nat);
    } else {
        vstd::arithmetic::div_mod::lemma_mod_self_0(len as int);
    }
    if current == 0 {
        vstd::arithmetic::div_mod::lemma_mod_self_0(len as int);
    } else {
        vstd::arithmetic::div_mod::lemma_small_mod(current as nat, len as nat);
    }
}

} // verus!
