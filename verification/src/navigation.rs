//! Which page is shown, the help page, and moving between them.

use vstd::prelude::*;

verus! {

/// A page of the interface.
#[derive(Clone, Copy, PartialEq, Eq, Debug, Structural)]
pub enum Page {
    Live,
    Script1,
    Script2,
    Script3,
    Script4,
    Script5,
    Script6,
    Script7,
    Script8,
    Metro,
    Init,
    Patterns,
    Variables,
    Notes,
    Scope,
    Help,
}

/// The script a page edits, counted from 0 (the eight scripts, then the
/// metronome script and the init script).
pub open spec fn page_script(p: Page) -> Option<usize> {
    match p {
        Page::Script1 => Some(0usize),
        Page::Script2 => Some(1usize),
        Page::Script3 => Some(2usize),
        Page::Script4 => Some(3usize),
        Page::Script5 => Some(4usize),
        Page::Script6 => Some(5usize),
        Page::Script7 => Some(6usize),
        Page::Script8 => Some(7usize),
        Page::Metro => Some(8usize),
        Page::Init => Some(9usize),
        _ => None,
    }
}

/// The page shown and the page remembered after help is toggled: from help
/// back to the page remembered, else to help, remembering the page shown.
pub open spec fn help_toggled(current: Page, previous: Page) -> (Page, Page) {
    if current == Page::Help {
        (previous, previous)
    } else {
        (Page::Help, current)
    }
}

/// Where the interface stands.
pub struct Navigation {
    pub current_page: Page,
    /// The page to go back to from help.
    pub previous_page: Page,
    pub selected_line: Option<usize>,
    pub help_page: usize,
    pub help_scroll: usize,
}

impl Navigation {
    /// Shows `page`; a page other than help also becomes the page to go back
    /// to. No line stays selected.
    pub fn go_to_page(&mut self, page: Page)
        ensures
            final(self).current_page == page,
            final(self).previous_page == (if page != Page::Help {
                page
            } else {
                old(self).previous_page
            }),
            final(self).selected_line is None,
            final(self).help_page == old(self).help_page,
            final(self).help_scroll == old(self).help_scroll,
    {
        if page != Page::Help {
            self.previous_page = page;
        }
        self.current_page = page;
        self.selected_line = None;
    }

    /// Opens help, remembering the page shown, or leaves help for the page
    /// remembered.
    pub fn toggle_help(&mut self)
        ensures
            (final(self).current_page, final(self).previous_page) == help_toggled(
                old(self).current_page,
                old(self).previous_page,
            ),
            final(self).selected_line == old(self).selected_line,
            final(self).help_page == old(self).help_page,
            final(self).help_scroll == old(self).help_scroll,
    {
        if self.current_page == Page::Help {
            self.current_page = self.previous_page;
        } else {
            self.previous_page = self.current_page;
            self.current_page = Page::Help;
        }
    }

    /// The next of `categories` help pages, from the top.
    pub fn next_help_page(&mut self, categories: usize)
        requires
            categories > 0,
            old(self).help_page < usize::MAX,
        ensures
            final(self).help_page == (old(self).help_page + 1) % (categories as int),
            final(self).help_scroll == 0,
            final(self).current_page == old(self).current_page,
            final(self).previous_page == old(self).previous_page,
            final(self).selected_line == old(self).selected_line,
    {
        self.help_page = (self.help_page + 1) % categories;
        self.help_scroll = 0;
    }

    /// The previous of `categories` help pages (the last before the first),
    /// from the top.
    pub fn prev_help_page(&mut self, categories: usize)
        requires
            categories > 0,
        ensures
            final(self).help_page == (if old(self).help_page == 0 {
                (categories - 1) as usize
            } else {
                (old(self).help_page - 1) as usize
            }),
            final(self).help_scroll == 0,
            final(self).current_page == old(self).current_page,
            final(self).previous_page == old(self).previous_page,
            final(self).selected_line == old(self).selected_line,
    {
        if self.help_page == 0 {
            self.help_page = categories - 1;
        } else {
            self.help_page = self.help_page - 1;
        }
        self.help_scroll = 0;
    }

    /// Whether the page shown edits a script.
    pub fn is_script_page(&self) -> (b: bool)
        ensures
            b == page_script(self.current_page) is Some,
    {
        match self.current_page {
            Page::Script1 | Page::Script2 | Page::Script3 | Page::Script4 | Page::Script5 | Page::Script6
            | Page::Script7 | Page::Script8 | Page::Metro | Page::Init => true,
            _ => false,
        }
    }

    /// The script the page shown edits, if any.
    pub fn current_script_index(&self) -> (r: Option<usize>)
        ensures
            r == page_script(self.current_page),
    {
        match self.current_page {
            Page::Script1 => Some(0),
            Page::Script2 => Some(1),
            Page::Script3 => Some(2),
            Page::Script4 => Some(3),
            Page::Script5 => Some(4),
            Page::Script6 => Some(5),
            Page::Script7 => Some(6),
            Page::Script8 => Some(7),
            Page::Metro => Some(8),
            Page::Init => Some(9),
            _ => None,
        }
    }
}

/// Toggling help twice shows the page shown before, whatever it was.
pub proof fn law_help_round_trip(current: Page, previous: Page)
    ensures
        ({
            let (c1, p1) = help_toggled(current, previous);
            help_toggled(c1, p1).0 == current
        }),
{
}

/// Every page that edits a script edits one of the ten scripts, and no two
/// pages edit the same one.
pub proof fn law_script_pages(p: Page, q: Page)
    ensures
        page_script(p) matches Some(i) ==> i < 10,
        page_script(p) is Some && page_script(p) == page_script(q) ==> p == q,
{
}

} // verus!
