//! Editing a page of eight lines (a script or the notes): selecting a line,
//! saving the input line into it, duplicating, deleting, cutting, copying and
//! pasting lines, and undoing and redoing those edits.
//!
//! A script page checks a line before storing it; the notes page takes any
//! text. Each page records its edits with its own kind of `EditAction`.

use vstd::prelude::*;
use crate::history::{capped_push, popped, EditAction, UndoStack};
use crate::text::trim;
use crate::validate::{line_check, validate_line};
use crate::navigation::{page_script, Page};

verus! {

/// Lines on a page.
pub const PAGE_LINES: usize = 8;

/// Which page is edited.
#[derive(Clone, Copy, PartialEq, Eq, Debug, Structural)]
pub enum PageKind {
    Script,
    Notes,
}

/// A page of lines with its input line: the selected line (if any), the
/// text being edited and the cursor in it.
pub struct LinePage {
    pub lines: Vec<String>,
    pub selected_line: Option<usize>,
    pub input: String,
    pub cursor_position: usize,
}

/// A page as values.
pub struct PageView {
    pub lines: Seq<Seq<char>>,
    pub selected: Option<usize>,
    pub input: Seq<char>,
    pub cursor: usize,
}

impl View for LinePage {
    type V = PageView;

    open spec fn view(&self) -> PageView {
        PageView {
            lines: self.lines@.map_values(|s: String| s@),
            selected: self.selected_line,
            input: self.input@,
            cursor: self.cursor_position,
        }
    }
}

impl LinePage {
    /// Eight lines, and the selection on one of them.
    pub open spec fn wf(&self) -> bool {
        &&& self.lines@.len() == PAGE_LINES
        &&& self.selected_line matches Some(k) ==> k < PAGE_LINES
    }

    /// An empty page with nothing selected.
    pub fn new() -> (p: LinePage)
        ensures
            p.wf(),
            p@.lines == Seq::new(8, |i: int| Seq::<char>::empty()),
            p@.selected is None,
            p@.input == Seq::<char>::empty(),
            p@.cursor == 0,
    {
        let mut lines: Vec<String> = Vec::new();
        let mut i: usize = 0;
        while i < PAGE_LINES
            invariant
                i <= PAGE_LINES,
                lines@.len() == i,
                forall|j: int| 0 <= j < i ==> lines@[j]@ == Seq::<char>::empty(),
            decreases PAGE_LINES - i,
        {
            lines.push(String::new());
            i = i + 1;
        }
        let p = LinePage { lines, selected_line: None, input: String::new(), cursor_position: 0 };
        proof {
            assert(p@.lines =~= Seq::new(8, |i: int| Seq::<char>::empty()));
        }
        p
    }
}

/// The length of `s` in UTF-8 bytes (`str::len`), where the cursor is put
/// after a whole line is loaded into the input.
pub open spec fn byte_len(s: Seq<char>) -> usize {
    vstd::utf8::encode_utf8(s).len() as usize
}

/// What an edit came to.
#[derive(Clone, PartialEq, Eq, Debug)]
pub enum Edit {
    /// Nothing was changed.
    Nothing,
    /// The page was changed.
    Made,
    /// The line was refused, for the reason given.
    Refused(String),
}

/// `v` with line `k` showing in the input line, selected.
pub open spec fn shown(v: PageView, k: int) -> PageView {
    PageView { selected: Some(k as usize), input: v.lines[k], cursor: byte_len(v.lines[k]), ..v }
}

/// `v` with line `k` set to `s`; where line `k` is selected, the input line
/// shows `s` too.
pub open spec fn set_line(v: PageView, k: int, s: Seq<char>) -> PageView {
    let lines = v.lines.update(k, s);
    if v.selected == Some(k as usize) {
        PageView { lines, input: s, cursor: byte_len(s), ..v }
    } else {
        PageView { lines, ..v }
    }
}

/// The line the save goes to: the selected one, else the first empty one,
/// else the last.
pub open spec fn save_target(v: PageView) -> int {
    match v.selected {
        Some(k) => k as int,
        None => if exists|i: int| 0 <= i < 8 && #[trigger] v.lines[i].len() == 0 {
            choose|i: int|
                0 <= i < 8 && #[trigger] v.lines[i].len() == 0 && forall|j: int|
                    0 <= j < i ==> v.lines[j].len() > 0
        } else {
            7
        },
    }
}

/// The page after line `k` is duplicated below itself: the lines below
/// move down one, the last one dropping off.
pub open spec fn duplicated(lines: Seq<Seq<char>>, k: int) -> Seq<Seq<char>> {
    Seq::new(
        lines.len(),
        |j: int|
            if j <= k {
                lines[j]
            } else if j == k + 1 {
                lines[k]
            } else {
                lines[j - 1]
            },
    )
}

/// Taking back a duplication of line `k`, with `shifted` the lines that were
/// below it: the line under `k` is emptied, and `shifted` is written from two
/// lines under `k` on, as far as the page goes.
pub open spec fn unduplicated(lines: Seq<Seq<char>>, k: int, shifted: Seq<Seq<char>>) -> Seq<Seq<char>> {
    Seq::new(
        lines.len(),
        |j: int|
            if j == k + 1 {
                Seq::empty()
            } else if k + 2 <= j && j - (k + 2) < shifted.len() {
                shifted[j - (k + 2)]
            } else {
                lines[j]
            },
    )
}

/// The views of a list of strings.
pub open spec fn texts(v: Seq<String>) -> Seq<Seq<char>> {
    v.map_values(|s: String| s@)
}

/// The edit kinds of page `kind`.
pub open spec fn save_action(kind: PageKind, k: usize, old: Seq<char>, new: Seq<char>, a: EditAction) -> bool {
    match (kind, a) {
        (PageKind::Script, EditAction::SaveLine { line_idx, old: o, new: n }) => line_idx == k && o@ == old && n@ == new,
        (PageKind::Notes, EditAction::SaveNotesLine { line_idx, old: o, new: n }) => line_idx == k && o@ == old && n@ == new,
        _ => false,
    }
}

pub open spec fn paste_action(kind: PageKind, k: usize, old: Seq<char>, new: Seq<char>, a: EditAction) -> bool {
    match (kind, a) {
        (PageKind::Script, EditAction::PasteLine { line_idx, old: o, new: n }) => line_idx == k && o@ == old && n@ == new,
        (PageKind::Notes, EditAction::PasteNotesLine { line_idx, old: o, new: n }) => line_idx == k && o@ == old && n@ == new,
        _ => false,
    }
}

pub open spec fn delete_action(kind: PageKind, k: usize, content: Seq<char>, a: EditAction) -> bool {
    match (kind, a) {
        (PageKind::Script, EditAction::DeleteLine { line_idx, content: c }) => line_idx == k && c@ == content,
        (PageKind::Notes, EditAction::DeleteNotesLine { line_idx, content: c }) => line_idx == k && c@ == content,
        _ => false,
    }
}

pub open spec fn cut_action(kind: PageKind, k: usize, content: Seq<char>, a: EditAction) -> bool {
    match (kind, a) {
        (PageKind::Script, EditAction::CutLine { line_idx, content: c }) => line_idx == k && c@ == content,
        (PageKind::Notes, EditAction::CutNotesLine { line_idx, content: c }) => line_idx == k && c@ == content,
        _ => false,
    }
}

pub open spec fn duplicate_action(kind: PageKind, k: usize, shifted: Seq<Seq<char>>, a: EditAction) -> bool {
    match (kind, a) {
        (PageKind::Script, EditAction::DuplicateLine { line_idx, shifted_lines }) => line_idx == k && texts(shifted_lines@) == shifted,
        (PageKind::Notes, EditAction::DuplicateNotesLine { line_idx, shifted_lines }) => line_idx == k && texts(shifted_lines@) == shifted,
        _ => false,
    }
}

/// Whether the line `s` may be stored on page `kind`: a script line must
/// pass the line check (its command known to the argument table or run by
/// the router) unless it is blank; notes take anything.
pub open spec fn line_ok(kind: PageKind, s: Seq<char>) -> Result<(), Seq<char>> {
    if kind == PageKind::Script && trim(s).len() > 0 {
        line_check(s)
    } else {
        Ok(())
    }
}

fn check_line(kind: PageKind, s: &String) -> (r: Result<(), String>)
    ensures
        match (r, line_ok(kind, s@)) {
            (Ok(_), Ok(_)) => true,
            (Err(e), Err(m)) => e@ == m,
            _ => false,
        },
{
    match kind {
        PageKind::Notes => Ok(()),
        PageKind::Script => {
            let cs = crate::text::str_chars(s.as_str());
            let t = crate::text::trim_chars(cs.as_slice());
            if t.len() == 0 {
                Ok(())
            } else {
                validate_line(s.as_str())
            }
        },
    }
}

fn save_edit(kind: PageKind, line_idx: usize, old: String, new: String) -> (a: EditAction)
    ensures
        save_action(kind, line_idx, old@, new@, a),
{
    match kind {
        PageKind::Script => EditAction::SaveLine { line_idx, old, new },
        PageKind::Notes => EditAction::SaveNotesLine { line_idx, old, new },
    }
}

fn paste_edit(kind: PageKind, line_idx: usize, old: String, new: String) -> (a: EditAction)
    ensures
        paste_action(kind, line_idx, old@, new@, a),
{
    match kind {
        PageKind::Script => EditAction::PasteLine { line_idx, old, new },
        PageKind::Notes => EditAction::PasteNotesLine { line_idx, old, new },
    }
}

fn delete_edit(kind: PageKind, line_idx: usize, content: String) -> (a: EditAction)
    ensures
        delete_action(kind, line_idx, content@, a),
{
    match kind {
        PageKind::Script => EditAction::DeleteLine { line_idx, content },
        PageKind::Notes => EditAction::DeleteNotesLine { line_idx, content },
    }
}

fn cut_edit(kind: PageKind, line_idx: usize, content: String) -> (a: EditAction)
    ensures
        cut_action(kind, line_idx, content@, a),
{
    match kind {
        PageKind::Script => EditAction::CutLine { line_idx, content },
        PageKind::Notes => EditAction::CutNotesLine { line_idx, content },
    }
}

fn duplicate_edit(kind: PageKind, line_idx: usize, shifted_lines: Vec<String>) -> (a: EditAction)
    ensures
        duplicate_action(kind, line_idx, texts(shifted_lines@), a),
{
    match kind {
        PageKind::Script => EditAction::DuplicateLine { line_idx, shifted_lines },
        PageKind::Notes => EditAction::DuplicateNotesLine { line_idx, shifted_lines },
    }
}

/// Selects the line above (the last where none is), and loads it.
pub fn select_line_up(page: &mut LinePage)
    requires
        old(page).wf(),
    ensures
        final(page).wf(),
        final(page)@ == shown(old(page)@, match old(page)@.selected {
            None => 7,
            Some(k) => if k == 0 { 0 } else { k - 1 },
        }),
{
    let k: usize = match page.selected_line {
        None => 7,
        Some(0) => 0,
        Some(n) => n - 1,
    };
    page.selected_line = Some(k);
    page.input = page.lines[k].clone();
    page.cursor_position = page.input.as_str().len();
}

/// Selects the line below (the first where none is), and loads it.
pub fn select_line_down(page: &mut LinePage)
    requires
        old(page).wf(),
    ensures
        final(page).wf(),
        final(page)@ == shown(old(page)@, match old(page)@.selected {
            None => 0,
            Some(k) => if k == 7 { 7 } else { k + 1 },
        }),
{
    let k: usize = match page.selected_line {
        None => 0,
        Some(7) => 7,
        Some(n) => n + 1,
    };
    page.selected_line = Some(k);
    page.input = page.lines[k].clone();
    page.cursor_position = page.input.as_str().len();
}

/// The page after the input line is saved into line `k`: the next line
/// (wrapping to the first) is selected and the input is emptied.
pub open spec fn saved(v: PageView, k: int) -> PageView {
    PageView {
        lines: v.lines.update(k, v.input),
        selected: Some((if k < 7 { k + 1 } else { 0 }) as usize),
        input: Seq::empty(),
        cursor: 0,
    }
}

/// The page after line `k` is emptied along with the input line.
pub open spec fn blanked(v: PageView, k: int) -> PageView {
    PageView { lines: v.lines.update(k, Seq::empty()), input: Seq::empty(), cursor: 0, ..v }
}

/// The page after the clipboard `c` is pasted into the selected line `k`,
/// which the input line then shows.
pub open spec fn pasted(v: PageView, k: int, c: Seq<char>) -> PageView {
    PageView { lines: v.lines.update(k, c), input: c, cursor: byte_len(c), ..v }
}

/// `page` and `stack` are unchanged.
pub open spec fn untouched(p0: PageView, p1: PageView, s0: UndoStack, s1: UndoStack) -> bool {
    p1 == p0 && s1.undo@ == s0.undo@ && s1.redo@ == s0.redo@
}

/// `new` is `old` with `a` recorded as a new edit.
pub open spec fn recorded(s0: UndoStack, s1: UndoStack, a: EditAction) -> bool {
    s1.undo@ == capped_push(s0.undo@, a) && s1.redo@ == Seq::<EditAction>::empty()
}

fn clear_line(page: &mut LinePage, k: usize)
    requires
        old(page).wf(),
        k < 8,
    ensures
        final(page).wf(),
        final(page)@ == blanked(old(page)@, k as int),
{
    page.lines.set(k, String::new());
    page.input = String::new();
    page.cursor_position = 0;
    proof {
        assert(page@.lines =~= old(page)@.lines.update(k as int, Seq::empty()));
    }
}

/// Saves the input line into the selected line (or the first empty one, or
/// the last), recording the edit; a script line that fails the check is
/// refused.
pub fn save_line(page: &mut LinePage, stack: &mut UndoStack, kind: PageKind) -> (r: Edit)
    requires
        old(page).wf(),
    ensures
        final(page).wf(),
        match line_ok(kind, old(page)@.input) {
            Err(m) => (r matches Edit::Refused(e) && e@ == m) && untouched(
                old(page)@,
                final(page)@,
                *old(stack),
                *final(stack),
            ),
            Ok(_) => {
                let k = save_target(old(page)@);
                &&& r == Edit::Made
                &&& 0 <= k < 8
                &&& final(page)@ == saved(old(page)@, k)
                &&& exists|a: EditAction|
                    save_action(kind, k as usize, old(page)@.lines[k], old(page)@.input, a) && recorded(
                        *old(stack),
                        *final(stack),
                        a,
                    )
            },
        },
{
    let k: usize = match page.selected_line {
        Some(s) => s,
        None => {
            let mut i: usize = 0;
            while i < PAGE_LINES && !page.lines[i].as_str().is_empty()
                invariant
                    i <= PAGE_LINES,
                    page.lines@.len() == PAGE_LINES,
                    forall|j: int| 0 <= j < i ==> page.lines@[j]@.len() > 0,
                decreases PAGE_LINES - i,
            {
                i = i + 1;
            }
            proof {
                let v = page@;
                assert forall|j: int| 0 <= j < i implies #[trigger] v.lines[j].len() > 0 by {
                    assert(v.lines[j] == page.lines@[j]@);
                }
            }
            if i < PAGE_LINES {
                proof {
                    let v = page@;
                    assert(v.lines[i as int] == page.lines@[i as int]@);
                    let c = choose|c: int|
                        0 <= c < 8 && #[trigger] v.lines[c].len() == 0 && forall|j: int|
                            0 <= j < c ==> v.lines[j].len() > 0;
                    if c < i {
                        assert(v.lines[c].len() > 0);
                    } else if c > i {
                        assert(v.lines[i as int].len() > 0);
                    }
                }
                i
            } else {
                7
            }
        },
    };
    assert(k == save_target(old(page)@));
    match check_line(kind, &page.input) {
        Err(e) => return Edit::Refused(e),
        Ok(_) => {},
    }
    let old_text = page.lines[k].clone();
    let new_text = page.input.clone();
    let a = save_edit(kind, k, old_text, new_text);
    let ghost ga = a;
    stack.push(a);
    let line = page.input.clone();
    page.lines.set(k, line);
    page.selected_line = Some(if k < 7 {
        k + 1
    } else {
        0
    });
    page.input = String::new();
    page.cursor_position = 0;
    proof {
        assert(page@.lines =~= old(page)@.lines.update(k as int, old(page)@.input));
        assert(save_action(kind, k, old(page)@.lines[k as int], old(page)@.input, ga));
        assert(recorded(*old(stack), *stack, ga));
    }
    Edit::Made
}

/// Line `k` copied below itself, the lines below moving down one.
fn copy_below(page: &mut LinePage, k: usize)
    requires
        old(page).wf(),
        k < 7,
    ensures
        final(page).wf(),
        final(page)@ == (PageView { lines: duplicated(old(page)@.lines, k as int), ..old(page)@ }),
{
    let content = page.lines[k].clone();
    let mut j: usize = 7;
    while j >= k + 2
        invariant
            k < 7,
            k + 1 <= j <= 7,
            page.lines@.len() == PAGE_LINES,
            content@ == old(page)@.lines[k as int],
            page.selected_line == old(page).selected_line,
            page.input == old(page).input,
            page.cursor_position == old(page).cursor_position,
            forall|m: int| 0 <= m <= j ==> (#[trigger] page.lines@[m])@ == old(page)@.lines[m],
            forall|m: int| j < m < 8 ==> (#[trigger] page.lines@[m])@ == old(page)@.lines[m - 1],
        decreases j,
    {
        let above = page.lines[j - 1].clone();
        page.lines.set(j, above);
        j = j - 1;
    }
    page.lines.set(k + 1, content);
    proof {
        assert(page@.lines =~= duplicated(old(page)@.lines, k as int));
    }
}

/// Duplicates the selected line below itself (not the last line), moving
/// the lines below down one and recording those lines.
pub fn duplicate_line(page: &mut LinePage, stack: &mut UndoStack, kind: PageKind) -> (r: Edit)
    requires
        old(page).wf(),
    ensures
        final(page).wf(),
        match old(page)@.selected {
            Some(k) if k < 7 => {
                &&& r == Edit::Made
                &&& final(page)@ == (PageView {
                    lines: duplicated(old(page)@.lines, k as int),
                    selected: Some((k + 1) as usize),
                    ..old(page)@
                })
                &&& exists|a: EditAction|
                    duplicate_action(kind, k, old(page)@.lines.subrange(k + 1, 8), a) && recorded(
                        *old(stack),
                        *final(stack),
                        a,
                    )
            },
            _ => r == Edit::Nothing && untouched(old(page)@, final(page)@, *old(stack), *final(stack)),
        },
{
    let k = match page.selected_line {
        Some(k) => k,
        None => return Edit::Nothing,
    };
    if k >= 7 {
        return Edit::Nothing;
    }
    let mut shifted: Vec<String> = Vec::new();
    let mut i: usize = k + 1;
    while i < PAGE_LINES
        invariant
            k < 7,
            k + 1 <= i <= PAGE_LINES,
            page.lines@.len() == PAGE_LINES,
            page@ == old(page)@,
            texts(shifted@) == old(page)@.lines.subrange(k + 1, i as int),
        decreases PAGE_LINES - i,
    {
        let ghost before = shifted@;
        shifted.push(page.lines[i].clone());
        proof {
            assert(shifted@ == before.push(page.lines@[i as int]));
            assert(texts(shifted@) =~= texts(before).push(page.lines@[i as int]@));
            assert(page.lines@[i as int]@ == page@.lines[i as int]);
            assert(texts(shifted@) =~= old(page)@.lines.subrange(k + 1, i + 1));
        }
        i = i + 1;
    }
    let a = duplicate_edit(kind, k, shifted);
    let ghost ga = a;
    stack.push(a);
    copy_below(page, k);
    page.selected_line = Some(k + 1);
    proof {
        assert(page@.lines =~= duplicated(old(page)@.lines, k as int));
        assert(recorded(*old(stack), *stack, ga));
    }
    Edit::Made
}

/// Empties the selected line and the input line, recording the deleted text
/// where there was any.
pub fn delete_entire_line(page: &mut LinePage, stack: &mut UndoStack, kind: PageKind) -> (r: Edit)
    requires
        old(page).wf(),
    ensures
        final(page).wf(),
        match old(page)@.selected {
            Some(k) => {
                let content = old(page)@.lines[k as int];
                &&& r == Edit::Made
                &&& final(page)@ == blanked(old(page)@, k as int)
                &&& content.len() == 0 ==> final(stack).undo@ == old(stack).undo@ && final(stack).redo@ == old(stack).redo@
                &&& content.len() > 0 ==> exists|a: EditAction|
                    delete_action(kind, k, content, a) && recorded(*old(stack), *final(stack), a)
            },
            None => r == Edit::Nothing && untouched(old(page)@, final(page)@, *old(stack), *final(stack)),
        },
{
    let k = match page.selected_line {
        Some(k) => k,
        None => return Edit::Nothing,
    };
    let content = page.lines[k].clone();
    if !content.as_str().is_empty() {
        let a = delete_edit(kind, k, content);
        let ghost ga = a;
        stack.push(a);
        proof {
            assert(delete_action(kind, k, old(page)@.lines[k as int], ga));
        }
    }
    clear_line(page, k);
    Edit::Made
}

/// Copies the selected line to the clipboard.
pub fn copy_line(page: &LinePage, clipboard: &mut String)
    requires
        page.wf(),
    ensures
        match page@.selected {
            Some(k) => final(clipboard)@ == page@.lines[k as int],
            None => final(clipboard)@ == old(clipboard)@,
        },
{
    match page.selected_line {
        Some(k) => {
            *clipboard = page.lines[k].clone();
        },
        None => {},
    }
}

/// Moves the selected line to the clipboard, emptying it and the input
/// line, and recording the cut text where there was any.
pub fn cut_line(page: &mut LinePage, clipboard: &mut String, stack: &mut UndoStack, kind: PageKind) -> (r: Edit)
    requires
        old(page).wf(),
    ensures
        final(page).wf(),
        match old(page)@.selected {
            Some(k) => {
                let content = old(page)@.lines[k as int];
                &&& r == Edit::Made
                &&& final(clipboard)@ == content
                &&& final(page)@ == blanked(old(page)@, k as int)
                &&& content.len() == 0 ==> final(stack).undo@ == old(stack).undo@ && final(stack).redo@ == old(stack).redo@
                &&& content.len() > 0 ==> exists|a: EditAction|
                    cut_action(kind, k, content, a) && recorded(*old(stack), *final(stack), a)
            },
            None => r == Edit::Nothing && final(clipboard)@ == old(clipboard)@ && untouched(
                old(page)@,
                final(page)@,
                *old(stack),
                *final(stack),
            ),
        },
{
    let k = match page.selected_line {
        Some(k) => k,
        None => return Edit::Nothing,
    };
    let content = page.lines[k].clone();
    *clipboard = content.clone();
    if !content.as_str().is_empty() {
        let a = cut_edit(kind, k, content);
        let ghost ga = a;
        stack.push(a);
        proof {
            assert(cut_action(kind, k, old(page)@.lines[k as int], ga));
        }
    }
    clear_line(page, k);
    Edit::Made
}

/// Pastes the clipboard into the selected line and the input line,
/// recording the edit; on a script page a clipboard line that fails the
/// check is refused.
pub fn paste_line(page: &mut LinePage, clipboard: &String, stack: &mut UndoStack, kind: PageKind) -> (r: Edit)
    requires
        old(page).wf(),
    ensures
        final(page).wf(),
        match old(page)@.selected {
            None => r == Edit::Nothing && untouched(old(page)@, final(page)@, *old(stack), *final(stack)),
            Some(k) => match line_ok(kind, clipboard@) {
                Err(m) => (r matches Edit::Refused(e) && e@ == m) && untouched(
                    old(page)@,
                    final(page)@,
                    *old(stack),
                    *final(stack),
                ),
                Ok(_) => {
                    &&& r == Edit::Made
                    &&& final(page)@ == pasted(old(page)@, k as int, clipboard@)
                    &&& exists|a: EditAction|
                        paste_action(kind, k, old(page)@.lines[k as int], clipboard@, a) && recorded(
                            *old(stack),
                            *final(stack),
                            a,
                        )
                },
            },
        },
{
    let k = match page.selected_line {
        Some(k) => k,
        None => return Edit::Nothing,
    };
    match check_line(kind, clipboard) {
        Err(e) => return Edit::Refused(e),
        Ok(_) => {},
    }
    let old_text = page.lines[k].clone();
    let a = paste_edit(kind, k, old_text, clipboard.clone());
    let ghost ga = a;
    stack.push(a);
    page.lines.set(k, clipboard.clone());
    page.input = clipboard.clone();
    page.cursor_position = page.input.as_str().len();
    proof {
        assert(page@.lines =~= old(page)@.lines.update(k as int, clipboard@));
        assert(paste_action(kind, k, old(page)@.lines[k as int], clipboard@, ga));
        assert(recorded(*old(stack), *stack, ga));
    }
    Edit::Made
}

/// Whether edit `a`, taken back or done again on page `kind`, stays on the
/// page: its line exists, and a duplicated line has one below it.
pub open spec fn fits(kind: PageKind, a: EditAction) -> bool {
    match a {
        EditAction::SaveLine { line_idx, .. } => kind == PageKind::Script ==> line_idx < 8,
        EditAction::DeleteLine { line_idx, .. } => kind == PageKind::Script ==> line_idx < 8,
        EditAction::DuplicateLine { line_idx, .. } => kind == PageKind::Script ==> line_idx < 7,
        EditAction::CutLine { line_idx, .. } => kind == PageKind::Script ==> line_idx < 8,
        EditAction::PasteLine { line_idx, .. } => kind == PageKind::Script ==> line_idx < 8,
        EditAction::SaveNotesLine { line_idx, .. } => kind == PageKind::Notes ==> line_idx < 8,
        EditAction::DeleteNotesLine { line_idx, .. } => kind == PageKind::Notes ==> line_idx < 8,
        EditAction::DuplicateNotesLine { line_idx, .. } => kind == PageKind::Notes ==> line_idx < 7,
        EditAction::CutNotesLine { line_idx, .. } => kind == PageKind::Notes ==> line_idx < 8,
        EditAction::PasteNotesLine { line_idx, .. } => kind == PageKind::Notes ==> line_idx < 8,
    }
}

/// Taking back a duplication of line `k`: see `unduplicated`; line `k` is
/// selected and shown.
pub open spec fn undup(v: PageView, k: int, shifted: Seq<Seq<char>>) -> PageView {
    let lines = unduplicated(v.lines, k, shifted);
    PageView { lines, selected: Some(k as usize), input: lines[k], cursor: byte_len(lines[k]) }
}

/// Doing a duplication of line `k` again, selecting the copy.
pub open spec fn redup(v: PageView, k: int) -> PageView {
    PageView { lines: duplicated(v.lines, k), selected: Some((k + 1) as usize), ..v }
}

/// What taking back `a` does to page `v` of kind `kind`; the edits of the
/// other page's kind change nothing.
pub open spec fn undo_effect(kind: PageKind, v: PageView, a: EditAction) -> PageView {
    let script = kind == PageKind::Script;
    let notes = kind == PageKind::Notes;
    match a {
        EditAction::SaveLine { line_idx, old, .. } => if script { set_line(v, line_idx as int, old@) } else { v },
        EditAction::DeleteLine { line_idx, content } => if script { set_line(v, line_idx as int, content@) } else { v },
        EditAction::DuplicateLine { line_idx, shifted_lines } => if script {
            undup(v, line_idx as int, texts(shifted_lines@))
        } else {
            v
        },
        EditAction::CutLine { line_idx, content } => if script { set_line(v, line_idx as int, content@) } else { v },
        EditAction::PasteLine { line_idx, old, .. } => if script { set_line(v, line_idx as int, old@) } else { v },
        EditAction::SaveNotesLine { line_idx, old, .. } => if notes { set_line(v, line_idx as int, old@) } else { v },
        EditAction::DeleteNotesLine { line_idx, content } => if notes {
            set_line(v, line_idx as int, content@)
        } else {
            v
        },
        EditAction::DuplicateNotesLine { line_idx, shifted_lines } => if notes {
            undup(v, line_idx as int, texts(shifted_lines@))
        } else {
            v
        },
        EditAction::CutNotesLine { line_idx, content } => if notes { set_line(v, line_idx as int, content@) } else { v },
        EditAction::PasteNotesLine { line_idx, old, .. } => if notes { set_line(v, line_idx as int, old@) } else { v },
    }
}

/// What doing `a` again does to page `v` of kind `kind`; the edits of the
/// other page's kind change nothing.
pub open spec fn redo_effect(kind: PageKind, v: PageView, a: EditAction) -> PageView {
    let script = kind == PageKind::Script;
    let notes = kind == PageKind::Notes;
    match a {
        EditAction::SaveLine { line_idx, new, .. } => if script { set_line(v, line_idx as int, new@) } else { v },
        EditAction::DeleteLine { line_idx, .. } => if script { set_line(v, line_idx as int, Seq::empty()) } else { v },
        EditAction::DuplicateLine { line_idx, .. } => if script { redup(v, line_idx as int) } else { v },
        EditAction::CutLine { line_idx, .. } => if script { set_line(v, line_idx as int, Seq::empty()) } else { v },
        EditAction::PasteLine { line_idx, new, .. } => if script { set_line(v, line_idx as int, new@) } else { v },
        EditAction::SaveNotesLine { line_idx, new, .. } => if notes { set_line(v, line_idx as int, new@) } else { v },
        EditAction::DeleteNotesLine { line_idx, .. } => if notes {
            set_line(v, line_idx as int, Seq::empty())
        } else {
            v
        },
        EditAction::DuplicateNotesLine { line_idx, .. } => if notes { redup(v, line_idx as int) } else { v },
        EditAction::CutNotesLine { line_idx, .. } => if notes { set_line(v, line_idx as int, Seq::empty()) } else { v },
        EditAction::PasteNotesLine { line_idx, new, .. } => if notes { set_line(v, line_idx as int, new@) } else { v },
    }
}

fn set_line_to(page: &mut LinePage, k: usize, s: &String)
    requires
        old(page).wf(),
        k < 8,
    ensures
        final(page).wf(),
        final(page)@ == set_line(old(page)@, k as int, s@),
{
    page.lines.set(k, s.clone());
    if page.selected_line == Some(k) {
        page.input = s.clone();
        page.cursor_position = page.input.as_str().len();
    }
    proof {
        assert(page@.lines =~= old(page)@.lines.update(k as int, s@));
    }
}

fn undo_duplicate(page: &mut LinePage, k: usize, shifted: &Vec<String>)
    requires
        old(page).wf(),
        k < 7,
    ensures
        final(page).wf(),
        final(page)@ == undup(old(page)@, k as int, texts(shifted@)),
{
    page.lines.set(k + 1, String::new());
    let n = shifted.len();
    let mut i: usize = 0;
    while i < n
        invariant
            k < 7,
            n == shifted@.len(),
            i <= n,
            page.lines@.len() == PAGE_LINES,
            page.selected_line == old(page).selected_line,
            forall|j: int|
                0 <= j < 8 ==> (#[trigger] page.lines@[j])@ == (if j == k + 1 {
                    Seq::<char>::empty()
                } else if k + 2 <= j && j - (k + 2) < i {
                    shifted@[j - (k + 2)]@
                } else {
                    old(page)@.lines[j]
                }),
        decreases n - i,
    {
        if k <= 5 && i <= 5 - k {
            page.lines.set(k + 2 + i, shifted[i].clone());
        }
        i = i + 1;
    }
    page.selected_line = Some(k);
    page.input = page.lines[k].clone();
    page.cursor_position = page.input.as_str().len();
    proof {
        assert(page@.lines =~= unduplicated(old(page)@.lines, k as int, texts(shifted@)));
    }
}

fn apply_undo(page: &mut LinePage, a: &EditAction, kind: PageKind)
    requires
        old(page).wf(),
        fits(kind, *a),
    ensures
        final(page).wf(),
        final(page)@ == undo_effect(kind, old(page)@, *a),
{
    let script = kind == PageKind::Script;
    let notes = kind == PageKind::Notes;
    match a {
        EditAction::SaveLine { line_idx, old, .. } => if script { set_line_to(page, *line_idx, old) },
        EditAction::DeleteLine { line_idx, content } => if script { set_line_to(page, *line_idx, content) },
        EditAction::DuplicateLine { line_idx, shifted_lines } => if script {
            undo_duplicate(page, *line_idx, shifted_lines)
        },
        EditAction::CutLine { line_idx, content } => if script { set_line_to(page, *line_idx, content) },
        EditAction::PasteLine { line_idx, old, .. } => if script { set_line_to(page, *line_idx, old) },
        EditAction::SaveNotesLine { line_idx, old, .. } => if notes { set_line_to(page, *line_idx, old) },
        EditAction::DeleteNotesLine { line_idx, content } => if notes { set_line_to(page, *line_idx, content) },
        EditAction::DuplicateNotesLine { line_idx, shifted_lines } => if notes {
            undo_duplicate(page, *line_idx, shifted_lines)
        },
        EditAction::CutNotesLine { line_idx, content } => if notes { set_line_to(page, *line_idx, content) },
        EditAction::PasteNotesLine { line_idx, old, .. } => if notes { set_line_to(page, *line_idx, old) },
    }
}

fn apply_redo(page: &mut LinePage, a: &EditAction, kind: PageKind)
    requires
        old(page).wf(),
        fits(kind, *a),
    ensures
        final(page).wf(),
        final(page)@ == redo_effect(kind, old(page)@, *a),
{
    let script = kind == PageKind::Script;
    let notes = kind == PageKind::Notes;
    let empty = String::new();
    match a {
        EditAction::SaveLine { line_idx, new, .. } => if script { set_line_to(page, *line_idx, new) },
        EditAction::DeleteLine { line_idx, .. } => if script { set_line_to(page, *line_idx, &empty) },
        EditAction::DuplicateLine { line_idx, .. } => if script {
            copy_below(page, *line_idx);
            page.selected_line = Some(*line_idx + 1);
        },
        EditAction::CutLine { line_idx, .. } => if script { set_line_to(page, *line_idx, &empty) },
        EditAction::PasteLine { line_idx, new, .. } => if script { set_line_to(page, *line_idx, new) },
        EditAction::SaveNotesLine { line_idx, new, .. } => if notes { set_line_to(page, *line_idx, new) },
        EditAction::DeleteNotesLine { line_idx, .. } => if notes { set_line_to(page, *line_idx, &empty) },
        EditAction::DuplicateNotesLine { line_idx, .. } => if notes {
            copy_below(page, *line_idx);
            page.selected_line = Some(*line_idx + 1);
        },
        EditAction::CutNotesLine { line_idx, .. } => if notes { set_line_to(page, *line_idx, &empty) },
        EditAction::PasteNotesLine { line_idx, new, .. } => if notes { set_line_to(page, *line_idx, new) },
    }
}

/// Takes back the latest edit, moving it to the redo side.
pub fn undo(page: &mut LinePage, stack: &mut UndoStack, kind: PageKind)
    requires
        old(page).wf(),
        old(stack).undo@.len() > 0 ==> fits(kind, old(stack).undo@.last()),
    ensures
        final(page).wf(),
        match popped(old(stack).undo@) {
            (None, _) => untouched(old(page)@, final(page)@, *old(stack), *final(stack)),
            (Some(a), rest) => {
                &&& final(page)@ == undo_effect(kind, old(page)@, a)
                &&& final(stack).undo@ == rest
                &&& final(stack).redo@ == old(stack).redo@.push(a)
            },
        },
{
    match stack.pop_undo() {
        None => {},
        Some(a) => {
            apply_undo(page, &a, kind);
            stack.push_redo(a);
        },
    }
}

/// Does the latest undone edit again, moving it back to the undo side.
pub fn redo(page: &mut LinePage, stack: &mut UndoStack, kind: PageKind)
    requires
        old(page).wf(),
        old(stack).redo@.len() > 0 ==> fits(kind, old(stack).redo@.last()),
    ensures
        final(page).wf(),
        match popped(old(stack).redo@) {
            (None, _) => untouched(old(page)@, final(page)@, *old(stack), *final(stack)),
            (Some(a), rest) => {
                &&& final(page)@ == redo_effect(kind, old(page)@, a)
                &&& final(stack).undo@ == capped_push(old(stack).undo@, a)
                &&& final(stack).redo@ == rest
            },
        },
{
    match stack.pop_redo() {
        None => {},
        Some(a) => {
            apply_redo(page, &a, kind);
            stack.push_undo_from_redo(a);
        },
    }
}

// ---------------------------------------------------------------------------
// Laws
// ---------------------------------------------------------------------------

/// Undo right after saving a line puts back the line's earlier text.
pub proof fn law_undo_takes_back_save(kind: PageKind, v: PageView, k: int, a: EditAction)
    requires
        v.lines.len() == 8,
        0 <= k < 8,
        save_action(kind, k as usize, v.lines[k], v.input, a),
    ensures
        undo_effect(kind, saved(v, k), a).lines == v.lines,
        redo_effect(kind, undo_effect(kind, saved(v, k), a), a).lines == saved(v, k).lines,
{
    assert(saved(v, k).lines.update(k, v.lines[k]) =~= v.lines);
    assert(v.lines.update(k, v.input) =~= saved(v, k).lines);
}

/// Undo right after deleting a line (that held text) puts the text back.
pub proof fn law_undo_takes_back_delete(kind: PageKind, v: PageView, k: int, a: EditAction)
    requires
        v.lines.len() == 8,
        0 <= k < 8,
        delete_action(kind, k as usize, v.lines[k], a),
    ensures
        undo_effect(kind, blanked(v, k), a).lines == v.lines,
        redo_effect(kind, undo_effect(kind, blanked(v, k), a), a).lines == blanked(v, k).lines,
{
    assert(blanked(v, k).lines.update(k, v.lines[k]) =~= v.lines);
    assert(v.lines.update(k, Seq::empty()) =~= blanked(v, k).lines);
}

/// Undo right after cutting a line (that held text) puts the text back.
pub proof fn law_undo_takes_back_cut(kind: PageKind, v: PageView, k: int, a: EditAction)
    requires
        v.lines.len() == 8,
        0 <= k < 8,
        cut_action(kind, k as usize, v.lines[k], a),
    ensures
        undo_effect(kind, blanked(v, k), a).lines == v.lines,
        redo_effect(kind, undo_effect(kind, blanked(v, k), a), a).lines == blanked(v, k).lines,
{
    assert(blanked(v, k).lines.update(k, v.lines[k]) =~= v.lines);
    assert(v.lines.update(k, Seq::empty()) =~= blanked(v, k).lines);
}

/// Undo right after pasting into the selected line puts back its earlier
/// text, and the input line shows it.
pub proof fn law_undo_takes_back_paste(kind: PageKind, v: PageView, k: int, c: Seq<char>, a: EditAction)
    requires
        v.lines.len() == 8,
        0 <= k < 8,
        v.selected == Some(k as usize),
        paste_action(kind, k as usize, v.lines[k], c, a),
    ensures
        undo_effect(kind, pasted(v, k, c), a).lines == v.lines,
        undo_effect(kind, pasted(v, k, c), a).input == v.lines[k],
        redo_effect(kind, undo_effect(kind, pasted(v, k, c), a), a).lines == pasted(v, k, c).lines,
{
    assert(pasted(v, k, c).lines.update(k, v.lines[k]) =~= v.lines);
    assert(v.lines.update(k, c) =~= pasted(v, k, c).lines);
}

/// Undo right after duplicating line `k` empties the copy below it and
/// leaves the moved lines where they are (the last line, pushed off by the
/// duplication, does not come back).
pub proof fn law_undo_of_duplicate(kind: PageKind, v: PageView, k: int, a: EditAction)
    requires
        v.lines.len() == 8,
        0 <= k < 7,
        duplicate_action(kind, k as usize, v.lines.subrange(k + 1, 8), a),
    ensures
        undo_effect(kind, redup(v, k), a).lines == duplicated(v.lines, k).update(k + 1, Seq::empty()),
        undo_effect(kind, redup(v, k), a).selected == Some(k as usize),
{
    let shifted = v.lines.subrange(k + 1, 8);
    assert(unduplicated(duplicated(v.lines, k), k, shifted) =~= duplicated(v.lines, k).update(
        k + 1,
        Seq::empty(),
    ));
}

/// Saving line `k`, then undoing, then redoing. Undo puts the line's
/// earlier text back, leaves the other lines as they were, and leaves exactly
/// the save on the redo side; redo puts the saved text back into line `k`
/// only, makes the save the latest edit again and leaves nothing to redo.
pub proof fn law_save_undo_redo(kind: PageKind, v: PageView, k: int, a: EditAction, u0: Seq<EditAction>)
    requires
        v.lines.len() == 8,
        0 <= k < 8,
        save_action(kind, k as usize, v.lines[k], v.input, a),
    ensures
        ({
            let u1 = capped_push(u0, a);
            let r1 = Seq::<EditAction>::empty();
            let u2 = popped(u1).1;
            let r2 = r1.push(a);
            let v2 = undo_effect(kind, saved(v, k), a);
            let v3 = redo_effect(kind, v2, a);
            &&& popped(u1).0 == Some(a)
            &&& v2.lines == v.lines
            &&& r2 == seq![a]
            &&& popped(r2) == (Some(a), Seq::<EditAction>::empty())
            &&& v3.lines[k] == v.input
            &&& forall|j: int| 0 <= j < 8 && j != k ==> v3.lines[j] == v.lines[j]
            &&& capped_push(u2, a).last() == a
        }),
{
    law_undo_takes_back_save(kind, v, k, a);
    let u1 = capped_push(u0, a);
    assert(u1.last() == a);
    let r2 = Seq::<EditAction>::empty().push(a);
    assert(r2 =~= seq![a]);
    assert(r2.drop_last() =~= Seq::<EditAction>::empty());
}

/// What `undo` does: the page and the stack before (`p0`, `s0`) and after.
pub open spec fn undo_done(kind: PageKind, p0: PageView, s0: UndoStack, p1: PageView, s1: UndoStack) -> bool {
    match popped(s0.undo@) {
        (None, _) => untouched(p0, p1, s0, s1),
        (Some(a), rest) => {
            &&& p1 == undo_effect(kind, p0, a)
            &&& s1.undo@ == rest
            &&& s1.redo@ == s0.redo@.push(a)
        },
    }
}

/// What `redo` does: the page and the stack before (`p0`, `s0`) and after.
pub open spec fn redo_done(kind: PageKind, p0: PageView, s0: UndoStack, p1: PageView, s1: UndoStack) -> bool {
    match popped(s0.redo@) {
        (None, _) => untouched(p0, p1, s0, s1),
        (Some(a), rest) => {
            &&& p1 == redo_effect(kind, p0, a)
            &&& s1.undo@ == capped_push(s0.undo@, a)
            &&& s1.redo@ == rest
        },
    }
}

/// The pages being edited: the ten scripts and the notes, each with its own
/// undo stack.
pub struct Pages {
    pub scripts: Vec<LinePage>,
    pub script_undo: Vec<UndoStack>,
    pub notes: LinePage,
    pub notes_undo: UndoStack,
}

impl Pages {
    pub open spec fn wf(&self) -> bool {
        &&& self.scripts@.len() == 10
        &&& self.script_undo@.len() == 10
        &&& forall|i: int| 0 <= i < 10 ==> (#[trigger] self.scripts@[i]).wf()
        &&& self.notes.wf()
    }

    /// The undo stack that page `p` edits with, if any.
    pub open spec fn stack_of(&self, p: Page) -> Option<UndoStack> {
        match page_script(p) {
            Some(k) => Some(self.script_undo@[k as int]),
            None => if p == Page::Notes { Some(self.notes_undo) } else { None },
        }
    }

    /// Every page and stack other than those of script `k` are as in `o`.
    pub open spec fn others_kept(&self, o: Pages, k: int) -> bool {
        &&& self.scripts@.len() == o.scripts@.len()
        &&& self.script_undo@.len() == o.script_undo@.len()
        &&& forall|j: int| 0 <= j < self.scripts@.len() && j != k ==> #[trigger] self.scripts@[j] == o.scripts@[j]
        &&& forall|j: int| 0 <= j < self.script_undo@.len() && j != k ==> #[trigger] self.script_undo@[j] == o.script_undo@[j]
    }

    /// Undo on the page `page` shows: on a script page, its script and that
    /// script's stack; on the notes page, the notes and their stack; on any
    /// other page nothing happens. The other pages and stacks stay as they are.
    pub fn undo_on(&mut self, page: Page)
        requires
            old(self).wf(),
            old(self).stack_of(page) matches Some(st) ==> (st.undo@.len() > 0 ==> fits(
                if page == Page::Notes { PageKind::Notes } else { PageKind::Script },
                st.undo@.last(),
            )),
        ensures
            final(self).wf(),
            match page_script(page) {
                Some(k) => {
                    &&& final(self).others_kept(*old(self), k as int)
                    &&& final(self).notes == old(self).notes
                    &&& final(self).notes_undo == old(self).notes_undo
                    &&& undo_done(
                        PageKind::Script,
                        old(self).scripts@[k as int]@,
                        old(self).script_undo@[k as int],
                        final(self).scripts@[k as int]@,
                        final(self).script_undo@[k as int],
                    )
                },
                None => {
                    &&& final(self).others_kept(*old(self), -1)
                    &&& if page == Page::Notes {
                        undo_done(PageKind::Notes, old(self).notes@, old(self).notes_undo, final(self).notes@, final(self).notes_undo)
                    } else {
                        final(self).notes == old(self).notes && final(self).notes_undo == old(self).notes_undo
                    }
                },
            },
    {
        let nav_index = page_index(page);
        match nav_index {
            Some(k) => {
                let mut p = LinePage::new();
                let mut st = UndoStack::new();
                std::mem::swap(&mut p, &mut self.scripts[k]);
                std::mem::swap(&mut st, &mut self.script_undo[k]);
                undo(&mut p, &mut st, PageKind::Script);
                self.scripts.set(k, p);
                self.script_undo.set(k, st);
                proof {
                    assert(self.scripts@ =~= old(self).scripts@.update(k as int, self.scripts@[k as int]));
                }
            },
            None => {
                if page == Page::Notes {
                    undo(&mut self.notes, &mut self.notes_undo, PageKind::Notes);
                }
            },
        }
    }

    /// Redo on the page `page` shows, in the same way as `undo_on`.
    pub fn redo_on(&mut self, page: Page)
        requires
            old(self).wf(),
            old(self).stack_of(page) matches Some(st) ==> (st.redo@.len() > 0 ==> fits(
                if page == Page::Notes { PageKind::Notes } else { PageKind::Script },
                st.redo@.last(),
            )),
        ensures
            final(self).wf(),
            match page_script(page) {
                Some(k) => {
                    &&& final(self).others_kept(*old(self), k as int)
                    &&& final(self).notes == old(self).notes
                    &&& final(self).notes_undo == old(self).notes_undo
                    &&& redo_done(
                        PageKind::Script,
                        old(self).scripts@[k as int]@,
                        old(self).script_undo@[k as int],
                        final(self).scripts@[k as int]@,
                        final(self).script_undo@[k as int],
                    )
                },
                None => {
                    &&& final(self).others_kept(*old(self), -1)
                    &&& if page == Page::Notes {
                        redo_done(PageKind::Notes, old(self).notes@, old(self).notes_undo, final(self).notes@, final(self).notes_undo)
                    } else {
                        final(self).notes == old(self).notes && final(self).notes_undo == old(self).notes_undo
                    }
                },
            },
    {
        let nav_index = page_index(page);
        match nav_index {
            Some(k) => {
                let mut p = LinePage::new();
                let mut st = UndoStack::new();
                std::mem::swap(&mut p, &mut self.scripts[k]);
                std::mem::swap(&mut st, &mut self.script_undo[k]);
                redo(&mut p, &mut st, PageKind::Script);
                self.scripts.set(k, p);
                self.script_undo.set(k, st);
            },
            None => {
                if page == Page::Notes {
                    redo(&mut self.notes, &mut self.notes_undo, PageKind::Notes);
                }
            },
        }
    }
}

/// The script page `p` edits, if any.
fn page_index(p: Page) -> (r: Option<usize>)
    ensures
        r == page_script(p),
{
    match p {
        Page::Script1 => Some(0),
        Page::Script2 => Some(1),
        Page::Script3 => Some(2),
        Page::Script4 => Some(3),
        Page::Script5 => Some(4),
        Page::Script6 => Some(5),
        Page::Script7 => Some(6),
        Page::Script8 => Some(7),
        Page::Metro => Some(8),
        Page::Init => Some(9),
        _ => None,
    }
}

} // verus!
