//! Undo and redo of line edits. Each script page and the notes page keep
//! their own stack; the undo side holds at most 50 edits, dropping the
//! oldest.

use vstd::prelude::*;

verus! {

/// Most edits the undo side keeps.
pub const MAX_UNDO_STACK_SIZE: usize = 50;

/// One edit of a line, with what is needed to take it back or do it again.
#[derive(Clone, Debug)]
pub enum EditAction {
    SaveLine { line_idx: usize, old: String, new: String },
    DeleteLine { line_idx: usize, content: String },
    DuplicateLine { line_idx: usize, shifted_lines: Vec<String> },
    CutLine { line_idx: usize, content: String },
    PasteLine { line_idx: usize, old: String, new: String },
    SaveNotesLine { line_idx: usize, old: String, new: String },
    DeleteNotesLine { line_idx: usize, content: String },
    DuplicateNotesLine { line_idx: usize, shifted_lines: Vec<String> },
    CutNotesLine { line_idx: usize, content: String },
    PasteNotesLine { line_idx: usize, old: String, new: String },
}

/// The undo and redo sides of one page, most recent edit last.
#[derive(Clone, Debug)]
pub struct UndoStack {
    pub undo: Vec<EditAction>,
    pub redo: Vec<EditAction>,
}

/// `s` with `a` added last, and its first element dropped where it would
/// then hold more than 50.
pub open spec fn capped_push(s: Seq<EditAction>, a: EditAction) -> Seq<EditAction> {
    if s.len() + 1 > MAX_UNDO_STACK_SIZE {
        s.push(a).drop_first()
    } else {
        s.push(a)
    }
}

/// The last element of `s` and the rest, if `s` is not empty.
pub open spec fn popped(s: Seq<EditAction>) -> (Option<EditAction>, Seq<EditAction>) {
    if s.len() == 0 {
        (None, s)
    } else {
        (Some(s.last()), s.drop_last())
    }
}

impl UndoStack {
    /// The undo side holds at most 50 edits.
    pub open spec fn wf(&self) -> bool {
        self.undo@.len() <= MAX_UNDO_STACK_SIZE
    }

    pub fn new() -> (s: UndoStack)
        ensures
            s.wf(),
            s.undo@ == Seq::<EditAction>::empty(),
            s.redo@ == Seq::<EditAction>::empty(),
    {
        UndoStack { undo: Vec::new(), redo: Vec::new() }
    }

    fn push_capped(&mut self, action: EditAction)
        ensures
            final(self).undo@ == capped_push(old(self).undo@, action),
            final(self).redo@ == old(self).redo@,
    {
        self.undo.push(action);
        if self.undo.len() > MAX_UNDO_STACK_SIZE {
            self.undo.remove(0);
        }
    }

    /// Records a new edit: it goes on the undo side, and the redo side is
    /// forgotten.
    pub fn push(&mut self, action: EditAction)
        ensures
            final(self).undo@ == capped_push(old(self).undo@, action),
            final(self).redo@ == Seq::<EditAction>::empty(),
    {
        self.undo.push(action);
        self.redo.clear();
        if self.undo.len() > MAX_UNDO_STACK_SIZE {
            self.undo.remove(0);
        }
    }

    /// Takes the latest edit off the undo side.
    pub fn pop_undo(&mut self) -> (r: Option<EditAction>)
        ensures
            (r, final(self).undo@) == popped(old(self).undo@),
            final(self).redo@ == old(self).redo@,
    {
        self.undo.pop()
    }

    /// Puts an undone edit on the redo side.
    pub fn push_redo(&mut self, action: EditAction)
        ensures
            final(self).undo@ == old(self).undo@,
            final(self).redo@ == old(self).redo@.push(action),
    {
        self.redo.push(action);
    }

    /// Takes the latest undone edit off the redo side.
    pub fn pop_redo(&mut self) -> (r: Option<EditAction>)
        ensures
            (r, final(self).redo@) == popped(old(self).redo@),
            final(self).undo@ == old(self).undo@,
    {
        self.redo.pop()
    }

    /// Puts a redone edit back on the undo side, keeping the redo side.
    pub fn push_undo_from_redo(&mut self, action: EditAction)
        ensures
            final(self).undo@ == capped_push(old(self).undo@, action),
            final(self).redo@ == old(self).redo@,
    {
        self.push_capped(action);
    }

    /// Forgets every edit.
    pub fn clear(&mut self)
        ensures
            final(self).undo@ == Seq::<EditAction>::empty(),
            final(self).redo@ == Seq::<EditAction>::empty(),
    {
        self.undo.clear();
        self.redo.clear();
    }
}

impl Default for UndoStack {
    fn default() -> (s: UndoStack)
        ensures
            s.undo@ == Seq::<EditAction>::empty(),
            s.redo@ == Seq::<EditAction>::empty(),
    {
        UndoStack::new()
    }
}

/// The undo side never holds more than 50 edits: adding one to a stack
/// within the bound stays within it.
pub proof fn law_undo_bounded(s: Seq<EditAction>, a: EditAction)
    requires
        s.len() <= MAX_UNDO_STACK_SIZE,
    ensures
        capped_push(s, a).len() <= MAX_UNDO_STACK_SIZE,
        capped_push(s, a).len() == if s.len() == MAX_UNDO_STACK_SIZE { s.len() } else { s.len() + 1 },
{
}

/// Undo right after an edit gives that edit back, and leaves the undo side
/// as it was before (short of the oldest edit, where it was full).
pub proof fn law_undo_after_push(s: Seq<EditAction>, a: EditAction)
    requires
        s.len() <= MAX_UNDO_STACK_SIZE,
    ensures
        popped(capped_push(s, a)).0 == Some(a),
        popped(capped_push(s, a)).1 == if s.len() == MAX_UNDO_STACK_SIZE { s.drop_first() } else { s },
{
    if s.len() == MAX_UNDO_STACK_SIZE {
        assert(capped_push(s, a).drop_last() =~= s.drop_first());
    } else {
        assert(capped_push(s, a).drop_last() =~= s);
    }
}

/// Redo right after an undo gives the undone edit back.
pub proof fn law_redo_after_undo(r: Seq<EditAction>, a: EditAction)
    ensures
        popped(r.push(a)) == (Some(a), r),
{
    assert(r.push(a).drop_last() =~= r);
}

/// Empties the undo and redo stacks of every script and of the notes.
pub fn clear_all_undo_stacks(scripts: &mut Vec<UndoStack>, notes: &mut UndoStack)
    ensures
        final(scripts)@.len() == old(scripts)@.len(),
        forall|i: int|
            0 <= i < final(scripts)@.len() ==> (#[trigger] final(scripts)@[i]).undo@.len() == 0
                && final(scripts)@[i].redo@.len() == 0,
        final(notes).undo@.len() == 0,
        final(notes).redo@.len() == 0,
{
    let n = scripts.len();
    let mut i: usize = 0;
    while i < n
        invariant
            n == scripts@.len(),
            n == old(scripts)@.len(),
            i <= n,
            forall|j: int| 0 <= j < i ==> (#[trigger] scripts@[j]).undo@.len() == 0 && scripts@[j].redo@.len() == 0,
        decreases n - i,
    {
        scripts.set(i, UndoStack::new());
        i = i + 1;
    }
    notes.clear();
}

} // verus!
