//! Where command handlers put the lines they print.

use vstd::prelude::*;

verus! {

/// Under which switch a printed line stands. The program's settings decide
/// which of these are shown; a handler only says which one a line belongs to.
#[derive(Clone, Copy, PartialEq, Eq, Debug, Structural)]
pub enum OutputCategory {
    /// Printed whatever the settings.
    Always,
    /// An error: shown at the error tier or with the error switch on.
    Error,
    /// An essential confirmation: shown at the essential tier or with its switch on.
    Essential,
    /// The answer to a query: shown at the query tier or with its switch on.
    Query,
    /// A confirmation: shown at the confirmation tier or with its switch on.
    Confirm,
    /// Shown at the essential tier only; the switch has no say.
    EssentialLevel,
    /// Shown at the confirmation tier only; the switch has no say.
    ConfirmLevel,
}

/// One printed line.
pub struct Output {
    pub category: OutputCategory,
    pub text: String,
}

/// The lines printed so far, oldest first.
pub struct Console {
    pub lines: Vec<Output>,
}

/// A line printed whatever the settings.
pub open spec fn line(s: Seq<char>) -> (OutputCategory, Seq<char>) {
    (OutputCategory::Always, s)
}

pub open spec fn line_view(o: Output) -> (OutputCategory, Seq<char>) {
    (o.category, o.text@)
}

impl View for Console {
    type V = Seq<(OutputCategory, Seq<char>)>;

    open spec fn view(&self) -> Seq<(OutputCategory, Seq<char>)> {
        self.lines@.map_values(|o: Output| line_view(o))
    }
}

impl Console {
    pub fn new() -> (c: Console)
        ensures
            c@ == Seq::<(OutputCategory, Seq<char>)>::empty(),
    {
        let c = Console { lines: Vec::new() };
        proof {
            assert(c@ =~= Seq::<(OutputCategory, Seq<char>)>::empty());
        }
        c
    }

    /// Prints one line.
    pub fn emit(&mut self, category: OutputCategory, text: String)
        ensures
            final(self)@ == old(self)@.push((category, text@)),
    {
        let ghost t = text@;
        self.lines.push(Output { category, text });
        proof {
            assert(self@ =~= old(self)@.push((category, t)));
        }
    }

    /// Prints a line given as a string slice.
    pub fn emit_str(&mut self, category: OutputCategory, text: &str)
        ensures
            final(self)@ == old(self)@.push((category, text@)),
    {
        self.emit(category, String::from_str(text));
    }

    pub fn len(&self) -> (n: usize)
        ensures
            n == self@.len(),
    {
        self.lines.len()
    }
}

/// The output screen keeps this many lines.
pub const OUTPUT_LIMIT: usize = 100;

/// The lines on the output screen, oldest first, and how far it is
/// scrolled up.
pub struct OutputLog {
    pub lines: Vec<String>,
    pub scroll: usize,
}

/// `s` with its oldest line dropped where it holds more than the limit.
pub open spec fn kept(s: Seq<Seq<char>>) -> Seq<Seq<char>> {
    if s.len() > OUTPUT_LIMIT {
        s.drop_first()
    } else {
        s
    }
}

impl View for OutputLog {
    type V = Seq<Seq<char>>;

    open spec fn view(&self) -> Seq<Seq<char>> {
        self.lines@.map_values(|l: String| l@)
    }
}

impl OutputLog {
    pub fn new() -> (o: OutputLog)
        ensures
            o@ == Seq::<Seq<char>>::empty(),
            o.scroll == 0,
    {
        let o = OutputLog { lines: Vec::new(), scroll: 0 };
        proof {
            assert(o@ =~= Seq::<Seq<char>>::empty());
        }
        o
    }

    /// Adds a line at the bottom, dropping the oldest past the limit, and
    /// scrolls back to the bottom.
    pub fn add_output(&mut self, msg: String)
        ensures
            final(self)@ == kept(old(self)@.push(msg@)),
            final(self).scroll == 0,
    {
        let ghost m = msg@;
        self.lines.push(msg);
        proof {
            assert(self@ =~= old(self)@.push(m));
        }
        if self.lines.len() > OUTPUT_LIMIT {
            let ghost before = self@;
            self.lines.remove(0);
            proof {
                assert(self@ =~= before.drop_first());
            }
        }
        self.scroll = 0;
    }
}

/// The output screen never holds more than the limit, and the line added
/// last is at the bottom.
pub proof fn law_output_bounded(before: Seq<Seq<char>>, msg: Seq<char>)
    requires
        before.len() <= OUTPUT_LIMIT,
    ensures
        kept(before.push(msg)).len() <= OUTPUT_LIMIT,
        kept(before.push(msg)).last() == msg,
        before.len() < OUTPUT_LIMIT ==> kept(before.push(msg)) == before.push(msg),
{
}

/// Display tiers: a line of a category is shown at its tier and above.
pub const TIER_ERRORS: u8 = 1;
pub const TIER_ESSENTIAL: u8 = 2;
pub const TIER_QUERIES: u8 = 3;
pub const TIER_CONFIRMS: u8 = 4;

/// The display settings: the tier, and a switch for each kind of line that
/// shows it whatever the tier.
#[derive(Clone, Copy, PartialEq, Eq, Debug, Structural)]
pub struct Display {
    pub debug_level: u8,
    pub out_err: bool,
    pub out_ess: bool,
    pub out_qry: bool,
    pub out_cfm: bool,
}

/// Whether a line of category `c` is shown under the settings `d`.
pub open spec fn shown(d: Display, c: OutputCategory) -> bool {
    match c {
        OutputCategory::Always => true,
        OutputCategory::Error => d.debug_level >= TIER_ERRORS || d.out_err,
        OutputCategory::Essential => d.debug_level >= TIER_ESSENTIAL || d.out_ess,
        OutputCategory::Query => d.debug_level >= TIER_QUERIES || d.out_qry,
        OutputCategory::Confirm => d.debug_level >= TIER_CONFIRMS || d.out_cfm,
        OutputCategory::EssentialLevel => d.debug_level >= TIER_ESSENTIAL,
        OutputCategory::ConfirmLevel => d.debug_level >= TIER_CONFIRMS,
    }
}

/// The texts of the lines of `lines` that are shown under `d`, in order.
pub open spec fn shown_texts(d: Display, lines: Seq<(OutputCategory, Seq<char>)>) -> Seq<Seq<char>>
    decreases lines.len(),
{
    if lines.len() == 0 {
        Seq::empty()
    } else {
        let rest = shown_texts(d, lines.drop_last());
        if shown(d, lines.last().0) {
            rest.push(lines.last().1)
        } else {
            rest
        }
    }
}

impl Display {
    /// Whether a line of category `c` is shown.
    pub fn should_output(&self, c: OutputCategory) -> (b: bool)
        ensures
            b == shown(*self, c),
    {
        match c {
            OutputCategory::Always => true,
            OutputCategory::Error => self.debug_level >= TIER_ERRORS || self.out_err,
            OutputCategory::Essential => self.debug_level >= TIER_ESSENTIAL || self.out_ess,
            OutputCategory::Query => self.debug_level >= TIER_QUERIES || self.out_qry,
            OutputCategory::Confirm => self.debug_level >= TIER_CONFIRMS || self.out_cfm,
            OutputCategory::EssentialLevel => self.debug_level >= TIER_ESSENTIAL,
            OutputCategory::ConfirmLevel => self.debug_level >= TIER_CONFIRMS,
        }
    }
}

impl Console {
    /// Takes the lines printed so far, leaving none, and gives the texts of
    /// those that `d` shows, in order.
    pub fn take_shown(&mut self, d: Display) -> (r: Vec<String>)
        ensures
            final(self)@ == Seq::<(OutputCategory, Seq<char>)>::empty(),
            r@.map_values(|t: String| t@) == shown_texts(d, old(self)@),
    {
        let mut lines: Vec<Output> = Vec::new();
        std::mem::swap(&mut lines, &mut self.lines);
        let mut r: Vec<String> = Vec::new();
        let mut i: usize = 0;
        let ghost all = lines@.map_values(|o: Output| line_view(o));
        proof {
            assert(all == old(self)@);
            assert(all.take(0) =~= Seq::<(OutputCategory, Seq<char>)>::empty());
            assert(r@.map_values(|t: String| t@) =~= Seq::<Seq<char>>::empty());
        }
        while i < lines.len()
            invariant
                i <= lines@.len(),
                all == lines@.map_values(|o: Output| line_view(o)),
                r@.map_values(|t: String| t@) == shown_texts(d, all.take(i as int)),
            decreases lines@.len() - i,
        {
            let c = lines[i].category;
            proof {
                assert(all.take(i as int + 1).drop_last() =~= all.take(i as int));
                assert(all.take(i as int + 1).last() == line_view(lines@[i as int]));
            }
            if d.should_output(c) {
                let ghost before = r@;
                r.push(lines[i].text.clone());
                proof {
                    assert(r@.map_values(|t: String| t@) =~= before.map_values(|t: String| t@).push(lines@[i as int].text@));
                }
            }
            i = i + 1;
        }
        proof {
            assert(all.take(lines@.len() as int) =~= all);
            assert(self@ =~= Seq::<(OutputCategory, Seq<char>)>::empty());
        }
        r
    }
}

} // verus!
