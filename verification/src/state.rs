//! The state that commands read and change: six patterns of 64 steps, the
//! toggle memory of TOG/EITH and SEQ, four counters, the quantizer scale, the
//! global variables and the per-script variables.

use vstd::prelude::*;
use crate::text::str_chars;

verus! {

/// Number of patterns.
pub const PATTERN_COUNT: usize = 6;

/// Steps in a pattern.
pub const PATTERN_STEPS: usize = 64;

/// One pattern: 64 steps, of which the first `length` are in use, and a
/// play position.
pub struct Pattern {
    pub data: Vec<i16>,
    pub length: usize,
    pub index: usize,
}

impl Pattern {
    pub open spec fn wf(&self) -> bool {
        &&& self.data@.len() == 64
        &&& self.length <= 64
        &&& self.index < 64
    }

    /// A pattern of zeros with `length` steps in use, positioned at its start.
    pub fn new(length: usize) -> (p: Pattern)
        requires
            length <= 64,
        ensures
            p.wf(),
            p.length == length,
            p.index == 0,
            forall|i: int| 0 <= i < 64 ==> p.data@[i] == 0,
    {
        let mut data: Vec<i16> = Vec::new();
        let mut i: usize = 0;
        while i < 64
            invariant
                i <= 64,
                data@.len() == i,
                forall|j: int| 0 <= j < i ==> data@[j] == 0,
            decreases 64 - i,
        {
            data.push(0);
            i = i + 1;
        }
        Pattern { data, length, index: 0 }
    }
}

/// The memory of TOG, EITH and SEQ: a counter per key. No key occurs twice.
pub struct ToggleState {
    pub entries: Vec<(String, u32)>,
}

impl ToggleState {
    pub open spec fn wf(&self) -> bool {
        forall|i: int, j: int|
            0 <= i < j < self.entries@.len() ==> (#[trigger] self.entries@[i]).0@
                != (#[trigger] self.entries@[j]).0@
    }

    pub open spec fn has(&self, k: Seq<char>) -> bool {
        exists|i: int| 0 <= i < self.entries@.len() && (#[trigger] self.entries@[i]).0@ == k
    }

    pub open spec fn value_of(&self, k: Seq<char>) -> u32 {
        self.entries@[choose|i: int|
            0 <= i < self.entries@.len() && (#[trigger] self.entries@[i]).0@ == k].1
    }

    pub fn new() -> (t: ToggleState)
        ensures
            t.wf(),
            t@ == Map::<Seq<char>, u32>::empty(),
    {
        let t = ToggleState { entries: Vec::new() };
        proof {
            assert(t@ =~= Map::<Seq<char>, u32>::empty());
        }
        t
    }

    proof fn lemma_value_at(&self, i: int)
        requires
            self.wf(),
            0 <= i < self.entries@.len(),
        ensures
            self@.contains_key(self.entries@[i].0@),
            self@[self.entries@[i].0@] == self.entries@[i].1,
    {
        let k = self.entries@[i].0@;
        assert(self.has(k));
        let j = choose|j: int| 0 <= j < self.entries@.len() && (#[trigger] self.entries@[j]).0@ == k;
        if j != i {
            if j < i {
                assert(self.entries@[j].0@ != self.entries@[i].0@);
            } else {
                assert(self.entries@[i].0@ != self.entries@[j].0@);
            }
        }
    }

    /// Where `key` is stored, if anywhere.
    fn position(&self, key: &String) -> (r: Option<usize>)
        requires
            self.wf(),
        ensures
            r matches Some(i) ==> i < self.entries@.len() && self.entries@[i as int].0@ == key@,
            r is None ==> !self.has(key@),
    {
        let mut i: usize = 0;
        while i < self.entries.len()
            invariant
                i <= self.entries@.len(),
                forall|j: int| 0 <= j < i ==> (#[trigger] self.entries@[j]).0@ != key@,
            decreases self.entries@.len() - i,
        {
            if self.entries[i].0 == *key {
                return Some(i);
            }
            i = i + 1;
        }
        None
    }

    /// The counter stored under `key`.
    pub fn get(&self, key: &String) -> (r: Option<u32>)
        requires
            self.wf(),
        ensures
            r == (if self@.contains_key(key@) {
                Some(self@[key@])
            } else {
                None
            }),
    {
        match self.position(key) {
            Some(i) => {
                proof {
                    self.lemma_value_at(i as int);
                }
                Some(self.entries[i].1)
            },
            None => None,
        }
    }

    /// Stores `value` under `key`.
    pub fn insert(&mut self, key: String, value: u32)
        requires
            old(self).wf(),
        ensures
            final(self).wf(),
            final(self)@ == old(self)@.insert(key@, value),
    {
        let ghost k = key@;
        match self.position(&key) {
            Some(i) => {
                self.entries.set(i, (key, value));
                proof {
                    let o = old(self);
                    assert forall|a: int, b: int|
                        0 <= a < b < self.entries@.len() implies (#[trigger] self.entries@[a]).0@
                        != (#[trigger] self.entries@[b]).0@ by {
                        assert(o.entries@[a].0@ != o.entries@[b].0@);
                    }
                    assert forall|kk: Seq<char>| #[trigger] self@.contains_key(kk)
                        == old(self)@.insert(k, value).contains_key(kk) by {
                        if self.has(kk) {
                            let j = choose|j: int|
                                0 <= j < self.entries@.len() && (#[trigger] self.entries@[j]).0@
                                    == kk;
                            if j != i {
                                assert(o.entries@[j] == self.entries@[j]);
                            }
                        }
                        if o.has(kk) {
                            let j = choose|j: int|
                                0 <= j < o.entries@.len() && (#[trigger] o.entries@[j]).0@ == kk;
                            if j != i {
                                assert(o.entries@[j] == self.entries@[j]);
                            } else {
                                assert(self.entries@[i as int].0@ == kk);
                            }
                        }
                        if kk == k {
                            assert(self.entries@[i as int].0@ == k);
                        }
                    }
                    assert forall|kk: Seq<char>| #[trigger] self@.contains_key(kk) implies self@[kk]
                        == old(self)@.insert(k, value)[kk] by {
                        let j = choose|j: int|
                            0 <= j < self.entries@.len() && (#[trigger] self.entries@[j]).0@ == kk;
                        self.lemma_value_at(j);
                        if j != i {
                            assert(o.entries@[j] == self.entries@[j]);
                            o.lemma_value_at(j);
                        }
                    }
                    assert(self@ =~= old(self)@.insert(k, value));
                }
            },
            None => {
                self.entries.push((key, value));
                proof {
                    let o = old(self);
                    let n = o.entries@.len() as int;
                    assert forall|a: int, b: int|
                        0 <= a < b < self.entries@.len() implies (#[trigger] self.entries@[a]).0@
                        != (#[trigger] self.entries@[b]).0@ by {
                        if b < n {
                            assert(o.entries@[a].0@ != o.entries@[b].0@);
                        } else {
                            assert(self.entries@[a] == o.entries@[a]);
                        }
                    }
                    assert forall|kk: Seq<char>| #[trigger] self@.contains_key(kk)
                        == old(self)@.insert(k, value).contains_key(kk) by {
                        if self.has(kk) {
                            let j = choose|j: int|
                                0 <= j < self.entries@.len() && (#[trigger] self.entries@[j]).0@
                                    == kk;
                            if j < n {
                                assert(o.entries@[j] == self.entries@[j]);
                            }
                        }
                        if o.has(kk) {
                            let j = choose|j: int|
                                0 <= j < o.entries@.len() && (#[trigger] o.entries@[j]).0@ == kk;
                            assert(o.entries@[j] == self.entries@[j]);
                        }
                        if kk == k {
                            assert(self.entries@[n].0@ == k);
                        }
                    }
                    assert forall|kk: Seq<char>| #[trigger] self@.contains_key(kk) implies self@[kk]
                        == old(self)@.insert(k, value)[kk] by {
                        let j = choose|j: int|
                            0 <= j < self.entries@.len() && (#[trigger] self.entries@[j]).0@ == kk;
                        self.lemma_value_at(j);
                        if j < n {
                            assert(o.entries@[j] == self.entries@[j]);
                            o.lemma_value_at(j);
                        }
                    }
                    assert(self@ =~= old(self)@.insert(k, value));
                }
            },
        }
    }

    /// Forgets every key.
    pub fn clear(&mut self)
        ensures
            final(self).wf(),
            final(self)@ == Map::<Seq<char>, u32>::empty(),
    {
        self.entries.clear();
        proof {
            assert(self@ =~= Map::<Seq<char>, u32>::empty());
        }
    }

    /// Forgets the keys for which `drop_key` holds and keeps the others.
    pub fn forget_keys(&mut self, which: KeyClass)
        requires
            old(self).wf(),
        ensures
            final(self).wf(),
            final(self)@ == old(self)@.restrict(
                old(self)@.dom().filter(|k: Seq<char>| !key_in_class(k, which)),
            ),
    {
        let mut kept: Vec<(String, u32)> = Vec::new();
        let n = self.entries.len();
        let mut i: usize = 0;
        while i < n
            invariant
                n == self.entries@.len(),
                i <= n,
                self.wf(),
                forall|a: int, b: int|
                    0 <= a < b < kept@.len() ==> (#[trigger] kept@[a]).0@ != (#[trigger] kept@[b]).0@,
                forall|a: int|
                    0 <= a < kept@.len() ==> exists|j: int|
                        0 <= j < i && #[trigger] kept@[a] == self.entries@[j],
                forall|j: int|
                    0 <= j < i && !key_in_class((#[trigger] self.entries@[j]).0@, which)
                        ==> exists|a: int| 0 <= a < kept@.len() && kept@[a] == self.entries@[j],
                forall|a: int| 0 <= a < kept@.len() ==> !key_in_class((#[trigger] kept@[a]).0@, which),
            decreases n - i,
        {
            let cs = str_chars(self.entries[i].0.as_str());
            let drop = key_class_matches(cs.as_slice(), which);
            if !drop {
                let ghost before = kept@;
                let e = (self.entries[i].0.clone(), self.entries[i].1);
                kept.push(e);
                proof {
                    assert(kept@[before.len() as int] == self.entries@[i as int]);
                    assert forall|a: int, b: int|
                        0 <= a < b < kept@.len() implies (#[trigger] kept@[a]).0@
                        != (#[trigger] kept@[b]).0@ by {
                        if b == before.len() {
                            assert(kept@[a] == before[a]);
                            let j = choose|j: int| 0 <= j < i && #[trigger] before[a] == self.entries@[j];
                            assert(self.entries@[j].0@ != self.entries@[i as int].0@);
                        } else {
                            assert(kept@[a] == before[a] && kept@[b] == before[b]);
                        }
                    }
                    assert forall|a: int| 0 <= a < kept@.len() implies exists|j: int|
                        0 <= j < i + 1 && #[trigger] kept@[a] == self.entries@[j] by {
                        if a < before.len() {
                            assert(kept@[a] == before[a]);
                            let j = choose|j: int| 0 <= j < i && #[trigger] before[a] == self.entries@[j];
                            assert(0 <= j < i + 1 && kept@[a] == self.entries@[j]);
                        } else {
                            assert(kept@[a] == self.entries@[i as int]);
                        }
                    }
                    assert forall|j: int|
                        0 <= j < i + 1 && !key_in_class((#[trigger] self.entries@[j]).0@, which)
                            implies exists|a: int| 0 <= a < kept@.len() && kept@[a] == self.entries@[j] by {
                        if j < i {
                            let a = choose|a: int| 0 <= a < before.len() && before[a] == self.entries@[j];
                            assert(kept@[a] == before[a]);
                        } else {
                            assert(kept@[before.len() as int] == self.entries@[j]);
                        }
                    }
                    assert forall|a: int| 0 <= a < kept@.len() implies !key_in_class(
                        (#[trigger] kept@[a]).0@,
                        which,
                    ) by {
                        if a < before.len() {
                            assert(kept@[a] == before[a]);
                        }
                    }
                }
            }
            i = i + 1;
        }
        let ghost o = *self;
        self.entries = kept;
        proof {
            let target = o@.restrict(o@.dom().filter(|k: Seq<char>| !key_in_class(k, which)));
            assert forall|kk: Seq<char>| #[trigger] self@.contains_key(kk) == target.contains_key(kk) by {
                if self.has(kk) {
                    let a = choose|a: int| 0 <= a < self.entries@.len() && (#[trigger] self.entries@[a]).0@ == kk;
                    let j = choose|j: int| 0 <= j < n && #[trigger] kept@[a] == o.entries@[j];
                    assert(o.entries@[j].0@ == kk);
                    assert(o.has(kk));
                }
                if target.contains_key(kk) {
                    assert(o.has(kk));
                    let j = choose|j: int| 0 <= j < o.entries@.len() && (#[trigger] o.entries@[j]).0@ == kk;
                    let a = choose|a: int| 0 <= a < kept@.len() && kept@[a] == o.entries@[j];
                    assert(self.entries@[a].0@ == kk);
                }
            }
            assert forall|kk: Seq<char>| #[trigger] self@.contains_key(kk) implies self@[kk] == target[kk] by {
                let a = choose|a: int| 0 <= a < self.entries@.len() && (#[trigger] self.entries@[a]).0@ == kk;
                self.lemma_value_at(a);
                let j = choose|j: int| 0 <= j < n && #[trigger] kept@[a] == o.entries@[j];
                o.lemma_value_at(j);
            }
            assert(self@ =~= target);
        }
    }
}

impl View for ToggleState {
    type V = Map<Seq<char>, u32>;

    open spec fn view(&self) -> Map<Seq<char>, u32> {
        Map::new(|k: Seq<char>| self.has(k), |k: Seq<char>| self.value_of(k))
    }
}

/// Groups of toggle keys that SYNC.SEQ and SYNC.TOG forget.
#[derive(Clone, Copy, PartialEq, Eq, Debug, Structural)]
pub enum KeyClass {
    /// Keys of SEQ state: those starting with `seq_` (which covers `seq_alt_`
    /// and `seq_rnd_`).
    SeqState,
    /// Keys of TOG and EITH state: those containing `_TOG_` or `_EITH_`.
    TogEith,
}

pub open spec fn starts_with(s: Seq<char>, p: Seq<char>) -> bool {
    p.len() <= s.len() && s.take(p.len() as int) == p
}

pub open spec fn contains_at(s: Seq<char>, p: Seq<char>, i: int) -> bool {
    0 <= i && i + p.len() <= s.len() && s.subrange(i, i + p.len()) == p
}

pub open spec fn contains_seq(s: Seq<char>, p: Seq<char>) -> bool {
    exists|i: int| contains_at(s, p, i)
}

pub open spec fn key_in_class(k: Seq<char>, which: KeyClass) -> bool {
    match which {
        KeyClass::SeqState => starts_with(k, seq!['s', 'e', 'q', '_']),
        KeyClass::TogEith => contains_seq(k, seq!['_', 'T', 'O', 'G', '_']) || contains_seq(
            k,
            seq!['_', 'E', 'I', 'T', 'H', '_'],
        ),
    }
}

fn chars_eq_at(s: &[char], p: &[char], i: usize) -> (b: bool)
    requires
        i + p@.len() <= s@.len(),
    ensures
        b == (s@.subrange(i as int, i + p@.len()) == p@),
{
    let mut j: usize = 0;
    let n = p.len();
    let m = s.len();
    while j < n
        invariant
            n == p@.len(),
            m == s@.len(),
            j <= p@.len(),
            i + p@.len() <= s@.len(),
            forall|k: int| 0 <= k < j ==> s@[i + k] == p@[k],
        decreases p@.len() - j,
    {
        if s[i + j] != p[j] {
            proof {
                assert(s@.subrange(i as int, i + p@.len())[j as int] != p@[j as int]);
            }
            return false;
        }
        j = j + 1;
    }
    proof {
        assert(s@.subrange(i as int, i + p@.len()) =~= p@);
    }
    true
}

/// Whether `p` occurs in `s`.
pub fn contains_chars(s: &[char], p: &[char]) -> (b: bool)
    ensures
        b == contains_seq(s@, p@),
{
    if p.len() > s.len() {
        return false;
    }
    let mut i: usize = 0;
    let last = s.len() - p.len();
    while i <= last
        invariant
            p@.len() <= s@.len(),
            last == s@.len() - p@.len(),
            i <= last + 1,
            forall|k: int| 0 <= k < i ==> !contains_at(s@, p@, k),
        decreases last + 1 - i,
    {
        if chars_eq_at(s, p, i) {
            proof {
                assert(contains_at(s@, p@, i as int));
            }
            return true;
        }
        if i == last {
            return false;
        }
        i = i + 1;
    }
    false
}

/// Whether `s` begins with `p`.
pub fn starts_with_chars(s: &[char], p: &[char]) -> (b: bool)
    ensures
        b == starts_with(s@, p@),
{
    if p.len() > s.len() {
        return false;
    }
    let b = chars_eq_at(s, p, 0);
    proof {
        assert(s@.subrange(0, p@.len() as int) =~= s@.take(p@.len() as int));
    }
    b
}

fn key_class_matches(k: &[char], which: KeyClass) -> (b: bool)
    ensures
        b == key_in_class(k@, which),
{
    match which {
        KeyClass::SeqState => {
            let p = ['s', 'e', 'q', '_'];
            let b = starts_with_chars(k, &p);
            proof {
                assert(p@ =~= seq!['s', 'e', 'q', '_']);
            }
            b
        },
        KeyClass::TogEith => {
            let t = ['_', 'T', 'O', 'G', '_'];
            let e = ['_', 'E', 'I', 'T', 'H', '_'];
            proof {
                assert(t@ =~= seq!['_', 'T', 'O', 'G', '_']);
                assert(e@ =~= seq!['_', 'E', 'I', 'T', 'H', '_']);
            }
            contains_chars(k, &t) || contains_chars(k, &e)
        },
    }
}

/// The six patterns, which of them is the working pattern, and the toggle memory.
pub struct PatternStorage {
    pub patterns: Vec<Pattern>,
    pub working: usize,
    pub toggle_state: ToggleState,
}

impl PatternStorage {
    pub open spec fn wf(&self) -> bool {
        &&& self.patterns@.len() == 6
        &&& forall|i: int| 0 <= i < 6 ==> (#[trigger] self.patterns@[i]).wf()
        &&& self.working <= 5
        &&& self.toggle_state.wf()
    }

    /// Six patterns of zeros with `length` steps in use; pattern 0 is the working one.
    pub fn new(length: usize) -> (s: PatternStorage)
        requires
            length <= 64,
        ensures
            s.wf(),
            s.working == 0,
            s.toggle_state@ == Map::<Seq<char>, u32>::empty(),
            forall|p: int|
                0 <= p < 6 ==> (#[trigger] s.patterns@[p]).length == length && s.patterns@[p].index
                    == 0 && forall|i: int| 0 <= i < 64 ==> s.patterns@[p].data@[i] == 0,
    {
        let mut patterns: Vec<Pattern> = Vec::new();
        let mut k: usize = 0;
        while k < 6
            invariant
                k <= 6,
                length <= 64,
                patterns@.len() == k,
                forall|p: int|
                    0 <= p < k ==> (#[trigger] patterns@[p]).wf() && patterns@[p].length == length
                        && patterns@[p].index == 0 && forall|i: int|
                        0 <= i < 64 ==> patterns@[p].data@[i] == 0,
            decreases 6 - k,
        {
            patterns.push(Pattern::new(length));
            k = k + 1;
        }
        PatternStorage { patterns, working: 0, toggle_state: ToggleState::new() }
    }
}

/// The four counters N1..N4: value, wrap-around minimum and maximum (a
/// maximum of 0 means no wrap).
pub struct Counters {
    pub values: Vec<i16>,
    pub min: Vec<i16>,
    pub max: Vec<i16>,
}

impl Counters {
    pub open spec fn wf(&self) -> bool {
        &&& self.values@.len() == 4
        &&& self.min@.len() == 4
        &&& self.max@.len() == 4
    }

    /// All four counters at 0, with minimum 0 and no wrap.
    pub fn new() -> (c: Counters)
        ensures
            c.wf(),
            forall|i: int| 0 <= i < 4 ==> c.values@[i] == 0 && c.min@[i] == 0 && c.max@[i] == 0,
    {
        Counters { values: vec![0, 0, 0, 0], min: vec![0, 0, 0, 0], max: vec![0, 0, 0, 0] }
    }
}

/// The quantizer: root, number of divisions of the octave, which of them are
/// allowed, and the preset it came from (if any).
pub struct ScaleState {
    pub root: u8,
    pub divisions: u8,
    pub mask: Vec<bool>,
    pub scale_preset: Option<u8>,
}

/// The global variables.
#[derive(Clone, Copy, PartialEq, Eq, Debug, Structural)]
pub struct Variables {
    pub a: i16,
    pub b: i16,
    pub c: i16,
    pub d: i16,
    pub x: i16,
    pub y: i16,
    pub z: i16,
    pub t: i16,
    pub i: i16,
}

/// The variables local to one script.
#[derive(Clone, Copy, PartialEq, Eq, Debug, Structural)]
pub struct ScriptVars {
    pub j: i16,
    pub k: i16,
}

} // verus!
