//! SYNC, SYNC.SEQ, SYNC.TOG and SYNC.PAT: put sequencing state back to its
//! start so that scripts line up again.

use vstd::prelude::*;
use crate::console::{Console, OutputCategory};
use crate::state::{key_in_class, Counters, KeyClass, PatternStorage};

verus! {

/// `new` has the patterns of `old`, each with its play position back at 0.
pub open spec fn indices_reset(old: PatternStorage, new: PatternStorage) -> bool {
    &&& new.patterns@.len() == old.patterns@.len()
    &&& new.working == old.working
    &&& forall|p: int|
        0 <= p < old.patterns@.len() ==> {
            &&& (#[trigger] new.patterns@[p]).data@ == old.patterns@[p].data@
            &&& new.patterns@[p].length == old.patterns@[p].length
            &&& new.patterns@[p].index == 0
        }
}

/// Every per-line event counter is 0.
pub open spec fn ev_zero(ev: [[u32; 8]; 10]) -> bool {
    forall|s: int, l: int| 0 <= s < 10 && 0 <= l < 8 ==> #[trigger] ev@[s]@[l] == 0
}

fn reset_indices(patterns: &mut PatternStorage)
    requires
        old(patterns).wf(),
    ensures
        final(patterns).wf(),
        indices_reset(*old(patterns), *final(patterns)),
        final(patterns).toggle_state == old(patterns).toggle_state,
{
    let n = patterns.patterns.len();
    let mut p: usize = 0;
    while p < n
        invariant
            n == old(patterns).patterns@.len(),
            p <= n,
            patterns.wf(),
            patterns.patterns@.len() == n,
            patterns.working == old(patterns).working,
            patterns.toggle_state == old(patterns).toggle_state,
            forall|q: int|
                0 <= q < n ==> {
                    &&& (#[trigger] patterns.patterns@[q]).data@ == old(patterns).patterns@[q].data@
                    &&& patterns.patterns@[q].length == old(patterns).patterns@[q].length
                    &&& (q < p ==> patterns.patterns@[q].index == 0)
                    &&& (q >= p ==> patterns.patterns@[q].index == old(patterns).patterns@[q].index)
                },
        decreases n - p,
    {
        patterns.patterns[p].index = 0;
        p = p + 1;
    }
}

/// SYNC: forgets all toggle memory, puts every pattern at its first step,
/// every counter at its minimum, and every event counter at 0.
pub fn handle_sync(
    patterns: &mut PatternStorage,
    counters: &mut Counters,
    ev_counters: &mut [[u32; 8]; 10],
    out: &mut Console,
)
    requires
        old(patterns).wf(),
        old(counters).wf(),
    ensures
        final(patterns).wf(),
        indices_reset(*old(patterns), *final(patterns)),
        final(patterns).toggle_state@ == Map::<Seq<char>, u32>::empty(),
        final(counters).wf(),
        final(counters).values@ == old(counters).min@,
        final(counters).min@ == old(counters).min@,
        final(counters).max@ == old(counters).max@,
        ev_zero(*final(ev_counters)),
        final(out)@ == old(out)@.push((OutputCategory::Confirm, "SYNC: ALL STATE RESET"@)),
{
    patterns.toggle_state.clear();
    reset_indices(patterns);
    let mut i: usize = 0;
    while i < 4
        invariant
            i <= 4,
            counters.wf(),
            counters.min@ == old(counters).min@,
            counters.max@ == old(counters).max@,
            forall|j: int| 0 <= j < i ==> counters.values@[j] == counters.min@[j],
        decreases 4 - i,
    {
        let m = counters.min[i];
        counters.values.set(i, m);
        i = i + 1;
    }
    proof {
        assert(counters.values@ =~= counters.min@);
    }
    *ev_counters = [[0u32; 8]; 10];
    out.emit_str(OutputCategory::Confirm, "SYNC: ALL STATE RESET");
}

/// SYNC.SEQ: forgets the SEQ state (keys starting with `seq_`).
pub fn handle_sync_seq(patterns: &mut PatternStorage, out: &mut Console)
    requires
        old(patterns).wf(),
    ensures
        final(patterns).wf(),
        final(patterns).patterns == old(patterns).patterns,
        final(patterns).working == old(patterns).working,
        final(patterns).toggle_state@ == old(patterns).toggle_state@.restrict(
            old(patterns).toggle_state@.dom().filter(|k: Seq<char>| !key_in_class(k, KeyClass::SeqState)),
        ),
        final(out)@ == old(out)@.push((OutputCategory::Confirm, "SYNC.SEQ: SEQ STATE RESET"@)),
{
    patterns.toggle_state.forget_keys(KeyClass::SeqState);
    out.emit_str(OutputCategory::Confirm, "SYNC.SEQ: SEQ STATE RESET");
}

/// SYNC.TOG: forgets the TOG and EITH state (keys holding `_TOG_` or `_EITH_`).
pub fn handle_sync_tog(patterns: &mut PatternStorage, out: &mut Console)
    requires
        old(patterns).wf(),
    ensures
        final(patterns).wf(),
        final(patterns).patterns == old(patterns).patterns,
        final(patterns).working == old(patterns).working,
        final(patterns).toggle_state@ == old(patterns).toggle_state@.restrict(
            old(patterns).toggle_state@.dom().filter(|k: Seq<char>| !key_in_class(k, KeyClass::TogEith)),
        ),
        final(out)@ == old(out)@.push((OutputCategory::Confirm, "SYNC.TOG: TOG/EITH STATE RESET"@)),
{
    patterns.toggle_state.forget_keys(KeyClass::TogEith);
    out.emit_str(OutputCategory::Confirm, "SYNC.TOG: TOG/EITH STATE RESET");
}

/// SYNC.PAT: puts every pattern at its first step.
pub fn handle_sync_pat(patterns: &mut PatternStorage, out: &mut Console)
    requires
        old(patterns).wf(),
    ensures
        final(patterns).wf(),
        indices_reset(*old(patterns), *final(patterns)),
        final(patterns).toggle_state == old(patterns).toggle_state,
        final(out)@ == old(out)@.push((OutputCategory::Confirm, "SYNC.PAT: PATTERN INDICES RESET"@)),
{
    reset_indices(patterns);
    out.emit_str(OutputCategory::Confirm, "SYNC.PAT: PATTERN INDICES RESET");
}

} // verus!
