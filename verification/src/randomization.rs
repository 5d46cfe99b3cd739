//! RND.P, RND.PN and RND.PALL fill patterns with random steps; the range is
//! given by two arguments (0 to 127 by default), in either order.
//! RND.FM, RND.MOD and RND.VERB pick random whole-number synth parameters,
//! each from its own range, for the caller to send to the sound engine.

use vstd::prelude::*;
use crate::args::{eval_expression, eval_token, i16_arg, i16_argument, tok};
use crate::console::{Console, Output, OutputCategory};
use crate::rng::random_i32_in;
use crate::patterns::common::{data_updated, pat, pattern_rnd_impl, PatternRef};
use crate::state::PatternStorage;
use crate::text::{dec, parse_usize, parse_usize_token, push_int, push_str};

verus! {

/// The range given at `parts[first]` and `parts[first + 1]`, low end first;
/// 0 to 127 where fewer arguments are given. `None` where one is not a number.
pub open spec fn ordered_range(parts: Seq<&str>, first: int) -> Option<(i16, i16)> {
    if parts.len() >= first + 2 {
        match (i16_arg(tok(parts, first)), i16_arg(tok(parts, first + 1))) {
            (Some(a), Some(b)) => if a <= b {
                Some((a, b))
            } else {
                Some((b, a))
            },
            _ => None,
        }
    } else {
        Some((0i16, 127i16))
    }
}

/// The error for a range that is not made of numbers.
pub open spec fn range_error(parts: Seq<&str>, first: int) -> Seq<char> {
    if i16_arg(tok(parts, first)) is None {
        "Failed to parse min value"@
    } else {
        "Failed to parse max value"@
    }
}

/// Pattern `k` of `new` holds random steps in `[lo, hi]` where `old` had used
/// steps, and is otherwise as in `old`.
pub open spec fn randomized(old: PatternStorage, new: PatternStorage, k: int, lo: i16, hi: i16) -> bool {
    let p = pat(old, k);
    let q = pat(new, k);
    &&& q.length == p.length
    &&& q.index == p.index
    &&& forall|i: int| 0 <= i < p.length ==> lo <= #[trigger] q.data@[i] <= hi
    &&& q.data@.len() == 64
    &&& q.data@.skip(p.length as int) == p.data@.skip(p.length as int)
}

fn read_range(parts: &[&str], first: usize) -> (r: Result<(i16, i16), String>)
    requires
        first <= 3,
    ensures
        match ordered_range(parts@, first as int) {
            Some(x) => r == Ok::<(i16, i16), String>(x),
            None => r is Err && r->Err_0@ == range_error(parts@, first as int),
        },
{
    if parts.len() >= first + 2 {
        let a = i16_argument(parts, first, "Failed to parse min value")?;
        let b = i16_argument(parts, first + 1, "Failed to parse max value")?;
        if a <= b {
            Ok((a, b))
        } else {
            Ok((b, a))
        }
    } else {
        Ok((0, 127))
    }
}

fn confirm_text(head: &str, lo: i16, hi: i16) -> (s: String)
    ensures
        s@ == head@ + " RANGE "@ + dec(lo as int) + " TO "@ + dec(hi as int),
{
    let mut s = String::from_str(head);
    push_str(&mut s, " RANGE ");
    push_int(&mut s, lo as i128);
    push_str(&mut s, " TO ");
    push_int(&mut s, hi as i128);
    s
}

/// RND.P [min max]: fills the working pattern's used steps with random
/// values.
pub fn handle_rnd_p(parts: &[&str], patterns: &mut PatternStorage, out: &mut Console) -> (r: Result<(), String>)
    requires
        old(patterns).wf(),
    ensures
        final(patterns).wf(),
        match ordered_range(parts@, 1) {
            None => *final(patterns) == *old(patterns) && final(out)@ == old(out)@ && r is Err
                && r->Err_0@ == range_error(parts@, 1),
            Some((lo, hi)) => {
                let w = old(patterns).working as int;
                &&& r is Ok
                &&& data_updated(*old(patterns), *final(patterns), w, pat(*final(patterns), w).data@)
                &&& randomized(*old(patterns), *final(patterns), w, lo, hi)
                &&& final(out)@ == old(out)@.push(
                    (OutputCategory::ConfirmLevel, "RANDOMIZED PATTERN "@ + dec(w) + " RANGE "@ + dec(lo as int) + " TO "@ + dec(hi as int)),
                )
            },
        },
{
    let (lo, hi) = read_range(parts, 1)?;
    let w = pattern_rnd_impl(PatternRef::Working, lo, hi, patterns);
    let mut h = String::from_str("RANDOMIZED PATTERN ");
    push_int(&mut h, w as i128);
    out.emit(OutputCategory::ConfirmLevel, confirm_text(h.as_str(), lo, hi));
    Ok(())
}

/// The pattern number argument of RND.PN: `Ok` with the number, or `Err`
/// with `true` for a number out of 0..=5 (reported) and `false` for no
/// number at all (an error).
pub open spec fn pattern_number(t: Seq<char>) -> Result<usize, bool> {
    match eval_token(t) {
        Some(v) => if v < 0 || v > 5 {
            Err(true)
        } else {
            Ok(v as usize)
        },
        None => match parse_usize(t) {
            Some(p) => if p > 5 {
                Err(true)
            } else {
                Ok(p)
            },
            None => Err(false),
        },
    }
}

fn read_pattern_number(t: &str) -> (r: Result<usize, bool>)
    ensures
        r == pattern_number(t@),
{
    let one: [&str; 1] = [t];
    proof {
        assert(one@[0] == t);
    }
    match eval_expression(&one, 0) {
        Some((v, _)) => {
            if v < 0 || v > 5 {
                Err(true)
            } else {
                Ok(v as usize)
            }
        },
        None => match parse_usize_token(t) {
            Some(p) => {
                if p > 5 {
                    Err(true)
                } else {
                    Ok(p)
                }
            },
            None => Err(false),
        },
    }
}

/// RND.PN pattern [min max]: fills the used steps of the given pattern with
/// random values.
pub fn handle_rnd_pn(parts: &[&str], patterns: &mut PatternStorage, out: &mut Console) -> (r: Result<(), String>)
    requires
        old(patterns).wf(),
    ensures
        final(patterns).wf(),
        parts@.len() < 2 ==> r is Ok && *final(patterns) == *old(patterns) && final(out)@ == old(out)@.push(
            (OutputCategory::Always, "ERROR: RND.PN REQUIRES PATTERN NUMBER (0-5)"@),
        ),
        parts@.len() >= 2 ==> match pattern_number(tok(parts@, 1)) {
            Err(true) => r is Ok && *final(patterns) == *old(patterns) && final(out)@ == old(out)@.push(
                (OutputCategory::Always, "ERROR: PATTERN NUMBER MUST BE 0-5"@),
            ),
            Err(false) => r is Err && r->Err_0@ == "Failed to parse pattern number"@ && *final(patterns)
                == *old(patterns) && final(out)@ == old(out)@,
            Ok(k) => match ordered_range(parts@, 2) {
                None => *final(patterns) == *old(patterns) && final(out)@ == old(out)@ && r is Err
                    && r->Err_0@ == range_error(parts@, 2),
                Some((lo, hi)) => {
                    &&& r is Ok
                    &&& data_updated(*old(patterns), *final(patterns), k as int, pat(*final(patterns), k as int).data@)
                    &&& randomized(*old(patterns), *final(patterns), k as int, lo, hi)
                    &&& final(out)@ == old(out)@.push(
                        (OutputCategory::ConfirmLevel, "RANDOMIZED PATTERN "@ + dec(k as int) + " RANGE "@ + dec(lo as int) + " TO "@ + dec(hi as int)),
                    )
                },
            },
        },
{
    if parts.len() < 2 {
        out.emit_str(OutputCategory::Always, "ERROR: RND.PN REQUIRES PATTERN NUMBER (0-5)");
        return Ok(());
    }
    let k = match read_pattern_number(parts[1]) {
        Ok(k) => k,
        Err(true) => {
            out.emit_str(OutputCategory::Always, "ERROR: PATTERN NUMBER MUST BE 0-5");
            return Ok(());
        },
        Err(false) => return Err(String::from_str("Failed to parse pattern number")),
    };
    let (lo, hi) = read_range(parts, 2)?;
    let w = pattern_rnd_impl(PatternRef::Explicit(k), lo, hi, patterns);
    let mut h = String::from_str("RANDOMIZED PATTERN ");
    push_int(&mut h, w as i128);
    out.emit(OutputCategory::ConfirmLevel, confirm_text(h.as_str(), lo, hi));
    Ok(())
}

/// RND.PALL [min max]: fills the used steps of all six patterns with random
/// values.
pub fn handle_rnd_pall(parts: &[&str], patterns: &mut PatternStorage, out: &mut Console) -> (r: Result<(), String>)
    requires
        old(patterns).wf(),
    ensures
        final(patterns).wf(),
        match ordered_range(parts@, 1) {
            None => *final(patterns) == *old(patterns) && final(out)@ == old(out)@ && r is Err
                && r->Err_0@ == range_error(parts@, 1),
            Some((lo, hi)) => {
                &&& r is Ok
                &&& final(patterns).working == old(patterns).working
                &&& final(patterns).toggle_state == old(patterns).toggle_state
                &&& forall|k: int| 0 <= k < 6 ==> randomized(*old(patterns), *final(patterns), k, lo, hi)
                &&& final(out)@ == old(out)@.push(
                    (OutputCategory::ConfirmLevel, "RANDOMIZED ALL PATTERNS"@ + " RANGE "@ + dec(lo as int) + " TO "@ + dec(hi as int)),
                )
            },
        },
{
    let (lo, hi) = read_range(parts, 1)?;
    let mut k: usize = 0;
    while k < 6
        invariant
            k <= 6,
            lo <= hi,
            patterns.wf(),
            patterns.working == old(patterns).working,
            patterns.toggle_state == old(patterns).toggle_state,
            forall|j: int| 0 <= j < k ==> randomized(*old(patterns), *patterns, j, lo, hi),
            forall|j: int| k <= j < 6 ==> #[trigger] patterns.patterns@[j] == old(patterns).patterns@[j],
        decreases 6 - k,
    {
        let ghost before = *patterns;
        assert(before.patterns@[k as int] == old(patterns).patterns@[k as int]);
        pattern_rnd_impl(PatternRef::Explicit(k), lo, hi, patterns);
        proof {
            let q = pat(*patterns, k as int);
            let p = pat(before, k as int);
            assert(q.length == p.length);
            assert(q.index == p.index);
            assert(forall|i: int| 0 <= i < p.length ==> lo <= #[trigger] q.data@[i] <= hi);
            assert(q.data@.skip(p.length as int) == p.data@.skip(p.length as int));
            assert(randomized(before, *patterns, k as int, lo, hi));
            assert forall|j: int| 0 <= j < k + 1 implies randomized(*old(patterns), *patterns, j, lo, hi) by {
                if j < k {
                    assert(randomized(*old(patterns), before, j, lo, hi));
                    assert(patterns.patterns@[j] == before.patterns@[j]);
                    assert(pat(*patterns, j) == pat(before, j));
                } else {
                    assert(pat(before, j) == pat(*old(patterns), j));
                }
            }
        }
        k = k + 1;
    }
    out.emit(OutputCategory::ConfirmLevel, confirm_text("RANDOMIZED ALL PATTERNS", lo, hi));
    Ok(())
}

/// Synth parameters to send, by name, and the line to print once they are
/// sent.
pub struct ParamBatch {
    pub sends: Vec<(String, i32)>,
    pub confirmation: Output,
}

impl View for ParamBatch {
    type V = (Seq<(Seq<char>, i32)>, (OutputCategory, Seq<char>));

    open spec fn view(&self) -> (Seq<(Seq<char>, i32)>, (OutputCategory, Seq<char>)) {
        (
            self.sends@.map_values(|p: (String, i32)| (p.0@, p.1)),
            (self.confirmation.category, self.confirmation.text@),
        )
    }
}

/// `sends` names the parameters of `ranges`, in order, each with a value in
/// its range.
pub open spec fn picked(sends: Seq<(Seq<char>, i32)>, ranges: Seq<(Seq<char>, int, int)>) -> bool {
    &&& sends.len() == ranges.len()
    &&& forall|i: int|
        0 <= i < sends.len() ==> (#[trigger] sends[i]).0 == ranges[i].0 && ranges[i].1 <= sends[i].1
            <= ranges[i].2
}

/// The parameters of RND.FM and their ranges.
pub open spec fn fm_ranges() -> Seq<(Seq<char>, int, int)> {
    seq![("fm"@, 0, 8000), ("fb"@, 0, 4000), ("fba"@, 0, 8000), ("fbd"@, 10, 2000)]
}

/// The parameters of RND.MOD and their ranges.
pub open spec fn mod_ranges() -> Seq<(Seq<char>, int, int)> {
    seq![
        ("mb"@, 0, 8000),
        ("tk"@, 0, 8000),
        ("mp"@, 0, 1),
        ("md"@, 0, 1),
        ("mt"@, 0, 1),
        ("ma"@, 0, 1),
    ]
}

/// The parameters of RND.VERB and their ranges.
pub open spec fn verb_ranges() -> Seq<(Seq<char>, int, int)> {
    seq![("rv"@, 0, 10000), ("rp"@, 0, 50), ("rh"@, 0, 10000), ("rw"@, 0, 8000)]
}

fn pick(name: &str, lo: i32, hi: i32, sends: &mut Vec<(String, i32)>) -> (v: i32)
    requires
        lo <= hi,
    ensures
        lo <= v <= hi,
        final(sends)@.map_values(|p: (String, i32)| (p.0@, p.1)) == old(sends)@.map_values(
            |p: (String, i32)| (p.0@, p.1),
        ).push((name@, v)),
{
    let v = random_i32_in(lo, hi);
    sends.push((String::from_str(name), v));
    proof {
        assert(sends@.map_values(|p: (String, i32)| (p.0@, p.1)) =~= old(sends)@.map_values(
            |p: (String, i32)| (p.0@, p.1),
        ).push((name@, v)));
    }
    v
}

/// RND.FM: random FM amount and feedback settings.
pub fn handle_rnd_fm() -> (r: ParamBatch)
    ensures
        picked(r@.0, fm_ranges()),
        r@.1 == (OutputCategory::ConfirmLevel, "RANDOMIZED FM"@),
{
    let mut sends: Vec<(String, i32)> = Vec::new();
    pick("fm", 0, 8000, &mut sends);
    pick("fb", 0, 4000, &mut sends);
    pick("fba", 0, 8000, &mut sends);
    pick("fbd", 10, 2000, &mut sends);
    ParamBatch {
        sends,
        confirmation: Output {
            category: OutputCategory::ConfirmLevel,
            text: String::from_str("RANDOMIZED FM"),
        },
    }
}

/// RND.MOD: random modulation bus settings, printed with their values.
pub fn handle_rnd_mod() -> (r: ParamBatch)
    ensures
        picked(r@.0, mod_ranges()),
        r@.1 == (OutputCategory::ConfirmLevel, "RANDOMIZED MODULATION MB="@ + dec(r@.0[0].1 as int)
            + " TK="@ + dec(r@.0[1].1 as int) + " MP="@ + dec(r@.0[2].1 as int) + " MD="@ + dec(
            r@.0[3].1 as int,
        ) + " MT="@ + dec(r@.0[4].1 as int) + " MA="@ + dec(r@.0[5].1 as int)),
{
    let mut sends: Vec<(String, i32)> = Vec::new();
    let mb = pick("mb", 0, 8000, &mut sends);
    let tk = pick("tk", 0, 8000, &mut sends);
    let mp = pick("mp", 0, 1, &mut sends);
    let md = pick("md", 0, 1, &mut sends);
    let mt = pick("mt", 0, 1, &mut sends);
    let ma = pick("ma", 0, 1, &mut sends);
    let mut text = String::from_str("RANDOMIZED MODULATION MB=");
    push_int(&mut text, mb as i128);
    push_str(&mut text, " TK=");
    push_int(&mut text, tk as i128);
    push_str(&mut text, " MP=");
    push_int(&mut text, mp as i128);
    push_str(&mut text, " MD=");
    push_int(&mut text, md as i128);
    push_str(&mut text, " MT=");
    push_int(&mut text, mt as i128);
    push_str(&mut text, " MA=");
    push_int(&mut text, ma as i128);
    ParamBatch { sends, confirmation: Output { category: OutputCategory::ConfirmLevel, text } }
}

/// RND.VERB: random reverb settings.
pub fn handle_rnd_verb() -> (r: ParamBatch)
    ensures
        picked(r@.0, verb_ranges()),
        r@.1 == (OutputCategory::ConfirmLevel, "RANDOMIZED REVERB"@),
{
    let mut sends: Vec<(String, i32)> = Vec::new();
    pick("rv", 0, 10000, &mut sends);
    pick("rp", 0, 50, &mut sends);
    pick("rh", 0, 10000, &mut sends);
    pick("rw", 0, 8000, &mut sends);
    ParamBatch {
        sends,
        confirmation: Output {
            category: OutputCategory::ConfirmLevel,
            text: String::from_str("RANDOMIZED REVERB"),
        },
    }
}

} // verus!
