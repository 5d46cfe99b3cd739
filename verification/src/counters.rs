//! The counters N1..N4. Reading one prints its value and steps it up by one;
//! with a maximum set (anything but 0) it wraps from past the maximum back to
//! its minimum, else it wraps around the `i16` range.

use vstd::prelude::*;
use crate::args::{i16_arg, tok};
use crate::console::{line, Console, OutputCategory};
use crate::state::Counters;
use crate::text::{dec, fmt_int, push_int, push_str, text_int};

verus! {

/// The name of counter `k` (0 to 3).
pub open spec fn counter_name(k: int) -> Seq<char> {
    if k == 0 {
        "N1"@
    } else if k == 1 {
        "N2"@
    } else if k == 2 {
        "N3"@
    } else {
        "N4"@
    }
}

/// The value a counter steps to from `current`.
pub open spec fn stepped(current: i16, min: i16, max: i16) -> i16 {
    if max == 0 {
        if current == i16::MAX {
            i16::MIN
        } else {
            (current + 1) as i16
        }
    } else if current + 1 > max {
        min
    } else {
        (current + 1) as i16
    }
}

/// Stepping counter `k` stays inside `i16`: with a maximum set, the plain
/// `+ 1` is taken, which must not overflow.
pub open spec fn can_step(c: Counters, k: int) -> bool {
    c.max@[k] != 0 ==> c.values@[k] < i16::MAX
}

/// `new` is `old` with the value of counter `k` set to `v`.
pub open spec fn value_set(old: Counters, new: Counters, k: int, v: i16) -> bool {
    &&& new.values@ == old.values@.update(k, v)
    &&& new.min@ == old.min@
    &&& new.max@ == old.max@
}

/// `new` is `old` with the minimum of counter `k` set to `v`.
pub open spec fn min_set(old: Counters, new: Counters, k: int, v: i16) -> bool {
    &&& new.values@ == old.values@
    &&& new.min@ == old.min@.update(k, v)
    &&& new.max@ == old.max@
}

/// `new` is `old` with the maximum of counter `k` set to `v`.
pub open spec fn max_set(old: Counters, new: Counters, k: int, v: i16) -> bool {
    &&& new.values@ == old.values@
    &&& new.min@ == old.min@
    &&& new.max@ == old.max@.update(k, v)
}

/// What reading counter `k` does: the value printed, then stepped.
pub open spec fn read_done(
    old: Counters,
    new: Counters,
    k: int,
    out_old: Seq<(OutputCategory, Seq<char>)>,
    out_new: Seq<(OutputCategory, Seq<char>)>,
) -> bool {
    &&& new.wf()
    &&& value_set(old, new, k, stepped(old.values@[k], old.min@[k], old.max@[k]))
    &&& out_new == out_old.push(line(dec(old.values@[k] as int)))
}

/// What resetting counter `k` does: back to its minimum, which is printed.
pub open spec fn reset_done(
    old: Counters,
    new: Counters,
    k: int,
    out_old: Seq<(OutputCategory, Seq<char>)>,
    out_new: Seq<(OutputCategory, Seq<char>)>,
) -> bool {
    &&& new.wf()
    &&& value_set(old, new, k, old.min@[k])
    &&& out_new == out_old.push(line(counter_name(k) + " RESET TO "@ + dec(old.min@[k] as int)))
}

/// What `Nk.MAX value` does, for the argument tokens `parts`.
pub open spec fn max_done(
    parts: Seq<&str>,
    old: Counters,
    new: Counters,
    k: int,
    out_old: Seq<(OutputCategory, Seq<char>)>,
    out_new: Seq<(OutputCategory, Seq<char>)>,
) -> bool {
    let name = counter_name(k) + ".MAX"@;
    &&& new.wf()
    &&& if parts.len() < 2 {
        new == old && out_new == out_old.push(line(name + " REQUIRES A VALUE"@))
    } else {
        match i16_arg(tok(parts, 1)) {
            None => new == old && out_new == out_old.push(
                line("ERROR: FAILED TO PARSE VALUE FOR "@ + name),
            ),
            Some(v) => if v > 0 && v < old.min@[k] {
                new == old && out_new == out_old.push(
                    line(
                        "ERROR: MAX ("@ + dec(v as int) + ") MUST BE >= MIN ("@ + dec(
                            old.min@[k] as int,
                        ) + ")"@,
                    ),
                )
            } else if v == 0 {
                max_set(old, new, k, v) && out_new == out_old.push(
                    line(name + " DISABLED (NO WRAP)"@),
                )
            } else {
                max_set(old, new, k, v) && out_new == out_old.push(
                    line(name + " SET TO "@ + dec(v as int)),
                )
            },
        }
    }
}

/// What `Nk.MIN value` does, for the argument tokens `parts`.
pub open spec fn min_done(
    parts: Seq<&str>,
    old: Counters,
    new: Counters,
    k: int,
    out_old: Seq<(OutputCategory, Seq<char>)>,
    out_new: Seq<(OutputCategory, Seq<char>)>,
) -> bool {
    let name = counter_name(k) + ".MIN"@;
    &&& new.wf()
    &&& if parts.len() < 2 {
        new == old && out_new == out_old.push(line(name + " REQUIRES A VALUE"@))
    } else {
        match i16_arg(tok(parts, 1)) {
            None => new == old && out_new == out_old.push(
                line("ERROR: FAILED TO PARSE VALUE FOR "@ + name),
            ),
            Some(v) => min_set(old, new, k, v) && out_new == out_old.push(
                line(name + " SET TO "@ + dec(v as int)),
            ),
        }
    }
}

/// Reads argument `idx` as an `i16` for the parameter `param_name`, printing
/// an error and giving `None` where there is no such argument or it is no
/// `i16`.
pub fn parse_i16_expr(parts: &[&str], idx: usize, param_name: &str, out: &mut Console) -> (r:
    Option<i16>)
    ensures
        idx >= parts@.len() ==> r == None::<i16> && final(out)@ == old(out)@.push(
            line("ERROR: "@ + param_name@ + " REQUIRES A VALUE"@),
        ),
        idx < parts@.len() ==> r == i16_arg(tok(parts@, idx as int)) && final(out)@ == (match r {
            Some(_) => old(out)@,
            None => old(out)@.push(line("ERROR: FAILED TO PARSE VALUE FOR "@ + param_name@)),
        }),
{
    if idx >= parts.len() {
        let mut s = String::from_str("ERROR: ");
        push_str(&mut s, param_name);
        push_str(&mut s, " REQUIRES A VALUE");
        out.emit(OutputCategory::Always, s);
        return None;
    }
    match crate::args::eval_expression(parts, idx) {
        Some((v, _)) => Some(v),
        None => match crate::text::parse_i16_token(parts[idx]) {
            Some(v) => Some(v),
            None => {
                let mut s = String::from_str("ERROR: FAILED TO PARSE VALUE FOR ");
                push_str(&mut s, param_name);
                out.emit(OutputCategory::Always, s);
                None
            },
        },
    }
}

fn name_of(k: usize) -> (s: &'static str)
    requires
        k < 4,
    ensures
        s@ == counter_name(k as int),
{
    if k == 0 {
        "N1"
    } else if k == 1 {
        "N2"
    } else if k == 2 {
        "N3"
    } else {
        "N4"
    }
}

fn read_counter(counters: &mut Counters, k: usize, out: &mut Console)
    requires
        old(counters).wf(),
        k < 4,
        can_step(*old(counters), k as int),
    ensures
        read_done(*old(counters), *final(counters), k as int, old(out)@, final(out)@),
{
    let current = counters.values[k];
    let min = counters.min[k];
    let max = counters.max[k];
    let next = if max == 0 {
        if current == i16::MAX {
            i16::MIN
        } else {
            current + 1
        }
    } else {
        let n = current + 1;
        if n > max {
            min
        } else {
            n
        }
    };
    counters.values.set(k, next);
    out.emit(OutputCategory::Always, fmt_int(current as i128));
}

fn reset_counter(counters: &mut Counters, k: usize, out: &mut Console)
    requires
        old(counters).wf(),
        k < 4,
    ensures
        reset_done(*old(counters), *final(counters), k as int, old(out)@, final(out)@),
{
    let m = counters.min[k];
    counters.values.set(k, m);
    let mut s = String::from_str(name_of(k));
    push_str(&mut s, " RESET TO ");
    push_int(&mut s, m as i128);
    out.emit(OutputCategory::Always, s);
}

fn set_max(parts: &[&str], counters: &mut Counters, k: usize, out: &mut Console)
    requires
        old(counters).wf(),
        k < 4,
    ensures
        max_done(parts@, *old(counters), *final(counters), k as int, old(out)@, final(out)@),
{
    let mut name = String::from_str(name_of(k));
    push_str(&mut name, ".MAX");
    if parts.len() < 2 {
        push_str(&mut name, " REQUIRES A VALUE");
        out.emit(OutputCategory::Always, name);
        return;
    }
    let value = match parse_i16_expr(parts, 1, name.as_str(), out) {
        Some(v) => v,
        None => return,
    };
    let m = counters.min[k];
    if value > 0 && value < m {
        let mut s = text_int("ERROR: MAX (", value as i128);
        push_str(&mut s, ") MUST BE >= MIN (");
        push_int(&mut s, m as i128);
        push_str(&mut s, ")");
        out.emit(OutputCategory::Always, s);
        return;
    }
    counters.max.set(k, value);
    if value == 0 {
        push_str(&mut name, " DISABLED (NO WRAP)");
    } else {
        push_str(&mut name, " SET TO ");
        push_int(&mut name, value as i128);
    }
    out.emit(OutputCategory::Always, name);
}

fn set_min(parts: &[&str], counters: &mut Counters, k: usize, out: &mut Console)
    requires
        old(counters).wf(),
        k < 4,
    ensures
        min_done(parts@, *old(counters), *final(counters), k as int, old(out)@, final(out)@),
{
    let mut name = String::from_str(name_of(k));
    push_str(&mut name, ".MIN");
    if parts.len() < 2 {
        push_str(&mut name, " REQUIRES A VALUE");
        out.emit(OutputCategory::Always, name);
        return;
    }
    let value = match parse_i16_expr(parts, 1, name.as_str(), out) {
        Some(v) => v,
        None => return,
    };
    counters.min.set(k, value);
    push_str(&mut name, " SET TO ");
    push_int(&mut name, value as i128);
    out.emit(OutputCategory::Always, name);
}

/// N1: prints counter 1 and steps it.
pub fn handle_n1(counters: &mut Counters, out: &mut Console)
    requires
        old(counters).wf(),
        can_step(*old(counters), 0),
    ensures
        read_done(*old(counters), *final(counters), 0, old(out)@, final(out)@),
{
    read_counter(counters, 0, out);
}

/// N2: prints counter 2 and steps it.
pub fn handle_n2(counters: &mut Counters, out: &mut Console)
    requires
        old(counters).wf(),
        can_step(*old(counters), 1),
    ensures
        read_done(*old(counters), *final(counters), 1, old(out)@, final(out)@),
{
    read_counter(counters, 1, out);
}

/// N3: prints counter 3 and steps it.
pub fn handle_n3(counters: &mut Counters, out: &mut Console)
    requires
        old(counters).wf(),
        can_step(*old(counters), 2),
    ensures
        read_done(*old(counters), *final(counters), 2, old(out)@, final(out)@),
{
    read_counter(counters, 2, out);
}

/// N4: prints counter 4 and steps it.
pub fn handle_n4(counters: &mut Counters, out: &mut Console)
    requires
        old(counters).wf(),
        can_step(*old(counters), 3),
    ensures
        read_done(*old(counters), *final(counters), 3, old(out)@, final(out)@),
{
    read_counter(counters, 3, out);
}

/// N1.RST: sets counter 1 back to its minimum.
pub fn handle_n1_rst(counters: &mut Counters, out: &mut Console)
    requires
        old(counters).wf(),
    ensures
        reset_done(*old(counters), *final(counters), 0, old(out)@, final(out)@),
{
    reset_counter(counters, 0, out);
}

/// N2.RST: sets counter 2 back to its minimum.
pub fn handle_n2_rst(counters: &mut Counters, out: &mut Console)
    requires
        old(counters).wf(),
    ensures
        reset_done(*old(counters), *final(counters), 1, old(out)@, final(out)@),
{
    reset_counter(counters, 1, out);
}

/// N3.RST: sets counter 3 back to its minimum.
pub fn handle_n3_rst(counters: &mut Counters, out: &mut Console)
    requires
        old(counters).wf(),
    ensures
        reset_done(*old(counters), *final(counters), 2, old(out)@, final(out)@),
{
    reset_counter(counters, 2, out);
}

/// N4.RST: sets counter 4 back to its minimum.
pub fn handle_n4_rst(counters: &mut Counters, out: &mut Console)
    requires
        old(counters).wf(),
    ensures
        reset_done(*old(counters), *final(counters), 3, old(out)@, final(out)@),
{
    reset_counter(counters, 3, out);
}

/// N1.MAX value: sets the wrap-around maximum of counter 1 (0: no wrap).
pub fn handle_n1_max(parts: &[&str], counters: &mut Counters, out: &mut Console)
    requires
        old(counters).wf(),
    ensures
        max_done(parts@, *old(counters), *final(counters), 0, old(out)@, final(out)@),
{
    set_max(parts, counters, 0, out);
}

/// N2.MAX value: sets the wrap-around maximum of counter 2 (0: no wrap).
pub fn handle_n2_max(parts: &[&str], counters: &mut Counters, out: &mut Console)
    requires
        old(counters).wf(),
    ensures
        max_done(parts@, *old(counters), *final(counters), 1, old(out)@, final(out)@),
{
    set_max(parts, counters, 1, out);
}

/// N3.MAX value: sets the wrap-around maximum of counter 3 (0: no wrap).
pub fn handle_n3_max(parts: &[&str], counters: &mut Counters, out: &mut Console)
    requires
        old(counters).wf(),
    ensures
        max_done(parts@, *old(counters), *final(counters), 2, old(out)@, final(out)@),
{
    set_max(parts, counters, 2, out);
}

/// N4.MAX value: sets the wrap-around maximum of counter 4 (0: no wrap).
pub fn handle_n4_max(parts: &[&str], counters: &mut Counters, out: &mut Console)
    requires
        old(counters).wf(),
    ensures
        max_done(parts@, *old(counters), *final(counters), 3, old(out)@, final(out)@),
{
    set_max(parts, counters, 3, out);
}

/// N1.MIN value: sets the minimum of counter 1.
pub fn handle_n1_min(parts: &[&str], counters: &mut Counters, out: &mut Console)
    requires
        old(counters).wf(),
    ensures
        min_done(parts@, *old(counters), *final(counters), 0, old(out)@, final(out)@),
{
    set_min(parts, counters, 0, out);
}

/// N2.MIN value: sets the minimum of counter 2.
pub fn handle_n2_min(parts: &[&str], counters: &mut Counters, out: &mut Console)
    requires
        old(counters).wf(),
    ensures
        min_done(parts@, *old(counters), *final(counters), 1, old(out)@, final(out)@),
{
    set_min(parts, counters, 1, out);
}

/// N3.MIN value: sets the minimum of counter 3.
pub fn handle_n3_min(parts: &[&str], counters: &mut Counters, out: &mut Console)
    requires
        old(counters).wf(),
    ensures
        min_done(parts@, *old(counters), *final(counters), 2, old(out)@, final(out)@),
{
    set_min(parts, counters, 2, out);
}

/// N4.MIN value: sets the minimum of counter 4.
pub fn handle_n4_min(parts: &[&str], counters: &mut Counters, out: &mut Console)
    requires
        old(counters).wf(),
    ensures
        min_done(parts@, *old(counters), *final(counters), 3, old(out)@, final(out)@),
{
    set_min(parts, counters, 3, out);
}

// ---------------------------------------------------------------------------
// Laws
// ---------------------------------------------------------------------------

/// The value after `n` reads of a counter that starts at `cur`.
pub open spec fn steps(cur: i16, min: i16, max: i16, n: nat) -> i16
    decreases n,
{
    if n == 0 {
        cur
    } else {
        steps(stepped(cur, min, max), min, max, (n - 1) as nat)
    }
}

proof fn lemma_steps_add(cur: i16, min: i16, max: i16, a: nat, b: nat)
    ensures
        steps(cur, min, max, a + b) == steps(steps(cur, min, max, a), min, max, b),
    decreases a,
{
    if a > 0 {
        lemma_steps_add(stepped(cur, min, max), min, max, (a - 1) as nat, b);
        assert((a + b - 1) as nat == ((a - 1) as nat + b) as nat);
    }
}

proof fn lemma_steps_climb(cur: i16, min: i16, max: i16, n: nat)
    requires
        max != 0,
        cur + n <= max,
    ensures
        steps(cur, min, max, n) == cur + n,
    decreases n,
{
    if n > 0 {
        lemma_steps_climb((cur + 1) as i16, min, max, (n - 1) as nat);
    }
}

/// With a maximum set, a counter inside `[min, max]` stays inside it when
/// read.
pub proof fn law_read_stays_in_range(cur: i16, min: i16, max: i16)
    requires
        max != 0,
        min <= cur <= max,
    ensures
        min <= stepped(cur, min, max) <= max,
{
}

/// With a maximum set, a counter inside `[min, max]` comes back to where it
/// started after `max - min + 1` reads: it counts up to the maximum, wraps to
/// the minimum, and counts up again.
pub proof fn law_read_cycle(cur: i16, min: i16, max: i16)
    requires
        max != 0,
        min <= cur <= max,
    ensures
        steps(cur, min, max, (max - min + 1) as nat) == cur,
{
    let up = (max - cur) as nat;
    let back = (cur - min) as nat;
    lemma_steps_climb(cur, min, max, up);
    lemma_steps_add(cur, min, max, up, 1);
    assert(steps(max, min, max, 1) == min) by {
        assert(steps(min, min, max, 0) == min);
    }
    lemma_steps_add(cur, min, max, up + 1, back);
    lemma_steps_climb(min, min, max, back);
    assert((max - min + 1) as nat == up + 1 + back);
}

/// Without a maximum, each read prints one more than the read before,
/// wrapping from `i16::MAX` to `i16::MIN`.
pub proof fn law_read_counts_up(
    c0: Counters,
    c1: Counters,
    c2: Counters,
    k: int,
    o0: Seq<(OutputCategory, Seq<char>)>,
    o1: Seq<(OutputCategory, Seq<char>)>,
    o2: Seq<(OutputCategory, Seq<char>)>,
)
    requires
        c0.wf(),
        0 <= k < 4,
        c0.max@[k] == 0,
        read_done(c0, c1, k, o0, o1),
        read_done(c1, c2, k, o1, o2),
    ensures
        o2 == o0.push(line(dec(c0.values@[k] as int))).push(
            line(dec(if c0.values@[k] == i16::MAX { i16::MIN as int } else { c0.values@[k] + 1 })),
        ),
{
}

/// A read right after a reset prints the minimum.
pub proof fn law_reset_then_read(
    c0: Counters,
    c1: Counters,
    c2: Counters,
    k: int,
    o0: Seq<(OutputCategory, Seq<char>)>,
    o1: Seq<(OutputCategory, Seq<char>)>,
    o2: Seq<(OutputCategory, Seq<char>)>,
)
    requires
        c0.wf(),
        0 <= k < 4,
        reset_done(c0, c1, k, o0, o1),
        read_done(c1, c2, k, o1, o2),
    ensures
        o2.last() == line(dec(c0.min@[k] as int)),
        c2.values@[k] == stepped(c0.min@[k], c0.min@[k], c0.max@[k]),
{
}

} // verus!
