//! The quantizer settings: Q.ROOT, Q.SCALE and Q.BIT. A scale is a mask over
//! the divisions of the octave; bit `i` of a preset is division `i`.

use vstd::prelude::*;
use crate::args::{i16_arg, tok};
use crate::console::{line, Console, OutputCategory};
use crate::counters::parse_i16_expr;
use crate::state::ScaleState;
use crate::text::{dec, push_int, push_str, text_int};

verus! {

pub const SCALE_CHROMATIC: u16 = 0b111111111111;
pub const SCALE_MAJOR: u16 = 0b101010110101;
pub const SCALE_MINOR: u16 = 0b101101010110;
pub const SCALE_DORIAN: u16 = 0b101101011010;
pub const SCALE_PHRYGIAN: u16 = 0b110101011010;
pub const SCALE_LYDIAN: u16 = 0b101010101101;
pub const SCALE_MIXOLYDIAN: u16 = 0b101010110110;
pub const SCALE_PENTATONIC_MAJOR: u16 = 0b101010010100;
pub const SCALE_PENTATONIC_MINOR: u16 = 0b100010110010;
pub const SCALE_BLUES: u16 = 0b100011010010;
pub const SCALE_WHOLE_TONE: u16 = 0b101010101010;
pub const SCALE_DIMINISHED: u16 = 0b101101101101;

/// The bits of preset `p`; an unknown preset is the major scale.
pub open spec fn preset_bits(p: u8) -> u16 {
    if p == 0 {
        SCALE_CHROMATIC
    } else if p == 1 {
        SCALE_MAJOR
    } else if p == 2 {
        SCALE_MINOR
    } else if p == 3 {
        SCALE_DORIAN
    } else if p == 4 {
        SCALE_PHRYGIAN
    } else if p == 5 {
        SCALE_LYDIAN
    } else if p == 6 {
        SCALE_MIXOLYDIAN
    } else if p == 7 {
        SCALE_PENTATONIC_MAJOR
    } else if p == 8 {
        SCALE_PENTATONIC_MINOR
    } else if p == 9 {
        SCALE_BLUES
    } else if p == 10 {
        SCALE_WHOLE_TONE
    } else if p == 11 {
        SCALE_DIMINISHED
    } else {
        SCALE_MAJOR
    }
}

/// The twelve divisions of `bits`, lowest bit first.
pub open spec fn bits_mask(bits: u16) -> Seq<bool> {
    Seq::new(12, |i: int| (bits >> (i as u16)) & 1u16 == 1u16)
}

/// A mask written with `0` and `1`, lowest division first; anything else,
/// or nothing at all, is no mask.
pub open spec fn binary_mask(s: Seq<char>) -> Option<Seq<bool>> {
    if s.len() > 0 && (forall|i: int| 0 <= i < s.len() ==> (#[trigger] s[i] == '0' || s[i] == '1')) {
        Some(s.map_values(|c: char| c == '1'))
    } else {
        None
    }
}

/// Reads a mask written with `0` and `1`.
pub fn parse_binary_mask(s: &str) -> (r: Option<Vec<bool>>)
    ensures
        match r {
            Some(m) => binary_mask(s@) == Some(m@),
            None => binary_mask(s@) is None,
        },
{
    let mut mask: Vec<bool> = Vec::new();
    for ch in it: s.chars()
        invariant
            it.seq() == s@,
            mask@ == it.seq().take(it.index() as int).map_values(|c: char| c == '1'),
            forall|i: int| 0 <= i < it.index() ==> (#[trigger] s@[i] == '0' || s@[i] == '1'),
    {
        proof {
            assert(it.seq().take(it.index() as int + 1) =~= it.seq().take(it.index() as int).push(ch));
        }
        if ch == '0' {
            mask.push(false);
        } else if ch == '1' {
            mask.push(true);
        } else {
            proof {
                assert(s@[it.index() as int] == ch);
            }
            return None;
        }
        proof {
            assert(mask@ =~= it.seq().take(it.index() as int + 1).map_values(|c: char| c == '1'));
        }
    }
    proof {
        assert(s@.take(s@.len() as int) =~= s@);
    }
    if mask.len() == 0 {
        return None;
    }
    Some(mask)
}

fn preset_bits_of(preset: u8) -> (bits: u16)
    ensures
        bits == preset_bits(preset),
{
    match preset {
        0 => SCALE_CHROMATIC,
        1 => SCALE_MAJOR,
        2 => SCALE_MINOR,
        3 => SCALE_DORIAN,
        4 => SCALE_PHRYGIAN,
        5 => SCALE_LYDIAN,
        6 => SCALE_MIXOLYDIAN,
        7 => SCALE_PENTATONIC_MAJOR,
        8 => SCALE_PENTATONIC_MINOR,
        9 => SCALE_BLUES,
        10 => SCALE_WHOLE_TONE,
        11 => SCALE_DIMINISHED,
        _ => SCALE_MAJOR,
    }
}

/// The twelve-division mask of preset `preset`.
pub fn get_preset_mask(preset: u8) -> (m: Vec<bool>)
    ensures
        m@ == bits_mask(preset_bits(preset)),
{
    let bits = preset_bits_of(preset);
    let mut m: Vec<bool> = Vec::new();
    let mut i: u16 = 0;
    while i < 12
        invariant
            i <= 12,
            bits == preset_bits(preset),
            m@ == bits_mask(bits).take(i as int),
        decreases 12 - i,
    {
        m.push((bits >> i) & 1 == 1);
        i = i + 1;
        proof {
            assert(m@ =~= bits_mask(bits).take(i as int));
        }
    }
    proof {
        assert(bits_mask(bits).take(12) =~= bits_mask(bits));
    }
    m
}

/// `new` is `old` with only the root changed, to `r`.
pub open spec fn root_set(old: ScaleState, new: ScaleState, r: u8) -> bool {
    &&& new.root == r
    &&& new.divisions == old.divisions
    &&& new.mask@ == old.mask@
    &&& new.scale_preset == old.scale_preset
}

/// `new` is `old`.
pub open spec fn scale_same(old: ScaleState, new: ScaleState) -> bool {
    root_set(old, new, old.root)
}

/// Q.ROOT value: sets the root, a division of the octave.
pub fn handle_q_root(parts: &[&str], scale: &mut ScaleState, out: &mut Console)
    ensures
        parts@.len() < 2 ==> scale_same(*old(scale), *final(scale)) && final(out)@ == old(out)@.push(
            line("ERROR: Q.ROOT REQUIRES A VALUE"@),
        ),
        parts@.len() >= 2 ==> match i16_arg(tok(parts@, 1)) {
            None => scale_same(*old(scale), *final(scale)) && final(out)@ == old(out)@.push(
                line("ERROR: FAILED TO PARSE VALUE FOR "@ + "Q.ROOT"@),
            ),
            Some(v) => {
                let max_root = old(scale).divisions - 1;
                if v < 0 || v > max_root {
                    scale_same(*old(scale), *final(scale)) && final(out)@ == old(out)@.push(
                        line("ERROR: Q.ROOT MUST BE 0-"@ + dec(max_root)),
                    )
                } else {
                    root_set(*old(scale), *final(scale), v as u8) && final(out)@ == old(out)@.push(
                        (OutputCategory::EssentialLevel, "SET SCALE ROOT TO "@ + dec(v as int)),
                    )
                }
            },
        },
{
    if parts.len() < 2 {
        out.emit_str(OutputCategory::Always, "ERROR: Q.ROOT REQUIRES A VALUE");
        return;
    }
    let value = match parse_i16_expr(parts, 1, "Q.ROOT", out) {
        Some(v) => v,
        None => return,
    };
    let max_root: i16 = (scale.divisions as i16) - 1;
    if value < 0 || value > max_root {
        out.emit(OutputCategory::Always, text_int("ERROR: Q.ROOT MUST BE 0-", max_root as i128));
        return;
    }
    scale.root = value as u8;
    out.emit(OutputCategory::EssentialLevel, text_int("SET SCALE ROOT TO ", value as i128));
}

/// Q.SCALE value: picks one of the twelve preset scales (0 to 11), over
/// twelve divisions.
pub fn handle_q_scale(parts: &[&str], scale: &mut ScaleState, out: &mut Console)
    ensures
        parts@.len() < 2 ==> scale_same(*old(scale), *final(scale)) && final(out)@ == old(out)@.push(
            line("ERROR: Q.SCALE REQUIRES A VALUE"@),
        ),
        parts@.len() >= 2 ==> match i16_arg(tok(parts@, 1)) {
            None => scale_same(*old(scale), *final(scale)) && final(out)@ == old(out)@.push(
                line("ERROR: FAILED TO PARSE VALUE FOR "@ + "Q.SCALE"@),
            ),
            Some(v) => if v < 0 || v > 11 {
                scale_same(*old(scale), *final(scale)) && final(out)@ == old(out)@.push(
                    line("ERROR: Q.SCALE MUST BE 0-11"@),
                )
            } else {
                &&& final(scale).root == old(scale).root
                &&& final(scale).divisions == 12
                &&& final(scale).scale_preset == Some(v as u8)
                &&& final(scale).mask@ == bits_mask(preset_bits(v as u8))
                &&& final(out)@ == old(out)@.push(
                    (OutputCategory::EssentialLevel, "SET SCALE PRESET TO "@ + dec(v as int)),
                )
            },
        },
{
    if parts.len() < 2 {
        out.emit_str(OutputCategory::Always, "ERROR: Q.SCALE REQUIRES A VALUE");
        return;
    }
    let value = match parse_i16_expr(parts, 1, "Q.SCALE", out) {
        Some(v) => v,
        None => return,
    };
    if value < 0 || value > 11 {
        out.emit_str(OutputCategory::Always, "ERROR: Q.SCALE MUST BE 0-11");
        return;
    }
    let preset = value as u8;
    scale.scale_preset = Some(preset);
    scale.mask = get_preset_mask(preset);
    scale.divisions = 12;
    out.emit(OutputCategory::EssentialLevel, text_int("SET SCALE PRESET TO ", preset as i128));
}

/// Q.BIT mask: sets a scale of as many divisions as the mask has digits
/// (the count kept as a `u8`, so modulo 256), with no preset.
pub fn handle_q_bit(parts: &[&str], scale: &mut ScaleState, out: &mut Console)
    ensures
        parts@.len() < 2 ==> scale_same(*old(scale), *final(scale)) && final(out)@ == old(out)@.push(
            line("ERROR: Q.BIT NEEDS BINARY STR ARG"@),
        ),
        parts@.len() >= 2 ==> match binary_mask(tok(parts@, 1)) {
            None => scale_same(*old(scale), *final(scale)) && final(out)@ == old(out)@.push(
                line("ERROR: Q.BIT NEEDS BINARY STR (0,1)"@),
            ),
            Some(m) => {
                let d = (m.len() % 256) as u8;
                &&& final(scale).root == old(scale).root
                &&& final(scale).divisions == d
                &&& final(scale).scale_preset == None::<u8>
                &&& final(scale).mask@ == m
                &&& final(out)@ == old(out)@.push(
                    (OutputCategory::EssentialLevel, "SET CUSTOM SCALE MASK ("@ + dec(d as int) + " DIVISIONS)"@),
                )
            },
        },
{
    if parts.len() < 2 {
        out.emit_str(OutputCategory::Always, "ERROR: Q.BIT NEEDS BINARY STR ARG");
        return;
    }
    match parse_binary_mask(parts[1]) {
        Some(mask) => {
            let divisions = (mask.len() % 256) as u8;
            scale.mask = mask;
            scale.divisions = divisions;
            scale.scale_preset = None;
            let mut s = String::from_str("SET CUSTOM SCALE MASK (");
            push_int(&mut s, divisions as i128);
            push_str(&mut s, " DIVISIONS)");
            out.emit(OutputCategory::EssentialLevel, s);
        },
        None => {
            out.emit_str(OutputCategory::Always, "ERROR: Q.BIT NEEDS BINARY STR (0,1)");
        },
    }
}

/// The scale presets, numbered as `Q.SCALE` takes them: chromatic, major,
/// minor, dorian, phrygian, lydian, mixolydian, major pentatonic, minor
/// pentatonic, blues, whole tone, diminished.
pub open spec fn preset_list() -> Seq<u16> {
    seq![
        SCALE_CHROMATIC,
        SCALE_MAJOR,
        SCALE_MINOR,
        SCALE_DORIAN,
        SCALE_PHRYGIAN,
        SCALE_LYDIAN,
        SCALE_MIXOLYDIAN,
        SCALE_PENTATONIC_MAJOR,
        SCALE_PENTATONIC_MINOR,
        SCALE_BLUES,
        SCALE_WHOLE_TONE,
        SCALE_DIMINISHED,
    ]
}

/// Preset `p` is the `p`-th scale of the preset list; a number past the list
/// gives the major scale. No two presets are the same scale, and preset 0
/// (chromatic) holds every note.
pub proof fn law_presets_in_order(p: u8, q: u8)
    ensures
        p < 12 ==> preset_bits(p) == preset_list()[p as int],
        p >= 12 ==> preset_bits(p) == SCALE_MAJOR,
        p < 12 && q < 12 && p != q ==> preset_bits(p) != preset_bits(q),
        forall|i: int| 0 <= i < 12 ==> #[trigger] bits_mask(preset_bits(0))[i],
{
    assert(forall|i: u16| i < 12 ==> (0b111111111111u16 >> i) & 1u16 == 1u16) by (bit_vector);
    assert forall|i: int| 0 <= i < 12 implies #[trigger] bits_mask(preset_bits(0))[i] by {
        assert((0b111111111111u16 >> (i as u16)) & 1u16 == 1u16);
    }
}

} // verus!
