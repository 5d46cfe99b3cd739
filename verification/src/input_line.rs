//! The input line: typing (letters go to upper case), deleting, moving the
//! cursor by character and by word, and walking the command history.
//!
//! The cursor counts characters; loading a whole line puts it at the line's
//! length in bytes, which for text beyond ASCII lies past the last character.

use vstd::prelude::*;
use crate::editor::byte_len;
use crate::text::{str_chars, string_from_chars};

verus! {

/// `c` in ASCII upper case (`char::to_ascii_uppercase`): `a` to `z` become
/// `A` to `Z`, anything else stays.
pub open spec fn ascii_upper(c: char) -> char {
    if 'a' <= c && c <= 'z' {
        ((c as u32) - 32) as char
    } else {
        c
    }
}

/// `c` in ASCII upper case.
pub fn to_ascii_upper(c: char) -> (r: char)
    ensures
        r == ascii_upper(c),
{
    if 'a' <= c && c <= 'z' {
        let u: u8 = (c as u32 - 32) as u8;
        u as char
    } else {
        c
    }
}

/// Where a typed character goes: at the cursor, or at the end where the
/// cursor is past it.
pub open spec fn insert_at(s: Seq<char>, cursor: usize) -> int {
    if cursor < s.len() {
        cursor as int
    } else {
        s.len() as int
    }
}

/// `s` with `c` put in at position `k`.
pub open spec fn inserted_char(s: Seq<char>, k: int, c: char) -> Seq<char> {
    s.take(k) + seq![c] + s.skip(k)
}

/// Which character a backspace removes: the one before the cursor, or the
/// first one where the cursor is past the end.
pub open spec fn delete_at(s: Seq<char>, cursor: usize) -> int {
    if (cursor - 1) < s.len() {
        cursor - 1
    } else {
        0
    }
}

/// Types `c` (in ASCII upper case) at the cursor and moves the cursor on.
pub fn insert_char(input: &mut String, cursor: &mut usize, c: char)
    requires
        *old(cursor) < usize::MAX,
    ensures
        final(input)@ == inserted_char(old(input)@, insert_at(old(input)@, *old(cursor)), ascii_upper(c)),
        *final(cursor) == *old(cursor) + 1,
{
    let cs = str_chars(input.as_str());
    let k: usize = if *cursor < cs.len() {
        *cursor
    } else {
        cs.len()
    };
    let up = to_ascii_upper(c);
    let mut v: Vec<char> = Vec::new();
    let mut i: usize = 0;
    while i < cs.len()
        invariant
            k <= cs@.len(),
            i <= cs@.len(),
            v@ == (if i <= k { cs@.take(i as int) } else { cs@.take(k as int) + seq![up] + cs@.subrange(k as int, i as int) }),
        decreases cs@.len() - i,
    {
        if i == k {
            v.push(up);
            proof {
                assert(v@ =~= cs@.take(k as int) + seq![up] + cs@.subrange(k as int, k as int));
            }
        }
        v.push(cs[i]);
        i = i + 1;
        proof {
            if i <= k {
                assert(v@ =~= cs@.take(i as int));
            } else {
                assert(v@ =~= cs@.take(k as int) + seq![up] + cs@.subrange(k as int, i as int));
            }
        }
    }
    if k == cs.len() {
        v.push(up);
    }
    proof {
        assert(v@ =~= inserted_char(cs@, k as int, up));
    }
    *input = string_from_chars(v.as_slice());
    *cursor = *cursor + 1;
}

/// Backspace: removes the character before the cursor (see `delete_at`)
/// and moves the cursor back.
pub fn delete_char(input: &mut String, cursor: &mut usize)
    requires
        *old(cursor) > 0 ==> old(input)@.len() > 0,
    ensures
        *old(cursor) == 0 ==> final(input)@ == old(input)@ && *final(cursor) == 0,
        *old(cursor) > 0 ==> final(input)@ == old(input)@.remove(delete_at(old(input)@, *old(cursor)))
            && *final(cursor) == *old(cursor) - 1,
{
    if *cursor == 0 {
        return;
    }
    let cs = str_chars(input.as_str());
    let k: usize = if *cursor - 1 < cs.len() {
        *cursor - 1
    } else {
        0
    };
    let mut v: Vec<char> = Vec::new();
    let mut i: usize = 0;
    while i < cs.len()
        invariant
            k < cs@.len(),
            i <= cs@.len(),
            v@ == (if i <= k { cs@.take(i as int) } else { cs@.take(i as int).remove(k as int) }),
        decreases cs@.len() - i,
    {
        if i != k {
            v.push(cs[i]);
        }
        i = i + 1;
        proof {
            if i <= k {
                assert(v@ =~= cs@.take(i as int));
            } else {
                assert(v@ =~= cs@.take(i as int).remove(k as int));
            }
        }
    }
    proof {
        assert(cs@.take(cs@.len() as int) =~= cs@);
    }
    *input = string_from_chars(v.as_slice());
    *cursor = *cursor - 1;
}

/// Moves the cursor one character left, if it can.
pub fn move_cursor_left(cursor: &mut usize)
    ensures
        *final(cursor) == if *old(cursor) > 0 { *old(cursor) - 1 } else { 0 },
{
    if *cursor > 0 {
        *cursor = *cursor - 1;
    }
}

/// Moves the cursor one character right, up to the end of the input.
pub fn move_cursor_right(input: &String, cursor: &mut usize)
    ensures
        *final(cursor) == if *old(cursor) < input@.len() { (*old(cursor) + 1) as usize } else { *old(cursor) },
{
    let n = str_chars(input.as_str()).len();
    if *cursor < n {
        *cursor = *cursor + 1;
    }
}

/// Removes everything before the cursor, which goes to the start.
pub fn delete_to_start(input: &mut String, cursor: &mut usize)
    ensures
        final(input)@ == (if *old(cursor) <= old(input)@.len() { old(input)@.skip(*old(cursor) as int) } else { Seq::empty() }),
        *final(cursor) == 0,
{
    let cs = str_chars(input.as_str());
    let mut v: Vec<char> = Vec::new();
    let mut i: usize = *cursor;
    if i > cs.len() {
        i = cs.len();
    }
    let start = i;
    while i < cs.len()
        invariant
            start <= i <= cs@.len(),
            v@ == cs@.subrange(start as int, i as int),
        decreases cs@.len() - i,
    {
        v.push(cs[i]);
        i = i + 1;
        proof {
            assert(v@ =~= cs@.subrange(start as int, i as int));
        }
    }
    proof {
        assert(cs@.subrange(start as int, cs@.len() as int) =~= (if *old(cursor) <= cs@.len() {
            cs@.skip(*old(cursor) as int)
        } else {
            Seq::empty()
        }));
    }
    *input = string_from_chars(v.as_slice());
    *cursor = 0;
}

/// Empties the input line.
pub fn clear_input(input: &mut String, cursor: &mut usize)
    ensures
        final(input)@ == Seq::<char>::empty(),
        *final(cursor) == 0,
{
    *input = String::new();
    *cursor = 0;
}

/// From `p`, back over spaces.
pub open spec fn back_over_spaces(s: Seq<char>, p: int) -> int
    decreases p,
{
    if p > 0 && p <= s.len() && s[p - 1] == ' ' {
        back_over_spaces(s, p - 1)
    } else {
        p
    }
}

/// From `p`, back over characters that are not spaces.
pub open spec fn back_over_word(s: Seq<char>, p: int) -> int
    decreases p,
{
    if p > 0 && p <= s.len() && s[p - 1] != ' ' {
        back_over_word(s, p - 1)
    } else {
        p
    }
}

/// From `p`, on over characters that are not spaces.
pub open spec fn on_over_word(s: Seq<char>, p: int) -> int
    decreases s.len() - p,
{
    if 0 <= p < s.len() && s[p] != ' ' {
        on_over_word(s, p + 1)
    } else {
        p
    }
}

/// From `p`, on over spaces.
pub open spec fn on_over_spaces(s: Seq<char>, p: int) -> int
    decreases s.len() - p,
{
    if 0 <= p < s.len() && s[p] == ' ' {
        on_over_spaces(s, p + 1)
    } else {
        p
    }
}

/// Moves the cursor to the start of the word before it (over spaces, then
/// over the word).
pub fn move_cursor_word_left(input: &String, cursor: &mut usize)
    requires
        *old(cursor) <= input@.len(),
    ensures
        *final(cursor) == back_over_word(input@, back_over_spaces(input@, *old(cursor) as int)),
{
    if *cursor == 0 {
        return;
    }
    let cs = str_chars(input.as_str());
    let mut pos: usize = *cursor;
    while pos > 0 && cs[pos - 1] == ' '
        invariant
            pos <= cs@.len(),
            back_over_spaces(cs@, *old(cursor) as int) == back_over_spaces(cs@, pos as int),
        decreases pos,
    {
        pos = pos - 1;
    }
    let ghost mid = pos;
    while pos > 0 && cs[pos - 1] != ' '
        invariant
            pos <= cs@.len(),
            back_over_word(cs@, mid as int) == back_over_word(cs@, pos as int),
        decreases pos,
    {
        pos = pos - 1;
    }
    *cursor = pos;
}

/// Moves the cursor to the start of the next word (over the word, then over
/// spaces); nothing happens at the end of the input.
pub fn move_cursor_word_right(input: &String, cursor: &mut usize)
    ensures
        *old(cursor) >= input@.len() ==> *final(cursor) == *old(cursor),
        *old(cursor) < input@.len() ==> *final(cursor) == on_over_spaces(input@, on_over_word(input@, *old(cursor) as int)),
{
    let cs = str_chars(input.as_str());
    let len = cs.len();
    if *cursor >= len {
        return;
    }
    let mut pos: usize = *cursor;
    while pos < len && cs[pos] != ' '
        invariant
            len == cs@.len(),
            pos <= len,
            on_over_word(cs@, *old(cursor) as int) == on_over_word(cs@, pos as int),
        decreases len - pos,
    {
        pos = pos + 1;
    }
    let ghost mid = pos;
    while pos < len && cs[pos] == ' '
        invariant
            len == cs@.len(),
            pos <= len,
            on_over_spaces(cs@, mid as int) == on_over_spaces(cs@, pos as int),
        decreases len - pos,
    {
        pos = pos + 1;
    }
    *cursor = pos;
}

/// The history entry that stepping back reaches: the latest where none is
/// shown, else the one before (staying at the oldest).
pub open spec fn prev_index(len: nat, at: Option<usize>) -> int {
    match at {
        None => len - 1,
        Some(i) => if i > 0 { i - 1 } else { i as int },
    }
}

/// Steps back in the command history and loads that entry.
pub fn history_prev(input: &mut String, cursor: &mut usize, history: &Vec<String>, history_index: &mut Option<usize>)
    requires
        *old(history_index) matches Some(i) ==> i <= history@.len(),
    ensures
        history@.len() == 0 ==> final(input)@ == old(input)@ && *final(cursor) == *old(cursor)
            && *final(history_index) == *old(history_index),
        history@.len() > 0 ==> {
            let k = prev_index(history@.len(), *old(history_index));
            &&& *final(history_index) == Some(k as usize)
            &&& final(input)@ == history@[k]@
            &&& *final(cursor) == byte_len(history@[k]@)
        },
{
    if history.len() == 0 {
        return;
    }
    let k: usize = match *history_index {
        None => history.len() - 1,
        Some(i) => if i > 0 {
            i - 1
        } else {
            i
        },
    };
    *history_index = Some(k);
    *input = history[k].clone();
    *cursor = input.as_str().len();
}

/// Steps forward in the command history; past the latest entry the input
/// line is emptied and no entry is shown.
pub fn history_next(input: &mut String, cursor: &mut usize, history: &Vec<String>, history_index: &mut Option<usize>)
    requires
        *old(history_index) is Some ==> history@.len() > 0,
    ensures
        match *old(history_index) {
            None => final(input)@ == old(input)@ && *final(cursor) == *old(cursor) && *final(history_index) == None::<usize>,
            Some(i) => if i + 1 < history@.len() {
                &&& *final(history_index) == Some((i + 1) as usize)
                &&& final(input)@ == history@[i + 1]@
                &&& *final(cursor) == byte_len(history@[i + 1]@)
            } else {
                &&& *final(history_index) == None::<usize>
                &&& final(input)@ == Seq::<char>::empty()
                &&& *final(cursor) == 0
            },
        },
{
    match *history_index {
        None => {},
        Some(i) => {
            if i < history.len() - 1 {
                *history_index = Some(i + 1);
                *input = history[i + 1].clone();
                *cursor = input.as_str().len();
            } else {
                *history_index = None;
                *input = String::new();
                *cursor = 0;
            }
        },
    }
}

/// A backspace right after typing a character, with the cursor within the
/// input, takes the character out again and puts the cursor back.
pub proof fn law_backspace_undoes_typing(s: Seq<char>, cursor: usize, c: char)
    requires
        cursor <= s.len(),
        cursor < usize::MAX,
    ensures
        ({
            let t = inserted_char(s, insert_at(s, cursor), c);
            &&& t.len() > 0
            &&& t.remove(delete_at(t, (cursor + 1) as usize)) == s
        }),
{
    let k = insert_at(s, cursor);
    let t = inserted_char(s, k, c);
    assert(k == cursor);
    assert(delete_at(t, (cursor + 1) as usize) == k);
    assert(t.remove(k) =~= s);
}

/// Moving left and then right within the input comes back to the same place.
pub proof fn law_left_then_right(s: Seq<char>, cursor: usize)
    requires
        0 < cursor <= s.len(),
    ensures
        ({
            let l = (cursor - 1) as usize;
            (if l < s.len() { (l + 1) as usize } else { l }) == cursor
        }),
{
}

/// Stepping back from the input line reaches the latest history entry, and
/// stepping forward from there (no later entry being left) leaves the
/// history again, with an empty input line (see `history_next`).
pub proof fn law_history_back_and_forth(len: nat)
    requires
        len > 0,
    ensures
        prev_index(len, None) == len - 1,
        !(prev_index(len, None) + 1 < len),
{
}

} // verus!
