//! Character-level text handling shared by the command layer: the
//! characters of a string, integer literals as Rust's `str::parse` reads
//! them, decimal rendering, Unicode white space, trimming and splitting.

use vstd::prelude::*;

verus! {

// ---------------------------------------------------------------------------
// Characters of strings
// ---------------------------------------------------------------------------

/// The characters of `s`, in order.
pub fn str_chars(s: &str) -> (v: Vec<char>)
    ensures
        v@ == s@,
{
    let mut v: Vec<char> = Vec::new();
    for c in it: s.chars()
        invariant
            v@ == it.seq().take(it.index() as int),
            it.seq() == s@,
    {
        v.push(c);
    }
    v
}

/// Builds a `String` out of a sequence of characters (`String: FromIterator<char>`).
#[verifier::external_body]
pub(crate) fn string_from_chars(v: &[char]) -> (s: String)
    ensures
        s@ == v@,
{
    v.iter().collect()
}

/// Appends `tail` to `s`.
pub fn push_str(s: &mut String, tail: &str)
    ensures
        final(s)@ == old(s)@ + tail@,
{
    s.append(tail);
}

// ---------------------------------------------------------------------------
// Decimal digits
// ---------------------------------------------------------------------------

pub open spec fn is_digit(c: char) -> bool {
    '0' <= c && c <= '9'
}

pub open spec fn digit_val(c: char) -> int {
    (c as int) - ('0' as int)
}

pub open spec fn all_digits(s: Seq<char>) -> bool {
    forall|i: int| 0 <= i < s.len() ==> is_digit(#[trigger] s[i])
}

/// The value of a string of decimal digits, most significant first.
pub open spec fn digits_value(s: Seq<char>) -> int
    decreases s.len(),
{
    if s.len() == 0 {
        0
    } else {
        digits_value(s.drop_last()) * 10 + digit_val(s.last())
    }
}

/// An integer literal as Rust's `str::parse` reads it for an integer type:
/// an optional `+` (or `-` where the type is signed) and one or more ASCII
/// digits, nothing else. The range of the target type is applied apart.
pub open spec fn parse_int_spec(s: Seq<char>, signed: bool) -> Option<int> {
    if s.len() == 0 {
        None
    } else if s[0] == '+' || (s[0] == '-' && signed) {
        let d = s.drop_first();
        if d.len() > 0 && all_digits(d) {
            Some(
                if s[0] == '-' {
                    -digits_value(d)
                } else {
                    digits_value(d)
                },
            )
        } else {
            None
        }
    } else if all_digits(s) {
        Some(digits_value(s))
    } else {
        None
    }
}

/// The literal's value where it lies in `[lo, hi]`.
pub open spec fn parse_in_range(s: Seq<char>, signed: bool, lo: int, hi: int) -> Option<int> {
    match parse_int_spec(s, signed) {
        Some(v) => if lo <= v && v <= hi {
            Some(v)
        } else {
            None
        },
        None => None,
    }
}

/// `s.parse::<i16>()`
pub open spec fn parse_i16(s: Seq<char>) -> Option<i16> {
    match parse_in_range(s, true, i16::MIN as int, i16::MAX as int) {
        Some(v) => Some(v as i16),
        None => None,
    }
}

/// `s.parse::<i32>()`
pub open spec fn parse_i32(s: Seq<char>) -> Option<i32> {
    match parse_in_range(s, true, i32::MIN as int, i32::MAX as int) {
        Some(v) => Some(v as i32),
        None => None,
    }
}

/// `s.parse::<usize>()`
pub open spec fn parse_usize(s: Seq<char>) -> Option<usize> {
    match parse_in_range(s, false, 0, usize::MAX as int) {
        Some(v) => Some(v as usize),
        None => None,
    }
}

/// `s.parse::<u64>()`
pub open spec fn parse_u64(s: Seq<char>) -> Option<u64> {
    match parse_in_range(s, false, 0, u64::MAX as int) {
        Some(v) => Some(v as u64),
        None => None,
    }
}

proof fn lemma_digits_value_nonneg(s: Seq<char>)
    requires
        all_digits(s),
    ensures
        digits_value(s) >= 0,
    decreases s.len(),
{
    if s.len() > 0 {
        lemma_digits_value_nonneg(s.drop_last());
    }
}

proof fn lemma_digits_take_mono(s: Seq<char>, j: int, k: int)
    requires
        all_digits(s),
        0 <= j <= k <= s.len(),
    ensures
        digits_value(s.take(j)) <= digits_value(s.take(k)),
    decreases k - j,
{
    if j < k {
        lemma_digits_take_mono(s, j, k - 1);
        assert(s.take(k).drop_last() =~= s.take(k - 1));
        lemma_digits_value_nonneg(s.take(k - 1));
    }
}

fn digit_of(c: char) -> (d: Option<u32>)
    ensures
        d is Some <==> is_digit(c),
        d matches Some(v) ==> v as int == digit_val(c) && v <= 9,
{
    if '0' <= c && c <= '9' {
        Some((c as u32) - ('0' as u32))
    } else {
        None
    }
}

/// Reads an integer literal (see `parse_int_spec`) and keeps it where it lies
/// in `[lo, hi]`.
pub fn parse_int_chars(s: &[char], signed: bool, lo: i128, hi: i128) -> (r: Option<i128>)
    requires
        -0x1_0000_0000_0000_0000 <= lo,
        hi <= 0x1_0000_0000_0000_0000,
    ensures
        r matches Some(v) ==> parse_in_range(s@, signed, lo as int, hi as int) == Some(v as int),
        r is None ==> parse_in_range(s@, signed, lo as int, hi as int) is None,
{
    let n = s.len();
    if n == 0 {
        return None;
    }
    let neg = s[0] == '-' && signed;
    let start: usize = if s[0] == '+' || neg {
        1
    } else {
        0
    };
    if start == 1 && n == 1 {
        return None;
    }
    let ghost d = s@.skip(start as int);
    assert(start == 1 ==> d =~= s@.drop_first());
    assert(start == 0 ==> d =~= s@);
    let cap: u128 = if lo < 0 && (-lo) as u128 > (if hi > 0 { hi as u128 } else { 0 }) {
        (-lo) as u128
    } else if hi > 0 {
        hi as u128
    } else {
        0
    };
    let mut acc: u128 = 0;
    let mut i: usize = start;
    while i < n
        invariant
            start <= i <= n,
            start <= 1,
            n == s@.len(),
            d == s@.skip(start as int),
            all_digits(d.take(i - start)),
            acc as int == digits_value(d.take(i - start)),
            acc <= cap,
            cap <= 0x1_0000_0000_0000_0000,
            d.len() > 0,
            neg == (s@[0] == '-' && signed),
            start == 1 ==> d == s@.drop_first() && (s@[0] == '+' || neg),
            start == 0 ==> d == s@ && !(s@[0] == '+' || neg),
            lo < 0 ==> -lo <= cap,
            hi <= cap || hi <= 0,
        decreases n - i,
    {
        match digit_of(s[i]) {
            None => {
                proof {
                    assert(d[i - start] == s@[i as int]);
                    assert(!all_digits(d));
                    if start == 1 {
                        assert(s@.drop_first() == d);
                        assert(parse_int_spec(s@, signed) is None);
                    } else {
                        assert(!(s@[0] == '+' || (s@[0] == '-' && signed)));
                        assert(s@.len() > 0);
                        assert(!all_digits(s@));
                        assert(parse_int_spec(s@, signed) is None);
                    }
                }
                return None;
            },
            Some(v) => {
                let ghost k = (i - start) as int;
                proof {
                    assert(d.take(k + 1).drop_last() =~= d.take(k));
                    assert(d.take(k + 1).last() == s@[i as int]);
                    assert forall|j: int| 0 <= j < k + 1 implies is_digit(#[trigger] d.take(k + 1)[j]) by {
                        if j < k {
                            assert(d.take(k + 1)[j] == d.take(k)[j]);
                        }
                    }
                }
                acc = acc * 10 + v as u128;
                i = i + 1;
                if acc > cap {
                    proof {
                        // every longer digit string is at least as large
                        let dd = d;
                        if all_digits(dd) {
                            lemma_digits_take_mono(dd, (i - start) as int, dd.len() as int);
                            assert(dd.take(dd.len() as int) =~= dd);
                            assert(digits_value(dd) > cap);
                        }
                    }
                    return None;
                }
            },
        }
    }
    proof {
        assert(d.take(i - start) =~= d);
        lemma_digits_value_nonneg(d);
    }
    let v: i128 = if neg {
        -(acc as i128)
    } else {
        acc as i128
    };
    if lo <= v && v <= hi {
        Some(v)
    } else {
        None
    }
}

/// `t.parse::<i16>()`, as an `Option`.
pub fn parse_i16_token(t: &str) -> (r: Option<i16>)
    ensures
        r == parse_i16(t@),
{
    let cs = str_chars(t);
    match parse_int_chars(cs.as_slice(), true, i16::MIN as i128, i16::MAX as i128) {
        Some(v) => Some(v as i16),
        None => None,
    }
}

/// `t.parse::<i32>()`, as an `Option`.
pub fn parse_i32_token(t: &str) -> (r: Option<i32>)
    ensures
        r == parse_i32(t@),
{
    let cs = str_chars(t);
    match parse_int_chars(cs.as_slice(), true, i32::MIN as i128, i32::MAX as i128) {
        Some(v) => Some(v as i32),
        None => None,
    }
}

/// `t.parse::<usize>()`, as an `Option`.
pub fn parse_usize_token(t: &str) -> (r: Option<usize>)
    ensures
        r == parse_usize(t@),
{
    let cs = str_chars(t);
    match parse_int_chars(cs.as_slice(), false, 0, usize::MAX as i128) {
        Some(v) => Some(v as usize),
        None => None,
    }
}

/// `t.parse::<u64>()`, as an `Option`.
pub fn parse_u64_chars(t: &[char]) -> (r: Option<u64>)
    ensures
        r == parse_u64(t@),
{
    match parse_int_chars(t, false, 0, u64::MAX as i128) {
        Some(v) => Some(v as u64),
        None => None,
    }
}

/// `t.parse::<i16>()` on characters, as an `Option`.
pub fn parse_i16_chars(t: &[char]) -> (r: Option<i16>)
    ensures
        r == parse_i16(t@),
{
    match parse_int_chars(t, true, i16::MIN as i128, i16::MAX as i128) {
        Some(v) => Some(v as i16),
        None => None,
    }
}

// ---------------------------------------------------------------------------
// Decimal rendering (`format!("{}", n)` for integers)
// ---------------------------------------------------------------------------

pub open spec fn digit_char(d: int) -> char {
    if d == 0 {
        '0'
    } else if d == 1 {
        '1'
    } else if d == 2 {
        '2'
    } else if d == 3 {
        '3'
    } else if d == 4 {
        '4'
    } else if d == 5 {
        '5'
    } else if d == 6 {
        '6'
    } else if d == 7 {
        '7'
    } else if d == 8 {
        '8'
    } else {
        '9'
    }
}

/// Decimal digits of a natural number, without leading zeros.
pub open spec fn dec_nat(n: nat) -> Seq<char>
    decreases n,
{
    if n < 10 {
        seq![digit_char(n as int)]
    } else {
        dec_nat(n / 10).push(digit_char((n % 10) as int))
    }
}

/// How `{}` renders an integer.
pub open spec fn dec(n: int) -> Seq<char> {
    if n < 0 {
        seq!['-'] + dec_nat((-n) as nat)
    } else {
        dec_nat(n as nat)
    }
}

fn digit_to_char(d: u128) -> (c: char)
    requires
        d < 10,
    ensures
        c == digit_char(d as int),
{
    if d == 0 {
        '0'
    } else if d == 1 {
        '1'
    } else if d == 2 {
        '2'
    } else if d == 3 {
        '3'
    } else if d == 4 {
        '4'
    } else if d == 5 {
        '5'
    } else if d == 6 {
        '6'
    } else if d == 7 {
        '7'
    } else if d == 8 {
        '8'
    } else {
        '9'
    }
}

fn push_dec_nat(n: u128, buf: &mut Vec<char>)
    ensures
        final(buf)@ == old(buf)@ + dec_nat(n as nat),
    decreases n,
{
    if n < 10 {
        buf.push(digit_to_char(n));
    } else {
        push_dec_nat(n / 10, buf);
        buf.push(digit_to_char(n % 10));
        proof {
            assert(old(buf)@ + dec_nat(n as nat) =~= old(buf)@ + dec_nat((n / 10) as nat) + seq![
                digit_char((n % 10) as int),
            ]);
        }
    }
}

/// Renders `n` in decimal, as `n.to_string()` does.
pub fn fmt_int(n: i128) -> (s: String)
    requires
        n > i128::MIN,
    ensures
        s@ == dec(n as int),
{
    let mut buf: Vec<char> = Vec::new();
    if n < 0 {
        buf.push('-');
        push_dec_nat((-n) as u128, &mut buf);
    } else {
        push_dec_nat(n as u128, &mut buf);
    }
    proof {
        assert(buf@ =~= dec(n as int));
    }
    string_from_chars(buf.as_slice())
}

/// `a` followed by the decimal rendering of `n`.
pub fn text_int(a: &str, n: i128) -> (s: String)
    requires
        n > i128::MIN,
    ensures
        s@ == a@ + dec(n as int),
{
    let mut s = String::from_str(a);
    let t = fmt_int(n);
    s.append(t.as_str());
    s
}

// ---------------------------------------------------------------------------
// White space (`char::is_whitespace`: the Unicode White_Space property)
// ---------------------------------------------------------------------------

pub open spec fn is_ws(c: char) -> bool {
    ||| c == '\t'
    ||| c == '\n'
    ||| c == '\u{0B}'
    ||| c == '\u{0C}'
    ||| c == '\r'
    ||| c == ' '
    ||| c == '\u{85}'
    ||| c == '\u{A0}'
    ||| c == '\u{1680}'
    ||| ('\u{2000}' <= c && c <= '\u{200A}')
    ||| c == '\u{2028}'
    ||| c == '\u{2029}'
    ||| c == '\u{202F}'
    ||| c == '\u{205F}'
    ||| c == '\u{3000}'
}

pub fn is_whitespace(c: char) -> (b: bool)
    ensures
        b == is_ws(c),
{
    c == '\t' || c == '\n' || c == '\u{0B}' || c == '\u{0C}' || c == '\r' || c == ' ' || c
        == '\u{85}' || c == '\u{A0}' || c == '\u{1680}' || ('\u{2000}' <= c && c <= '\u{200A}')
        || c == '\u{2028}' || c == '\u{2029}' || c == '\u{202F}' || c == '\u{205F}' || c
        == '\u{3000}'
}


// ---------------------------------------------------------------------------
// Joining
// ---------------------------------------------------------------------------

/// The strings of `parts` with `sep` between each two, as `[&str]::join` gives.
pub open spec fn joined(parts: Seq<&str>, sep: Seq<char>) -> Seq<char>
    decreases parts.len(),
{
    if parts.len() == 0 {
        Seq::empty()
    } else if parts.len() == 1 {
        parts[0]@
    } else {
        joined(parts.drop_last(), sep) + sep + parts.last()@
    }
}

/// Joins `parts` with `sep` between each two.
pub fn join_strs(parts: &[&str], sep: &str) -> (s: String)
    ensures
        s@ == joined(parts@, sep@),
{
    let mut s = String::from_str("");
    proof {
        reveal_strlit("");
        assert(parts@.take(0) =~= Seq::<&str>::empty());
    }
    let mut i: usize = 0;
    while i < parts.len()
        invariant
            i <= parts@.len(),
            s@ == joined(parts@.take(i as int), sep@),
        decreases parts@.len() - i,
    {
        proof {
            assert(parts@.take(i as int + 1).drop_last() =~= parts@.take(i as int));
            assert(parts@.take(i as int + 1).last() == parts@[i as int]);
        }
        if i > 0 {
            push_str(&mut s, sep);
        }
        push_str(&mut s, parts[i]);
        i = i + 1;
    }
    proof {
        assert(parts@.take(parts@.len() as int) =~= parts@);
    }
    s
}

// ---------------------------------------------------------------------------
// Finding, trimming and splitting on white space
// ---------------------------------------------------------------------------

/// `i` is the first position of `c` in `s`.
pub open spec fn is_first(s: Seq<char>, c: char, i: int) -> bool {
    &&& 0 <= i < s.len()
    &&& s[i] == c
    &&& forall|j: int| 0 <= j < i ==> s[j] != c
}

/// The first position of `c` in `s` (`str::find` counted in characters).
pub open spec fn find_char(s: Seq<char>, c: char) -> Option<int> {
    if exists|i: int| is_first(s, c, i) {
        Some(choose|i: int| is_first(s, c, i))
    } else {
        None
    }
}

/// The first position of `c` in `s`, if any.
pub fn find_char_index(s: &[char], c: char) -> (r: Option<usize>)
    ensures
        match r {
            Some(i) => find_char(s@, c) == Some(i as int) && is_first(s@, c, i as int),
            None => find_char(s@, c) is None,
        },
{
    let mut i: usize = 0;
    while i < s.len()
        invariant
            i <= s@.len(),
            forall|j: int| 0 <= j < i ==> s@[j] != c,
        decreases s@.len() - i,
    {
        if s[i] == c {
            proof {
                assert(is_first(s@, c, i as int));
                let k = choose|k: int| is_first(s@, c, k);
                if k < i {
                    assert(s@[k] != c);
                } else if k > i {
                    assert(s@[i as int] != c);
                }
            }
            return Some(i);
        }
        i = i + 1;
    }
    proof {
        assert(!exists|k: int| is_first(s@, c, k));
    }
    None
}

/// `s` without its leading white space.
pub open spec fn trim_start(s: Seq<char>) -> Seq<char>
    decreases s.len(),
{
    if s.len() > 0 && is_ws(s[0]) {
        trim_start(s.drop_first())
    } else {
        s
    }
}

/// `s` without its trailing white space.
pub open spec fn trim_end(s: Seq<char>) -> Seq<char>
    decreases s.len(),
{
    if s.len() > 0 && is_ws(s.last()) {
        trim_end(s.drop_last())
    } else {
        s
    }
}

/// `s` without leading and trailing white space (`str::trim`).
pub open spec fn trim(s: Seq<char>) -> Seq<char> {
    trim_end(trim_start(s))
}

/// `s` trimmed of white space at both ends.
pub fn trim_chars(s: &[char]) -> (t: Vec<char>)
    ensures
        t@ == trim(s@),
{
    let n = s.len();
    let mut a: usize = 0;
    proof {
        assert(s@.skip(0) =~= s@);
    }
    while a < n && is_whitespace(s[a])
        invariant
            n == s@.len(),
            a <= n,
            trim_start(s@) == trim_start(s@.skip(a as int)),
        decreases n - a,
    {
        proof {
            assert(s@.skip(a as int).drop_first() =~= s@.skip(a as int + 1));
        }
        a = a + 1;
    }
    let ghost front = s@.skip(a as int);
    assert(trim_start(s@) == front);
    let mut b: usize = n;
    while b > a && is_whitespace(s[b - 1])
        invariant
            n == s@.len(),
            a <= b <= n,
            front == s@.skip(a as int),
            trim_end(front) == trim_end(s@.subrange(a as int, b as int)),
        decreases b - a,
    {
        proof {
            assert(s@.subrange(a as int, b as int).drop_last() =~= s@.subrange(a as int, b as int - 1));
        }
        b = b - 1;
    }
    proof {
        assert(s@.skip(a as int) =~= s@.subrange(a as int, n as int));
    }
    let mut t: Vec<char> = Vec::new();
    let mut i: usize = a;
    while i < b
        invariant
            a <= i <= b <= n,
            n == s@.len(),
            t@ == s@.subrange(a as int, i as int),
        decreases b - i,
    {
        t.push(s[i]);
        i = i + 1;
        proof {
            assert(t@ =~= s@.subrange(a as int, i as int));
        }
    }
    t
}

/// The word `cur` as a list: none where it is empty.
pub open spec fn word_list(cur: Seq<char>) -> Seq<Seq<char>> {
    if cur.len() > 0 {
        seq![cur]
    } else {
        Seq::empty()
    }
}

/// The words of `s` from position `i` on, `cur` being the word read so far.
pub open spec fn words_from(s: Seq<char>, i: int, cur: Seq<char>) -> Seq<Seq<char>>
    decreases s.len() - i,
{
    if i < 0 || i >= s.len() {
        word_list(cur)
    } else if is_ws(s[i]) {
        word_list(cur) + words_from(s, i + 1, Seq::empty())
    } else {
        words_from(s, i + 1, cur.push(s[i]))
    }
}

/// The words of `s`: its longest runs of characters that are not white
/// space, in order (`str::split_whitespace`).
pub open spec fn words(s: Seq<char>) -> Seq<Seq<char>> {
    words_from(s, 0, Seq::empty())
}

/// The views of a list of character vectors.
pub open spec fn views(v: Seq<Vec<char>>) -> Seq<Seq<char>> {
    v.map_values(|w: Vec<char>| w@)
}

/// The words of `s`.
pub fn split_ws(s: &[char]) -> (r: Vec<Vec<char>>)
    ensures
        views(r@) == words(s@),
{
    let n = s.len();
    let mut r: Vec<Vec<char>> = Vec::new();
    let mut cur: Vec<char> = Vec::new();
    let mut i: usize = 0;
    proof {
        assert(views(r@) =~= Seq::<Seq<char>>::empty());
        assert(Seq::<Seq<char>>::empty() + words(s@) =~= words(s@));
    }
    while i < n
        invariant
            n == s@.len(),
            i <= n,
            views(r@) + words_from(s@, i as int, cur@) == words(s@),
        decreases n - i,
    {
        let c = s[i];
        if is_whitespace(c) {
            let ghost before = views(r@);
            let ghost w = cur@;
            if cur.len() > 0 {
                r.push(cur);
                proof {
                    assert(views(r@) =~= before.push(w));
                    assert(before + (seq![w] + words_from(s@, i + 1, Seq::empty())) =~= before.push(w)
                        + words_from(s@, i + 1, Seq::empty()));
                }
            } else {
                proof {
                    assert(word_list(w) =~= Seq::<Seq<char>>::empty());
                    assert(Seq::<Seq<char>>::empty() + words_from(s@, i + 1, Seq::empty()) =~= words_from(
                        s@,
                        i + 1,
                        Seq::empty(),
                    ));
                }
            }
            cur = Vec::new();
            proof {
                assert(cur@ =~= Seq::<char>::empty());
            }
        } else {
            cur.push(c);
        }
        i = i + 1;
    }
    if cur.len() > 0 {
        let ghost before = views(r@);
        let ghost w = cur@;
        r.push(cur);
        proof {
            assert(views(r@) =~= before.push(w));
            assert(before + seq![w] =~= before.push(w));
        }
    } else {
        proof {
            assert(views(r@) + Seq::<Seq<char>>::empty() =~= views(r@));
        }
    }
    r
}

} // verus!

verus! {

/// Appends the decimal rendering of `n` to `s`.
pub fn push_int(s: &mut String, n: i128)
    requires
        n > i128::MIN,
    ensures
        final(s)@ == old(s)@ + dec(n as int),
{
    let t = fmt_int(n);
    s.append(t.as_str());
}

} // verus!
