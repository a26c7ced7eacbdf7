//! Character-level text helpers with their specifications: the pieces of
//! `str` handling (trim, ASCII lowercase, prefix and suffix tests, splitting
//! at a character) that the request parsers of the service are built from.

use vstd::prelude::*;

verus! {

/// Unicode `White_Space`, the characters that `char::is_whitespace` accepts
/// and that `str::trim` removes.
pub open spec fn is_ws(c: char) -> bool {
    ||| ('\u{9}' <= c && c <= '\u{d}')
    ||| c == ' '
    ||| c == '\u{85}'
    ||| c == '\u{a0}'
    ||| c == '\u{1680}'
    ||| ('\u{2000}' <= c && c <= '\u{200a}')
    ||| c == '\u{2028}'
    ||| c == '\u{2029}'
    ||| c == '\u{202f}'
    ||| c == '\u{205f}'
    ||| c == '\u{3000}'
}

/// Whether `c` is Unicode white space.
pub fn is_whitespace(c: char) -> (r: bool)
    ensures
        r == is_ws(c),
{
    ('\u{9}' <= c && c <= '\u{d}') || c == ' ' || c == '\u{85}' || c == '\u{a0}' || c == '\u{1680}'
        || ('\u{2000}' <= c && c <= '\u{200a}') || c == '\u{2028}' || c == '\u{2029}' || c == '\u{202f}'
        || c == '\u{205f}' || c == '\u{3000}'
}

/// First index at or after `i` that does not hold white space.
pub open spec fn skip_ws_from(s: Seq<char>, i: int) -> int
    decreases s.len() - i,
{
    if 0 <= i < s.len() && is_ws(s[i]) {
        skip_ws_from(s, i + 1)
    } else {
        i
    }
}

/// End of `s[lo..j]` once its trailing white space is dropped.
pub open spec fn back_ws(s: Seq<char>, lo: int, j: int) -> int
    decreases j - lo,
{
    if lo < j && j <= s.len() && is_ws(s[j - 1]) {
        back_ws(s, lo, j - 1)
    } else {
        j
    }
}

/// `s` without leading and trailing white space (`str::trim`).
pub open spec fn trim_seq(s: Seq<char>) -> Seq<char> {
    let a = skip_ws_from(s, 0);
    s.subrange(a, back_ws(s, a, s.len() as int))
}

/// ASCII lowercase of one character (`char::to_ascii_lowercase`).
pub open spec fn lower(c: char) -> char {
    if 'A' <= c && c <= 'Z' {
        ((c as u32) + 32) as char
    } else {
        c
    }
}

/// ASCII lowercase of a text (`str::to_ascii_lowercase`).
pub open spec fn lower_seq(s: Seq<char>) -> Seq<char> {
    Seq::new(s.len(), |i: int| lower(s[i]))
}

/// `str::starts_with` with a text pattern.
pub open spec fn starts_with_seq(s: Seq<char>, p: Seq<char>) -> bool {
    p.len() <= s.len() && s.subrange(0, p.len() as int) == p
}

/// `str::ends_with` with a text pattern.
pub open spec fn ends_with_seq(s: Seq<char>, p: Seq<char>) -> bool {
    p.len() <= s.len() && s.subrange(s.len() - p.len(), s.len() as int) == p
}

/// Whether `p` occurs in `s` (`str::contains` with a text pattern).
pub open spec fn contains_seq(s: Seq<char>, p: Seq<char>) -> bool {
    exists|i: int| 0 <= i && i + p.len() <= s.len() && #[trigger] s.subrange(i, i + p.len()) == p
}

/// Index of the first `c` in `s`, if any.
pub open spec fn first_index(s: Seq<char>, c: char) -> Option<int> {
    if exists|i: int| 0 <= i < s.len() && s[i] == c {
        Some(choose|i: int| 0 <= i < s.len() && s[i] == c && forall|j: int| 0 <= j < i ==> s[j] != c)
    } else {
        None
    }
}

/// The part of `s` before the first `c`, or all of it (`s.split(c).next()`).
pub open spec fn before_first(s: Seq<char>, c: char) -> Seq<char> {
    match first_index(s, c) {
        Some(i) => s.subrange(0, i),
        None => s,
    }
}

/// `String::push`: appends one character.
#[verifier::external_body]
pub(crate) fn push_char(s: &mut String, c: char)
    ensures
        final(s)@ == old(s)@.push(c),
{
    s.push(c);
}

/// The characters of a string slice.
pub fn to_chars(s: &str) -> (r: Vec<char>)
    ensures
        r@ == s@,
{
    let mut r: Vec<char> = Vec::new();
    for c in it: s.chars()
        invariant
            r@ == it.seq().take(it.index() as int),
    {
        r.push(c);
    }
    r
}

/// A string holding the characters `v[from..to]`.
pub fn string_of(v: &Vec<char>, from: usize, to: usize) -> (r: String)
    requires
        from <= to <= v.len(),
    ensures
        r@ == v@.subrange(from as int, to as int),
{
    let mut r = String::new();
    let mut i = from;
    while i < to
        invariant
            from <= i <= to <= v.len(),
            r@ == v@.subrange(from as int, i as int),
        decreases to - i,
    {
        push_char(&mut r, v[i]);
        proof {
            assert(v@.subrange(from as int, i + 1) == v@.subrange(from as int, i as int).push(v@[i as int]));
        }
        i = i + 1;
    }
    r
}

/// A string holding all of `v`.
pub fn string_from(v: &Vec<char>) -> (r: String)
    ensures
        r@ == v@,
{
    let r = string_of(v, 0, v.len());
    proof {
        assert(v@.subrange(0, v@.len() as int) == v@);
    }
    r
}

/// Appends the characters of `t` to `s`.
pub fn push_str(s: &mut String, t: &str)
    ensures
        final(s)@ == old(s)@ + t@,
{
    let v = to_chars(t);
    let mut i: usize = 0;
    while i < v.len()
        invariant
            0 <= i <= v.len(),
            v@ == t@,
            s@ == old(s)@ + v@.subrange(0, i as int),
        decreases v.len() - i,
    {
        push_char(s, v[i]);
        proof {
            assert(v@.subrange(0, i + 1) == v@.subrange(0, i as int).push(v@[i as int]));
        }
        i = i + 1;
    }
    proof {
        assert(v@.subrange(0, v@.len() as int) == v@);
    }
}

/// Bounds of `v` once leading and trailing white space is dropped.
pub fn trim_bounds(v: &Vec<char>) -> (r: (usize, usize))
    ensures
        r.0 == skip_ws_from(v@, 0),
        r.1 == back_ws(v@, r.0 as int, v@.len() as int),
        r.0 <= r.1 <= v.len(),
{
    let n = v.len();
    let mut a: usize = 0;
    while a < n && is_whitespace(v[a])
        invariant
            0 <= a <= n == v.len(),
            skip_ws_from(v@, 0) == skip_ws_from(v@, a as int),
        decreases n - a,
    {
        a = a + 1;
    }
    let mut b: usize = n;
    while b > a && is_whitespace(v[b - 1])
        invariant
            a <= b <= n == v.len(),
            back_ws(v@, a as int, n as int) == back_ws(v@, a as int, b as int),
        decreases b - a,
    {
        b = b - 1;
    }
    (a, b)
}

/// `v` without leading and trailing white space.
pub fn trim(v: &Vec<char>) -> (r: Vec<char>)
    ensures
        r@ == trim_seq(v@),
{
    let (a, b) = trim_bounds(v);
    slice_of(v, a, b)
}

/// The characters `v[from..to]`.
pub fn slice_of(v: &Vec<char>, from: usize, to: usize) -> (r: Vec<char>)
    requires
        from <= to <= v.len(),
    ensures
        r@ == v@.subrange(from as int, to as int),
{
    let mut r: Vec<char> = Vec::new();
    let mut i = from;
    while i < to
        invariant
            from <= i <= to <= v.len(),
            r@ == v@.subrange(from as int, i as int),
        decreases to - i,
    {
        r.push(v[i]);
        proof {
            assert(v@.subrange(from as int, i + 1) == v@.subrange(from as int, i as int).push(v@[i as int]));
        }
        i = i + 1;
    }
    r
}

/// ASCII lowercase of one character.
pub fn lower_char(c: char) -> (r: char)
    ensures
        r == lower(c),
{
    if 'A' <= c && c <= 'Z' {
        let u: u8 = ((c as u32) + 32) as u8;
        u as char
    } else {
        c
    }
}

/// ASCII lowercase of `v`.
pub fn to_lower(v: &Vec<char>) -> (r: Vec<char>)
    ensures
        r@ == lower_seq(v@),
{
    let mut r: Vec<char> = Vec::new();
    let mut i: usize = 0;
    while i < v.len()
        invariant
            0 <= i <= v.len(),
            r@.len() == i,
            forall|j: int| 0 <= j < i ==> r@[j] == lower(v@[j]),
        decreases v.len() - i,
    {
        r.push(lower_char(v[i]));
        i = i + 1;
    }
    assert(r@ == lower_seq(v@));
    r
}

/// Whether `v` equals the text `p`.
pub fn eq_str(v: &Vec<char>, p: &str) -> (r: bool)
    ensures
        r == (v@ == p@),
{
    let w = to_chars(p);
    if v.len() != w.len() {
        return false;
    }
    let mut i: usize = 0;
    while i < v.len()
        invariant
            0 <= i <= v.len() == w.len(),
            w@ == p@,
            forall|j: int| 0 <= j < i ==> v@[j] == w@[j],
        decreases v.len() - i,
    {
        if v[i] != w[i] {
            return false;
        }
        i = i + 1;
    }
    assert(v@ == w@);
    true
}

/// Whether `v` starts with the text `p`.
pub fn starts_with(v: &Vec<char>, p: &str) -> (r: bool)
    ensures
        r == starts_with_seq(v@, p@),
{
    let w = to_chars(p);
    if w.len() > v.len() {
        return false;
    }
    let mut i: usize = 0;
    while i < w.len()
        invariant
            0 <= i <= w.len() <= v.len(),
            w@ == p@,
            forall|j: int| 0 <= j < i ==> v@[j] == w@[j],
        decreases w.len() - i,
    {
        if v[i] != w[i] {
            assert(v@.subrange(0, w@.len() as int)[i as int] != w@[i as int]);
            return false;
        }
        i = i + 1;
    }
    assert(v@.subrange(0, w@.len() as int) == w@);
    true
}

/// Whether `v` ends with the text `p`.
pub fn ends_with(v: &Vec<char>, p: &str) -> (r: bool)
    ensures
        r == ends_with_seq(v@, p@),
{
    let w = to_chars(p);
    if w.len() > v.len() {
        return false;
    }
    let off = v.len() - w.len();
    let mut i: usize = 0;
    while i < w.len()
        invariant
            0 <= i <= w.len() <= v.len(),
            off == v.len() - w.len(),
            w@ == p@,
            forall|j: int| 0 <= j < i ==> v@[off + j] == w@[j],
        decreases w.len() - i,
    {
        if v[off + i] != w[i] {
            assert(v@.subrange(off as int, v@.len() as int)[i as int] != w@[i as int]);
            return false;
        }
        i = i + 1;
    }
    assert(v@.subrange(off as int, v@.len() as int) == w@);
    true
}

/// Whether the text `p` occurs in `v`.
pub fn contains_str(v: &Vec<char>, p: &str) -> (r: bool)
    ensures
        r == contains_seq(v@, p@),
{
    let w = to_chars(p);
    if w.len() > v.len() {
        assert forall|i: int| 0 <= i && i + w@.len() <= v@.len() implies #[trigger] v@.subrange(i, i + w@.len()) != w@ by {}
        return false;
    }
    if w.len() == 0 {
        assert(v@.subrange(0int, 0int + p@.len()) == p@);
        return true;
    }
    let mut start: usize = 0;
    let last = v.len() - w.len();
    while start <= last
        invariant
            w@ == p@,
            w.len() <= v.len(),
            last == v.len() - w.len(),
            start <= last + 1,
            last < v.len(),
            forall|i: int| 0 <= i < start && i + w@.len() <= v@.len() ==> #[trigger] v@.subrange(i, i + w@.len()) != w@,
        decreases last + 1 - start,
    {
        let mut k: usize = 0;
        let mut ok = true;
        while k < w.len()
            invariant
                0 <= k <= w.len(),
                start + w.len() <= v.len(),
                ok ==> forall|j: int| 0 <= j < k ==> v@[start + j] == w@[j],
                !ok ==> v@.subrange(start as int, start + w@.len()) != w@,
            decreases w.len() - k,
        {
            if v[start + k] != w[k] {
                assert(v@.subrange(start as int, start + w@.len())[k as int] != w@[k as int]);
                ok = false;
            }
            k = k + 1;
        }
        if ok {
            assert(v@.subrange(start as int, start + w@.len()) == w@);
            return true;
        }
        start = start + 1;
    }
    proof {
        assert forall|i: int| 0 <= i && i + w@.len() <= v@.len() implies #[trigger] v@.subrange(i, i + w@.len()) != w@ by {
            assert(i < start);
        }
    }
    false
}

/// Index of the first `c` in `v`.
pub fn find_char(v: &Vec<char>, c: char) -> (r: Option<usize>)
    ensures
        r matches Some(i) ==> first_index(v@, c) == Some(i as int),
        r is None ==> first_index(v@, c) is None,
        r matches Some(i) ==> i < v.len() && v@[i as int] == c && forall|j: int| 0 <= j < i ==> v@[j] != c,
        r is None ==> forall|j: int| 0 <= j < v.len() ==> v@[j] != c,
{
    let mut i: usize = 0;
    while i < v.len()
        invariant
            0 <= i <= v.len(),
            forall|j: int| 0 <= j < i ==> v@[j] != c,
        decreases v.len() - i,
    {
        if v[i] == c {
            proof {
                lemma_first_index_is(v@, c, i as int);
            }
            return Some(i);
        }
        i = i + 1;
    }
    None
}

/// The first occurrence is unique.
pub proof fn lemma_first_index_is(s: Seq<char>, c: char, i: int)
    requires
        0 <= i < s.len(),
        s[i] == c,
        forall|j: int| 0 <= j < i ==> s[j] != c,
    ensures
        first_index(s, c) == Some(i),
{
    let k = choose|k: int| 0 <= k < s.len() && s[k] == c && forall|j: int| 0 <= j < k ==> s[j] != c;
    assert(0 <= k < s.len() && s[k] == c && forall|j: int| 0 <= j < k ==> s[j] != c);
    if k < i {
        assert(s[k] != c);
    }
    if k > i {
        assert(s[i] != c);
    }
}

/// The part of `v` before the first `c`, or all of it.
pub fn before_first_char(v: &Vec<char>, c: char) -> (r: Vec<char>)
    ensures
        r@ == before_first(v@, c),
{
    match find_char(v, c) {
        Some(i) => slice_of(v, 0, i),
        None => slice_of(v, 0, v.len()),
    }
}


/// First index at or after `i` that holds `c`, or the length of `s`.
pub open spec fn next_index_from(s: Seq<char>, c: char, i: int) -> int
    decreases s.len() - i,
{
    if i >= s.len() {
        s.len() as int
    } else if s[i] == c {
        i
    } else {
        next_index_from(s, c, i + 1)
    }
}

proof fn lemma_next_index_bounds(s: Seq<char>, c: char, i: int)
    requires
        0 <= i <= s.len(),
    ensures
        i <= next_index_from(s, c, i) <= s.len(),
    decreases s.len() - i,
{
    if i < s.len() && s[i] != c {
        lemma_next_index_bounds(s, c, i + 1);
    }
}

/// First index at or after `from` that holds `c`, or the length of `v`.
pub fn index_from(v: &Vec<char>, c: char, from: usize) -> (r: usize)
    requires
        from <= v.len(),
    ensures
        r == next_index_from(v@, c, from as int),
        from <= r <= v.len(),
{
    let mut i = from;
    while i < v.len() && v[i] != c
        invariant
            from <= i <= v.len(),
            next_index_from(v@, c, from as int) == next_index_from(v@, c, i as int),
        decreases v.len() - i,
    {
        i = i + 1;
    }
    i
}

/// The ASCII digit of `d`.
pub open spec fn digit_char(d: nat) -> char {
    if d == 0 { '0' } else if d == 1 { '1' } else if d == 2 { '2' } else if d == 3 { '3' } else if d == 4 { '4' }
    else if d == 5 { '5' } else if d == 6 { '6' } else if d == 7 { '7' } else if d == 8 { '8' } else { '9' }
}

/// Decimal notation of `n`, as `Display` writes it.
pub open spec fn decimal_seq(n: nat) -> Seq<char>
    decreases n,
{
    if n < 10 {
        seq![digit_char(n)]
    } else {
        decimal_seq(n / 10).push(digit_char(n % 10))
    }
}

/// The ASCII digit of `d`.
pub fn digit(d: u64) -> (r: char)
    requires
        d < 10,
    ensures
        r == digit_char(d as nat),
{
    if d == 0 { '0' } else if d == 1 { '1' } else if d == 2 { '2' } else if d == 3 { '3' } else if d == 4 { '4' }
    else if d == 5 { '5' } else if d == 6 { '6' } else if d == 7 { '7' } else if d == 8 { '8' } else { '9' }
}

/// Appends the decimal notation of `n`.
pub fn push_decimal(s: &mut String, n: u64)
    ensures
        final(s)@ == old(s)@ + decimal_seq(n as nat),
    decreases n,
{
    if n < 10 {
        push_char(s, digit(n));
        assert(decimal_seq(n as nat) == seq![digit_char(n as nat)]);
    } else {
        push_decimal(s, n / 10);
        push_char(s, digit(n % 10));
        assert(decimal_seq(n as nat) == decimal_seq((n / 10) as nat).push(digit_char((n % 10) as nat)));
    }
}


/// Whether `c` is an ASCII digit.
pub open spec fn is_digit(c: char) -> bool {
    '0' <= c && c <= '9'
}

/// Value of a string of decimal digits.
pub open spec fn digits_value(s: Seq<char>) -> int
    decreases s.len(),
{
    if s.len() == 0 {
        0
    } else {
        digits_value(s.drop_last()) * 10 + ((s.last() as int) - ('0' as int))
    }
}

/// What `str::parse` gives for an integer type with range `[min, max]`: an
/// optional `+` (or `-` for signed types) and at least one decimal digit.
pub open spec fn spec_parse_int(s: Seq<char>, min: int, max: int) -> Option<int> {
    let neg = is_negative_sign(s, min);
    let body = number_body(s, min);
    if body.len() == 0 || !all_digits(body) {
        None
    } else {
        let v = if neg { -digits_value(body) } else { digits_value(body) };
        if min <= v && v <= max {
            Some(v)
        } else {
            None
        }
    }
}

/// Whether `s` starts with a minus that the type accepts.
pub open spec fn is_negative_sign(s: Seq<char>, min: int) -> bool {
    s.len() > 0 && s[0] == '-' && min < 0
}

/// `s` without its accepted sign.
pub open spec fn number_body(s: Seq<char>, min: int) -> Seq<char> {
    if s.len() > 0 && (s[0] == '+' || is_negative_sign(s, min)) {
        s.drop_first()
    } else {
        s
    }
}

/// Whether every character of `s` is an ASCII digit.
pub open spec fn all_digits(s: Seq<char>) -> bool {
    forall|i: int| 0 <= i < s.len() ==> is_digit(#[trigger] s[i])
}

proof fn lemma_digits_value_grows(s: Seq<char>, i: int, j: int)
    requires
        0 <= i <= j <= s.len(),
        forall|k: int| 0 <= k < s.len() ==> is_digit(#[trigger] s[k]),
    ensures
        digits_value(s.subrange(0, i)) <= digits_value(s.subrange(0, j)),
        0 <= digits_value(s.subrange(0, i)),
    decreases j - i,
{
    if i < j {
        lemma_digits_value_grows(s, i, j - 1);
        let p = s.subrange(0, j);
        assert(p.drop_last() == s.subrange(0, j - 1));
        assert(is_digit(s[j - 1]));
    } else {
        lemma_digits_nonneg(s.subrange(0, i));
    }
}

proof fn lemma_digits_nonneg(s: Seq<char>)
    requires
        forall|k: int| 0 <= k < s.len() ==> is_digit(#[trigger] s[k]),
    ensures
        0 <= digits_value(s),
    decreases s.len(),
{
    if s.len() > 0 {
        lemma_digits_nonneg(s.drop_last());
        assert(is_digit(s[s.len() - 1]));
    }
}

/// Parses `v` as `str::parse` does for an integer type with range
/// `[min, max]`.
pub fn parse_int(v: &Vec<char>, min: i128, max: i128) -> (r: Option<i128>)
    requires
        -0x8000_0000_0000_0000 <= min <= 0,
        0 <= max <= 0xffff_ffff_ffff_ffff,
    ensures
        r matches Some(x) ==> spec_parse_int(v@, min as int, max as int) == Some(x as int),
        r is None ==> spec_parse_int(v@, min as int, max as int) is None,
{
    let n = v.len();
    let neg = n > 0 && v[0] == '-' && min < 0;
    let start: usize = if n > 0 && (v[0] == '+' || neg) { 1 } else { 0 };
    let ghost body = number_body(v@, min as int);
    assert(body == v@.subrange(start as int, n as int));
    if start == n {
        return None;
    }
    let mut i = start;
    while i < n
        invariant
            start <= i <= n == v.len(),
            body == v@.subrange(start as int, n as int),
            body == number_body(v@, min as int),
            forall|k: int| start <= k < i ==> is_digit(#[trigger] v@[k]),
        decreases n - i,
    {
        if !('0' <= v[i] && v[i] <= '9') {
            assert(body[i - start] == v@[i as int]);
            assert(!is_digit(body[i - start]));
            assert(!all_digits(body));
            return None;
        }
        i = i + 1;
    }
    assert(forall|k: int| 0 <= k < body.len() ==> is_digit(#[trigger] body[k])) by {
        assert forall|k: int| 0 <= k < body.len() implies is_digit(#[trigger] body[k]) by {
            assert(body[k] == v@[start + k]);
        }
    }
    let bound: i128 = 0x1_0000_0000_0000_0000;
    let mut acc: i128 = 0;
    let mut j = start;
    while j < n
        invariant
            start <= j <= n == v.len(),
            body == v@.subrange(start as int, n as int),
            body == number_body(v@, min as int),
            neg == is_negative_sign(v@, min as int),
            -0x8000_0000_0000_0000 <= min <= 0,
            0 <= max <= 0xffff_ffff_ffff_ffff,
            forall|k: int| 0 <= k < body.len() ==> is_digit(#[trigger] body[k]),
            acc == digits_value(body.subrange(0, j - start)),
            bound == 0x1_0000_0000_0000_0000,
            0 <= acc <= bound,
        decreases n - j,
    {
        proof {
            assert(v@[j as int] == body[j - start]);
            assert(is_digit(body[j - start]));
        }
        let d = (v[j] as u32 - '0' as u32) as i128;
        proof {
            let p = body.subrange(0, j + 1 - start);
            assert(p.drop_last() == body.subrange(0, j - start));
            assert(p.last() == body[j - start]);
        }
        acc = acc * 10 + d;
        j = j + 1;
        assert(acc == digits_value(body.subrange(0, j - start)));
        if acc > bound {
            proof {
                lemma_digits_value_grows(body, j - start, body.len() as int);
                assert(body.subrange(0, body.len() as int) == body);
            }
            return None;
        }
    }
    assert(body.subrange(0, body.len() as int) == body);
    let value = if neg { -acc } else { acc };
    if min <= value && value <= max {
        Some(value)
    } else {
        None
    }
}

/// The comma-separated items of `s` from index `start` on, each trimmed
/// (`s.split(',').map(str::trim)`).
pub open spec fn split_trim_from(s: Seq<char>, start: int) -> Seq<Seq<char>>
    decreases s.len() - start,
{
    if start < 0 || start > s.len() {
        Seq::empty()
    } else {
        let end = next_index_from(s, ',', start);
        let item = trim_seq(s.subrange(start, end));
        if start <= end < s.len() {
            seq![item] + split_trim_from(s, end + 1)
        } else {
            seq![item]
        }
    }
}

/// The views of a list of strings.
pub open spec fn views(v: Seq<String>) -> Seq<Seq<char>> {
    Seq::new(v.len(), |i: int| v[i]@)
}

/// The comma-separated items of `s`, each trimmed.
pub fn split_trim(s: &str) -> (r: Vec<String>)
    ensures
        views(r@) == split_trim_from(s@, 0),
{
    let v = to_chars(s);
    let n = v.len();
    let mut out: Vec<String> = Vec::new();
    let mut start: usize = 0;
    loop
        invariant
            v@ == s@,
            n == v.len(),
            start <= n,
            split_trim_from(v@, 0) == views(out@) + split_trim_from(v@, start as int),
        decreases n - start,
    {
        let end = index_from(&v, ',', start);
        let part = slice_of(&v, start, end);
        let item = string_from(&trim(&part));
        let ghost before = out@;
        out.push(item);
        assert(views(out@) == views(before) + seq![item@]);
        if end < n {
            start = end + 1;
        } else {
            assert(split_trim_from(v@, start as int) == seq![item@]);
            assert(split_trim_from(v@, 0) == views(out@));
            return out;
        }
    }
}

/// `s` with each `\` followed by `n` (a written-out newline) made a newline,
/// scanning left to right (`str::replace("\\n", "\n")`).
pub open spec fn unescape_newlines(s: Seq<char>) -> Seq<char>
    decreases s.len(),
{
    if s.len() >= 2 && s[0] == '\\' && s[1] == 'n' {
        seq!['\n'] + unescape_newlines(s.subrange(2, s.len() as int))
    } else if s.len() >= 1 {
        seq![s[0]] + unescape_newlines(s.drop_first())
    } else {
        Seq::empty()
    }
}

/// `s` with each written-out `\n` made a newline.
pub fn replace_escaped_newlines(s: &str) -> (r: String)
    ensures
        r@ == unescape_newlines(s@),
{
    let v = to_chars(s);
    let n = v.len();
    let mut r = String::new();
    let mut i: usize = 0;
    assert(v@.subrange(0, n as int) == v@);
    while i < n
        invariant
            v@ == s@,
            n == v.len(),
            i <= n,
            unescape_newlines(v@) == r@ + unescape_newlines(v@.subrange(i as int, n as int)),
        decreases n - i,
    {
        let ghost rest = v@.subrange(i as int, n as int);
        if i + 1 < n && v[i] == '\\' && v[i + 1] == 'n' {
            push_char(&mut r, '\n');
            assert(rest.subrange(2, rest.len() as int) == v@.subrange(i + 2, n as int));
            i = i + 2;
        } else {
            push_char(&mut r, v[i]);
            assert(rest.drop_first() == v@.subrange(i + 1, n as int));
            i = i + 1;
        }
    }
    assert(v@.subrange(n as int, n as int) == Seq::<char>::empty());
    r
}

} // verus!
