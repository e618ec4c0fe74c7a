//! Character sequences: the operations on text that the parsers share.
//!
//! Text is modelled as `Seq<char>`. Executable code works on `Vec<char>`;
//! `chars_of` and `string_of` convert from and to Rust strings.

use vstd::prelude::*;

verus! {

/// `String::push` appends one character to the end of the string.
pub assume_specification[ std::string::String::push ](s: &mut std::string::String, c: char)
    ensures
        final(s)@ == old(s)@.push(c),
;

/// The view of an optional piece of text.
pub open spec fn opt_text(s: Option<&str>) -> Option<Seq<char>> {
    match s {
        Some(t) => Some(t@),
        None => None,
    }
}

/// The texts that a list of strings holds, in order.
pub open spec fn texts(v: Seq<String>) -> Seq<Seq<char>> {
    v.map_values(|s: String| s@)
}

/// Filtering one element more: the element at `i` is kept or dropped, what
/// was filtered before it stays.
pub proof fn lemma_filter_next<A>(s: Seq<A>, pred: spec_fn(A) -> bool, i: int)
    requires
        0 <= i < s.len(),
    ensures
        s.take(i + 1).filter(pred) == if pred(s[i]) {
            s.take(i).filter(pred).push(s[i])
        } else {
            s.take(i).filter(pred)
        },
{
    reveal(Seq::filter);
    assert(s.take(i + 1).drop_last() == s.take(i));
}

/// The characters of `s`, in order.
pub fn chars_of(s: &str) -> (out: Vec<char>)
    ensures
        out@ == s@,
{
    let mut out: Vec<char> = Vec::new();
    for c in it: s.chars()
        invariant
            it.seq() == s@,
            out@ == it.seq().take(it.index() as int),
    {
        out.push(c);
    }
    out
}

/// The string made of the characters of `v`, in order.
pub fn string_of(v: &Vec<char>) -> (out: String)
    ensures
        out@ == v@,
{
    let mut out = String::new();
    let mut i: usize = 0;
    while i < v.len()
        invariant
            i <= v.len(),
            out@ == v@.take(i as int),
        decreases v.len() - i,
    {
        out.push(v[i]);
        i += 1;
    }
    out
}

/// The characters of `v` from `from` up to, not including, `to`.
pub fn slice_of(v: &Vec<char>, from: usize, to: usize) -> (out: Vec<char>)
    requires
        from <= to <= v.len(),
    ensures
        out@ == v@.subrange(from as int, to as int),
{
    let mut out: Vec<char> = Vec::new();
    let mut i: usize = from;
    while i < to
        invariant
            from <= i <= to <= v.len(),
            out@ == v@.subrange(from as int, i as int),
        decreases to - i,
    {
        out.push(v[i]);
        i += 1;
    }
    out
}

/// Appends the characters of `tail` to `head`.
pub fn append_chars(head: &mut Vec<char>, tail: &Vec<char>)
    ensures
        final(head)@ == old(head)@ + tail@,
{
    let mut i: usize = 0;
    while i < tail.len()
        invariant
            i <= tail.len(),
            head@ == old(head)@ + tail@.take(i as int),
        decreases tail.len() - i,
    {
        head.push(tail[i]);
        i += 1;
    }
}

/// Whether two character sequences are equal.
pub fn same_chars(a: &Vec<char>, b: &Vec<char>) -> (eq: bool)
    ensures
        eq == (a@ == b@),
{
    if a.len() != b.len() {
        return false;
    }
    let mut i: usize = 0;
    while i < a.len()
        invariant
            i <= a.len(),
            a.len() == b.len(),
            a@.take(i as int) == b@.take(i as int),
        decreases a.len() - i,
    {
        if a[i] != b[i] {
            return false;
        }
        assert(a@.take(i + 1) == a@.take(i as int).push(a@[i as int]));
        assert(b@.take(i + 1) == b@.take(i as int).push(b@[i as int]));
        i += 1;
    }
    assert(a@.take(a.len() as int) == a@);
    assert(b@.take(b.len() as int) == b@);
    true
}

/// Whether `s` is exactly the text `lit`.
pub fn is_text(s: &Vec<char>, lit: &str) -> (eq: bool)
    ensures
        eq == (s@ == lit@),
{
    let l = chars_of(lit);
    same_chars(s, &l)
}

/// `pat` occurs in `s` at position `i`.
pub open spec fn occurs_at(s: Seq<char>, pat: Seq<char>, i: int) -> bool {
    0 <= i && i + pat.len() <= s.len() && s.subrange(i, i + pat.len()) == pat
}

/// The position of the first occurrence of `pat` in `s` at or after `from`.
pub open spec fn find_from(s: Seq<char>, pat: Seq<char>, from: int) -> Option<int>
    decreases s.len() + 1 - from,
{
    if from < 0 || from + pat.len() > s.len() {
        None
    } else if occurs_at(s, pat, from) {
        Some(from)
    } else {
        find_from(s, pat, from + 1)
    }
}

/// The position of the first occurrence of `pat` in `s`.
pub open spec fn find(s: Seq<char>, pat: Seq<char>) -> Option<int> {
    find_from(s, pat, 0)
}

/// `pat` occurs somewhere in `s`.
pub open spec fn contains(s: Seq<char>, pat: Seq<char>) -> bool {
    find(s, pat) is Some
}

/// `s` begins with `pat`.
pub open spec fn starts_with(s: Seq<char>, pat: Seq<char>) -> bool {
    occurs_at(s, pat, 0)
}

/// `s` ends with `pat`.
pub open spec fn ends_with(s: Seq<char>, pat: Seq<char>) -> bool {
    occurs_at(s, pat, s.len() - pat.len())
}

/// `s` cut at the first occurrence of `pat`: what stands before it and what
/// stands after it.
pub open spec fn split_once(s: Seq<char>, pat: Seq<char>) -> Option<(Seq<char>, Seq<char>)> {
    match find(s, pat) {
        Some(i) => Some((s.take(i), s.skip(i + pat.len()))),
        None => None,
    }
}

/// `find_from` returns the least position at or after `from` where `pat`
/// occurs, and `None` exactly when there is none.
pub proof fn lemma_find_from(s: Seq<char>, pat: Seq<char>, from: int)
    requires
        0 <= from,
    ensures
        match find_from(s, pat, from) {
            Some(i) => from <= i && occurs_at(s, pat, i) && forall|j: int|
                from <= j < i ==> !occurs_at(s, pat, j),
            None => forall|j: int| from <= j ==> !occurs_at(s, pat, j),
        },
    decreases s.len() + 1 - from,
{
    if from + pat.len() > s.len() {
    } else if occurs_at(s, pat, from) {
    } else {
        lemma_find_from(s, pat, from + 1);
    }
}

/// Whether `pat` occurs in `s` at position `i`.
pub fn matches_at(s: &Vec<char>, pat: &Vec<char>, i: usize) -> (b: bool)
    ensures
        b == occurs_at(s@, pat@, i as int),
{
    if pat.len() > s.len() || i > s.len() - pat.len() {
        return false;
    }
    let mut k: usize = 0;
    while k < pat.len()
        invariant
            k <= pat.len(),
            i + pat.len() <= s.len(),
            s@.subrange(i as int, i + k) == pat@.take(k as int),
        decreases pat.len() - k,
    {
        if s[i + k] != pat[k] {
            assert(s@.subrange(i as int, i + pat.len())[k as int] != pat@[k as int]);
            return false;
        }
        assert(s@.subrange(i as int, i + k + 1) == s@.subrange(i as int, i + k).push(
            s@[i + k],
        ));
        assert(pat@.take(k + 1) == pat@.take(k as int).push(pat@[k as int]));
        k += 1;
    }
    assert(pat@.take(pat.len() as int) == pat@);
    true
}

/// The position of the first occurrence of `pat` in `s` at or after `from`.
pub fn find_chars_from(s: &Vec<char>, pat: &Vec<char>, from: usize) -> (r: Option<usize>)
    ensures
        match r {
            Some(i) => find_from(s@, pat@, from as int) == Some(i as int) && i + pat.len()
                <= s.len(),
            None => find_from(s@, pat@, from as int) is None,
        },
{
    if pat.len() > s.len() || from > s.len() - pat.len() {
        return None;
    }
    let last: usize = s.len() - pat.len();
    let mut i: usize = from;
    loop
        invariant
            from <= i <= last,
            last == s.len() - pat.len(),
            find_from(s@, pat@, from as int) == find_from(s@, pat@, i as int),
        decreases last - i,
    {
        if matches_at(s, pat, i) {
            return Some(i);
        }
        if i == last {
            assert(find_from(s@, pat@, i + 1) is None);
            return None;
        }
        i += 1;
    }
}

/// The position of the first occurrence of `pat` in `s`.
pub fn find_chars(s: &Vec<char>, pat: &Vec<char>) -> (r: Option<usize>)
    ensures
        match r {
            Some(i) => find(s@, pat@) == Some(i as int) && i + pat.len() <= s.len(),
            None => find(s@, pat@) is None,
        },
{
    find_chars_from(s, pat, 0)
}

/// Whether `pat` occurs somewhere in `s`.
pub fn contains_chars(s: &Vec<char>, pat: &Vec<char>) -> (b: bool)
    ensures
        b == contains(s@, pat@),
{
    find_chars(s, pat).is_some()
}

/// Whether `s` begins with `pat`.
pub fn starts_with_chars(s: &Vec<char>, pat: &Vec<char>) -> (b: bool)
    ensures
        b == starts_with(s@, pat@),
{
    matches_at(s, pat, 0)
}

/// Whether `s` ends with `pat`.
pub fn ends_with_chars(s: &Vec<char>, pat: &Vec<char>) -> (b: bool)
    ensures
        b == ends_with(s@, pat@),
{
    if pat.len() > s.len() {
        return false;
    }
    matches_at(s, pat, s.len() - pat.len())
}

/// `s` cut at the first occurrence of `pat`.
pub fn split_once_chars(s: &Vec<char>, pat: &Vec<char>) -> (r: Option<(Vec<char>, Vec<char>)>)
    ensures
        match r {
            Some((head, tail)) => split_once(s@, pat@) == Some((head@, tail@)),
            None => split_once(s@, pat@) is None,
        },
{
    match find_chars(s, pat) {
        Some(i) => {
            let head = slice_of(s, 0, i);
            let tail = slice_of(s, i + pat.len(), s.len());
            Some((head, tail))
        },
        None => None,
    }
}


/// The character of one decimal digit.
pub open spec fn digit_char(d: int) -> char {
    if d == 0 {
        '0'
    } else if d == 1 {
        '1'
    } else if d == 2 {
        '2'
    } else if d == 3 {
        '3'
    } else if d == 4 {
        '4'
    } else if d == 5 {
        '5'
    } else if d == 6 {
        '6'
    } else if d == 7 {
        '7'
    } else if d == 8 {
        '8'
    } else {
        '9'
    }
}

/// The decimal digits of a natural number, without leading zeros.
pub open spec fn decimal(n: nat) -> Seq<char>
    decreases n,
{
    if n < 10 {
        seq![digit_char(n as int)]
    } else {
        decimal(n / 10).push(digit_char((n % 10) as int))
    }
}

/// The decimal form of an integer: a minus sign before the digits of a
/// negative one.
pub open spec fn signed_decimal(i: int) -> Seq<char> {
    if i < 0 {
        seq!['-'] + decimal((-i) as nat)
    } else {
        decimal(i as nat)
    }
}

/// The character of one decimal digit.
pub fn digit_of(d: u8) -> (c: char)
    requires
        d < 10,
    ensures
        c == digit_char(d as int),
{
    match d {
        0 => '0',
        1 => '1',
        2 => '2',
        3 => '3',
        4 => '4',
        5 => '5',
        6 => '6',
        7 => '7',
        8 => '8',
        _ => '9',
    }
}

/// Appends the decimal digits of `n` to `out`.
pub fn push_decimal(out: &mut Vec<char>, n: u64)
    ensures
        final(out)@ == old(out)@ + decimal(n as nat),
    decreases n,
{
    if n >= 10 {
        push_decimal(out, n / 10);
    }
    out.push(digit_of((n % 10) as u8));
    assert(out@ =~= old(out)@ + decimal(n as nat));
}

/// Appends the decimal form of `i` to `out`.
pub fn push_signed_decimal(out: &mut Vec<char>, i: i64)
    ensures
        final(out)@ == old(out)@ + signed_decimal(i as int),
{
    if i < 0 {
        out.push('-');
        let magnitude: u64 = (-(i as i128)) as u64;
        push_decimal(out, magnitude);
        assert(out@ =~= old(out)@ + signed_decimal(i as int));
    } else {
        push_decimal(out, i as u64);
    }
}

/// An owned copy of the text `s`.
pub fn owned(s: &str) -> (out: String)
    ensures
        out@ == s@,
{
    string_of(&chars_of(s))
}

/// The text made of a fixed beginning and what follows it.
pub fn concat_text(head: &str, tail: &str) -> (out: String)
    ensures
        out@ == head@ + tail@,
{
    let mut chars = chars_of(head);
    append_chars(&mut chars, &chars_of(tail));
    string_of(&chars)
}


// ---------------------------------------------------------------------------
// White space
// ---------------------------------------------------------------------------

/// The characters that Unicode gives the property `White_Space`.
pub open spec fn is_whitespace(c: char) -> bool {
    let u = c as u32;
    (0x09 <= u <= 0x0D) || u == 0x20 || u == 0x85 || u == 0xA0 || u == 0x1680 || (0x2000 <= u
        <= 0x200A) || u == 0x2028 || u == 0x2029 || u == 0x202F || u == 0x205F || u == 0x3000
}

/// Whether `c` is white space.
pub fn is_space(c: char) -> (b: bool)
    ensures
        b == is_whitespace(c),
{
    let u: u32 = c as u32;
    (0x09 <= u && u <= 0x0D) || u == 0x20 || u == 0x85 || u == 0xA0 || u == 0x1680 || (0x2000
        <= u && u <= 0x200A) || u == 0x2028 || u == 0x2029 || u == 0x202F || u == 0x205F || u
        == 0x3000
}

/// The first position at or after `i` that holds no white space.
pub open spec fn skip_space(s: Seq<char>, i: int) -> int
    decreases s.len() - i,
{
    if 0 <= i < s.len() && is_whitespace(s[i]) {
        skip_space(s, i + 1)
    } else {
        i
    }
}

/// The end of the text before the white space that ends at `n`.
pub open spec fn back_space(s: Seq<char>, n: int) -> int
    decreases n,
{
    if 0 < n <= s.len() && is_whitespace(s[n - 1]) {
        back_space(s, n - 1)
    } else {
        n
    }
}

/// `s` without the white space at its beginning and at its end.
pub open spec fn trim(s: Seq<char>) -> Seq<char> {
    let a = skip_space(s, 0);
    let b = back_space(s, s.len() as int);
    if a >= b {
        Seq::empty()
    } else {
        s.subrange(a, b)
    }
}

/// `s` without the white space at its beginning and at its end.
pub fn trim_chars(s: &Vec<char>) -> (out: Vec<char>)
    ensures
        out@ == trim(s@),
{
    let mut a: usize = 0;
    while a < s.len() && is_space(s[a])
        invariant
            a <= s.len(),
            skip_space(s@, 0) == skip_space(s@, a as int),
        decreases s.len() - a,
    {
        a += 1;
    }
    let mut b: usize = s.len();
    while b > 0 && is_space(s[b - 1])
        invariant
            b <= s.len(),
            back_space(s@, s.len() as int) == back_space(s@, b as int),
        decreases b,
    {
        b -= 1;
    }
    if a >= b {
        Vec::new()
    } else {
        slice_of(s, a, b)
    }
}

// ---------------------------------------------------------------------------
// Cutting text into pieces
// ---------------------------------------------------------------------------

/// The texts that a list of character vectors holds, in order.
pub open spec fn rows(v: Seq<Vec<char>>) -> Seq<Seq<char>> {
    v.map_values(|r: Vec<char>| r@)
}

/// A line without the carriage return before its line feed.
pub open spec fn strip_cr(line: Seq<char>) -> Seq<char> {
    if line.len() > 0 && line.last() == '\r' {
        line.drop_last()
    } else {
        line
    }
}

/// The lines of `s` from position `i` on, where the current line began at
/// `start`.
pub open spec fn lines_scan(s: Seq<char>, start: int, i: int) -> Seq<Seq<char>>
    decreases s.len() - i,
{
    if i >= s.len() {
        if start < s.len() {
            seq![s.subrange(start, s.len() as int)]
        } else {
            Seq::empty()
        }
    } else if s[i] == '\n' {
        seq![strip_cr(s.subrange(start, i))] + lines_scan(s, i + 1, i + 1)
    } else {
        lines_scan(s, start, i + 1)
    }
}

/// The lines of `s`: it is cut at each line feed, a carriage return before
/// the line feed leaves with it, and nothing follows a final line feed.
pub open spec fn lines(s: Seq<char>) -> Seq<Seq<char>> {
    lines_scan(s, 0, 0)
}

/// The lines of `s`.
pub fn lines_of(s: &Vec<char>) -> (out: Vec<Vec<char>>)
    ensures
        rows(out@) == lines(s@),
{
    let mut out: Vec<Vec<char>> = Vec::new();
    let mut start: usize = 0;
    let mut i: usize = 0;
    assert(rows(out@) =~= Seq::<Seq<char>>::empty());
    while i < s.len()
        invariant
            start <= i <= s.len(),
            rows(out@) + lines_scan(s@, start as int, i as int) == lines(s@),
        decreases s.len() - i,
    {
        if s[i] == '\n' {
            let end = if i > start && s[i - 1] == '\r' {
                i - 1
            } else {
                i
            };
            let ghost before = out@;
            let line = slice_of(s, start, end);
            assert(line@ == strip_cr(s@.subrange(start as int, i as int)));
            out.push(line);
            assert(rows(out@) =~= rows(before).push(line@));
            assert(rows(before).push(line@) + lines_scan(s@, i + 1, i + 1) =~= rows(before) + (
                seq![line@] + lines_scan(s@, i + 1, i + 1)));
            start = i + 1;
        }
        i += 1;
    }
    if start < s.len() {
        let ghost before = out@;
        let line = slice_of(s, start, s.len());
        out.push(line);
        assert(rows(out@) =~= rows(before) + seq![line@]);
    } else {
        assert(rows(out@) + Seq::<Seq<char>>::empty() =~= rows(out@));
    }
    out
}

/// The words of `s` from position `i` on, where the current word, if there
/// is one, began at `start`.
pub open spec fn words_scan(s: Seq<char>, start: int, i: int) -> Seq<Seq<char>>
    decreases s.len() - i,
{
    if i >= s.len() {
        if start < s.len() {
            seq![s.subrange(start, s.len() as int)]
        } else {
            Seq::empty()
        }
    } else if is_whitespace(s[i]) {
        (if start < i {
            seq![s.subrange(start, i)]
        } else {
            Seq::empty()
        }) + words_scan(s, i + 1, i + 1)
    } else {
        words_scan(s, start, i + 1)
    }
}

/// The words of `s`: the longest runs of characters that are no white space.
pub open spec fn words(s: Seq<char>) -> Seq<Seq<char>> {
    words_scan(s, 0, 0)
}

/// The words of `s`.
pub fn words_of(s: &Vec<char>) -> (out: Vec<Vec<char>>)
    ensures
        rows(out@) == words(s@),
{
    let mut out: Vec<Vec<char>> = Vec::new();
    let mut start: usize = 0;
    let mut i: usize = 0;
    assert(rows(out@) =~= Seq::<Seq<char>>::empty());
    while i < s.len()
        invariant
            start <= i <= s.len(),
            rows(out@) + words_scan(s@, start as int, i as int) == words(s@),
        decreases s.len() - i,
    {
        if is_space(s[i]) {
            if start < i {
                let ghost before = out@;
                let word = slice_of(s, start, i);
                out.push(word);
                assert(rows(out@) =~= rows(before).push(word@));
                assert(rows(before).push(word@) + words_scan(s@, i + 1, i + 1) =~= rows(before)
                    + (seq![word@] + words_scan(s@, i + 1, i + 1)));
            } else {
                assert(Seq::<Seq<char>>::empty() + words_scan(s@, i + 1, i + 1) =~= words_scan(
                    s@,
                    i + 1,
                    i + 1,
                ));
            }
            start = i + 1;
        }
        i += 1;
    }
    if start < s.len() {
        let ghost before = out@;
        let word = slice_of(s, start, s.len());
        out.push(word);
        assert(rows(out@) =~= rows(before) + seq![word@]);
    } else {
        assert(rows(out@) + Seq::<Seq<char>>::empty() =~= rows(out@));
    }
    out
}

/// The pieces of `s` between the separators from position `i` on, where the
/// current piece began at `start`.
pub open spec fn split_scan(s: Seq<char>, sep: char, start: int, i: int) -> Seq<Seq<char>>
    decreases s.len() - i,
{
    if i >= s.len() {
        seq![s.subrange(start, s.len() as int)]
    } else if s[i] == sep {
        seq![s.subrange(start, i)] + split_scan(s, sep, i + 1, i + 1)
    } else {
        split_scan(s, sep, start, i + 1)
    }
}

/// The pieces of `s` between the occurrences of `sep`; there is always at
/// least one, and a piece may be empty.
pub open spec fn split(s: Seq<char>, sep: char) -> Seq<Seq<char>> {
    split_scan(s, sep, 0, 0)
}

/// The pieces of `s` between the occurrences of `sep`.
pub fn split_chars(s: &Vec<char>, sep: char) -> (out: Vec<Vec<char>>)
    ensures
        rows(out@) == split(s@, sep),
{
    let mut out: Vec<Vec<char>> = Vec::new();
    let mut start: usize = 0;
    let mut i: usize = 0;
    assert(rows(out@) =~= Seq::<Seq<char>>::empty());
    while i < s.len()
        invariant
            start <= i <= s.len(),
            rows(out@) + split_scan(s@, sep, start as int, i as int) == split(s@, sep),
        decreases s.len() - i,
    {
        if s[i] == sep {
            let ghost before = out@;
            let piece = slice_of(s, start, i);
            out.push(piece);
            assert(rows(out@) =~= rows(before).push(piece@));
            assert(rows(before).push(piece@) + split_scan(s@, sep, i + 1, i + 1) =~= rows(before)
                + (seq![piece@] + split_scan(s@, sep, i + 1, i + 1)));
            start = i + 1;
        }
        i += 1;
    }
    let ghost before = out@;
    let piece = slice_of(s, start, s.len());
    out.push(piece);
    assert(rows(out@) =~= rows(before) + seq![piece@]);
    out
}

/// `s` without `prefix` at its beginning, if it begins with it.
pub open spec fn strip_prefix(s: Seq<char>, prefix: Seq<char>) -> Option<Seq<char>> {
    if starts_with(s, prefix) {
        Some(s.skip(prefix.len() as int))
    } else {
        None
    }
}

/// `s` without `suffix` at its end, if it ends with it.
pub open spec fn strip_suffix(s: Seq<char>, suffix: Seq<char>) -> Option<Seq<char>> {
    if ends_with(s, suffix) {
        Some(s.take(s.len() - suffix.len()))
    } else {
        None
    }
}

/// `s` without `prefix` at its beginning, if it begins with it.
pub fn strip_prefix_chars(s: &Vec<char>, prefix: &Vec<char>) -> (out: Option<Vec<char>>)
    ensures
        match out {
            Some(rest) => strip_prefix(s@, prefix@) == Some(rest@),
            None => strip_prefix(s@, prefix@) is None,
        },
{
    if starts_with_chars(s, prefix) {
        Some(slice_of(s, prefix.len(), s.len()))
    } else {
        None
    }
}

/// `s` without `suffix` at its end, if it ends with it.
pub fn strip_suffix_chars(s: &Vec<char>, suffix: &Vec<char>) -> (out: Option<Vec<char>>)
    ensures
        match out {
            Some(rest) => strip_suffix(s@, suffix@) == Some(rest@),
            None => strip_suffix(s@, suffix@) is None,
        },
{
    if ends_with_chars(s, suffix) {
        Some(slice_of(s, 0, s.len() - suffix.len()))
    } else {
        None
    }
}


// ---------------------------------------------------------------------------
// Reading numbers
// ---------------------------------------------------------------------------

/// Whether `c` is a decimal digit.
pub open spec fn is_digit(c: char) -> bool {
    '0' <= c <= '9'
}

/// The value of a decimal digit.
pub open spec fn digit_value(c: char) -> int {
    c as u32 as int - 48
}

/// Every character of `s` is a decimal digit.
pub open spec fn all_digits(s: Seq<char>) -> bool {
    forall|i: int| 0 <= i < s.len() ==> is_digit(#[trigger] s[i])
}

/// The number that the decimal digits `s` denote.
pub open spec fn digits_value(s: Seq<char>) -> int
    decreases s.len(),
{
    if s.len() == 0 {
        0
    } else {
        digits_value(s.drop_last()) * 10 + digit_value(s.last())
    }
}

/// The integer between `min` and `max` that `s` denotes: an optional sign,
/// `+` or, where `signed`, `-`, and then one decimal digit or more. Anything
/// else, and a number outside the bounds, denotes nothing.
pub open spec fn parse_int(s: Seq<char>, signed: bool, min: int, max: int) -> Option<int> {
    let negative = signed && s.len() > 0 && s[0] == '-';
    let body = if s.len() > 0 && (s[0] == '+' || negative) {
        s.skip(1)
    } else {
        s
    };
    if body.len() == 0 || !all_digits(body) {
        None
    } else {
        let value = if negative {
            -digits_value(body)
        } else {
            digits_value(body)
        };
        if min <= value <= max {
            Some(value)
        } else {
            None
        }
    }
}

/// The digits read so far never denote more than all of them.
pub proof fn lemma_digits_grow(s: Seq<char>, k: int)
    requires
        all_digits(s),
        0 <= k <= s.len(),
    ensures
        0 <= digits_value(s.take(k)) <= digits_value(s),
    decreases s.len() - k,
{
    if k == s.len() {
        assert(s.take(k) == s);
        lemma_digits_nonnegative(s);
    } else {
        lemma_digits_grow(s, k + 1);
        assert(s.take(k + 1).drop_last() == s.take(k));
        assert(is_digit(s[k]));
        lemma_digits_nonnegative(s.take(k));
    }
}

/// Digits denote no negative number.
pub proof fn lemma_digits_nonnegative(s: Seq<char>)
    requires
        all_digits(s),
    ensures
        0 <= digits_value(s),
    decreases s.len(),
{
    if s.len() > 0 {
        assert(is_digit(s.last()));
        lemma_digits_nonnegative(s.drop_last());
    }
}

/// Reads an integer between `min` and `max`.
#[verifier::loop_isolation(false)]
pub fn parse_bounded(s: &Vec<char>, signed: bool, min: i128, max: i128) -> (out: Option<i128>)
    requires
        -0x1_0000_0000_0000_0000 <= min <= 0,
        0 <= max <= 0x1_0000_0000_0000_0000,
    ensures
        match out {
            Some(v) => parse_int(s@, signed, min as int, max as int) == Some(v as int),
            None => parse_int(s@, signed, min as int, max as int) is None,
        },
{
    if s.len() == 0 {
        return None;
    }
    let negative = signed && s[0] == '-';
    let first: usize = if s[0] == '+' || negative {
        1
    } else {
        0
    };
    if first == s.len() {
        return None;
    }
    let ghost body = s@.skip(first as int);
    assert(s@.skip(0) =~= s@);
    let mut acc: i128 = 0;
    let mut i: usize = first;
    while i < s.len()
        invariant
            first <= i <= s.len(),
            body == s@.skip(first as int),
            all_digits(body.take(i - first)),
            acc == digits_value(body.take(i - first)),
            0 <= acc <= 0x1_0000_0000_0000_0000,
        decreases s.len() - i,
    {
        let c = s[i];
        if !('0' <= c && c <= '9') {
            assert(!is_digit(body[i - first]));
            return None;
        }
        let d: i128 = (c as u32 - 48) as i128;
        let next: i128 = acc * 10 + d;
        proof {
            let taken = body.take(i - first + 1);
            assert(taken.drop_last() == body.take(i - first));
            assert(taken.last() == c);
            assert(digits_value(taken) == next);
            assert forall|j: int| 0 <= j < taken.len() implies is_digit(#[trigger] taken[j]) by {
                if j < i - first {
                    assert(taken[j] == body.take(i - first)[j]);
                }
            }
        }
        if next > 0x1_0000_0000_0000_0000 {
            proof {
                if all_digits(body) {
                    lemma_digits_grow(body, i - first + 1);
                }
            }
            return None;
        }
        acc = next;
        i += 1;
    }
    assert(body.take(s.len() - first) == body);
    let value: i128 = if negative {
        -acc
    } else {
        acc
    };
    if min <= value && value <= max {
        Some(value)
    } else {
        None
    }
}

/// The 64-bit integer with a sign that `s` denotes.
pub open spec fn parse_i64(s: Seq<char>) -> Option<int> {
    parse_int(s, true, i64::MIN as int, i64::MAX as int)
}

/// The 32-bit integer with a sign that `s` denotes.
pub open spec fn parse_i32(s: Seq<char>) -> Option<int> {
    parse_int(s, true, i32::MIN as int, i32::MAX as int)
}

/// The 64-bit integer without a sign that `s` denotes.
pub open spec fn parse_u64(s: Seq<char>) -> Option<int> {
    parse_int(s, false, 0, u64::MAX as int)
}

/// Reads a 64-bit integer with a sign.
pub fn read_i64(s: &Vec<char>) -> (out: Option<i64>)
    ensures
        match out {
            Some(v) => parse_i64(s@) == Some(v as int),
            None => parse_i64(s@) is None,
        },
{
    match parse_bounded(s, true, -0x8000_0000_0000_0000, 0x7fff_ffff_ffff_ffff) {
        Some(v) => Some(v as i64),
        None => None,
    }
}

/// Reads a 32-bit integer with a sign.
pub fn read_i32(s: &Vec<char>) -> (out: Option<i32>)
    ensures
        match out {
            Some(v) => parse_i32(s@) == Some(v as int),
            None => parse_i32(s@) is None,
        },
{
    match parse_bounded(s, true, -0x8000_0000, 0x7fff_ffff) {
        Some(v) => Some(v as i32),
        None => None,
    }
}

/// Reads a 64-bit integer without a sign.
pub fn read_u64(s: &Vec<char>) -> (out: Option<u64>)
    ensures
        match out {
            Some(v) => parse_u64(s@) == Some(v as int),
            None => parse_u64(s@) is None,
        },
{
    match parse_bounded(s, false, 0, 0xffff_ffff_ffff_ffff) {
        Some(v) => Some(v as u64),
        None => None,
    }
}

// ---------------------------------------------------------------------------
// Letter case
// ---------------------------------------------------------------------------

/// The lower-case form that `str::to_lowercase` gives a text.
pub uninterp spec fn lowercase(s: Seq<char>) -> Seq<char>;

/// Calls `str::to_lowercase`, which maps each character by the Unicode
/// property `Lowercase`; the result is named, not spelled out.
#[verifier::external_body]
pub(crate) fn to_lowercase(s: &str) -> (out: String)
    ensures
        out@ == lowercase(s@),
{
    s.to_lowercase()
}

/// The lower-case form of `s`.
pub fn lowercase_chars(s: &Vec<char>) -> (out: Vec<char>)
    ensures
        out@ == lowercase(s@),
{
    let text = string_of(s);
    let lower = to_lowercase(text.as_str());
    chars_of(lower.as_str())
}


// ---------------------------------------------------------------------------
// Patterns of several characters
// ---------------------------------------------------------------------------

/// The pieces of `s` between the occurrences of `pat` from position `i` on,
/// where the current piece began at `start`.
pub open spec fn split_str_scan(s: Seq<char>, pat: Seq<char>, start: int, i: int) -> Seq<
    Seq<char>,
>
    decreases s.len() - i,
{
    if i < 0 || pat.len() == 0 || i + pat.len() > s.len() {
        seq![s.subrange(start, s.len() as int)]
    } else if occurs_at(s, pat, i) {
        seq![s.subrange(start, i)] + split_str_scan(s, pat, i + pat.len(), i + pat.len())
    } else {
        split_str_scan(s, pat, start, i + 1)
    }
}

/// The pieces of `s` between the occurrences of the non-empty text `pat`,
/// taken from the left without overlap.
pub open spec fn split_str(s: Seq<char>, pat: Seq<char>) -> Seq<Seq<char>> {
    split_str_scan(s, pat, 0, 0)
}

/// The pieces of `s` between the occurrences of `pat`.
pub fn split_str_chars(s: &Vec<char>, pat: &Vec<char>) -> (out: Vec<Vec<char>>)
    requires
        pat.len() > 0,
    ensures
        rows(out@) == split_str(s@, pat@),
{
    let mut out: Vec<Vec<char>> = Vec::new();
    let mut start: usize = 0;
    let mut i: usize = 0;
    assert(rows(out@) =~= Seq::<Seq<char>>::empty());
    while pat.len() <= s.len() && i <= s.len() - pat.len()
        invariant
            start <= i <= s.len(),
            pat.len() > 0,
            rows(out@) + split_str_scan(s@, pat@, start as int, i as int) == split_str(s@, pat@),
        decreases s.len() - i,
    {
        if matches_at(s, pat, i) {
            let ghost before = out@;
            let piece = slice_of(s, start, i);
            out.push(piece);
            let next: usize = i + pat.len();
            assert(rows(out@) =~= rows(before).push(piece@));
            assert(rows(before).push(piece@) + split_str_scan(s@, pat@, next as int, next as int)
                =~= rows(before) + (seq![piece@] + split_str_scan(
                s@,
                pat@,
                next as int,
                next as int,
            )));
            start = next;
            i = next;
        } else {
            i += 1;
        }
    }
    let ghost before = out@;
    let piece = slice_of(s, start, s.len());
    out.push(piece);
    assert(rows(out@) =~= rows(before) + seq![piece@]);
    out
}

/// `s` without the occurrences of `pat`, from position `i` on.
pub open spec fn remove_scan(s: Seq<char>, pat: Seq<char>, i: int) -> Seq<char>
    decreases s.len() - i,
{
    if i < 0 || i >= s.len() {
        Seq::empty()
    } else if pat.len() > 0 && occurs_at(s, pat, i) {
        remove_scan(s, pat, i + pat.len())
    } else {
        seq![s[i]] + remove_scan(s, pat, i + 1)
    }
}

/// `s` without the occurrences of the non-empty text `pat`, taken from the
/// left without overlap.
pub open spec fn remove_all(s: Seq<char>, pat: Seq<char>) -> Seq<char> {
    remove_scan(s, pat, 0)
}

/// `s` without the occurrences of `pat`.
pub fn remove_all_chars(s: &Vec<char>, pat: &Vec<char>) -> (out: Vec<char>)
    requires
        pat.len() > 0,
    ensures
        out@ == remove_all(s@, pat@),
{
    let mut out: Vec<char> = Vec::new();
    let mut i: usize = 0;
    while i < s.len()
        invariant
            i <= s.len(),
            pat.len() > 0,
            out@ + remove_scan(s@, pat@, i as int) == remove_all(s@, pat@),
        decreases s.len() - i,
    {
        if matches_at(s, pat, i) {
            i = i + pat.len();
        } else {
            let ghost before = out@;
            out.push(s[i]);
            assert(before.push(s@[i as int]) + remove_scan(s@, pat@, i + 1) =~= before + (
                seq![s@[i as int]] + remove_scan(s@, pat@, i + 1)));
            i += 1;
        }
    }
    assert(out@ + Seq::<char>::empty() =~= out@);
    out
}

/// The last position before `end` at which `c` stands.
pub open spec fn rfind_char(s: Seq<char>, c: char, end: int) -> Option<int>
    decreases end,
{
    if end <= 0 || end > s.len() {
        None
    } else if s[end - 1] == c {
        Some(end - 1)
    } else {
        rfind_char(s, c, end - 1)
    }
}

/// What stands before position `end` of `s`, cut from the right at `sep`
/// into at most `limit` pieces: the last piece comes first, and the piece
/// that comes last is what was left uncut.
pub open spec fn rsplitn_scan(s: Seq<char>, sep: char, limit: nat, end: int) -> Seq<Seq<char>>
    decreases limit,
{
    if limit == 0 {
        Seq::empty()
    } else if limit == 1 {
        seq![s.take(end)]
    } else {
        match rfind_char(s, sep, end) {
            Some(i) => seq![s.subrange(i + 1, end)] + rsplitn_scan(s, sep, (limit - 1) as nat, i),
            None => seq![s.take(end)],
        }
    }
}

/// `s` cut from the right at `sep` into at most `limit` pieces.
pub open spec fn rsplitn(s: Seq<char>, sep: char, limit: nat) -> Seq<Seq<char>> {
    rsplitn_scan(s, sep, limit, s.len() as int)
}

/// The last position before `end` at which `c` stands.
pub fn rfind_char_in(s: &Vec<char>, c: char, end: usize) -> (found: Option<usize>)
    requires
        end <= s.len(),
    ensures
        match found {
            Some(i) => rfind_char(s@, c, end as int) == Some(i as int) && i < end,
            None => rfind_char(s@, c, end as int) is None,
        },
{
    let mut e: usize = end;
    while e > 0
        invariant
            e <= end <= s.len(),
            rfind_char(s@, c, end as int) == rfind_char(s@, c, e as int),
        decreases e,
    {
        if s[e - 1] == c {
            return Some(e - 1);
        }
        e -= 1;
    }
    None
}

/// `s` cut from the right at `sep` into at most `limit` pieces.
pub fn rsplitn_chars(s: &Vec<char>, sep: char, limit: usize) -> (out: Vec<Vec<char>>)
    ensures
        rows(out@) == rsplitn(s@, sep, limit as nat),
{
    let mut out: Vec<Vec<char>> = Vec::new();
    let mut end: usize = s.len();
    let mut left: usize = limit;
    assert(rows(out@) =~= Seq::<Seq<char>>::empty());
    loop
        invariant
            end <= s.len(),
            left <= limit,
            rows(out@) + rsplitn_scan(s@, sep, left as nat, end as int) == rsplitn(
                s@,
                sep,
                limit as nat,
            ),
        decreases left,
    {
        if left == 0 {
            assert(rows(out@) + Seq::<Seq<char>>::empty() =~= rows(out@));
            return out;
        }
        let ghost before = out@;
        let cut = if left == 1 {
            None
        } else {
            rfind_char_in(s, sep, end)
        };
        match cut {
            Some(i) => {
                let piece = slice_of(s, i + 1, end);
                out.push(piece);
                assert(rows(out@) =~= rows(before).push(piece@));
                assert(rows(before).push(piece@) + rsplitn_scan(
                    s@,
                    sep,
                    (left - 1) as nat,
                    i as int,
                ) =~= rows(before) + (seq![piece@] + rsplitn_scan(
                    s@,
                    sep,
                    (left - 1) as nat,
                    i as int,
                )));
                end = i;
                left -= 1;
            },
            None => {
                let piece = slice_of(s, 0, end);
                assert(piece@ == s@.take(end as int));
                out.push(piece);
                assert(rows(out@) =~= rows(before) + seq![piece@]);
                return out;
            },
        }
    }
}

/// The texts of `list` from position `i` on, each after a space.
pub open spec fn join_scan(list: Seq<Seq<char>>, i: int) -> Seq<char>
    decreases list.len() - i,
{
    if i < 0 || i >= list.len() {
        Seq::empty()
    } else {
        seq![' '] + list[i] + join_scan(list, i + 1)
    }
}

/// The texts of `list` with one space between each two.
pub open spec fn join_spaced(list: Seq<Seq<char>>) -> Seq<char> {
    if list.len() == 0 {
        Seq::empty()
    } else {
        list[0] + join_scan(list, 1)
    }
}

/// The texts of `list`, from position `from` on, with one space between
/// each two.
pub fn join_chars(list: &Vec<Vec<char>>, from: usize) -> (out: Vec<char>)
    requires
        from <= list.len(),
    ensures
        out@ == join_spaced(rows(list@).skip(from as int)),
{
    let mut out: Vec<char> = Vec::new();
    let ghost rest = rows(list@).skip(from as int);
    if from == list.len() {
        return out;
    }
    append_chars(&mut out, &list[from]);
    let mut i: usize = from + 1;
    assert(out@ =~= rest[0]);
    while i < list.len()
        invariant
            from < i <= list.len(),
            rest == rows(list@).skip(from as int),
            out@ + join_scan(rest, i - from) == join_spaced(rest),
        decreases list.len() - i,
    {
        let ghost before = out@;
        out.push(' ');
        append_chars(&mut out, &list[i]);
        assert(rest[i - from] == list@[i as int]@);
        assert(out@ + join_scan(rest, i - from + 1) =~= before + (seq![' '] + rest[i - from]
            + join_scan(rest, i - from + 1)));
        i += 1;
    }
    assert(out@ + Seq::<char>::empty() =~= out@);
    out
}

} // verus!
