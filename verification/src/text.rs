//! Character-sequence utilities shared by the rest of the library: trimming,
//! searching, decimal formatting and parsing, and Unix path joining.
//!
//! Every executable function here is specified over `Seq<char>`, the view of
//! `String` and `&str`.
use vstd::prelude::*;

verus! {

// ---------------------------------------------------------------------------
// Specifications
// ---------------------------------------------------------------------------

/// The Unicode `White_Space` property, which `char::is_whitespace` and
/// `str::trim` use.
pub open spec fn is_white_space(c: char) -> bool {
    let u = c as u32;
    ||| (0x9 <= u && u <= 0xd)
    ||| u == 0x20
    ||| u == 0x85
    ||| u == 0xa0
    ||| u == 0x1680
    ||| (0x2000 <= u && u <= 0x200a)
    ||| u == 0x2028
    ||| u == 0x2029
    ||| u == 0x202f
    ||| u == 0x205f
    ||| u == 0x3000
}

/// `s` without its leading white space.
pub open spec fn trim_start(s: Seq<char>) -> Seq<char>
    decreases s.len(),
{
    if s.len() > 0 && is_white_space(s[0]) {
        trim_start(s.drop_first())
    } else {
        s
    }
}

/// `s` without its trailing white space.
pub open spec fn trim_end(s: Seq<char>) -> Seq<char>
    decreases s.len(),
{
    if s.len() > 0 && is_white_space(s.last()) {
        trim_end(s.drop_last())
    } else {
        s
    }
}

/// `s` without leading and trailing white space (what `str::trim` returns).
pub open spec fn trim(s: Seq<char>) -> Seq<char> {
    trim_end(trim_start(s))
}

/// `p` occurs in `s` at position `i`.
pub open spec fn occurs_at(s: Seq<char>, p: Seq<char>, i: int) -> bool {
    0 <= i && i + p.len() <= s.len() && s.subrange(i, i + p.len()) == p
}

/// `p` occurs somewhere in `s`.
pub open spec fn contains(s: Seq<char>, p: Seq<char>) -> bool {
    exists|i: int| occurs_at(s, p, i)
}

/// `s` begins with `p`.
pub open spec fn starts_with(s: Seq<char>, p: Seq<char>) -> bool {
    p.len() <= s.len() && s.subrange(0, p.len() as int) == p
}

/// `s` ends with `p`.
pub open spec fn ends_with(s: Seq<char>, p: Seq<char>) -> bool {
    p.len() <= s.len() && s.subrange(s.len() - p.len(), s.len() as int) == p
}

/// The character `c` occurs in `s`.
pub open spec fn has_char(s: Seq<char>, c: char) -> bool {
    exists|i: int| 0 <= i < s.len() && s[i] == c
}

/// The ASCII digit for `d` (0 to 9).
pub open spec fn digit_char(d: nat) -> char {
    if d == 0 {
        '0'
    } else if d == 1 {
        '1'
    } else if d == 2 {
        '2'
    } else if d == 3 {
        '3'
    } else if d == 4 {
        '4'
    } else if d == 5 {
        '5'
    } else if d == 6 {
        '6'
    } else if d == 7 {
        '7'
    } else if d == 8 {
        '8'
    } else {
        '9'
    }
}

/// The decimal digits of `n`, without leading zeros (`"0"` for zero).
pub open spec fn nat_digits(n: nat) -> Seq<char>
    decreases n,
{
    if n < 10 {
        seq![digit_char(n)]
    } else {
        nat_digits(n / 10).push(digit_char(n % 10))
    }
}

/// The decimal form of an integer, as `Display` writes it.
pub open spec fn int_decimal(i: int) -> Seq<char> {
    if i < 0 {
        seq!['-'] + nat_digits((-i) as nat)
    } else {
        nat_digits(i as nat)
    }
}

/// `n` written in decimal and padded on the left with zeros to at least three
/// characters (what `format!("{n:03}")` writes).
pub open spec fn zero_padded3(n: nat) -> Seq<char> {
    let d = nat_digits(n);
    if d.len() >= 3 {
        d
    } else {
        Seq::new((3 - d.len()) as nat, |i: int| '0') + d
    }
}

/// `c` is an ASCII decimal digit.
pub open spec fn is_digit(c: char) -> bool {
    '0' <= c && c <= '9'
}

/// The value of an ASCII digit.
pub open spec fn digit_value(c: char) -> nat {
    ((c as u32) - ('0' as u32)) as nat
}

/// Every character of `s` is an ASCII digit.
pub open spec fn all_digits(s: Seq<char>) -> bool {
    forall|i: int| 0 <= i < s.len() ==> is_digit(s[i])
}

/// The number that the digits `s` denote.
pub open spec fn digits_value(s: Seq<char>) -> nat
    decreases s.len(),
{
    if s.len() == 0 {
        0
    } else {
        digits_value(s.drop_last()) * 10 + digit_value(s.last())
    }
}

/// What `s.parse::<u32>()` accepts: an optional `+` followed by at least one
/// ASCII digit, with a value that fits in `u32`.
pub open spec fn parse_u32(s: Seq<char>) -> Option<u32> {
    let d = if s.len() > 0 && s[0] == '+' {
        s.drop_first()
    } else {
        s
    };
    if d.len() == 0 || !all_digits(d) || digits_value(d) > u32::MAX {
        None
    } else {
        Some(digits_value(d) as u32)
    }
}

/// Unix path joining, as `Path::join` does it: an absolute `rel` replaces
/// `base`; otherwise a `/` is inserted unless `base` is empty or already ends
/// with one.
pub open spec fn join_path(base: Seq<char>, rel: Seq<char>) -> Seq<char> {
    if rel.len() > 0 && rel[0] == '/' {
        rel
    } else if base.len() == 0 || base.last() == '/' {
        base + rel
    } else {
        base + seq!['/'] + rel
    }
}

/// `s` with every `from` replaced by `to`.
pub open spec fn replace_char(s: Seq<char>, from: char, to: Seq<char>) -> Seq<char>
    decreases s.len(),
{
    if s.len() == 0 {
        s
    } else {
        let head = if s[0] == from {
            to
        } else {
            seq![s[0]]
        };
        head + replace_char(s.drop_first(), from, to)
    }
}


/// The number of characters before the first `\n` of `s` (all of them when
/// there is none).
pub open spec fn line_len(s: Seq<char>) -> nat
    decreases s.len(),
{
    if s.len() == 0 || s[0] == '\n' {
        0
    } else {
        1 + line_len(s.drop_first())
    }
}

/// `raw` without one trailing `\r`.
pub open spec fn strip_cr(raw: Seq<char>) -> Seq<char> {
    if raw.len() > 0 && raw.last() == '\r' {
        raw.drop_last()
    } else {
        raw
    }
}

/// The lines of `s` as `str::lines` yields them: split at `\n`, a `\r` just
/// before a `\n` removed, and no empty line after a final line ending.
pub open spec fn lines(s: Seq<char>) -> Seq<Seq<char>>
    decreases s.len(),
{
    if s.len() == 0 {
        seq![]
    } else {
        let k = line_len(s);
        if k < s.len() {
            seq![strip_cr(s.subrange(0, k as int))] + lines(s.subrange(k as int + 1, s.len() as int))
        } else {
            seq![s]
        }
    }
}


/// The number of characters of `s` before the first `c` (all of them when
/// there is none).
pub open spec fn prefix_len(s: Seq<char>, c: char) -> nat
    decreases s.len(),
{
    if s.len() == 0 || s[0] == c {
        0
    } else {
        1 + prefix_len(s.drop_first(), c)
    }
}

/// `str::split_once` with a `char` pattern: the text before and after the
/// first `c`, or nothing when `c` does not occur.
pub open spec fn split_once(s: Seq<char>, c: char) -> Option<(Seq<char>, Seq<char>)> {
    let k = prefix_len(s, c);
    if k < s.len() {
        Some((s.subrange(0, k as int), s.subrange(k as int + 1, s.len() as int)))
    } else {
        None
    }
}


/// `i` is the first position at which `p` occurs in `s`.
pub open spec fn is_first_occurrence(s: Seq<char>, p: Seq<char>, i: int) -> bool {
    occurs_at(s, p, i) && forall|j: int| 0 <= j < i ==> !occurs_at(s, p, j)
}

/// `s` with its first occurrence of `p` replaced by `w` (`str::replacen`
/// with a count of one); `s` itself when `p` does not occur.
pub open spec fn replace_first(s: Seq<char>, p: Seq<char>, w: Seq<char>) -> Seq<char> {
    if contains(s, p) {
        let i = choose|i: int| is_first_occurrence(s, p, i);
        s.subrange(0, i) + w + s.subrange(i + p.len(), s.len() as int)
    } else {
        s
    }
}

/// The first line of `s` (`s.lines().next().unwrap_or("")`).
pub open spec fn first_line(s: Seq<char>) -> Seq<char> {
    if lines(s).len() > 0 {
        lines(s)[0]
    } else {
        Seq::empty()
    }
}

// ---------------------------------------------------------------------------
// Trusted item of std
// ---------------------------------------------------------------------------

/// `String::push`: appends one character at the end of the string, which is
/// all that std documents of it.
#[verifier::external_body]
pub fn push_char(s: &mut String, c: char)
    ensures
        final(s)@ == old(s)@.push(c),
{
    s.push(c);
}

// ---------------------------------------------------------------------------
// Conversions
// ---------------------------------------------------------------------------

/// The characters of `s`.
pub fn chars_of(s: &str) -> (v: Vec<char>)
    ensures
        v@ == s@,
{
    let n = s.unicode_len();
    let mut v: Vec<char> = Vec::new();
    let mut i: usize = 0;
    while i < n
        invariant
            n == s@.len(),
            i <= n,
            v@ == s@.subrange(0, i as int),
        decreases n - i,
    {
        let c = s.get_char(i);
        v.push(c);
        i = i + 1;
        assert(v@ =~= s@.subrange(0, i as int));
    }
    assert(v@ =~= s@);
    v
}

/// The string whose characters are `v`.
pub fn string_of(v: &Vec<char>) -> (s: String)
    ensures
        s@ == v@,
{
    let mut s = String::new();
    let mut i: usize = 0;
    while i < v.len()
        invariant
            i <= v.len(),
            s@ == v@.subrange(0, i as int),
        decreases v.len() - i,
    {
        push_char(&mut s, v[i]);
        i = i + 1;
        assert(s@ =~= v@.subrange(0, i as int));
    }
    assert(s@ =~= v@);
    s
}

/// An owned copy of `s`.
pub fn owned(s: &str) -> (r: String)
    ensures
        r@ == s@,
{
    String::from_str(s)
}

/// `a` followed by `b`.
pub fn concat(a: &str, b: &str) -> (r: String)
    ensures
        r@ == a@ + b@,
{
    let mut r = String::from_str(a);
    r.append(b);
    r
}

/// The strings are equal character by character.
pub fn str_eq(a: &str, b: &str) -> (r: bool)
    ensures
        r == (a@ == b@),
{
    let x = String::from_str(a);
    let y = String::from_str(b);
    x == y
}

// ---------------------------------------------------------------------------
// Trimming
// ---------------------------------------------------------------------------

/// Whether `c` has the `White_Space` property.
pub fn is_whitespace(c: char) -> (r: bool)
    ensures
        r == is_white_space(c),
{
    let u = c as u32;
    (0x9 <= u && u <= 0xd) || u == 0x20 || u == 0x85 || u == 0xa0 || u == 0x1680 || (0x2000
        <= u && u <= 0x200a) || u == 0x2028 || u == 0x2029 || u == 0x202f || u == 0x205f || u
        == 0x3000
}

proof fn lemma_trim_start_skip(s: Seq<char>, i: int)
    requires
        0 <= i <= s.len(),
        forall|j: int| 0 <= j < i ==> is_white_space(s[j]),
    ensures
        trim_start(s) == trim_start(s.subrange(i, s.len() as int)),
    decreases i,
{
    if i > 0 {
        assert(s.drop_first() =~= s.subrange(1, s.len() as int));
        let t = s.drop_first();
        assert forall|j: int| 0 <= j < i - 1 implies is_white_space(t[j]) by {
            assert(t[j] == s[j + 1]);
        }
        lemma_trim_start_skip(t, i - 1);
        assert(t.subrange(i - 1, t.len() as int) =~= s.subrange(i, s.len() as int));
    } else {
        assert(s.subrange(0, s.len() as int) =~= s);
    }
}

proof fn lemma_trim_end_cut(s: Seq<char>, k: int)
    requires
        0 <= k <= s.len(),
        forall|j: int| k <= j < s.len() ==> is_white_space(s[j]),
    ensures
        trim_end(s) == trim_end(s.subrange(0, k)),
    decreases s.len() - k,
{
    if k < s.len() {
        let t = s.drop_last();
        assert forall|j: int| k <= j < t.len() implies is_white_space(t[j]) by {
            assert(t[j] == s[j]);
        }
        lemma_trim_end_cut(t, k);
        assert(t.subrange(0, k) =~= s.subrange(0, k));
    } else {
        assert(s.subrange(0, k) =~= s);
    }
}

/// The characters of `v` without leading and trailing white space, as a
/// range `[start, end)` of `v`.
pub fn trim_bounds(v: &Vec<char>) -> (r: (usize, usize))
    ensures
        r.0 <= r.1 <= v.len(),
        v@.subrange(r.0 as int, r.1 as int) == trim(v@),
{
    let n = v.len();
    let mut i: usize = 0;
    while i < n && is_whitespace(v[i])
        invariant
            i <= n,
            n == v.len(),
            forall|j: int| 0 <= j < i ==> is_white_space(v@[j]),
        decreases n - i,
    {
        i = i + 1;
    }
    proof {
        lemma_trim_start_skip(v@, i as int);
        let t = v@.subrange(i as int, n as int);
        if t.len() > 0 {
            assert(t[0] == v@[i as int]);
        }
        assert(trim_start(v@) == t);
    }
    let mut k: usize = n;
    while k > i && is_whitespace(v[k - 1])
        invariant
            i <= k <= n,
            n == v.len(),
            forall|j: int| k <= j < n ==> is_white_space(v@[j]),
        decreases k,
    {
        k = k - 1;
    }
    proof {
        let t = v@.subrange(i as int, n as int);
        assert forall|j: int| (k - i) <= j < t.len() implies is_white_space(t[j]) by {
            assert(t[j] == v@[j + i]);
        }
        lemma_trim_end_cut(t, k - i);
        let u = t.subrange(0, k - i);
        assert(u =~= v@.subrange(i as int, k as int));
        if u.len() > 0 {
            assert(u.last() == v@[k - 1]);
        }
        assert(trim_end(u) == u);
    }
    (i, k)
}

/// `s` without leading and trailing white space (`str::trim`).
pub fn trim_str(s: &str) -> (r: String)
    ensures
        r@ == trim(s@),
{
    let v = chars_of(s);
    let (a, b) = trim_bounds(&v);
    String::from_str(s.substring_char(a, b))
}

// ---------------------------------------------------------------------------
// Searching
// ---------------------------------------------------------------------------

/// Whether `p` occurs in `s` at position `i`.
pub fn occurs_at_exec(s: &Vec<char>, p: &Vec<char>, i: usize) -> (r: bool)
    ensures
        r == occurs_at(s@, p@, i as int),
{
    if i > s.len() || p.len() > s.len() - i {
        return false;
    }
    let mut j: usize = 0;
    while j < p.len()
        invariant
            i + p.len() <= s.len(),
            j <= p.len(),
            forall|k: int| 0 <= k < j ==> s@[i + k] == p@[k],
        decreases p.len() - j,
    {
        if s[i + j] != p[j] {
            assert(s@.subrange(i as int, i + p.len())[j as int] != p@[j as int]);
            return false;
        }
        j = j + 1;
    }
    assert(s@.subrange(i as int, i + p@.len()) =~= p@);
    true
}

/// Whether `p` occurs in `s`.
pub fn contains_chars(s: &Vec<char>, p: &Vec<char>) -> (r: bool)
    ensures
        r == contains(s@, p@),
{
    if p.len() > s.len() {
        return false;
    }
    let last = s.len() - p.len();
    let mut i: usize = 0;
    while i <= last
        invariant_except_break
            i <= last,
            forall|k: int| 0 <= k < i ==> !occurs_at(s@, p@, k),
        invariant
            last == s.len() - p.len(),
        ensures
            forall|k: int| 0 <= k <= last ==> !occurs_at(s@, p@, k),
        decreases last - i,
    {
        if occurs_at_exec(s, p, i) {
            return true;
        }
        if i == last {
            break;
        }
        i = i + 1;
    }
    false
}

/// Whether `p` occurs in `s`.
pub fn contains_str(s: &str, p: &str) -> (r: bool)
    ensures
        r == contains(s@, p@),
{
    let a = chars_of(s);
    let b = chars_of(p);
    contains_chars(&a, &b)
}

/// Whether the character `c` occurs in `s`.
pub fn contains_char(s: &str, c: char) -> (r: bool)
    ensures
        r == has_char(s@, c),
{
    let v = chars_of(s);
    let mut i: usize = 0;
    while i < v.len()
        invariant
            v@ == s@,
            i <= v.len(),
            forall|k: int| 0 <= k < i ==> v@[k] != c,
        decreases v.len() - i,
    {
        if v[i] == c {
            return true;
        }
        i = i + 1;
    }
    false
}

/// Whether `s` begins with `p`.
pub fn starts_with_str(s: &str, p: &str) -> (r: bool)
    ensures
        r == starts_with(s@, p@),
{
    let a = chars_of(s);
    let b = chars_of(p);
    let r = occurs_at_exec(&a, &b, 0);
    proof {
        if r {
            assert(a@.subrange(0, b@.len() as int) == b@);
        }
    }
    r
}

/// Whether `s` ends with `p`.
pub fn ends_with_str(s: &str, p: &str) -> (r: bool)
    ensures
        r == ends_with(s@, p@),
{
    let a = chars_of(s);
    let b = chars_of(p);
    if b.len() > a.len() {
        return false;
    }
    occurs_at_exec(&a, &b, a.len() - b.len())
}

// ---------------------------------------------------------------------------
// Decimal formatting and parsing
// ---------------------------------------------------------------------------

/// The ASCII digit for `d`.
pub fn digit(d: u64) -> (c: char)
    requires
        d < 10,
    ensures
        c == digit_char(d as nat),
{
    if d == 0 {
        '0'
    } else if d == 1 {
        '1'
    } else if d == 2 {
        '2'
    } else if d == 3 {
        '3'
    } else if d == 4 {
        '4'
    } else if d == 5 {
        '5'
    } else if d == 6 {
        '6'
    } else if d == 7 {
        '7'
    } else if d == 8 {
        '8'
    } else {
        '9'
    }
}

/// Appends the decimal digits of `n` to `out`.
pub fn push_decimal(out: &mut String, n: u64)
    ensures
        final(out)@ == old(out)@ + nat_digits(n as nat),
    decreases n,
{
    if n >= 10 {
        push_decimal(out, n / 10);
    }
    push_char(out, digit(n % 10));
    assert(final(out)@ =~= old(out)@ + nat_digits(n as nat));
}

/// `n` in decimal.
pub fn fmt_u64(n: u64) -> (s: String)
    ensures
        s@ == nat_digits(n as nat),
{
    let mut s = String::new();
    push_decimal(&mut s, n);
    assert(s@ =~= nat_digits(n as nat));
    s
}

/// `i` in decimal, as `Display` writes an `i64`.
pub fn fmt_i64(i: i64) -> (s: String)
    ensures
        s@ == int_decimal(i as int),
{
    if i < 0 {
        let m: u64 = ((-(i + 1)) as u64) + 1;
        let mut s = String::new();
        push_char(&mut s, '-');
        push_decimal(&mut s, m);
        assert(s@ =~= int_decimal(i as int));
        s
    } else {
        fmt_u64(i as u64)
    }
}

/// `n` in decimal, padded with zeros to at least three characters.
pub fn fmt_zero_padded3(n: u32) -> (s: String)
    ensures
        s@ == zero_padded3(n as nat),
{
    let mut s = String::new();
    if n < 10 {
        push_char(&mut s, '0');
        push_char(&mut s, '0');
    } else if n < 100 {
        push_char(&mut s, '0');
    }
    push_decimal(&mut s, n as u64);
    proof {
        lemma_nat_digits_len(n as nat);
    }
    assert(s@ =~= zero_padded3(n as nat));
    s
}

/// The number of decimal digits of small numbers.
pub proof fn lemma_nat_digits_len(n: nat)
    ensures
        n < 10 ==> nat_digits(n).len() == 1,
        10 <= n < 100 ==> nat_digits(n).len() == 2,
        n >= 100 ==> nat_digits(n).len() >= 3,
        nat_digits(n).len() >= 1,
    decreases n,
{
    if n >= 10 {
        lemma_nat_digits_len(n / 10);
    }
}

/// The value of an ASCII digit, computed.
fn digit_val_exec(c: char) -> (d: u64)
    requires
        is_digit(c),
    ensures
        d == digit_value(c),
        d < 10,
{
    (c as u32 - '0' as u32) as u64
}

proof fn lemma_digits_value_push(s: Seq<char>, c: char)
    ensures
        digits_value(s.push(c)) == digits_value(s) * 10 + digit_value(c),
{
    assert(s.push(c).drop_last() =~= s);
}

/// Parses `s` as a `u32` the way `str::parse::<u32>` does.
pub fn parse_u32_chars(s: &Vec<char>) -> (r: Option<u32>)
    ensures
        r == parse_u32(s@),
{
    let n = s.len();
    let start: usize = if n > 0 && s[0] == '+' {
        1
    } else {
        0
    };
    let ghost d = if s@.len() > 0 && s@[0] == '+' {
        s@.drop_first()
    } else {
        s@
    };
    assert(d =~= s@.subrange(start as int, n as int));
    if start >= n {
        return None;
    }
    let cap: u64 = 0x1_0000_0000;
    let mut acc: u64 = 0;
    let mut i: usize = start;
    while i < n
        invariant
            start <= i <= n,
            n == s.len(),
            d == s@.subrange(start as int, n as int),
            d == (if s@.len() > 0 && s@[0] == '+' {
                s@.drop_first()
            } else {
                s@
            }),
            all_digits(s@.subrange(start as int, i as int)),
            acc == (if digits_value(s@.subrange(start as int, i as int)) > u32::MAX {
                cap as nat
            } else {
                digits_value(s@.subrange(start as int, i as int))
            }),
            cap == 0x1_0000_0000,
        decreases n - i,
    {
        let c = s[i];
        if !('0' <= c && c <= '9') {
            proof {
                assert(d[i - start] == c);
                assert(!is_digit(d[i - start]));
                assert(!all_digits(d));
            }
            return None;
        }
        let dv = digit_val_exec(c);
        proof {
            let p = s@.subrange(start as int, i as int);
            assert(s@.subrange(start as int, i + 1) =~= p.push(c));
            lemma_digits_value_push(p, c);
        }
        if acc == cap {
            acc = cap;
        } else {
            let next = acc * 10 + dv;
            if next > 0xffff_ffff {
                acc = cap;
            } else {
                acc = next;
            }
        }
        i = i + 1;
    }
    if acc == cap {
        None
    } else {
        Some(acc as u32)
    }
}


// ---------------------------------------------------------------------------
// Lines
// ---------------------------------------------------------------------------

proof fn lemma_line_len_bound(s: Seq<char>)
    ensures
        line_len(s) <= s.len(),
        line_len(s) < s.len() ==> s[line_len(s) as int] == '\n',
        forall|j: int| 0 <= j < line_len(s) ==> s[j] != '\n',
    decreases s.len(),
{
    if s.len() > 0 && s[0] != '\n' {
        lemma_line_len_bound(s.drop_first());
        assert forall|j: int| 0 <= j < line_len(s) implies s[j] != '\n' by {
            if j > 0 {
                assert(s[j] == s.drop_first()[j - 1]);
            }
        }
    }
}

proof fn lemma_line_len_scan(s: Seq<char>, j: int)
    requires
        0 <= j <= s.len(),
        forall|k: int| 0 <= k < j ==> s[k] != '\n',
        j == s.len() || s[j] == '\n',
    ensures
        line_len(s) == j,
    decreases j,
{
    if j > 0 {
        let t = s.drop_first();
        assert forall|k: int| 0 <= k < j - 1 implies t[k] != '\n' by {
            assert(t[k] == s[k + 1]);
        }
        if j - 1 < t.len() {
            assert(t[j - 1] == s[j]);
        }
        lemma_line_len_scan(t, j - 1);
    }
}

/// The lines of `s` (`str::lines`).
pub fn lines_of(s: &str) -> (r: Vec<String>)
    ensures
        r@.map_values(|x: String| x@) == lines(s@),
{
    let v = chars_of(s);
    let n = v.len();
    let mut r: Vec<String> = Vec::new();
    let mut pos: usize = 0;
    proof {
        assert(v@.subrange(0, n as int) =~= s@);
        assert(r@.map_values(|x: String| x@) + lines(s@) =~= lines(s@));
    }
    while pos < n
        invariant
            v@ == s@,
            n == v.len(),
            pos <= n,
            r@.map_values(|x: String| x@) + lines(v@.subrange(pos as int, n as int)) == lines(s@),
        decreases n - pos,
    {
        let ghost t = v@.subrange(pos as int, n as int);
        let mut j: usize = pos;
        while j < n && v[j] != '\n'
            invariant
                pos <= j <= n,
                n == v.len(),
                forall|k: int| pos <= k < j ==> v@[k] != '\n',
            decreases n - j,
        {
            j = j + 1;
        }
        proof {
            assert forall|k: int| 0 <= k < j - pos implies t[k] != '\n' by {
                assert(t[k] == v@[pos + k]);
            }
            if j < n {
                assert(t[j - pos] == v@[j as int]);
            }
            lemma_line_len_scan(t, j - pos);
        }
        let mut line: Vec<char> = Vec::new();
        let mut k: usize = pos;
        while k < j
            invariant
                pos <= k <= j <= n,
                n == v.len(),
                line@ == v@.subrange(pos as int, k as int),
            decreases j - k,
        {
            line.push(v[k]);
            k = k + 1;
            assert(line@ =~= v@.subrange(pos as int, k as int));
        }
        let ghost raw = line@;
        if j < n && line.len() > 0 && line[line.len() - 1] == '\r' {
            line.pop();
        }
        let ghost before = r@;
        r.push(string_of(&line));
        proof {
            assert(raw =~= t.subrange(0, (j - pos) as int));
            assert(r@.map_values(|x: String| x@) =~= before.map_values(|x: String| x@).push(line@));
            if j < n {
                assert(line@ =~= strip_cr(raw));
                assert(t.subrange((j - pos) + 1, t.len() as int) =~= v@.subrange(j + 1, n as int));
                assert(lines(t) == seq![line@] + lines(v@.subrange(j + 1, n as int)));
            } else {
                assert(raw =~= t);
                assert(lines(t) == seq![line@]);
                assert(v@.subrange(n as int, n as int) =~= Seq::<char>::empty());
            }
            assert(before.map_values(|x: String| x@).push(line@) =~= before.map_values(|x: String| x@) + seq![line@]);
        }
        if j < n {
            pos = j + 1;
        } else {
            pos = n;
        }
    }
    proof {
        assert(v@.subrange(n as int, n as int) =~= Seq::<char>::empty());
        assert(r@.map_values(|x: String| x@) + Seq::<Seq<char>>::empty() =~= r@.map_values(|x: String| x@));
    }
    r
}


/// `prefix_len` never exceeds the length.
pub proof fn lemma_prefix_len_bound(s: Seq<char>, c: char)
    ensures
        prefix_len(s, c) <= s.len(),
    decreases s.len(),
{
    if s.len() > 0 && s[0] != c {
        lemma_prefix_len_bound(s.drop_first(), c);
    }
}

proof fn lemma_prefix_len_scan(s: Seq<char>, c: char, j: int)
    requires
        0 <= j <= s.len(),
        forall|k: int| 0 <= k < j ==> s[k] != c,
        j == s.len() || s[j] == c,
    ensures
        prefix_len(s, c) == j,
    decreases j,
{
    if j > 0 {
        let t = s.drop_first();
        assert forall|k: int| 0 <= k < j - 1 implies t[k] != c by {
            assert(t[k] == s[k + 1]);
        }
        if j - 1 < t.len() {
            assert(t[j - 1] == s[j]);
        }
        lemma_prefix_len_scan(t, c, j - 1);
    }
}

/// `s.split_once(c)`.
pub fn split_once_char(s: &str, c: char) -> (r: Option<(String, String)>)
    ensures
        match r {
            Some((a, b)) => split_once(s@, c) == Some((a@, b@)),
            None => split_once(s@, c) is None,
        },
{
    let v = chars_of(s);
    let n = v.len();
    let mut j: usize = 0;
    while j < n && v[j] != c
        invariant
            j <= n,
            n == v.len(),
            forall|k: int| 0 <= k < j ==> v@[k] != c,
        decreases n - j,
    {
        j = j + 1;
    }
    proof {
        lemma_prefix_len_scan(v@, c, j as int);
    }
    if j < n {
        let a = String::from_str(s.substring_char(0, j));
        let b = String::from_str(s.substring_char(j + 1, n));
        Some((a, b))
    } else {
        None
    }
}


/// `s` with its first occurrence of `p` replaced by `w`.
pub fn replace_first_str(s: &str, p: &str, w: &str) -> (r: String)
    requires
        p@.len() > 0,
    ensures
        r@ == replace_first(s@, p@, w@),
{
    let a = chars_of(s);
    let b = chars_of(p);
    if b.len() > a.len() {
        return owned(s);
    }
    let last = a.len() - b.len();
    let mut i: usize = 0;
    while i <= last
        invariant_except_break
            i <= last,
        invariant
            last == a.len() - b.len(),
            a@ == s@,
            b@ == p@,
            forall|k: int| 0 <= k < i ==> !occurs_at(s@, p@, k),
        ensures
            forall|k: int| 0 <= k <= last ==> !occurs_at(s@, p@, k),
        decreases last - i,
    {
        if occurs_at_exec(&a, &b, i) {
            proof {
                assert(is_first_occurrence(s@, p@, i as int));
                let c = choose|c: int| is_first_occurrence(s@, p@, c);
                if c < i {
                } else if c > i {
                }
                assert(c == i);
            }
            let mut r = String::from_str(s.substring_char(0, i));
            r.append(w);
            r.append(s.substring_char(i + b.len(), a.len()));
            return r;
        }
        if i == last {
            break;
        }
        i = i + 1;
    }
    owned(s)
}

/// The first line of `s`, or the empty string when `s` has no line.
pub fn first_line_str(s: &str) -> (r: String)
    ensures
        r@ == first_line(s@),
{
    let ls = lines_of(s);
    if ls.len() > 0 {
        proof {
            assert(ls@.map_values(|x: String| x@)[0] == ls@[0]@);
        }
        ls[0].clone()
    } else {
        String::new()
    }
}

// ---------------------------------------------------------------------------
// Paths and replacement
// ---------------------------------------------------------------------------

/// `rel` joined onto `base` (`Path::join` on Unix).
pub fn join(base: &str, rel: &str) -> (r: String)
    ensures
        r@ == join_path(base@, rel@),
{
    let b = chars_of(base);
    let r = chars_of(rel);
    if r.len() > 0 && r[0] == '/' {
        return owned(rel);
    }
    if b.len() == 0 || b[b.len() - 1] == '/' {
        concat(base, rel)
    } else {
        let mut out = owned(base);
        push_char(&mut out, '/');
        out.append(rel);
        out
    }
}

/// `s` with every `from` replaced by `to` (`str::replace` with a `char`
/// pattern).
pub fn replace_char_str(s: &str, from: char, to: &str) -> (r: String)
    ensures
        r@ == replace_char(s@, from, to@),
{
    let v = chars_of(s);
    let mut out = String::new();
    let mut i: usize = 0;
    assert(v@.subrange(0, v.len() as int) =~= s@);
    assert(out@ + replace_char(s@, from, to@) =~= replace_char(s@, from, to@));
    while i < v.len()
        invariant
            v@ == s@,
            i <= v.len(),
            out@ + replace_char(v@.subrange(i as int, v.len() as int), from, to@) == replace_char(
                s@,
                from,
                to@,
            ),
        decreases v.len() - i,
    {
        let ghost rest = v@.subrange(i as int, v.len() as int);
        assert(rest.drop_first() =~= v@.subrange(i + 1, v.len() as int));
        if v[i] == from {
            out.append(to);
        } else {
            push_char(&mut out, v[i]);
        }
        assert(out@ + replace_char(v@.subrange(i + 1, v.len() as int), from, to@) =~= replace_char(
            s@,
            from,
            to@,
        ));
        i = i + 1;
    }
    assert(v@.subrange(v.len() as int, v.len() as int) =~= Seq::<char>::empty());
    assert(out@ =~= replace_char(s@, from, to@));
    out
}

} // verus!
