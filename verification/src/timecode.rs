//! Reading a beat's time range: `mm:ss`, a hyphen or an en dash, `mm:ss`.
//!
//! Reading is lenient: a component that is not a plain decimal number counts
//! as zero, a number too large for 32 bits counts as the largest 32-bit
//! number, and a range without a separator ends at one second.

use vstd::prelude::*;
use vstd::string::*;

verus! {

/// The classes of character that the reader looks for.
#[derive(Debug, Clone, Copy, PartialEq, Eq, Structural)]
pub enum CharClass {
    /// White space, as Unicode defines it.
    Space,
    /// A hyphen or an en dash.
    Separator,
    /// A colon.
    Colon,
}

/// Whether `c` is Unicode white space.
pub open spec fn is_space(c: char) -> bool {
    let n = c as u32;
    ||| 0x09 <= n <= 0x0D
    ||| n == 0x20
    ||| n == 0x85
    ||| n == 0xA0
    ||| n == 0x1680
    ||| 0x2000 <= n <= 0x200A
    ||| n == 0x2028
    ||| n == 0x2029
    ||| n == 0x202F
    ||| n == 0x205F
    ||| n == 0x3000
}

/// Whether `c` parts the start of a range from its end: a hyphen or an en
/// dash.
pub open spec fn is_separator(c: char) -> bool {
    c == '-' || c == '\u{2013}'
}

/// Whether `c` is a decimal digit.
pub open spec fn is_digit(c: char) -> bool {
    '0' <= c <= '9'
}

/// The value of a decimal digit.
pub open spec fn digit_value(c: char) -> nat {
    (c as u32 - '0' as u32) as nat
}

/// Whether `c` belongs to `class`.
pub open spec fn in_class(class: CharClass, c: char) -> bool {
    match class {
        CharClass::Space => is_space(c),
        CharClass::Separator => is_separator(c),
        CharClass::Colon => c == ':',
    }
}

/// The first position at or after `from` whose character is in `class` (if
/// `want`) or outside it (if not); the length of `s` if there is none.
pub open spec fn find(s: Seq<char>, from: int, class: CharClass, want: bool) -> int
    decreases s.len() - from,
{
    if from < 0 || from >= s.len() {
        s.len() as int
    } else if in_class(class, s[from]) == want {
        from
    } else {
        find(s, from + 1, class, want)
    }
}

/// The end of `s[lo..hi]` once the white space at its end is dropped.
pub open spec fn trim_end(s: Seq<char>, lo: int, hi: int) -> int
    decreases hi - lo,
{
    if hi <= lo {
        lo
    } else if !is_space(s[hi - 1]) {
        hi
    } else {
        trim_end(s, lo, hi - 1)
    }
}

/// `s` without the white space at its two ends.
pub open spec fn trimmed(s: Seq<char>) -> Seq<char> {
    let lo = find(s, 0, CharClass::Space, false);
    s.subrange(lo, trim_end(s, lo, s.len() as int))
}

/// Whether `s` consists of decimal digits only.
pub open spec fn all_digits(s: Seq<char>) -> bool {
    forall|i: int| 0 <= i < s.len() ==> is_digit(#[trigger] s[i])
}

/// The number that the digits of `s` write in base ten.
pub open spec fn decimal(s: Seq<char>) -> nat
    decreases s.len(),
{
    if s.len() == 0 {
        0
    } else {
        decimal(s.drop_last()) * 10 + digit_value(s.last())
    }
}

/// The value of one component of a clock reading. A non-empty run of
/// digits has the value it writes, but no more than the largest 32-bit
/// number: a longer run stays large. Anything else, the empty component
/// included, is not a number and counts as zero.
pub open spec fn component_value(s: Seq<char>) -> nat {
    if s.len() > 0 && all_digits(s) {
        if decimal(s) <= u32::MAX {
            decimal(s)
        } else {
            u32::MAX as nat
        }
    } else {
        0
    }
}

/// The seconds that a `minutes:seconds` reading stands for. Minutes are what
/// precedes the first colon, seconds what lies between the first colon and
/// the second (or the end); a missing seconds part counts as zero, and
/// whatever follows a second colon is not read.
pub open spec fn clock_seconds(token: Seq<char>) -> nat {
    let first = find(token, 0, CharClass::Colon, true);
    let minutes = component_value(token.subrange(0, first));
    if first >= token.len() {
        minutes * 60
    } else {
        let second = find(token, first + 1, CharClass::Colon, true);
        minutes * 60 + component_value(token.subrange(first + 1, second))
    }
}

/// Start and end of a time range, in seconds. The text is trimmed and split
/// at its first separator; each side is trimmed and read as a clock reading.
/// Without a separator the whole text is the start and the end is one
/// second.
pub open spec fn time_range(s: Seq<char>) -> (nat, nat) {
    let text = trimmed(s);
    let cut = find(text, 0, CharClass::Separator, true);
    let start = clock_seconds(trimmed(text.subrange(0, cut)));
    if cut >= text.len() {
        (start, 1)
    } else {
        (start, clock_seconds(trimmed(text.subrange(cut + 1, text.len() as int))))
    }
}

/// The length of a time range in seconds: end less start, and zero where
/// the end does not lie after the start.
pub open spec fn range_seconds(s: Seq<char>) -> nat {
    let (start, end) = time_range(s);
    if end > start {
        (end - start) as nat
    } else {
        0
    }
}

/// The largest value a clock reading can have.
pub open spec fn max_clock_seconds() -> nat {
    (u32::MAX as nat) * 61
}

/// `find` returns a position between `from` and the end; nothing before it
/// from `from` on is a match, and the position itself is one unless it is
/// the end.
pub proof fn lemma_find(s: Seq<char>, from: int, class: CharClass, want: bool)
    requires
        0 <= from <= s.len(),
    ensures
        from <= find(s, from, class, want) <= s.len(),
        forall|i: int|
            from <= i < find(s, from, class, want) ==> in_class(class, #[trigger] s[i]) != want,
        find(s, from, class, want) < s.len() ==> in_class(
            class,
            s[find(s, from, class, want)],
        ) == want,
    decreases s.len() - from,
{
    if from < s.len() && in_class(class, s[from]) != want {
        lemma_find(s, from + 1, class, want);
    }
}

/// `trim_end` returns a position between `lo` and `hi`; everything from it
/// to `hi` is white space, and what precedes it is not, unless it is `lo`.
pub proof fn lemma_trim_end(s: Seq<char>, lo: int, hi: int)
    requires
        0 <= lo <= hi <= s.len(),
    ensures
        lo <= trim_end(s, lo, hi) <= hi,
        forall|i: int| trim_end(s, lo, hi) <= i < hi ==> is_space(#[trigger] s[i]),
        trim_end(s, lo, hi) > lo ==> !is_space(s[trim_end(s, lo, hi) - 1]),
    decreases hi - lo,
{
    if hi > lo && is_space(s[hi - 1]) {
        lemma_trim_end(s, lo, hi - 1);
    }
}

/// Trimmed text neither starts nor ends with white space.
pub proof fn lemma_trimmed(s: Seq<char>)
    ensures
        trimmed(s).len() <= s.len(),
        trimmed(s).len() > 0 ==> !is_space(trimmed(s).first()) && !is_space(trimmed(s).last()),
{
    let lo = find(s, 0, CharClass::Space, false);
    lemma_find(s, 0, CharClass::Space, false);
    lemma_trim_end(s, lo, s.len() as int);
}

/// The number written by the first digits of `s` is no larger than the
/// number written by all of them.
pub proof fn lemma_decimal_prefix(s: Seq<char>, k: int)
    requires
        0 <= k <= s.len(),
    ensures
        decimal(s.take(k)) <= decimal(s),
    decreases s.len(),
{
    if k == s.len() {
        assert(s.take(k) =~= s);
    } else {
        lemma_decimal_prefix(s.drop_last(), k);
        assert(s.drop_last().take(k) =~= s.take(k));
    }
}

/// A longer run of digits never reads as less: the value of a run is at
/// least the value of any of its beginnings, so a component too long to
/// count stays at the largest value.
pub proof fn lemma_longer_run_stays_large(s: Seq<char>, k: int)
    requires
        all_digits(s),
        0 < k <= s.len(),
    ensures
        component_value(s.take(k)) <= component_value(s),
        component_value(s) <= u32::MAX,
{
    lemma_decimal_prefix(s, k);
    assert forall|i: int| 0 <= i < s.take(k).len() implies is_digit(#[trigger] s.take(k)[i]) by {
        assert(s.take(k)[i] == s[i]);
    }
}

/// Whether `c` is Unicode white space.
pub fn char_is_space(c: char) -> (b: bool)
    ensures
        b == is_space(c),
{
    let n: u32 = c as u32;
    (0x09 <= n && n <= 0x0D) || n == 0x20 || n == 0x85 || n == 0xA0 || n == 0x1680 || (0x2000
        <= n && n <= 0x200A) || n == 0x2028 || n == 0x2029 || n == 0x202F || n == 0x205F || n
        == 0x3000
}

/// Whether `c` belongs to `class`.
pub fn char_in_class(class: CharClass, c: char) -> (b: bool)
    ensures
        b == in_class(class, c),
{
    match class {
        CharClass::Space => char_is_space(c),
        CharClass::Separator => c == '-' || c == '\u{2013}',
        CharClass::Colon => c == ':',
    }
}

/// The characters of `s`, one by one.
pub fn chars_of(s: &str) -> (chars: Vec<char>)
    ensures
        chars@ == s@,
{
    let n: usize = s.unicode_len();
    let mut chars: Vec<char> = Vec::new();
    let mut i: usize = 0;
    while i < n
        invariant
            n == s@.len(),
            i <= n,
            chars@ == s@.take(i as int),
        decreases n - i,
    {
        chars.push(s.get_char(i));
        i += 1;
        assert(chars@ =~= s@.take(i as int));
    }
    assert(s@.take(n as int) =~= s@);
    chars
}

/// A copy of `chars[lo..hi]`.
pub fn slice_of(chars: &Vec<char>, lo: usize, hi: usize) -> (part: Vec<char>)
    requires
        lo <= hi <= chars.len(),
    ensures
        part@ == chars@.subrange(lo as int, hi as int),
{
    let mut part: Vec<char> = Vec::new();
    let mut i: usize = lo;
    while i < hi
        invariant
            lo <= i <= hi <= chars.len(),
            part@ == chars@.subrange(lo as int, i as int),
        decreases hi - i,
    {
        part.push(chars[i]);
        i += 1;
        assert(part@ =~= chars@.subrange(lo as int, i as int));
    }
    part
}

/// The first position at or after `from` whose character is in `class` (if
/// `want`) or outside it (if not); the length if there is none.
pub fn find_in(chars: &Vec<char>, from: usize, class: CharClass, want: bool) -> (at: usize)
    requires
        from <= chars.len(),
    ensures
        at == find(chars@, from as int, class, want),
        from <= at <= chars.len(),
{
    let mut i: usize = from;
    while i < chars.len() && char_in_class(class, chars[i]) != want
        invariant
            from <= i <= chars.len(),
            find(chars@, from as int, class, want) == find(chars@, i as int, class, want),
        decreases chars.len() - i,
    {
        i += 1;
    }
    i
}

/// `chars` without the white space at its two ends.
pub fn trim_chars(chars: &Vec<char>) -> (text: Vec<char>)
    ensures
        text@ == trimmed(chars@),
{
    let lo: usize = find_in(chars, 0, CharClass::Space, false);
    let mut hi: usize = chars.len();
    while hi > lo && char_is_space(chars[hi - 1])
        invariant
            lo <= hi <= chars.len(),
            trim_end(chars@, lo as int, chars@.len() as int) == trim_end(
                chars@,
                lo as int,
                hi as int,
            ),
        decreases hi - lo,
    {
        hi -= 1;
    }
    slice_of(chars, lo, hi)
}

/// Reads one component of a clock reading.
pub fn parse_component(chars: &Vec<char>) -> (value: u32)
    ensures
        value == component_value(chars@),
{
    if chars.len() == 0 {
        return 0;
    }
    let mut value: u32 = 0;
    let mut i: usize = 0;
    while i < chars.len()
        invariant
            i <= chars.len(),
            all_digits(chars@.take(i as int)),
            value == if decimal(chars@.take(i as int)) <= u32::MAX {
                decimal(chars@.take(i as int))
            } else {
                u32::MAX as nat
            },
        decreases chars.len() - i,
    {
        let c: char = chars[i];
        if !('0' <= c && c <= '9') {
            assert(!is_digit(chars@[i as int]));
            return 0;
        }
        let digit: u64 = (c as u32 - '0' as u32) as u64;
        proof {
            assert(chars@.take(i + 1).drop_last() =~= chars@.take(i as int));
            assert(chars@.take(i + 1).last() == c);
        }
        let next: u64 = value as u64 * 10 + digit;
        value = if next > u32::MAX as u64 {
            u32::MAX
        } else {
            next as u32
        };
        i += 1;
    }
    assert(chars@.take(i as int) =~= chars@);
    value
}

/// Reads a `minutes:seconds` clock reading as seconds.
pub fn parse_mmss(token: &Vec<char>) -> (seconds: u64)
    ensures
        seconds == clock_seconds(token@),
        seconds <= max_clock_seconds(),
{
    let first: usize = find_in(token, 0, CharClass::Colon, true);
    let minutes: u64 = parse_component(&slice_of(token, 0, first)) as u64;
    if first >= token.len() {
        minutes * 60
    } else {
        let second: usize = find_in(token, first + 1, CharClass::Colon, true);
        let secs: u64 = parse_component(&slice_of(token, first + 1, second)) as u64;
        minutes * 60 + secs
    }
}

/// Reads a time range as its start and end in seconds.
pub fn parse_time_range(s: &str) -> (range: (u64, u64))
    ensures
        range.0 == time_range(s@).0,
        range.1 == time_range(s@).1,
{
    let text: Vec<char> = trim_chars(&chars_of(s));
    let cut: usize = find_in(&text, 0, CharClass::Separator, true);
    let start: u64 = parse_mmss(&trim_chars(&slice_of(&text, 0, cut)));
    if cut >= text.len() {
        (start, 1)
    } else {
        let end: u64 = parse_mmss(&trim_chars(&slice_of(&text, cut + 1, text.len())));
        (start, end)
    }
}

} // verus!
