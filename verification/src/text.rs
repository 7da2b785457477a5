//! Text primitives shared by the record and address grammars: whitespace
//! tokens, trimming, splitting on a separator and unsigned decimal numbers.
//!
//! Every function is specified over the `Seq<char>` view of its input.
use vstd::prelude::*;

verus! {

/// The views of a sequence of strings, in order.
pub open spec fn views(v: Seq<String>) -> Seq<Seq<char>> {
    Seq::new(v.len(), |i: int| v[i]@)
}

/// Whether `c` has the Unicode `White_Space` property.
pub open spec fn is_whitespace(c: char) -> bool {
    let n = c as u32;
    ||| 0x09 <= n <= 0x0d
    ||| n == 0x20
    ||| n == 0x85
    ||| n == 0xa0
    ||| n == 0x1680
    ||| 0x2000 <= n <= 0x200a
    ||| n == 0x2028
    ||| n == 0x2029
    ||| n == 0x202f
    ||| n == 0x205f
    ||| n == 0x3000
}

/// Whether `c` is one of the ASCII digits `0` to `9`.
pub open spec fn is_digit(c: char) -> bool {
    '0' <= c <= '9'
}

/// The number that the ASCII digit `c` stands for.
pub open spec fn digit_value(c: char) -> nat
    recommends
        is_digit(c),
{
    (c as int - '0' as int) as nat
}

/// The length of the longest prefix of `s` without whitespace.
pub open spec fn token_len(s: Seq<char>) -> nat
    decreases s.len(),
{
    if s.len() == 0 || is_whitespace(s[0]) {
        0
    } else {
        1 + token_len(s.skip(1))
    }
}

/// The maximal runs of non-whitespace characters of `s`, from left to right.
pub open spec fn whitespace_tokens(s: Seq<char>) -> Seq<Seq<char>>
    decreases s.len(),
{
    if s.len() == 0 {
        Seq::empty()
    } else if is_whitespace(s[0]) {
        whitespace_tokens(s.skip(1))
    } else {
        let n = token_len(s) as int;
        if 0 < n <= s.len() {
            seq![s.take(n)] + whitespace_tokens(s.skip(n))
        } else {
            Seq::empty()
        }
    }
}

/// `s` without its leading whitespace.
pub open spec fn trim_start(s: Seq<char>) -> Seq<char>
    decreases s.len(),
{
    if s.len() > 0 && is_whitespace(s[0]) {
        trim_start(s.skip(1))
    } else {
        s
    }
}

/// `s` without its trailing whitespace.
pub open spec fn trim_end(s: Seq<char>) -> Seq<char>
    decreases s.len(),
{
    if s.len() > 0 && is_whitespace(s.last()) {
        trim_end(s.drop_last())
    } else {
        s
    }
}

/// `s` without leading and trailing whitespace.
pub open spec fn trimmed(s: Seq<char>) -> Seq<char> {
    trim_end(trim_start(s))
}

/// The index of the first `sep` in `s`, or the length of `s` where there is none.
pub open spec fn first_index(s: Seq<char>, sep: char) -> int
    decreases s.len(),
{
    if s.len() == 0 || s[0] == sep {
        0
    } else {
        1 + first_index(s.skip(1), sep)
    }
}

/// The pieces of `s` between occurrences of `sep`. There is always at least
/// one piece; pieces may be empty.
pub open spec fn split_on(s: Seq<char>, sep: char) -> Seq<Seq<char>>
    decreases s.len(),
{
    let i = first_index(s, sep);
    if 0 <= i < s.len() {
        seq![s.take(i)] + split_on(s.skip(i + 1), sep)
    } else {
        seq![s]
    }
}

/// The pieces `parts` written one after another with `sep` between them.
pub open spec fn join(parts: Seq<Seq<char>>, sep: char) -> Seq<char>
    decreases parts.len(),
{
    if parts.len() == 0 {
        Seq::empty()
    } else if parts.len() == 1 {
        parts[0]
    } else {
        parts[0] + seq![sep] + join(parts.skip(1), sep)
    }
}

/// The pieces of `chars` that the index pairs `ranges` cut out.
pub open spec fn pieces(chars: Seq<char>, ranges: Seq<(usize, usize)>) -> Seq<Seq<char>> {
    Seq::new(ranges.len(), |k: int| chars.subrange(ranges[k].0 as int, ranges[k].1 as int))
}

/// Whether `pattern` stands in `s` from index `i` on.
pub open spec fn occurs_at(s: Seq<char>, pattern: Seq<char>, i: int) -> bool {
    0 <= i && i + pattern.len() <= s.len() && s.subrange(i, i + pattern.len()) == pattern
}

/// Whether `pattern` stands somewhere in `s`.
pub open spec fn contains_text(s: Seq<char>, pattern: Seq<char>) -> bool {
    exists|i: int| occurs_at(s, pattern, i)
}

/// The number written by the decimal digits `s`, most significant first.
pub open spec fn decimal_value(s: Seq<char>) -> nat
    decreases s.len(),
{
    if s.len() == 0 {
        0
    } else {
        decimal_value(s.drop_last()) * 10 + digit_value(s.last())
    }
}

/// The length of the longest prefix of `s` that holds digits only.
pub open spec fn digit_prefix_len(s: Seq<char>) -> nat
    decreases s.len(),
{
    if s.len() == 0 || !is_digit(s[0]) {
        0
    } else {
        1 + digit_prefix_len(s.skip(1))
    }
}

/// Why a text is no unsigned decimal number.
#[derive(Clone, Copy, Debug, PartialEq, Eq, Structural)]
pub enum IntErrorKind {
    /// The text is empty.
    Empty,
    /// The text holds a character that is no digit, or a sign alone.
    InvalidDigit,
    /// The number is too large for the target type.
    PosOverflow,
}

/// The failure of parsing an unsigned integer.
#[derive(Clone, Copy, Debug, PartialEq, Eq, Structural)]
pub struct ParseIntError {
    pub kind: IntErrorKind,
}

impl ParseIntError {
    /// The message of this failure.
    pub fn to_string(&self) -> (text: String)
        ensures
            text@ == (match self.kind {
                IntErrorKind::Empty => "cannot parse integer from empty string"@,
                IntErrorKind::InvalidDigit => "invalid digit found in string"@,
                IntErrorKind::PosOverflow => "number too large to fit in target type"@,
            }),
    {
        match self.kind {
            IntErrorKind::Empty => "cannot parse integer from empty string".to_string(),
            IntErrorKind::InvalidDigit => "invalid digit found in string".to_string(),
            IntErrorKind::PosOverflow => "number too large to fit in target type".to_string(),
        }
    }
}

/// What parsing `s` as an unsigned decimal number of at most `max` gives: an
/// optional `+`, then one or more digits. Of an invalid character and an
/// overflow, the one met first from the left decides the error.
pub open spec fn parse_unsigned(s: Seq<char>, max: nat) -> Result<nat, ParseIntError> {
    if s.len() == 0 {
        Err(ParseIntError { kind: IntErrorKind::Empty })
    } else {
        let d = if s[0] == '+' {
            s.skip(1)
        } else {
            s
        };
        let k = digit_prefix_len(d) as int;
        let value = decimal_value(d.take(k));
        if d.len() == 0 {
            Err(ParseIntError { kind: IntErrorKind::InvalidDigit })
        } else if value > max {
            Err(ParseIntError { kind: IntErrorKind::PosOverflow })
        } else if k < d.len() {
            Err(ParseIntError { kind: IntErrorKind::InvalidDigit })
        } else {
            Ok(value)
        }
    }
}

/// What parsing `s` as a `u16` gives.
pub open spec fn parse_u16_text(s: Seq<char>) -> Result<u16, ParseIntError> {
    match parse_unsigned(s, 0xffff) {
        Ok(n) => Ok(n as u16),
        Err(e) => Err(e),
    }
}

/// What parsing `s` as a `u8` gives.
pub open spec fn parse_u8_text(s: Seq<char>) -> Result<u8, ParseIntError> {
    match parse_unsigned(s, 0xff) {
        Ok(n) => Ok(n as u8),
        Err(e) => Err(e),
    }
}

/// The token at the head of a text ends within the text, at whitespace or
/// at the end, and holds no whitespace.
pub proof fn lemma_token_len_bound(s: Seq<char>)
    ensures
        token_len(s) <= s.len(),
        token_len(s) < s.len() ==> is_whitespace(s[token_len(s) as int]),
        forall|j: int| 0 <= j < token_len(s) ==> !is_whitespace(#[trigger] s[j]),
        s.len() > 0 && !is_whitespace(s[0]) ==> token_len(s) > 0,
    decreases s.len(),
{
    if s.len() == 0 || is_whitespace(s[0]) {
    } else {
        lemma_token_len_bound(s.skip(1));
        assert forall|j: int| 0 <= j < token_len(s) implies !is_whitespace(#[trigger] s[j]) by {
            if j > 0 {
                assert(s[j] == s.skip(1)[j - 1]);
            }
        }
    }
}

/// No token is empty and no token holds whitespace.
pub proof fn lemma_tokens_hold_no_whitespace(s: Seq<char>, i: int)
    requires
        0 <= i < whitespace_tokens(s).len(),
    ensures
        whitespace_tokens(s)[i].len() > 0,
        forall|j: int|
            0 <= j < whitespace_tokens(s)[i].len() ==> !is_whitespace(
                #[trigger] whitespace_tokens(s)[i][j],
            ),
    decreases s.len(),
{
    if s.len() == 0 {
    } else if is_whitespace(s[0]) {
        lemma_tokens_hold_no_whitespace(s.skip(1), i);
    } else {
        lemma_token_len_bound(s);
        let n = token_len(s) as int;
        let rest = whitespace_tokens(s.skip(n));
        let all = whitespace_tokens(s);
        assert(all == seq![s.take(n)] + rest);
        if i == 0 {
            assert(all[0] == s.take(n));
            assert forall|j: int| 0 <= j < all[0].len() implies !is_whitespace(
                #[trigger] all[0][j],
            ) by {
                assert(all[0][j] == s[j]);
            }
        } else {
            assert(all[i] == rest[i - 1]);
            lemma_tokens_hold_no_whitespace(s.skip(n), i - 1);
        }
    }
}

/// The first index of a separator lies within the text, holds the separator
/// where it is no index past the end, and no index before it holds one.
pub proof fn lemma_first_index_bound(s: Seq<char>, sep: char)
    ensures
        0 <= first_index(s, sep) <= s.len(),
        first_index(s, sep) < s.len() ==> s[first_index(s, sep)] == sep,
        forall|j: int| 0 <= j < first_index(s, sep) ==> #[trigger] s[j] != sep,
    decreases s.len(),
{
    if s.len() == 0 || s[0] == sep {
    } else {
        lemma_first_index_bound(s.skip(1), sep);
        assert forall|j: int| 0 <= j < first_index(s, sep) implies #[trigger] s[j] != sep by {
            if j > 0 {
                assert(s[j] == s.skip(1)[j - 1]);
            }
        }
    }
}

/// The first index of `sep` is the only index that holds `sep` with none before it.
pub proof fn lemma_first_index_is(s: Seq<char>, sep: char, i: int)
    requires
        0 <= i <= s.len(),
        i < s.len() ==> s[i] == sep,
        forall|j: int| 0 <= j < i ==> #[trigger] s[j] != sep,
    ensures
        first_index(s, sep) == i,
{
    lemma_first_index_bound(s, sep);
    let f = first_index(s, sep);
    if f < i {
        assert(s[f] == sep);
    } else if i < f {
        assert(s[i] == sep);
    }
}

/// Splitting a joined list at its separator gives the list back, where no
/// piece holds the separator.
pub proof fn lemma_split_join(parts: Seq<Seq<char>>, sep: char)
    requires
        parts.len() >= 1,
        forall|i: int, j: int|
            0 <= i < parts.len() && 0 <= j < parts[i].len() ==> (#[trigger] parts[i][j]) != sep,
    ensures
        split_on(join(parts, sep), sep) == parts,
    decreases parts.len(),
{
    let s = join(parts, sep);
    if parts.len() == 1 {
        assert(s == parts[0]);
        lemma_first_index_is(s, sep, s.len() as int);
        assert(split_on(s, sep) == seq![s]);
        assert(seq![s] == parts);
    } else {
        let rest = parts.skip(1);
        let i = parts[0].len() as int;
        assert(s == parts[0] + seq![sep] + join(rest, sep));
        assert forall|j: int| 0 <= j < i implies #[trigger] s[j] != sep by {
            assert(s[j] == parts[0][j]);
        }
        lemma_first_index_is(s, sep, i);
        assert(s.take(i) == parts[0]);
        assert(s.skip(i + 1) == join(rest, sep));
        assert forall|a: int, b: int| 0 <= a < rest.len() && 0 <= b < rest[a].len() implies (
        #[trigger] rest[a][b]) != sep by {
            assert(rest[a] == parts[a + 1]);
        }
        lemma_split_join(rest, sep);
        assert(seq![parts[0]] + rest == parts);
    }
}

/// Joining the pieces of a text with the separator at which it was split
/// gives the text back.
pub proof fn lemma_join_split(s: Seq<char>, sep: char)
    ensures
        join(split_on(s, sep), sep) == s,
        split_on(s, sep).len() >= 1,
    decreases s.len(),
{
    lemma_first_index_bound(s, sep);
    let i = first_index(s, sep);
    let parts = split_on(s, sep);
    if 0 <= i < s.len() {
        let rest = split_on(s.skip(i + 1), sep);
        lemma_join_split(s.skip(i + 1), sep);
        assert(parts == seq![s.take(i)] + rest);
        assert(parts.skip(1) == rest);
        assert(parts[0] == s.take(i));
        assert(join(parts, sep) == s.take(i) + seq![sep] + s.skip(i + 1));
        assert(s.take(i) + seq![sep] + s.skip(i + 1) == s);
    } else {
        assert(parts == seq![s]);
    }
}

/// The digit prefix holds digits only, and ends at the first character that
/// is no digit.
pub proof fn lemma_digit_prefix_bound(s: Seq<char>)
    ensures
        digit_prefix_len(s) <= s.len(),
        digit_prefix_len(s) < s.len() ==> !is_digit(s[digit_prefix_len(s) as int]),
        forall|j: int| 0 <= j < digit_prefix_len(s) ==> is_digit(#[trigger] s[j]),
    decreases s.len(),
{
    if s.len() == 0 || !is_digit(s[0]) {
    } else {
        lemma_digit_prefix_bound(s.skip(1));
        assert forall|j: int| 0 <= j < digit_prefix_len(s) implies is_digit(#[trigger] s[j]) by {
            if j > 0 {
                assert(s[j] == s.skip(1)[j - 1]);
            }
        }
    }
}

/// The digit prefix is as long as the first index that holds no digit.
pub proof fn lemma_digit_prefix_is(s: Seq<char>, k: int)
    requires
        0 <= k <= s.len(),
        k < s.len() ==> !is_digit(s[k]),
        forall|j: int| 0 <= j < k ==> is_digit(#[trigger] s[j]),
    ensures
        digit_prefix_len(s) == k,
{
    lemma_digit_prefix_bound(s);
    let f = digit_prefix_len(s) as int;
    if f < k {
        assert(is_digit(s[f]));
    } else if k < f {
        assert(is_digit(s[k]));
    }
}

/// A longer run of digits writes no smaller number.
pub proof fn lemma_decimal_value_grows(s: Seq<char>, i: int, j: int)
    requires
        0 <= i <= j <= s.len(),
    ensures
        decimal_value(s.take(i)) <= decimal_value(s.take(j)),
    decreases j - i,
{
    if i < j {
        lemma_decimal_value_grows(s, i, j - 1);
        assert(s.take(j).drop_last() == s.take(j - 1));
        assert(decimal_value(s.take(j)) >= decimal_value(s.take(j - 1)) * 10);
        assert(decimal_value(s.take(j - 1)) * 10 >= decimal_value(s.take(j - 1)));
    }
}

/// The characters of `s`, in order.
pub fn chars_of(s: &str) -> (out: Vec<char>)
    ensures
        out@ == s@,
{
    let mut out: Vec<char> = Vec::new();
    for c in it: s.chars()
        invariant
            out@ == s@.take(it.index() as int),
            it.seq() == s@,
    {
        out.push(c);
    }
    out
}

/// Whether the two texts hold the same characters.
pub fn str_eq(a: &str, b: &str) -> (same: bool)
    ensures
        same == (a@ == b@),
{
    let x = chars_of(a);
    let y = chars_of(b);
    if x.len() != y.len() {
        return false;
    }
    let mut i: usize = 0;
    while i < x.len()
        invariant
            x@ == a@,
            y@ == b@,
            x.len() == y.len(),
            i <= x.len(),
            x@.take(i as int) == y@.take(i as int),
        decreases x.len() - i,
    {
        if x[i] != y[i] {
            return false;
        }
        assert(x@.take(i + 1) == x@.take(i as int).push(x@[i as int]));
        assert(y@.take(i + 1) == y@.take(i as int).push(y@[i as int]));
        i += 1;
    }
    assert(x@ == x@.take(x.len() as int));
    assert(y@ == y@.take(y.len() as int));
    true
}

/// Whether `pattern` stands in `chars` from index `i` on.
fn matches_at(chars: &Vec<char>, pattern: &Vec<char>, i: usize) -> (found: bool)
    requires
        i + pattern.len() <= chars.len(),
    ensures
        found == occurs_at(chars@, pattern@, i as int),
{
    let mut k: usize = 0;
    while k < pattern.len()
        invariant
            k <= pattern.len(),
            i + pattern.len() <= chars.len(),
            forall|j: int| 0 <= j < k ==> chars@[i + j] == pattern@[j],
        decreases pattern.len() - k,
    {
        if chars[i + k] != pattern[k] {
            assert(chars@.subrange(i as int, i + pattern.len())[k as int] != pattern@[k as int]);
            return false;
        }
        k += 1;
    }
    assert(chars@.subrange(i as int, i + pattern.len()) =~= pattern@);
    true
}

/// Whether `pattern` stands somewhere in `s`.
pub fn str_contains(s: &str, pattern: &str) -> (found: bool)
    ensures
        found == contains_text(s@, pattern@),
{
    let chars = chars_of(s);
    let wanted = chars_of(pattern);
    if wanted.len() > chars.len() {
        return false;
    }
    if wanted.len() == 0 {
        assert(s@.subrange(0, 0) =~= pattern@);
        assert(occurs_at(s@, pattern@, 0));
        return true;
    }
    let last: usize = chars.len() - wanted.len();
    let mut i: usize = 0;
    while i <= last
        invariant
            chars@ == s@,
            wanted@ == pattern@,
            last == chars.len() - wanted.len(),
            wanted.len() > 0,
            i <= last + 1,
            forall|j: int| 0 <= j < i ==> !occurs_at(s@, pattern@, j),
        decreases last + 1 - i,
    {
        if matches_at(&chars, &wanted, i) {
            return true;
        }
        i += 1;
    }
    false
}

/// Whether `c` has the Unicode `White_Space` property.
pub fn char_is_whitespace(c: char) -> (r: bool)
    ensures
        r == is_whitespace(c),
{
    let n: u32 = c as u32;
    (0x09 <= n && n <= 0x0d) || n == 0x20 || n == 0x85 || n == 0xa0 || n == 0x1680 || (0x2000 <= n
        && n <= 0x200a) || n == 0x2028 || n == 0x2029 || n == 0x202f || n == 0x205f || n == 0x3000
}

/// Splits `s` at whitespace into its non-empty tokens.
pub fn split_whitespace(s: &str) -> (parts: Vec<String>)
    ensures
        views(parts@) == whitespace_tokens(s@),
{
    let chars = chars_of(s);
    let n = chars.len();
    let mut parts: Vec<String> = Vec::new();
    let mut i: usize = 0;
    assert(s@.skip(0) == s@);
    assert(views(parts@) + whitespace_tokens(s@) == whitespace_tokens(s@));
    while i < n
        invariant
            chars@ == s@,
            n == chars.len(),
            i <= n,
            whitespace_tokens(s@) == views(parts@) + whitespace_tokens(s@.skip(i as int)),
        decreases n - i,
    {
        let ghost rest = s@.skip(i as int);
        if char_is_whitespace(chars[i]) {
            assert(rest.skip(1) == s@.skip(i + 1));
            i += 1;
        } else {
            let start = i;
            while i < n && !char_is_whitespace(chars[i])
                invariant
                    chars@ == s@,
                    n == chars.len(),
                    start <= i <= n,
                    rest == s@.skip(start as int),
                    token_len(rest) == (i - start) + token_len(s@.skip(i as int)),
                decreases n - i,
            {
                assert(s@.skip(i as int).skip(1) == s@.skip(i + 1));
                i += 1;
            }
            let token = s.substring_char(start, i).to_owned();
            proof {
                let len = (i - start) as int;
                assert(token_len(rest) == len);
                assert(rest.take(len) == s@.subrange(start as int, i as int));
                assert(rest.skip(len) == s@.skip(i as int));
                assert(views(parts@.push(token)) == views(parts@) + seq![rest.take(len)]);
            }
            parts.push(token);
        }
    }
    assert(views(parts@) + Seq::<Seq<char>>::empty() == views(parts@));
    parts
}

/// `s` without leading and trailing whitespace.
pub fn trim(s: &str) -> (out: String)
    ensures
        out@ == trimmed(s@),
{
    let chars = chars_of(s);
    let n = chars.len();
    let mut a: usize = 0;
    assert(s@.skip(0) == s@);
    while a < n && char_is_whitespace(chars[a])
        invariant
            chars@ == s@,
            n == chars.len(),
            a <= n,
            trim_start(s@) == trim_start(s@.skip(a as int)),
        decreases n - a,
    {
        assert(s@.skip(a as int).skip(1) == s@.skip(a + 1));
        a += 1;
    }
    assert(trim_start(s@) == s@.skip(a as int));
    let mut b: usize = n;
    while b > a && char_is_whitespace(chars[b - 1])
        invariant
            chars@ == s@,
            n == chars.len(),
            a <= b <= n,
            trimmed(s@) == trim_end(s@.subrange(a as int, b as int)),
        decreases b,
    {
        assert(s@.subrange(a as int, b as int).drop_last() == s@.subrange(a as int, b - 1));
        b -= 1;
    }
    s.substring_char(a, b).to_owned()
}

/// Where the pieces of `chars[from..to]` between occurrences of `sep` begin
/// and end.
pub(crate) fn split_ranges(chars: &Vec<char>, from: usize, to: usize, sep: char) -> (ranges: Vec<
    (usize, usize),
>)
    requires
        from <= to <= chars.len(),
    ensures
        pieces(chars@, ranges@) == split_on(chars@.subrange(from as int, to as int), sep),
        ranges@.len() >= 1,
        forall|k: int|
            0 <= k < ranges@.len() ==> from <= (#[trigger] ranges@[k]).0 <= ranges@[k].1 <= to,
{
    let ghost whole = chars@.subrange(from as int, to as int);
    let mut ranges: Vec<(usize, usize)> = Vec::new();
    let mut start: usize = from;
    let mut i: usize = from;
    assert(whole.skip(0) == whole);
    assert(pieces(chars@, ranges@) + split_on(whole, sep) == split_on(whole, sep));
    while i < to
        invariant
            from <= start <= i <= to <= chars.len(),
            whole == chars@.subrange(from as int, to as int),
            split_on(whole, sep) == pieces(chars@, ranges@) + split_on(
                whole.skip(start - from),
                sep,
            ),
            forall|j: int| start <= j < i ==> chars@[j] != sep,
            forall|k: int|
                0 <= k < ranges@.len() ==> from <= (#[trigger] ranges@[k]).0 <= ranges@[k].1 <= to,
        decreases to - i,
    {
        if chars[i] == sep {
            proof {
                let rest = whole.skip(start - from);
                assert forall|j: int| 0 <= j < i - start implies #[trigger] rest[j] != sep by {
                    assert(rest[j] == chars@[start + j]);
                }
                lemma_first_index_is(rest, sep, i - start);
                assert(rest.take(i - start) == chars@.subrange(start as int, i as int));
                assert(rest.skip(i - start + 1) == whole.skip(i + 1 - from));
                assert(pieces(chars@, ranges@.push((start, i))) == pieces(chars@, ranges@) + seq![
                    rest.take(i - start),
                ]);
            }
            ranges.push((start, i));
            start = i + 1;
        }
        i += 1;
    }
    proof {
        let rest = whole.skip(start - from);
        assert forall|j: int| 0 <= j < to - start implies #[trigger] rest[j] != sep by {
            assert(rest[j] == chars@[start + j]);
        }
        lemma_first_index_is(rest, sep, to - start);
        assert(rest == chars@.subrange(start as int, to as int));
        assert(pieces(chars@, ranges@.push((start, to))) == pieces(chars@, ranges@) + seq![rest]);
    }
    ranges.push((start, to));
    ranges
}

/// Splits `s` at every `sep`.
pub fn split_at_char(s: &str, sep: char) -> (parts: Vec<String>)
    ensures
        views(parts@) == split_on(s@, sep),
        parts@.len() >= 1,
{
    let chars = chars_of(s);
    let ranges = split_ranges(&chars, 0, chars.len(), sep);
    assert(chars@.subrange(0, chars.len() as int) == s@);
    let mut parts: Vec<String> = Vec::new();
    let mut k: usize = 0;
    while k < ranges.len()
        invariant
            chars@ == s@,
            k <= ranges.len(),
            parts@.len() == k,
            forall|j: int|
                0 <= j < ranges@.len() ==> (#[trigger] ranges@[j]).0 <= ranges@[j].1 <= chars.len(),
            forall|j: int| 0 <= j < k ==> (#[trigger] parts@[j])@ == pieces(s@, ranges@)[j],
        decreases ranges.len() - k,
    {
        let (a, b) = ranges[k];
        parts.push(s.substring_char(a, b).to_owned());
        k += 1;
    }
    assert(views(parts@) =~= pieces(s@, ranges@));
    parts
}

/// Parses `s` as an unsigned decimal number of at most `max`.
fn parse_bounded(s: &str, max: u32) -> (r: Result<u32, ParseIntError>)
    requires
        max <= 0xffff,
    ensures
        match (r, parse_unsigned(s@, max as nat)) {
            (Ok(n), Ok(v)) => n == v && n <= max,
            (Err(e), Err(f)) => e == f,
            _ => false,
        },
{
    let chars = chars_of(s);
    let n = chars.len();
    if n == 0 {
        return Err(ParseIntError { kind: IntErrorKind::Empty });
    }
    let first: usize = if chars[0] == '+' {
        1
    } else {
        0
    };
    let ghost d = s@.skip(first as int);
    assert(s@.skip(0) == s@);
    if first == n {
        return Err(ParseIntError { kind: IntErrorKind::InvalidDigit });
    }
    let mut acc: u32 = 0;
    let mut i: usize = first;
    while i < n
        invariant
            chars@ == s@,
            n == chars.len(),
            first <= i <= n,
            d == s@.skip(first as int),
            d == (if s@[0] == '+' {
                s@.skip(1)
            } else {
                s@
            }),
            max <= 0xffff,
            acc <= max,
            acc == decimal_value(d.take(i - first)),
            forall|j: int| 0 <= j < i - first ==> is_digit(#[trigger] d[j]),
        decreases n - i,
    {
        let c = chars[i];
        if !('0' <= c && c <= '9') {
            proof {
                lemma_digit_prefix_is(d, i - first);
            }
            return Err(ParseIntError { kind: IntErrorKind::InvalidDigit });
        }
        let x: u32 = (c as u32) - ('0' as u32);
        let next: u32 = acc * 10 + x;
        proof {
            assert(d.take(i - first + 1).drop_last() == d.take(i - first));
            assert(d.take(i - first + 1).last() == c);
            assert(next == decimal_value(d.take(i - first + 1)));
        }
        if next > max {
            proof {
                lemma_digit_prefix_bound(d);
                let k = digit_prefix_len(d) as int;
                if k < i - first + 1 {
                    assert(is_digit(d[k]));
                }
                lemma_decimal_value_grows(d, i - first + 1, k);
            }
            return Err(ParseIntError { kind: IntErrorKind::PosOverflow });
        }
        acc = next;
        i += 1;
    }
    proof {
        lemma_digit_prefix_is(d, n - first);
        assert(d.take(n - first) == d);
    }
    Ok(acc)
}

/// Parses `s` as a `u16`.
pub fn parse_u16(s: &str) -> (r: Result<u16, ParseIntError>)
    ensures
        r == parse_u16_text(s@),
{
    match parse_bounded(s, 0xffff) {
        Ok(n) => Ok(n as u16),
        Err(e) => Err(e),
    }
}

/// Parses `s` as a `u8`.
pub fn parse_u8(s: &str) -> (r: Result<u8, ParseIntError>)
    ensures
        r == parse_u8_text(s@),
{
    match parse_bounded(s, 0xff) {
        Ok(n) => Ok(n as u8),
        Err(e) => Err(e),
    }
}

} // verus!
