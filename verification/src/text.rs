//! Character and byte helpers the protocols are written with.
use vstd::prelude::*;
use vstd::utf8::*;

verus! {

broadcast use vstd::string::group_string_axioms;

/// The character of a decimal digit `d < 10`.
pub open spec fn digit_char(d: nat) -> char {
    (48 + d) as char
}

/// The decimal spelling of `n`, without sign or leading zeros.
pub open spec fn decimal_digits(n: nat) -> Seq<char>
    decreases n,
{
    if n < 10 {
        seq![digit_char(n)]
    } else {
        decimal_digits(n / 10).push(digit_char(n % 10))
    }
}

/// Ten to the power `k`.
pub open spec fn pow10(k: nat) -> nat
    decreases k,
{
    if k == 0 {
        1
    } else {
        10 * pow10((k - 1) as nat)
    }
}

/// A number below `10^k` (with `k` at least 1) is spelled with at most `k` digits.
pub proof fn lemma_decimal_digits_len(n: nat, k: nat)
    requires
        1 <= k,
        n < pow10(k),
    ensures
        decimal_digits(n).len() <= k,
    decreases k,
{
    if n >= 10 {
        if k == 1 {
            assert(pow10(1) == 10 * pow10(0));
        } else {
            assert(pow10(k) == 10 * pow10((k - 1) as nat));
            assert(n / 10 < pow10((k - 1) as nat));
            lemma_decimal_digits_len(n / 10, (k - 1) as nat);
        }
    }
}

/// Decimal digits are ASCII.
pub proof fn lemma_decimal_digits_ascii(n: nat)
    ensures
        vstd::utf8::is_ascii_chars(decimal_digits(n)),
    decreases n,
{
    if n >= 10 {
        lemma_decimal_digits_ascii(n / 10);
        let d = decimal_digits(n);
        assert forall|i: int| 0 <= i < d.len() implies '\0' <= #[trigger] d[i] <= '\u{7f}' by {
            if i < d.len() - 1 {
                assert(d[i] == decimal_digits(n / 10)[i]);
            }
        }
    }
}

/// The decimal spelling of a `u32` has at most ten digits.
pub proof fn lemma_u32_digits(n: u32)
    ensures
        decimal_digits(n as nat).len() <= 10,
        vstd::utf8::is_ascii_chars(decimal_digits(n as nat)),
{
    reveal_with_fuel(pow10, 11);
    assert(pow10(10) == 10000000000nat);
    lemma_decimal_digits_len(n as nat, 10);
    lemma_decimal_digits_ascii(n as nat);
}

/// Decimal spelling of `n`.
pub fn decimal_chars(n: u64) -> (digits: Vec<char>)
    ensures
        digits@ == decimal_digits(n as nat),
{
    let mut rest: u64 = n;
    let mut suffix: Vec<char> = Vec::new();
    loop
        invariant
            decimal_digits(n as nat) == decimal_digits(rest as nat) + suffix@,
        decreases rest,
    {
        let digit: u64 = rest % 10;
        let c: char = if digit == 0 {
            '0'
        } else if digit == 1 {
            '1'
        } else if digit == 2 {
            '2'
        } else if digit == 3 {
            '3'
        } else if digit == 4 {
            '4'
        } else if digit == 5 {
            '5'
        } else if digit == 6 {
            '6'
        } else if digit == 7 {
            '7'
        } else if digit == 8 {
            '8'
        } else {
            '9'
        };
        assert(c == digit_char(digit as nat));
        let ghost old_suffix = suffix@;
        suffix.insert(0, c);
        if rest < 10 {
            assert(decimal_digits(rest as nat) == seq![digit_char(rest as nat)]);
            assert(suffix@ == seq![c] + old_suffix);
            return suffix;
        }
        assert(decimal_digits(rest as nat) == decimal_digits((rest / 10) as nat).push(
            digit_char((rest % 10) as nat),
        ));
        assert(decimal_digits((rest / 10) as nat) + suffix@ == decimal_digits(rest as nat)
            + old_suffix);
        rest = rest / 10;
    }
}

/// Decimal spelling of `n` as a string.
pub fn decimal_string(n: u64) -> (text: String)
    ensures
        text@ == decimal_digits(n as nat),
{
    let digits = decimal_chars(n);
    chars_to_string(&digits)
}

/// The bytes of the ASCII decimal spelling of `n`.
pub open spec fn decimal_bytes(n: nat) -> Seq<u8> {
    decimal_digits(n).map_values(|c: char| c as u8)
}

/// ASCII decimal spelling of `n` as bytes.
pub fn decimal_ascii(n: u64) -> (bytes: Vec<u8>)
    ensures
        bytes@ == decimal_bytes(n as nat),
{
    let digits = decimal_chars(n);
    let mut bytes: Vec<u8> = Vec::new();
    let mut i: usize = 0;
    while i < digits.len()
        invariant
            0 <= i <= digits.len(),
            bytes@ == digits@.subrange(0, i as int).map_values(|c: char| c as u8),
        decreases digits.len() - i,
    {
        bytes.push(digits[i] as u8);
        i = i + 1;
        assert(digits@.subrange(0, i as int) == digits@.subrange(0, i - 1).push(digits@[i - 1]));
    }
    assert(digits@.subrange(0, digits.len() as int) == digits@);
    bytes
}

/// Builds a string from its characters.
///
/// Trusted: calls `FromIterator<char>` for `String` (`Iterator::collect`), which std
/// documents as concatenating the characters in order.
#[verifier::external_body]
pub(crate) fn chars_to_string(chars: &Vec<char>) -> (text: String)
    ensures
        text@ == chars@,
{
    chars.iter().collect()
}

/// The characters of a string, in order.
pub(crate) fn string_chars(text: &str) -> (chars: Vec<char>)
    ensures
        chars@ == text@,
{
    broadcast use vstd::string::axiom_spec_iter;
    let mut chars: Vec<char> = Vec::new();
    for c in it: text.chars()
        invariant
            chars@ == it.seq().take(it.index() as int),
    {
        chars.push(c);
    }
    chars
}

/// Decodes UTF-8; `None` when the bytes are not valid UTF-8.
///
/// Trusted: calls `String::from_utf8`, documented to succeed exactly on valid UTF-8
/// and then to hold the decoded text.
#[verifier::external_body]
pub(crate) fn utf8_to_string(bytes: Vec<u8>) -> (text: Option<String>)
    ensures
        text is Some <==> valid_utf8(bytes@),
        text matches Some(s) ==> s@ == decode_utf8(bytes@),
{
    String::from_utf8(bytes).ok()
}

/// What `String::from_utf8_lossy` makes of a byte sequence.
pub uninterp spec fn lossy_utf8(bytes: Seq<u8>) -> Seq<char>;

/// Decodes UTF-8, replacing invalid sequences with U+FFFD.
///
/// Trusted: calls `String::from_utf8_lossy`. Its documentation says valid input
/// comes back unchanged; how invalid sequences are replaced is named, not stated.
#[verifier::external_body]
pub(crate) fn utf8_lossy(bytes: &[u8]) -> (text: String)
    ensures
        text@ == lossy_utf8(bytes@),
        valid_utf8(bytes@) ==> text@ == decode_utf8(bytes@),
{
    String::from_utf8_lossy(bytes).into_owned()
}

/// The UTF-8 bytes of a string.
pub fn string_bytes(text: &str) -> (bytes: Vec<u8>)
    ensures
        bytes@ == encode_utf8(text@),
{
    let slice = text.as_bytes();
    vstd::slice::slice_to_vec(slice)
}

/// An owned copy of a string literal or slice.
pub fn owned(text: &str) -> (copy: String)
    ensures
        copy@ == text@,
{
    text.to_owned()
}

/// ASCII upper-case letters map to lower case; everything else is unchanged.
pub open spec fn ascii_lower_char(c: char) -> char {
    if 'A' <= c && c <= 'Z' {
        ((c as u32) + 32) as char
    } else {
        c
    }
}

pub open spec fn ascii_lower(text: Seq<char>) -> Seq<char> {
    text.map_values(|c: char| ascii_lower_char(c))
}

pub fn lower_char(c: char) -> (lower: char)
    ensures
        lower == ascii_lower_char(c),
{
    if 'A' <= c && c <= 'Z' {
        let code: u8 = (c as u8) + 32;
        code as char
    } else {
        c
    }
}

/// `str::to_ascii_lowercase` over characters.
pub fn lowercase_chars(text: &Vec<char>) -> (lower: Vec<char>)
    ensures
        lower@ == ascii_lower(text@),
{
    let mut lower: Vec<char> = Vec::new();
    let mut i: usize = 0;
    while i < text.len()
        invariant
            0 <= i <= text.len(),
            lower@ == ascii_lower(text@.subrange(0, i as int)),
        decreases text.len() - i,
    {
        lower.push(lower_char(text[i]));
        i = i + 1;
        assert(text@.subrange(0, i as int) == text@.subrange(0, i - 1).push(text@[i - 1]));
    }
    assert(text@.subrange(0, text.len() as int) == text@);
    lower
}

/// The characters `char::is_whitespace` accepts (Unicode `White_Space`).
pub open spec fn is_white(c: char) -> bool {
    let u = c as u32;
    (0x09 <= u && u <= 0x0D) || u == 0x20 || u == 0x85 || u == 0xA0 || u == 0x1680
        || (0x2000 <= u && u <= 0x200A) || u == 0x2028 || u == 0x2029 || u == 0x202F
        || u == 0x205F || u == 0x3000
}

pub fn white(c: char) -> (w: bool)
    ensures
        w == is_white(c),
{
    let u: u32 = c as u32;
    (0x09 <= u && u <= 0x0D) || u == 0x20 || u == 0x85 || u == 0xA0 || u == 0x1680 || (0x2000
        <= u && u <= 0x200A) || u == 0x2028 || u == 0x2029 || u == 0x202F || u == 0x205F || u
        == 0x3000
}

/// Index of the first non-white character at or after `from`, or the length.
pub open spec fn skip_white(text: Seq<char>, from: int) -> int
    decreases text.len() - from,
{
    if from >= text.len() || from < 0 {
        if from < 0 { 0 } else { text.len() as int }
    } else if is_white(text[from]) {
        skip_white(text, from + 1)
    } else {
        from
    }
}

/// One past the last non-white character before `to`, or 0.
pub open spec fn trim_end_index(text: Seq<char>, to: int) -> int
    decreases to,
{
    if to <= 0 {
        0
    } else if to > text.len() {
        trim_end_index(text, text.len() as int)
    } else if is_white(text[to - 1]) {
        trim_end_index(text, to - 1)
    } else {
        to
    }
}

/// `str::trim`: the text without leading and trailing white space.
pub open spec fn trimmed(text: Seq<char>) -> Seq<char> {
    let start = skip_white(text, 0);
    let end = trim_end_index(text, text.len() as int);
    if start >= end {
        Seq::empty()
    } else {
        text.subrange(start, end)
    }
}

pub proof fn lemma_skip_white_bounds(text: Seq<char>, from: int)
    requires
        0 <= from <= text.len(),
    ensures
        from <= skip_white(text, from) <= text.len(),
        forall|k: int| from <= k < skip_white(text, from) ==> is_white(#[trigger] text[k]),
        skip_white(text, from) < text.len() ==> !is_white(text[skip_white(text, from)]),
    decreases text.len() - from,
{
    if from < text.len() && is_white(text[from]) {
        lemma_skip_white_bounds(text, from + 1);
    }
}

pub proof fn lemma_trim_end_bounds(text: Seq<char>, to: int)
    requires
        0 <= to <= text.len(),
    ensures
        0 <= trim_end_index(text, to) <= to,
        forall|k: int| trim_end_index(text, to) <= k < to ==> is_white(#[trigger] text[k]),
    decreases to,
{
    if to > 0 && is_white(text[to - 1]) {
        lemma_trim_end_bounds(text, to - 1);
    }
}

/// Bounds of the trimmed part of `text`.
pub fn trim_bounds(text: &Vec<char>) -> (bounds: (usize, usize))
    ensures
        bounds.0 == skip_white(text@, 0),
        bounds.1 == trim_end_index(text@, text@.len() as int),
        bounds.0 <= text.len(),
        bounds.1 <= text.len(),
{
    proof {
        lemma_skip_white_bounds(text@, 0);
        lemma_trim_end_bounds(text@, text@.len() as int);
    }
    let mut start: usize = 0;
    while start < text.len() && white(text[start])
        invariant
            0 <= start <= text.len(),
            skip_white(text@, start as int) == skip_white(text@, 0),
        decreases text.len() - start,
    {
        start = start + 1;
    }
    let mut end: usize = text.len();
    while end > 0 && white(text[end - 1])
        invariant
            0 <= end <= text.len(),
            trim_end_index(text@, end as int) == trim_end_index(text@, text@.len() as int),
        decreases end,
    {
        end = end - 1;
    }
    (start, end)
}

/// Copies `text[start..end]`.
pub fn sub_chars(text: &Vec<char>, start: usize, end: usize) -> (part: Vec<char>)
    requires
        start <= end <= text.len(),
    ensures
        part@ == text@.subrange(start as int, end as int),
{
    let mut part: Vec<char> = Vec::new();
    let mut i: usize = start;
    while i < end
        invariant
            start <= i <= end <= text.len(),
            part@ == text@.subrange(start as int, i as int),
        decreases end - i,
    {
        part.push(text[i]);
        i = i + 1;
    }
    part
}

/// `str::trim` over characters.
pub fn trim_chars(text: &Vec<char>) -> (part: Vec<char>)
    ensures
        part@ == trimmed(text@),
{
    let (start, end) = trim_bounds(text);
    if start >= end {
        Vec::new()
    } else {
        sub_chars(text, start, end)
    }
}

/// Copies `bytes[start..end]`.
pub fn sub_bytes(bytes: &[u8], start: usize, end: usize) -> (part: Vec<u8>)
    requires
        start <= end <= bytes@.len(),
    ensures
        part@ == bytes@.subrange(start as int, end as int),
{
    let mut part: Vec<u8> = Vec::new();
    let mut i: usize = start;
    while i < end
        invariant
            start <= i <= end <= bytes@.len(),
            part@ == bytes@.subrange(start as int, i as int),
        decreases end - i,
    {
        part.push(bytes[i]);
        i = i + 1;
    }
    part
}

/// Whether `pattern` occurs in `text` at `at`.
pub open spec fn matches_at<T>(text: Seq<T>, pattern: Seq<T>, at: int) -> bool {
    0 <= at && at + pattern.len() <= text.len() && text.subrange(at, at + pattern.len()) == pattern
}

/// Index of the first occurrence of `pattern` at or after `from`, if any.
pub open spec fn first_match_from<T>(text: Seq<T>, pattern: Seq<T>, from: int) -> Option<int>
    decreases text.len() + 1 - from,
{
    if from < 0 || from + pattern.len() > text.len() {
        None
    } else if matches_at(text, pattern, from) {
        Some(from)
    } else {
        first_match_from(text, pattern, from + 1)
    }
}

pub open spec fn first_match<T>(text: Seq<T>, pattern: Seq<T>) -> Option<int> {
    first_match_from(text, pattern, 0)
}

pub proof fn lemma_first_match_from<T>(text: Seq<T>, pattern: Seq<T>, from: int)
    requires
        0 <= from,
    ensures
        first_match_from(text, pattern, from) matches Some(at) ==> from <= at && matches_at(
            text,
            pattern,
            at,
        ) && forall|k: int| from <= k < at ==> !matches_at(text, pattern, k),
        first_match_from(text, pattern, from) is None ==> forall|k: int|
            from <= k ==> !matches_at(text, pattern, k),
    decreases text.len() + 1 - from,
{
    if from + pattern.len() > text.len() {
    } else if matches_at(text, pattern, from) {
    } else {
        lemma_first_match_from(text, pattern, from + 1);
    }
}

/// Whether `pattern` occurs at `at` in `text` (bytes).
pub fn bytes_match_at(text: &[u8], pattern: &[u8], at: usize) -> (found: bool)
    ensures
        found == matches_at(text@, pattern@, at as int),
{
    if at > text.len() || pattern.len() > text.len() - at {
        return false;
    }
    let n: usize = text.len();
    let mut k: usize = 0;
    while k < pattern.len()
        invariant
            n == text@.len(),
            0 <= k <= pattern@.len(),
            at + pattern@.len() <= text@.len(),
            forall|j: int| 0 <= j < k ==> text@[at + j] == pattern@[j],
        decreases pattern.len() - k,
    {
        assert(at + k < text@.len());
        if text[at + k] != pattern[k] {
            assert(text@.subrange(at as int, at + pattern@.len())[k as int] != pattern@[k as int]);
            return false;
        }
        k = k + 1;
    }
    assert(text@.subrange(at as int, at + pattern@.len()) =~= pattern@);
    true
}

/// First occurrence of `pattern` in `text` at or after `from` (bytes).
pub fn find_bytes_from(text: &[u8], pattern: &[u8], from: usize) -> (found: Option<usize>)
    ensures
        found matches Some(at) ==> first_match_from(text@, pattern@, from as int) == Some(at as int),
        found is None ==> first_match_from(text@, pattern@, from as int) is None,
{
    if pattern.len() > text.len() {
        return None;
    }
    let last: usize = text.len() - pattern.len();
    let mut at: usize = from;
    while at <= last
        invariant
            from <= at,
            last + pattern@.len() == text@.len(),
            first_match_from(text@, pattern@, from as int) == first_match_from(
                text@,
                pattern@,
                at as int,
            ),
        decreases last + 1 - at,
    {
        if bytes_match_at(text, pattern, at) {
            return Some(at);
        }
        if at == last {
            assert(first_match_from(text@, pattern@, at + 1) is None);
            return None;
        }
        at = at + 1;
    }
    None
}

/// Whether `pattern` occurs at `at` in `text` (characters).
pub fn chars_match_at(text: &Vec<char>, pattern: &Vec<char>, at: usize) -> (found: bool)
    ensures
        found == matches_at(text@, pattern@, at as int),
{
    if at > text.len() || pattern.len() > text.len() - at {
        return false;
    }
    let n: usize = text.len();
    let mut k: usize = 0;
    while k < pattern.len()
        invariant
            n == text@.len(),
            0 <= k <= pattern@.len(),
            at + pattern@.len() <= text@.len(),
            forall|j: int| 0 <= j < k ==> text@[at + j] == pattern@[j],
        decreases pattern.len() - k,
    {
        assert(at + k < text@.len());
        if text[at + k] != pattern[k] {
            assert(text@.subrange(at as int, at + pattern@.len())[k as int] != pattern@[k as int]);
            return false;
        }
        k = k + 1;
    }
    assert(text@.subrange(at as int, at + pattern@.len()) =~= pattern@);
    true
}

/// First occurrence of `pattern` in `text` at or after `from` (characters).
pub fn find_chars_from(text: &Vec<char>, pattern: &Vec<char>, from: usize) -> (found: Option<usize>)
    ensures
        found matches Some(at) ==> first_match_from(text@, pattern@, from as int) == Some(at as int),
        found is None ==> first_match_from(text@, pattern@, from as int) is None,
{
    if pattern.len() > text.len() {
        return None;
    }
    let last: usize = text.len() - pattern.len();
    let mut at: usize = from;
    while at <= last
        invariant
            from <= at,
            last + pattern@.len() == text@.len(),
            first_match_from(text@, pattern@, from as int) == first_match_from(
                text@,
                pattern@,
                at as int,
            ),
        decreases last + 1 - at,
    {
        if chars_match_at(text, pattern, at) {
            return Some(at);
        }
        if at == last {
            assert(first_match_from(text@, pattern@, at + 1) is None);
            return None;
        }
        at = at + 1;
    }
    None
}

/// Character-wise equality.
pub fn chars_equal(a: &Vec<char>, b: &Vec<char>) -> (same: bool)
    ensures
        same == (a@ == b@),
{
    if a.len() != b.len() {
        return false;
    }
    let mut i: usize = 0;
    while i < a.len()
        invariant
            0 <= i <= a.len(),
            a.len() == b.len(),
            forall|j: int| 0 <= j < i ==> a@[j] == b@[j],
        decreases a.len() - i,
    {
        if a[i] != b[i] {
            return false;
        }
        i = i + 1;
    }
    assert(a@ =~= b@);
    true
}

/// Whether the characters spell the string.
pub fn chars_are(a: &Vec<char>, text: &str) -> (same: bool)
    ensures
        same == (a@ == text@),
{
    let b = string_chars(text);
    chars_equal(a, &b)
}

/// Text read back from bytes: decoded when they are UTF-8, otherwise what lossy
/// decoding makes of them.
pub open spec fn lossy_text(bytes: Seq<u8>) -> Seq<char> {
    if valid_utf8(bytes) {
        decode_utf8(bytes)
    } else {
        lossy_utf8(bytes)
    }
}

/// `bytes` as text, through `String::from_utf8_lossy`.
pub fn lossy_chars(bytes: &[u8]) -> (chars: Vec<char>)
    ensures
        chars@ == lossy_text(bytes@),
{
    let text = utf8_lossy(bytes);
    string_chars(text.as_str())
}

/// `text` from `from` on with every occurrence of `pattern` replaced, scanning left to
/// right and resuming after each replacement.
pub open spec fn replace_from<T>(text: Seq<T>, pattern: Seq<T>, replacement: Seq<T>, from: int) -> Seq<
    T,
>
    decreases text.len() - from,
{
    if from < 0 || from > text.len() || pattern.len() == 0 {
        text.subrange(if from < 0 { 0 } else if from > text.len() { text.len() as int } else { from }, text.len() as int)
    } else {
        match first_match_from(text, pattern, from) {
            None => text.subrange(from, text.len() as int),
            Some(at) => {
                proof {
                    lemma_first_match_from(text, pattern, from);
                }
                text.subrange(from, at) + replacement + replace_from(
                    text,
                    pattern,
                    replacement,
                    at + pattern.len(),
                )
            },
        }
    }
}

/// `str::replace`: every occurrence of `pattern`, left to right.
pub open spec fn replace_all<T>(text: Seq<T>, pattern: Seq<T>, replacement: Seq<T>) -> Seq<T> {
    replace_from(text, pattern, replacement, 0)
}

/// With no match of `pattern` starting in `[from, to)`, the search from `from` finds
/// what the search from `to` finds.
pub proof fn lemma_first_match_skip<T>(text: Seq<T>, pattern: Seq<T>, from: int, to: int)
    requires
        0 <= from <= to,
        forall|k: int| from <= k < to ==> !matches_at(text, pattern, k),
    ensures
        first_match_from(text, pattern, from) == first_match_from(text, pattern, to),
    decreases to - from,
{
    if from < to && from + pattern.len() <= text.len() {
        assert(!matches_at(text, pattern, from));
        lemma_first_match_skip(text, pattern, from + 1, to);
    }
}

/// Searching `x + y` past `x` is searching `y`.
pub proof fn lemma_first_match_shift<T>(x: Seq<T>, y: Seq<T>, pattern: Seq<T>, j: int)
    requires
        0 <= j,
    ensures
        first_match_from(x + y, pattern, x.len() + j) == match first_match_from(y, pattern, j) {
            Some(at) => Some(at + x.len()),
            None => None::<int>,
        },
    decreases y.len() + 1 - j,
{
    let t = x + y;
    if j + pattern.len() <= y.len() {
        assert(t.subrange(x.len() + j, x.len() + j + pattern.len()) =~= y.subrange(
            j,
            j + pattern.len(),
        ));
        if !matches_at(y, pattern, j) {
            lemma_first_match_shift(x, y, pattern, j + 1);
        }
    }
}

/// Replacing in `x + y` past `x` is replacing in `y`.
pub proof fn lemma_replace_shift<T>(x: Seq<T>, y: Seq<T>, pattern: Seq<T>, replacement: Seq<T>, j: int)
    requires
        0 <= j <= y.len(),
        pattern.len() > 0,
    ensures
        replace_from(x + y, pattern, replacement, x.len() + j) == replace_from(
            y,
            pattern,
            replacement,
            j,
        ),
    decreases y.len() - j,
{
    let t = x + y;
    lemma_first_match_shift(x, y, pattern, j);
    lemma_first_match_from(y, pattern, j);
    match first_match_from(y, pattern, j) {
        None => {
            assert(t.subrange(x.len() + j, t.len() as int) =~= y.subrange(j, y.len() as int));
        },
        Some(at) => {
            assert(t.subrange(x.len() + j, x.len() + at) =~= y.subrange(j, at));
            lemma_replace_shift(x, y, pattern, replacement, at + pattern.len());
        },
    }
}

/// With no match starting in `[from, to)`, replacing from `from` keeps that stretch
/// as it is.
pub proof fn lemma_replace_skip<T>(text: Seq<T>, pattern: Seq<T>, replacement: Seq<T>, from: int, to: int)
    requires
        0 <= from <= to <= text.len(),
        pattern.len() > 0,
        forall|k: int| from <= k < to ==> !matches_at(text, pattern, k),
    ensures
        replace_from(text, pattern, replacement, from) == text.subrange(from, to) + replace_from(
            text,
            pattern,
            replacement,
            to,
        ),
{
    lemma_first_match_skip(text, pattern, from, to);
    lemma_first_match_from(text, pattern, to);
    match first_match_from(text, pattern, to) {
        None => {
            assert(text.subrange(from, text.len() as int) =~= text.subrange(from, to)
                + text.subrange(to, text.len() as int));
        },
        Some(at) => {
            let later = replace_from(text, pattern, replacement, at + pattern.len());
            assert(text.subrange(from, at) + replacement + later =~= text.subrange(from, to) + (
            text.subrange(to, at) + replacement + later));
        },
    }
}

/// A text that starts with the pattern has that occurrence replaced first.
pub proof fn lemma_replace_leading<T>(pattern: Seq<T>, replacement: Seq<T>, rest: Seq<T>)
    requires
        pattern.len() > 0,
    ensures
        replace_all(pattern + rest, pattern, replacement) == replacement + replace_all(
            rest,
            pattern,
            replacement,
        ),
{
    let t = pattern + rest;
    assert(t.subrange(0, pattern.len() as int) =~= pattern);
    assert(matches_at(t, pattern, 0));
    lemma_replace_shift(pattern, rest, pattern, replacement, 0);
    assert(t.subrange(0, 0) + replacement =~= replacement);
}

/// A leading piece in which no occurrence starts is kept as it is.
pub proof fn lemma_replace_kept<T>(head: Seq<T>, rest: Seq<T>, pattern: Seq<T>, replacement: Seq<T>)
    requires
        pattern.len() > 0,
        forall|k: int| 0 <= k < head.len() ==> !matches_at(head + rest, pattern, k),
    ensures
        replace_all(head + rest, pattern, replacement) == head + replace_all(
            rest,
            pattern,
            replacement,
        ),
{
    lemma_replace_skip(head + rest, pattern, replacement, 0, head.len() as int);
    lemma_replace_shift(head, rest, pattern, replacement, 0);
    assert((head + rest).subrange(0, head.len() as int) =~= head);
}

/// Replaces every occurrence of a non-empty `pattern` in `text` (characters).
pub fn replace_chars(text: &Vec<char>, pattern: &Vec<char>, replacement: &Vec<char>) -> (out: Vec<
    char,
>)
    requires
        pattern@.len() > 0,
    ensures
        out@ == replace_all(text@, pattern@, replacement@),
{
    let n: usize = text.len();
    let mut out: Vec<char> = Vec::new();
    let mut pos: usize = 0;
    loop
        invariant
            n == text@.len(),
            0 <= pos <= text@.len(),
            pattern@.len() > 0,
            out@ + replace_from(text@, pattern@, replacement@, pos as int) == replace_all(
                text@,
                pattern@,
                replacement@,
            ),
        decreases text@.len() - pos,
    {
        let found = find_chars_from(text, pattern, pos);
        proof {
            lemma_first_match_from(text@, pattern@, pos as int);
        }
        match found {
            None => {
                let rest = sub_chars(text, pos, text.len());
                let ghost before = out@;
                out.append(&mut rest.clone());
                assert(out@ == before + rest@);
                return out;
            },
            Some(at) => {
                assert(matches_at(text@, pattern@, at as int));
                let ghost before = out@;
                let head = sub_chars(text, pos, at);
                out.append(&mut head.clone());
                out.append(&mut replacement.clone());
                assert(out@ == before + head@ + replacement@);
                assert(before + replace_from(text@, pattern@, replacement@, pos as int) == before
                    + (head@ + replacement@ + replace_from(
                    text@,
                    pattern@,
                    replacement@,
                    at + pattern@.len(),
                )));
                assert(out@ + replace_from(text@, pattern@, replacement@, at + pattern@.len())
                    == before + (head@ + replacement@ + replace_from(
                    text@,
                    pattern@,
                    replacement@,
                    at + pattern@.len(),
                )));
                pos = at + pattern.len();
            },
        }
    }
}

/// Replaces every occurrence of a non-empty `pattern` in `text` (bytes).
pub fn replace_bytes(text: &[u8], pattern: &[u8], replacement: &[u8]) -> (out: Vec<u8>)
    requires
        pattern@.len() > 0,
    ensures
        out@ == replace_all(text@, pattern@, replacement@),
{
    let n: usize = text.len();
    let mut out: Vec<u8> = Vec::new();
    let mut pos: usize = 0;
    loop
        invariant
            n == text@.len(),
            0 <= pos <= text@.len(),
            pattern@.len() > 0,
            out@ + replace_from(text@, pattern@, replacement@, pos as int) == replace_all(
                text@,
                pattern@,
                replacement@,
            ),
        decreases text@.len() - pos,
    {
        let found = find_bytes_from(text, pattern, pos);
        proof {
            lemma_first_match_from(text@, pattern@, pos as int);
        }
        match found {
            None => {
                let mut rest = sub_bytes(text, pos, text.len());
                let ghost before = out@;
                out.append(&mut rest);
                return out;
            },
            Some(at) => {
                assert(matches_at(text@, pattern@, at as int));
                let ghost before = out@;
                let mut head = sub_bytes(text, pos, at);
                let ghost head_view = head@;
                out.append(&mut head);
                let mut rep = vstd::slice::slice_to_vec(replacement);
                out.append(&mut rep);
                assert(out@ == before + head_view + replacement@);
                assert(out@ + replace_from(text@, pattern@, replacement@, at + pattern@.len())
                    == before + (head_view + replacement@ + replace_from(
                    text@,
                    pattern@,
                    replacement@,
                    at + pattern@.len(),
                )));
                pos = at + pattern.len();
            },
        }
    }
}

/// `str::split` with a non-empty text pattern, from `from` on: the pieces between
/// the occurrences, found left to right.
pub open spec fn split_from<T>(text: Seq<T>, separator: Seq<T>, from: int) -> Seq<Seq<T>>
    decreases text.len() - from,
{
    if separator.len() == 0 || from < 0 || from > text.len() {
        seq![text.subrange(if from < 0 { 0 } else if from > text.len() { text.len() as int } else { from }, text.len() as int)]
    } else {
        match first_match_from(text, separator, from) {
            None => seq![text.subrange(from, text.len() as int)],
            Some(at) => {
                proof {
                    lemma_first_match_from(text, separator, from);
                }
                seq![text.subrange(from, at)] + split_from(text, separator, at + separator.len())
            },
        }
    }
}

pub open spec fn split_all<T>(text: Seq<T>, separator: Seq<T>) -> Seq<Seq<T>> {
    split_from(text, separator, 0)
}

/// Splits `text` at every occurrence of a non-empty `separator`.
pub fn split_chars(text: &Vec<char>, separator: &Vec<char>) -> (pieces: Vec<Vec<char>>)
    requires
        separator@.len() > 0,
    ensures
        pieces@.map_values(|p: Vec<char>| p@) == split_all(text@, separator@),
{
    let n: usize = text.len();
    let mut pieces: Vec<Vec<char>> = Vec::new();
    let mut pos: usize = 0;
    loop
        invariant
            n == text@.len(),
            0 <= pos <= n,
            separator@.len() > 0,
            pieces@.map_values(|p: Vec<char>| p@) + split_from(text@, separator@, pos as int)
                == split_all(text@, separator@),
        decreases n - pos,
    {
        let found = find_chars_from(text, separator, pos);
        proof {
            lemma_first_match_from(text@, separator@, pos as int);
        }
        let ghost before = pieces@.map_values(|p: Vec<char>| p@);
        match found {
            None => {
                let piece = sub_chars(text, pos, n);
                pieces.push(piece);
                assert(pieces@.map_values(|p: Vec<char>| p@) =~= before + split_from(
                    text@,
                    separator@,
                    pos as int,
                ));
                return pieces;
            },
            Some(at) => {
                assert(matches_at(text@, separator@, at as int));
                let piece = sub_chars(text, pos, at);
                pieces.push(piece);
                let ghost rest = split_from(text@, separator@, at + separator@.len());
                assert(pieces@.map_values(|p: Vec<char>| p@) =~= before + seq![
                    text@.subrange(pos as int, at as int),
                ]);
                assert(before + split_from(text@, separator@, pos as int) == before + (seq![
                    text@.subrange(pos as int, at as int),
                ] + rest));
                assert(pieces@.map_values(|p: Vec<char>| p@) + rest =~= before + (seq![
                    text@.subrange(pos as int, at as int),
                ] + rest));
                pos = at + separator.len();
            },
        }
    }
}

/// Index of the first white character at or after `from`, or the length.
pub open spec fn next_white(text: Seq<char>, from: int) -> int
    decreases text.len() - from,
{
    if from >= text.len() || from < 0 {
        if from < 0 { 0 } else { text.len() as int }
    } else if is_white(text[from]) {
        from
    } else {
        next_white(text, from + 1)
    }
}

pub proof fn lemma_next_white_bounds(text: Seq<char>, from: int)
    requires
        0 <= from <= text.len(),
    ensures
        from <= next_white(text, from) <= text.len(),
        forall|k: int| from <= k < next_white(text, from) ==> !is_white(#[trigger] text[k]),
        from < text.len() && !is_white(text[from]) ==> from < next_white(text, from),
    decreases text.len() - from,
{
    if from < text.len() && !is_white(text[from]) {
        lemma_next_white_bounds(text, from + 1);
    }
}

/// `str::split_whitespace` from `from` on: the runs of non-white characters.
pub open spec fn tokens_from(text: Seq<char>, from: int) -> Seq<Seq<char>>
    decreases text.len() - from,
{
    if from < 0 || from >= text.len() {
        Seq::empty()
    } else {
        let start = skip_white(text, from);
        if start >= text.len() {
            Seq::empty()
        } else {
            let end = next_white(text, start);
            proof {
                lemma_skip_white_bounds(text, from);
                lemma_next_white_bounds(text, start);
            }
            seq![text.subrange(start, end)] + tokens_from(text, end)
        }
    }
}

pub open spec fn tokens(text: Seq<char>) -> Seq<Seq<char>> {
    tokens_from(text, 0)
}

/// The white-space separated words of `text`.
pub fn whitespace_tokens(text: &Vec<char>) -> (words: Vec<Vec<char>>)
    ensures
        words@.map_values(|w: Vec<char>| w@) == tokens(text@),
{
    let n: usize = text.len();
    let mut words: Vec<Vec<char>> = Vec::new();
    let mut pos: usize = 0;
    loop
        invariant
            n == text@.len(),
            0 <= pos <= n,
            words@.map_values(|w: Vec<char>| w@) + tokens_from(text@, pos as int) == tokens(text@),
        decreases n - pos,
    {
        let ghost before = words@.map_values(|w: Vec<char>| w@);
        proof {
            lemma_skip_white_bounds(text@, pos as int);
        }
        let mut start: usize = pos;
        while start < n && white(text[start])
            invariant
                n == text@.len(),
                pos <= start <= n,
                skip_white(text@, start as int) == skip_white(text@, pos as int),
            decreases n - start,
        {
            start = start + 1;
        }
        if start >= n {
            assert(tokens_from(text@, pos as int) =~= Seq::<Seq<char>>::empty());
            assert(words@.map_values(|w: Vec<char>| w@) =~= before);
            return words;
        }
        proof {
            lemma_next_white_bounds(text@, start as int);
        }
        let mut end: usize = start;
        while end < n && !white(text[end])
            invariant
                n == text@.len(),
                start <= end <= n,
                next_white(text@, end as int) == next_white(text@, start as int),
            decreases n - end,
        {
            end = end + 1;
        }
        let word = sub_chars(text, start, end);
        words.push(word);
        let ghost rest = tokens_from(text@, end as int);
        assert(words@.map_values(|w: Vec<char>| w@) =~= before + seq![
            text@.subrange(start as int, end as int),
        ]);
        assert(words@.map_values(|w: Vec<char>| w@) + rest =~= before + (seq![
            text@.subrange(start as int, end as int),
        ] + rest));
        pos = end;
    }
}

pub open spec fn is_digit(c: char) -> bool {
    '0' <= c && c <= '9'
}

/// The decimal value of a run of digits.
pub open spec fn digits_value(digits: Seq<char>) -> nat
    decreases digits.len(),
{
    if digits.len() == 0 {
        0
    } else {
        digits_value(digits.drop_last()) * 10 + ((digits.last() as u32) - ('0' as u32)) as nat
    }
}

/// `usize::from_str`: an optional `+`, then one or more ASCII digits, of a value that
/// fits.
pub open spec fn unsigned_digits(text: Seq<char>) -> Seq<char> {
    if text.len() > 0 && text[0] == '+' {
        text.subrange(1, text.len() as int)
    } else {
        text
    }
}

pub open spec fn all_digits(digits: Seq<char>) -> bool {
    forall|i: int| 0 <= i < digits.len() ==> is_digit(#[trigger] digits[i])
}

pub open spec fn spec_parse_usize(text: Seq<char>) -> Option<usize> {
    let digits = unsigned_digits(text);
    if digits.len() == 0 || !all_digits(digits) || digits_value(digits) > usize::MAX {
        None
    } else {
        Some(digits_value(digits) as usize)
    }
}

/// Parses a decimal `usize` as `str::parse` does.
pub fn parse_usize(text: &Vec<char>) -> (value: Option<usize>)
    ensures
        value == spec_parse_usize(text@),
{
    let n: usize = text.len();
    let start: usize = if n > 0 && text[0] == '+' {
        1
    } else {
        0
    };
    let ghost digits = text@.subrange(start as int, n as int);
    assert(digits == (if text@.len() > 0 && text@[0] == '+' {
        text@.subrange(1, text@.len() as int)
    } else {
        text@
    }));
    if start >= n {
        return None;
    }
    let mut value: usize = 0;
    let mut i: usize = start;
    while i < n
        invariant
            n == text@.len(),
            start <= i <= n,
            digits == text@.subrange(start as int, n as int),
            digits == (if text@.len() > 0 && text@[0] == '+' {
                text@.subrange(1, text@.len() as int)
            } else {
                text@
            }),
            forall|k: int| start <= k < i ==> is_digit(#[trigger] text@[k]),
            value == digits_value(text@.subrange(start as int, i as int)),
        decreases n - i,
    {
        let c = text[i];
        assert(text@.subrange(start as int, i + 1).drop_last() =~= text@.subrange(
            start as int,
            i as int,
        ));
        if !('0' <= c && c <= '9') {
            assert(digits[i - start] == c);
            assert(!is_digit(digits[i - start]));
            assert(!all_digits(digits));
            return None;
        }
        let d: usize = (c as u32 - '0' as u32) as usize;
        let scaled = value.checked_mul(10);
        match scaled {
            None => {
                proof {
                    lemma_digits_value_grows(text@.subrange(start as int, n as int), (i + 1 - start) as int);
                    assert(text@.subrange(start as int, n as int).subrange(0, (i + 1 - start) as int)
                        =~= text@.subrange(start as int, i + 1));
                    assert(digits_value(text@.subrange(start as int, i + 1)) == value * 10 + d);
                    assert(digits_value(digits) > usize::MAX);
                }
                return None;
            },
            Some(scaled) => match scaled.checked_add(d) {
                None => {
                    proof {
                        lemma_digits_value_grows(text@.subrange(start as int, n as int), (i + 1 - start) as int);
                        assert(text@.subrange(start as int, n as int).subrange(0, (i + 1 - start) as int)
                            =~= text@.subrange(start as int, i + 1));
                    }
                    return None;
                },
                Some(next) => {
                    value = next;
                },
            },
        }
        i = i + 1;
    }
    assert(text@.subrange(start as int, n as int) =~= digits);
    Some(value)
}

/// A longer run of digits is worth at least as much as its prefix.
proof fn lemma_digits_value_grows(digits: Seq<char>, k: int)
    requires
        0 <= k <= digits.len(),
    ensures
        digits_value(digits.subrange(0, k)) <= digits_value(digits),
    decreases digits.len() - k,
{
    if k < digits.len() {
        lemma_digits_value_grows(digits, k + 1);
        let p = digits.subrange(0, k + 1);
        assert(p.drop_last() =~= digits.subrange(0, k));
        assert(digits_value(digits.subrange(0, k)) <= digits_value(p)) by (nonlinear_arith)
            requires
                digits_value(p) == digits_value(digits.subrange(0, k)) * 10 + ((p.last() as u32) - ('0' as u32)) as nat,
        ;
    } else {
        assert(digits.subrange(0, k) =~= digits);
    }
}

} // verus!
