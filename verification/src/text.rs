//! Character-level text helpers shared by every marker builder.
use vstd::prelude::*;

verus! {

/// Appends one character to a string.
///
/// Trusted wrapper around `String::push`; its contract claims only what the
/// standard library documents: the character is appended at the end.
#[verifier::external_body]
pub(crate) fn string_push(s: &mut String, c: char)
    ensures
        final(s)@ == old(s)@.push(c),
{
    s.push(c);
}

/// The characters of a string slice, in order.
pub fn chars_of(s: &str) -> (out: Vec<char>)
    ensures
        out@ == s@,
{
    let mut out: Vec<char> = Vec::new();
    for c in iter: s.chars()
        invariant
            out@ == iter.seq().take(iter.index() as int),
    {
        out.push(c);
    }
    out
}

/// Appends every character of `chars` to `out`.
pub fn push_chars(out: &mut String, chars: &Vec<char>)
    ensures
        final(out)@ == old(out)@ + chars@,
{
    let mut i: usize = 0;
    while i < chars.len()
        invariant
            i <= chars.len(),
            out@ == old(out)@ + chars@.take(i as int),
        decreases chars.len() - i,
    {
        assert(chars@.take(i + 1) == chars@.take(i as int).push(chars@[i as int]));
        string_push(out, chars[i]);
        i = i + 1;
    }
    assert(chars@.take(chars.len() as int) == chars@);
}

/// A string holding exactly `chars`.
pub fn string_from_chars(chars: &Vec<char>) -> (out: String)
    ensures
        out@ == chars@,
{
    let mut out = String::new();
    push_chars(&mut out, chars);
    out
}

/// The decimal digit character for `d < 10`.
pub open spec fn digit_char(d: int) -> char {
    (48 + d) as char
}

/// The decimal representation of a natural number, without leading zeros.
pub open spec fn dec_nat(n: nat) -> Seq<char>
    decreases n,
{
    if n < 10 {
        seq![digit_char(n as int)]
    } else {
        dec_nat(n / 10).push(digit_char((n % 10) as int))
    }
}

/// The decimal representation of an integer, with a leading `-` when negative.
pub open spec fn dec_int(n: int) -> Seq<char> {
    if n < 0 {
        seq!['-'] + dec_nat((-n) as nat)
    } else {
        dec_nat(n as nat)
    }
}

/// The text `true` or `false`.
pub open spec fn bool_text(b: bool) -> Seq<char> {
    if b {
        seq!['t', 'r', 'u', 'e']
    } else {
        seq!['f', 'a', 'l', 's', 'e']
    }
}

fn digit(d: u64) -> (c: char)
    requires
        d < 10,
    ensures
        c == digit_char(d as int),
{
    let b: u8 = 48u8 + (d as u8);
    b as char
}

/// Appends the decimal text of `n`.
pub fn push_u64(out: &mut String, n: u64)
    ensures
        final(out)@ == old(out)@ + dec_nat(n as nat),
    decreases n,
{
    if n >= 10 {
        push_u64(out, n / 10);
    }
    string_push(out, digit(n % 10));
    assert(dec_nat(n as nat) == if n < 10 {
        seq![digit_char(n as int)]
    } else {
        dec_nat((n / 10) as nat).push(digit_char((n % 10) as int))
    });
}

/// Appends the decimal text of `n`, with a `-` sign when negative.
pub fn push_i64(out: &mut String, n: i64)
    ensures
        final(out)@ == old(out)@ + dec_int(n as int),
{
    if n < 0 {
        string_push(out, '-');
        let magnitude: u64 = (-(n as i128)) as u64;
        push_u64(out, magnitude);
        assert(old(out)@.push('-') + dec_nat(magnitude as nat) == old(out)@ + (seq!['-']
            + dec_nat((-n) as nat)));
    } else {
        push_u64(out, n as u64);
    }
}

/// Appends `true` or `false`.
pub fn push_bool(out: &mut String, b: bool)
    ensures
        final(out)@ == old(out)@ + bool_text(b),
{
    if b {
        out.append("true");
        proof {
            reveal_strlit("true");
        }
    } else {
        out.append("false");
        proof {
            reveal_strlit("false");
        }
    }
}

/// Decimal text of an unsigned integer, as a new string.
pub fn u64_text(n: u64) -> (out: String)
    ensures
        out@ == dec_nat(n as nat),
{
    let mut out = String::new();
    push_u64(&mut out, n);
    assert(Seq::<char>::empty() + dec_nat(n as nat) == dec_nat(n as nat));
    out
}

/// Decimal text of a signed integer, as a new string.
pub fn i64_text(n: i64) -> (out: String)
    ensures
        out@ == dec_int(n as int),
{
    let mut out = String::new();
    push_i64(&mut out, n);
    assert(Seq::<char>::empty() + dec_int(n as int) == dec_int(n as int));
    out
}


/// ASCII letters and digits.
pub open spec fn is_ascii_alnum(c: char) -> bool {
    ('0' <= c && c <= '9') || ('a' <= c && c <= 'z') || ('A' <= c && c <= 'Z')
}

fn ascii_alnum(c: char) -> (r: bool)
    ensures
        r == is_ascii_alnum(c),
{
    ('0' <= c && c <= '9') || ('a' <= c && c <= 'z') || ('A' <= c && c <= 'Z')
}

/// Unicode `White_Space` characters, the set that `str::trim` removes.
pub open spec fn is_whitespace(c: char) -> bool {
    ||| ('\u{9}' <= c && c <= '\u{d}')
    ||| c == ' '
    ||| c == '\u{85}'
    ||| c == '\u{a0}'
    ||| c == '\u{1680}'
    ||| ('\u{2000}' <= c && c <= '\u{200a}')
    ||| c == '\u{2028}'
    ||| c == '\u{2029}'
    ||| c == '\u{202f}'
    ||| c == '\u{205f}'
    ||| c == '\u{3000}'
}

fn whitespace(c: char) -> (r: bool)
    ensures
        r == is_whitespace(c),
{
    ('\u{9}' <= c && c <= '\u{d}') || c == ' ' || c == '\u{85}' || c == '\u{a0}' || c
        == '\u{1680}' || ('\u{2000}' <= c && c <= '\u{200a}') || c == '\u{2028}' || c
        == '\u{2029}' || c == '\u{202f}' || c == '\u{205f}' || c == '\u{3000}'
}

/// `s` without its leading whitespace.
pub open spec fn trim_start(s: Seq<char>) -> Seq<char>
    decreases s.len(),
{
    if s.len() > 0 && is_whitespace(s[0]) {
        trim_start(s.drop_first())
    } else {
        s
    }
}

/// `s` without its trailing whitespace.
pub open spec fn trim_end(s: Seq<char>) -> Seq<char>
    decreases s.len(),
{
    if s.len() > 0 && is_whitespace(s.last()) {
        trim_end(s.drop_last())
    } else {
        s
    }
}

/// `s` without leading and trailing whitespace, as `str::trim` gives it.
pub open spec fn trim(s: Seq<char>) -> Seq<char> {
    trim_end(trim_start(s))
}

proof fn lemma_trim_start_skip(s: Seq<char>, i: int)
    requires
        0 <= i <= s.len(),
        forall|j: int| 0 <= j < i ==> is_whitespace(#[trigger] s[j]),
    ensures
        trim_start(s) == trim_start(s.skip(i)),
    decreases i,
{
    if i > 0 {
        assert(s.skip(1) == s.drop_first());
        lemma_trim_start_skip(s.drop_first(), i - 1);
        assert(s.drop_first().skip(i - 1) == s.skip(i));
    } else {
        assert(s.skip(0) == s);
    }
}

proof fn lemma_trim_end_take(s: Seq<char>, k: int)
    requires
        0 <= k <= s.len(),
        forall|j: int| k <= j < s.len() ==> is_whitespace(#[trigger] s[j]),
    ensures
        trim_end(s) == trim_end(s.take(k)),
    decreases s.len() - k,
{
    if k < s.len() {
        assert(s.drop_last() == s.take(s.len() - 1));
        lemma_trim_end_take(s.drop_last(), k);
        assert(s.drop_last().take(k) == s.take(k));
    } else {
        assert(s.take(k) == s);
    }
}

/// The characters of `s` without leading and trailing whitespace.
pub fn trimmed_chars(s: &str) -> (out: Vec<char>)
    ensures
        out@ == trim(s@),
{
    let chars = chars_of(s);
    let n = chars.len();
    let mut start: usize = 0;
    while start < n && whitespace(chars[start])
        invariant
            n == chars@.len(),
            start <= n,
            forall|j: int| 0 <= j < start ==> is_whitespace(#[trigger] chars@[j]),
        decreases n - start,
    {
        start = start + 1;
    }
    let mut end: usize = n;
    while end > start && whitespace(chars[end - 1])
        invariant
            n == chars@.len(),
            start <= end <= n,
            forall|j: int| end <= j < n ==> is_whitespace(#[trigger] chars@[j]),
        decreases end,
    {
        end = end - 1;
    }
    proof {
        lemma_trim_start_skip(chars@, start as int);
        let rest = chars@.skip(start as int);
        if start < n {
            assert(!is_whitespace(rest[0]));
        }
        assert(trim_start(rest) == rest);
        assert(forall|j: int| end - start <= j < rest.len() ==> is_whitespace(#[trigger] rest[j])
            ) by {
            assert forall|j: int| end - start <= j < rest.len() implies is_whitespace(
                #[trigger] rest[j],
            ) by {
                assert(rest[j] == chars@[start + j]);
            }
        }
        lemma_trim_end_take(rest, end - start);
        let kept = rest.take(end - start);
        if end > start {
            assert(kept.last() == chars@[end - 1]);
        }
        assert(trim_end(kept) == kept);
        assert(kept == chars@.subrange(start as int, end as int));
    }
    let mut out: Vec<char> = Vec::new();
    let mut i: usize = start;
    while i < end
        invariant
            start <= i <= end <= n,
            n == chars@.len(),
            out@ == chars@.subrange(start as int, i as int),
        decreases end - i,
    {
        out.push(chars[i]);
        i = i + 1;
        assert(out@ == chars@.subrange(start as int, i as int));
    }
    out
}

/// ASCII upper-case letters mapped to lower case; every other character kept.
pub open spec fn ascii_lower(c: char) -> char {
    if 'A' <= c && c <= 'Z' {
        ((c as u32) + 32) as char
    } else {
        c
    }
}

/// `str::to_ascii_lowercase` on a character sequence.
pub open spec fn ascii_lower_seq(s: Seq<char>) -> Seq<char> {
    s.map_values(|c: char| ascii_lower(c))
}

fn lower_char(c: char) -> (r: char)
    ensures
        r == ascii_lower(c),
{
    if 'A' <= c && c <= 'Z' {
        let code: u32 = c as u32;
        let b: u8 = (code as u8) + 32;
        b as char
    } else {
        c
    }
}

/// Underscores replaced by hyphens.
pub open spec fn underscore_to_hyphen(c: char) -> char {
    if c == '_' {
        '-'
    } else {
        c
    }
}

/// The canonical form of a mode or phase word: trimmed, ASCII lower case,
/// and `_` replaced by `-`.
pub open spec fn normalized_word(s: Seq<char>) -> Seq<char> {
    trim(s).map_values(|c: char| underscore_to_hyphen(ascii_lower(c)))
}

/// Trimmed and ASCII lower-cased characters of `s`.
pub fn lowered_trimmed(s: &str) -> (out: Vec<char>)
    ensures
        out@ == ascii_lower_seq(trim(s@)),
{
    let t = trimmed_chars(s);
    let mut out: Vec<char> = Vec::new();
    let mut i: usize = 0;
    while i < t.len()
        invariant
            i <= t.len(),
            out@ == ascii_lower_seq(t@.take(i as int)),
        decreases t.len() - i,
    {
        out.push(lower_char(t[i]));
        i = i + 1;
        assert(ascii_lower_seq(t@.take(i as int)) == ascii_lower_seq(t@.take(i - 1)).push(
            ascii_lower(t@[i - 1]),
        ));
    }
    assert(t@.take(t@.len() as int) == t@);
    out
}

/// The canonical form of a word, see [`normalized_word`].
pub fn normalize_word(s: &str) -> (out: Vec<char>)
    ensures
        out@ == normalized_word(s@),
{
    let t = trimmed_chars(s);
    let mut out: Vec<char> = Vec::new();
    let mut i: usize = 0;
    while i < t.len()
        invariant
            i <= t.len(),
            out@ == t@.take(i as int).map_values(|c: char| underscore_to_hyphen(ascii_lower(c))),
        decreases t.len() - i,
    {
        let c = lower_char(t[i]);
        let c = if c == '_' {
            '-'
        } else {
            c
        };
        out.push(c);
        i = i + 1;
        assert(t@.take(i as int).map_values(|c: char| underscore_to_hyphen(ascii_lower(c))) == t@.take(
            i - 1,
        ).map_values(|c: char| underscore_to_hyphen(ascii_lower(c))).push(
            underscore_to_hyphen(ascii_lower(t@[i - 1])),
        ));
    }
    assert(t@.take(t@.len() as int) == t@);
    out
}

/// Whether `a` holds exactly the characters of `b`.
pub fn chars_equal(a: &Vec<char>, b: &str) -> (r: bool)
    ensures
        r == (a@ == b@),
{
    let bc = chars_of(b);
    if a.len() != bc.len() {
        return false;
    }
    let mut i: usize = 0;
    while i < a.len()
        invariant
            a@.len() == bc@.len(),
            bc@ == b@,
            i <= a.len(),
            forall|j: int| 0 <= j < i ==> a@[j] == bc@[j],
        decreases a.len() - i,
    {
        let x: char = a[i];
        let y: char = bc[i];
        if x != y {
            assert(a@[i as int] != bc@[i as int]);
            return false;
        }
        i = i + 1;
    }
    assert(a@ == bc@);
    true
}

/// Whether two string slices hold the same characters.
pub fn str_equal(a: &str, b: &str) -> (r: bool)
    ensures
        r == (a@ == b@),
{
    let ac = chars_of(a);
    chars_equal(&ac, b)
}

/// Marker tokens keep ASCII letters, digits, `-`, `_` and `.`; every other
/// character becomes `_`.
pub open spec fn marker_token_char(c: char) -> char {
    if is_ascii_alnum(c) || c == '-' || c == '_' || c == '.' {
        c
    } else {
        '_'
    }
}

/// The marker token of a text.
pub open spec fn marker_token_spec(s: Seq<char>) -> Seq<char> {
    s.map_values(|c: char| marker_token_char(c))
}

/// Sanitizes free text into a single whitespace-free marker token.
pub fn marker_token(value: &str) -> (out: String)
    ensures
        out@ == marker_token_spec(value@),
{
    let chars = chars_of(value);
    let mut out = String::new();
    let mut i: usize = 0;
    while i < chars.len()
        invariant
            i <= chars.len(),
            out@ == marker_token_spec(chars@.take(i as int)),
        decreases chars.len() - i,
    {
        let c = chars[i];
        let kept = if ascii_alnum(c) || c == '-' || c == '_' || c == '.' {
            c
        } else {
            '_'
        };
        string_push(&mut out, kept);
        i = i + 1;
        assert(marker_token_spec(chars@.take(i as int)) == marker_token_spec(
            chars@.take(i - 1),
        ).push(marker_token_char(chars@[i - 1])));
    }
    assert(chars@.take(chars@.len() as int) == chars@);
    out
}

/// Appends the marker token of `value`.
pub fn push_marker_token(out: &mut String, value: &str)
    ensures
        final(out)@ == old(out)@ + marker_token_spec(value@),
{
    let token = marker_token(value);
    out.append(token.as_str());
}

/// Marker values additionally keep `:` and `/`.
pub open spec fn marker_value_char(c: char) -> char {
    if is_ascii_alnum(c) || c == '-' || c == '_' || c == '.' || c == ':' || c == '/' {
        c
    } else {
        '_'
    }
}

/// The marker value of a text: `empty` when it is blank, else its trimmed
/// characters with every character outside the value alphabet replaced by `_`.
pub open spec fn marker_value_spec(s: Seq<char>) -> Seq<char> {
    if trim(s).len() == 0 {
        seq!['e', 'm', 'p', 't', 'y']
    } else {
        trim(s).map_values(|c: char| marker_value_char(c))
    }
}

/// Sanitizes a configuration value for a marker field.
pub fn marker_value(value: &str) -> (out: String)
    ensures
        out@ == marker_value_spec(value@),
{
    let t = trimmed_chars(value);
    if t.len() == 0 {
        proof {
            reveal_strlit("empty");
        }
        return String::from_str("empty");
    }
    let mut out = String::new();
    let mut i: usize = 0;
    while i < t.len()
        invariant
            i <= t.len(),
            out@ == t@.take(i as int).map_values(|c: char| marker_value_char(c)),
        decreases t.len() - i,
    {
        let c = t[i];
        let kept = if ascii_alnum(c) || c == '-' || c == '_' || c == '.' || c == ':' || c == '/' {
            c
        } else {
            '_'
        };
        string_push(&mut out, kept);
        i = i + 1;
        assert(t@.take(i as int).map_values(|c: char| marker_value_char(c)) == t@.take(
            i - 1,
        ).map_values(|c: char| marker_value_char(c)).push(marker_value_char(t@[i - 1])));
    }
    assert(t@.take(t@.len() as int) == t@);
    out
}


/// `str::to_ascii_lowercase` on the characters of `s`.
pub fn ascii_lowercase(s: &str) -> (out: Vec<char>)
    ensures
        out@ == ascii_lower_seq(s@),
{
    let t = chars_of(s);
    let mut out: Vec<char> = Vec::new();
    let mut i: usize = 0;
    while i < t.len()
        invariant
            i <= t.len(),
            t@ == s@,
            out@ == ascii_lower_seq(t@.take(i as int)),
        decreases t.len() - i,
    {
        out.push(lower_char(t[i]));
        i = i + 1;
        assert(ascii_lower_seq(t@.take(i as int)) == ascii_lower_seq(t@.take(i - 1)).push(
            ascii_lower(t@[i - 1]),
        ));
    }
    assert(t@.take(t@.len() as int) == t@);
    out
}

/// `needle` occurs in `hay` starting at position `i`.
pub open spec fn occurs_at(hay: Seq<char>, needle: Seq<char>, i: int) -> bool {
    0 <= i && i + needle.len() <= hay.len() && hay.subrange(i, i + needle.len()) == needle
}

/// `needle` occurs somewhere in `hay` (`str::contains`).
pub open spec fn contains_text(hay: Seq<char>, needle: Seq<char>) -> bool {
    exists|i: int| occurs_at(hay, needle, i)
}

/// `i` is the first position where `needle` occurs in `hay` (`str::find`).
pub open spec fn is_first_occurrence(hay: Seq<char>, needle: Seq<char>, i: int) -> bool {
    occurs_at(hay, needle, i) && forall|j: int| 0 <= j < i ==> !occurs_at(hay, needle, j)
}

fn occurs_at_exec(hay: &Vec<char>, needle: &Vec<char>, i: usize) -> (r: bool)
    requires
        i + needle@.len() <= hay@.len(),
    ensures
        r == occurs_at(hay@, needle@, i as int),
{
    let n = hay.len();
    let mut k: usize = 0;
    while k < needle.len()
        invariant
            k <= needle@.len(),
            n == hay@.len(),
            i + needle@.len() <= hay@.len(),
            forall|m: int| 0 <= m < k ==> hay@[i + m] == needle@[m],
        decreases needle.len() - k,
    {
        if hay[i + k] != needle[k] {
            assert(hay@.subrange(i as int, i + needle@.len())[k as int] != needle@[k as int]);
            return false;
        }
        k = k + 1;
    }
    assert(hay@.subrange(i as int, i + needle@.len()) =~= needle@);
    true
}

/// The first position where `needle` occurs in `hay`.
pub fn find_chars(hay: &Vec<char>, needle: &Vec<char>) -> (r: Option<usize>)
    ensures
        match r {
            Some(i) => is_first_occurrence(hay@, needle@, i as int),
            None => !contains_text(hay@, needle@),
        },
{
    if needle.len() > hay.len() {
        return None;
    }
    let last = hay.len() - needle.len();
    let mut i: usize = 0;
    loop
        invariant
            last + needle@.len() == hay@.len(),
            i <= last,
            forall|j: int| 0 <= j < i ==> !occurs_at(hay@, needle@, j),
        decreases last - i,
    {
        if occurs_at_exec(hay, needle, i) {
            return Some(i);
        }
        if i == last {
            return None;
        }
        i = i + 1;
    }
}

/// Whether `needle` occurs in `hay`.
pub fn contains_chars(hay: &Vec<char>, needle: &str) -> (r: bool)
    ensures
        r == contains_text(hay@, needle@),
{
    let n = chars_of(needle);
    match find_chars(hay, &n) {
        Some(_) => true,
        None => false,
    }
}


fn digit128(d: u128) -> (c: char)
    requires
        d < 10,
    ensures
        c == digit_char(d as int),
{
    let b: u8 = 48u8 + (d as u8);
    b as char
}

/// Appends the decimal text of a 128-bit count.
pub fn push_u128(out: &mut String, n: u128)
    ensures
        final(out)@ == old(out)@ + dec_nat(n as nat),
    decreases n,
{
    if n >= 10 {
        push_u128(out, n / 10);
    }
    string_push(out, digit128(n % 10));
    assert(dec_nat(n as nat) == if n < 10 {
        seq![digit_char(n as int)]
    } else {
        dec_nat((n / 10) as nat).push(digit_char((n % 10) as int))
    });
}


/// Sanitizing a marker token again changes nothing, and a token has one
/// character per character of the text it came from.
pub proof fn lemma_marker_token_idempotent(s: Seq<char>)
    ensures
        marker_token_spec(marker_token_spec(s)) == marker_token_spec(s),
        marker_token_spec(s).len() == s.len(),
{
    assert(marker_token_spec(marker_token_spec(s)) =~= marker_token_spec(s));
}

} // verus!
