//! Text building blocks: appending characters, and the decimal and hexadecimal
//! renderings of integers.
use vstd::prelude::*;
use vstd::string::StrSliceExecFns;
use vstd::string::StringExecFns;

verus! {

/// Appends one character to a string (`String::push`).
///
/// The contract claims what std documents: the character is added at the end and
/// nothing else changes.
#[verifier::external_body]
pub fn push_char(text: &mut String, c: char)
    ensures
        final(text)@ == old(text)@.push(c),
{
    text.push(c);
}

/// The digit character of a value below ten.
pub open spec fn decimal_digit(d: nat) -> char {
    if d == 0 { '0' }
    else if d == 1 { '1' }
    else if d == 2 { '2' }
    else if d == 3 { '3' }
    else if d == 4 { '4' }
    else if d == 5 { '5' }
    else if d == 6 { '6' }
    else if d == 7 { '7' }
    else if d == 8 { '8' }
    else { '9' }
}

/// The lower-case hexadecimal digit character of a value below sixteen.
pub open spec fn hex_digit(d: nat) -> char {
    if d < 10 { decimal_digit(d) }
    else if d == 10 { 'a' }
    else if d == 11 { 'b' }
    else if d == 12 { 'c' }
    else if d == 13 { 'd' }
    else if d == 14 { 'e' }
    else { 'f' }
}

/// The decimal rendering of a natural number, without leading zeros.
pub open spec fn decimal(n: nat) -> Seq<char>
    decreases n,
{
    if n < 10 {
        seq![decimal_digit(n)]
    } else {
        decimal(n / 10).push(decimal_digit(n % 10))
    }
}

/// The decimal rendering of an integer, with a leading `-` when it is negative
/// (what `i64::to_string` gives).
pub open spec fn signed_decimal(v: int) -> Seq<char> {
    if v < 0 {
        seq!['-'] + decimal((-v) as nat)
    } else {
        decimal(v as nat)
    }
}

/// The last `width` lower-case hexadecimal digits of `v`, most significant first,
/// padded with zeros.
pub open spec fn lower_hex(v: nat, width: nat) -> Seq<char>
    decreases width,
{
    if width == 0 {
        Seq::empty()
    } else {
        lower_hex(v / 16, (width - 1) as nat).push(hex_digit(v % 16))
    }
}

/// The character of a decimal digit.
pub fn decimal_digit_char(d: u8) -> (c: char)
    requires
        d < 10,
    ensures
        c == decimal_digit(d as nat),
{
    if d == 0 { '0' }
    else if d == 1 { '1' }
    else if d == 2 { '2' }
    else if d == 3 { '3' }
    else if d == 4 { '4' }
    else if d == 5 { '5' }
    else if d == 6 { '6' }
    else if d == 7 { '7' }
    else if d == 8 { '8' }
    else { '9' }
}

/// The character of a lower-case hexadecimal digit.
pub fn hex_digit_char(d: u8) -> (c: char)
    requires
        d < 16,
    ensures
        c == hex_digit(d as nat),
{
    if d < 10 { decimal_digit_char(d) }
    else if d == 10 { 'a' }
    else if d == 11 { 'b' }
    else if d == 12 { 'c' }
    else if d == 13 { 'd' }
    else if d == 14 { 'e' }
    else { 'f' }
}

/// Appends the decimal rendering of `n`.
pub fn push_decimal(text: &mut String, n: u64)
    ensures
        final(text)@ == old(text)@ + decimal(n as nat),
    decreases n,
{
    if n >= 10 {
        push_decimal(text, n / 10);
    }
    let digit = decimal_digit_char((n % 10) as u8);
    push_char(text, digit);
    assert(old(text)@ + decimal(n as nat) =~= text@);
}

/// Appends the decimal rendering of `v`, with a leading `-` when it is negative.
pub fn push_signed_decimal(text: &mut String, v: i64)
    ensures
        final(text)@ == old(text)@ + signed_decimal(v as int),
{
    if v < 0 {
        push_char(text, '-');
        let magnitude: u64 = ((-(v + 1)) as u64) + 1;
        push_decimal(text, magnitude);
        assert(old(text)@ + signed_decimal(v as int) =~= text@);
    } else {
        push_decimal(text, v as u64);
    }
}

/// Appends the last `width` lower-case hexadecimal digits of `v`, most significant
/// first.
pub fn push_lower_hex(text: &mut String, v: u128, width: u8)
    ensures
        final(text)@ == old(text)@ + lower_hex(v as nat, width as nat),
    decreases width,
{
    if width > 0 {
        push_lower_hex(text, v / 16, width - 1);
        let digit = hex_digit_char((v % 16) as u8);
        push_char(text, digit);
        assert(old(text)@ + lower_hex(v as nat, width as nat) =~= text@);
    } else {
        assert(old(text)@ + lower_hex(v as nat, width as nat) =~= text@);
    }
}

/// The decimal rendering of an integer, as `i64::to_string` gives it.
pub fn signed_decimal_string(v: i64) -> (text: String)
    ensures
        text@ == signed_decimal(v as int),
{
    let mut text = String::new();
    push_signed_decimal(&mut text, v);
    assert(text@ =~= signed_decimal(v as int));
    text
}


/// Whether two strings hold the same characters.
pub fn same_text(a: &str, b: &str) -> (same: bool)
    ensures
        same == (a@ == b@),
{
    let n = a.unicode_len();
    if n != b.unicode_len() {
        return false;
    }
    let mut i: usize = 0;
    while i < n
        invariant
            n == a@.len(),
            n == b@.len(),
            i <= n,
            forall|k: int| 0 <= k < i ==> a@[k] == b@[k],
        decreases n - i,
    {
        if a.get_char(i) != b.get_char(i) {
            return false;
        }
        i = i + 1;
    }
    assert(a@ =~= b@);
    true
}

/// Whether `text` ends with the character `c`.
pub fn ends_with_char(text: &str, c: char) -> (ends: bool)
    ensures
        ends == (text@.len() > 0 && text@.last() == c),
{
    let n = text.unicode_len();
    n > 0 && text.get_char(n - 1) == c
}


/// Unicode `White_Space`, the characters that `char::is_whitespace` accepts.
pub open spec fn is_white_space(c: char) -> bool {
    let v = c as u32;
    ||| 0x09 <= v <= 0x0d
    ||| v == 0x20
    ||| v == 0x85
    ||| v == 0xa0
    ||| v == 0x1680
    ||| 0x2000 <= v <= 0x200a
    ||| v == 0x2028
    ||| v == 0x2029
    ||| v == 0x202f
    ||| v == 0x205f
    ||| v == 0x3000
}

/// The text without its leading white space.
pub open spec fn trim_start(s: Seq<char>) -> Seq<char>
    decreases s.len(),
{
    if s.len() > 0 && is_white_space(s[0]) {
        trim_start(s.drop_first())
    } else {
        s
    }
}

/// The text without its trailing white space.
pub open spec fn trim_end(s: Seq<char>) -> Seq<char>
    decreases s.len(),
{
    if s.len() > 0 && is_white_space(s.last()) {
        trim_end(s.drop_last())
    } else {
        s
    }
}

/// The text without leading and trailing white space, as `str::trim` gives it.
pub open spec fn trim(s: Seq<char>) -> Seq<char> {
    trim_end(trim_start(s))
}

/// Whether a character is white space (`char::is_whitespace`).
pub fn is_white_space_char(c: char) -> (ws: bool)
    ensures
        ws == is_white_space(c),
{
    let v = c as u32;
    (0x09 <= v && v <= 0x0d) || v == 0x20 || v == 0x85 || v == 0xa0 || v == 0x1680 || (0x2000 <= v
        && v <= 0x200a) || v == 0x2028 || v == 0x2029 || v == 0x202f || v == 0x205f || v == 0x3000
}

proof fn lemma_trim_start_skips(t: Seq<char>, i: int)
    requires
        0 <= i <= t.len(),
        forall|k: int| 0 <= k < i ==> is_white_space(#[trigger] t[k]),
        i == t.len() || !is_white_space(t[i]),
    ensures
        trim_start(t) == t.subrange(i, t.len() as int),
    decreases i,
{
    if i == 0 {
        assert(t.subrange(0, t.len() as int) =~= t);
    } else {
        assert(is_white_space(t[0]));
        let u = t.drop_first();
        assert forall|k: int| 0 <= k < i - 1 implies is_white_space(#[trigger] u[k]) by {
            assert(u[k] == t[k + 1]);
        }
        lemma_trim_start_skips(u, i - 1);
        assert(u.subrange(i - 1, u.len() as int) =~= t.subrange(i, t.len() as int));
    }
}

proof fn lemma_trim_end_skips(u: Seq<char>, j: int)
    requires
        0 <= j <= u.len(),
        forall|k: int| j <= k < u.len() ==> is_white_space(#[trigger] u[k]),
        j == 0 || !is_white_space(u[j - 1]),
    ensures
        trim_end(u) == u.subrange(0, j),
    decreases u.len() - j,
{
    if j == u.len() {
        assert(u.subrange(0, j) =~= u);
    } else {
        assert(is_white_space(u.last()));
        let v = u.drop_last();
        assert forall|k: int| j <= k < v.len() implies is_white_space(#[trigger] v[k]) by {
            assert(v[k] == u[k]);
        }
        lemma_trim_end_skips(v, j);
        assert(v.subrange(0, j) =~= u.subrange(0, j));
    }
}

/// The text without leading and trailing white space (`str::trim`).
pub fn trim_text(text: &str) -> (trimmed: String)
    ensures
        trimmed@ == trim(text@),
{
    let n = text.unicode_len();
    let mut i: usize = 0;
    while i < n && is_white_space_char(text.get_char(i))
        invariant
            n == text@.len(),
            i <= n,
            forall|k: int| 0 <= k < i ==> is_white_space(#[trigger] text@[k]),
        decreases n - i,
    {
        i = i + 1;
    }
    proof {
        lemma_trim_start_skips(text@, i as int);
    }
    let mut j: usize = n;
    while j > i && is_white_space_char(text.get_char(j - 1))
        invariant
            n == text@.len(),
            i <= j <= n,
            forall|k: int| j <= k < n ==> is_white_space(#[trigger] text@[k]),
        decreases j - i,
    {
        j = j - 1;
    }
    let ghost u = text@.subrange(i as int, n as int);
    proof {
        assert forall|k: int| (j - i) <= k < u.len() implies is_white_space(#[trigger] u[k]) by {
            assert(u[k] == text@[k + i]);
        }
        if j > i {
            assert(u[j - i - 1] == text@[j - 1]);
        }
        lemma_trim_end_skips(u, j - i);
        assert(u.subrange(0, j - i) =~= text@.subrange(i as int, j as int));
    }
    String::from_str(text.substring_char(i, j))
}

} // verus!
