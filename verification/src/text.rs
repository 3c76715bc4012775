//! Text helpers shared by the rest of the crate: comparison, search, and the
//! decimal and hexadecimal renderings used in messages.

use vstd::prelude::*;
use vstd::string::*;

verus! {

/// The lowercase form of a text, as the standard library computes it.
pub uninterp spec fn lowercase_of(text: Seq<char>) -> Seq<char>;

/// Calls `str::to_lowercase`. The result is named by [`lowercase_of`]: it is
/// a function of the text alone.
#[verifier::external_body]
pub(crate) fn to_lowercase(s: &str) -> (r: String)
    ensures
        r@ == lowercase_of(s@),
{
    s.to_lowercase()
}

/// A text as `{:?}` shows it: between double quotes, with the characters
/// escaped that `str::escape_debug` escapes.
pub uninterp spec fn debug_text(text: Seq<char>) -> Seq<char>;

/// Formats `s` with `{:?}`, the `Debug` of `str`. The result is named by
/// [`debug_text`]: it is a function of the text alone.
#[verifier::external_body]
pub(crate) fn debug_quoted(s: &str) -> (r: String)
    ensures
        r@ == debug_text(s@),
{
    format!("{:?}", s)
}

/// Calls `String::push`, which appends one character to the string.
#[verifier::external_body]
pub(crate) fn push_char(s: &mut String, c: char)
    ensures
        final(s)@ == old(s)@.push(c),
{
    s.push(c)
}

/// Whether two texts hold the same characters.
pub fn same_text(a: &str, b: &str) -> (r: bool)
    ensures
        r == (a@ == b@),
{
    String::from_str(a) == String::from_str(b)
}

/// The characters of a text, in order.
pub fn chars_of(s: &str) -> (r: Vec<char>)
    ensures
        r@ == s@,
{
    let mut out: Vec<char> = Vec::new();
    for c in it: s.chars()
        invariant
            it.seq() == s@,
            out@ == s@.take(it.index()),
    {
        out.push(c);
        assert(out@ =~= s@.take(it.index() + 1));
    }
    assert(out@ =~= s@);
    out
}

/// `needle` occurs in `haystack` starting at position `at`.
pub open spec fn occurs_at(haystack: Seq<char>, needle: Seq<char>, at: int) -> bool {
    &&& 0 <= at
    &&& at + needle.len() <= haystack.len()
    &&& haystack.subrange(at, at + needle.len()) == needle
}

/// `needle` occurs somewhere in `haystack`. The empty text occurs in every text.
pub open spec fn contains_text(haystack: Seq<char>, needle: Seq<char>) -> bool {
    exists|at: int| occurs_at(haystack, needle, at)
}

fn matches_at(haystack: &Vec<char>, needle: &Vec<char>, at: usize) -> (r: bool)
    requires
        at + needle.len() <= haystack.len(),
    ensures
        r == occurs_at(haystack@, needle@, at as int),
{
    let mut j: usize = 0;
    while j < needle.len()
        invariant
            at + needle.len() <= haystack.len(),
            j <= needle.len(),
            forall|k: int| 0 <= k < j ==> haystack@[at + k] == needle@[k],
        decreases needle.len() - j,
    {
        if haystack[at + j] != needle[j] {
            assert(haystack@.subrange(at as int, at + needle.len())[j as int] != needle@[j as int]);
            return false;
        }
        j += 1;
    }
    assert(haystack@.subrange(at as int, at + needle.len()) =~= needle@);
    true
}

/// Whether `needle` occurs in `haystack`.
pub fn contains(haystack: &str, needle: &str) -> (r: bool)
    ensures
        r == contains_text(haystack@, needle@),
{
    let h = chars_of(haystack);
    let n = chars_of(needle);
    if n.len() > h.len() {
        return false;
    }
    let last: usize = h.len() - n.len();
    let mut at: usize = 0;
    while at <= last
        invariant
            last == h.len() - n.len(),
            n.len() <= h.len(),
            at <= last,
            h@ == haystack@,
            n@ == needle@,
            forall|k: int| 0 <= k < at ==> !occurs_at(h@, n@, k),
        decreases last - at,
    {
        if matches_at(&h, &n, at) {
            return true;
        }
        if at == last {
            return false;
        }
        at += 1;
    }
    false
}

/// `label` followed by `detail`.
pub fn labelled(label: &str, detail: &str) -> (r: String)
    ensures
        r@ == label@ + detail@,
{
    String::from_str(label).concat(detail)
}

/// The character that stands for a value below ten.
pub open spec fn digit_char(d: nat) -> char
    recommends
        d < 10,
{
    (('0' as u8) + d as u8) as char
}

/// The decimal digits of a number, most significant first, without padding.
pub open spec fn decimal_text(n: nat) -> Seq<char>
    decreases n,
{
    if n < 10 {
        seq![digit_char(n)]
    } else {
        decimal_text(n / 10).push(digit_char(n % 10))
    }
}

/// Appends the decimal digits of `n` to `out`.
pub fn push_decimal(out: &mut String, n: u64)
    ensures
        final(out)@ == old(out)@ + decimal_text(n as nat),
    decreases n,
{
    if n >= 10 {
        push_decimal(out, n / 10);
    }
    let d: u8 = (n % 10) as u8;
    push_char(out, (48u8 + d) as char);
    assert(final(out)@ =~= old(out)@ + decimal_text(n as nat));
}

/// The decimal rendering of `n`.
pub fn decimal(n: u64) -> (r: String)
    ensures
        r@ == decimal_text(n as nat),
{
    let mut out = String::new();
    push_decimal(&mut out, n);
    assert(out@ =~= decimal_text(n as nat));
    out
}

/// The lowercase hexadecimal digit of a value below sixteen.
pub open spec fn hex_digit_char(d: nat) -> char
    recommends
        d < 16,
{
    if d < 10 {
        (('0' as u8) + d as u8) as char
    } else {
        (('a' as u8) + (d - 10) as u8) as char
    }
}

/// The two lowercase hexadecimal digits of a byte.
pub open spec fn hex_byte_text(b: u8) -> Seq<char> {
    seq![hex_digit_char((b / 16) as nat), hex_digit_char((b % 16) as nat)]
}

/// The lowercase hexadecimal digit of `d`.
pub fn hex_digit(d: u8) -> (r: char)
    requires
        d < 16,
    ensures
        r == hex_digit_char(d as nat),
{
    if d < 10 {
        (48u8 + d) as char
    } else {
        (97u8 + (d - 10)) as char
    }
}

/// Appends the two lowercase hexadecimal digits of `b` to `out`.
pub fn push_hex_byte(out: &mut String, b: u8)
    ensures
        final(out)@ == old(out)@ + hex_byte_text(b),
{
    push_char(out, hex_digit(b / 16));
    push_char(out, hex_digit(b % 16));
}

/// The uppercase hexadecimal digit of a value below sixteen.
pub open spec fn upper_hex_digit_char(d: nat) -> char
    recommends
        d < 16,
{
    if d < 10 {
        (('0' as u8) + d as u8) as char
    } else {
        (('A' as u8) + (d - 10) as u8) as char
    }
}

/// The four uppercase hexadecimal digits of a 16-bit number.
pub open spec fn upper_hex_u16_text(n: u16) -> Seq<char> {
    seq![
        upper_hex_digit_char((n / 4096) as nat),
        upper_hex_digit_char((n / 256 % 16) as nat),
        upper_hex_digit_char((n / 16 % 16) as nat),
        upper_hex_digit_char((n % 16) as nat),
    ]
}

/// The uppercase hexadecimal digit of `d`.
pub fn upper_hex_digit(d: u8) -> (r: char)
    requires
        d < 16,
    ensures
        r == upper_hex_digit_char(d as nat),
{
    if d < 10 {
        (48u8 + d) as char
    } else {
        (65u8 + (d - 10)) as char
    }
}

/// Appends the four uppercase hexadecimal digits of `n` to `out`.
pub fn push_upper_hex_u16(out: &mut String, n: u16)
    ensures
        final(out)@ == old(out)@ + upper_hex_u16_text(n),
{
    push_char(out, upper_hex_digit((n / 4096) as u8));
    push_char(out, upper_hex_digit((n / 256 % 16) as u8));
    push_char(out, upper_hex_digit((n / 16 % 16) as u8));
    push_char(out, upper_hex_digit((n % 16) as u8));
}

/// The eight lowercase hexadecimal digits of a 32-bit number.
pub open spec fn hex_u32_text(n: u32) -> Seq<char> {
    hex_byte_text((n / 0x1000000) as u8) + hex_byte_text((n / 0x10000 % 256) as u8) + hex_byte_text(
        (n / 0x100 % 256) as u8,
    ) + hex_byte_text((n % 256) as u8)
}

/// Appends the eight lowercase hexadecimal digits of `n` to `out`.
pub fn push_hex_u32(out: &mut String, n: u32)
    ensures
        final(out)@ == old(out)@ + hex_u32_text(n),
{
    push_hex_byte(out, (n / 0x1000000) as u8);
    push_hex_byte(out, (n / 0x10000 % 256) as u8);
    push_hex_byte(out, (n / 0x100 % 256) as u8);
    push_hex_byte(out, (n % 256) as u8);
}

/// `text` without the occurrences of `c`.
pub open spec fn without_char(text: Seq<char>, c: char) -> Seq<char>
    decreases text.len(),
{
    if text.len() == 0 {
        Seq::empty()
    } else if text.last() == c {
        without_char(text.drop_last(), c)
    } else {
        without_char(text.drop_last(), c).push(text.last())
    }
}

/// Taking a character out of two texts in a row is taking it out of each.
pub proof fn lemma_without_char_concat(a: Seq<char>, b: Seq<char>, c: char)
    ensures
        without_char(a + b, c) == without_char(a, c) + without_char(b, c),
    decreases b.len(),
{
    if b.len() == 0 {
        assert(a + b =~= a);
        assert(without_char(a, c) + without_char(b, c) =~= without_char(a, c));
    } else {
        lemma_without_char_concat(a, b.drop_last(), c);
        assert((a + b).drop_last() =~= a + b.drop_last());
        assert((a + b).last() == b.last());
        if b.last() == c {
        } else {
            assert(without_char(a, c) + without_char(b.drop_last(), c).push(b.last()) =~= (without_char(a, c)
                + without_char(b.drop_last(), c)).push(b.last()));
        }
    }
}

/// A text that does not hold `c` stays as it is.
pub proof fn lemma_without_char_absent(text: Seq<char>, c: char)
    requires
        forall|i: int| 0 <= i < text.len() ==> text[i] != c,
    ensures
        without_char(text, c) == text,
    decreases text.len(),
{
    if text.len() > 0 {
        lemma_without_char_absent(text.drop_last(), c);
        assert(text.drop_last().push(text.last()) =~= text);
    }
}

/// `s` without the occurrences of `c`.
pub fn remove_char(s: &str, c: char) -> (r: String)
    ensures
        r@ == without_char(s@, c),
{
    let chars = chars_of(s);
    let mut out = String::new();
    let mut i: usize = 0;
    assert(s@.take(0) =~= Seq::<char>::empty());
    while i < chars.len()
        invariant
            chars@ == s@,
            i <= chars.len(),
            out@ == without_char(s@.take(i as int), c),
        decreases chars.len() - i,
    {
        proof {
            assert(s@.take(i + 1).drop_last() =~= s@.take(i as int));
            assert(s@.take(i + 1).last() == s@[i as int]);
        }
        if chars[i] != c {
            push_char(&mut out, chars[i]);
        }
        i += 1;
    }
    assert(s@.take(chars.len() as int) =~= s@);
    out
}

} // verus!
