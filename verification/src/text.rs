//! Small verified helpers on strings.

use vstd::prelude::*;
use vstd::string::StrSliceExecFns;
use vstd::string::StringExecFns;
use vstd::string::StringSliceAdditionalSpecFns;
use vstd::utf8::encode_utf8_decode_utf8;

verus! {

/// Whether two strings hold the same characters, decided on their bytes.
pub fn str_eq(a: &str, b: &str) -> (same: bool)
    ensures
        same == (a@ == b@),
{
    let x = a.as_bytes();
    let y = b.as_bytes();
    proof {
        encode_utf8_decode_utf8(a@);
        encode_utf8_decode_utf8(b@);
    }
    if x.len() != y.len() {
        return false;
    }
    let mut i: usize = 0;
    while i < x.len()
        invariant
            i <= x.len(),
            x.len() == y.len(),
            x@ == a.spec_bytes(),
            y@ == b.spec_bytes(),
            forall|j: int| 0 <= j < i ==> x@[j] == y@[j],
        decreases x.len() - i,
    {
        if x[i] != y[i] {
            return false;
        }
        i += 1;
    }
    assert(x@ =~= y@);
    true
}


/// The character that writes a single decimal digit.
pub open spec fn digit_char(d: nat) -> char
    recommends
        d < 10,
{
    if d == 0 {
        '0'
    } else if d == 1 {
        '1'
    } else if d == 2 {
        '2'
    } else if d == 3 {
        '3'
    } else if d == 4 {
        '4'
    } else if d == 5 {
        '5'
    } else if d == 6 {
        '6'
    } else if d == 7 {
        '7'
    } else if d == 8 {
        '8'
    } else {
        '9'
    }
}

/// A natural number written in base ten, without leading zeros.
pub open spec fn digits(n: nat) -> Seq<char>
    decreases n,
{
    if n < 10 {
        seq![digit_char(n)]
    } else {
        digits(n / 10).push(digit_char(n % 10))
    }
}

/// An integer written in base ten, with a leading `-` when it is negative.
pub open spec fn decimal(i: int) -> Seq<char> {
    if i < 0 {
        seq!['-'] + digits((-i) as nat)
    } else {
        digits(i as nat)
    }
}

/// The digits of a number are at least one, and the last is that of its
/// units.
pub proof fn lemma_digits_shape(n: nat)
    ensures
        digits(n).len() >= 1,
        digits(n).last() == digit_char(n % 10),
        digits(n)[0] != '-',
        n < 10 <==> digits(n).len() == 1,
    decreases n,
{
    if n >= 10 {
        lemma_digits_shape(n / 10);
    }
}

/// Two numbers that are written alike are the same number.
pub proof fn lemma_digits_are_injective(a: nat, b: nat)
    requires
        digits(a) == digits(b),
    ensures
        a == b,
    decreases a,
{
    lemma_digits_shape(a);
    lemma_digits_shape(b);
    if a >= 10 {
        assert(digits(a).drop_last() =~= digits(a / 10));
        assert(digits(b).drop_last() =~= digits(b / 10));
        lemma_digits_are_injective(a / 10, b / 10);
    }
}

/// Two integers that are written alike are the same integer.
pub proof fn lemma_decimal_is_injective(a: int, b: int)
    requires
        decimal(a) == decimal(b),
    ensures
        a == b,
{
    lemma_digits_shape(if a < 0 { (-a) as nat } else { a as nat });
    lemma_digits_shape(if b < 0 { (-b) as nat } else { b as nat });
    if a < 0 && b < 0 {
        let x = digits((-a) as nat);
        let y = digits((-b) as nat);
        assert((seq!['-'] + x).subrange(1, 1 + x.len() as int) =~= x);
        assert((seq!['-'] + y).subrange(1, 1 + y.len() as int) =~= y);
        lemma_digits_are_injective((-a) as nat, (-b) as nat);
    } else if a >= 0 && b >= 0 {
        lemma_digits_are_injective(a as nat, b as nat);
    } else if a < 0 {
        assert(decimal(a)[0] == '-');
    } else {
        assert(decimal(b)[0] == '-');
    }
}

fn digit_str(d: u64) -> (text: &'static str)
    requires
        d < 10,
    ensures
        text@ == seq![digit_char(d as nat)],
{
    proof {
        reveal_strlit("0");
        reveal_strlit("1");
        reveal_strlit("2");
        reveal_strlit("3");
        reveal_strlit("4");
        reveal_strlit("5");
        reveal_strlit("6");
        reveal_strlit("7");
        reveal_strlit("8");
        reveal_strlit("9");
    }
    let text = if d == 0 {
        "0"
    } else if d == 1 {
        "1"
    } else if d == 2 {
        "2"
    } else if d == 3 {
        "3"
    } else if d == 4 {
        "4"
    } else if d == 5 {
        "5"
    } else if d == 6 {
        "6"
    } else if d == 7 {
        "7"
    } else if d == 8 {
        "8"
    } else {
        "9"
    };
    assert(text@ =~= seq![digit_char(d as nat)]);
    text
}

/// Writes an unsigned number in base ten.
pub fn u64_to_string(n: u64) -> (text: String)
    ensures
        text@ == digits(n as nat),
    decreases n,
{
    if n < 10 {
        String::from_str(digit_str(n))
    } else {
        let mut text = u64_to_string(n / 10);
        text.append(digit_str(n % 10));
        assert(text@ =~= digits(n as nat));
        text
    }
}

/// Writes a signed number in base ten.
pub fn i64_to_string(i: i64) -> (text: String)
    ensures
        text@ == decimal(i as int),
{
    if i < 0 {
        let magnitude: u64 = ((-(i + 1)) as u64) + 1;
        let text = String::from_str("-").concat(u64_to_string(magnitude).as_str());
        proof {
            reveal_strlit("-");
            assert(text@ =~= decimal(i as int));
        }
        text
    } else {
        u64_to_string(i as u64)
    }
}

/// Two strings, one after the other.
pub fn join(head: &str, tail: &str) -> (text: String)
    ensures
        text@ == head@ + tail@,
{
    String::from_str(head).concat(tail)
}

/// Whether `needle` occurs in `haystack` at the given place.
pub open spec fn occurs_at(needle: Seq<u8>, haystack: Seq<u8>, at: int) -> bool {
    0 <= at && at + needle.len() <= haystack.len() && haystack.subrange(
        at,
        at + needle.len(),
    ) == needle
}

/// Whether `needle` occurs somewhere in `haystack`.
pub open spec fn occurs_in(needle: Seq<u8>, haystack: Seq<u8>) -> bool {
    exists|at: int| occurs_at(needle, haystack, at)
}

fn matches_at(haystack: &[u8], needle: &[u8], at: usize) -> (found: bool)
    requires
        at + needle@.len() <= haystack@.len(),
    ensures
        found == occurs_at(needle@, haystack@, at as int),
{
    let total: usize = haystack.len();
    let mut j: usize = 0;
    while j < needle.len()
        invariant
            j <= needle.len(),
            at + needle@.len() <= haystack@.len(),
            total == haystack@.len(),
            forall|k: int| 0 <= k < j ==> haystack@[at + k] == needle@[k],
        decreases needle.len() - j,
    {
        if haystack[at + j] != needle[j] {
            assert(haystack@.subrange(at as int, at + needle@.len())[j as int] == haystack@[at + j]);
            return false;
        }
        j += 1;
    }
    assert(haystack@.subrange(at as int, at + needle@.len()) =~= needle@);
    true
}

/// Whether one string occurs in another, decided on their bytes.
pub fn contains(haystack: &str, needle: &str) -> (found: bool)
    ensures
        found == occurs_in(needle.spec_bytes(), haystack.spec_bytes()),
{
    let hay = haystack.as_bytes();
    let pin = needle.as_bytes();
    if pin.len() > hay.len() {
        return false;
    }
    let last: usize = hay.len() - pin.len();
    let mut at: usize = 0;
    while at < last
        invariant
            at <= last,
            last == hay@.len() - pin@.len(),
            hay@ == haystack.spec_bytes(),
            pin@ == needle.spec_bytes(),
            forall|before: int| 0 <= before < at ==> !occurs_at(pin@, hay@, before),
        decreases last - at,
    {
        if matches_at(hay, pin, at) {
            return true;
        }
        at += 1;
    }
    matches_at(hay, pin, last)
}

/// Whether a character is white space, as Unicode counts it: the controls
/// from tab to carriage return, the space, the next-line control, and the
/// spaces and line separators beyond the ASCII range.
pub open spec fn white_space(c: char) -> bool {
    let code = c as u32;
    ||| 0x09 <= code <= 0x0D
    ||| code == 0x20
    ||| code == 0x85
    ||| code == 0xA0
    ||| code == 0x1680
    ||| 0x2000 <= code <= 0x200A
    ||| code == 0x2028
    ||| code == 0x2029
    ||| code == 0x202F
    ||| code == 0x205F
    ||| code == 0x3000
}

/// Whether a character is white space.
pub fn is_white_space(c: char) -> (white: bool)
    ensures
        white == white_space(c),
{
    let code: u32 = c as u32;
    (0x09 <= code && code <= 0x0D) || code == 0x20 || code == 0x85 || code == 0xA0 || code
        == 0x1680 || (0x2000 <= code && code <= 0x200A) || code == 0x2028 || code == 0x2029
        || code == 0x202F || code == 0x205F || code == 0x3000
}

/// The place of the first character that is no white space; the length of
/// the text where there is none.
pub open spec fn ink_start(text: Seq<char>) -> int
    decreases text.len(),
{
    if text.len() == 0 || !white_space(text[0]) {
        0
    } else {
        1 + ink_start(text.drop_first())
    }
}

/// The place after the last character that is no white space; zero where
/// there is none.
pub open spec fn ink_end(text: Seq<char>) -> int
    decreases text.len(),
{
    if text.len() == 0 || !white_space(text.last()) {
        text.len() as int
    } else {
        ink_end(text.drop_last())
    }
}

/// A text without the white space at its two ends: what lies between its
/// first and its last character that is no white space, and nothing where
/// it has none.
pub open spec fn trimmed(text: Seq<char>) -> Seq<char> {
    if ink_start(text) < ink_end(text) {
        text.subrange(ink_start(text), ink_end(text))
    } else {
        Seq::empty()
    }
}

/// The first character that is no white space is where the white space at
/// the start ends.
pub proof fn lemma_ink_start(text: Seq<char>, at: int)
    requires
        0 <= at <= text.len(),
        forall|i: int| 0 <= i < at ==> white_space(text[i]),
        at == text.len() || !white_space(text[at]),
    ensures
        ink_start(text) == at,
    decreases at,
{
    if at > 0 {
        let rest = text.drop_first();
        assert(white_space(text[0]));
        assert forall|i: int| 0 <= i < at - 1 implies white_space(rest[i]) by {
            assert(rest[i] == text[i + 1]);
        }
        lemma_ink_start(rest, at - 1);
    }
}

/// The last character that is no white space is where the white space at
/// the end begins.
pub proof fn lemma_ink_end(text: Seq<char>, at: int)
    requires
        0 <= at <= text.len(),
        forall|i: int| at <= i < text.len() ==> white_space(text[i]),
        at == 0 || !white_space(text[at - 1]),
    ensures
        ink_end(text) == at,
    decreases text.len() - at,
{
    if at < text.len() {
        let rest = text.drop_last();
        assert(white_space(text.last()));
        assert forall|i: int| at <= i < rest.len() implies white_space(rest[i]) by {
            assert(rest[i] == text[i]);
        }
        if at > 0 {
            assert(rest[at - 1] == text[at - 1]);
        }
        lemma_ink_end(rest, at);
    }
}

/// Takes the white space off the two ends of a text. Each character looked
/// at is found by walking the text, so this is meant for short texts.
pub fn trim(text: &str) -> (inner: &str)
    ensures
        inner@ == trimmed(text@),
{
    let total: usize = text.unicode_len();
    let mut start: usize = 0;
    while start < total && is_white_space(text.get_char(start))
        invariant
            start <= total,
            total == text@.len(),
            forall|i: int| 0 <= i < start ==> white_space(text@[i]),
        decreases total - start,
    {
        start += 1;
    }
    let mut end: usize = total;
    while end > start && is_white_space(text.get_char(end - 1))
        invariant
            start <= end <= total,
            total == text@.len(),
            forall|i: int| end <= i < total ==> white_space(text@[i]),
        decreases end,
    {
        end -= 1;
    }
    proof {
        lemma_ink_start(text@, start as int);
        if start < total {
            lemma_ink_end(text@, end as int);
        } else {
            lemma_ink_end(text@, 0);
        }
    }
    let inner = text.substring_char(start, end);
    assert(inner@ =~= trimmed(text@));
    inner
}

/// Whether a string, without the white space at its ends, is the given one.
pub fn trimmed_eq(text: &str, expected: &str) -> (same: bool)
    ensures
        same == (trimmed(text@) == expected@),
{
    str_eq(trim(text), expected)
}

} // verus!
