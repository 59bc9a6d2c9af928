//! Rendering of numbers and joining of text, as the protocol's identifiers
//! and versions are shown to people.
use vstd::prelude::*;
use vstd::string::StringExecFns;

verus! {

/// The lower-case hexadecimal digits, indexed by value.
pub const HEX_DIGITS: [char; 16] = [
    '0', '1', '2', '3', '4', '5', '6', '7', '8', '9', 'a', 'b', 'c', 'd', 'e', 'f',
];

/// The decimal digits, indexed by value.
pub const DEC_DIGITS: [char; 10] = ['0', '1', '2', '3', '4', '5', '6', '7', '8', '9'];

/// The character of a hexadecimal digit `d < 16`.
pub open spec fn hex_char(d: nat) -> char {
    HEX_DIGITS@[d as int]
}

/// The character of a decimal digit `d < 10`.
pub open spec fn dec_char(d: nat) -> char {
    DEC_DIGITS@[d as int]
}

/// The shortest lower-case hexadecimal rendering of `n` (`"0"` for zero).
pub open spec fn hex_digits(n: nat) -> Seq<char>
    decreases n,
{
    if n < 16 {
        seq![hex_char(n)]
    } else {
        hex_digits(n / 16).push(hex_char(n % 16))
    }
}

/// The shortest decimal rendering of `n` (`"0"` for zero).
pub open spec fn dec_digits(n: nat) -> Seq<char>
    decreases n,
{
    if n < 10 {
        seq![dec_char(n)]
    } else {
        dec_digits(n / 10).push(dec_char(n % 10))
    }
}

/// `s` with `'0'` put in front of it until it is at least `width` long.
pub open spec fn zero_padded(s: Seq<char>, width: nat) -> Seq<char> {
    if s.len() < width {
        Seq::new((width - s.len()) as nat, |i: int| '0') + s
    } else {
        s
    }
}

/// `String::push`: the string afterwards holds its old characters and then
/// `c`.
#[verifier::external_body]
pub(crate) fn string_push(s: &mut String, c: char)
    ensures
        final(s)@ == old(s)@.push(c),
{
    s.push(c)
}

/// A string holding the characters of a text.
pub(crate) fn string_from(text: &str) -> (s: String)
    ensures
        s@ == text@,
{
    String::from_str(text)
}

/// Appends the characters of `tail` to `s`.
pub(crate) fn push_text(s: &mut String, tail: &str)
    ensures
        final(s)@ == old(s)@ + tail@,
{
    s.append(tail);
}

/// Appends every character of `chars`, in order, to `s`.
pub(crate) fn push_chars(s: &mut String, chars: &Vec<char>)
    ensures
        final(s)@ == old(s)@ + chars@,
{
    let ghost start = s@;
    let mut i: usize = 0;
    while i < chars.len()
        invariant
            i <= chars.len(),
            s@ == start + chars@.subrange(0, i as int),
        decreases chars.len() - i,
    {
        string_push(s, chars[i]);
        assert(chars@.subrange(0, i + 1) == chars@.subrange(0, i as int).push(chars@[i as int]));
        i = i + 1;
    }
    assert(chars@.subrange(0, chars.len() as int) == chars@);
}

/// The shortest lower-case hexadecimal digits of `n`.
pub(crate) fn hex_chars(n: u64) -> (digits: Vec<char>)
    ensures
        digits@ == hex_digits(n as nat),
{
    let mut digits: Vec<char> = Vec::new();
    let mut m: u64 = n;
    while m >= 16
        invariant
            hex_digits(n as nat) == hex_digits(m as nat) + digits@,
        decreases m,
    {
        let d: u64 = m % 16;
        let ghost before = digits@;
        digits.insert(0, HEX_DIGITS[d as usize]);
        assert(hex_digits(m as nat) == hex_digits((m / 16) as nat).push(hex_char(d as nat)));
        assert(hex_digits(m as nat) + before == hex_digits((m / 16) as nat) + digits@);
        m = m / 16;
    }
    let ghost before = digits@;
    digits.insert(0, HEX_DIGITS[m as usize]);
    assert(digits@ == hex_digits(m as nat) + before);
    digits
}

/// The shortest decimal digits of `n`.
pub(crate) fn dec_chars(n: u64) -> (digits: Vec<char>)
    ensures
        digits@ == dec_digits(n as nat),
{
    let mut digits: Vec<char> = Vec::new();
    let mut m: u64 = n;
    while m >= 10
        invariant
            dec_digits(n as nat) == dec_digits(m as nat) + digits@,
        decreases m,
    {
        let d: u64 = m % 10;
        let ghost before = digits@;
        digits.insert(0, DEC_DIGITS[d as usize]);
        assert(dec_digits(m as nat) == dec_digits((m / 10) as nat).push(dec_char(d as nat)));
        assert(dec_digits(m as nat) + before == dec_digits((m / 10) as nat) + digits@);
        m = m / 10;
    }
    let ghost before = digits@;
    digits.insert(0, DEC_DIGITS[m as usize]);
    assert(digits@ == dec_digits(m as nat) + before);
    digits
}

/// Appends the hexadecimal digits of `n` to `s`, with leading zeros up to
/// `width` digits (the `{:0width$x}` rendering).
pub(crate) fn push_hex_padded(s: &mut String, n: u64, width: usize)
    ensures
        final(s)@ == old(s)@ + zero_padded(hex_digits(n as nat), width as nat),
{
    let digits = hex_chars(n);
    let ghost start = s@;
    if digits.len() < width {
        let pad: usize = width - digits.len();
        let mut i: usize = 0;
        while i < pad
            invariant
                i <= pad,
                s@ == start + Seq::new(i as nat, |k: int| '0'),
            decreases pad - i,
        {
            string_push(s, '0');
            assert(Seq::new((i + 1) as nat, |k: int| '0') == Seq::new(i as nat, |k: int| '0').push('0'));
            i = i + 1;
        }
        push_chars(s, &digits);
        assert(s@ == start + (Seq::new(pad as nat, |k: int| '0') + digits@));
    } else {
        push_chars(s, &digits);
    }
}

/// Appends the decimal digits of `n` to `s` (the `{}` rendering).
pub(crate) fn push_decimal(s: &mut String, n: u64)
    ensures
        final(s)@ == old(s)@ + dec_digits(n as nat),
{
    let digits = dec_chars(n);
    push_chars(s, &digits);
}

} // verus!
