//! What the conversions need to know about texts: white space and trimming,
//! decimal numbers, and comma separated lists.
use vstd::prelude::*;

verus! {

/// Whether `c` is a white space character (the Unicode property `White_Space`).
pub open spec fn is_white_space(c: char) -> bool {
    let code = c as u32;
    ||| 0x09 <= code <= 0x0D
    ||| code == 0x20
    ||| code == 0x85
    ||| code == 0xA0
    ||| code == 0x1680
    ||| 0x2000 <= code <= 0x200A
    ||| code == 0x2028
    ||| code == 0x2029
    ||| code == 0x202F
    ||| code == 0x205F
    ||| code == 0x3000
}

/// `text` without the white space it starts with.
pub open spec fn trimmed_start(text: Seq<char>) -> Seq<char>
    decreases text.len(),
{
    if text.len() > 0 && is_white_space(text.first()) {
        trimmed_start(text.drop_first())
    } else {
        text
    }
}

/// `text` without the white space it ends with.
pub open spec fn trimmed_end(text: Seq<char>) -> Seq<char>
    decreases text.len(),
{
    if text.len() > 0 && is_white_space(text.last()) {
        trimmed_end(text.drop_last())
    } else {
        text
    }
}

/// `text` without the white space around it.
pub open spec fn trimmed(text: Seq<char>) -> Seq<char> {
    trimmed_end(trimmed_start(text))
}

/// Whether `c` is one of the decimal digits `0` to `9`.
pub open spec fn is_digit(c: char) -> bool {
    0x30 <= c as u32 <= 0x39
}

/// The decimal digit that stands for `d`, which is below ten.
pub open spec fn digit_char(d: nat) -> char {
    (0x30 + d) as u8 as char
}

/// The number that a sequence of decimal digits denotes.
pub open spec fn digits_value(digits: Seq<char>) -> nat
    decreases digits.len(),
{
    if digits.len() == 0 {
        0
    } else {
        (digits_value(digits.drop_last()) * 10 + (digits.last() as u32 - 0x30)) as nat
    }
}

/// Whether `text` holds decimal digits, and at least one.
pub open spec fn is_number(text: Seq<char>) -> bool {
    &&& text.len() > 0
    &&& forall|i: int| 0 <= i < text.len() ==> is_digit(#[trigger] text[i])
}

/// The integer that `text` denotes: decimal digits behind an optional sign,
/// `+` or, where `signed`, `-`. `None` where `text` is of another form.
pub open spec fn integer_value(text: Seq<char>, signed: bool) -> Option<int> {
    if text.len() > 0 && text.first() == '+' {
        if is_number(text.drop_first()) {
            Some(digits_value(text.drop_first()) as int)
        } else {
            None
        }
    } else if signed && text.len() > 0 && text.first() == '-' {
        if is_number(text.drop_first()) {
            Some(-(digits_value(text.drop_first()) as int))
        } else {
            None
        }
    } else if is_number(text) {
        Some(digits_value(text) as int)
    } else {
        None
    }
}

/// The decimal digits of `n`, without leading zeros.
pub open spec fn digits_of(n: nat) -> Seq<char>
    decreases n,
{
    if n < 10 {
        seq![digit_char(n)]
    } else {
        digits_of(n / 10).push(digit_char(n % 10))
    }
}

/// The text that stands for the integer `n`.
pub open spec fn integer_text(n: int) -> Seq<char> {
    if n < 0 {
        seq!['-'] + digits_of((-n) as nat)
    } else {
        digits_of(n as nat)
    }
}

/// The parts of `text` between the places where `separator` stands: one
/// more than there are such places.
pub open spec fn separated(text: Seq<char>, separator: char) -> Seq<Seq<char>>
    decreases text.len(),
{
    if text.len() == 0 {
        seq![Seq::<char>::empty()]
    } else {
        let before = separated(text.drop_last(), separator);
        if text.last() == separator {
            before.push(Seq::<char>::empty())
        } else {
            before.drop_last().push(before.last().push(text.last()))
        }
    }
}

/// The parts of `text` between its commas.
pub open spec fn comma_separated(text: Seq<char>) -> Seq<Seq<char>> {
    separated(text, ',')
}

/// The integer that `text` denotes, where it lies between `least` and
/// `greatest`. A sign `-` is read only where `least` is negative.
pub open spec fn integer_between(text: Seq<char>, least: int, greatest: int) -> Option<int> {
    match integer_value(text, least < 0) {
        Some(n) => if least <= n <= greatest {
            Some(n)
        } else {
            None
        },
        None => None,
    }
}

/// A text that neither starts nor ends with white space is trimmed already.
pub proof fn trimmed_of_tight_text(text: Seq<char>)
    requires
        text.len() > 0,
        !is_white_space(text.first()),
        !is_white_space(text.last()),
    ensures
        trimmed(text) == text,
{
}

/// A text of white space alone, and the empty text, trim to the empty text.
pub proof fn trimmed_of_white_space(text: Seq<char>)
    requires
        forall|i: int| 0 <= i < text.len() ==> is_white_space(#[trigger] text[i]),
    ensures
        trimmed(text).len() == 0,
    decreases text.len(),
{
    if text.len() > 0 {
        let rest = text.drop_first();
        assert forall|i: int| 0 <= i < rest.len() implies is_white_space(#[trigger] rest[i]) by {
            assert(rest[i] == text[i + 1]);
        }
        trimmed_of_white_space(rest);
    }
}

/// The digits of a number are decimal digits, at least one, and denote it.
pub proof fn digits_denote_their_number(n: nat)
    ensures
        is_number(digits_of(n)),
        digits_value(digits_of(n)) == n,
    decreases n,
{
    if n < 10 {
        assert(digits_of(n).drop_last() =~= Seq::<char>::empty());
        assert(digits_value(digits_of(n).drop_last()) == 0);
    } else {
        digits_denote_their_number(n / 10);
        assert(digits_of(n).drop_last() =~= digits_of(n / 10));
        assert(digits_of(n).last() == digit_char(n % 10));
    }
}

/// The text of an integer denotes that integer, where the sign is read.
pub proof fn text_denotes_its_integer(n: int, signed: bool)
    requires
        n < 0 ==> signed,
    ensures
        integer_value(integer_text(n), signed) == Some(n),
        trimmed(integer_text(n)) == integer_text(n),
{
    if n < 0 {
        let digits = digits_of((-n) as nat);
        digits_denote_their_number((-n) as nat);
        assert(integer_text(n).drop_first() =~= digits);
        assert(integer_text(n).first() == '-');
        assert(integer_text(n).last() == digits.last());
        assert(is_digit(digits[digits.len() - 1]));
        trimmed_of_tight_text(integer_text(n));
    } else {
        let digits = digits_of(n as nat);
        digits_denote_their_number(n as nat);
        assert(is_digit(digits[0]));
        assert(is_digit(digits[digits.len() - 1]));
        trimmed_of_tight_text(digits);
    }
}

/// `str::trim`: the text without the white space that it starts and ends
/// with, where white space is what `char::is_whitespace` says it is.
#[verifier::external_body]
pub(crate) fn trim(text: &str) -> (inner: &str)
    ensures
        inner@ == trimmed(text@),
{
    text.trim()
}

/// `str::split` at a character, collected: the parts of the text between
/// the places where `separator` stands, in order. A text without the
/// separator is one part, also where it is empty.
#[verifier::external_body]
pub(crate) fn split_at(text: &str, separator: char) -> (parts: Vec<&str>)
    ensures
        parts@.len() == separated(text@, separator).len(),
        forall|i: int|
            0 <= i < parts@.len() ==> (#[trigger] parts@[i])@ == separated(text@, separator)[i],
{
    text.split(separator).collect()
}

} // verus!
