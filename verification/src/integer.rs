//! The machine integers as scalars of a form.
use vstd::prelude::*;
use crate::conversion::TextValue;
use crate::text::{integer_between, integer_text};

verus! {

/// The error that the standard library gives for a text that it does not
/// read as an integer.
#[verifier::external_type_specification]
#[verifier::external_body]
pub struct ExParseIntError(core::num::ParseIntError);

/// `ToString::to_string` for the error of reading an integer: its message.
#[verifier::external_body]
fn failure_message(error: &core::num::ParseIntError) -> (message: String) {
    error.to_string()
}

/// A machine integer: a scalar that is read from and written as decimal
/// digits behind an optional sign.
pub trait Integer: Sized + Copy {
    /// The least value of the type.
    spec fn least() -> int;

    /// The greatest value of the type.
    spec fn greatest() -> int;

    /// The integer that this value is.
    spec fn number(self) -> int;

    /// Every value lies between the least and the greatest, and is known by
    /// its number.
    proof fn known_by_number(self, other: Self)
        ensures
            Self::least() <= self.number() <= Self::greatest(),
            self.number() == other.number() ==> self == other,
    ;

    /// Reads `text` as a value of this type: the value that `text` denotes,
    /// where it denotes one of the type. Where it does not, this gives the
    /// message of the standard library for the failure.
    fn parse(text: &str) -> (result: Result<Self, String>)
        ensures
            integer_between(text@, Self::least(), Self::greatest()) == match result {
                Ok(value) => Some(value.number()),
                Err(_) => None::<int>,
            },
    ;

    /// The least value of the type.
    fn least_value() -> (value: Self)
        ensures
            value.number() == Self::least(),
    ;

    /// The greatest value of the type.
    fn greatest_value() -> (value: Self)
        ensures
            value.number() == Self::greatest(),
    ;

    /// The text of this value.
    fn to_text(self) -> (text: String)
        ensures
            text@ == integer_text(self.number()),
    ;
}

/// Whether `result` is what reading `text` as a `T` gives: the value that
/// `text` denotes, where it denotes one of the type, and else a failure,
/// whatever its message.
pub open spec fn read_as<T: Integer>(text: Seq<char>, result: Result<T, String>) -> bool {
    integer_between(text, T::least(), T::greatest()) == match result {
        Ok(value) => Some(value.number()),
        Err(_) => None::<int>,
    }
}

/// `str::parse` for `u16`. The text is read as decimal digits, at least
/// one, behind an optional `+`. It fails for a text of another form, and for
/// one that denotes a number outside the type.
#[verifier::external_body]
fn parse_u16(text: &str) -> (result: Result<u16, core::num::ParseIntError>)
    ensures
        integer_between(text@, 0, 0xffff) == match result {
            Ok(value) => Some(value as int),
            Err(_) => None::<int>,
        },
{
    text.parse::<u16>()
}

/// `ToString::to_string` for `u16`: the decimal digits of the value without
/// leading zeros.
#[verifier::external_body]
fn u16_to_string(value: u16) -> (text: String)
    ensures
        text@ == integer_text(value as int),
{
    value.to_string()
}

impl Integer for u16 {
    open spec fn least() -> int {
        0
    }

    open spec fn greatest() -> int {
        0xffff
    }

    open spec fn number(self) -> int {
        self as int
    }

    proof fn known_by_number(self, other: Self) {
    }

    fn parse(text: &str) -> (result: Result<Self, String>)
        ensures
            integer_between(text@, Self::least(), Self::greatest()) == match result {
                Ok(value) => Some(value.number()),
                Err(_) => None::<int>,
            },
    {
        match parse_u16(text) {
            Ok(value) => Ok(value),
            Err(error) => Err(failure_message(&error)),
        }
    }

    fn least_value() -> (value: Self)
        ensures
            value.number() == Self::least(),
    {
        u16::MIN
    }

    fn greatest_value() -> (value: Self)
        ensures
            value.number() == Self::greatest(),
    {
        u16::MAX
    }

    fn to_text(self) -> (text: String)
        ensures
            text@ == integer_text(self.number()),
    {
        u16_to_string(self)
    }
}

/// `str::parse` for `u32`. The text is read as decimal digits, at least
/// one, behind an optional `+`. It fails for a text of another form, and for
/// one that denotes a number outside the type.
#[verifier::external_body]
fn parse_u32(text: &str) -> (result: Result<u32, core::num::ParseIntError>)
    ensures
        integer_between(text@, 0, 0xffff_ffff) == match result {
            Ok(value) => Some(value as int),
            Err(_) => None::<int>,
        },
{
    text.parse::<u32>()
}

/// `ToString::to_string` for `u32`: the decimal digits of the value without
/// leading zeros.
#[verifier::external_body]
fn u32_to_string(value: u32) -> (text: String)
    ensures
        text@ == integer_text(value as int),
{
    value.to_string()
}

impl Integer for u32 {
    open spec fn least() -> int {
        0
    }

    open spec fn greatest() -> int {
        0xffff_ffff
    }

    open spec fn number(self) -> int {
        self as int
    }

    proof fn known_by_number(self, other: Self) {
    }

    fn parse(text: &str) -> (result: Result<Self, String>)
        ensures
            integer_between(text@, Self::least(), Self::greatest()) == match result {
                Ok(value) => Some(value.number()),
                Err(_) => None::<int>,
            },
    {
        match parse_u32(text) {
            Ok(value) => Ok(value),
            Err(error) => Err(failure_message(&error)),
        }
    }

    fn least_value() -> (value: Self)
        ensures
            value.number() == Self::least(),
    {
        u32::MIN
    }

    fn greatest_value() -> (value: Self)
        ensures
            value.number() == Self::greatest(),
    {
        u32::MAX
    }

    fn to_text(self) -> (text: String)
        ensures
            text@ == integer_text(self.number()),
    {
        u32_to_string(self)
    }
}

/// `str::parse` for `u64`. The text is read as decimal digits, at least
/// one, behind an optional `+`. It fails for a text of another form, and for
/// one that denotes a number outside the type.
#[verifier::external_body]
fn parse_u64(text: &str) -> (result: Result<u64, core::num::ParseIntError>)
    ensures
        integer_between(text@, 0, 0xffff_ffff_ffff_ffff) == match result {
            Ok(value) => Some(value as int),
            Err(_) => None::<int>,
        },
{
    text.parse::<u64>()
}

/// `ToString::to_string` for `u64`: the decimal digits of the value without
/// leading zeros.
#[verifier::external_body]
fn u64_to_string(value: u64) -> (text: String)
    ensures
        text@ == integer_text(value as int),
{
    value.to_string()
}

impl Integer for u64 {
    open spec fn least() -> int {
        0
    }

    open spec fn greatest() -> int {
        0xffff_ffff_ffff_ffff
    }

    open spec fn number(self) -> int {
        self as int
    }

    proof fn known_by_number(self, other: Self) {
    }

    fn parse(text: &str) -> (result: Result<Self, String>)
        ensures
            integer_between(text@, Self::least(), Self::greatest()) == match result {
                Ok(value) => Some(value.number()),
                Err(_) => None::<int>,
            },
    {
        match parse_u64(text) {
            Ok(value) => Ok(value),
            Err(error) => Err(failure_message(&error)),
        }
    }

    fn least_value() -> (value: Self)
        ensures
            value.number() == Self::least(),
    {
        u64::MIN
    }

    fn greatest_value() -> (value: Self)
        ensures
            value.number() == Self::greatest(),
    {
        u64::MAX
    }

    fn to_text(self) -> (text: String)
        ensures
            text@ == integer_text(self.number()),
    {
        u64_to_string(self)
    }
}

/// `str::parse` for `i32`. The text is read as decimal digits, at least
/// one, behind an optional `+` or `-`. It fails for a text of another form, and for
/// one that denotes a number outside the type.
#[verifier::external_body]
fn parse_i32(text: &str) -> (result: Result<i32, core::num::ParseIntError>)
    ensures
        integer_between(text@, -0x8000_0000, 0x7fff_ffff) == match result {
            Ok(value) => Some(value as int),
            Err(_) => None::<int>,
        },
{
    text.parse::<i32>()
}

/// `ToString::to_string` for `i32`: the decimal digits of the value without
/// leading zeros, behind `-` where it is negative.
#[verifier::external_body]
fn i32_to_string(value: i32) -> (text: String)
    ensures
        text@ == integer_text(value as int),
{
    value.to_string()
}

impl Integer for i32 {
    open spec fn least() -> int {
        -0x8000_0000
    }

    open spec fn greatest() -> int {
        0x7fff_ffff
    }

    open spec fn number(self) -> int {
        self as int
    }

    proof fn known_by_number(self, other: Self) {
    }

    fn parse(text: &str) -> (result: Result<Self, String>)
        ensures
            integer_between(text@, Self::least(), Self::greatest()) == match result {
                Ok(value) => Some(value.number()),
                Err(_) => None::<int>,
            },
    {
        match parse_i32(text) {
            Ok(value) => Ok(value),
            Err(error) => Err(failure_message(&error)),
        }
    }

    fn least_value() -> (value: Self)
        ensures
            value.number() == Self::least(),
    {
        i32::MIN
    }

    fn greatest_value() -> (value: Self)
        ensures
            value.number() == Self::greatest(),
    {
        i32::MAX
    }

    fn to_text(self) -> (text: String)
        ensures
            text@ == integer_text(self.number()),
    {
        i32_to_string(self)
    }
}

/// `str::parse` for `i64`. The text is read as decimal digits, at least
/// one, behind an optional `+` or `-`. It fails for a text of another form, and for
/// one that denotes a number outside the type.
#[verifier::external_body]
fn parse_i64(text: &str) -> (result: Result<i64, core::num::ParseIntError>)
    ensures
        integer_between(text@, -0x8000_0000_0000_0000, 0x7fff_ffff_ffff_ffff) == match result {
            Ok(value) => Some(value as int),
            Err(_) => None::<int>,
        },
{
    text.parse::<i64>()
}

/// `ToString::to_string` for `i64`: the decimal digits of the value without
/// leading zeros, behind `-` where it is negative.
#[verifier::external_body]
fn i64_to_string(value: i64) -> (text: String)
    ensures
        text@ == integer_text(value as int),
{
    value.to_string()
}

impl Integer for i64 {
    open spec fn least() -> int {
        -0x8000_0000_0000_0000
    }

    open spec fn greatest() -> int {
        0x7fff_ffff_ffff_ffff
    }

    open spec fn number(self) -> int {
        self as int
    }

    proof fn known_by_number(self, other: Self) {
    }

    fn parse(text: &str) -> (result: Result<Self, String>)
        ensures
            integer_between(text@, Self::least(), Self::greatest()) == match result {
                Ok(value) => Some(value.number()),
                Err(_) => None::<int>,
            },
    {
        match parse_i64(text) {
            Ok(value) => Ok(value),
            Err(error) => Err(failure_message(&error)),
        }
    }

    fn least_value() -> (value: Self)
        ensures
            value.number() == Self::least(),
    {
        i64::MIN
    }

    fn greatest_value() -> (value: Self)
        ensures
            value.number() == Self::greatest(),
    {
        i64::MAX
    }

    fn to_text(self) -> (text: String)
        ensures
            text@ == integer_text(self.number()),
    {
        i64_to_string(self)
    }
}

impl<T: Integer> TextValue for T {
    open spec fn reads(text: Seq<char>, result: Result<T, String>) -> bool {
        read_as(text, result)
    }

    open spec fn writes(&self, text: Seq<char>) -> bool {
        text == integer_text(self.number())
    }

    fn read(text: &str) -> (result: Result<T, String>)
        ensures
            Self::reads(text@, result),
    {
        T::parse(text)
    }

    fn write(&self) -> (text: String)
        ensures
            self.writes(text@),
    {
        self.to_text()
    }
}

} // verus!
