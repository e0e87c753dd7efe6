//! The conversion of a numeric input: the text is first read as a wide
//! number, which is then narrowed to the scalar within its bounds.
use vstd::prelude::*;
use crate::conversion::{Named, ParseAndFormat, TextValue};
use crate::error::{of_present, ParseError};
use crate::integer::Integer;
use crate::text::{integer_text, trim, trimmed};

verus! {

/// A scalar that is entered as a number.
///
/// The text is read as a `Wide`, and the `Wide` is narrowed to the scalar.
/// A text that is no `Wide` at all is reported as a number out of range, with
/// the name and the bounds that the scalar gives here; a `Wide` that does not
/// narrow is reported with the message that `narrow` gives.
pub trait NumericValue: Sized + Named {
    /// The number that the text is read as first.
    type Wide: TextValue;

    /// Whether `min_text` may give `text`.
    open spec fn least_written(text: Seq<char>) -> bool {
        true
    }

    /// Whether `max_text` may give `text`.
    open spec fn greatest_written(text: Seq<char>) -> bool {
        true
    }

    /// Whether `narrow` may give `result` for `via`.
    open spec fn narrows(via: Self::Wide, result: Result<Self, String>) -> bool {
        true
    }

    /// Whether `show` may give `text` for this value.
    open spec fn shown(&self, text: Seq<char>) -> bool {
        true
    }

    /// The text of the least value.
    fn min_text() -> (text: String)
        ensures
            Self::least_written(text@),
    ;

    /// The text of the greatest value.
    fn max_text() -> (text: String)
        ensures
            Self::greatest_written(text@),
    ;

    /// The scalar that `via` stands for, or the message that says why it
    /// stands for none.
    fn narrow(via: Self::Wide) -> (result: Result<Self, String>)
        ensures
            Self::narrows(via, result),
    ;

    /// The text of this value.
    fn show(&self) -> (text: String)
        ensures
            self.shown(text@),
    ;
}

/// A machine integer is called "a number".
impl<T: Integer> Named for T {
    open spec fn named(name: Seq<char>) -> bool {
        name == "a number"@
    }

    fn kind_name() -> (name: String)
        ensures
            Self::named(name@),
    {
        "a number".to_owned()
    }
}

/// A machine integer is entered as itself: its bounds are those of the type.
impl<T: Integer> NumericValue for T {
    type Wide = T;

    open spec fn least_written(text: Seq<char>) -> bool {
        text == integer_text(T::least())
    }

    open spec fn greatest_written(text: Seq<char>) -> bool {
        text == integer_text(T::greatest())
    }

    open spec fn narrows(via: T, result: Result<T, String>) -> bool {
        result == Ok::<T, String>(via)
    }

    open spec fn shown(&self, text: Seq<char>) -> bool {
        text == integer_text(self.number())
    }

    fn min_text() -> (text: String)
        ensures
            Self::least_written(text@),
    {
        T::least_value().to_text()
    }

    fn max_text() -> (text: String)
        ensures
            Self::greatest_written(text@),
    {
        T::greatest_value().to_text()
    }

    fn narrow(via: T) -> (result: Result<T, String>)
        ensures
            Self::narrows(via, result),
    {
        Ok(via)
    }

    fn show(&self) -> (text: String)
        ensures
            self.shown(text@),
    {
        self.to_text()
    }
}

/// Whether `result` is what a numeric input makes of `wide`, the outcome of
/// reading its text as a wide number.
pub open spec fn narrowed<T: NumericValue>(
    wide: Result<T::Wide, String>,
    result: Result<T, ParseError>,
) -> bool {
    match wide {
        Ok(via) => match result {
            Ok(value) => T::narrows(via, Ok(value)),
            Err(ParseError::FromStrError(message)) => T::narrows(via, Err(message)),
            Err(_) => false,
        },
        Err(_) => match result {
            Err(ParseError::NumberOutOfRange { required_type, min, max }) => {
                &&& T::named(required_type@)
                &&& T::least_written(min@)
                &&& T::greatest_written(max@)
            },
            _ => false,
        },
    }
}

/// Whether `result` is what a numeric input makes of the text `inner`, which
/// is trimmed and not empty.
pub open spec fn read_as_number<T: NumericValue>(inner: Seq<char>, result: Result<T, ParseError>) -> bool {
    exists|wide: Result<T::Wide, String>| #[trigger] T::Wide::reads(inner, wide) && narrowed(wide, result)
}

/// Narrows the outcome `wide` of reading a text as a wide number. A text
/// that was no wide number is out of range, whatever it held; a wide number
/// that does not narrow fails with the message of the narrowing.
pub fn narrow_wide<T: NumericValue>(wide: Result<T::Wide, String>) -> (result: Result<T, ParseError>)
    ensures
        narrowed(wide, result),
{
    match wide {
        Ok(via) => match T::narrow(via) {
            Ok(value) => Ok(value),
            Err(message) => Err(ParseError::FromStrError(message)),
        },
        Err(_) => Err(
            ParseError::NumberOutOfRange {
                required_type: T::kind_name(),
                min: T::min_text(),
                max: T::max_text(),
            },
        ),
    }
}

/// The conversion of a numeric input.
pub struct Number;

/// A required number: an empty text is an error.
impl<T: NumericValue> ParseAndFormat<T> for Number {
    open spec fn parses(raw: Seq<char>, result: Result<T, ParseError>) -> bool {
        if trimmed(raw).len() == 0 {
            result == Err::<T, ParseError>(ParseError::Required)
        } else {
            read_as_number(trimmed(raw), result)
        }
    }

    open spec fn formats(value: &T, text: Seq<char>) -> bool {
        value.shown(text)
    }

    fn parse(value: &str) -> (result: Result<T, ParseError>)
        ensures
            <Self as ParseAndFormat<T>>::parses(value@, result),
    {
        let inner = trim(value);
        if inner.is_empty() {
            Err(ParseError::Required)
        } else {
            narrow_wide(T::Wide::read(inner))
        }
    }

    fn format(value: &T) -> (text: String)
        ensures
            <Self as ParseAndFormat<T>>::formats(value, text@),
    {
        value.show()
    }
}

/// An optional number: an empty text stands for no value.
impl<T: NumericValue> ParseAndFormat<Option<T>> for Number {
    open spec fn parses(raw: Seq<char>, result: Result<Option<T>, ParseError>) -> bool {
        if trimmed(raw).len() == 0 {
            result == Ok::<Option<T>, ParseError>(None)
        } else {
            of_present(result) is Some && read_as_number(trimmed(raw), of_present(result)->0)
        }
    }

    open spec fn formats(value: &Option<T>, text: Seq<char>) -> bool {
        match value {
            None => text == Seq::<char>::empty(),
            Some(inner) => inner.shown(text),
        }
    }

    fn parse(value: &str) -> (result: Result<Option<T>, ParseError>)
        ensures
            <Self as ParseAndFormat<Option<T>>>::parses(value@, result),
    {
        let inner = trim(value);
        if inner.is_empty() {
            Ok(None)
        } else {
            match narrow_wide::<T>(T::Wide::read(inner)) {
                Ok(value) => Ok(Some(value)),
                Err(error) => Err(error),
            }
        }
    }

    fn format(value: &Option<T>) -> (text: String)
        ensures
            <Self as ParseAndFormat<Option<T>>>::formats(value, text@),
    {
        match value {
            None => String::new(),
            Some(inner) => inner.show(),
        }
    }
}

/// The conversion of a numeric input for which an empty text stands for the
/// default value of the scalar.
pub struct NumberOrDefault;

impl<T: NumericValue + Default> ParseAndFormat<T> for NumberOrDefault {
    open spec fn parses(raw: Seq<char>, result: Result<T, ParseError>) -> bool {
        if trimmed(raw).len() == 0 {
            result is Ok && call_ensures(T::default, (), result->Ok_0)
        } else {
            read_as_number(trimmed(raw), result)
        }
    }

    open spec fn formats(value: &T, text: Seq<char>) -> bool {
        value.shown(text)
    }

    fn parse(value: &str) -> (result: Result<T, ParseError>)
        ensures
            <Self as ParseAndFormat<T>>::parses(value@, result),
    {
        let inner = trim(value);
        if inner.is_empty() {
            Ok(T::default())
        } else {
            narrow_wide(T::Wide::read(inner))
        }
    }

    fn format(value: &T) -> (text: String)
        ensures
            <Self as ParseAndFormat<T>>::formats(value, text@),
    {
        value.show()
    }
}

} // verus!
