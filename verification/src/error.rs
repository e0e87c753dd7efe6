//! The errors that parsing an input can give.
use vstd::prelude::*;
use vstd::string::*;

verus! {

/// Why a raw input could not be turned into a value.
#[derive(Debug, PartialEq, Eq)]
pub enum ParseError {
    /// The input was empty where a value is mandatory.
    Required,
    /// The input is not of the expected kind.
    InvalidFormat { required_type: String },
    /// The conversion of the input failed with this message.
    FromStrError(String),
    /// The input is not a number within the bounds of the expected kind.
    NumberOutOfRange { required_type: String, min: String, max: String },
}

/// A [`ParseError`] with its texts as sequences of characters.
pub enum ErrorView {
    Required,
    InvalidFormat { required_type: Seq<char> },
    FromStrError(Seq<char>),
    NumberOutOfRange { required_type: Seq<char>, min: Seq<char>, max: Seq<char> },
}

impl ErrorView {
    /// The message shown to the user for this error.
    pub open spec fn message(self) -> Seq<char> {
        match self {
            ErrorView::Required => "This field is required."@,
            ErrorView::InvalidFormat { required_type } => "Expected "@ + required_type + "."@,
            ErrorView::FromStrError(error) => error + "."@,
            ErrorView::NumberOutOfRange { required_type, min, max } => "Expected "@
                + required_type + " between "@ + min + " and "@ + max + "."@,
        }
    }
}

impl View for ParseError {
    type V = ErrorView;

    open spec fn view(&self) -> ErrorView {
        match self {
            ParseError::Required => ErrorView::Required,
            ParseError::InvalidFormat { required_type } => ErrorView::InvalidFormat {
                required_type: required_type@,
            },
            ParseError::FromStrError(error) => ErrorView::FromStrError(error@),
            ParseError::NumberOutOfRange { required_type, min, max } => ErrorView::NumberOutOfRange {
                required_type: required_type@,
                min: min@,
                max: max@,
            },
        }
    }
}

/// The outcome for the value inside an optional value, where `result` is the
/// outcome for the optional value: `None` where `result` is no value.
pub open spec fn of_present<T>(result: Result<Option<T>, ParseError>) -> Option<Result<T, ParseError>> {
    match result {
        Ok(Some(value)) => Some(Ok(value)),
        Ok(None) => None,
        Err(error) => Some(Err(error)),
    }
}

impl Clone for ParseError {
    fn clone(&self) -> (copy: Self)
        ensures
            copy == *self,
    {
        match self {
            ParseError::Required => ParseError::Required,
            ParseError::InvalidFormat { required_type } => ParseError::InvalidFormat {
                required_type: required_type.clone(),
            },
            ParseError::FromStrError(error) => ParseError::FromStrError(error.clone()),
            ParseError::NumberOutOfRange { required_type, min, max } => ParseError::NumberOutOfRange {
                required_type: required_type.clone(),
                min: min.clone(),
                max: max.clone(),
            },
        }
    }
}

impl ParseError {
    /// The message shown to the user for this error.
    pub fn to_string(&self) -> (message: String)
        ensures
            message@ == self@.message(),
    {
        match self {
            ParseError::Required => "This field is required.".to_owned(),
            ParseError::InvalidFormat { required_type } => {
                let mut message = "Expected ".to_owned();
                message.append(required_type.as_str());
                message.append(".");
                message
            },
            ParseError::FromStrError(error) => {
                let mut message = error.clone();
                message.append(".");
                message
            },
            ParseError::NumberOutOfRange { required_type, min, max } => {
                let mut message = "Expected ".to_owned();
                message.append(required_type.as_str());
                message.append(" between ");
                message.append(min.as_str());
                message.append(" and ");
                message.append(max.as_str());
                message.append(".");
                message
            },
        }
    }
}

} // verus!
