//! Binds free-text form input to typed models.
//!
//! A form is a tree. Its leaves are input cells ([`FormInput`]), each holding
//! the text a user typed next to the value (or the error) that the text
//! parses to. Its inner nodes are records, optional subforms and lists of
//! subforms. Every node implements [`StructForm`]: it can be built from a
//! model, takes input addressed to one of its fields, and is submitted to
//! give back a model or the first error found.

pub mod conversion;
pub mod error;
pub mod faithful;
pub mod flagged;
pub mod form;
pub mod input;
pub mod integer;
pub mod laws;
pub mod list;
pub mod number;
pub mod optional;
pub mod record;
pub mod schema;
pub mod text;

pub use conversion::{
    read_list, read_scalar, write_list, Named, NamedText, ParseAndFormat, Text, TextValue,
};
pub use error::{ErrorView, ParseError};
pub use faithful::Faithful;
pub use flagged::Flagged;
pub use form::{differs_from, Leaf, StructForm};
pub use input::FormInput;
pub use integer::Integer;
pub use list::ListField;
pub use number::{narrow_wide, Number, NumberOrDefault, NumericValue};
pub use optional::OptionalField;
pub use record::{both, PairField};
