//! The input cell: one field's text, the value it parses to, and whether the
//! user has touched it.
use vstd::prelude::*;
use crate::conversion::ParseAndFormat;
use crate::error::ParseError;

verus! {

/// One scalar field of a form.
///
/// `input` is the text as the user typed it and `value` what the conversion
/// `P` makes of it. `initial_input` is the text that the cell was made with.
/// `is_edited` says whether an error in `value` is to be shown yet.
pub struct FormInput<T, P> {
    /// The text that the cell was made with.
    pub initial_input: String,
    /// The text as the user typed it.
    pub input: String,
    /// What `input` parses to.
    pub value: Result<T, ParseError>,
    /// Whether the cell has been given input or has been submitted.
    pub is_edited: bool,
    /// The conversion between `input` and `value`.
    pub conversion: core::marker::PhantomData<P>,
}

/// Whether `copy` may be a clone of `value`: an error is copied exactly, a
/// value as its own `clone` copies it.
pub open spec fn cloned_value<T: Clone>(
    value: Result<T, ParseError>,
    copy: Result<T, ParseError>,
) -> bool {
    match value {
        Ok(inner) => copy is Ok && cloned(inner, copy->Ok_0),
        Err(error) => copy == Err::<T, ParseError>(error),
    }
}

impl<T, P> FormInput<T, P> {
    /// Whether this is a cell that has not been touched and holds no text.
    pub open spec fn is_blank(self) -> bool where P: ParseAndFormat<T> {
        &&& self.initial_input@ == Seq::<char>::empty()
        &&& self.input@ == Seq::<char>::empty()
        &&& P::parses(Seq::<char>::empty(), self.value)
        &&& !self.is_edited
    }

    /// Whether this is a cell that has not been touched and shows `model`.
    pub open spec fn shows(self, model: &T) -> bool where P: ParseAndFormat<T>, T: Clone {
        &&& P::formats(model, self.initial_input@)
        &&& self.input == self.initial_input
        &&& self.value is Ok
        &&& cloned(*model, self.value->Ok_0)
        &&& !self.is_edited
    }

    /// Whether `copy` may be a clone of this cell.
    pub open spec fn copied_to(self, copy: Self) -> bool where T: Clone {
        &&& copy.initial_input == self.initial_input
        &&& copy.input == self.input
        &&& cloned_value(self.value, copy.value)
        &&& copy.is_edited == self.is_edited
    }

    /// Whether the error of this cell is to be shown: the cell holds one and
    /// has been edited or submitted.
    pub fn show_validation_msg(&self) -> (shown: bool)
        ensures
            shown == (self.is_edited && self.value is Err),
    {
        self.is_edited && self.value.is_err()
    }

    /// The error of this cell, where it is to be shown.
    pub fn validation_error(&self) -> (error: Option<&ParseError>)
        ensures
            error == if self.is_edited && self.value is Err {
                Some(&self.value->Err_0)
            } else {
                None
            },
    {
        match &self.value {
            Ok(_) => None,
            Err(error) => if self.is_edited {
                Some(error)
            } else {
                None
            },
        }
    }

    /// Whether the cell holds no text at all.
    pub fn is_empty(&self) -> (empty: bool)
        ensures
            empty == (self.input@.len() == 0),
    {
        self.input.as_str().is_empty()
    }
}

impl<T, P: ParseAndFormat<T>> Default for FormInput<T, P> {
    /// A cell without text: its value is what the empty text parses to.
    fn default() -> (cell: Self)
        ensures
            cell.is_blank(),
    {
        proof {
            reveal_strlit("");
            assert(""@ =~= Seq::<char>::empty());
        }
        FormInput {
            initial_input: String::new(),
            input: String::new(),
            value: P::parse(""),
            is_edited: false,
            conversion: core::marker::PhantomData,
        }
    }
}

impl<T: Clone, P> Clone for FormInput<T, P> {
    fn clone(&self) -> (copy: Self)
        ensures
            self.copied_to(copy),
    {
        FormInput {
            initial_input: self.initial_input.clone(),
            input: self.input.clone(),
            value: match &self.value {
                Ok(value) => Ok(value.clone()),
                Err(error) => Err(error.clone()),
            },
            is_edited: self.is_edited,
            conversion: core::marker::PhantomData,
        }
    }
}

impl<T: Clone, P: ParseAndFormat<T>> FormInput<T, P> {
    /// A cell that shows `value`, not yet touched.
    pub fn new(value: &T) -> (cell: Self)
        ensures
            cell.shows(value),
    {
        let initial_input = P::format(value);
        FormInput {
            initial_input: initial_input.clone(),
            input: initial_input,
            value: Ok(value.clone()),
            is_edited: false,
            conversion: core::marker::PhantomData,
        }
    }

    /// Gives the value of the cell, or its error, and marks the cell edited:
    /// from now on its error is shown.
    pub fn submit(&mut self) -> (result: Result<T, ParseError>)
        ensures
            final(self).initial_input == old(self).initial_input,
            final(self).input == old(self).input,
            final(self).value == old(self).value,
            final(self).is_edited,
            cloned_value(old(self).value, result),
    {
        self.is_edited = true;
        match &self.value {
            Ok(value) => Ok(value.clone()),
            Err(error) => Err(error.clone()),
        }
    }

    /// Takes the text that the user typed: the cell then holds that text and
    /// what it parses to, and counts as edited. A text that does not parse is
    /// no failure of this call; the error is kept in `value`.
    pub fn set_input(&mut self, value: String)
        ensures
            final(self).initial_input == old(self).initial_input,
            final(self).input == value,
            P::parses(value@, final(self).value),
            final(self).is_edited,
    {
        self.value = P::parse(value.as_str());
        self.input = value;
        self.is_edited = true;
    }

    /// Empties the cell: it is then as a cell made by `default`.
    pub fn clear(&mut self)
        ensures
            final(self).is_blank(),
    {
        self.initial_input = String::new();
        self.set_input(String::new());
        self.is_edited = false;
    }
}

} // verus!
