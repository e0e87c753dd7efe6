//! The form: what every node of a form tree can do.
use vstd::prelude::*;
use vstd::std_specs::cmp::PartialEqSpec;
use crate::conversion::ParseAndFormat;
use crate::error::ParseError;
use crate::input::{cloned_value, FormInput};

verus! {

/// A node of a form that edits a `Model`.
///
/// The spec functions of this trait say what its functions may do; a form
/// that does not state them promises nothing. They relate the form before a
/// call to the form after it and to what the call returns.
pub trait StructForm<Model>: Sized {
    /// The address of one input, or of one change of shape, below this node.
    type Field;

    /// Whether `new` may build `form` from `model`.
    open spec fn built_from(model: &Model, form: Self) -> bool {
        true
    }

    /// Whether `set_input` with `field` and `value` may turn this form into
    /// `after`.
    open spec fn input_set(self, field: Self::Field, value: Seq<char>, after: Self) -> bool {
        true
    }

    /// Whether `submit` may turn this form into `after` and return `result`.
    open spec fn submitted(self, after: Self, result: Result<Model, ParseError>) -> bool {
        true
    }

    /// Whether `submit_update` with `model` may turn this form into `after`
    /// and return `result`.
    open spec fn update_submitted(
        self,
        model: Model,
        after: Self,
        result: Result<Model, ParseError>,
    ) -> bool {
        true
    }

    /// Whether `submit_attempted` may answer `answer`.
    open spec fn attempted(&self, answer: bool) -> bool {
        true
    }

    /// Whether `is_empty` may answer `answer`.
    open spec fn emptiness(&self, answer: bool) -> bool {
        true
    }

    /// The form that shows `model`, with nothing edited yet.
    fn new(model: &Model) -> (form: Self)
        ensures
            Self::built_from(model, form),
    ;

    /// Hands `value` to the input that `field` names, or makes the change of
    /// shape that `field` names. This never fails: a text that does not parse
    /// leaves its error in the input.
    fn set_input(&mut self, field: Self::Field, value: String)
        ensures
            old(self).input_set(field, value@, *final(self)),
    ;

    /// The model that the form stands for, or the first error in it.
    fn submit(&mut self) -> (result: Result<Model, ParseError>)
        ensures
            old(self).submitted(*final(self), result),
    ;

    /// `model` with what the form holds written into it, or the first error
    /// in the form.
    fn submit_update(&mut self, model: Model) -> (result: Result<Model, ParseError>)
        ensures
            old(self).update_submitted(model, *final(self), result),
    ;

    /// Whether a submission of this node has been attempted.
    fn submit_attempted(&self) -> (answer: bool)
        ensures
            self.attempted(answer),
    ;

    /// Whether nothing has been entered below this node.
    fn is_empty(&self) -> (answer: bool)
        ensures
            self.emptiness(answer),
    ;

    /// Whether submitting the form now would change `pristine`. A form that
    /// does not submit counts as changed. The form itself is left as it is:
    /// a copy of it is submitted.
    fn has_unsaved_changes(&self, pristine: &Model) -> (changed: bool) where
        Self: Clone,
        Model: Clone + PartialEq,
        ensures
            exists|copy: Self, model: Model, after: Self, result: Result<Model, ParseError>|
                {
                    &&& cloned(*self, copy)
                    &&& cloned(*pristine, model)
                    &&& #[trigger] copy.update_submitted(model, after, result)
                    &&& changes(pristine, result, changed)
                },
    {
        let mut tmp_form = self.clone();
        let updated_model = tmp_form.submit_update(pristine.clone());
        differs_from(pristine, updated_model)
    }

    /// The error that a submission would give, once one has been attempted.
    /// The form itself is left as it is: a copy of it is submitted.
    fn validation_error(&self) -> (error: Option<ParseError>) where Self: Clone
        ensures
            exists|answer: bool| #[trigger]
                self.attempted(answer) && if answer {
                    exists|copy: Self, after: Self, result: Result<Model, ParseError>|
                        {
                            &&& cloned(*self, copy)
                            &&& #[trigger] copy.submitted(after, result)
                            &&& error == match result {
                                Ok(_) => None,
                                Err(e) => Some(e),
                            }
                        }
                } else {
                    error is None
                },
    {
        if self.submit_attempted() {
            self.clone().submit().err()
        } else {
            None
        }
    }
}

/// Whether `changed` may be the answer to "does `updated` differ from
/// `pristine`": an error always differs, a model as its own `==` decides.
pub open spec fn changes<Model: PartialEq>(
    pristine: &Model,
    updated: Result<Model, ParseError>,
    changed: bool,
) -> bool {
    match updated {
        Ok(model) => Model::obeys_eq_spec() ==> changed == !pristine.eq_spec(&model),
        Err(_) => changed,
    }
}

/// Whether the outcome `updated` of a submission differs from `pristine`.
pub fn differs_from<Model: PartialEq>(pristine: &Model, updated: Result<Model, ParseError>) -> (changed:
    bool)
    ensures
        changes(pristine, updated, changed),
{
    match updated {
        Ok(updated_model) => *pristine != updated_model,
        Err(_) => true,
    }
}

/// The address of the one input of a cell.
#[derive(Debug, Clone, Copy, PartialEq, Eq)]
pub struct Leaf;

/// A cell is a form of its own: the form of one scalar.
impl<T: Clone, P: ParseAndFormat<T>> StructForm<T> for FormInput<T, P> {
    type Field = Leaf;

    open spec fn built_from(model: &T, form: Self) -> bool {
        form.shows(model)
    }

    open spec fn input_set(self, field: Leaf, value: Seq<char>, after: Self) -> bool {
        &&& after.initial_input == self.initial_input
        &&& after.input@ == value
        &&& P::parses(value, after.value)
        &&& after.is_edited
    }

    open spec fn submitted(self, after: Self, result: Result<T, ParseError>) -> bool {
        &&& after.initial_input == self.initial_input
        &&& after.input == self.input
        &&& after.value == self.value
        &&& after.is_edited
        &&& cloned_value(self.value, result)
    }

    open spec fn update_submitted(self, model: T, after: Self, result: Result<T, ParseError>) -> bool {
        self.submitted(after, result)
    }

    open spec fn attempted(&self, answer: bool) -> bool {
        !answer
    }

    open spec fn emptiness(&self, answer: bool) -> bool {
        answer == (self.input@.len() == 0)
    }

    fn new(model: &T) -> (form: Self) {
        FormInput::new(model)
    }

    fn set_input(&mut self, field: Leaf, value: String) {
        FormInput::set_input(self, value)
    }

    fn submit(&mut self) -> (result: Result<T, ParseError>) {
        FormInput::submit(self)
    }

    /// The value of the cell replaces `model`, whatever it was.
    fn submit_update(&mut self, model: T) -> (result: Result<T, ParseError>)
        ensures
            old(self).update_submitted(model, *final(self), result),
    {
        FormInput::submit(self)
    }

    /// A cell keeps no record of submissions.
    fn submit_attempted(&self) -> (answer: bool)
        ensures
            self.attempted(answer),
    {
        false
    }

    fn is_empty(&self) -> (answer: bool) {
        FormInput::is_empty(self)
    }
}

} // verus!
