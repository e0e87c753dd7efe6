//! The optional subform: a part of a form that the user can switch on and off.
use vstd::prelude::*;
use crate::error::{of_present, ParseError};
use crate::form::StructForm;

verus! {

/// The address of an input, or of the switch, of an optional subform.
#[derive(Debug)]
pub enum OptionalField<Inner> {
    /// Switches the subform on where it is off, and off where it is on.
    Toggle,
    /// An input of the subform.
    Inner(Inner),
}

/// An optional subform edits an optional model. The form owns its subform:
/// switching it on makes a fresh one, and switching it off drops what was
/// entered in it.
impl<M, F: StructForm<M> + Default> StructForm<Option<M>> for Option<F> {
    type Field = OptionalField<F::Field>;

    open spec fn built_from(model: &Option<M>, form: Self) -> bool {
        match *model {
            Some(inner) => form is Some && F::built_from(&inner, form->0),
            None => form is None,
        }
    }

    open spec fn input_set(self, field: Self::Field, value: Seq<char>, after: Self) -> bool {
        match (field, self) {
            (OptionalField::Toggle, Some(_)) => after is None,
            (OptionalField::Toggle, None) => after is Some && call_ensures(
                F::default,
                (),
                after->0,
            ),
            (OptionalField::Inner(inner), Some(form)) => after is Some && form.input_set(
                inner,
                value,
                after->0,
            ),
            (OptionalField::Inner(_), None) => after is None,
        }
    }

    open spec fn submitted(self, after: Self, result: Result<Option<M>, ParseError>) -> bool {
        self.update_submitted(None, after, result)
    }

    open spec fn update_submitted(
        self,
        model: Option<M>,
        after: Self,
        result: Result<Option<M>, ParseError>,
    ) -> bool {
        match self {
            None => after is None && result == Ok::<Option<M>, ParseError>(None),
            Some(form) => {
                &&& after is Some
                &&& of_present(result) is Some
                &&& match model {
                    Some(inner) => form.update_submitted(inner, after->0, of_present(result)->0),
                    None => form.submitted(after->0, of_present(result)->0),
                }
            },
        }
    }

    open spec fn attempted(&self, answer: bool) -> bool {
        !answer
    }

    open spec fn emptiness(&self, answer: bool) -> bool {
        match *self {
            Some(form) => form.emptiness(answer),
            None => answer,
        }
    }

    fn new(model: &Option<M>) -> (form: Self)
        ensures
            Self::built_from(model, form),
    {
        match model {
            Some(inner) => Some(F::new(inner)),
            None => None,
        }
    }

    /// An input addressed to a subform that is switched off is dropped.
    fn set_input(&mut self, field: Self::Field, value: String)
        ensures
            old(self).input_set(field, value@, *final(self)),
    {
        match field {
            OptionalField::Toggle => {
                if self.is_some() {
                    *self = None;
                } else {
                    *self = Some(F::default());
                }
            },
            OptionalField::Inner(inner) => {
                match self {
                    Some(form) => form.set_input(inner, value),
                    None => {},
                }
            },
        }
    }

    fn submit(&mut self) -> (result: Result<Option<M>, ParseError>)
        ensures
            old(self).submitted(*final(self), result),
    {
        self.submit_update(None)
    }

    /// A subform that is switched off submits as no model, whatever `model`
    /// holds. One that is on updates the model in `model`, or submits afresh
    /// where there is none.
    fn submit_update(&mut self, model: Option<M>) -> (result: Result<Option<M>, ParseError>)
        ensures
            old(self).update_submitted(model, *final(self), result),
    {
        match self {
            None => Ok(None),
            Some(form) => {
                let inner = match model {
                    Some(inner) => form.submit_update(inner),
                    None => form.submit(),
                };
                match inner {
                    Ok(updated) => Ok(Some(updated)),
                    Err(error) => Err(error),
                }
            },
        }
    }

    /// An optional subform keeps no record of submissions.
    fn submit_attempted(&self) -> (answer: bool)
        ensures
            self.attempted(answer),
    {
        false
    }

    /// A subform that is switched off is empty.
    fn is_empty(&self) -> (answer: bool)
        ensures
            self.emptiness(answer),
    {
        match self {
            Some(form) => form.is_empty(),
            None => true,
        }
    }
}

} // verus!
