//! The submission flag: a form that remembers whether a submission of it has
//! been attempted.
use vstd::prelude::*;
use crate::error::ParseError;
use crate::form::StructForm;

verus! {

/// A form together with the flag that says whether a submission of it has
/// been attempted. The flag is raised by `submit` and `submit_update`, before
/// the form below is submitted, and never lowered.
pub struct Flagged<F> {
    pub form: F,
    pub submit_attempted: bool,
}

impl<F: Default> Default for Flagged<F> {
    fn default() -> (flagged: Self)
        ensures
            call_ensures(F::default, (), flagged.form),
            !flagged.submit_attempted,
    {
        Flagged { form: F::default(), submit_attempted: false }
    }
}

impl<F: Clone> Clone for Flagged<F> {
    fn clone(&self) -> (copy: Self)
        ensures
            cloned(self.form, copy.form),
            copy.submit_attempted == self.submit_attempted,
    {
        Flagged { form: self.form.clone(), submit_attempted: self.submit_attempted }
    }
}

impl<M, F: StructForm<M>> StructForm<M> for Flagged<F> {
    type Field = F::Field;

    open spec fn built_from(model: &M, form: Self) -> bool {
        &&& F::built_from(model, form.form)
        &&& !form.submit_attempted
    }

    open spec fn input_set(self, field: Self::Field, value: Seq<char>, after: Self) -> bool {
        &&& self.form.input_set(field, value, after.form)
        &&& after.submit_attempted == self.submit_attempted
    }

    open spec fn submitted(self, after: Self, result: Result<M, ParseError>) -> bool {
        &&& self.form.submitted(after.form, result)
        &&& after.submit_attempted
    }

    open spec fn update_submitted(self, model: M, after: Self, result: Result<M, ParseError>) -> bool {
        &&& self.form.update_submitted(model, after.form, result)
        &&& after.submit_attempted
    }

    open spec fn attempted(&self, answer: bool) -> bool {
        answer == self.submit_attempted
    }

    open spec fn emptiness(&self, answer: bool) -> bool {
        self.form.emptiness(answer)
    }

    fn new(model: &M) -> (form: Self)
        ensures
            Self::built_from(model, form),
    {
        Flagged { form: F::new(model), submit_attempted: false }
    }

    fn set_input(&mut self, field: Self::Field, value: String)
        ensures
            old(self).input_set(field, value@, *final(self)),
    {
        self.form.set_input(field, value)
    }

    fn submit(&mut self) -> (result: Result<M, ParseError>)
        ensures
            old(self).submitted(*final(self), result),
    {
        self.submit_attempted = true;
        self.form.submit()
    }

    fn submit_update(&mut self, model: M) -> (result: Result<M, ParseError>)
        ensures
            old(self).update_submitted(model, *final(self), result),
    {
        self.submit_attempted = true;
        self.form.submit_update(model)
    }

    /// The flag of this node alone: the flags of forms below are not asked.
    fn submit_attempted(&self) -> (answer: bool)
        ensures
            self.attempted(answer),
    {
        self.submit_attempted
    }

    fn is_empty(&self) -> (answer: bool)
        ensures
            self.emptiness(answer),
    {
        self.form.is_empty()
    }
}

} // verus!
