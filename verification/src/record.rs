//! The record: a form of two parts, each a form of its own. A record of more
//! parts is a record whose second part is a record.
use vstd::prelude::*;
use crate::error::ParseError;
use crate::form::StructForm;

verus! {

/// The address of an input below one of the two parts of a record.
#[derive(Debug)]
pub enum PairField<First, Second> {
    /// An input of the first part.
    First(First),
    /// An input of the second part.
    Second(Second),
}

/// What two outcomes make together: both values, or else the error of the
/// first, or else that of the second.
pub open spec fn in_order<A, B>(first: Result<A, ParseError>, second: Result<B, ParseError>) -> Result<
    (A, B),
    ParseError,
> {
    match (first, second) {
        (Ok(a), Ok(b)) => Ok((a, b)),
        (Err(error), _) => Err(error),
        (Ok(_), Err(error)) => Err(error),
    }
}

/// Puts the outcomes of two parts together. Both parts have been submitted
/// by the time this is called, whichever of them failed.
pub fn both<A, B>(first: Result<A, ParseError>, second: Result<B, ParseError>) -> (result: Result<
    (A, B),
    ParseError,
>)
    ensures
        result == in_order(first, second),
{
    match first {
        Ok(a) => match second {
            Ok(b) => Ok((a, b)),
            Err(error) => Err(error),
        },
        Err(error) => Err(error),
    }
}

/// A record of two forms edits a pair of models.
impl<MA: Default, MB: Default, FA: StructForm<MA>, FB: StructForm<MB>> StructForm<(MA, MB)> for (
    FA,
    FB,
) {
    type Field = PairField<FA::Field, FB::Field>;

    open spec fn built_from(model: &(MA, MB), form: Self) -> bool {
        &&& FA::built_from(&model.0, form.0)
        &&& FB::built_from(&model.1, form.1)
    }

    open spec fn input_set(self, field: Self::Field, value: Seq<char>, after: Self) -> bool {
        match field {
            PairField::First(inner) => self.0.input_set(inner, value, after.0) && after.1 == self.1,
            PairField::Second(inner) => after.0 == self.0 && self.1.input_set(inner, value, after.1),
        }
    }

    open spec fn submitted(self, after: Self, result: Result<(MA, MB), ParseError>) -> bool {
        exists|first: MA, second: MB|
            {
                &&& call_ensures(MA::default, (), first)
                &&& call_ensures(MB::default, (), second)
                &&& #[trigger] self.update_submitted((first, second), after, result)
            }
    }

    open spec fn update_submitted(
        self,
        model: (MA, MB),
        after: Self,
        result: Result<(MA, MB), ParseError>,
    ) -> bool {
        exists|first: Result<MA, ParseError>, second: Result<MB, ParseError>|
            {
                &&& #[trigger] self.0.update_submitted(model.0, after.0, first)
                &&& #[trigger] self.1.update_submitted(model.1, after.1, second)
                &&& result == in_order(first, second)
            }
    }

    open spec fn attempted(&self, answer: bool) -> bool {
        !answer
    }

    open spec fn emptiness(&self, answer: bool) -> bool {
        if answer {
            self.0.emptiness(true) && self.1.emptiness(true)
        } else {
            self.0.emptiness(false) || self.1.emptiness(false)
        }
    }

    fn new(model: &(MA, MB)) -> (form: Self)
        ensures
            Self::built_from(model, form),
    {
        (FA::new(&model.0), FB::new(&model.1))
    }

    fn set_input(&mut self, field: Self::Field, value: String)
        ensures
            old(self).input_set(field, value@, *final(self)),
    {
        match field {
            PairField::First(inner) => self.0.set_input(inner, value),
            PairField::Second(inner) => self.1.set_input(inner, value),
        }
    }

    /// Submits the record as an update of the default model.
    fn submit(&mut self) -> (result: Result<(MA, MB), ParseError>)
        ensures
            old(self).submitted(*final(self), result),
    {
        self.submit_update((MA::default(), MB::default()))
    }

    /// Both parts are submitted, the second also where the first failed, so
    /// that every input below is marked. The error of the first part goes
    /// before that of the second.
    fn submit_update(&mut self, model: (MA, MB)) -> (result: Result<(MA, MB), ParseError>)
        ensures
            old(self).update_submitted(model, *final(self), result),
    {
        let first = self.0.submit_update(model.0);
        let second = self.1.submit_update(model.1);
        assert(old(self).0.update_submitted(model.0, self.0, first));
        assert(old(self).1.update_submitted(model.1, self.1, second));
        both(first, second)
    }

    /// A record keeps no record of submissions: see `Flagged`.
    fn submit_attempted(&self) -> (answer: bool)
        ensures
            self.attempted(answer),
    {
        false
    }

    fn is_empty(&self) -> (answer: bool)
        ensures
            self.emptiness(answer),
    {
        self.0.is_empty() && self.1.is_empty()
    }
}

} // verus!
