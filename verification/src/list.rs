//! The list of subforms: a part of a form that the user can add subforms to
//! and remove them from.
use vstd::prelude::*;
use crate::error::ParseError;
use crate::form::StructForm;

verus! {

/// The address of an input of one subform of a list, or of a change of the
/// list. A subform is known by its place alone: after a removal the subforms
/// behind it are found one place earlier.
#[derive(Debug)]
pub enum ListField<Inner> {
    /// Appends a fresh subform.
    Add,
    /// An input of the subform at this place.
    Item(usize, Inner),
    /// Removes the subform at this place.
    Remove(usize),
}

/// The first error among `results`, if there is one.
pub open spec fn first_error<M>(results: Seq<Result<M, ParseError>>) -> Option<ParseError>
    decreases results.len(),
{
    if results.len() == 0 {
        None
    } else {
        match (first_error(results.drop_last()), results.last()) {
            (Some(error), _) => Some(error),
            (None, Err(error)) => Some(error),
            (None, Ok(_)) => None,
        }
    }
}

/// Whether `result` is what the outcomes `results` of the subforms of a list
/// make together: their models in order, or else the first error.
pub open spec fn collected<M>(
    results: Seq<Result<M, ParseError>>,
    result: Result<Vec<M>, ParseError>,
) -> bool {
    match result {
        Ok(models) => {
            &&& models@.len() == results.len()
            &&& forall|i: int|
                0 <= i < results.len() ==> #[trigger] results[i] == Ok::<M, ParseError>(models@[i])
        },
        Err(error) => first_error(results) == Some(error),
    }
}

/// Whether the subform `form` at place `i` of a list may become `after` and
/// return `result` when the list is submitted to update `models`: it updates
/// a copy of the model at its place, or submits afresh where there is none.
pub open spec fn item_submitted<M: Clone, F: StructForm<M>>(
    form: F,
    models: Seq<M>,
    i: int,
    after: F,
    result: Result<M, ParseError>,
) -> bool {
    if i < models.len() {
        exists|model: M| cloned(models[i], model) && #[trigger] form.update_submitted(model, after, result)
    } else {
        form.submitted(after, result)
    }
}

/// Whether the subforms `forms` of a list may become `afters` and return
/// `results`, each at its place, when the list is submitted to update
/// `models`.
pub open spec fn items_submitted<M: Clone, F: StructForm<M>>(
    forms: Seq<F>,
    models: Seq<M>,
    afters: Seq<F>,
    results: Seq<Result<M, ParseError>>,
) -> bool {
    &&& afters.len() == forms.len()
    &&& results.len() == forms.len()
    &&& forall|i: int|
        0 <= i < forms.len() ==> item_submitted(forms[i], models, i, afters[i], #[trigger] results[i])
}

/// A list of subforms edits a list of models.
impl<M: Clone, F: StructForm<M> + Default> StructForm<Vec<M>> for Vec<F> {
    type Field = ListField<F::Field>;

    open spec fn built_from(model: &Vec<M>, form: Self) -> bool {
        &&& form@.len() == model@.len()
        &&& forall|i: int| 0 <= i < form@.len() ==> F::built_from(&model@[i], #[trigger] form@[i])
    }

    open spec fn input_set(self, field: Self::Field, value: Seq<char>, after: Self) -> bool {
        match field {
            ListField::Add => {
                &&& after@.len() == self@.len() + 1
                &&& after@.drop_last() == self@
                &&& call_ensures(F::default, (), after@.last())
            },
            ListField::Item(i, inner) => if i < self@.len() {
                &&& after@.len() == self@.len()
                &&& self@[i as int].input_set(inner, value, after@[i as int])
                &&& forall|j: int| 0 <= j < self@.len() && j != i ==> after@[j] == self@[j]
            } else {
                after@ == self@
            },
            ListField::Remove(i) => if i < self@.len() {
                after@ == self@.remove(i as int)
            } else {
                after@ == self@
            },
        }
    }

    open spec fn submitted(self, after: Self, result: Result<Vec<M>, ParseError>) -> bool {
        exists|results: Seq<Result<M, ParseError>>| #[trigger]
            items_submitted(self@, Seq::<M>::empty(), after@, results) && collected(results, result)
    }

    open spec fn update_submitted(
        self,
        model: Vec<M>,
        after: Self,
        result: Result<Vec<M>, ParseError>,
    ) -> bool {
        exists|results: Seq<Result<M, ParseError>>| #[trigger]
            items_submitted(self@, model@, after@, results) && collected(results, result)
    }

    open spec fn attempted(&self, answer: bool) -> bool {
        !answer
    }

    open spec fn emptiness(&self, answer: bool) -> bool {
        if answer {
            forall|i: int| 0 <= i < self@.len() ==> (#[trigger] self@[i]).emptiness(true)
        } else {
            exists|i: int| 0 <= i < self@.len() && (#[trigger] self@[i]).emptiness(false)
        }
    }

    fn new(model: &Vec<M>) -> (form: Self) {
        let mut forms: Vec<F> = Vec::new();
        let mut i: usize = 0;
        while i < model.len()
            invariant
                i <= model@.len(),
                forms@.len() == i,
                forall|j: int| 0 <= j < i ==> F::built_from(&model@[j], #[trigger] forms@[j]),
            decreases model@.len() - i,
        {
            forms.push(F::new(&model[i]));
            i += 1;
        }
        forms
    }

    /// An input or a removal addressed to a place that the list does not have
    /// is dropped.
    fn set_input(&mut self, field: Self::Field, value: String)
        ensures
            old(self).input_set(field, value@, *final(self)),
    {
        match field {
            ListField::Add => {
                self.push(F::default());
                assert(self@.drop_last() =~= old(self)@);
            },
            ListField::Item(i, inner) => {
                if i < self.len() {
                    self[i].set_input(inner, value);
                }
            },
            ListField::Remove(i) => {
                if i < self.len() {
                    self.remove(i);
                }
            },
        }
    }

    /// Submits the list as an update of the empty list: every subform
    /// submits afresh.
    fn submit(&mut self) -> (result: Result<Vec<M>, ParseError>)
        ensures
            old(self).submitted(*final(self), result),
    {
        self.submit_update(Vec::new())
    }

    /// Every subform is submitted, also behind one that failed. The subform
    /// at a place that `model` has updates a copy of the model there; one
    /// behind the end of `model` submits afresh. What comes back has as many
    /// models as the list has subforms.
    fn submit_update(&mut self, model: Vec<M>) -> (result: Result<Vec<M>, ParseError>)
        ensures
            old(self).update_submitted(model, *final(self), result),
    {
        let mut models: Vec<M> = Vec::new();
        let mut failure: Option<ParseError> = None;
        let ghost mut results: Seq<Result<M, ParseError>> = Seq::empty();
        let mut i: usize = 0;
        while i < self.len()
            invariant
                i <= self@.len(),
                self@.len() == old(self)@.len(),
                results.len() == i,
                forall|j: int|
                    0 <= j < i ==> item_submitted(
                        old(self)@[j],
                        model@,
                        j,
                        self@[j],
                        #[trigger] results[j],
                    ),
                forall|j: int| i <= j < self@.len() ==> self@[j] == old(self)@[j],
                failure == first_error(results),
                failure is None ==> collected(results, Ok(models)),
            decreases self@.len() - i,
        {
            let result = if i < model.len() {
                self[i].submit_update(model[i].clone())
            } else {
                self[i].submit()
            };
            proof {
                assert(results.push(result).drop_last() =~= results);
                results = results.push(result);
            }
            match result {
                Ok(updated) => {
                    if failure.is_none() {
                        models.push(updated);
                    }
                },
                Err(error) => {
                    if failure.is_none() {
                        failure = Some(error);
                    }
                },
            }
            i += 1;
        }
        assert(items_submitted(old(self)@, model@, self@, results));
        match failure {
            Some(error) => Err(error),
            None => Ok(models),
        }
    }

    /// A list keeps no record of submissions.
    fn submit_attempted(&self) -> (answer: bool)
        ensures
            self.attempted(answer),
    {
        false
    }

    /// A list is empty where each of its subforms is: one without subforms is.
    fn is_empty(&self) -> (answer: bool) {
        let mut i: usize = 0;
        while i < self.len()
            invariant
                i <= self@.len(),
                forall|j: int| 0 <= j < i ==> (#[trigger] self@[j]).emptiness(true),
            decreases self@.len() - i,
        {
            if !self[i].is_empty() {
                return false;
            }
            i += 1;
        }
        true
    }
}

} // verus!
