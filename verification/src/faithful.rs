//! Forms that give a model back as they were given it.
use vstd::prelude::*;
use crate::conversion::ParseAndFormat;
use crate::error::{of_present, ParseError};
use crate::flagged::Flagged;
use crate::form::StructForm;
use crate::input::FormInput;
use crate::list::{collected, first_error, item_submitted, items_submitted};
use crate::record::in_order;

verus! {

/// Whether a clone of a `T` is always equal to what it was made from.
pub open spec fn clones_exactly<T: Clone>() -> bool {
    forall|value: T, copy: T| #[trigger] cloned(value, copy) ==> copy == value
}

/// A form that loses nothing: built from a model and submitted to update
/// that model, with no input in between, it gives the model back.
pub trait Faithful<Model>: StructForm<Model> {
    /// What the law needs of the models: that they are cloned exactly.
    spec fn copies_exactly() -> bool;

    /// Whether `result` is `model` given back: the same scalars at the same
    /// places.
    spec fn gives_back(model: Model, result: Result<Model, ParseError>) -> bool;

    /// An untouched form that is submitted to update the model it was built
    /// from gives that model back.
    proof fn untouched_form_gives_model_back(
        model: Model,
        form: Self,
        after: Self,
        result: Result<Model, ParseError>,
    )
        requires
            Self::copies_exactly(),
            Self::built_from(&model, form),
            form.update_submitted(model, after, result),
        ensures
            Self::gives_back(model, result),
    ;

    /// Only a model is a model given back, never an error.
    proof fn what_is_given_back_is_a_model(model: Model, result: Result<Model, ParseError>)
        requires
            Self::gives_back(model, result),
        ensures
            result is Ok,
    ;
}

impl<T: Clone, P: ParseAndFormat<T>> Faithful<T> for FormInput<T, P> {
    open spec fn copies_exactly() -> bool {
        clones_exactly::<T>()
    }

    open spec fn gives_back(model: T, result: Result<T, ParseError>) -> bool {
        result == Ok::<T, ParseError>(model)
    }

    proof fn untouched_form_gives_model_back(
        model: T,
        form: Self,
        after: Self,
        result: Result<T, ParseError>,
    ) {
        assert(cloned(model, form.value->Ok_0));
        assert(cloned(form.value->Ok_0, result->Ok_0));
    }

    proof fn what_is_given_back_is_a_model(model: T, result: Result<T, ParseError>) {
    }
}

impl<M, F: Faithful<M> + Default> Faithful<Option<M>> for Option<F> {
    open spec fn copies_exactly() -> bool {
        F::copies_exactly()
    }

    open spec fn gives_back(model: Option<M>, result: Result<Option<M>, ParseError>) -> bool {
        match model {
            Some(inner) => of_present(result) is Some && F::gives_back(inner, of_present(result)->0),
            None => result == Ok::<Option<M>, ParseError>(None),
        }
    }

    proof fn untouched_form_gives_model_back(
        model: Option<M>,
        form: Self,
        after: Self,
        result: Result<Option<M>, ParseError>,
    ) {
        if let Some(inner) = model {
            F::untouched_form_gives_model_back(inner, form->0, after->0, of_present(result)->0);
        }
    }

    proof fn what_is_given_back_is_a_model(model: Option<M>, result: Result<Option<M>, ParseError>) {
        if let Some(inner) = model {
            F::what_is_given_back_is_a_model(inner, of_present(result)->0);
        }
    }
}

impl<M: Clone, F: Faithful<M> + Default> Faithful<Vec<M>> for Vec<F> {
    open spec fn copies_exactly() -> bool {
        F::copies_exactly() && clones_exactly::<M>()
    }

    open spec fn gives_back(model: Vec<M>, result: Result<Vec<M>, ParseError>) -> bool {
        &&& result is Ok
        &&& result->Ok_0@.len() == model@.len()
        &&& forall|i: int|
            0 <= i < model@.len() ==> F::gives_back(#[trigger] model@[i], Ok(result->Ok_0@[i]))
    }

    proof fn untouched_form_gives_model_back(
        model: Vec<M>,
        form: Self,
        after: Self,
        result: Result<Vec<M>, ParseError>,
    ) {
        let results = choose|results: Seq<Result<M, ParseError>>| #[trigger]
            items_submitted(form@, model@, after@, results) && collected(results, result);
        assert forall|i: int| 0 <= i < results.len() implies F::gives_back(
            model@[i],
            #[trigger] results[i],
        ) && results[i] is Ok by {
            assert(item_submitted(form@[i], model@, i, after@[i], results[i]));
            let copy = choose|copy: M|
                cloned(model@[i], copy) && #[trigger] form@[i].update_submitted(
                    copy,
                    after@[i],
                    results[i],
                );
            assert(copy == model@[i]);
            F::untouched_form_gives_model_back(model@[i], form@[i], after@[i], results[i]);
            F::what_is_given_back_is_a_model(model@[i], results[i]);
        }
        no_error_among_models(results);
        assert forall|i: int| 0 <= i < model@.len() implies F::gives_back(
            #[trigger] model@[i],
            Ok(result->Ok_0@[i]),
        ) by {
            assert(results[i] == Ok::<M, ParseError>(result->Ok_0@[i]));
        }
    }

    proof fn what_is_given_back_is_a_model(model: Vec<M>, result: Result<Vec<M>, ParseError>) {
    }
}

/// Where every outcome is a model, none is the first error.
pub proof fn no_error_among_models<M>(results: Seq<Result<M, ParseError>>)
    requires
        forall|i: int| 0 <= i < results.len() ==> (#[trigger] results[i]) is Ok,
    ensures
        first_error(results) is None,
    decreases results.len(),
{
    if results.len() > 0 {
        no_error_among_models(results.drop_last());
    }
}

impl<MA: Default, MB: Default, FA: Faithful<MA>, FB: Faithful<MB>> Faithful<(MA, MB)> for (FA, FB) {
    open spec fn copies_exactly() -> bool {
        FA::copies_exactly() && FB::copies_exactly()
    }

    open spec fn gives_back(model: (MA, MB), result: Result<(MA, MB), ParseError>) -> bool {
        &&& result is Ok
        &&& FA::gives_back(model.0, Ok(result->Ok_0.0))
        &&& FB::gives_back(model.1, Ok(result->Ok_0.1))
    }

    proof fn untouched_form_gives_model_back(
        model: (MA, MB),
        form: Self,
        after: Self,
        result: Result<(MA, MB), ParseError>,
    ) {
        let (first, second) = choose|first: Result<MA, ParseError>, second: Result<MB, ParseError>|
            {
                &&& #[trigger] form.0.update_submitted(model.0, after.0, first)
                &&& #[trigger] form.1.update_submitted(model.1, after.1, second)
                &&& result == in_order(first, second)
            };
        FA::untouched_form_gives_model_back(model.0, form.0, after.0, first);
        FA::what_is_given_back_is_a_model(model.0, first);
        FB::untouched_form_gives_model_back(model.1, form.1, after.1, second);
        FB::what_is_given_back_is_a_model(model.1, second);
    }

    proof fn what_is_given_back_is_a_model(model: (MA, MB), result: Result<(MA, MB), ParseError>) {
    }
}

impl<M, F: Faithful<M>> Faithful<M> for Flagged<F> {
    open spec fn copies_exactly() -> bool {
        F::copies_exactly()
    }

    open spec fn gives_back(model: M, result: Result<M, ParseError>) -> bool {
        F::gives_back(model, result)
    }

    proof fn untouched_form_gives_model_back(
        model: M,
        form: Self,
        after: Self,
        result: Result<M, ParseError>,
    ) {
        F::untouched_form_gives_model_back(model, form.form, after.form, result);
    }

    proof fn what_is_given_back_is_a_model(model: M, result: Result<M, ParseError>) {
        F::what_is_given_back_is_a_model(model, result);
    }
}

} // verus!
