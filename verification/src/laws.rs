//! What holds of the conversions and of the forms of this library, whatever
//! they are given.
use vstd::prelude::*;
use crate::conversion::{
    items_among, items_of, Named, NamedText, ParseAndFormat, Text, TextValue,
};
use crate::error::{of_present, ParseError};
use crate::faithful::{clones_exactly, Faithful};
use crate::form::StructForm;
use crate::integer::{read_as, Integer};
use crate::list::{collected, item_submitted, items_submitted, ListField};
use crate::number::{narrowed, Number, NumberOrDefault, NumericValue};
use crate::optional::OptionalField;
use crate::record::{in_order, PairField};
use crate::text::{
    comma_separated, integer_text, is_white_space, text_denotes_its_integer, trimmed,
    trimmed_of_white_space,
};

verus! {

/// Whether `raw` holds nothing but white space. The empty text is blank.
pub open spec fn is_blank(raw: Seq<char>) -> bool {
    forall|i: int| 0 <= i < raw.len() ==> is_white_space(#[trigger] raw[i])
}

/// A required text rejects the empty text, and every blank one, as
/// `Required`.
pub proof fn required_text_rejects_blank<T: TextValue>(raw: Seq<char>, result: Result<T, ParseError>)
    requires
        is_blank(raw),
        <Text as ParseAndFormat<T>>::parses(raw, result),
    ensures
        result == Err::<T, ParseError>(ParseError::Required),
{
    trimmed_of_white_space(raw);
}

/// An optional text takes the empty text, and every blank one, as no value.
pub proof fn optional_text_accepts_blank<T: TextValue>(
    raw: Seq<char>,
    result: Result<Option<T>, ParseError>,
)
    requires
        is_blank(raw),
        <Text as ParseAndFormat<Option<T>>>::parses(raw, result),
    ensures
        result == Ok::<Option<T>, ParseError>(None),
{
    trimmed_of_white_space(raw);
}

/// A required number rejects the empty text, and every blank one, as
/// `Required`.
pub proof fn required_number_rejects_blank<T: NumericValue>(
    raw: Seq<char>,
    result: Result<T, ParseError>,
)
    requires
        is_blank(raw),
        <Number as ParseAndFormat<T>>::parses(raw, result),
    ensures
        result == Err::<T, ParseError>(ParseError::Required),
{
    trimmed_of_white_space(raw);
}

/// An optional number takes the empty text, and every blank one, as no
/// value.
pub proof fn optional_number_accepts_blank<T: NumericValue>(
    raw: Seq<char>,
    result: Result<Option<T>, ParseError>,
)
    requires
        is_blank(raw),
        <Number as ParseAndFormat<Option<T>>>::parses(raw, result),
    ensures
        result == Ok::<Option<T>, ParseError>(None),
{
    trimmed_of_white_space(raw);
}

/// A required text that goes by its name rejects the empty text, and every
/// blank one, as `Required`.
pub proof fn required_named_text_rejects_blank<T: TextValue + Named>(
    raw: Seq<char>,
    result: Result<T, ParseError>,
)
    requires
        is_blank(raw),
        <NamedText as ParseAndFormat<T>>::parses(raw, result),
    ensures
        result == Err::<T, ParseError>(ParseError::Required),
{
    trimmed_of_white_space(raw);
}

/// A number with a default takes the empty text, and every blank one, as
/// the default of its type.
pub proof fn number_with_default_takes_blank_as_default<T: NumericValue + Default>(
    raw: Seq<char>,
    result: Result<T, ParseError>,
)
    requires
        is_blank(raw),
        <NumberOrDefault as ParseAndFormat<T>>::parses(raw, result),
    ensures
        result is Ok,
        call_ensures(T::default, (), result->Ok_0),
{
    trimmed_of_white_space(raw);
}

/// A list takes the empty text, and every blank one, as the empty list: it
/// is no error to enter nothing.
pub proof fn blank_list_is_the_empty_list<T: TextValue>(
    raw: Seq<char>,
    result: Result<Vec<T>, ParseError>,
)
    requires
        is_blank(raw),
        <Text as ParseAndFormat<Vec<T>>>::parses(raw, result),
    ensures
        result is Ok,
        result->Ok_0@.len() == 0,
{
    trimmed_of_white_space(raw);
    let parts = comma_separated(trimmed(raw));
    assert(trimmed(raw) =~= Seq::<char>::empty());
    assert(parts =~= seq![Seq::<char>::empty()]);
    assert(parts.drop_last() =~= Seq::<Seq<char>>::empty());
    assert(trimmed(parts.last()).len() == 0);
    assert(items_among(parts.drop_last()).len() == 0);
    assert(items_of(raw) == items_among(parts.drop_last()));
}

/// The text of an integer reads back as that integer.
pub proof fn integer_reads_back<T: Integer>(value: T, result: Result<T, String>)
    requires
        read_as(integer_text(value.number()), result),
    ensures
        result == Ok::<T, String>(value),
{
    value.known_by_number(value);
    text_denotes_its_integer(value.number(), T::least() < 0);
    result->Ok_0.known_by_number(value);
}

/// Round trip of a number: the text that an integer is formatted as parses
/// to that integer.
pub proof fn number_survives_round_trip<T: Integer>(
    value: T,
    text: Seq<char>,
    result: Result<T, ParseError>,
)
    requires
        <Number as ParseAndFormat<T>>::formats(&value, text),
        <Number as ParseAndFormat<T>>::parses(text, result),
    ensures
        result == Ok::<T, ParseError>(value),
{
    value.known_by_number(value);
    text_denotes_its_integer(value.number(), T::least() < 0);
    let wide = choose|wide: Result<T, String>| #[trigger]
        T::reads(text, wide) && narrowed(wide, result);
    integer_reads_back(value, wide);
}

/// Round trip of an optional number: the text that an optional integer is
/// formatted as parses to it, the empty text of no value to no value.
pub proof fn optional_number_survives_round_trip<T: Integer>(
    value: Option<T>,
    text: Seq<char>,
    result: Result<Option<T>, ParseError>,
)
    requires
        <Number as ParseAndFormat<Option<T>>>::formats(&value, text),
        <Number as ParseAndFormat<Option<T>>>::parses(text, result),
    ensures
        result == Ok::<Option<T>, ParseError>(value),
{
    match value {
        Some(inner) => {
            inner.known_by_number(inner);
            text_denotes_its_integer(inner.number(), T::least() < 0);
            let lowered = of_present(result)->0;
            let wide = choose|wide: Result<T, String>| #[trigger]
                T::reads(text, wide) && narrowed(wide, lowered);
            integer_reads_back(inner, wide);
        },
        None => {},
    }
}

/// Round trip of an integer in a text input: the text that it is formatted
/// as parses to it.
pub proof fn integer_text_survives_round_trip<T: Integer>(
    value: T,
    text: Seq<char>,
    result: Result<T, ParseError>,
)
    requires
        <Text as ParseAndFormat<T>>::formats(&value, text),
        <Text as ParseAndFormat<T>>::parses(text, result),
    ensures
        result == Ok::<T, ParseError>(value),
{
    value.known_by_number(value);
    text_denotes_its_integer(value.number(), T::least() < 0);
    match result {
        Ok(read) => integer_reads_back(value, Ok(read)),
        Err(ParseError::FromStrError(message)) => integer_reads_back(value, Err(message)),
        Err(_) => {},
    }
}

/// Input to the first part of a record leaves the second part untouched:
/// where the record, built from a model, is then submitted to update that
/// model, the second part of the model comes back as it was.
pub proof fn input_to_the_first_part_keeps_the_second<
    MA: Default,
    MB: Default,
    FA: StructForm<MA>,
    FB: Faithful<MB>,
>(
    model: (MA, MB),
    form: (FA, FB),
    field: FA::Field,
    value: Seq<char>,
    edited: (FA, FB),
    after: (FA, FB),
    result: Result<(MA, MB), ParseError>,
)
    requires
        FB::copies_exactly(),
        <(FA, FB) as StructForm<(MA, MB)>>::built_from(&model, form),
        form.input_set(PairField::First(field), value, edited),
        edited.update_submitted(model, after, result),
    ensures
        result is Ok ==> FB::gives_back(model.1, Ok(result->Ok_0.1)),
{
    let (first, second) = choose|first: Result<MA, ParseError>, second: Result<MB, ParseError>|
        {
            &&& #[trigger] edited.0.update_submitted(model.0, after.0, first)
            &&& #[trigger] edited.1.update_submitted(model.1, after.1, second)
            &&& result == in_order(first, second)
        };
    FB::untouched_form_gives_model_back(model.1, form.1, after.1, second);
    FB::what_is_given_back_is_a_model(model.1, second);
}

/// Input to the second part of a record leaves the first part untouched:
/// where the record, built from a model, is then submitted to update that
/// model, the first part of the model comes back as it was.
pub proof fn input_to_the_second_part_keeps_the_first<
    MA: Default,
    MB: Default,
    FA: Faithful<MA>,
    FB: StructForm<MB>,
>(
    model: (MA, MB),
    form: (FA, FB),
    field: FB::Field,
    value: Seq<char>,
    edited: (FA, FB),
    after: (FA, FB),
    result: Result<(MA, MB), ParseError>,
)
    requires
        FA::copies_exactly(),
        <(FA, FB) as StructForm<(MA, MB)>>::built_from(&model, form),
        form.input_set(PairField::Second(field), value, edited),
        edited.update_submitted(model, after, result),
    ensures
        result is Ok ==> FA::gives_back(model.0, Ok(result->Ok_0.0)),
{
    let (first, second) = choose|first: Result<MA, ParseError>, second: Result<MB, ParseError>|
        {
            &&& #[trigger] edited.0.update_submitted(model.0, after.0, first)
            &&& #[trigger] edited.1.update_submitted(model.1, after.1, second)
            &&& result == in_order(first, second)
        };
    FA::untouched_form_gives_model_back(model.0, form.0, after.0, first);
    FA::what_is_given_back_is_a_model(model.0, first);
}

/// Input to one subform of a list leaves the others untouched: where the
/// list, built from models, is then submitted to update those models, the
/// model at every other place comes back as it was.
pub proof fn input_to_one_subform_keeps_the_others<M: Clone, F: Faithful<M> + Default>(
    model: Vec<M>,
    form: Vec<F>,
    place: usize,
    field: F::Field,
    value: Seq<char>,
    edited: Vec<F>,
    after: Vec<F>,
    result: Result<Vec<M>, ParseError>,
    other: int,
)
    requires
        F::copies_exactly(),
        clones_exactly::<M>(),
        <Vec<F> as StructForm<Vec<M>>>::built_from(&model, form),
        form.input_set(ListField::Item(place, field), value, edited),
        edited.update_submitted(model, after, result),
        0 <= other < model@.len(),
        other != place,
    ensures
        result is Ok ==> {
            &&& result->Ok_0@.len() == model@.len()
            &&& F::gives_back(model@[other], Ok(result->Ok_0@[other]))
        },
{
    let results = choose|results: Seq<Result<M, ParseError>>| #[trigger]
        items_submitted(edited@, model@, after@, results) && collected(results, result);
    assert(item_submitted(edited@[other], model@, other, after@[other], results[other]));
    let copy = choose|copy: M|
        cloned(model@[other], copy) && #[trigger] edited@[other].update_submitted(
            copy,
            after@[other],
            results[other],
        );
    assert(copy == model@[other]);
    assert(edited@[other] == form@[other]);
    F::untouched_form_gives_model_back(model@[other], form@[other], after@[other], results[other]);
}

/// A removal at a place that the list does not have leaves the list as it
/// is. One at a place that it has makes the list one shorter: the subforms
/// before the place stay where they are, and those behind it move up by one,
/// in their order.
pub proof fn removal_keeps_the_others_in_order<M: Clone, F: StructForm<M> + Default>(
    list: Vec<F>,
    place: usize,
    value: Seq<char>,
    after: Vec<F>,
)
    requires
        list.input_set(ListField::Remove(place), value, after),
    ensures
        place >= list@.len() ==> after@ == list@,
        place < list@.len() ==> {
            &&& after@.len() == list@.len() - 1
            &&& forall|i: int| 0 <= i < place ==> after@[i] == list@[i]
            &&& forall|i: int| place <= i < after@.len() ==> after@[i] == list@[i + 1]
        },
{
}

/// An optional subform that is off and is switched twice is off again.
pub proof fn toggled_twice_is_off<M, F: StructForm<M> + Default>(
    start: Option<F>,
    first: Seq<char>,
    between: Option<F>,
    second: Seq<char>,
    end: Option<F>,
)
    requires
        start is None,
        start.input_set(OptionalField::Toggle, first, between),
        between.input_set(OptionalField::Toggle, second, end),
    ensures
        end is None,
{
}

/// Nothing that was entered in an optional subform outlasts switching it
/// off: switched on again, it is a fresh subform, whatever it held before.
pub proof fn switched_on_again_is_fresh<M, F: StructForm<M> + Default>(
    start: Option<F>,
    first: Seq<char>,
    between: Option<F>,
    second: Seq<char>,
    end: Option<F>,
)
    requires
        start is Some,
        start.input_set(OptionalField::Toggle, first, between),
        between.input_set(OptionalField::Toggle, second, end),
    ensures
        between is None,
        end is Some,
        call_ensures(F::default, (), end->0),
{
}

} // verus!
