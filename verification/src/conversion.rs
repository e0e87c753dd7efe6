//! The conversion between the text of an input and the value it stands for.
use vstd::prelude::*;
use crate::error::ParseError;
use crate::text::{comma_separated, split_at, trim, trimmed};

verus! {

/// The conversion that an input cell uses: from the raw text to a value or an
/// error, and from a value back to the text that is shown for it.
///
/// `parses` and `formats` say what the two functions may return; a conversion
/// that does not state them promises nothing.
pub trait ParseAndFormat<T> {
    /// Whether `parse` may give `result` for the text `raw`.
    open spec fn parses(raw: Seq<char>, result: Result<T, ParseError>) -> bool {
        true
    }

    /// Whether `format` may give `text` for `value`.
    open spec fn formats(value: &T, text: Seq<char>) -> bool {
        true
    }

    /// The value that the text `value` stands for, or the error that says
    /// why it stands for none.
    fn parse(value: &str) -> (result: Result<T, ParseError>)
        ensures
            Self::parses(value@, result),
    ;

    /// The text that is shown for `value`.
    fn format(value: &T) -> (text: String)
        ensures
            Self::formats(value, text@),
    ;
}

/// A scalar that can be read from a text and written as one.
///
/// `read` is given a text without white space around it that is not empty.
/// Where it fails, it gives the message of the failure.
pub trait TextValue: Sized {
    /// Whether `read` may give `result` for `text`.
    open spec fn reads(text: Seq<char>, result: Result<Self, String>) -> bool {
        true
    }

    /// Whether `write` may give `text` for this value.
    open spec fn writes(&self, text: Seq<char>) -> bool {
        true
    }

    /// The scalar that `text` stands for, or the message of the failure.
    fn read(text: &str) -> (result: Result<Self, String>)
        ensures
            Self::reads(text@, result),
    ;

    /// The text of this scalar.
    fn write(&self) -> (text: String)
        ensures
            self.writes(text@),
    ;
}

/// A text is read as itself, and never fails to.

impl TextValue for String {
    open spec fn reads(text: Seq<char>, result: Result<String, String>) -> bool {
        result is Ok && result->Ok_0@ == text
    }

    open spec fn writes(&self, text: Seq<char>) -> bool {
        text == self@
    }

    fn read(text: &str) -> (result: Result<String, String>)
        ensures
            Self::reads(text@, result),
    {
        Ok(text.to_owned())
    }

    fn write(&self) -> (text: String)
        ensures
            self.writes(text@),
    {
        self.clone()
    }
}

/// A scalar whose kind has a name, for the message of an error.
pub trait Named {
    /// Whether `kind_name` may give `name`.
    open spec fn named(name: Seq<char>) -> bool {
        true
    }

    /// What a value of this type is called in a message: "a port".
    fn kind_name() -> (name: String)
        ensures
            Self::named(name@),
    ;
}

/// Whether `outcome` is what reading the scalar of an input with the text
/// `raw` gives: nothing where `raw` is blank, else what the scalar makes of
/// the trimmed text.
pub open spec fn scalar_read<T: TextValue>(raw: Seq<char>, outcome: Option<Result<T, String>>) -> bool {
    if trimmed(raw).len() == 0 {
        outcome is None
    } else {
        outcome is Some && T::reads(trimmed(raw), outcome->0)
    }
}

/// Reads the scalar of an input: trims the text, and reads what is left of
/// it, if anything is.
pub fn read_scalar<T: TextValue>(value: &str) -> (outcome: Option<Result<T, String>>)
    ensures
        scalar_read(value@, outcome),
{
    let inner = trim(value);
    if inner.is_empty() {
        None
    } else {
        Some(T::read(inner))
    }
}

/// The items among the parts of a list: each part trimmed, without those
/// that are empty then.
pub open spec fn items_among(parts: Seq<Seq<char>>) -> Seq<Seq<char>>
    decreases parts.len(),
{
    if parts.len() == 0 {
        Seq::<Seq<char>>::empty()
    } else if trimmed(parts.last()).len() == 0 {
        items_among(parts.drop_last())
    } else {
        items_among(parts.drop_last()).push(trimmed(parts.last()))
    }
}

/// The items of the list that `raw` holds: the parts between its commas,
/// each trimmed, without the empty ones.
pub open spec fn items_of(raw: Seq<char>) -> Seq<Seq<char>> {
    items_among(comma_separated(trimmed(raw)))
}

/// Whether `outcome` is what reading the list `raw` gives: the scalars that
/// its items read as, in order, or the message of the first item that does
/// not read as one.
pub open spec fn list_read<T: TextValue>(raw: Seq<char>, outcome: Result<Vec<T>, String>) -> bool {
    items_read(items_of(raw), outcome)
}

/// Whether `text` may fail to read as a scalar.
pub open spec fn reads_as_none<T: TextValue>(text: Seq<char>) -> bool {
    exists|message: String| #[trigger] T::reads(text, Err(message))
}

/// Whether `item` may read as a scalar.
pub open spec fn reads_as_some<T: TextValue>(item: Seq<char>) -> bool {
    exists|value: T| #[trigger] T::reads(item, Ok(value))
}

/// Whether `outcome` is what reading `items` one by one gives.
pub open spec fn items_read<T: TextValue>(items: Seq<Seq<char>>, outcome: Result<Vec<T>, String>) -> bool {
    match outcome {
        Ok(values) => {
            &&& values@.len() == items.len()
            &&& forall|i: int| 0 <= i < items.len() ==> T::reads(items[i], Ok(#[trigger] values@[i]))
        },
        Err(message) => exists|k: int|
            {
                &&& 0 <= k < items.len()
                &&& #[trigger] T::reads(items[k], Err(message))
                &&& forall|i: int| 0 <= i < k ==> reads_as_some::<T>(#[trigger] items[i])
            },
    }
}

/// Reads a list of scalars: the text is split at its commas, and each part
/// that is not blank is read as a scalar. One part that fails fails the
/// list; a text without such parts is the empty list.
pub fn read_list<T: TextValue>(value: &str) -> (outcome: Result<Vec<T>, String>)
    ensures
        list_read(value@, outcome),
{
    let parts = split_at(trim(value), ',');
    let ghost texts = comma_separated(trimmed(value@));
    let mut values: Vec<T> = Vec::new();
    let mut i: usize = 0;
    while i < parts.len()
        invariant
            i <= parts@.len(),
            texts == comma_separated(trimmed(value@)),
            parts@.len() == texts.len(),
            forall|j: int| 0 <= j < parts@.len() ==> (#[trigger] parts@[j])@ == texts[j],
            items_read(items_among(texts.take(i as int)), Ok::<Vec<T>, String>(values)),
        decreases parts@.len() - i,
    {
        let inner = trim(parts[i]);
        proof {
            assert(texts.take(i + 1).drop_last() =~= texts.take(i as int));
            assert(texts.take(i + 1).last() == texts[i as int]);
        }
        if !inner.is_empty() {
            let ghost before = items_among(texts.take(i as int));
            match T::read(inner) {
                Ok(read) => {
                    values.push(read);
                },
                Err(message) => {
                    proof {
                        let k = before.len() as int;
                        let items = items_of(value@);
                        let now = items_among(texts.take(i + 1));
                        assert(now == before.push(inner@));
                        items_among_is_monotonic(texts, i + 1);
                        assert(items == items_among(texts));
                        assert(items[k] == now[k]);
                        assert(T::reads(items[k], Err(message)));
                        assert forall|j: int| 0 <= j < k implies reads_as_some::<T>(
                            #[trigger] items[j],
                        ) by {
                            assert(items[j] == now[j]);
                            assert(T::reads(before[j], Ok(values@[j])));
                        }
                        assert(0 <= k < items.len());
                        assert(Err::<Vec<T>, String>(message)->Err_0 == message);
                    }
                    return Err(message);
                },
            }
        }
        i += 1;
    }
    proof {
        assert(texts.take(i as int) =~= texts);
    }
    Ok(values)
}

/// The items among the first parts of a list are the first items of the
/// list.
pub proof fn items_among_is_monotonic(parts: Seq<Seq<char>>, n: int)
    requires
        0 <= n <= parts.len(),
    ensures
        items_among(parts.take(n)).len() <= items_among(parts).len(),
        forall|i: int|
            0 <= i < items_among(parts.take(n)).len() ==> items_among(parts.take(n))[i]
                == #[trigger] items_among(parts)[i],
    decreases parts.len(),
{
    if n < parts.len() {
        items_among_is_monotonic(parts.drop_last(), n);
        assert(parts.drop_last().take(n) =~= parts.take(n));
    } else {
        assert(parts.take(n) =~= parts);
    }
}

/// The texts in `texts`, one after the other, with a comma and a space
/// between each two.
pub open spec fn joined(texts: Seq<Seq<char>>) -> Seq<char>
    decreases texts.len(),
{
    if texts.len() == 0 {
        Seq::<char>::empty()
    } else if texts.len() == 1 {
        texts.last()
    } else {
        joined(texts.drop_last()) + ", "@ + texts.last()
    }
}

/// Whether `text` is what writing the list `values` gives: the texts of its
/// scalars, in order, with a comma and a space between each two.
pub open spec fn list_written<T: TextValue>(values: Seq<T>, text: Seq<char>) -> bool {
    exists|texts: Seq<Seq<char>>|
        {
            &&& texts.len() == values.len()
            &&& forall|i: int| 0 <= i < values.len() ==> values[i].writes(#[trigger] texts[i])
            &&& text == joined(texts)
        }
}

/// Writes a list of scalars: the text of each, with a comma and a space
/// between each two.
pub fn write_list<T: TextValue>(values: &Vec<T>) -> (text: String)
    ensures
        list_written(values@, text@),
{
    let mut text = String::new();
    let ghost mut texts = Seq::<Seq<char>>::empty();
    let mut i: usize = 0;
    while i < values.len()
        invariant
            i <= values@.len(),
            texts.len() == i,
            forall|j: int| 0 <= j < i ==> values@[j].writes(#[trigger] texts[j]),
            text@ == joined(texts),
        decreases values@.len() - i,
    {
        if i > 0 {
            text.append(", ");
        }
        let item = values[i].write();
        text.append(item.as_str());
        proof {
            assert(texts.push(item@).drop_last() =~= texts);
            if i == 0 {
                assert(text@ =~= item@);
            }
            texts = texts.push(item@);
        }
        i += 1;
    }
    text
}

/// The conversion of a text input: the text is trimmed and then read as the
/// scalar; a failure to read is reported with its message.
pub struct Text;

/// A required scalar: an empty text is an error.
impl<T: TextValue> ParseAndFormat<T> for Text {
    open spec fn parses(raw: Seq<char>, result: Result<T, ParseError>) -> bool {
        if trimmed(raw).len() == 0 {
            result == Err::<T, ParseError>(ParseError::Required)
        } else {
            match result {
                Ok(value) => T::reads(trimmed(raw), Ok(value)),
                Err(ParseError::FromStrError(message)) => T::reads(trimmed(raw), Err(message)),
                Err(_) => false,
            }
        }
    }

    open spec fn formats(value: &T, text: Seq<char>) -> bool {
        value.writes(text)
    }

    fn parse(value: &str) -> (result: Result<T, ParseError>)
        ensures
            <Self as ParseAndFormat<T>>::parses(value@, result),
    {
        match read_scalar(value) {
            None => Err(ParseError::Required),
            Some(Ok(value)) => Ok(value),
            Some(Err(message)) => Err(ParseError::FromStrError(message)),
        }
    }

    fn format(value: &T) -> (text: String)
        ensures
            <Self as ParseAndFormat<T>>::formats(value, text@),
    {
        value.write()
    }
}

/// An optional scalar: an empty text stands for no value.
impl<T: TextValue> ParseAndFormat<Option<T>> for Text {
    open spec fn parses(raw: Seq<char>, result: Result<Option<T>, ParseError>) -> bool {
        if trimmed(raw).len() == 0 {
            result == Ok::<Option<T>, ParseError>(None)
        } else {
            match result {
                Ok(Some(value)) => T::reads(trimmed(raw), Ok(value)),
                Ok(None) => false,
                Err(ParseError::FromStrError(message)) => T::reads(trimmed(raw), Err(message)),
                Err(_) => false,
            }
        }
    }

    open spec fn formats(value: &Option<T>, text: Seq<char>) -> bool {
        match value {
            None => text == Seq::<char>::empty(),
            Some(inner) => inner.writes(text),
        }
    }

    fn parse(value: &str) -> (result: Result<Option<T>, ParseError>)
        ensures
            <Self as ParseAndFormat<Option<T>>>::parses(value@, result),
    {
        match read_scalar(value) {
            None => Ok(None),
            Some(Ok(value)) => Ok(Some(value)),
            Some(Err(message)) => Err(ParseError::FromStrError(message)),
        }
    }

    fn format(value: &Option<T>) -> (text: String)
        ensures
            <Self as ParseAndFormat<Option<T>>>::formats(value, text@),
    {
        match value {
            None => String::new(),
            Some(inner) => inner.write(),
        }
    }
}

/// A list of scalars, entered with commas between them.
impl<T: TextValue> ParseAndFormat<Vec<T>> for Text {
    open spec fn parses(raw: Seq<char>, result: Result<Vec<T>, ParseError>) -> bool {
        match result {
            Ok(values) => list_read(raw, Ok::<Vec<T>, String>(values)),
            Err(ParseError::FromStrError(message)) => list_read(raw, Err::<Vec<T>, String>(message)),
            Err(_) => false,
        }
    }

    open spec fn formats(value: &Vec<T>, text: Seq<char>) -> bool {
        list_written(value@, text)
    }

    fn parse(value: &str) -> (result: Result<Vec<T>, ParseError>)
        ensures
            <Self as ParseAndFormat<Vec<T>>>::parses(value@, result),
    {
        match read_list(value) {
            Ok(values) => Ok(values),
            Err(message) => Err(ParseError::FromStrError(message)),
        }
    }

    fn format(value: &Vec<T>) -> (text: String)
        ensures
            <Self as ParseAndFormat<Vec<T>>>::formats(value, text@),
    {
        write_list(value)
    }
}

/// The conversion of a text input whose scalar has a name: a text that does
/// not read as the scalar is reported as not of that name.
pub struct NamedText;

/// A required scalar: an empty text is an error.
impl<T: TextValue + Named> ParseAndFormat<T> for NamedText {
    open spec fn parses(raw: Seq<char>, result: Result<T, ParseError>) -> bool {
        if trimmed(raw).len() == 0 {
            result == Err::<T, ParseError>(ParseError::Required)
        } else {
            match result {
                Ok(value) => T::reads(trimmed(raw), Ok(value)),
                Err(ParseError::InvalidFormat { required_type }) => {
                    &&& reads_as_none::<T>(trimmed(raw))
                    &&& T::named(required_type@)
                },
                Err(_) => false,
            }
        }
    }

    open spec fn formats(value: &T, text: Seq<char>) -> bool {
        value.writes(text)
    }

    fn parse(value: &str) -> (result: Result<T, ParseError>)
        ensures
            <Self as ParseAndFormat<T>>::parses(value@, result),
    {
        match read_scalar(value) {
            None => Err(ParseError::Required),
            Some(Ok(value)) => Ok(value),
            Some(Err(message)) => {
                assert(T::reads(trimmed(value@), Err(message)));
                Err(ParseError::InvalidFormat { required_type: T::kind_name() })
            },
        }
    }

    fn format(value: &T) -> (text: String)
        ensures
            <Self as ParseAndFormat<T>>::formats(value, text@),
    {
        value.write()
    }
}

/// An optional scalar: an empty text stands for no value. A text that does
/// not read as the scalar is reported with the message of the failure.
impl<T: TextValue + Named> ParseAndFormat<Option<T>> for NamedText {
    open spec fn parses(raw: Seq<char>, result: Result<Option<T>, ParseError>) -> bool {
        <Text as ParseAndFormat<Option<T>>>::parses(raw, result)
    }

    open spec fn formats(value: &Option<T>, text: Seq<char>) -> bool {
        <Text as ParseAndFormat<Option<T>>>::formats(value, text)
    }

    fn parse(value: &str) -> (result: Result<Option<T>, ParseError>)
        ensures
            <Self as ParseAndFormat<Option<T>>>::parses(value@, result),
    {
        <Text as ParseAndFormat<Option<T>>>::parse(value)
    }

    fn format(value: &Option<T>) -> (text: String)
        ensures
            <Self as ParseAndFormat<Option<T>>>::formats(value, text@),
    {
        <Text as ParseAndFormat<Option<T>>>::format(value)
    }
}

/// A list of scalars, entered with commas between them.
impl<T: TextValue + Named> ParseAndFormat<Vec<T>> for NamedText {
    open spec fn parses(raw: Seq<char>, result: Result<Vec<T>, ParseError>) -> bool {
        match result {
            Ok(values) => list_read(raw, Ok::<Vec<T>, String>(values)),
            Err(ParseError::InvalidFormat { required_type }) => {
                &&& exists|message: String| #[trigger] list_read(raw, Err::<Vec<T>, String>(message))
                &&& T::named(required_type@)
            },
            Err(_) => false,
        }
    }

    open spec fn formats(value: &Vec<T>, text: Seq<char>) -> bool {
        list_written(value@, text)
    }

    fn parse(value: &str) -> (result: Result<Vec<T>, ParseError>)
        ensures
            <Self as ParseAndFormat<Vec<T>>>::parses(value@, result),
    {
        match read_list::<T>(value) {
            Ok(values) => Ok(values),
            Err(message) => {
                assert(list_read(value@, Err::<Vec<T>, String>(message)));
                Err(ParseError::InvalidFormat { required_type: T::kind_name() })
            },
        }
    }

    fn format(value: &Vec<T>) -> (text: String)
        ensures
            <Self as ParseAndFormat<Vec<T>>>::formats(value, text@),
    {
        write_list(value)
    }
}

} // verus!
