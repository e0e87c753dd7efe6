//! The shape of a form as it is declared: which kind each field is of, what
//! the declaration of the form says, and how the addresses of its fields are
//! named.
use vstd::prelude::*;
use vstd::string::*;
use crate::text::{separated, split_at};

verus! {

/// The kinds of fields that a form can have.
#[derive(Debug, Clone, Copy, PartialEq, Eq, Structural)]
pub enum FieldKind {
    /// A scalar, entered in an input cell.
    Input,
    /// A subform that is always there.
    Subform,
    /// A subform that can be switched on and off.
    OptionalSubform,
    /// A list of subforms.
    ListSubform,
    /// The flag that says whether a submission has been attempted.
    SubmitAttempted,
}

/// One argument of an attribute such as `(model = "Login", flatten)`.
pub enum MetaArg {
    /// A name with a text: `model = "Login"`.
    NameValue { name: String, value: String },
    /// A name alone: `flatten`.
    Path(String),
    /// Anything else. It is passed over.
    Other,
}

/// What the attribute of a field says.
#[derive(Debug, Clone, Copy, PartialEq, Eq, Structural)]
pub struct FieldAttribute {
    /// The field is the flag of attempted submissions.
    pub submit_attempted: bool,
    /// The field is a subform that is always there.
    pub subform: bool,
}

/// What the attribute of a form says.
pub struct ContainerAttribute {
    /// The name of the model that the form edits.
    pub model: String,
    /// The name of the function that submits the form, if it has one of its
    /// own.
    pub submit_with: Option<String>,
    /// Whether every input is built from the whole model, not from a field
    /// of it.
    pub flatten: bool,
}

/// Whether a name alone, `name`, is among `args`.
pub open spec fn names_alone(args: Seq<MetaArg>, name: Seq<char>) -> bool {
    exists|i: int| 0 <= i < args.len() && #[trigger] args[i] is Path && args[i]->Path_0@ == name
}

/// The text that the first of `args` with the name `name` and a text gives
/// to that name.
pub open spec fn first_text(args: Seq<MetaArg>, name: Seq<char>) -> Option<Seq<char>>
    decreases args.len(),
{
    if args.len() == 0 {
        None
    } else {
        match args.first() {
            MetaArg::NameValue { name: found, value } if found@ == name => Some(value@),
            _ => first_text(args.drop_first(), name),
        }
    }
}

/// The kind of a field, from its attribute and from the first name in its
/// type, if the type is a path. The attribute goes before the type, the
/// flag before the subform, and `Option` before `Vec`; what is none of
/// these is an input.
pub open spec fn kind_of(attribute: FieldAttribute, type_head: Option<Seq<char>>) -> FieldKind {
    if attribute.submit_attempted {
        FieldKind::SubmitAttempted
    } else if attribute.subform {
        FieldKind::Subform
    } else if type_head == Some("Option"@) {
        FieldKind::OptionalSubform
    } else if type_head == Some("Vec"@) {
        FieldKind::ListSubform
    } else {
        FieldKind::Input
    }
}

/// Whether `text` and `other` hold the same characters.
fn same_text(text: &String, other: &str) -> (same: bool)
    ensures
        same == (text@ == other@),
{
    let other = other.to_owned();
    *text == other
}

/// Whether a name alone, `name`, is among `args`.
fn has_name_alone(args: &Vec<MetaArg>, name: &str) -> (found: bool)
    ensures
        found == names_alone(args@, name@),
{
    let mut i: usize = 0;
    while i < args.len()
        invariant
            i <= args@.len(),
            forall|j: int| 0 <= j < i ==> !(#[trigger] args@[j] is Path && args@[j]->Path_0@ == name@),
        decreases args@.len() - i,
    {
        match &args[i] {
            MetaArg::Path(found) => {
                if same_text(found, name) {
                    return true;
                }
            },
            _ => {},
        }
        i += 1;
    }
    false
}

/// The text that the first of `args` with the name `name` and a text gives
/// to that name.
fn find_text(args: &Vec<MetaArg>, name: &str) -> (text: Option<String>)
    ensures
        match text {
            Some(text) => first_text(args@, name@) == Some(text@),
            None => first_text(args@, name@) is None,
        },
{
    let mut i: usize = 0;
    assert(args@.skip(0) =~= args@);
    while i < args.len()
        invariant
            i <= args@.len(),
            first_text(args@, name@) == first_text(args@.skip(i as int), name@),
        decreases args@.len() - i,
    {
        proof {
            assert(args@.skip(i as int).drop_first() =~= args@.skip(i + 1));
        }
        match &args[i] {
            MetaArg::NameValue { name: found, value } => {
                if same_text(found, name) {
                    return Some(value.clone());
                }
            },
            _ => {},
        }
        i += 1;
    }
    None
}

/// What the attribute of a field says: whether `submit_attempted` and
/// `subform` are among its arguments.
pub fn field_attribute(args: &Vec<MetaArg>) -> (attribute: FieldAttribute)
    ensures
        attribute.submit_attempted == names_alone(args@, "submit_attempted"@),
        attribute.subform == names_alone(args@, "subform"@),
{
    FieldAttribute {
        submit_attempted: has_name_alone(args, "submit_attempted"),
        subform: has_name_alone(args, "subform"),
    }
}

/// What the attribute of a form says: the model is the first text given to
/// `model`, the function that submits the first given to `submit_with`, and
/// the form is flat where `flatten` is among the arguments. An attribute
/// that names no model says nothing.
pub fn container_attribute(args: &Vec<MetaArg>) -> (attribute: Option<ContainerAttribute>)
    ensures
        match attribute {
            Some(found) => {
                &&& first_text(args@, "model"@) == Some(found.model@)
                &&& match found.submit_with {
                    Some(function) => first_text(args@, "submit_with"@) == Some(function@),
                    None => first_text(args@, "submit_with"@) is None,
                }
                &&& found.flatten == names_alone(args@, "flatten"@)
            },
            None => first_text(args@, "model"@) is None,
        },
{
    match find_text(args, "model") {
        Some(model) => Some(
            ContainerAttribute {
                model,
                submit_with: find_text(args, "submit_with"),
                flatten: has_name_alone(args, "flatten"),
            },
        ),
        None => None,
    }
}

/// The kind of a field, from its attribute and from the first name in its
/// type, if the type is a path.
pub fn field_kind(attribute: FieldAttribute, type_head: &Option<String>) -> (kind: FieldKind)
    ensures
        kind == kind_of(
            attribute,
            match type_head {
                Some(head) => Some(head@),
                None => None,
            },
        ),
{
    if attribute.submit_attempted {
        FieldKind::SubmitAttempted
    } else if attribute.subform {
        FieldKind::Subform
    } else {
        match type_head {
            Some(head) => {
                if same_text(head, "Option") {
                    FieldKind::OptionalSubform
                } else if same_text(head, "Vec") {
                    FieldKind::ListSubform
                } else {
                    FieldKind::Input
                }
            },
            None => FieldKind::Input,
        }
    }
}

/// The capital of `c`, where `c` is one of the letters `a` to `z`, and else
/// `c` itself.
pub open spec fn capital(c: char) -> char {
    if 0x61 <= c as u32 <= 0x7a {
        (c as u32 - 0x20) as u8 as char
    } else {
        c
    }
}

/// `str::to_uppercase` on ASCII characters: each of the letters `a` to `z`
/// becomes its capital, and every other character stays as it is.
#[verifier::external_body]
fn to_uppercase(text: &str) -> (upper: String)
    requires
        forall|i: int| 0 <= i < text@.len() ==> (#[trigger] text@[i] as u32) < 0x80,
    ensures
        upper@ == text@.map_values(|c: char| capital(c)),
{
    text.to_uppercase()
}

/// `part` with its first character as a capital.
pub open spec fn capitalized(part: Seq<char>) -> Seq<char> {
    seq![capital(part.first())] + part.skip(1)
}

/// The parts `parts`, each with its first character as a capital, one
/// after the other.
pub open spec fn pascal_cased(parts: Seq<Seq<char>>) -> Seq<char>
    decreases parts.len(),
{
    if parts.len() == 0 {
        Seq::<char>::empty()
    } else {
        pascal_cased(parts.drop_last()) + capitalized(parts.last())
    }
}

/// Whether a part of a name can be capitalized: it is not empty, and its
/// first character is an ASCII character.
pub open spec fn is_word(part: Seq<char>) -> bool {
    part.len() > 0 && (part.first() as u32) < 0x80
}

/// Whether `name` is made of words with `_` between them.
pub open spec fn is_snake_case(name: Seq<char>) -> bool {
    forall|i: int| 0 <= i < separated(name, '_').len() ==> is_word(#[trigger] separated(name, '_')[i])
}

/// Whether `name` is made of words with `_` between them, so that it can be
/// put in Pascal case.
pub fn check_snake_case(name: &str) -> (snake: bool)
    ensures
        snake == is_snake_case(name@),
{
    let parts = split_at(name, '_');
    let mut i: usize = 0;
    while i < parts.len()
        invariant
            i <= parts@.len(),
            parts@.len() == separated(name@, '_').len(),
            forall|j: int|
                0 <= j < parts@.len() ==> (#[trigger] parts@[j])@ == separated(name@, '_')[j],
            forall|j: int| 0 <= j < i ==> is_word(#[trigger] separated(name@, '_')[j]),
        decreases parts@.len() - i,
    {
        let part = parts[i];
        if part.unicode_len() == 0 || part.get_char(0) as u32 >= 0x80 {
            assert(!is_word(separated(name@, '_')[i as int]));
            return false;
        }
        i += 1;
    }
    true
}

/// The name `snake` in Pascal case: its words, each with its first
/// character as a capital, without the `_` between them.
pub fn snake_to_pascal_case(snake: &str) -> (pascal: String)
    requires
        is_snake_case(snake@),
    ensures
        pascal@ == pascal_cased(separated(snake@, '_')),
{
    let parts = split_at(snake, '_');
    let ghost words = separated(snake@, '_');
    let mut pascal = String::new();
    let mut i: usize = 0;
    while i < parts.len()
        invariant
            i <= parts@.len(),
            words == separated(snake@, '_'),
            parts@.len() == words.len(),
            forall|j: int| 0 <= j < parts@.len() ==> (#[trigger] parts@[j])@ == words[j],
            forall|j: int| 0 <= j < words.len() ==> is_word(#[trigger] words[j]),
            pascal@ == pascal_cased(words.take(i as int)),
        decreases parts@.len() - i,
    {
        let part = parts[i];
        assert(is_word(words[i as int]));
        let length = part.unicode_len();
        let first = part.substring_char(0, 1);
        assert(first@[0] == part@.first());
        let head = to_uppercase(first);
        pascal.append(head.as_str());
        pascal.append(part.substring_char(1, length));
        proof {
            assert(words.take(i + 1).drop_last() =~= words.take(i as int));
            assert(part@.subrange(0, 1).map_values(|c: char| capital(c)) =~= seq![
                capital(part@.first()),
            ]);
            assert(part@.subrange(1, length as int) =~= part@.skip(1));
            assert(pascal@ =~= pascal_cased(words.take(i as int)) + capitalized(part@));
        }
        i += 1;
    }
    proof {
        assert(words.take(i as int) =~= words);
    }
    pascal
}

/// The name of the addresses of the form `form`.
pub fn field_enum_name(form: &str) -> (name: String)
    ensures
        name@ == form@ + "Field"@,
{
    let mut name = form.to_owned();
    name.append("Field");
    name
}

/// The name of the address that switches the optional subform `field`.
pub fn toggle_name(field: &str) -> (name: String)
    ensures
        name@ == "Toggle"@ + field@,
{
    let mut name = "Toggle".to_owned();
    name.append(field);
    name
}

/// The name of the address that adds a subform to the list `field`.
pub fn add_name(field: &str) -> (name: String)
    ensures
        name@ == "Add"@ + field@,
{
    let mut name = "Add".to_owned();
    name.append(field);
    name
}

/// The name of the address that removes a subform from the list `field`.
pub fn remove_name(field: &str) -> (name: String)
    ensures
        name@ == "Remove"@ + field@,
{
    let mut name = "Remove".to_owned();
    name.append(field);
    name
}

} // verus!
