use structform::{
    Flagged, FormInput, Leaf, PairField, ParseAndFormat, ParseError, StructForm, Text,
};

// How a form tracks whether it has been submitted yet.

// The login form is a record of two inputs, with the flag that says whether
// a submission has been attempted. Its model is the pair of username and
// password.

type LoginForm = Flagged<(FormTextInput<String>, FormPasswordInput<String>)>;

type FormTextInput<T> = FormInput<T, Text>;

struct Password;

type FormPasswordInput<T> = FormInput<T, Password>;

impl ParseAndFormat<String> for Password {
    fn parse(value: &str) -> Result<String, ParseError> {
        if value.is_empty() {
            Err(ParseError::Required)
        } else {
            Ok(value.into())
        }
    }

    fn format(value: &String) -> String {
        value.clone()
    }
}

#[test]
fn a_form_tracks_if_submit_is_attempted() {
    let mut form = LoginForm::default();

    // Initially, no submission has been attempted.
    assert_eq!(form.submit_attempted, false);

    // An attempt to submit the form flips the flag, also where the form
    // does not submit.
    let _parsed = form.submit();
    assert_eq!(form.submit_attempted, true);
}

#[test]
fn the_flag_is_raised_by_an_update_too() {
    let mut form = LoginForm::default();
    assert_eq!(form.submit_attempted(), false);
    let parsed = form.submit_update(("admin".to_string(), "admin".to_string()));
    assert_eq!(parsed, Err(ParseError::Required));
    assert_eq!(form.submit_attempted(), true);
    assert_eq!(form.submit_attempted, true);
}

#[test]
fn the_error_of_a_form_shows_once_a_submission_was_attempted() {
    let mut form = LoginForm::default();
    assert_eq!(form.validation_error(), None);

    assert_eq!(form.submit(), Err(ParseError::Required));
    assert_eq!(form.validation_error(), Some(ParseError::Required));

    form.set_input(PairField::First(Leaf), "admin".to_string());
    form.set_input(PairField::Second(Leaf), "adm1n".to_string());
    assert_eq!(form.validation_error(), None);
    assert_eq!(form.submit(), Ok(("admin".to_string(), "adm1n".to_string())));
}

#[test]
fn input_does_not_lower_the_flag() {
    let mut form = LoginForm::default();
    let _parsed = form.submit();
    form.set_input(PairField::First(Leaf), "admin".to_string());
    assert_eq!(form.submit_attempted, true);
    assert_eq!(form.form.0.input, "admin".to_string());
}

#[test]
fn a_record_submits_both_parts_and_gives_the_first_error() {
    let mut form = LoginForm::default();
    form.set_input(PairField::Second(Leaf), "adm1n".to_string());
    form.form.0.is_edited = false;
    form.form.1.is_edited = false;
    assert_eq!(form.submit(), Err(ParseError::Required));
    // Both inputs are marked, the second although the first failed.
    assert_eq!(form.form.0.is_edited, true);
    assert_eq!(form.form.1.is_edited, true);
}

#[test]
fn a_flagged_form_built_from_a_model_is_not_attempted() {
    let model = ("admin".to_string(), "adm1n".to_string());
    let mut form = LoginForm::new(&model);
    assert_eq!(form.submit_attempted, false);
    assert_eq!(form.is_empty(), false);
    assert_eq!(form.submit_update(model.clone()), Ok(model));
    assert_eq!(LoginForm::default().is_empty(), true);
}
