use std::convert::TryFrom;
use std::fmt;
use structform::{
    both, FormInput, Named, Number, NumericValue, ParseError, StructForm, Text, TextValue,
};

// Custom validation on a model, and how it shows on the form.

#[derive(Debug, PartialEq, Eq)]
struct ConnectionDetails {
    ip: IpAddr,
    port: Port,
}

// A port cannot be zero, and must fit within a u16.

#[derive(Debug, Clone, Copy, PartialEq, Eq)]
pub struct Port(u16);
impl Port {
    pub const MIN: u16 = 1;
    pub const MAX: u16 = std::u16::MAX;
}

impl fmt::Display for Port {
    fn fmt(&self, f: &mut fmt::Formatter) -> fmt::Result {
        fmt::Display::fmt(&self.0, f)
    }
}

impl TryFrom<u16> for Port {
    type Error = String;
    fn try_from(value: u16) -> Result<Self, Self::Error> {
        if value >= Self::MIN && value <= Self::MAX {
            Ok(Self(value))
        } else {
            Err(format!("Expected a port between {} and {}", Self::MIN, Self::MAX).into())
        }
    }
}

// A port is entered as a number: read as a u16 first, then narrowed.

impl Named for Port {
    fn kind_name() -> String {
        "a port".to_string()
    }
}

impl NumericValue for Port {
    type Wide = u16;

    fn min_text() -> String {
        Port::MIN.to_string()
    }

    fn max_text() -> String {
        Port::MAX.to_string()
    }

    fn narrow(via: u16) -> Result<Port, String> {
        Port::try_from(via).map_err(|e| e.to_string())
    }

    fn show(&self) -> String {
        self.to_string()
    }
}

// An address is entered as text: four numbers with dots between them.

#[derive(Debug, Clone, Copy, PartialEq, Eq)]
pub struct IpAddr([u8; 4]);

impl IpAddr {
    fn new(a: u8, b: u8, c: u8, d: u8) -> IpAddr {
        IpAddr([a, b, c, d])
    }
}

impl TextValue for IpAddr {
    fn read(text: &str) -> Result<IpAddr, String> {
        let parts: Vec<&str> = text.split('.').collect();
        if parts.len() != 4 {
            return Err("invalid IP address syntax".to_string());
        }
        let mut address = [0u8; 4];
        for (part, place) in parts.iter().zip(address.iter_mut()) {
            *place = part
                .parse::<u8>()
                .map_err(|_| "invalid IP address syntax".to_string())?;
        }
        Ok(IpAddr(address))
    }

    fn write(&self) -> String {
        format!("{}.{}.{}.{}", self.0[0], self.0[1], self.0[2], self.0[3])
    }
}

#[derive(Default, Clone)]
struct ConnectionDetailsForm {
    ip: FormTextInput<IpAddr>,
    port: FormNumberInput<Port>,
}

pub enum ConnectionDetailsFormField {
    Ip,
    Port,
}

type FormTextInput<T> = FormInput<T, Text>;

type FormNumberInput<T> = FormInput<T, Number>;

// The model has no default, so the form is submitted by a function of its
// own.

fn submit_connection_details(
    form: &mut ConnectionDetailsForm,
) -> Result<ConnectionDetails, ParseError> {
    let ip = form.ip.submit();
    let port = form.port.submit();

    Ok(ConnectionDetails {
        ip: ip?,
        port: port?,
    })
}

impl StructForm<ConnectionDetails> for ConnectionDetailsForm {
    type Field = ConnectionDetailsFormField;

    fn new(model: &ConnectionDetails) -> ConnectionDetailsForm {
        ConnectionDetailsForm {
            ip: FormInput::new(&model.ip),
            port: FormInput::new(&model.port),
        }
    }

    fn set_input(&mut self, field: ConnectionDetailsFormField, value: String) {
        match field {
            ConnectionDetailsFormField::Ip => self.ip.set_input(value),
            ConnectionDetailsFormField::Port => self.port.set_input(value),
        }
    }

    fn submit(&mut self) -> Result<ConnectionDetails, ParseError> {
        submit_connection_details(self)
    }

    fn submit_update(
        &mut self,
        mut model: ConnectionDetails,
    ) -> Result<ConnectionDetails, ParseError> {
        let (ip, port) = both(self.ip.submit(), self.port.submit())?;
        model.ip = ip;
        model.port = port;
        Ok(model)
    }

    fn submit_attempted(&self) -> bool {
        false
    }

    fn is_empty(&self) -> bool {
        self.ip.is_empty() && self.port.is_empty()
    }
}

#[test]
fn if_our_custom_type_is_not_a_number_a_generic_validation_message() {
    let mut form = ConnectionDetailsForm::default();

    form.set_input(ConnectionDetailsFormField::Port, "Eighty".to_string());

    // What is no number at all is reported as a number out of range, with
    // the bounds of a port.
    assert_eq!(
        form.port.submit(),
        Err(ParseError::NumberOutOfRange {
            required_type: "a port".to_string(),
            min: "1".to_string(),
            max: "65535".to_string()
        })
    );

    assert_eq!(
        form.port.validation_error().map(|e| e.to_string()),
        Some("Expected a port between 1 and 65535.".to_string())
    );
}

#[test]
fn if_our_custom_type_is_out_of_range_we_see_our_validation_message() {
    let mut form = ConnectionDetailsForm::default();

    form.set_input(ConnectionDetailsFormField::Port, "0".to_string());

    // A number is narrowed to a port, and the message of a failure there is
    // the message of the error.
    assert_eq!(
        form.port.submit(),
        Err(ParseError::FromStrError(
            "Expected a port between 1 and 65535".to_string()
        ))
    );

    assert_eq!(
        form.port.validation_error().map(|e| e.to_string()),
        Some("Expected a port between 1 and 65535.".to_string())
    );
}

#[test]
fn filling_in_the_form_correctly_submits_successfully() {
    let mut form = ConnectionDetailsForm::default();

    form.set_input(ConnectionDetailsFormField::Ip, "127.0.0.1".to_string());
    form.set_input(ConnectionDetailsFormField::Port, "80".to_string());

    assert_eq!(form.port.submit(), Ok(Port(80)));

    assert_eq!(
        form.submit(),
        Ok(ConnectionDetails {
            ip: IpAddr::new(127, 0, 0, 1),
            port: Port(80)
        })
    );
}

#[test]
fn a_form_over_a_model_without_default_updates_an_existing_model() {
    let existing = ConnectionDetails {
        ip: IpAddr::new(10, 0, 0, 1),
        port: Port(8080),
    };
    let mut form = ConnectionDetailsForm::new(&existing);
    assert_eq!(form.ip.input, "10.0.0.1".to_string());
    assert_eq!(form.port.input, "8080".to_string());
    assert_eq!(form.port.initial_input, "8080".to_string());
    assert_eq!(form.is_empty(), false);

    form.set_input(ConnectionDetailsFormField::Port, " 443 ".to_string());
    assert_eq!(
        form.submit_update(existing),
        Ok(ConnectionDetails {
            ip: IpAddr::new(10, 0, 0, 1),
            port: Port(443)
        })
    );
    // The text that the input was made with stays.
    assert_eq!(form.port.initial_input, "8080".to_string());
}

#[test]
fn a_number_beyond_the_wide_type_is_out_of_range() {
    let mut form = ConnectionDetailsForm::default();
    form.set_input(ConnectionDetailsFormField::Port, "65536".to_string());
    assert_eq!(
        form.port.submit(),
        Err(ParseError::NumberOutOfRange {
            required_type: "a port".to_string(),
            min: "1".to_string(),
            max: "65535".to_string()
        })
    );
    form.set_input(ConnectionDetailsFormField::Port, "65535".to_string());
    assert_eq!(form.port.submit(), Ok(Port(65535)));
    form.set_input(ConnectionDetailsFormField::Port, "".to_string());
    assert_eq!(form.port.submit(), Err(ParseError::Required));
}

#[test]
fn an_error_is_not_shown_before_the_input_is_touched() {
    let mut form = ConnectionDetailsForm::default();
    assert_eq!(form.port.value, Err(ParseError::Required));
    assert_eq!(form.port.show_validation_msg(), false);
    assert_eq!(form.port.validation_error(), None);

    let _ = form.submit();
    assert_eq!(form.port.show_validation_msg(), true);
    assert_eq!(form.port.validation_error(), Some(&ParseError::Required));
    assert_eq!(
        form.port.validation_error().map(|e| e.to_string()),
        Some("This field is required.".to_string())
    );

    form.port.clear();
    assert_eq!(form.port.show_validation_msg(), false);
    assert_eq!(form.port.input, "".to_string());
    assert_eq!(form.port.initial_input, "".to_string());
}

#[test]
fn an_address_that_does_not_read_fails_with_its_message() {
    let mut form = ConnectionDetailsForm::default();
    form.set_input(ConnectionDetailsFormField::Ip, "localhost".to_string());
    assert_eq!(
        form.ip.submit(),
        Err(ParseError::FromStrError(
            "invalid IP address syntax".to_string()
        ))
    );
    assert_eq!(
        form.ip.validation_error().map(|e| e.to_string()),
        Some("invalid IP address syntax.".to_string())
    );
}
