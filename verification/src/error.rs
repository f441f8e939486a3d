use vstd::prelude::*;

verus! {

/// The I/O error of the standard library, carried through opaquely.
#[verifier::external_type_specification]
#[verifier::external_body]
pub struct ExIoError(std::io::Error);

/// Errors of the VT library.
#[derive(Debug)]
pub enum Error {
    Io(std::io::Error),
    NotConsole,
    VtInUse,
    SystemdSocket,
    FontParse(&'static str),
    KeymapParse(&'static str),
    ConfigParse(&'static str),
    InvalidInput(&'static str),
}

pub type Result<T> = core::result::Result<T, Error>;

/// The human-readable description of an error that carries no I/O error.
pub open spec fn spec_message(e: Error) -> Seq<char> {
    match e {
        Error::Io(_) => "I/O error: "@,
        Error::NotConsole => "not a console device"@,
        Error::VtInUse => "no free virtual terminal available"@,
        Error::SystemdSocket => "systemd socket activation error"@,
        Error::FontParse(m) => "font parse error: "@ + m@,
        Error::KeymapParse(m) => "keymap error: "@ + m@,
        Error::ConfigParse(m) => "config error: "@ + m@,
        Error::InvalidInput(m) => "invalid input: "@ + m@,
    }
}

impl Error {
    /// The human-readable description of the error, as the tools print it.
    /// An I/O error is described by `"I/O error: "` followed by the text
    /// that the I/O error displays.
    pub fn message(&self) -> (m: String)
        ensures
            !(self is Io) ==> m@ == spec_message(*self),
            *self matches Error::Io(x) ==> exists|t: String|
                #[trigger] vstd::string::to_string_from_display_ensures::<std::io::Error>(&x, t)
                    && m@ == "I/O error: "@ + t@,
    {
        match self {
            Error::Io(e) => {
                let text = e.to_string();
                String::from_str("I/O error: ").concat(text.as_str())
            },
            Error::NotConsole => String::from_str("not a console device"),
            Error::VtInUse => String::from_str("no free virtual terminal available"),
            Error::SystemdSocket => String::from_str("systemd socket activation error"),
            Error::FontParse(m) => String::from_str("font parse error: ").concat(m),
            Error::KeymapParse(m) => String::from_str("keymap error: ").concat(m),
            Error::ConfigParse(m) => String::from_str("config error: ").concat(m),
            Error::InvalidInput(m) => String::from_str("invalid input: ").concat(m),
        }
    }
}

impl Error {
    /// The I/O error that caused this error, if it is one.
    pub fn io_source(&self) -> (r: Option<&std::io::Error>)
        ensures
            *self matches Error::Io(x) ==> r == Some(&x),
            !(self is Io) ==> r is None,
    {
        match self {
            Error::Io(e) => Some(e),
            _ => None,
        }
    }
}

impl From<std::io::Error> for Error {
    fn from(e: std::io::Error) -> (r: Self) {
        Error::Io(e)
    }
}

impl vstd::std_specs::convert::FromSpecImpl<std::io::Error> for Error {
    open spec fn obeys_from_spec() -> bool {
        true
    }

    open spec fn from_spec(e: std::io::Error) -> Self {
        Error::Io(e)
    }
}

} // verus!
