//! The error type shared by every module of the panel.
use vstd::prelude::*;

verus! {

/// What kind of failure a [`SenkaError`] reports.
#[derive(Clone, Copy, Debug, PartialEq, Eq, Structural)]
pub enum SenkaErrorCode {
    Unknown,
    Unexpected,
    NoImplementation,
    Format,
    OutOfRange,
    Inner,
    Arguement,
}

/// The name under which an error code is displayed.
pub open spec fn code_name(code: SenkaErrorCode) -> Seq<char> {
    match code {
        SenkaErrorCode::Unknown => "Unknown"@,
        SenkaErrorCode::Unexpected => "Unexpected"@,
        SenkaErrorCode::NoImplementation => "NoImplementation"@,
        SenkaErrorCode::Format => "Format"@,
        SenkaErrorCode::OutOfRange => "OutOfRange"@,
        SenkaErrorCode::Inner => "Inner"@,
        SenkaErrorCode::Arguement => "Arguement"@,
    }
}

impl SenkaErrorCode {
    /// The display name of the code, e.g. `"NoImplementation"`.
    pub fn name(&self) -> (res: String)
        ensures
            res@ == code_name(*self),
    {
        match self {
            SenkaErrorCode::Unknown => String::from_str("Unknown"),
            SenkaErrorCode::Unexpected => String::from_str("Unexpected"),
            SenkaErrorCode::NoImplementation => String::from_str("NoImplementation"),
            SenkaErrorCode::Format => String::from_str("Format"),
            SenkaErrorCode::OutOfRange => String::from_str("OutOfRange"),
            SenkaErrorCode::Inner => String::from_str("Inner"),
            SenkaErrorCode::Arguement => String::from_str("Arguement"),
        }
    }
}

/// An error: a code and a human-readable message.
#[derive(Debug)]
pub struct SenkaError {
    pub senka_error_code: SenkaErrorCode,
    pub error_message: String,
}

/// How an error is displayed: `[<code>]<message>`.
pub open spec fn error_display(code: SenkaErrorCode, message: Seq<char>) -> Seq<char> {
    "["@ + code_name(code) + "]"@ + message
}

impl SenkaError {
    /// An error with the given code and message.
    pub fn new(senka_error_code: SenkaErrorCode, error_message: String) -> (res: Self)
        ensures
            res.senka_error_code == senka_error_code,
            res.error_message@ == error_message@,
    {
        SenkaError { senka_error_code, error_message }
    }

    /// An internal error (`Inner`) with the given message.
    pub fn from_message(error_message: String) -> (res: Self)
        ensures
            res.senka_error_code == SenkaErrorCode::Inner,
            res.error_message@ == error_message@,
    {
        SenkaError { senka_error_code: SenkaErrorCode::Inner, error_message }
    }

    /// An error whose message is the name of its code.
    pub fn from_err(senka_error_code: SenkaErrorCode) -> (res: Self)
        ensures
            res.senka_error_code == senka_error_code,
            res.error_message@ == code_name(senka_error_code),
    {
        let error_message = senka_error_code.name();
        SenkaError { error_message, senka_error_code }
    }

    /// The "no particular error" value: code `Unknown`, message `"Unknown"`.
    pub fn null() -> (res: Self)
        ensures
            res.senka_error_code == SenkaErrorCode::Unknown,
            res.error_message@ == "Unknown"@,
    {
        let error = SenkaErrorCode::Unknown;
        SenkaError { error_message: error.name(), senka_error_code: error }
    }

    /// The displayed form of the error, `[<code>]<message>`.
    pub fn to_display_string(&self) -> (res: String)
        ensures
            res@ == error_display(self.senka_error_code, self.error_message@),
    {
        let mut res = String::from_str("[");
        let name = self.senka_error_code.name();
        res.append(name.as_str());
        res.append("]");
        res.append(self.error_message.as_str());
        res
    }
}

} // verus!
