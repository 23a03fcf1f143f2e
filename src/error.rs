use vstd::prelude::*;

verus! {

/// Every way an operation of this library can fail.
#[derive(Debug, Clone, PartialEq, Eq)]
pub enum Error {
    /// The API key is not a valid header value; no request was made.
    InvalidCredential,
    /// The request could not be made or its reply could not be read or decoded.
    TransportFailure { description: String },
    /// The API answered with an error body.
    RemoteRejection { code: String, message: String },
    /// The task was still running when the overall polling deadline passed.
    PollTimeout,
}

/// The human-readable account of an error: its kind, then what it carries.
pub open spec fn spec_error_message(e: Error) -> Seq<char> {
    match e {
        Error::InvalidCredential => "The API key is not a valid header value"@,
        Error::TransportFailure { description } => "The request failed: "@ + description@,
        Error::RemoteRejection { code, message } => "Open Cloud rejected the request ("@ + code@
            + "):\n"@ + message@,
        Error::PollTimeout => "The provided script took too long to finish!"@,
    }
}

impl Error {
    pub fn message(&self) -> (r: String)
        ensures
            r@ == spec_error_message(*self),
    {
        match self {
            Error::InvalidCredential => String::from_str("The API key is not a valid header value"),
            Error::TransportFailure { description } => {
                let mut text = String::from_str("The request failed: ");
                text.append(description.as_str());
                text
            },
            Error::RemoteRejection { code, message } => {
                let mut text = String::from_str("Open Cloud rejected the request (");
                text.append(code.as_str());
                text.append("):\n");
                text.append(message.as_str());
                text
            },
            Error::PollTimeout => String::from_str("The provided script took too long to finish!"),
        }
    }

    /// An error that carries only a description of its cause.
    pub fn new(description: &str) -> (r: Error)
        ensures
            r is TransportFailure,
            r->description@ == description@,
    {
        Error::TransportFailure { description: description.to_owned() }
    }
}

} // verus!
