use vstd::prelude::*;
use vstd::string::StringExecFns;

verus! {

/// The failures of the library, each with a cause that a person can read.
#[derive(Debug, PartialEq, Eq)]
pub enum Error {
    /// A transport-level failure of the underlying connection.
    Io(String),
    /// A connection, statement-preparation or query failure.
    Db(String),
    /// Missing or invalid configuration.
    Configuration(String),
    /// A failure of the serving layer.
    Server(String),
    /// Anything else.
    Unspecified(String),
}

/// The label that introduces each kind of error in its description.
pub open spec fn error_label(e: Error) -> Seq<char> {
    match e {
        Error::Io(_) => "IO error: "@,
        Error::Db(_) => "Database error: "@,
        Error::Configuration(_) => "Config error: "@,
        Error::Unspecified(_) => "Unspecified error: "@,
        Error::Server(_) => "Server error: "@,
    }
}

/// The cause carried by an error.
pub open spec fn error_cause(e: Error) -> Seq<char> {
    match e {
        Error::Io(c) => c@,
        Error::Db(c) => c@,
        Error::Configuration(c) => c@,
        Error::Unspecified(c) => c@,
        Error::Server(c) => c@,
    }
}

impl Error {
    /// The error's description: its label followed by its cause.
    pub fn describe(&self) -> (r: String)
        ensures
            r@ == error_label(*self) + error_cause(*self),
    {
        match self {
            Error::Io(c) => String::from_str("IO error: ").concat(c.as_str()),
            Error::Db(c) => String::from_str("Database error: ").concat(c.as_str()),
            Error::Configuration(c) => String::from_str("Config error: ").concat(c.as_str()),
            Error::Unspecified(c) => String::from_str("Unspecified error: ").concat(c.as_str()),
            Error::Server(c) => String::from_str("Server error: ").concat(c.as_str()),
        }
    }

    /// The cause carried by the error.
    pub fn cause(&self) -> (r: &String)
        ensures
            r@ == error_cause(*self),
    {
        match self {
            Error::Io(c) => c,
            Error::Db(c) => c,
            Error::Configuration(c) => c,
            Error::Unspecified(c) => c,
            Error::Server(c) => c,
        }
    }
}

/// The message with which the program stops on an error it cannot handle.
pub fn handle_error(err: &Error) -> (r: String)
    ensures
        r@ == "Caught error: "@ + error_label(*err) + error_cause(*err),
{
    let mut out = String::from_str("Caught error: ");
    out.append(err.describe().as_str());
    assert(out@ =~= "Caught error: "@ + error_label(*err) + error_cause(*err));
    out
}

} // verus!
