//! Errors of the library.
use vstd::prelude::*;

use crate::types::bytes::string_push_str;
use crate::types::id::{tinyid_text, Id};
use crate::types::text::to_owned_string;

verus! {

/// Errors of the notes database.
#[derive(Clone, Debug)]
pub enum DatabaseError {
    /// No data file at the given path.
    DataFileNotFound(String),
    /// No note has the given identifier.
    IdNotFound(Id),
    /// An update policy refused the change.
    PolicyFailure(String),
    /// The identifier is in use already.
    DuplicateId(Id),
    /// The database's notes and identifiers disagree.
    InvalidState(String),
    /// A note has an invalid identifier.
    InvalidId,
}

/// Errors of the library. Errors that come from outside (the environment, files, the
/// serialisation formats, the clock, the user interface) carry their message.
#[derive(Clone, Debug)]
pub enum Error {
    EnvVar(String),
    Io(String),
    Json(String),
    SerDe(String),
    Database(DatabaseError),
    Unknown(String),
    NotImplemented(String),
    TinyId(String),
    Interface(String),
    Time(String),
}

impl Error {
    pub fn database(err: DatabaseError) -> (e: Error)
        ensures
            e == Error::Database(err),
    {
        Error::Database(err)
    }

    /// An error reading the environment, with its message.
    pub fn env_var(msg: &str) -> (e: Error)
        ensures
            e matches Error::EnvVar(s) && s@ == msg@,
    {
        Error::EnvVar(msg.to_owned())
    }

    /// An input or output error, with its message.
    pub fn io(msg: &str) -> (e: Error)
        ensures
            e matches Error::Io(s) && s@ == msg@,
    {
        Error::Io(msg.to_owned())
    }

    /// A JSON error, with its message.
    pub fn json(msg: &str) -> (e: Error)
        ensures
            e matches Error::Json(s) && s@ == msg@,
    {
        Error::Json(msg.to_owned())
    }

    pub fn unknown(msg: &str) -> (e: Error)
        ensures
            e matches Error::Unknown(s) && s@ == msg@,
    {
        Error::Unknown(msg.to_owned())
    }

    pub fn not_implemented(msg: &str) -> (e: Error)
        ensures
            e matches Error::NotImplemented(s) && s@ == msg@,
    {
        Error::NotImplemented(msg.to_owned())
    }

    pub fn serde(msg: &str) -> (e: Error)
        ensures
            e matches Error::SerDe(s) && s@ == msg@,
    {
        Error::SerDe(msg.to_owned())
    }

    pub fn ui(msg: &str) -> (e: Error)
        ensures
            e matches Error::Interface(s) && s@ == msg@,
    {
        Error::Interface(msg.to_owned())
    }
}

/// The message of a database error.
pub open spec fn database_error_message(e: DatabaseError) -> Seq<char> {
    match e {
        DatabaseError::IdNotFound(id) => "Note with id "@ + tinyid_text(id@) + " not found"@,
        DatabaseError::PolicyFailure(s) => "Policy failure: "@ + s@,
        DatabaseError::DuplicateId(id) => "Duplicate ID for Database: "@ + tinyid_text(id@),
        DatabaseError::InvalidId => "Invalid ID found in Database"@,
        DatabaseError::DataFileNotFound(p) => "Data file not found at path '"@ + p@ + "'"@,
        DatabaseError::InvalidState(s) => "Invalid Database state: "@ + s@,
    }
}

/// The message of an error: that of the outside error it carries, or a prefix naming
/// the kind of error before the message.
pub open spec fn error_message(e: Error) -> Seq<char> {
    match e {
        Error::EnvVar(s) => s@,
        Error::Io(s) => s@,
        Error::Json(s) => s@,
        Error::TinyId(s) => s@,
        Error::Time(s) => s@,
        Error::Database(d) => database_error_message(d),
        Error::Unknown(s) => "Unknown error: "@ + s@,
        Error::SerDe(s) => "De/Serialization error occurred: "@ + s@,
        Error::NotImplemented(s) => "Not implemented: "@ + s@,
        Error::Interface(s) => "User interface error: "@ + s@,
    }
}

/// `prefix` followed by `rest`.
pub(crate) fn prefixed(prefix: &str, rest: &str) -> (s: String)
    ensures
        s@ == prefix@ + rest@,
{
    let mut s = to_owned_string(prefix);
    string_push_str(&mut s, rest);
    s
}

/// `prefix`, then `middle`, then `suffix`.
pub(crate) fn surrounded(prefix: &str, middle: &str, suffix: &str) -> (s: String)
    ensures
        s@ == prefix@ + middle@ + suffix@,
{
    let mut s = prefixed(prefix, middle);
    string_push_str(&mut s, suffix);
    s
}

impl DatabaseError {
    /// The message of this error.
    pub fn message(&self) -> (s: String)
        ensures
            s@ == database_error_message(*self),
    {
        match self {
            DatabaseError::IdNotFound(id) => {
                let text = id.to_text();
                surrounded("Note with id ", text.as_str(), " not found")
            },
            DatabaseError::PolicyFailure(s) => prefixed("Policy failure: ", s.as_str()),
            DatabaseError::DuplicateId(id) => {
                let text = id.to_text();
                prefixed("Duplicate ID for Database: ", text.as_str())
            },
            DatabaseError::InvalidId => to_owned_string("Invalid ID found in Database"),
            DatabaseError::DataFileNotFound(p) => surrounded(
                "Data file not found at path '",
                p.as_str(),
                "'",
            ),
            DatabaseError::InvalidState(s) => prefixed("Invalid Database state: ", s.as_str()),
        }
    }
}

impl Error {
    /// The message of this error.
    pub fn message(&self) -> (s: String)
        ensures
            s@ == error_message(*self),
    {
        match self {
            Error::EnvVar(s) => s.clone(),
            Error::Io(s) => s.clone(),
            Error::Json(s) => s.clone(),
            Error::TinyId(s) => s.clone(),
            Error::Time(s) => s.clone(),
            Error::Database(d) => d.message(),
            Error::Unknown(s) => prefixed("Unknown error: ", s.as_str()),
            Error::SerDe(s) => prefixed("De/Serialization error occurred: ", s.as_str()),
            Error::NotImplemented(s) => prefixed("Not implemented: ", s.as_str()),
            Error::Interface(s) => prefixed("User interface error: ", s.as_str()),
        }
    }
}

} // verus!
