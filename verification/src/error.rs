//! The failures a call can end in.

use vstd::prelude::*;
use vstd::string::StringExecFns;

verus! {

#[verifier::external_type_specification]
#[verifier::external_body]
pub struct ExEngineError(rusqlite::Error);

/// Why a call failed.
#[derive(Debug)]
pub enum RusqliteError {
    /// The database engine reported a failure.
    RusqliteError(rusqlite::Error),
    /// A channel between a handle and its actor is closed or out of step.
    CommunicationError(String),
    /// A filesystem path could not be used.
    IoError(String),
    /// A handle was presented to an owner it does not belong to.
    ConsistencyError(String),
    /// The request itself is not allowed.
    UserError(String),
}

/// `Display` of `rusqlite::Error`: the engine's own description of the failure.
#[verifier::external_body]
fn engine_error_text(error: &rusqlite::Error) -> (text: String) {
    format!("{}", error)
}

/// The label that precedes the message of each kind of failure.
pub open spec fn label_of(error: RusqliteError) -> Seq<char> {
    match error {
        RusqliteError::RusqliteError(_) => "rusqlite: "@,
        RusqliteError::IoError(_) => "io: "@,
        _ => "internal: "@,
    }
}

/// A label followed by a message.
pub fn labelled(label: &str, message: &str) -> (text: String)
    ensures
        text@ == label@ + message@,
{
    let mut text = label.to_owned();
    text.append(message);
    text
}

impl RusqliteError {
    /// Whether this is a failure reported by the database engine.
    pub open spec fn is_engine(self) -> bool {
        self is RusqliteError
    }

    /// The message carried by a failure that the engine did not report.
    pub open spec fn message(self) -> Seq<char> {
        match self {
            RusqliteError::RusqliteError(_) => Seq::empty(),
            RusqliteError::CommunicationError(m) => m@,
            RusqliteError::IoError(m) => m@,
            RusqliteError::ConsistencyError(m) => m@,
            RusqliteError::UserError(m) => m@,
        }
    }

    /// The text shown to a caller: the label of the kind, then the message.
    /// For an engine failure the message is the engine's own.
    pub fn describe(&self) -> (text: String)
        ensures
            text@.len() >= label_of(*self).len(),
            text@.subrange(0, label_of(*self).len() as int) == label_of(*self),
            !self.is_engine() ==> text@ == label_of(*self) + self.message(),
    {
        match self {
            RusqliteError::RusqliteError(e) => {
                let inner = engine_error_text(e);
                let text = labelled("rusqlite: ", inner.as_str());
                assert(text@.subrange(0, "rusqlite: "@.len() as int) =~= "rusqlite: "@);
                text
            },
            RusqliteError::CommunicationError(m) => {
                let text = labelled("internal: ", m.as_str());
                assert(text@.subrange(0, "internal: "@.len() as int) =~= "internal: "@);
                text
            },
            RusqliteError::ConsistencyError(m) => {
                let text = labelled("internal: ", m.as_str());
                assert(text@.subrange(0, "internal: "@.len() as int) =~= "internal: "@);
                text
            },
            RusqliteError::UserError(m) => {
                let text = labelled("internal: ", m.as_str());
                assert(text@.subrange(0, "internal: "@.len() as int) =~= "internal: "@);
                text
            },
            RusqliteError::IoError(m) => {
                let text = labelled("io: ", m.as_str());
                assert(text@.subrange(0, "io: "@.len() as int) =~= "io: "@);
                text
            },
        }
    }
}

/// A refusal of a request that is not allowed, with its reason.
pub fn user_error(reason: &str) -> (error: RusqliteError)
    ensures
        error matches RusqliteError::UserError(m) && m@ == reason@,
{
    RusqliteError::UserError(reason.to_owned())
}

/// The error is a refusal with this reason.
pub open spec fn refused_with(error: RusqliteError, reason: Seq<char>) -> bool {
    error matches RusqliteError::UserError(m) && m@ == reason
}

impl From<rusqlite::Error> for RusqliteError {
    /// An engine failure, as the library reports it.
    fn from(error: rusqlite::Error) -> (failure: RusqliteError) {
        RusqliteError::RusqliteError(error)
    }
}

impl vstd::std_specs::convert::FromSpecImpl<rusqlite::Error> for RusqliteError {
    open spec fn obeys_from_spec() -> bool {
        true
    }

    open spec fn from_spec(error: rusqlite::Error) -> RusqliteError {
        RusqliteError::RusqliteError(error)
    }
}

/// The engine failure that stands for a failure which the engine did not
/// report: `Error::SqliteFailure` with the code for an unknown error.
#[verifier::external_body]
fn unknown_failure() -> (failure: rusqlite::Error) {
    rusqlite::Error::SqliteFailure(
        rusqlite::ffi::Error { code: rusqlite::ffi::ErrorCode::Unknown, extended_code: 0xcafebab },
        None,
    )
}

/// A failure in the form of an engine failure: the engine's own where the
/// engine reported it.
pub fn into_engine_error(error: RusqliteError) -> (failure: rusqlite::Error)
    ensures
        error matches RusqliteError::RusqliteError(e) ==> failure == e,
{
    match error {
        RusqliteError::RusqliteError(e) => e,
        _ => unknown_failure(),
    }
}

} // verus!
