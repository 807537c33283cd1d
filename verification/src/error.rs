//! The library's error type and the text each error shows.

use vstd::prelude::*;
use vstd::string::*;

use crate::text::concat2;

verus! {

/// Errors of the native layer.  Errors that come from the JNI layer or from
/// JSON (de)serialisation carry the text of the underlying error.
#[derive(Debug, Clone, PartialEq, Eq)]
pub enum SidespotError {
    Session(String),
    Player(String),
    Auth(String),
    Jni(String),
    Serde(String),
    NoSession,
    NoPlayer,
    Connect(String),
}

/// The text an error shows.
pub open spec fn error_text(e: SidespotError) -> Seq<char> {
    match e {
        SidespotError::Session(m) => "Session error: "@ + m@,
        SidespotError::Player(m) => "Player error: "@ + m@,
        SidespotError::Auth(m) => "Authentication error: "@ + m@,
        SidespotError::Jni(m) => "JNI error: "@ + m@,
        SidespotError::Serde(m) => "Serialization error: "@ + m@,
        SidespotError::NoSession => "No active session"@,
        SidespotError::NoPlayer => "No active player"@,
        SidespotError::Connect(m) => "Connect error: "@ + m@,
    }
}

impl SidespotError {
    /// The text of the error, as shown to the Kotlin layer.
    pub fn message(&self) -> (r: String)
        ensures
            r@ == error_text(*self),
    {
        match self {
            SidespotError::Session(m) => concat2("Session error: ", m.as_str()),
            SidespotError::Player(m) => concat2("Player error: ", m.as_str()),
            SidespotError::Auth(m) => concat2("Authentication error: ", m.as_str()),
            SidespotError::Jni(m) => concat2("JNI error: ", m.as_str()),
            SidespotError::Serde(m) => concat2("Serialization error: ", m.as_str()),
            SidespotError::NoSession => String::from_str("No active session"),
            SidespotError::NoPlayer => String::from_str("No active player"),
            SidespotError::Connect(m) => concat2("Connect error: ", m.as_str()),
        }
    }
}

/// A player error whose text is `what` followed by `": "` and `detail`.
pub fn player_error(what: &str, detail: &str) -> (e: SidespotError)
    ensures
        e matches SidespotError::Player(m) && m@ == what@ + ": "@ + detail@,
{
    SidespotError::Player(crate::text::concat3(what, ": ", detail))
}

/// A Connect error whose text is `what` followed by `": "` and `detail`.
pub fn connect_error(what: &str, detail: &str) -> (e: SidespotError)
    ensures
        e matches SidespotError::Connect(m) && m@ == what@ + ": "@ + detail@,
{
    SidespotError::Connect(crate::text::concat3(what, ": ", detail))
}

} // verus!
