//! The Spotify session: the download directory, the settings a new session
//! takes from the configuration, and access to the stored session.

use vstd::prelude::*;
use vstd::string::*;

use crate::error::SidespotError;
use crate::player::AppConfig;
use crate::text::concat2;

verus! {

/// Sets the temporary directory for librespot file downloads.
pub fn set_tmp_dir(slot: &mut Option<String>, path: &str)
    ensures
        *final(slot) matches Some(p) && p@ == path@,
{
    *slot = Some(String::from_str(path));
}

/// The temporary directory, if one was set.
pub fn get_tmp_dir(slot: &Option<String>) -> (r: Option<String>)
    ensures
        r == *slot,
{
    match slot {
        Some(p) => Some(p.clone()),
        None => None,
    }
}

/// The session settings that differ from the defaults.
#[derive(Debug, Clone, PartialEq, Eq)]
pub struct SessionOverrides {
    pub tmp_dir: Option<String>,
    pub autoplay: Option<bool>,
}

/// The overrides of a new session: the download directory when one is set,
/// and the configured autoplay choice when there is one.
pub fn session_overrides(tmp_dir: &Option<String>, config: &AppConfig) -> (o: SessionOverrides)
    ensures
        o.tmp_dir == *tmp_dir,
        o.autoplay == config.autoplay,
{
    SessionOverrides { tmp_dir: get_tmp_dir(tmp_dir), autoplay: config.autoplay }
}

/// The stored session, or `NoSession` when none is stored.
pub fn require_session<T>(slot: Option<T>) -> (r: Result<T, SidespotError>)
    ensures
        slot matches Some(s) ==> r == Ok::<T, SidespotError>(s),
        slot is None ==> r == Err::<T, SidespotError>(SidespotError::NoSession),
{
    match slot {
        Some(s) => Ok(s),
        None => Err(SidespotError::NoSession),
    }
}

/// The error for a session that could not connect, with the session's text.
pub fn connect_failed(detail: &str) -> (e: SidespotError)
    ensures
        e matches SidespotError::Session(m) && m@ == "connect failed: "@ + detail@,
{
    SidespotError::Session(concat2("connect failed: ", detail))
}

/// What a reading of the download directory gives back after it was set.
pub proof fn law_tmp_dir_read_back(slot: Option<String>, path: Seq<char>, read: Option<String>)
    requires
        slot matches Some(p) && p@ == path,
        read == slot,
    ensures
        read matches Some(r) && r@ == path,
{
}

} // verus!
