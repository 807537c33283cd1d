//! Decisions of the JNI bridge: where a transport request goes, and what text
//! the Kotlin layer receives for a result.

use vstd::prelude::*;
use vstd::string::*;

use crate::connect::SpircCommand;
use crate::error::{error_text, SidespotError};
use crate::text::concat2;

verus! {

/// A transport request from the Kotlin layer, with the integers as Java
/// passes them.
#[derive(Debug, Clone, Copy, PartialEq, Eq, Structural)]
pub enum TransportRequest {
    Play,
    Pause,
    Seek(i32),
    Stop,
    Next,
    Prev,
    SetVolume(i32),
}

/// A command for the local player.
#[derive(Debug, Clone, Copy, PartialEq, Eq, Structural)]
pub enum LocalCommand {
    Play,
    Pause,
    Seek(u32),
    Stop,
    SetVolume(u16),
}

/// Where a transport request goes.
#[derive(Debug, Clone, PartialEq, Eq)]
pub enum TransportRoute {
    Connect(SpircCommand),
    Local(LocalCommand),
    Ignore,
}

/// The route of a request: through the Connect session while Connect mode
/// is active (where stop becomes pause, having no stop of its own), to the
/// local player otherwise, where next and previous have no effect.
pub open spec fn route_of(connect_active: bool, req: TransportRequest) -> TransportRoute {
    if connect_active {
        match req {
            TransportRequest::Play => TransportRoute::Connect(SpircCommand::Play),
            TransportRequest::Pause => TransportRoute::Connect(SpircCommand::Pause),
            TransportRequest::Seek(p) => TransportRoute::Connect(SpircCommand::SetPosition(p as u32)),
            TransportRequest::Stop => TransportRoute::Connect(SpircCommand::Pause),
            TransportRequest::Next => TransportRoute::Connect(SpircCommand::Next),
            TransportRequest::Prev => TransportRoute::Connect(SpircCommand::Prev),
            TransportRequest::SetVolume(v) => TransportRoute::Connect(SpircCommand::SetVolume(v as u16)),
        }
    } else {
        match req {
            TransportRequest::Play => TransportRoute::Local(LocalCommand::Play),
            TransportRequest::Pause => TransportRoute::Local(LocalCommand::Pause),
            TransportRequest::Seek(p) => TransportRoute::Local(LocalCommand::Seek(p as u32)),
            TransportRequest::Stop => TransportRoute::Local(LocalCommand::Stop),
            TransportRequest::Next => TransportRoute::Ignore,
            TransportRequest::Prev => TransportRoute::Ignore,
            TransportRequest::SetVolume(v) => TransportRoute::Local(LocalCommand::SetVolume(v as u16)),
        }
    }
}

/// Routes a transport request.
pub fn route_transport(connect_active: bool, req: TransportRequest) -> (r: TransportRoute)
    ensures
        r == route_of(connect_active, req),
{
    if connect_active {
        match req {
            TransportRequest::Play => TransportRoute::Connect(SpircCommand::Play),
            TransportRequest::Pause => TransportRoute::Connect(SpircCommand::Pause),
            TransportRequest::Seek(p) => TransportRoute::Connect(SpircCommand::SetPosition(p as u32)),
            TransportRequest::Stop => TransportRoute::Connect(SpircCommand::Pause),
            TransportRequest::Next => TransportRoute::Connect(SpircCommand::Next),
            TransportRequest::Prev => TransportRoute::Connect(SpircCommand::Prev),
            TransportRequest::SetVolume(v) => TransportRoute::Connect(
                SpircCommand::SetVolume(v as u16),
            ),
        }
    } else {
        match req {
            TransportRequest::Play => TransportRoute::Local(LocalCommand::Play),
            TransportRequest::Pause => TransportRoute::Local(LocalCommand::Pause),
            TransportRequest::Seek(p) => TransportRoute::Local(LocalCommand::Seek(p as u32)),
            TransportRequest::Stop => TransportRoute::Local(LocalCommand::Stop),
            TransportRequest::Next => TransportRoute::Ignore,
            TransportRequest::Prev => TransportRoute::Ignore,
            TransportRequest::SetVolume(v) => TransportRoute::Local(
                LocalCommand::SetVolume(v as u16),
            ),
        }
    }
}

/// A track index as Java passes it, read as an unsigned index.
pub fn track_index_from_java(index: i32) -> (r: u32)
    ensures
        r == index as u32,
{
    index as u32
}

/// The text returned for a command: none on success, the error's text on
/// failure.
pub fn status_text(result: &Result<(), SidespotError>) -> (r: Option<String>)
    ensures
        result is Ok ==> r is None,
        result matches Err(e) ==> (r matches Some(t) && t@ == error_text(*e)),
{
    match result {
        Ok(()) => None,
        Err(e) => Some(e.message()),
    }
}

/// The JSON object returned for a failed metadata request.
pub fn error_json(e: &SidespotError) -> (r: String)
    ensures
        r@ == "{\"error\":\""@ + error_text(*e) + "\"}"@,
{
    let m = e.message();
    let mut out = String::new();
    out.append("{\"error\":\"");
    out.append(m.as_str());
    out.append("\"}");
    assert(out@ =~= "{\"error\":\""@ + error_text(*e) + "\"}"@);
    out
}

/// The text returned for a track list that is not valid JSON.
pub fn invalid_tracks_json(detail: &str) -> (r: String)
    ensures
        r@ == "invalid tracks JSON: "@ + detail@,
{
    concat2("invalid tracks JSON: ", detail)
}

/// While Connect mode is active every request reaches the Connect session;
/// otherwise only next and previous are dropped.
pub proof fn law_routing(req: TransportRequest)
    ensures
        route_of(true, req) is Connect,
        route_of(false, req) is Ignore <==> (req is Next || req is Prev),
        route_of(true, TransportRequest::Stop) == TransportRoute::Connect(SpircCommand::Pause),
{
}

/// While Connect mode runs, each transport request reaches the session as
/// its own command: play as play, pause as pause, a seek as a move to the
/// same position, next as next, previous as previous, a volume as the same
/// volume; only stop becomes pause.  Distinct requests therefore give
/// distinct commands, stop and pause being the one pair that meets.
pub proof fn law_connect_forwards_each_request(a: TransportRequest, b: TransportRequest)
    ensures
        route_of(true, TransportRequest::Play) == TransportRoute::Connect(SpircCommand::Play),
        route_of(true, TransportRequest::Pause) == TransportRoute::Connect(SpircCommand::Pause),
        route_of(true, TransportRequest::Stop) == TransportRoute::Connect(SpircCommand::Pause),
        route_of(true, TransportRequest::Next) == TransportRoute::Connect(SpircCommand::Next),
        route_of(true, TransportRequest::Prev) == TransportRoute::Connect(SpircCommand::Prev),
        forall|p: i32|
            #[trigger] route_of(true, TransportRequest::Seek(p)) == TransportRoute::Connect(
                SpircCommand::SetPosition(p as u32),
            ),
        forall|v: i32|
            #[trigger] route_of(true, TransportRequest::SetVolume(v)) == TransportRoute::Connect(
                SpircCommand::SetVolume(v as u16),
            ),
        a != b && !(a is Stop && b is Pause) && !(a is Pause && b is Stop) && !(a matches TransportRequest::Seek(p) && b matches TransportRequest::Seek(q) && p as u32 == q as u32)
            && !(a matches TransportRequest::SetVolume(v) && b matches TransportRequest::SetVolume(w)
            && v as u16 == w as u16) ==> route_of(true, a) != route_of(true, b),
{
}

/// The same action, told to the Connect session and to the local player.
pub open spec fn same_action(c: SpircCommand, l: LocalCommand) -> bool {
    match (c, l) {
        (SpircCommand::Play, LocalCommand::Play) => true,
        (SpircCommand::Pause, LocalCommand::Pause) => true,
        (SpircCommand::SetPosition(p), LocalCommand::Seek(q)) => p == q,
        (SpircCommand::SetVolume(v), LocalCommand::SetVolume(w)) => v == w,
        _ => false,
    }
}

/// Play, pause, seek and volume requests mean the same action whether they
/// go to the Connect session or to the local player; stop pauses the
/// session but stops the local player, and next and previous reach only the
/// session.
pub proof fn law_connect_and_local_agree(req: TransportRequest)
    ensures
        !(req is Stop || req is Next || req is Prev) ==> (route_of(true, req) matches TransportRoute::Connect(c)
            && route_of(false, req) matches TransportRoute::Local(l) && same_action(c, l)),
        req is Stop ==> route_of(true, req) == TransportRoute::Connect(SpircCommand::Pause)
            && route_of(false, req) == TransportRoute::Local(LocalCommand::Stop),
        (req is Next || req is Prev) ==> route_of(false, req) == TransportRoute::Ignore,
{
}

} // verus!
