//! Spotify Connect: the Connect session of this device, and the commands it
//! forwards to it.

use vstd::prelude::*;
use vstd::string::*;

use librespot_connect::{LoadRequest, LoadRequestOptions, PlayingTrack};

use crate::core_api::core_error_text;
use crate::error::SidespotError;
use crate::text::{has_prefix, has_suffix, lemma_prefixed_suffix};

verus! {

#[verifier::external_type_specification]
#[verifier::external_body]
pub struct ExSpirc(librespot_connect::Spirc);

#[verifier::external_type_specification]
#[verifier::external_body]
pub struct ExLoadRequest(librespot_connect::LoadRequest);

/// What a load request asks for, as plain values: a context URI or a list of
/// track URIs, whether to start playing, and the index of the track to
/// start at.
pub enum LoadView {
    Context { uri: Seq<char>, start_playing: bool, index: u32 },
    Tracks { uris: Seq<Seq<char>>, start_playing: bool, index: u32 },
}

/// A command handed to the Connect session.
pub enum SentCommand {
    Play,
    Pause,
    Next,
    Prev,
    SetPosition(u32),
    SetVolume(u16),
    Shuffle(bool),
    Repeat(bool),
    Activate,
    Load(LoadView),
    Shutdown,
}

/// A load request with what it asks for.
struct ConnectLoad {
    request: librespot_connect::LoadRequest,
    view: Ghost<LoadView>,
}

/// The Connect session, with a record of the commands handed to it (after
/// those handed to earlier sessions), in order.
struct ConnectSession {
    spirc: librespot_connect::Spirc,
    sent: Ghost<Seq<(SentCommand, bool)>>,
}

/// Calls `librespot_connect::Spirc::shutdown`, which queues the shutdown
/// command for the session task; records the command.  Whether it is
/// queued depends on that task still running, which the result reports.
#[verifier::external_body]
fn spirc_shutdown(s: &mut ConnectSession) -> (r: Result<(), librespot_core::Error>)
    ensures
        final(s).sent@ == old(s).sent@.push((SentCommand::Shutdown, r is Ok)),
{
    s.spirc.shutdown()
}

/// Calls `librespot_connect::Spirc::play`; records the command.  Whether it
/// is queued depends on the session task, which the result reports.
#[verifier::external_body]
fn spirc_play(s: &mut ConnectSession) -> (r: Result<(), librespot_core::Error>)
    ensures
        final(s).sent@ == old(s).sent@.push((SentCommand::Play, r is Ok)),
{
    s.spirc.play()
}

/// Calls `librespot_connect::Spirc::pause`; records the command.  Whether
/// it is queued depends on the session task, which the result reports.
#[verifier::external_body]
fn spirc_pause(s: &mut ConnectSession) -> (r: Result<(), librespot_core::Error>)
    ensures
        final(s).sent@ == old(s).sent@.push((SentCommand::Pause, r is Ok)),
{
    s.spirc.pause()
}

/// Calls `librespot_connect::Spirc::next`; records the command.  Whether it
/// is queued depends on the session task, which the result reports.
#[verifier::external_body]
fn spirc_next(s: &mut ConnectSession) -> (r: Result<(), librespot_core::Error>)
    ensures
        final(s).sent@ == old(s).sent@.push((SentCommand::Next, r is Ok)),
{
    s.spirc.next()
}

/// Calls `librespot_connect::Spirc::prev`; records the command.  Whether it
/// is queued depends on the session task, which the result reports.
#[verifier::external_body]
fn spirc_prev(s: &mut ConnectSession) -> (r: Result<(), librespot_core::Error>)
    ensures
        final(s).sent@ == old(s).sent@.push((SentCommand::Prev, r is Ok)),
{
    s.spirc.prev()
}

/// Calls `librespot_connect::Spirc::set_position_ms` with `position_ms`;
/// records the command with its position.
#[verifier::external_body]
fn spirc_set_position_ms(s: &mut ConnectSession, position_ms: u32) -> (r: Result<
    (),
    librespot_core::Error,
>)
    ensures
        final(s).sent@ == old(s).sent@.push((SentCommand::SetPosition(position_ms), r is Ok)),
{
    s.spirc.set_position_ms(position_ms)
}

/// Calls `librespot_connect::Spirc::set_volume` with `volume`; records the
/// command with its volume.
#[verifier::external_body]
fn spirc_set_volume(s: &mut ConnectSession, volume: u16) -> (r: Result<
    (),
    librespot_core::Error,
>)
    ensures
        final(s).sent@ == old(s).sent@.push((SentCommand::SetVolume(volume), r is Ok)),
{
    s.spirc.set_volume(volume)
}

/// Calls `librespot_connect::Spirc::shuffle` with `enabled`; records the
/// command with its flag.
#[verifier::external_body]
fn spirc_shuffle(s: &mut ConnectSession, enabled: bool) -> (r: Result<
    (),
    librespot_core::Error,
>)
    ensures
        final(s).sent@ == old(s).sent@.push((SentCommand::Shuffle(enabled), r is Ok)),
{
    s.spirc.shuffle(enabled)
}

/// Calls `librespot_connect::Spirc::repeat` with `enabled`; records the
/// command with its flag.
#[verifier::external_body]
fn spirc_repeat(s: &mut ConnectSession, enabled: bool) -> (r: Result<
    (),
    librespot_core::Error,
>)
    ensures
        final(s).sent@ == old(s).sent@.push((SentCommand::Repeat(enabled), r is Ok)),
{
    s.spirc.repeat(enabled)
}

/// Calls `librespot_connect::Spirc::activate`; records the command.
#[verifier::external_body]
fn spirc_activate(s: &mut ConnectSession) -> (r: Result<(), librespot_core::Error>)
    ensures
        final(s).sent@ == old(s).sent@.push((SentCommand::Activate, r is Ok)),
{
    s.spirc.activate()
}

/// Calls `librespot_connect::Spirc::load` with the request; records the
/// command with what the request asks for.
#[verifier::external_body]
fn spirc_load(s: &mut ConnectSession, load: ConnectLoad) -> (r: Result<
    (),
    librespot_core::Error,
>)
    ensures
        final(s).sent@ == old(s).sent@.push((SentCommand::Load(load.view@), r is Ok)),
{
    s.spirc.load(load.request)
}

/// Calls `librespot_connect::LoadRequest::from_context_uri` with options that
/// start at the track of the given index, playing or not, and pairs the
/// request with what it was made from: the context URI, the start flag and
/// the track index handed to it.
#[verifier::external_body]
fn load_request_from_context_uri(
    context_uri: String,
    start_playing: bool,
    track_index: u32,
) -> (l: ConnectLoad)
    ensures
        l.view@ == (LoadView::Context { uri: context_uri@, start_playing, index: track_index }),
{
    let playing_track = Some(PlayingTrack::Index(track_index));
    let options = LoadRequestOptions { start_playing, playing_track, ..Default::default() };
    let view = Ghost(LoadView::Context { uri: context_uri@, start_playing, index: track_index });
    ConnectLoad { request: LoadRequest::from_context_uri(context_uri, options), view }
}

/// Calls `librespot_connect::LoadRequest::from_tracks` with options that
/// start at the track of the given index, playing or not, and pairs the
/// request with what it was made from: the track URIs, the start flag and
/// the track index handed to it.
#[verifier::external_body]
fn load_request_from_tracks(
    track_uris: Vec<String>,
    start_playing: bool,
    track_index: u32,
) -> (l: ConnectLoad)
    ensures
        l.view@ == (LoadView::Tracks {
            uris: track_uris.deep_view(),
            start_playing,
            index: track_index,
        }),
{
    let playing_track = Some(PlayingTrack::Index(track_index));
    let options = LoadRequestOptions { start_playing, playing_track, ..Default::default() };
    let view = Ghost(LoadView::Tracks { uris: track_uris.deep_view(), start_playing, index: track_index });
    ConnectLoad { request: LoadRequest::from_tracks(track_uris, options), view }
}

/// A request to load a context, with what it asks for.
fn context_load(context_uri: &str, start_playing: bool, track_index: u32) -> (l: ConnectLoad)
    ensures
        l.view@ == (LoadView::Context { uri: context_uri@, start_playing, index: track_index }),
{
    load_request_from_context_uri(String::from_str(context_uri), start_playing, track_index)
}

/// A request to load a list of tracks, with what it asks for.
fn tracks_load(track_uris: Vec<String>, start_playing: bool, track_index: u32) -> (l: ConnectLoad)
    ensures
        l.view@ == (LoadView::Tracks {
            uris: track_uris.deep_view(),
            start_playing,
            index: track_index,
        }),
{
    load_request_from_tracks(track_uris, start_playing, track_index)
}

/// Connect mode as plain values: whether it runs, and the commands handed
/// to the Connect sessions so far, in order.
#[verifier::ext_equal]
pub struct ConnectView {
    pub running: bool,
    pub sent: Seq<(SentCommand, bool)>,
}

/// The Connect session of this device, when Connect mode runs, and the
/// record of the commands handed to sessions.
pub struct ConnectState {
    session: Option<ConnectSession>,
    log: Ghost<Seq<(SentCommand, bool)>>,
}

impl View for ConnectState {
    type V = ConnectView;

    closed spec fn view(&self) -> ConnectView {
        match self.session {
            Some(s) => ConnectView { running: true, sent: s.sent@ },
            None => ConnectView { running: false, sent: self.log@ },
        }
    }
}

impl ConnectState {
    /// Connect mode not running; nothing sent.
    pub fn new() -> (s: Self)
        ensures
            !s@.running,
            s@.sent == Seq::<(SentCommand, bool)>::empty(),
    {
        ConnectState { session: None, log: Ghost(Seq::empty()) }
    }

    /// Starts Connect mode with a new session (a session already stored is
    /// replaced).
    pub fn install(&mut self, spirc: librespot_connect::Spirc)
        ensures
            final(self)@.running,
            final(self)@.sent == old(self)@.sent,
    {
        let ghost prev = self@.sent;
        self.session = Some(ConnectSession { spirc, sent: Ghost(prev) });
    }

    /// Ends Connect mode; a running session is sent the shutdown command.
    /// Says whether Connect mode was running.
    pub fn stop(&mut self) -> (was_running: bool)
        ensures
            was_running == old(self)@.running,
            !final(self)@.running,
            old(self)@.running ==> exists|accepted: bool|
                final(self)@.sent == old(self)@.sent.push((SentCommand::Shutdown, accepted)),
            !old(self)@.running ==> final(self)@.sent == old(self)@.sent,
    {
        match self.session.take() {
            Some(s) => {
                let mut s = s;
                let ghost before = s.sent@;
                let outcome = spirc_shutdown(&mut s);
                self.log = Ghost(s.sent@);
                assert(before == old(self)@.sent);
                assert(self@.sent == old(self)@.sent.push((SentCommand::Shutdown, outcome is Ok)));
                true
            },
            None => false,
        }
    }
}

/// `r` refuses a command because Connect mode does not run.
pub open spec fn is_not_started(r: Result<(), SidespotError>) -> bool {
    r matches Err(SidespotError::Connect(m)) && m@ == "not started"@
}

/// `r` is the result of a forwarded command: refused with "not started"
/// when Connect mode does not run; otherwise success, or a Connect error
/// carrying the session's own error text (which ends with ` }`).
pub open spec fn is_command_result(running: bool, r: Result<(), SidespotError>) -> bool {
    if running {
        r is Ok || (r matches Err(SidespotError::Connect(m)) && has_suffix(m@, " }"@))
    } else {
        is_not_started(r)
    }
}

/// Connect mode after `cmd` is forwarded: handed to the session when one
/// runs, with whether the session took it, nothing otherwise.
pub open spec fn after_command(before: ConnectView, cmd: SentCommand, accepted: bool) -> ConnectView {
    if before.running {
        ConnectView { running: true, sent: before.sent.push((cmd, accepted)) }
    } else {
        before
    }
}

fn not_started() -> (r: Result<(), SidespotError>)
    ensures
        is_not_started(r),
{
    Err(SidespotError::Connect(String::from_str("not started")))
}

/// The result of a command that the Connect session received, given its
/// failure text if it failed: a failure becomes a Connect error.
pub fn command_outcome(outcome: Result<(), String>) -> (r: Result<(), SidespotError>)
    ensures
        outcome is Ok ==> r is Ok,
        outcome matches Err(m) ==> r == Err::<(), SidespotError>(SidespotError::Connect(m)),
{
    match outcome {
        Ok(()) => Ok(()),
        Err(m) => Err(SidespotError::Connect(m)),
    }
}

/// The result of a command handed to the session: the session's success,
/// or a Connect error carrying the session's error text.
pub fn finish(outcome: Result<(), librespot_core::Error>) -> (r: Result<(), SidespotError>)
    ensures
        outcome is Ok ==> r is Ok,
        outcome is Err ==> (r matches Err(SidespotError::Connect(m)) && has_suffix(m@, " }"@)),
{
    match outcome {
        Ok(()) => command_outcome(Ok(())),
        Err(e) => command_outcome(Err(core_error_text(&e))),
    }
}

/// Whether Connect mode is active.
pub fn is_active(state: &ConnectState) -> (r: bool)
    ensures
        r == state@.running,
{
    state.session.is_some()
}

/// Resume playback.
pub fn play(state: &mut ConnectState) -> (r: Result<(), SidespotError>)
    ensures
        final(state)@ == after_command(old(state)@, SentCommand::Play, r is Ok),
        is_command_result(old(state)@.running, r),
{
    match &mut state.session {
        Some(s) => finish(spirc_play(s)),
        None => not_started(),
    }
}

/// Pause playback.
pub fn pause(state: &mut ConnectState) -> (r: Result<(), SidespotError>)
    ensures
        final(state)@ == after_command(old(state)@, SentCommand::Pause, r is Ok),
        is_command_result(old(state)@.running, r),
{
    match &mut state.session {
        Some(s) => finish(spirc_pause(s)),
        None => not_started(),
    }
}

/// Skip to the next track.
pub fn next(state: &mut ConnectState) -> (r: Result<(), SidespotError>)
    ensures
        final(state)@ == after_command(old(state)@, SentCommand::Next, r is Ok),
        is_command_result(old(state)@.running, r),
{
    match &mut state.session {
        Some(s) => finish(spirc_next(s)),
        None => not_started(),
    }
}

/// Skip to the previous track.
pub fn prev(state: &mut ConnectState) -> (r: Result<(), SidespotError>)
    ensures
        final(state)@ == after_command(old(state)@, SentCommand::Prev, r is Ok),
        is_command_result(old(state)@.running, r),
{
    match &mut state.session {
        Some(s) => finish(spirc_prev(s)),
        None => not_started(),
    }
}

/// Seek to a position in milliseconds.
pub fn seek(state: &mut ConnectState, position_ms: u32) -> (r: Result<(), SidespotError>)
    ensures
        final(state)@ == after_command(old(state)@, SentCommand::SetPosition(position_ms), r is Ok),
        is_command_result(old(state)@.running, r),
{
    match &mut state.session {
        Some(s) => finish(spirc_set_position_ms(s, position_ms)),
        None => not_started(),
    }
}

/// Set the volume (0-65535).
pub fn set_volume(state: &mut ConnectState, volume: u16) -> (r: Result<(), SidespotError>)
    ensures
        final(state)@ == after_command(old(state)@, SentCommand::SetVolume(volume), r is Ok),
        is_command_result(old(state)@.running, r),
{
    match &mut state.session {
        Some(s) => finish(spirc_set_volume(s, volume)),
        None => not_started(),
    }
}

/// Turn shuffle on or off.
pub fn shuffle(state: &mut ConnectState, enabled: bool) -> (r: Result<(), SidespotError>)
    ensures
        final(state)@ == after_command(old(state)@, SentCommand::Shuffle(enabled), r is Ok),
        is_command_result(old(state)@.running, r),
{
    match &mut state.session {
        Some(s) => finish(spirc_shuffle(s, enabled)),
        None => not_started(),
    }
}

/// Turn repeat on or off.
pub fn repeat(state: &mut ConnectState, enabled: bool) -> (r: Result<(), SidespotError>)
    ensures
        final(state)@ == after_command(old(state)@, SentCommand::Repeat(enabled), r is Ok),
        is_command_result(old(state)@.running, r),
{
    match &mut state.session {
        Some(s) => finish(spirc_repeat(s, enabled)),
        None => not_started(),
    }
}

/// Make this device the Connect target.
pub fn activate(state: &mut ConnectState) -> (r: Result<(), SidespotError>)
    ensures
        final(state)@ == after_command(old(state)@, SentCommand::Activate, r is Ok),
        is_command_result(old(state)@.running, r),
{
    match &mut state.session {
        Some(s) => finish(spirc_activate(s)),
        None => not_started(),
    }
}

/// The activation that ends starting Connect mode: with a session, it is
/// sent the activate command, and its failure is reported as a failed
/// activation with the session's text; without one there is nothing to do.
pub fn activate_started(state: &mut ConnectState) -> (r: Result<(), SidespotError>)
    ensures
        final(state)@ == after_command(old(state)@, SentCommand::Activate, r is Ok),
        !old(state)@.running ==> r is Ok,
        r is Err ==> (r matches Err(SidespotError::Connect(m)) && has_prefix(
            m@,
            "activate failed: "@,
        ) && has_suffix(m@, " }"@)),
{
    match &mut state.session {
        Some(s) => match spirc_activate(s) {
            Ok(()) => Ok(()),
            Err(e) => {
                let d = core_error_text(&e);
                let r = start_failed(StartStep::Activate, d.as_str());
                proof {
                    reveal_strlit("activate failed");
                    reveal_strlit(": ");
                    reveal_strlit("activate failed: ");
                    assert("activate failed"@ + ": "@ =~= "activate failed: "@);
                    lemma_prefixed_suffix("activate failed: "@, d@, " }"@);
                }
                Err(r)
            },
        },
        None => Ok(()),
    }
}

/// Loads a context (playlist or album URI), starting at the given track.
pub fn load_context(
    state: &mut ConnectState,
    context_uri: &str,
    start_playing: bool,
    track_index: u32,
) -> (r: Result<(), SidespotError>)
    ensures
        final(state)@ == after_command(
            old(state)@,
            SentCommand::Load(
                LoadView::Context { uri: context_uri@, start_playing, index: track_index },
            ),
            r is Ok,
        ),
        is_command_result(old(state)@.running, r),
{
    match &mut state.session {
        Some(s) => {
            let load = context_load(context_uri, start_playing, track_index);
            finish(spirc_load(s, load))
        },
        None => not_started(),
    }
}

/// Loads a list of track URIs, starting at the given track.
pub fn load_tracks(
    state: &mut ConnectState,
    track_uris: Vec<String>,
    start_playing: bool,
    track_index: u32,
) -> (r: Result<(), SidespotError>)
    ensures
        final(state)@ == after_command(
            old(state)@,
            SentCommand::Load(
                LoadView::Tracks { uris: track_uris.deep_view(), start_playing, index: track_index },
            ),
            r is Ok,
        ),
        is_command_result(old(state)@.running, r),
{
    match &mut state.session {
        Some(s) => {
            let load = tracks_load(track_uris, start_playing, track_index);
            finish(spirc_load(s, load))
        },
        None => not_started(),
    }
}

/// What `serde_json::from_str::<Vec<String>>` makes of a text: the strings
/// of a JSON array of strings, `None` when the text is not one.  A function
/// of the text alone.
pub uninterp spec fn json_string_list(text: Seq<char>) -> Option<Seq<Seq<char>>>;

/// Calls `serde_json::from_str::<Vec<String>>`.  Claims that it reads the
/// text as `json_string_list` says; a refusal carries serde's own text.
#[verifier::external_body]
fn parse_track_uris(text: &str) -> (r: Result<Vec<String>, String>)
    ensures
        r is Ok <==> json_string_list(text@) is Some,
        r matches Ok(v) ==> json_string_list(text@) == Some(v.deep_view()),
{
    serde_json::from_str::<Vec<String>>(text).map_err(|e| e.to_string())
}

/// Loads the tracks listed in a JSON array of URIs, starting at the given
/// track; the result is the message shown to the user when it fails: the
/// refusal of a text that is not such an array, or the Connect error.
pub fn load_tracks_json(
    state: &mut ConnectState,
    text: &str,
    start_playing: bool,
    track_index: u32,
) -> (r: Result<(), String>)
    ensures
        json_string_list(text@) is None ==> final(state)@ == old(state)@ && (r matches Err(m)
            && exists|d: Seq<char>| m@ == "invalid tracks JSON: "@ + d),
        json_string_list(text@) matches Some(uris) ==> {
            &&& final(state)@ == after_command(
                old(state)@,
                SentCommand::Load(LoadView::Tracks { uris, start_playing, index: track_index }),
                r is Ok,
            )
            &&& old(state)@.running ==> (r is Ok || (r matches Err(m) && has_prefix(
                m@,
                "Connect error: "@,
            ) && has_suffix(m@, " }"@)))
            &&& !old(state)@.running ==> (r matches Err(m) && m@ == "Connect error: not started"@)
        },
{
    match parse_track_uris(text) {
        Err(e) => Err(crate::bridge::invalid_tracks_json(e.as_str())),
        Ok(uris) => {
            let r = load_tracks(state, uris, start_playing, track_index);
            match r {
                Ok(()) => Ok(()),
                Err(e) => {
                    let m = e.message();
                    proof {
                        match e {
                            SidespotError::Connect(c) => {
                                if old(state)@.running {
                                    lemma_prefixed_suffix("Connect error: "@, c@, " }"@);
                                } else {
                                    reveal_strlit("Connect error: ");
                                    reveal_strlit("not started");
                                    reveal_strlit("Connect error: not started");
                                    assert("Connect error: "@ + c@ =~= "Connect error: not started"@);
                                }
                            },
                            _ => {},
                        }
                    }
                    Err(m)
                },
            }
        },
    }
}

/// A transport command for the Connect session.
#[derive(Debug, Clone, Copy, PartialEq, Eq, Structural)]
pub enum SpircCommand {
    Play,
    Pause,
    Next,
    Prev,
    SetPosition(u32),
    SetVolume(u16),
}

/// The command a transport command hands the session.
pub open spec fn sent_of(cmd: SpircCommand) -> SentCommand {
    match cmd {
        SpircCommand::Play => SentCommand::Play,
        SpircCommand::Pause => SentCommand::Pause,
        SpircCommand::Next => SentCommand::Next,
        SpircCommand::Prev => SentCommand::Prev,
        SpircCommand::SetPosition(p) => SentCommand::SetPosition(p),
        SpircCommand::SetVolume(v) => SentCommand::SetVolume(v),
    }
}

/// Forwards a transport command to the Connect session.
pub fn run_command(state: &mut ConnectState, cmd: SpircCommand) -> (r: Result<(), SidespotError>)
    ensures
        final(state)@ == after_command(old(state)@, sent_of(cmd), r is Ok),
        is_command_result(old(state)@.running, r),
{
    match cmd {
        SpircCommand::Play => play(state),
        SpircCommand::Pause => pause(state),
        SpircCommand::Next => next(state),
        SpircCommand::Prev => prev(state),
        SpircCommand::SetPosition(p) => seek(state, p),
        SpircCommand::SetVolume(v) => set_volume(state, v),
    }
}

/// A step of starting Connect mode that can fail.
#[derive(Debug, Clone, Copy, PartialEq, Eq, Structural)]
pub enum StartStep {
    CreateSession,
    Activate,
}

/// The error for a failed start step, with the session's own text.
pub fn start_failed(step: StartStep, detail: &str) -> (e: SidespotError)
    ensures
        e matches SidespotError::Connect(m) && m@ == (match step {
            StartStep::CreateSession => "Spirc::new failed"@,
            StartStep::Activate => "activate failed"@,
        }) + ": "@ + detail@,
{
    match step {
        StartStep::CreateSession => crate::error::connect_error("Spirc::new failed", detail),
        StartStep::Activate => crate::error::connect_error("activate failed", detail),
    }
}

/// A forwarded command is refused with "not started" exactly when Connect
/// mode does not run, and then nothing is handed to any session; while it
/// runs, the command is handed with whether the session took it, which is
/// whether the command succeeded.
pub proof fn law_not_started_exactly_when_stopped(
    before: ConnectView,
    cmd: SentCommand,
    r: Result<(), SidespotError>,
)
    requires
        is_command_result(before.running, r),
    ensures
        is_not_started(r) <==> !before.running,
        !before.running ==> after_command(before, cmd, r is Ok) == before,
        before.running ==> after_command(before, cmd, r is Ok).sent == before.sent.push(
            (cmd, r is Ok),
        ),
{
    reveal_strlit("not started");
    reveal_strlit(" }");
    if before.running && is_not_started(r) {
        let m = "not started"@;
        assert(m.subrange(m.len() - 2, m.len() as int)[1] == 'd');
    }
}

/// A step taken on Connect mode: starting a session (`install`), stopping
/// (`stop`), or anything else (forwarding a command, asking `is_active`).
pub enum ConnectOp {
    Install,
    Stop,
    Other,
}

/// What each step's contract says of whether Connect mode runs afterwards.
pub open spec fn connect_step(before: ConnectView, op: ConnectOp, after: ConnectView) -> bool {
    match op {
        ConnectOp::Install => after.running,
        ConnectOp::Stop => !after.running,
        ConnectOp::Other => after.running == before.running,
    }
}

/// Whether Connect mode runs after `ops`, from a state where it does not:
/// exactly when some start came after the last stop.
pub open spec fn runs_after(ops: Seq<ConnectOp>) -> bool
    decreases ops.len(),
{
    if ops.len() == 0 {
        false
    } else {
        match ops.last() {
            ConnectOp::Install => true,
            ConnectOp::Stop => false,
            ConnectOp::Other => runs_after(ops.drop_last()),
        }
    }
}

/// Over any sequence of starts, stops and commands taken from a fresh
/// state, Connect mode is active exactly when a start came after the last
/// stop; before any start it is not.
pub proof fn law_active_over_starts_and_stops(views: Seq<ConnectView>, ops: Seq<ConnectOp>)
    requires
        views.len() == ops.len() + 1,
        !views[0].running,
        forall|i: int| 0 <= i < ops.len() ==> connect_step(views[i], ops[i], #[trigger] views[i + 1]),
    ensures
        views.last().running == runs_after(ops),
    decreases ops.len(),
{
    if ops.len() > 0 {
        let vs = views.drop_last();
        let os = ops.drop_last();
        assert forall|i: int| 0 <= i < os.len() implies connect_step(
            vs[i],
            os[i],
            #[trigger] vs[i + 1],
        ) by {
            assert(connect_step(views[i], ops[i], views[i + 1]));
        }
        law_active_over_starts_and_stops(vs, os);
        let n = ops.len() - 1;
        assert(connect_step(views[n], ops[n], views[n + 1]));
    }
}

/// Loading a context or a track list while Connect mode runs hands the
/// session a load request built from exactly the caller's URI (or URIs),
/// start flag and track index, after the commands before it, with whether
/// the session took it; while Connect mode is stopped nothing is handed.
pub proof fn law_loads_keep_their_arguments(
    before: ConnectView,
    uri: Seq<char>,
    uris: Seq<Seq<char>>,
    start_playing: bool,
    index: u32,
    accepted: bool,
)
    ensures
        before.running ==> (after_command(
            before,
            SentCommand::Load(LoadView::Context { uri, start_playing, index }),
            accepted,
        ).sent.last() matches (SentCommand::Load(LoadView::Context { uri: u, start_playing: s, index: k }), a)
            && u == uri && s == start_playing && k == index && a == accepted),
        before.running ==> (after_command(
            before,
            SentCommand::Load(LoadView::Tracks { uris, start_playing, index }),
            accepted,
        ).sent.last() matches (SentCommand::Load(LoadView::Tracks { uris: us, start_playing: s, index: k }), a)
            && us == uris && s == start_playing && k == index && a == accepted),
        before.running ==> after_command(
            before,
            SentCommand::Load(LoadView::Context { uri, start_playing, index }),
            accepted,
        ).sent.drop_last() == before.sent,
        !before.running ==> after_command(
            before,
            SentCommand::Load(LoadView::Context { uri, start_playing, index }),
            accepted,
        ) == before,
{
    let c = SentCommand::Load(LoadView::Context { uri, start_playing, index });
    assert(before.sent.push((c, accepted)).drop_last() =~= before.sent);
}

} // verus!
