//! The local player: application configuration, the events reported to the
//! Kotlin layer, and the checks made before a player command is carried out.

use vstd::prelude::*;
use vstd::string::*;

use std::sync::Arc;

use crate::core_api::{core_error_text, parse_spotify_uri, spotify_uri_of, ParsedUri, UriView};
use crate::error::SidespotError;
use crate::metadata::somes;
use crate::text::concat2;

verus! {

/// Application configuration stored from the Kotlin side.
#[derive(Debug, Clone, PartialEq, Eq)]
pub struct AppConfig {
    pub bitrate: Option<u32>,
    pub normalisation: Option<bool>,
    pub autoplay: Option<bool>,
}

impl Default for AppConfig {
    fn default() -> (r: Self)
        ensures
            r.bitrate is None,
            r.normalisation is None,
            r.autoplay is None,
    {
        AppConfig { bitrate: None, normalisation: None, autoplay: None }
    }
}

/// The error for configuration text that could not be read.
pub fn config_error(detail: &str) -> (e: SidespotError)
    ensures
        e matches SidespotError::Player(m) && m@ == "invalid config JSON: "@ + detail@,
{
    SidespotError::Player(concat2("invalid config JSON: ", detail))
}

/// Replaces the stored configuration as a whole.
pub fn set_config(slot: &mut AppConfig, new_config: AppConfig)
    ensures
        *final(slot) == new_config,
{
    *slot = new_config;
}

/// Streaming quality of the player.
#[derive(Debug, Clone, Copy, PartialEq, Eq, Structural)]
pub enum BitrateLevel {
    Kbps96,
    Kbps160,
    Kbps320,
}

/// The quality for a configured bitrate: 96 and 160 kbit/s as asked, any
/// other value the highest quality.
pub fn bitrate_level(kbps: u32) -> (b: BitrateLevel)
    ensures
        kbps == 96 ==> b == BitrateLevel::Kbps96,
        kbps == 160 ==> b == BitrateLevel::Kbps160,
        kbps != 96 && kbps != 160 ==> b == BitrateLevel::Kbps320,
{
    if kbps == 96 {
        BitrateLevel::Kbps96
    } else if kbps == 160 {
        BitrateLevel::Kbps160
    } else {
        BitrateLevel::Kbps320
    }
}

/// How often the player reports its position, in milliseconds.
pub const POSITION_UPDATE_INTERVAL_MS: u64 = 1000;

/// The player settings that the configuration overrides; `None` keeps the
/// player's default.
#[derive(Debug, Clone, Copy, PartialEq, Eq, Structural)]
pub struct PlayerOverrides {
    pub bitrate: Option<BitrateLevel>,
    pub normalisation: Option<bool>,
}

/// The overrides that a configuration asks of a new player.
pub fn player_overrides(config: &AppConfig) -> (o: PlayerOverrides)
    ensures
        config.bitrate is None ==> o.bitrate is None,
        config.bitrate matches Some(k) ==> (o.bitrate matches Some(b) && (k == 96 ==> b
            == BitrateLevel::Kbps96) && (k == 160 ==> b == BitrateLevel::Kbps160) && (k != 96 && k
            != 160 ==> b == BitrateLevel::Kbps320)),
        o.normalisation == config.normalisation,
{
    let bitrate = match config.bitrate {
        Some(k) => Some(bitrate_level(k)),
        None => None,
    };
    PlayerOverrides { bitrate, normalisation: config.normalisation }
}

// ---------------------------------------------------------------------------
// Events
// ---------------------------------------------------------------------------

/// Simplified player event for the Kotlin layer.
#[derive(Debug, Clone, PartialEq, Eq)]
pub enum PlayerEventInfo {
    Playing { track_id: String, position_ms: u32 },
    Paused { track_id: String, position_ms: u32 },
    Stopped { track_id: String },
    Loading { track_id: String, position_ms: u32 },
    EndOfTrack { track_id: String },
    Error { message: String },
    SetQueue {
        context_uri: String,
        current_track_uri: Option<String>,
        next_track_uris: Vec<String>,
        prev_track_uris: Vec<String>,
    },
    VolumeChanged { volume: u16 },
}

/// A player event, with track identities as URI text.
#[derive(Debug, Clone, PartialEq, Eq)]
pub enum PlayerEventRecord {
    Playing { track_uri: String, position_ms: u32 },
    Paused { track_uri: String, position_ms: u32 },
    Stopped { track_uri: String },
    Loading { track_uri: String, position_ms: u32 },
    EndOfTrack { track_uri: String },
    PositionChanged { track_uri: String, position_ms: u32 },
    Unavailable { track_uri: String },
    SetQueue {
        context_uri: String,
        current_track_uri: Option<String>,
        next_track_uris: Vec<String>,
        prev_track_uris: Vec<String>,
    },
    VolumeChanged { volume: u16 },
    /// Any event the Kotlin layer is not told about.
    Other,
}

/// `r` is what the Kotlin layer is told of `ev`: playback state changes
/// one for one, a position change as playing, an unavailable track as an
/// error naming it, queue and volume changes as they are, nothing else.
pub open spec fn is_event_info_of(ev: PlayerEventRecord, r: Option<PlayerEventInfo>) -> bool {
    match ev {
        PlayerEventRecord::Playing { track_uri, position_ms } => r == Some(
            PlayerEventInfo::Playing { track_id: track_uri, position_ms },
        ),
        PlayerEventRecord::Paused { track_uri, position_ms } => r == Some(
            PlayerEventInfo::Paused { track_id: track_uri, position_ms },
        ),
        PlayerEventRecord::Stopped { track_uri } => r == Some(
            PlayerEventInfo::Stopped { track_id: track_uri },
        ),
        PlayerEventRecord::Loading { track_uri, position_ms } => r == Some(
            PlayerEventInfo::Loading { track_id: track_uri, position_ms },
        ),
        PlayerEventRecord::EndOfTrack { track_uri } => r == Some(
            PlayerEventInfo::EndOfTrack { track_id: track_uri },
        ),
        PlayerEventRecord::PositionChanged { track_uri, position_ms } => r == Some(
            PlayerEventInfo::Playing { track_id: track_uri, position_ms },
        ),
        PlayerEventRecord::Unavailable { track_uri } => r matches Some(
            PlayerEventInfo::Error { message },
        ) && message@ == "Track unavailable: "@ + track_uri@,
        PlayerEventRecord::SetQueue {
            context_uri,
            current_track_uri,
            next_track_uris,
            prev_track_uris,
        } => r == Some(
            PlayerEventInfo::SetQueue {
                context_uri,
                current_track_uri,
                next_track_uris,
                prev_track_uris,
            },
        ),
        PlayerEventRecord::VolumeChanged { volume } => r == Some(
            PlayerEventInfo::VolumeChanged { volume },
        ),
        PlayerEventRecord::Other => r is None,
    }
}

/// The event the Kotlin layer is told of, if any.
pub fn event_info_from(ev: PlayerEventRecord) -> (r: Option<PlayerEventInfo>)
    ensures
        is_event_info_of(ev, r),
{
    match ev {
        PlayerEventRecord::Playing { track_uri, position_ms } => Some(
            PlayerEventInfo::Playing { track_id: track_uri, position_ms },
        ),
        PlayerEventRecord::Paused { track_uri, position_ms } => Some(
            PlayerEventInfo::Paused { track_id: track_uri, position_ms },
        ),
        PlayerEventRecord::Stopped { track_uri } => Some(
            PlayerEventInfo::Stopped { track_id: track_uri },
        ),
        PlayerEventRecord::Loading { track_uri, position_ms } => Some(
            PlayerEventInfo::Loading { track_id: track_uri, position_ms },
        ),
        PlayerEventRecord::EndOfTrack { track_uri } => Some(
            PlayerEventInfo::EndOfTrack { track_id: track_uri },
        ),
        PlayerEventRecord::PositionChanged { track_uri, position_ms } => Some(
            PlayerEventInfo::Playing { track_id: track_uri, position_ms },
        ),
        PlayerEventRecord::Unavailable { track_uri } => Some(
            PlayerEventInfo::Error {
                message: concat2("Track unavailable: ", track_uri.as_str()),
            },
        ),
        PlayerEventRecord::SetQueue {
            context_uri,
            current_track_uri,
            next_track_uris,
            prev_track_uris,
        } => Some(
            PlayerEventInfo::SetQueue {
                context_uri,
                current_track_uri,
                next_track_uris,
                prev_track_uris,
            },
        ),
        PlayerEventRecord::VolumeChanged { volume } => Some(
            PlayerEventInfo::VolumeChanged { volume },
        ),
        PlayerEventRecord::Other => None,
    }
}

/// The track and position a player event carries, where it carries them.
pub open spec fn record_track(ev: PlayerEventRecord) -> Option<(String, Option<u32>)> {
    match ev {
        PlayerEventRecord::Playing { track_uri, position_ms } => Some((track_uri, Some(position_ms))),
        PlayerEventRecord::Paused { track_uri, position_ms } => Some((track_uri, Some(position_ms))),
        PlayerEventRecord::Loading { track_uri, position_ms } => Some((track_uri, Some(position_ms))),
        PlayerEventRecord::PositionChanged { track_uri, position_ms } => Some(
            (track_uri, Some(position_ms)),
        ),
        PlayerEventRecord::Stopped { track_uri } => Some((track_uri, None)),
        PlayerEventRecord::EndOfTrack { track_uri } => Some((track_uri, None)),
        _ => None,
    }
}

/// The track and position an event for Kotlin carries, where it carries them.
pub open spec fn info_track(info: PlayerEventInfo) -> Option<(String, Option<u32>)> {
    match info {
        PlayerEventInfo::Playing { track_id, position_ms } => Some((track_id, Some(position_ms))),
        PlayerEventInfo::Paused { track_id, position_ms } => Some((track_id, Some(position_ms))),
        PlayerEventInfo::Loading { track_id, position_ms } => Some((track_id, Some(position_ms))),
        PlayerEventInfo::Stopped { track_id } => Some((track_id, None)),
        PlayerEventInfo::EndOfTrack { track_id } => Some((track_id, None)),
        _ => None,
    }
}

/// Each playback event keeps its own kind when reported to Kotlin: a pause
/// is reported as paused and never as playing, and only a playing event or
/// a position change is reported as playing; stopped, loading, end of
/// track, volume and queue events keep their kind, an unavailable track
/// becomes an error, and only events of other kinds are dropped.  A
/// reported playback event carries the player event's own track and
/// position.
pub proof fn law_events_keep_their_kind(ev: PlayerEventRecord, r: Option<PlayerEventInfo>)
    requires
        is_event_info_of(ev, r),
    ensures
        (r matches Some(PlayerEventInfo::Paused { .. })) <==> ev is Paused,
        (r matches Some(PlayerEventInfo::Playing { .. })) <==> (ev is Playing
            || ev is PositionChanged),
        (r matches Some(PlayerEventInfo::Stopped { .. })) <==> ev is Stopped,
        (r matches Some(PlayerEventInfo::Loading { .. })) <==> ev is Loading,
        (r matches Some(PlayerEventInfo::EndOfTrack { .. })) <==> ev is EndOfTrack,
        (r matches Some(PlayerEventInfo::Error { .. })) <==> ev is Unavailable,
        (r matches Some(PlayerEventInfo::VolumeChanged { .. })) <==> ev is VolumeChanged,
        (r matches Some(PlayerEventInfo::SetQueue { .. })) <==> ev is SetQueue,
        r is None <==> ev is Other,
        record_track(ev) is Some ==> (r matches Some(info) && info_track(info) == record_track(ev)),
        ev matches PlayerEventRecord::VolumeChanged { volume } ==> r == Some(
            PlayerEventInfo::VolumeChanged { volume },
        ),
{
}

#[verifier::external_type_specification]
#[verifier::external_body]
#[verifier::reject_recursive_types(T)]
pub struct ExUnboundedSender<T>(tokio::sync::mpsc::UnboundedSender<T>);

#[verifier::external_type_specification]
#[verifier::external_body]
#[verifier::reject_recursive_types(T)]
pub struct ExSendError<T>(tokio::sync::mpsc::error::SendError<T>);

/// The sending end of the event channel to the Kotlin layer, with a record
/// of the events handed to it, in order.
pub struct EventSender {
    tx: tokio::sync::mpsc::UnboundedSender<PlayerEventInfo>,
    handed: Ghost<Seq<PlayerEventInfo>>,
}

impl View for EventSender {
    type V = Seq<PlayerEventInfo>;

    closed spec fn view(&self) -> Seq<PlayerEventInfo> {
        self.handed@
    }
}

impl EventSender {
    /// Wraps a channel's sending end; nothing handed yet.
    pub fn new(tx: tokio::sync::mpsc::UnboundedSender<PlayerEventInfo>) -> (s: Self)
        ensures
            s@ == Seq::<PlayerEventInfo>::empty(),
    {
        EventSender { tx, handed: Ghost(Seq::empty()) }
    }
}

/// Calls `tokio::sync::mpsc::UnboundedSender::send` with `event`, and
/// records that `event` was handed to the channel.  The channel appends it
/// to its queue unless the receiving end is closed, which the `Err` result
/// reports; which of the two happens is not stated.
#[verifier::external_body]
fn channel_send(s: &mut EventSender, event: PlayerEventInfo) -> (r: Result<
    (),
    tokio::sync::mpsc::error::SendError<PlayerEventInfo>,
>)
    ensures
        final(s)@ == old(s)@.push(event),
{
    s.tx.send(event)
}

/// The events handed to an event channel, if there is one.
pub open spec fn handed_events(tx: Option<EventSender>) -> Option<Seq<PlayerEventInfo>> {
    match tx {
        Some(s) => Some(s@),
        None => None,
    }
}

/// The event record after `event` is sent: appended last when there is a
/// channel, nothing otherwise.
pub open spec fn after_send(q: Option<Seq<PlayerEventInfo>>, event: PlayerEventInfo) -> Option<
    Seq<PlayerEventInfo>,
> {
    match q {
        Some(s) => Some(s.push(event)),
        None => None,
    }
}

/// Sends an event to the Kotlin layer from outside the player event loop:
/// it is handed to the channel after the ones before it; without an event
/// channel the event is dropped.
pub fn send_event(tx: &mut Option<EventSender>, event: PlayerEventInfo)
    ensures
        handed_events(*final(tx)) == after_send(handed_events(*old(tx)), event),
{
    match tx {
        Some(s) => {
            let _ = channel_send(s, event);
        },
        None => {},
    }
}

/// The record after sending `events` one after the other.
pub open spec fn after_sends(q: Option<Seq<PlayerEventInfo>>, events: Seq<PlayerEventInfo>) -> Option<
    Seq<PlayerEventInfo>,
>
    decreases events.len(),
{
    if events.len() == 0 {
        q
    } else {
        after_sends(after_send(q, events[0]), events.drop_first())
    }
}

/// Events sent one after the other go out in the order they were sent,
/// after the ones already handed, none dropped or merged.
pub proof fn law_events_in_order(q: Seq<PlayerEventInfo>, events: Seq<PlayerEventInfo>)
    ensures
        after_sends(Some(q), events) == Some(q + events),
    decreases events.len(),
{
    if events.len() > 0 {
        law_events_in_order(q.push(events[0]), events.drop_first());
        assert(q.push(events[0]) + events.drop_first() =~= q + events);
    } else {
        assert(q + events =~= q);
    }
}

/// The event record after forwarding a player event whose image is `out`:
/// the image is sent when there is one, nothing otherwise.
pub open spec fn forward_step(
    q: Option<Seq<PlayerEventInfo>>,
    out: Option<PlayerEventInfo>,
) -> Option<Seq<PlayerEventInfo>> {
    match out {
        Some(e) => after_send(q, e),
        None => q,
    }
}

/// The event record after forwarding player events whose images are
/// `outs`, in order.
pub open spec fn forward_all(
    q: Option<Seq<PlayerEventInfo>>,
    outs: Seq<Option<PlayerEventInfo>>,
) -> Option<Seq<PlayerEventInfo>>
    decreases outs.len(),
{
    if outs.len() == 0 {
        q
    } else {
        forward_step(forward_all(q, outs.drop_last()), outs.last())
    }
}

/// Forwards one player event to the Kotlin layer: its image for Kotlin, if
/// it has one, is sent.
pub fn forward_event(tx: &mut Option<EventSender>, ev: PlayerEventRecord)
    ensures
        exists|out: Option<PlayerEventInfo>|
            is_event_info_of(ev, out) && handed_events(*final(tx)) == forward_step(
                handed_events(*old(tx)),
                out,
            ),
{
    let ghost e = ev;
    let out = event_info_from(ev);
    let ghost o = out;
    match out {
        Some(info) => send_event(tx, info),
        None => {},
    }
    assert(is_event_info_of(e, o) && handed_events(*tx) == forward_step(
        handed_events(*old(tx)),
        o,
    ));
}

/// Forwarding a stream of player events sends, in the stream's order and
/// after what was already sent, the image of each event that has one; the
/// events without one (exactly those of other kinds) send nothing, and
/// without an event channel nothing is ever sent.
pub proof fn law_forwarding_in_order(
    q: Seq<PlayerEventInfo>,
    events: Seq<PlayerEventRecord>,
    outs: Seq<Option<PlayerEventInfo>>,
)
    requires
        events.len() == outs.len(),
        forall|i: int| 0 <= i < events.len() ==> is_event_info_of(events[i], #[trigger] outs[i]),
    ensures
        forward_all(Some(q), outs) == Some(q + somes(outs)),
        forward_all(None, outs) is None,
        forall|i: int| 0 <= i < events.len() ==> (#[trigger] outs[i] is None <==> events[i] is Other),
    decreases outs.len(),
{
    assert forall|i: int| 0 <= i < events.len() implies (#[trigger] outs[i] is None <==> events[i] is Other) by {
        assert(is_event_info_of(events[i], outs[i]));
    }
    if outs.len() > 0 {
        let es = events.drop_last();
        let os = outs.drop_last();
        assert forall|i: int| 0 <= i < es.len() implies is_event_info_of(es[i], #[trigger] os[i]) by {
            assert(is_event_info_of(events[i], outs[i]));
        }
        law_forwarding_in_order(q, es, os);
        match outs.last() {
            Some(e) => {
                assert((q + somes(os)).push(e) =~= q + somes(os).push(e));
            },
            None => {},
        }
    } else {
        assert(q + somes(outs) =~= q);
    }
}

#[verifier::external_type_specification]
#[verifier::external_body]
pub struct ExPlayer(librespot_playback::player::Player);

#[verifier::external_type_specification]
#[verifier::external_body]
pub struct ExSoftMixer(librespot_playback::mixer::softmixer::SoftMixer);

/// A command handed to the player.
pub enum PlayerCommand {
    Play,
    Pause,
    Seek(u32),
    Stop,
    Load { track: UriView, start_playing: bool, position_ms: u32 },
    Preload { track: UriView },
}

/// The player, with a record of the commands handed to it, in order.
pub struct PlayerHandle {
    player: Arc<librespot_playback::player::Player>,
    handed: Ghost<Seq<PlayerCommand>>,
}

impl View for PlayerHandle {
    type V = Seq<PlayerCommand>;

    closed spec fn view(&self) -> Seq<PlayerCommand> {
        self.handed@
    }
}

impl PlayerHandle {
    /// Wraps a player; nothing handed yet.
    pub fn new(player: Arc<librespot_playback::player::Player>) -> (h: Self)
        ensures
            h@ == Seq::<PlayerCommand>::empty(),
    {
        PlayerHandle { player, handed: Ghost(Seq::empty()) }
    }
}

/// Calls `librespot_playback::player::Player::play`, which queues the
/// command for the player thread and returns nothing; records the command.
#[verifier::external_body]
fn player_play(h: &mut PlayerHandle)
    ensures
        final(h)@ == old(h)@.push(PlayerCommand::Play),
{
    h.player.play()
}

/// Calls `librespot_playback::player::Player::pause`, which queues the
/// command for the player thread and returns nothing; records the command.
#[verifier::external_body]
fn player_pause(h: &mut PlayerHandle)
    ensures
        final(h)@ == old(h)@.push(PlayerCommand::Pause),
{
    h.player.pause()
}

/// Calls `librespot_playback::player::Player::seek` with `position_ms`,
/// which queues the command for the player thread and returns nothing;
/// records the command with its position.
#[verifier::external_body]
fn player_seek(h: &mut PlayerHandle, position_ms: u32)
    ensures
        final(h)@ == old(h)@.push(PlayerCommand::Seek(position_ms)),
{
    h.player.seek(position_ms)
}

/// Calls `librespot_playback::player::Player::stop`, which queues the
/// command for the player thread and returns nothing; records the command.
#[verifier::external_body]
fn player_stop(h: &mut PlayerHandle)
    ensures
        final(h)@ == old(h)@.push(PlayerCommand::Stop),
{
    h.player.stop()
}

/// Calls `librespot_playback::player::Player::load` with the parsed URI and
/// the flags given, which queues the command for the player thread and
/// returns nothing; records the command with its arguments.
#[verifier::external_body]
fn player_load(h: &mut PlayerHandle, track: ParsedUri, start_playing: bool, position_ms: u32)
    ensures
        final(h)@ == old(h)@.push(
            PlayerCommand::Load { track: track@, start_playing, position_ms },
        ),
{
    h.player.load(track.uri, start_playing, position_ms)
}

/// Calls `librespot_playback::player::Player::preload` with the parsed URI,
/// which queues the command for the player thread and returns nothing;
/// records the command with its URI.
#[verifier::external_body]
fn player_preload(h: &mut PlayerHandle, track: ParsedUri)
    ensures
        final(h)@ == old(h)@.push(PlayerCommand::Preload { track: track@ }),
{
    h.player.preload(track.uri)
}

/// What happened at the mixer: a volume handed to it, or a reading taken.
pub enum MixerEvent {
    Handed(u16),
    Read(u16),
}

/// The soft mixer, with a record of the volumes handed to it and the
/// readings taken from it, in order.
pub struct MixerHandle {
    mixer: Arc<librespot_playback::mixer::softmixer::SoftMixer>,
    handed: Ghost<Seq<MixerEvent>>,
}

impl View for MixerHandle {
    type V = Seq<MixerEvent>;

    closed spec fn view(&self) -> Seq<MixerEvent> {
        self.handed@
    }
}

impl MixerHandle {
    /// Wraps a mixer; nothing handed yet.
    pub fn new(mixer: Arc<librespot_playback::mixer::softmixer::SoftMixer>) -> (h: Self)
        ensures
            h@ == Seq::<MixerEvent>::empty(),
    {
        MixerHandle { mixer, handed: Ghost(Seq::empty()) }
    }
}

/// Calls `<SoftMixer as librespot_playback::mixer::Mixer>::set_volume` with
/// `volume`, which stores it mapped through the mixer's volume curve;
/// records the volume handed.
#[verifier::external_body]
fn mixer_set_volume(m: &mut MixerHandle, volume: u16)
    ensures
        final(m)@ == old(m)@.push(MixerEvent::Handed(volume)),
{
    librespot_playback::mixer::Mixer::set_volume(&*m.mixer, volume)
}

/// Calls `<SoftMixer as librespot_playback::mixer::Mixer>::volume` and
/// records the reading it returns.  The mixer keeps the volume as a
/// floating-point value on its curve, shared with the player and the
/// Connect session, and maps it back, so the reading is not tied to the
/// volumes handed in.
#[verifier::external_body]
fn mixer_volume(m: &mut MixerHandle) -> (r: u16)
    ensures
        final(m)@ == old(m)@.push(MixerEvent::Read(r)),
{
    librespot_playback::mixer::Mixer::volume(&*m.mixer)
}

/// The commands handed to the player in a slot, if there is one.
pub open spec fn handed_commands(slot: Option<PlayerHandle>) -> Option<Seq<PlayerCommand>> {
    match slot {
        Some(h) => Some(h@),
        None => None,
    }
}

/// A command that needs the player: refused with `NoPlayer`, and nothing
/// handed, without one; otherwise `cmd` is handed to it and the call
/// succeeds.
pub open spec fn is_command_sent(
    before: Option<PlayerHandle>,
    after: Option<PlayerHandle>,
    cmd: PlayerCommand,
    r: Result<(), SidespotError>,
) -> bool {
    match handed_commands(before) {
        None => handed_commands(after) is None && r == Err::<(), SidespotError>(
            SidespotError::NoPlayer,
        ),
        Some(q) => handed_commands(after) == Some(q.push(cmd)) && r is Ok,
    }
}

/// Resume playback.
pub fn play(slot: &mut Option<PlayerHandle>) -> (r: Result<(), SidespotError>)
    ensures
        is_command_sent(*old(slot), *final(slot), PlayerCommand::Play, r),
{
    match slot {
        Some(h) => {
            player_play(h);
            Ok(())
        },
        None => Err(SidespotError::NoPlayer),
    }
}

/// Pause playback.
pub fn pause(slot: &mut Option<PlayerHandle>) -> (r: Result<(), SidespotError>)
    ensures
        is_command_sent(*old(slot), *final(slot), PlayerCommand::Pause, r),
{
    match slot {
        Some(h) => {
            player_pause(h);
            Ok(())
        },
        None => Err(SidespotError::NoPlayer),
    }
}

/// Seek to a position in milliseconds.
pub fn seek(slot: &mut Option<PlayerHandle>, position_ms: u32) -> (r: Result<(), SidespotError>)
    ensures
        is_command_sent(*old(slot), *final(slot), PlayerCommand::Seek(position_ms), r),
{
    match slot {
        Some(h) => {
            player_seek(h, position_ms);
            Ok(())
        },
        None => Err(SidespotError::NoPlayer),
    }
}

/// Stop playback.
pub fn stop(slot: &mut Option<PlayerHandle>) -> (r: Result<(), SidespotError>)
    ensures
        is_command_sent(*old(slot), *final(slot), PlayerCommand::Stop, r),
{
    match slot {
        Some(h) => {
            player_stop(h);
            Ok(())
        },
        None => Err(SidespotError::NoPlayer),
    }
}

/// The command that loading (or preloading) a parsed URI hands the player.
pub open spec fn load_command(track: UriView, preload: bool, start_playing: bool) -> PlayerCommand {
    if preload {
        PlayerCommand::Preload { track }
    } else {
        PlayerCommand::Load { track, start_playing, position_ms: 0 }
    }
}

/// `r` is the result of loading or preloading `uri`: refused with
/// `NoPlayer` without a player; otherwise, when the URI parses, the load
/// command for it is handed to the player and the call succeeds; when it
/// does not, nothing is handed and the call is refused with a player error
/// that quotes the URI, opened by `what`, followed by the parser's text.
pub open spec fn is_load_result(
    before: Option<PlayerHandle>,
    after: Option<PlayerHandle>,
    uri: Seq<char>,
    what: Seq<char>,
    preload: bool,
    start_playing: bool,
    r: Result<(), SidespotError>,
) -> bool {
    match handed_commands(before) {
        None => handed_commands(after) is None && r == Err::<(), SidespotError>(
            SidespotError::NoPlayer,
        ),
        Some(q) => match spotify_uri_of(uri) {
            Some(v) => handed_commands(after) == Some(q.push(load_command(v, preload, start_playing)))
                && r is Ok,
            None => handed_commands(after) == Some(q) && (r matches Err(SidespotError::Player(m))
                && exists|d: Seq<char>| m@ == what + uri + "': "@ + d),
        },
    }
}

/// Load a track by Spotify URI (e.g. "spotify:track:4uLU6hMCjMI75M1A2tKUQC"),
/// from its start, playing or not.
pub fn load_track(slot: &mut Option<PlayerHandle>, uri: &str, start_playing: bool) -> (r: Result<
    (),
    SidespotError,
>)
    ensures
        is_load_result(*old(slot), *final(slot), uri@, "invalid URI '"@, false, start_playing, r),
{
    match slot {
        None => Err(SidespotError::NoPlayer),
        Some(h) => match parse_spotify_uri(uri) {
            Ok(u) => {
                player_load(h, u, start_playing, 0);
                Ok(())
            },
            Err(e) => {
                let d = core_error_text(&e);
                Err(crate::metadata::invalid_uri_error(uri, d.as_str()))
            },
        },
    }
}

/// Preload a track so it starts instantly when loaded next.
pub fn preload_track(slot: &mut Option<PlayerHandle>, uri: &str) -> (r: Result<(), SidespotError>)
    ensures
        is_load_result(*old(slot), *final(slot), uri@, "invalid preload URI '"@, true, false, r),
{
    match slot {
        None => Err(SidespotError::NoPlayer),
        Some(h) => match parse_spotify_uri(uri) {
            Ok(u) => {
                player_preload(h, u);
                Ok(())
            },
            Err(e) => {
                let d = core_error_text(&e);
                let mut m = String::new();
                m.append("invalid preload URI '");
                m.append(uri);
                m.append("': ");
                m.append(d.as_str());
                assert(m@ =~= "invalid preload URI '"@ + uri@ + "': "@ + d@);
                Err(SidespotError::Player(m))
            },
        },
    }
}

/// What happened at the mixer in a slot, if there is one.
pub open spec fn handed_volumes(mixer: Option<MixerHandle>) -> Option<Seq<MixerEvent>> {
    match mixer {
        Some(m) => Some(m@),
        None => None,
    }
}

/// Set the playback volume (0-65535) on the mixer, if one exists: the
/// volume is handed to it unchanged; without a mixer nothing happens.
pub fn set_volume(mixer: &mut Option<MixerHandle>, volume: u16)
    ensures
        handed_volumes(*final(mixer)) == match handed_volumes(*old(mixer)) {
            Some(q) => Some(q.push(MixerEvent::Handed(volume))),
            None => None,
        },
{
    match mixer {
        Some(m) => mixer_set_volume(m, volume),
        None => {},
    }
}

/// The playback volume (0-65535): the mixer's reading, which is recorded,
/// or 0 without a mixer.
pub fn get_volume(mixer: &mut Option<MixerHandle>) -> (v: u16)
    ensures
        handed_volumes(*final(mixer)) == match handed_volumes(*old(mixer)) {
            Some(q) => Some(q.push(MixerEvent::Read(v))),
            None => None,
        },
        *old(mixer) is None ==> v == 0,
{
    match mixer {
        Some(m) => mixer_volume(m),
        None => 0,
    }
}

/// Loading a track that parses, with a player present, hands the player
/// exactly one new command: a load of that parsed track from position 0
/// whose start flag is the caller's; preloading hands a preload of it.
pub proof fn law_load_keeps_its_arguments(
    before: Option<PlayerHandle>,
    after: Option<PlayerHandle>,
    uri: Seq<char>,
    what: Seq<char>,
    preload: bool,
    start_playing: bool,
    r: Result<(), SidespotError>,
)
    requires
        is_load_result(before, after, uri, what, preload, start_playing, r),
        before is Some,
        spotify_uri_of(uri) is Some,
    ensures
        r is Ok,
        handed_commands(after) matches Some(q) && q.len() == before->Some_0@.len() + 1
            && q.drop_last() == before->Some_0@,
        !preload ==> (handed_commands(after) matches Some(q) && q.last() matches PlayerCommand::Load {
            track,
            start_playing: s,
            position_ms,
        } && s == start_playing && position_ms == 0 && spotify_uri_of(uri) == Some(track)),
        preload ==> (handed_commands(after) matches Some(q) && q.last() matches PlayerCommand::Preload {
            track,
        } && spotify_uri_of(uri) == Some(track)),
{
    let q = before->Some_0@;
    let v = spotify_uri_of(uri)->Some_0;
    assert(q.push(load_command(v, preload, start_playing)).drop_last() =~= q);
}

} // verus!
