use sidespot::bridge::{
    error_json, invalid_tracks_json, route_transport, status_text, track_index_from_java,
    LocalCommand, TransportRequest, TransportRoute,
};
use sidespot::connect::{self, ConnectState, SpircCommand, StartStep};
use sidespot::error::SidespotError;
use sidespot::player::{
    self, AppConfig, BitrateLevel, EventSender, MixerHandle, PlayerEventInfo, PlayerEventRecord,
    PlayerHandle,
};
use sidespot::session;

#[test]
fn bitrate_choices() {
    assert_eq!(player::bitrate_level(96), BitrateLevel::Kbps96);
    assert_eq!(player::bitrate_level(160), BitrateLevel::Kbps160);
    assert_eq!(player::bitrate_level(320), BitrateLevel::Kbps320);
    assert_eq!(player::bitrate_level(128), BitrateLevel::Kbps320);
    let cfg = AppConfig { bitrate: Some(160), normalisation: Some(true), autoplay: None };
    let o = player::player_overrides(&cfg);
    assert_eq!(o.bitrate, Some(BitrateLevel::Kbps160));
    assert_eq!(o.normalisation, Some(true));
    let o = player::player_overrides(&AppConfig::default());
    assert_eq!((o.bitrate, o.normalisation), (None, None));
    assert_eq!(player::POSITION_UPDATE_INTERVAL_MS, 1000);
}

#[test]
fn config_is_replaced_whole() {
    let mut slot = AppConfig { bitrate: Some(96), normalisation: Some(false), autoplay: Some(true) };
    player::set_config(&mut slot, AppConfig { bitrate: None, normalisation: None, autoplay: Some(false) });
    assert_eq!(slot, AppConfig { bitrate: None, normalisation: None, autoplay: Some(false) });
    assert_eq!(player::config_error("eof"), SidespotError::Player("invalid config JSON: eof".into()));
}

#[test]
fn events_reported_to_kotlin() {
    let e = |r| player::event_info_from(r);
    assert_eq!(
        e(PlayerEventRecord::PositionChanged { track_uri: "t".into(), position_ms: 5 }),
        Some(PlayerEventInfo::Playing { track_id: "t".into(), position_ms: 5 })
    );
    assert_eq!(
        e(PlayerEventRecord::Unavailable { track_uri: "spotify:track:x".into() }),
        Some(PlayerEventInfo::Error { message: "Track unavailable: spotify:track:x".into() })
    );
    assert_eq!(e(PlayerEventRecord::Stopped { track_uri: "t".into() }), Some(PlayerEventInfo::Stopped { track_id: "t".into() }));
    assert_eq!(e(PlayerEventRecord::VolumeChanged { volume: 7 }), Some(PlayerEventInfo::VolumeChanged { volume: 7 }));
    assert_eq!(e(PlayerEventRecord::Other), None);
}

#[test]
fn events_go_through_the_channel() {
    let (tx, mut rx) = tokio::sync::mpsc::unbounded_channel();
    let mut sender = Some(EventSender::new(tx));
    player::send_event(&mut sender, PlayerEventInfo::VolumeChanged { volume: 3 });
    player::send_event(&mut sender, PlayerEventInfo::Stopped { track_id: "t".into() });
    assert_eq!(rx.try_recv().unwrap(), PlayerEventInfo::VolumeChanged { volume: 3 });
    assert_eq!(rx.try_recv().unwrap(), PlayerEventInfo::Stopped { track_id: "t".into() });
    player::forward_event(&mut sender, PlayerEventRecord::Other);
    player::forward_event(&mut sender, PlayerEventRecord::PositionChanged { track_uri: "u".into(), position_ms: 9 });
    assert_eq!(rx.try_recv().unwrap(), PlayerEventInfo::Playing { track_id: "u".into(), position_ms: 9 });
    assert!(rx.try_recv().is_err());
    let mut none: Option<EventSender> = None;
    player::send_event(&mut none, PlayerEventInfo::VolumeChanged { volume: 4 });
    assert!(rx.try_recv().is_err());
    assert!(none.is_none());
}

#[test]
fn player_commands_need_a_player() {
    let mut slot: Option<PlayerHandle> = None;
    assert_eq!(player::play(&mut slot), Err(SidespotError::NoPlayer));
    assert_eq!(player::pause(&mut slot), Err(SidespotError::NoPlayer));
    assert_eq!(player::seek(&mut slot, 10), Err(SidespotError::NoPlayer));
    assert_eq!(player::stop(&mut slot), Err(SidespotError::NoPlayer));
    assert_eq!(player::load_track(&mut slot, "spotify:track:4uLU6hMCjMI75M1A2tKUQC", true), Err(SidespotError::NoPlayer));
    assert_eq!(player::preload_track(&mut slot, "garbage"), Err(SidespotError::NoPlayer));
    assert!(slot.is_none());
    let mut mixer: Option<MixerHandle> = None;
    assert_eq!(player::get_volume(&mut mixer), 0);
    player::set_volume(&mut mixer, 1000);
    assert!(mixer.is_none());
}

#[test]
fn connect_not_started_refuses() {
    let mut state = ConnectState::new();
    assert!(!connect::is_active(&state));
    let refused = Err(SidespotError::Connect("not started".into()));
    assert_eq!(connect::play(&mut state), refused);
    assert_eq!(connect::pause(&mut state), refused);
    assert_eq!(connect::next(&mut state), refused);
    assert_eq!(connect::prev(&mut state), refused);
    assert_eq!(connect::seek(&mut state, 1), refused);
    assert_eq!(connect::set_volume(&mut state, 1), refused);
    assert_eq!(connect::shuffle(&mut state, true), refused);
    assert_eq!(connect::repeat(&mut state, true), refused);
    assert_eq!(connect::activate(&mut state), refused);
    assert_eq!(connect::load_context(&mut state, "spotify:album:x", true, 2), refused);
    assert_eq!(connect::load_tracks(&mut state, vec!["spotify:track:x".into()], false, 0), refused);
    assert_eq!(connect::run_command(&mut state, SpircCommand::Next), refused);
    assert_eq!(
        connect::load_tracks_json(&mut state, "[\"spotify:track:x\"]", true, 0),
        Err("Connect error: not started".to_string())
    );
    match connect::load_tracks_json(&mut state, "not json", true, 0) {
        Err(m) => assert!(m.starts_with("invalid tracks JSON: ")),
        Ok(()) => panic!("accepted a text that is not JSON"),
    }
    assert_eq!(connect::activate_started(&mut state), Ok(()));
    assert!(!state.stop());
    assert!(!state.stop());
    assert!(!connect::is_active(&state));
}

#[test]
fn connect_outcomes_and_start_errors() {
    assert_eq!(connect::command_outcome(Ok(())), Ok(()));
    assert_eq!(connect::command_outcome(Err("closed".into())), Err(SidespotError::Connect("closed".into())));
    assert_eq!(connect::start_failed(StartStep::CreateSession, "x"), SidespotError::Connect("Spirc::new failed: x".into()));
    assert_eq!(connect::start_failed(StartStep::Activate, "y"), SidespotError::Connect("activate failed: y".into()));
}

#[test]
fn transport_routing() {
    assert_eq!(route_transport(true, TransportRequest::Stop), TransportRoute::Connect(SpircCommand::Pause));
    assert_eq!(route_transport(false, TransportRequest::Stop), TransportRoute::Local(LocalCommand::Stop));
    assert_eq!(route_transport(false, TransportRequest::Next), TransportRoute::Ignore);
    assert_eq!(route_transport(true, TransportRequest::Prev), TransportRoute::Connect(SpircCommand::Prev));
    assert_eq!(route_transport(true, TransportRequest::Seek(1500)), TransportRoute::Connect(SpircCommand::SetPosition(1500)));
    assert_eq!(route_transport(false, TransportRequest::SetVolume(70000)), TransportRoute::Local(LocalCommand::SetVolume(4464)));
    assert_eq!(route_transport(false, TransportRequest::Play), TransportRoute::Local(LocalCommand::Play));
    assert_eq!(track_index_from_java(-1), u32::MAX);
}

#[test]
fn bridge_texts() {
    assert_eq!(status_text(&Ok(())), None);
    assert_eq!(status_text(&Err(SidespotError::NoSession)), Some("No active session".to_string()));
    assert_eq!(error_json(&SidespotError::NoPlayer), "{\"error\":\"No active player\"}");
    assert_eq!(invalid_tracks_json("bad"), "invalid tracks JSON: bad");
}

#[test]
fn tmp_dir_reads_back() {
    let mut slot = None;
    assert_eq!(session::get_tmp_dir(&slot), None);
    session::set_tmp_dir(&mut slot, "/data/cache");
    assert_eq!(session::get_tmp_dir(&slot), Some("/data/cache".to_string()));
    let cfg = AppConfig { bitrate: None, normalisation: None, autoplay: Some(true) };
    let o = session::session_overrides(&slot, &cfg);
    assert_eq!(o.tmp_dir.as_deref(), Some("/data/cache"));
    assert_eq!(o.autoplay, Some(true));
}

#[test]
fn session_access() {
    assert_eq!(session::require_session(Some(5)), Ok(5));
    assert_eq!(session::require_session::<u8>(None), Err(SidespotError::NoSession));
    assert_eq!(session::connect_failed("401"), SidespotError::Session("connect failed: 401".into()));
}
