use bot_core::errors::{BotError, VoiceFlag};
use bot_core::registry::{Enqueued, Skipped, VoiceRegistry};
use bot_core::session::{ConnectionState, GuildVoiceSession, Track, TrackRequest};

fn request(title: &str, stream: u64) -> TrackRequest {
    TrackRequest {
        track: Track {
            stream,
            title: title.to_string(),
            artist: "Somebody".to_string(),
            duration_ms: 200_000,
            thumbnail: String::new(),
        },
        requester: "ana".to_string(),
        looped: false,
    }
}

fn titles(session: &GuildVoiceSession) -> Vec<String> {
    session.queue().iter().map(|r| r.track.title.clone()).collect()
}

#[test]
fn a_new_registry_has_no_session() {
    let r = VoiceRegistry::new();
    assert_eq!(r.state(1), ConnectionState::Disconnected);
    assert!(r.session(1).is_none());
}

#[test]
fn connect_makes_a_fresh_connected_session() {
    let mut r = VoiceRegistry::new();
    r.connect(7, 70);
    assert_eq!(r.state(7), ConnectionState::Connected);
    let s = r.session(7).unwrap();
    assert_eq!(s.guild_id(), 7);
    assert_eq!(s.state(), ConnectionState::Connected);
    assert_eq!(s.voice_channel_id(), Some(70));
    assert!(!s.flag(VoiceFlag::Mute));
    assert!(!s.flag(VoiceFlag::Deafen));
    assert!(s.current_track().is_none());
    assert!(s.queue().is_empty());
    assert_eq!(r.state(8), ConnectionState::Disconnected);
}

#[test]
fn connecting_again_moves_the_channel_and_keeps_the_rest() {
    let mut r = VoiceRegistry::new();
    r.connect(7, 70);
    r.set_flag(7, VoiceFlag::Mute, true).unwrap();
    r.enqueue(7, request("a", 1), 10).unwrap();
    r.enqueue(7, request("b", 2), 20).unwrap();
    r.connect(7, 71);
    let s = r.session(7).unwrap();
    assert_eq!(s.voice_channel_id(), Some(71));
    assert!(s.flag(VoiceFlag::Mute));
    assert_eq!(s.current_track().unwrap().request.track.title, "a");
    assert_eq!(titles(s), vec!["b"]);
}

#[test]
fn connecting_twice_to_one_channel_is_connecting_once() {
    let mut r = VoiceRegistry::new();
    r.connect(7, 70);
    r.connect(7, 70);
    let s = r.session(7).unwrap();
    assert_eq!(s.voice_channel_id(), Some(70));
    assert!(s.queue().is_empty());
}

#[test]
fn disconnect_removes_the_session() {
    let mut r = VoiceRegistry::new();
    r.connect(7, 70);
    r.connect(8, 80);
    assert_eq!(r.disconnect(7), Ok(()));
    assert_eq!(r.state(7), ConnectionState::Disconnected);
    assert_eq!(r.state(8), ConnectionState::Connected);
    assert_eq!(r.session(8).unwrap().voice_channel_id(), Some(80));
}

#[test]
fn disconnect_without_a_session_is_not_connected() {
    let mut r = VoiceRegistry::new();
    r.connect(8, 80);
    assert_eq!(r.disconnect(7), Err(BotError::NotConnected));
    assert_eq!(r.state(8), ConnectionState::Connected);
}

#[test]
fn check_flag_tells_when_the_transport_is_to_be_asked() {
    let mut r = VoiceRegistry::new();
    assert_eq!(r.check_flag(7, VoiceFlag::Mute, true), Err(BotError::NotConnected));
    r.connect(7, 70);
    assert_eq!(r.check_flag(7, VoiceFlag::Mute, true), Ok(()));
    assert_eq!(
        r.check_flag(7, VoiceFlag::Mute, false),
        Err(BotError::AlreadyInState(VoiceFlag::Mute, false))
    );
    assert_eq!(r.check_flag(7, VoiceFlag::Deafen, true), Ok(()));
    assert_eq!(
        r.check_flag(7, VoiceFlag::Deafen, false),
        Err(BotError::AlreadyInState(VoiceFlag::Deafen, false))
    );
}

#[test]
fn the_two_flags_are_independent() {
    let mut r = VoiceRegistry::new();
    r.connect(7, 70);
    assert_eq!(r.set_flag(7, VoiceFlag::Mute, true), Ok(()));
    assert!(r.session(7).unwrap().flag(VoiceFlag::Mute));
    assert!(!r.session(7).unwrap().flag(VoiceFlag::Deafen));
    assert_eq!(r.set_flag(7, VoiceFlag::Deafen, true), Ok(()));
    assert_eq!(r.set_flag(7, VoiceFlag::Mute, false), Ok(()));
    assert!(!r.session(7).unwrap().flag(VoiceFlag::Mute));
    assert!(r.session(7).unwrap().flag(VoiceFlag::Deafen));
    assert_eq!(
        r.check_flag(7, VoiceFlag::Deafen, true),
        Err(BotError::AlreadyInState(VoiceFlag::Deafen, true))
    );
}

#[test]
fn set_flag_without_a_session_is_not_connected() {
    let mut r = VoiceRegistry::new();
    assert_eq!(r.set_flag(7, VoiceFlag::Mute, true), Err(BotError::NotConnected));
    assert!(r.session(7).is_none());
}

#[test]
fn the_first_track_plays_and_the_next_ones_wait_in_order() {
    let mut r = VoiceRegistry::new();
    r.connect(7, 70);
    assert_eq!(r.enqueue(7, request("a", 1), 100), Ok(Enqueued::NowPlaying));
    {
        let s = r.session(7).unwrap();
        let playing = s.current_track().unwrap();
        assert_eq!(playing.request, request("a", 1));
        assert_eq!(playing.started_ms, 100);
        assert!(s.queue().is_empty());
    }
    assert_eq!(r.enqueue(7, request("b", 2), 200), Ok(Enqueued::Queued { position: 1 }));
    assert_eq!(r.enqueue(7, request("c", 3), 300), Ok(Enqueued::Queued { position: 2 }));
    let s = r.session(7).unwrap();
    assert_eq!(s.current_track().unwrap().request.track.title, "a");
    assert_eq!(s.current_track().unwrap().started_ms, 100);
    assert_eq!(titles(s), vec!["b", "c"]);
}

#[test]
fn enqueue_without_a_session_is_not_connected_and_makes_none() {
    let mut r = VoiceRegistry::new();
    assert_eq!(r.enqueue(7, request("a", 1), 100), Err(BotError::NotConnected));
    assert!(r.session(7).is_none());
}

#[test]
fn skip_advances_through_the_queue_and_then_stops() {
    let mut r = VoiceRegistry::new();
    r.connect(7, 70);
    r.enqueue(7, request("a", 1), 100).unwrap();
    r.enqueue(7, request("b", 2), 200).unwrap();
    r.enqueue(7, request("c", 3), 300).unwrap();
    assert_eq!(r.skip(7, 400), Ok(Skipped::Advanced));
    {
        let s = r.session(7).unwrap();
        assert_eq!(s.current_track().unwrap().request.track.title, "b");
        assert_eq!(s.current_track().unwrap().started_ms, 400);
        assert_eq!(titles(s), vec!["c"]);
    }
    assert_eq!(r.skip(7, 500), Ok(Skipped::Advanced));
    assert_eq!(r.session(7).unwrap().current_track().unwrap().request.track.title, "c");
    assert!(r.session(7).unwrap().queue().is_empty());
    assert_eq!(r.skip(7, 600), Ok(Skipped::Stopped));
    assert!(r.session(7).unwrap().current_track().is_none());
    assert_eq!(r.skip(7, 700), Ok(Skipped::Idle));
    assert!(r.session(7).unwrap().current_track().is_none());
    assert_eq!(r.state(7), ConnectionState::Connected);
}

#[test]
fn skip_without_a_session_is_not_connected() {
    let mut r = VoiceRegistry::new();
    assert_eq!(r.skip(7, 1), Err(BotError::NotConnected));
}

#[test]
fn stop_clears_what_plays_and_what_waits() {
    let mut r = VoiceRegistry::new();
    r.connect(7, 70);
    r.set_flag(7, VoiceFlag::Deafen, true).unwrap();
    r.enqueue(7, request("a", 1), 100).unwrap();
    r.enqueue(7, request("b", 2), 200).unwrap();
    assert_eq!(r.stop(7), Ok(()));
    let s = r.session(7).unwrap();
    assert!(s.current_track().is_none());
    assert!(s.queue().is_empty());
    assert_eq!(s.voice_channel_id(), Some(70));
    assert!(s.flag(VoiceFlag::Deafen));
}

#[test]
fn stop_while_idle_succeeds_and_stop_without_a_session_fails() {
    let mut r = VoiceRegistry::new();
    r.connect(7, 70);
    assert_eq!(r.stop(7), Ok(()));
    assert_eq!(r.stop(9), Err(BotError::NotConnected));
    assert!(r.session(9).is_none());
}

#[test]
fn guilds_do_not_touch_each_other() {
    let mut r = VoiceRegistry::new();
    r.connect(1, 10);
    r.connect(2, 20);
    r.enqueue(1, request("a", 1), 5).unwrap();
    r.set_flag(2, VoiceFlag::Mute, true).unwrap();
    r.stop(2).unwrap();
    assert_eq!(r.session(1).unwrap().current_track().unwrap().request.track.title, "a");
    assert!(!r.session(1).unwrap().flag(VoiceFlag::Mute));
    assert!(r.session(2).unwrap().current_track().is_none());
    assert!(r.session(2).unwrap().flag(VoiceFlag::Mute));
}

#[test]
fn a_session_on_its_own_takes_the_same_steps() {
    let mut s = GuildVoiceSession::connected(3, 30);
    assert!(s.enqueue(request("a", 1), 1));
    assert!(!s.enqueue(request("b", 2), 2));
    s.set_flag(VoiceFlag::Mute, true);
    s.retarget(31);
    assert_eq!(s.voice_channel_id(), Some(31));
    assert!(s.flag(VoiceFlag::Mute));
    s.skip(9);
    assert_eq!(s.current_track().unwrap().request.track.title, "b");
    assert_eq!(s.current_track().unwrap().started_ms, 9);
    s.stop();
    assert!(s.current_track().is_none());
    assert!(s.queue().is_empty());
}
