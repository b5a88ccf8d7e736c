use bot_core::errors::VoiceFlag;
use bot_core::presence::{compose_connected_line, Presence};
use bot_core::registry::VoiceRegistry;
use bot_core::reply::{Effect, Field, RichContent};
use bot_core::router::Command;
use bot_core::session::{ConnectionState, Playing, Track, TrackRequest};
use bot_core::step::{Request, Source, Step};
use bot_core::voice::{
    compose_flag_text, compose_now_playing, compose_queued, finish_flag, finish_join,
    finish_leave, finish_resolve, pick_source, plan_flag, plan_join, plan_leave, plan_play, skip,
    stop,
};

fn track(title: &str, stream: u64) -> Track {
    Track {
        stream,
        title: title.to_string(),
        artist: "Imagine Dragons".to_string(),
        duration_ms: 204_000,
        thumbnail: "https://img.example/t.png".to_string(),
    }
}

fn say(text: &str) -> Vec<Effect> {
    vec![Effect::Say(text.to_string())]
}

fn refused(text: &str) -> Step {
    Step::Done(say(text))
}

fn field(name: &str, value: &str) -> Field {
    Field { name: name.to_string(), value: value.to_string() }
}

fn words(list: &[&str]) -> Vec<String> {
    list.iter().map(|w| w.to_string()).collect()
}

fn connected(guild: u64, channel: u64) -> VoiceRegistry {
    let mut r = VoiceRegistry::new();
    r.connect(guild, channel);
    r
}

#[test]
fn join_needs_a_guild_and_a_voice_channel() {
    assert_eq!(plan_join(Some(1), Some(10)), Step::Call(Request::JoinChannel { guild: 1, channel: 10 }));
    assert_eq!(plan_join(Some(1), None), refused("You are not in a voice channel"));
    assert_eq!(plan_join(None, Some(10)), refused("You are not in a voice channel"));
    assert_eq!(plan_join(None, None), refused("You are not in a voice channel"));
}

#[test]
fn finish_join_connects_only_when_the_transport_joined() {
    let mut r = VoiceRegistry::new();
    let effects = finish_join(&mut r, 1, 10, &Err("no permission".to_string()));
    assert_eq!(effects, say("The voice transport rejected the command: no permission"));
    assert_eq!(r.state(1), ConnectionState::Disconnected);
    let effects = finish_join(&mut r, 1, 10, &Ok(()));
    assert_eq!(effects, say("Joined the voice channel"));
    assert_eq!(r.session(1).unwrap().voice_channel_id(), Some(10));
}

#[test]
fn leave_needs_a_session() {
    let r = connected(1, 10);
    assert_eq!(plan_leave(&r, Some(1)), Step::Call(Request::LeaveChannel { guild: 1 }));
    assert_eq!(plan_leave(&r, Some(2)), refused("Not connected to a voice channel"));
    assert_eq!(plan_leave(&r, None), refused("Not connected to a voice channel"));
}

#[test]
fn finish_leave_removes_the_session_and_restores_the_presence() {
    let mut r = connected(1, 10);
    let mut p = Presence::new("Playing a song");
    let effects = finish_leave(&mut r, &mut p, 1, "Idle", &Ok(()));
    assert_eq!(
        effects,
        vec![
            Effect::SetPresence("Idle".to_string()),
            Effect::Say("Left the voice channel".to_string()),
        ]
    );
    assert_eq!(r.state(1), ConnectionState::Disconnected);
    assert_eq!(p.text(), "Idle");
}

#[test]
fn a_leave_confirmed_for_a_guild_without_a_session_changes_nothing() {
    let mut r = connected(2, 20);
    let mut p = Presence::new("Playing a song");
    let effects = finish_leave(&mut r, &mut p, 1, "Idle", &Ok(()));
    assert_eq!(effects, say("Not connected to a voice channel"));
    assert_eq!(r.state(1), ConnectionState::Disconnected);
    assert_eq!(r.state(2), ConnectionState::Connected);
    assert_eq!(p.text(), "Playing a song");
}

#[test]
fn a_refused_leave_changes_nothing() {
    let mut r = connected(1, 10);
    let mut p = Presence::new("Playing a song");
    let effects = finish_leave(&mut r, &mut p, 1, "Idle", &Err("busy".to_string()));
    assert_eq!(effects, say("The voice transport rejected the command: busy"));
    assert_eq!(r.state(1), ConnectionState::Connected);
    assert_eq!(p.text(), "Playing a song");
}

#[test]
fn a_flag_is_asked_of_the_transport_only_when_it_would_change() {
    let mut r = connected(1, 10);
    assert_eq!(
        plan_flag(&r, Some(1), VoiceFlag::Mute, true),
        Step::Call(Request::SetFlag { guild: 1, flag: VoiceFlag::Mute, on: true })
    );
    assert_eq!(plan_flag(&r, Some(1), VoiceFlag::Mute, false), refused("Already unmuted"));
    assert_eq!(plan_flag(&r, Some(1), VoiceFlag::Deafen, false), refused("Already undeafened"));
    assert_eq!(plan_flag(&r, Some(2), VoiceFlag::Mute, true), refused("Not connected to a voice channel"));
    assert_eq!(plan_flag(&r, None, VoiceFlag::Mute, true), refused("Not connected to a voice channel"));
    r.set_flag(1, VoiceFlag::Deafen, true).unwrap();
    assert_eq!(plan_flag(&r, Some(1), VoiceFlag::Deafen, true), refused("Already deafened"));
    assert_eq!(
        plan_flag(&r, Some(1), VoiceFlag::Deafen, false),
        Step::Call(Request::SetFlag { guild: 1, flag: VoiceFlag::Deafen, on: false })
    );
}

#[test]
fn mute_twice_asks_the_transport_once() {
    let mut r = connected(1, 10);
    assert_eq!(
        plan_flag(&r, Some(1), VoiceFlag::Mute, true),
        Step::Call(Request::SetFlag { guild: 1, flag: VoiceFlag::Mute, on: true })
    );
    assert_eq!(finish_flag(&mut r, 1, VoiceFlag::Mute, true, &Ok(())), say("Muted"));
    assert!(r.session(1).unwrap().flag(VoiceFlag::Mute));
    assert_eq!(plan_flag(&r, Some(1), VoiceFlag::Mute, true), refused("Already muted"));
}

#[test]
fn a_flag_the_transport_refused_is_not_set() {
    let mut r = connected(1, 10);
    let effects = finish_flag(&mut r, 1, VoiceFlag::Mute, true, &Err("denied".to_string()));
    assert_eq!(effects, say("The voice transport rejected the command: denied"));
    assert!(!r.session(1).unwrap().flag(VoiceFlag::Mute));
}

#[test]
fn a_flag_confirmed_after_the_guild_left_is_not_connected() {
    let mut r = VoiceRegistry::new();
    let effects = finish_flag(&mut r, 1, VoiceFlag::Deafen, true, &Ok(()));
    assert_eq!(effects, say("Not connected to a voice channel"));
    assert!(r.session(1).is_none());
}

#[test]
fn flag_texts() {
    assert_eq!(compose_flag_text(VoiceFlag::Mute, true), "Muted");
    assert_eq!(compose_flag_text(VoiceFlag::Mute, false), "Unmuted");
    assert_eq!(compose_flag_text(VoiceFlag::Deafen, true), "Deafened");
    assert_eq!(compose_flag_text(VoiceFlag::Deafen, false), "Undeafened");
}

#[test]
fn pick_source_reads_the_arguments_as_the_command_asks() {
    let args = words(&["https://example.org/a.mp3", "extra"]);
    assert_eq!(
        pick_source(Command::Play, &args),
        Some(Source::Url("https://example.org/a.mp3".to_string()))
    );
    let args = words(&["imagine", "dragons", "believer"]);
    assert_eq!(
        pick_source(Command::SearchAndPlay, &args),
        Some(Source::Search("imagine dragons believer".to_string()))
    );
    assert_eq!(
        pick_source(Command::SearchAndPlayLoop, &args),
        Some(Source::SearchLoop("imagine dragons believer".to_string()))
    );
    assert_eq!(pick_source(Command::Play, &Vec::new()), None);
    assert_eq!(pick_source(Command::SearchAndPlay, &Vec::new()), None);
    assert_eq!(pick_source(Command::SearchAndPlayLoop, &Vec::new()), None);
    assert_eq!(pick_source(Command::Stop, &args), None);
    assert!(Source::SearchLoop("x".to_string()).loops());
    assert!(!Source::Search("x".to_string()).loops());
    assert!(!Source::Url("x".to_string()).loops());
}

#[test]
fn play_needs_a_session_and_something_to_resolve() {
    let r = connected(1, 10);
    let source = Source::Search("believer".to_string());
    assert_eq!(
        plan_play(&r, Some(1), Some(source.clone()), "ana"),
        Step::Call(Request::Resolve { guild: 1, source: source.clone(), requester: "ana".to_string() })
    );
    assert_eq!(plan_play(&r, Some(1), None, "ana"), refused("Missing or malformed argument"));
    assert_eq!(
        plan_play(&r, Some(2), Some(source.clone()), "ana"),
        refused("Not connected to a voice channel")
    );
    assert_eq!(plan_play(&r, Some(2), None, "ana"), refused("Not connected to a voice channel"));
    assert_eq!(plan_play(&r, None, Some(source), "ana"), refused("Not connected to a voice channel"));
}

#[test]
fn the_first_resolved_track_plays_at_once() {
    let mut r = connected(1, 10);
    let effects = finish_resolve(&mut r, 1, false, "ana".to_string(), Ok(track("Believer", 77)), 5_000);
    assert_eq!(
        effects,
        vec![
            Effect::StartPlayback { guild: 1, stream: 77, looped: false },
            Effect::SayRich(RichContent {
                title: "Now Playing".to_string(),
                description: "Believer".to_string(),
                thumbnail: Some("https://img.example/t.png".to_string()),
                fields: vec![
                    field("Artist", "Imagine Dragons"),
                    field("Duration", "3:24"),
                    field("Requested by", "ana"),
                    field("Elapsed", "0:00"),
                ],
            }),
        ]
    );
    let s = r.session(1).unwrap();
    let playing = s.current_track().unwrap();
    assert_eq!(playing.request.track, track("Believer", 77));
    assert_eq!(playing.request.requester, "ana");
    assert!(!playing.request.looped);
    assert_eq!(playing.started_ms, 5_000);
    assert!(s.queue().is_empty());
}

#[test]
fn a_track_resolved_while_another_plays_is_queued() {
    let mut r = connected(1, 10);
    finish_resolve(&mut r, 1, false, "ana".to_string(), Ok(track("Believer", 77)), 5_000);
    let mut second = track("Thunder", 78);
    second.thumbnail = String::new();
    let effects = finish_resolve(&mut r, 1, true, "bo".to_string(), Ok(second.clone()), 88_000);
    assert_eq!(
        effects,
        vec![Effect::SayRich(RichContent {
            title: "Queued".to_string(),
            description: "Thunder".to_string(),
            thumbnail: None,
            fields: vec![
                field("Artist", "Imagine Dragons"),
                field("Duration", "3:24"),
                field("Requested by", "bo"),
                field("Position in queue", "1"),
                field("Now Playing", "Believer"),
                field("Elapsed", "1:23"),
            ],
        })]
    );
    let effects = finish_resolve(&mut r, 1, false, "cy".to_string(), Ok(track("Demons", 79)), 90_000);
    match &effects[0] {
        Effect::SayRich(content) => {
            assert_eq!(content.fields[3], field("Position in queue", "2"));
            assert_eq!(content.fields[5], field("Elapsed", "1:25"));
        },
        other => panic!("unexpected effect {:?}", other),
    }
    let s = r.session(1).unwrap();
    assert_eq!(s.current_track().unwrap().request.track.title, "Believer");
    assert_eq!(s.current_track().unwrap().started_ms, 5_000);
    assert_eq!(s.queue().len(), 2);
    assert_eq!(s.queue()[0], TrackRequest { track: second, requester: "bo".to_string(), looped: true });
    assert_eq!(s.queue()[1].track.title, "Demons");
}

#[test]
fn a_failed_resolution_leaves_the_queue_alone() {
    let mut r = connected(1, 10);
    finish_resolve(&mut r, 1, false, "ana".to_string(), Ok(track("Believer", 77)), 5_000);
    let effects = finish_resolve(&mut r, 1, false, "bo".to_string(), Err("no results".to_string()), 6_000);
    assert_eq!(effects, say("Could not resolve the audio source: no results"));
    let s = r.session(1).unwrap();
    assert_eq!(s.current_track().unwrap().request.track.title, "Believer");
    assert!(s.queue().is_empty());
}

#[test]
fn a_track_resolved_after_the_guild_left_is_dropped() {
    let mut r = VoiceRegistry::new();
    let effects = finish_resolve(&mut r, 1, false, "ana".to_string(), Ok(track("Believer", 77)), 5_000);
    assert_eq!(effects, say("Not connected to a voice channel"));
    assert!(r.session(1).is_none());
}

#[test]
fn stop_halts_playback_and_restores_the_presence() {
    let mut r = connected(1, 10);
    let mut p = Presence::new("Playing a song");
    finish_resolve(&mut r, 1, false, "ana".to_string(), Ok(track("Believer", 77)), 5_000);
    finish_resolve(&mut r, 1, false, "ana".to_string(), Ok(track("Thunder", 78)), 6_000);
    let effects = stop(&mut r, &mut p, Some(1), "Idle");
    assert_eq!(
        effects,
        vec![
            Effect::HaltPlayback { guild: 1 },
            Effect::SetPresence("Idle".to_string()),
            Effect::Say("Stopped playback and cleared the queue".to_string()),
        ]
    );
    assert!(r.session(1).unwrap().current_track().is_none());
    assert!(r.session(1).unwrap().queue().is_empty());
    assert_eq!(p.text(), "Idle");
}

#[test]
fn stop_without_a_session_changes_nothing() {
    let mut r = connected(1, 10);
    let mut p = Presence::new("Playing a song");
    assert_eq!(stop(&mut r, &mut p, Some(2), "Idle"), say("Not connected to a voice channel"));
    assert_eq!(stop(&mut r, &mut p, None, "Idle"), say("Not connected to a voice channel"));
    assert_eq!(p.text(), "Playing a song");
    assert!(r.session(2).is_none());
    assert_eq!(r.state(1), ConnectionState::Connected);
}

#[test]
fn skip_plays_the_next_track_or_halts() {
    let mut r = connected(1, 10);
    assert_eq!(skip(&mut r, Some(1), 1_000), say("Nothing is playing"));
    finish_resolve(&mut r, 1, false, "ana".to_string(), Ok(track("Believer", 77)), 5_000);
    finish_resolve(&mut r, 1, true, "bo".to_string(), Ok(track("Thunder", 78)), 6_000);
    let effects = skip(&mut r, Some(1), 9_000);
    assert_eq!(effects[0], Effect::StartPlayback { guild: 1, stream: 78, looped: true });
    match &effects[1] {
        Effect::SayRich(content) => {
            assert_eq!(content.title, "Now Playing");
            assert_eq!(content.description, "Thunder");
            assert_eq!(content.fields[2], field("Requested by", "bo"));
            assert_eq!(content.fields[3], field("Elapsed", "0:00"));
        },
        other => panic!("unexpected effect {:?}", other),
    }
    assert_eq!(effects.len(), 2);
    assert_eq!(r.session(1).unwrap().current_track().unwrap().started_ms, 9_000);
    let effects = skip(&mut r, Some(1), 10_000);
    assert_eq!(
        effects,
        vec![
            Effect::HaltPlayback { guild: 1 },
            Effect::Say("Skipped. Nothing is left to play".to_string()),
        ]
    );
    assert!(r.session(1).unwrap().current_track().is_none());
}

#[test]
fn a_skip_command_without_a_session_is_not_connected() {
    let mut r = VoiceRegistry::new();
    assert_eq!(skip(&mut r, Some(1), 1), say("Not connected to a voice channel"));
    assert_eq!(skip(&mut r, None, 1), say("Not connected to a voice channel"));
    assert!(r.session(1).is_none());
}

#[test]
fn the_elapsed_time_never_runs_backwards() {
    let request = TrackRequest { track: track("Believer", 77), requester: "ana".to_string(), looped: false };
    let current = Playing { request: request.clone(), started_ms: 10_000 };
    let content = compose_queued(&request, 3, &current, 4_000);
    assert_eq!(content.fields[3], field("Position in queue", "3"));
    assert_eq!(content.fields[5], field("Elapsed", "0:00"));
    let content = compose_now_playing(&request, 61_500);
    assert_eq!(content.fields[3], field("Elapsed", "1:01"));
}

#[test]
fn the_presence_holder_has_one_set_operation() {
    let mut p = Presence::new("Pondering Scryfall..");
    assert_eq!(p.text(), "Pondering Scryfall..");
    assert_eq!(p.set("Something else"), Effect::SetPresence("Something else".to_string()));
    assert_eq!(p.text(), "Something else");
    assert_eq!(compose_connected_line("scrybot", "My Guild"), "scrybot is connected to: My Guild");
}
