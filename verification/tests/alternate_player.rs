use futures::sync::mpsc::{unbounded, UnboundedReceiver};
use futures::Stream;
use librespot::playback::player::PlayerEvent;
use spotty::alternate_player::{
    Effect, PlaybackEvent, Player, PlayerCommand, PlayerInternal, PollInput, PollRound, PollStep,
    Polled, PING_SECONDS,
};
use spotty::lms::{LMSEvent, LMS};
use spotty::spotify_id::{SpotifyAudioType, SpotifyId};

fn player() -> PlayerInternal {
    Player::new(LMS::new(None, Some("aa".to_string()), None)).1
}

fn track(id: u128) -> SpotifyId {
    SpotifyId { id, audio_type: SpotifyAudioType::Track }
}

fn listen(player: &mut PlayerInternal) -> UnboundedReceiver<PlayerEvent> {
    let (tx, rx) = unbounded();
    assert!(player.handle_command(PlayerCommand::AddEventSender(tx)).is_none());
    rx
}

/// What was told, in short: the event's name, request, track, position, duration.
fn heard(rx: UnboundedReceiver<PlayerEvent>) -> Vec<(&'static str, u64, u128, u32, u32)> {
    rx.wait()
        .map(|event| match event.unwrap() {
            PlayerEvent::Loading { play_request_id, track_id, position_ms } => {
                ("loading", play_request_id, track_id.id, position_ms, 0)
            }
            PlayerEvent::Playing { play_request_id, track_id, position_ms, duration_ms } => {
                ("playing", play_request_id, track_id.id, position_ms, duration_ms)
            }
            PlayerEvent::Paused { play_request_id, track_id, position_ms, duration_ms } => {
                ("paused", play_request_id, track_id.id, position_ms, duration_ms)
            }
            _ => ("other", 0, 0, 0, 0),
        })
        .collect()
}

fn load(track_id: SpotifyId, play_request_id: u64, play: bool) -> PlayerCommand {
    PlayerCommand::Load { track_id, play_request_id, play, position_ms: 5 }
}

fn playing(position_ms: u32, play_id: &str) -> LMSEvent {
    LMSEvent::Playing { position_ms, play_id: play_id.to_string() }
}

fn paused(position_ms: u32, play_id: &str) -> LMSEvent {
    LMSEvent::Paused { position_ms, play_id: play_id.to_string() }
}

fn body(cmd: PlayerCommand) -> Option<String> {
    player().handle_command(cmd).map(|request| request.body)
}

fn posted(command: &str) -> Option<String> {
    Some(format!(
        "{{\"id\": 1,\"method\":\"slim.request\",\"params\":[\"aa\",{}]}}",
        command
    ))
}

#[test]
fn a_new_player_plays_nothing() {
    let (player, internal, _mailboxes) = Player::new(LMS::new(None, None, None));
    assert!(player.commands.is_some());
    assert!(internal.event_senders.is_empty());
    assert_eq!(internal.track_state.load_track_id, None);
    assert_eq!(internal.track_state.current_track_id, None);
    assert_eq!(internal.track_state.load_play_request_id, 0);
    assert_eq!(internal.track_state.current_play_request_id, 0);
    assert_eq!(internal.track_state.current_play_id, "");
}

#[test]
fn commands_of_the_player_reach_its_mailbox() {
    let (player, _internal, mailboxes) = Player::new(LMS::new(None, None, None));
    player.commands.as_ref().unwrap().unbounded_send(PlayerCommand::Seek(9)).ok().unwrap();
    drop(player);
    let commands: Vec<_> = mailboxes.cmd_rx.wait().map(|cmd| cmd.unwrap()).collect();
    assert_eq!(commands.len(), 1);
    assert!(matches!(commands[0], PlayerCommand::Seek(9)));
    mailboxes.lms_cmd_tx.unbounded_send(LMSEvent::Stopped).ok().unwrap();
    drop(mailboxes.lms_cmd_tx);
    assert_eq!(mailboxes.lms_cmd_rx.wait().count(), 1);
}

#[test]
fn commands_for_the_server() {
    assert_eq!(body(PlayerCommand::Play), posted("[\"spottyconnect\",\"start\"]"));
    assert_eq!(body(PlayerCommand::Pause), posted("[\"spottyconnect\",\"stop\"]"));
    assert_eq!(body(PlayerCommand::Stop), posted("[\"spottyconnect\",\"stop\"]"));
    assert_eq!(body(PlayerCommand::Seek(7)), posted("[\"spottyconnect\",\"change\"]"));
    assert_eq!(body(PlayerCommand::Preload { track_id: track(1) }), None);
    assert_eq!(body(PlayerCommand::SetSinkEventCallback), None);
    assert_eq!(body(PlayerCommand::EmitVolumeSetEvent(3)), None);
}

#[test]
fn a_start_names_the_track() {
    let id = track(238762092608182713602505436543891614649);
    assert_eq!(
        body(load(id, 1, true)),
        posted("[\"spottyconnect\",\"start\",\"5sWHDYs0csV6RS48xBl0tH\"]")
    );
    assert_eq!(body(load(id, 1, false)), None);
    assert_eq!(
        body(load(track(0), 1, true)),
        posted("[\"spottyconnect\",\"start\",\"0000000000000000000000\"]")
    );
    assert_eq!(
        body(load(track(61 * 62 + 36), 1, true)),
        posted("[\"spottyconnect\",\"start\",\"00000000000000000000ZA\"]")
    );
    assert_eq!(
        body(load(track(u128::MAX), 1, true)),
        posted("[\"spottyconnect\",\"start\",\"7N42dgm5tFLK9N8MT7fHC7\"]")
    );
}

#[test]
fn an_unconfigured_server_is_not_asked() {
    let (_, mut internal, _) = Player::new(LMS::new(None, None, None));
    assert!(internal.handle_command(PlayerCommand::Play).is_none());
    assert!(internal.handle_command(load(track(1), 1, true)).is_none());
    assert_eq!(internal.track_state.load_track_id, Some(track(1)));
}

#[test]
fn a_loaded_track_is_played_with_its_first_report() {
    let mut player = player();
    let rx = listen(&mut player);
    player.handle_command(load(track(1), 7, true));
    assert_eq!(player.track_state.load_track_id, Some(track(1)));
    assert_eq!(player.track_state.load_play_request_id, 7);
    player.handle_lms_event(playing(100, "x"));
    player.handle_lms_event(playing(200, "x"));
    player.handle_lms_event(paused(250, "x"));
    assert_eq!(player.track_state.current_track_id, Some(track(1)));
    assert_eq!(player.track_state.current_play_request_id, 7);
    assert_eq!(player.track_state.current_play_id, "x");
    assert_eq!(player.track_state.load_track_id, None);
    assert_eq!(player.track_state.load_play_request_id, 0);
    drop(player);
    assert_eq!(
        heard(rx),
        vec![
            ("loading", 7, 1, 5, 0),
            ("playing", 7, 1, 100, 0),
            ("playing", 7, 1, 200, 0),
            ("paused", 7, 1, 250, 0),
        ]
    );
}

#[test]
fn a_loaded_track_may_be_reported_as_paused() {
    let mut player = player();
    let rx = listen(&mut player);
    player.handle_command(load(track(1), 7, false));
    player.handle_lms_event(paused(100, "x"));
    assert_eq!(player.track_state.current_track_id, Some(track(1)));
    drop(player);
    assert_eq!(heard(rx), vec![("loading", 7, 1, 5, 0), ("paused", 7, 1, 100, 0)]);
}

#[test]
fn the_old_track_is_told_of_until_the_new_one_comes() {
    let mut player = player();
    player.handle_command(load(track(1), 7, true));
    player.handle_lms_event(playing(100, "x"));
    let rx = listen(&mut player);
    player.handle_command(load(track(2), 8, true));
    player.handle_lms_event(playing(300, "x"));
    player.handle_lms_event(playing(0, "y"));
    drop(player);
    assert_eq!(
        heard(rx),
        vec![("loading", 8, 2, 5, 0), ("playing", 7, 1, 300, 0), ("playing", 8, 2, 0, 0)]
    );
}

#[test]
fn the_played_track_is_not_loaded_again() {
    let mut player = player();
    player.handle_command(load(track(1), 7, true));
    player.handle_lms_event(playing(100, "x"));
    let rx = listen(&mut player);
    assert!(player.handle_command(load(track(1), 9, true)).is_some());
    assert_eq!(player.track_state.load_track_id, None);
    assert_eq!(player.track_state.current_play_request_id, 7);
    drop(player);
    assert_eq!(heard(rx), vec![]);
}

#[test]
fn an_episode_is_not_the_track_of_its_number() {
    let mut player = player();
    player.handle_command(load(track(1), 7, true));
    player.handle_lms_event(playing(100, "x"));
    let episode = SpotifyId { id: 1, audio_type: SpotifyAudioType::Podcast };
    player.handle_command(load(episode, 8, true));
    assert_eq!(player.track_state.load_track_id, Some(episode));
}

#[test]
fn the_last_load_counts() {
    let mut player = player();
    player.handle_command(load(track(1), 7, true));
    player.handle_command(load(track(2), 8, true));
    player.handle_lms_event(playing(100, "x"));
    assert_eq!(player.track_state.current_track_id, Some(track(2)));
    assert_eq!(player.track_state.current_play_request_id, 8);
}

#[test]
fn foreign_tracks_and_stops_are_ignored() {
    let mut player = player();
    let rx = listen(&mut player);
    player.handle_lms_event(playing(100, "x"));
    player.handle_lms_event(paused(100, "x"));
    player.handle_lms_event(LMSEvent::Stopped);
    assert_eq!(player.track_state.current_track_id, None);
    assert_eq!(player.track_state.current_play_id, "");
    drop(player);
    assert_eq!(heard(rx), vec![]);
}

#[test]
fn the_kind_of_an_identifier_is_told() {
    let mut player = player();
    let rx = listen(&mut player);
    let episode = SpotifyId { id: 3, audio_type: SpotifyAudioType::Podcast };
    let other = SpotifyId { id: 4, audio_type: SpotifyAudioType::NonPlayable };
    player.handle_command(load(episode, 1, false));
    player.handle_command(load(other, 2, false));
    drop(player);
    let kinds: Vec<_> = rx
        .wait()
        .map(|event| match event.unwrap() {
            PlayerEvent::Loading { track_id, .. } => track_id.audio_type,
            _ => panic!("not loading"),
        })
        .collect();
    assert_eq!(
        kinds,
        vec![
            librespot::core::spotify_id::SpotifyAudioType::Podcast,
            librespot::core::spotify_id::SpotifyAudioType::NonPlayable,
        ]
    );
}

#[test]
fn whoever_has_gone_is_forgotten() {
    let mut player = player();
    let first = listen(&mut player);
    let second = listen(&mut player);
    let third = listen(&mut player);
    let event =
        PlaybackEvent::Loading { play_request_id: 1, track_id: track(2), position_ms: 3 };
    player.send_event(event);
    assert_eq!(player.event_senders.len(), 3);
    drop(second);
    player.send_event(event);
    assert_eq!(player.event_senders.len(), 2);
    drop(player);
    assert_eq!(heard(first), vec![("loading", 1, 2, 3, 0), ("loading", 1, 2, 3, 0)]);
    assert_eq!(heard(third).len(), 2);
}

#[test]
fn neighbours_that_have_gone_are_forgotten_at_once() {
    let mut player = player();
    let receivers: Vec<_> = (0..4).map(|_| listen(&mut player)).collect();
    let mut receivers = receivers.into_iter();
    let first = receivers.next().unwrap();
    drop(receivers.next());
    drop(receivers.next());
    let last = receivers.next().unwrap();
    player.send_event(PlaybackEvent::Paused {
        play_request_id: 1,
        track_id: track(2),
        position_ms: 3,
        duration_ms: 4,
    });
    assert_eq!(player.event_senders.len(), 2);
    drop(player);
    assert_eq!(heard(first), vec![("paused", 1, 2, 3, 4)]);
    assert_eq!(heard(last), vec![("paused", 1, 2, 3, 4)]);
}

#[test]
fn nobody_is_left_once_all_have_gone() {
    let mut player = player();
    drop(listen(&mut player));
    drop(listen(&mut player));
    player.handle_command(load(track(1), 7, false));
    assert!(player.event_senders.is_empty());
    assert_eq!(player.track_state.load_track_id, Some(track(1)));
}

#[test]
fn listeners_are_looked_after_only_when_they_are_told_something() {
    let mut player = player();
    player.handle_command(load(track(1), 7, false));
    player.handle_lms_event(playing(0, "x"));
    drop(listen(&mut player));
    player.handle_lms_event(LMSEvent::Stopped);
    player.handle_lms_event(playing(0, "y"));
    player.handle_command(load(track(1), 8, false));
    player.handle_command(PlayerCommand::Preload { track_id: track(2) });
    player.handle_command(PlayerCommand::SetSinkEventCallback);
    player.handle_command(PlayerCommand::EmitVolumeSetEvent(9));
    player.handle_command(PlayerCommand::Pause);
    player.handle_command(PlayerCommand::Stop);
    player.handle_command(PlayerCommand::Seek(4));
    assert_eq!(player.event_senders.len(), 1);
    player.handle_lms_event(playing(1, "x"));
    assert!(player.event_senders.is_empty());
}

#[test]
fn a_new_listener_comes_last() {
    let mut player = player();
    let first = listen(&mut player);
    player.handle_command(load(track(1), 7, false));
    let second = listen(&mut player);
    player.settle(0, false);
    player.handle_command(load(track(2), 8, false));
    drop(player);
    assert_eq!(heard(first), vec![("loading", 7, 1, 5, 0)]);
    assert_eq!(heard(second), vec![("loading", 8, 2, 5, 0)]);
}

#[test]
fn pause_and_stop_agree_and_so_do_seeks() {
    let sent = |cmd: PlayerCommand| {
        let mut player = player();
        let rx = listen(&mut player);
        let request = player.handle_command(cmd).unwrap();
        assert_eq!(player.track_state.load_track_id, None);
        assert_eq!(player.track_state.current_track_id, None);
        assert_eq!(player.event_senders.len(), 1);
        drop(player);
        assert_eq!(heard(rx), vec![]);
        request.body
    };
    assert_eq!(sent(PlayerCommand::Pause), sent(PlayerCommand::Stop));
    assert_eq!(sent(PlayerCommand::Seek(0)), sent(PlayerCommand::Seek(u32::MAX)));
}

#[test]
fn settling_keeps_or_removes_one_channel() {
    let mut player = player();
    let _first = listen(&mut player);
    let _second = listen(&mut player);
    assert_eq!(player.settle(0, true), 1);
    assert_eq!(player.event_senders.len(), 2);
    assert_eq!(player.settle(1, false), 1);
    assert_eq!(player.event_senders.len(), 1);
}

fn next(step: PollStep) -> (PollRound, Effect) {
    match step {
        PollStep::Next { round, effect } => (round, effect),
        _ => panic!("no next source"),
    }
}

#[test]
fn an_idle_round_waits() {
    let mut player = player();
    let input = PollInput::Commands(Polled::NotReady);
    let (round, effect) = next(player.poll(PollRound::Commands, input));
    assert_eq!(round, PollRound::Pinger { progress: false });
    assert!(matches!(effect, Effect::Nothing));
    let (round, effect) = next(player.poll(round, PollInput::Pinger(false)));
    assert_eq!(round, PollRound::LmsEvents { progress: false });
    assert!(matches!(effect, Effect::Nothing));
    let step = player.poll(round, PollInput::LmsEvents(Polled::Failed));
    assert!(matches!(step, PollStep::NotReady));
}

#[test]
fn a_round_with_a_command_starts_over() {
    let mut player = player();
    let input = PollInput::Commands(Polled::Item(PlayerCommand::Play));
    assert!(player.is_postable(&input));
    let (round, effect) = next(player.poll(PollRound::Commands, input));
    assert_eq!(round, PollRound::Pinger { progress: true });
    match effect {
        Effect::Post(request) => {
            assert_eq!(Some(request.body), posted("[\"spottyconnect\",\"start\"]"))
        }
        _ => panic!("nothing posted"),
    }
    let (round, _) = next(player.poll(round, PollInput::Pinger(false)));
    let step = player.poll(round, PollInput::LmsEvents(Polled::NotReady));
    assert_eq!(next(step).0, PollRound::Commands);
}

#[test]
fn a_round_with_a_report_starts_over() {
    let mut player = player();
    player.handle_command(load(track(1), 7, true));
    let round = PollRound::LmsEvents { progress: false };
    let step = player.poll(round, PollInput::LmsEvents(Polled::Item(playing(1, "x"))));
    assert_eq!(next(step).0, PollRound::Commands);
    assert_eq!(player.track_state.current_track_id, Some(track(1)));
}

#[test]
fn a_load_and_its_report_are_told_in_one_go() {
    let id = librespot::core::spotify_id::SpotifyId::from_base62("4uLU6hMCjMI75M1A2tKUQC").unwrap();
    let mut player = player();
    let rx = listen(&mut player);
    let cmd = PlayerCommand::Load {
        track_id: track(id.id),
        play_request_id: 7,
        play: false,
        position_ms: 0,
    };
    let input = PollInput::Commands(Polled::Item(cmd));
    let (round, effect) = next(player.poll(PollRound::Commands, input));
    assert!(matches!(effect, Effect::Nothing));
    let (round, _) = next(player.poll(round, PollInput::Pinger(false)));
    let input = PollInput::LmsEvents(Polled::Item(playing(1500, "a")));
    let (round, _) = next(player.poll(round, input));
    let (round, _) = next(player.poll(round, PollInput::Commands(Polled::NotReady)));
    let (round, _) = next(player.poll(round, PollInput::Pinger(false)));
    let step = player.poll(round, PollInput::LmsEvents(Polled::NotReady));
    assert!(matches!(step, PollStep::NotReady));
    assert_eq!(player.event_senders.len(), 1);
    drop(player);
    assert_eq!(heard(rx), vec![("loading", 7, id.id, 0, 0), ("playing", 7, id.id, 1500, 0)]);
}

#[test]
fn the_pinger_asks_for_the_state() {
    let mut player = player();
    let round = PollRound::Pinger { progress: false };
    let (round, effect) = next(player.poll(round, PollInput::Pinger(true)));
    assert_eq!(round, PollRound::LmsEvents { progress: true });
    match effect {
        Effect::Ping { query, reset_seconds } => {
            assert_eq!(reset_seconds, PING_SECONDS);
            assert_eq!(PING_SECONDS, 1);
            assert!(query.unwrap().body.contains("tags:gABbehldiqtyrSuoKLNu"));
        }
        _ => panic!("nothing asked"),
    }
}

#[test]
fn closed_channels_end_the_player() {
    let step = player().poll(PollRound::Commands, PollInput::Commands(Polled::Closed));
    assert!(matches!(step, PollStep::Finished));
    let round = PollRound::LmsEvents { progress: true };
    let step = player().poll(round, PollInput::LmsEvents(Polled::Closed));
    assert!(matches!(step, PollStep::Finished));
}

#[test]
fn a_bad_address_stands_in_the_way_of_requests_only() {
    let bad = || LMS::new(Some(String::new()), Some("aa".to_string()), None);
    let internal = Player::new(bad()).1;
    assert!(!internal.is_postable(&PollInput::Commands(Polled::Item(PlayerCommand::Play))));
    assert!(!internal.is_postable(&PollInput::Commands(Polled::Item(load(track(1), 1, true)))));
    assert!(!internal.is_postable(&PollInput::Pinger(true)));
    assert!(internal.is_postable(&PollInput::Pinger(false)));
    assert!(internal.is_postable(&PollInput::Commands(Polled::Item(load(track(1), 1, false)))));
    assert!(internal.is_postable(&PollInput::LmsEvents(Polled::Item(LMSEvent::Stopped))));
    let unconfigured = Player::new(LMS::new(Some(String::new()), None, None)).1;
    assert!(unconfigured.is_postable(&PollInput::Commands(Polled::Item(PlayerCommand::Play))));
    assert!(!unconfigured.is_postable(&PollInput::Pinger(true)));
}
