use digitalis::playback::{
    AudioCommand, LoadOutcome, PlaybackState, PlaybackStatus, Reply, ResourceError, SinkAction,
};
use digitalis::track::Track;
use digitalis::volume::Volume;

const MS: u64 = 1_000_000;

fn track(path: &str) -> Track {
    Track {
        path: path.to_string(),
        title: "a".to_string(),
        artist: "Artist".to_string(),
        album: "Album".to_string(),
    }
}

fn status_at(state: &mut PlaybackState, now: u64) -> PlaybackStatus {
    match state.handle_command(AudioCommand::GetStatus, LoadOutcome::Ready, now).reply {
        Reply::Status(status) => status,
        other => panic!("a status query was answered with {:?}", other),
    }
}

#[test]
fn a_new_state_is_idle_at_full_volume() {
    let mut state = PlaybackState::new(true);
    assert!(!state.is_playing());
    assert_eq!(state.position(123 * MS), 0);
    let status = status_at(&mut state, 5 * MS);
    assert!(!status.playing);
    assert!(status.track.is_none());
    assert_eq!(status.position_ms, 0);
    assert_eq!(status.duration_ms, None);
    assert_eq!(f32::from_bits(status.volume.bits()), 1.0);
}

#[test]
fn the_default_status_is_not_playing() {
    let status = PlaybackStatus::default();
    assert!(!status.playing);
    assert!(status.track.is_none());
    assert_eq!(status.position_ms, 0);
    assert_eq!(status.duration_ms, None);
    assert_eq!(status.volume.bits(), 1.0f32.to_bits());
}

#[test]
fn play_pause_resume_stop_scenario() {
    let t0: u64 = 10_000 * MS;
    let mut state = PlaybackState::new(true);

    let step = state.handle_command(
        AudioCommand::Play { path: "/music/a.mp3".to_string(), track: Some(track("a.mp3")) },
        LoadOutcome::Ready,
        t0,
    );
    assert_eq!(step.action, SinkAction::Restart);
    assert!(matches!(step.reply, Reply::Done));
    let status = status_at(&mut state, t0);
    assert!(status.playing);
    assert_eq!(status.track.as_ref().map(|t| t.path.as_str()), Some("a.mp3"));
    assert_eq!(status.position_ms, 0);

    let status = status_at(&mut state, t0 + 500 * MS);
    assert_eq!(status.position_ms, 500);

    let step = state.handle_command(AudioCommand::Pause, LoadOutcome::Ready, t0 + 500 * MS);
    assert_eq!(step.action, SinkAction::Pause);
    let status = status_at(&mut state, t0 + 500 * MS);
    assert!(!status.playing);
    assert_eq!(status.position_ms, 500);
    let status = status_at(&mut state, t0 + 900 * MS);
    assert_eq!(status.position_ms, 500);
    assert_eq!(status.track.as_ref().map(|t| t.path.as_str()), Some("a.mp3"));

    let step = state.handle_command(AudioCommand::Resume, LoadOutcome::Ready, t0 + 1_000 * MS);
    assert_eq!(step.action, SinkAction::Play);
    let status = status_at(&mut state, t0 + 1_200 * MS);
    assert!(status.playing);
    assert_eq!(status.position_ms, 700);

    let step = state.handle_command(AudioCommand::Stop, LoadOutcome::Ready, t0 + 1_300 * MS);
    assert_eq!(step.action, SinkAction::Stop);
    let status = status_at(&mut state, t0 + 2_000 * MS);
    assert!(!status.playing);
    assert!(status.track.is_none());
    assert_eq!(status.position_ms, 0);
}

#[test]
fn position_is_whole_milliseconds_of_nanoseconds() {
    let mut state = PlaybackState::new(true);
    state.play(None, LoadOutcome::Ready, 1_000);
    assert_eq!(state.position(1_000 + 999_999), 0);
    assert_eq!(state.position(1_000 + 1_000_000), 1);
    assert_eq!(state.position(1_000 + 2_500_000), 2);
    state.pause(1_000 + 2_500_000);
    state.resume(9_000_000);
    // 2.5 ms before the pause and 0.6 ms after the resume make 3.1 ms
    assert_eq!(state.position(9_600_000), 3);
}

#[test]
fn pause_then_resume_keeps_the_position() {
    let mut state = PlaybackState::new(true);
    state.play(Some(track("a.mp3")), LoadOutcome::Ready, 7);
    let before = state.position(1_234_567_890);
    state.pause(1_234_567_890);
    state.seek(5);
    state.set_volume(0.5f32.to_bits());
    state.pause(2_000_000_000);
    state.resume(9_999_999_999);
    assert_eq!(state.position(9_999_999_999), before);
    assert_eq!(before, 1_234);
}

#[test]
fn pause_when_not_playing_changes_nothing() {
    let mut state = PlaybackState::new(true);
    let step = state.pause(5 * MS);
    assert_eq!(step.action, SinkAction::Nothing);
    assert!(matches!(step.reply, Reply::Ignored));
    assert!(!state.is_playing());
    assert_eq!(state.position(9 * MS), 0);
}

#[test]
fn resume_restarts_the_clock_from_the_offset() {
    let mut state = PlaybackState::new(true);
    state.play(None, LoadOutcome::Ready, 0);
    state.pause(300 * MS);
    state.resume(1_000 * MS);
    assert!(state.is_playing());
    assert_eq!(state.position(1_100 * MS), 400);
    // a second resume while playing takes the offset as the base again
    state.resume(2_000 * MS);
    assert_eq!(state.position(2_000 * MS), 300);
}

#[test]
fn without_a_sink_nothing_starts() {
    let mut state = PlaybackState::new(false);
    let step = state.play(Some(track("a.mp3")), LoadOutcome::Ready, 0);
    assert_eq!(step.action, SinkAction::Nothing);
    assert!(matches!(step.reply, Reply::Ignored));
    let step = state.resume(10 * MS);
    assert_eq!(step.action, SinkAction::Nothing);
    assert!(matches!(step.reply, Reply::Ignored));
    assert!(!state.is_playing());
    let status = state.status(50 * MS);
    assert!(status.track.is_none());
    assert_eq!(status.position_ms, 0);
    let step = state.stop();
    assert_eq!(step.action, SinkAction::Nothing);
    assert!(matches!(step.reply, Reply::Done));
    let step = state.set_volume(0.25f32.to_bits());
    assert_eq!(step.action, SinkAction::Nothing);
    assert_eq!(f32::from_bits(state.status(0).volume.bits()), 0.25);
}

#[test]
fn stop_resets_position_and_track() {
    let mut playing = PlaybackState::new(true);
    playing.play(Some(track("a.mp3")), LoadOutcome::Ready, 0);
    playing.stop();
    let mut paused = PlaybackState::new(true);
    paused.play(Some(track("a.mp3")), LoadOutcome::Ready, 0);
    paused.pause(700 * MS);
    paused.stop();
    let mut idle = PlaybackState::new(true);
    idle.stop();
    for state in [playing, paused, idle] {
        let status = state.status(5_000 * MS);
        assert!(!status.playing);
        assert!(status.track.is_none());
        assert_eq!(status.position_ms, 0);
    }
}

#[test]
fn a_failed_play_leaves_the_state_as_it_was() {
    let mut state = PlaybackState::new(true);
    state.play(Some(track("a.mp3")), LoadOutcome::Ready, 0);
    let step = state.handle_command(
        AudioCommand::Play { path: "/music/missing.mp3".to_string(), track: Some(track("missing.mp3")) },
        LoadOutcome::OpenFailed,
        400 * MS,
    );
    assert_eq!(step.action, SinkAction::Nothing);
    assert!(matches!(step.reply, Reply::Failed(ResourceError::Open)));
    let status = state.status(400 * MS);
    assert!(status.playing);
    assert_eq!(status.position_ms, 400);
    assert_eq!(status.track.map(|t| t.path), Some("a.mp3".to_string()));

    let step = state.play(Some(track("noise.txt")), LoadOutcome::DecodeFailed, 500 * MS);
    assert!(matches!(step.reply, Reply::Failed(ResourceError::Decode)));
    assert_eq!(state.position(500 * MS), 500);
}

#[test]
fn a_failed_play_on_an_idle_state_claims_nothing() {
    let mut state = PlaybackState::new(true);
    let step = state.play(Some(track("missing.mp3")), LoadOutcome::OpenFailed, 0);
    assert!(matches!(step.reply, Reply::Failed(ResourceError::Open)));
    let status = state.status(100 * MS);
    assert!(!status.playing);
    assert!(status.track.is_none());
    assert_eq!(status.position_ms, 0);
}

#[test]
fn play_replaces_what_was_playing() {
    let mut state = PlaybackState::new(true);
    state.play(Some(track("a.mp3")), LoadOutcome::Ready, 0);
    state.pause(900 * MS);
    let step = state.play(Some(track("b.mp3")), LoadOutcome::Ready, 1_000 * MS);
    assert_eq!(step.action, SinkAction::Restart);
    let status = state.status(1_050 * MS);
    assert!(status.playing);
    assert_eq!(status.position_ms, 50);
    assert_eq!(status.track.map(|t| t.path), Some("b.mp3".to_string()));
}

#[test]
fn seek_is_not_supported_and_moves_nothing() {
    let mut state = PlaybackState::new(true);
    state.play(None, LoadOutcome::Ready, 0);
    let step = state.handle_command(AudioCommand::Seek(60_000), LoadOutcome::Ready, 100 * MS);
    assert_eq!(step.action, SinkAction::Nothing);
    assert!(matches!(step.reply, Reply::NotSupported));
    assert!(state.is_playing());
    assert_eq!(state.position(100 * MS), 100);
}

#[test]
fn status_twice_differs_in_position_only() {
    let mut state = PlaybackState::new(true);
    state.play(Some(track("a.mp3")), LoadOutcome::Ready, 0);
    state.set_volume(0.5f32.to_bits());
    let first = status_at(&mut state, 100 * MS);
    let second = status_at(&mut state, 250 * MS);
    assert_eq!(first.playing, second.playing);
    assert_eq!(first.track.map(|t| t.path), second.track.map(|t| t.path));
    assert_eq!(first.duration_ms, second.duration_ms);
    assert_eq!(first.volume.bits(), second.volume.bits());
    assert_eq!(first.position_ms, 100);
    assert_eq!(second.position_ms, 250);
    state.pause(300 * MS);
    let third = status_at(&mut state, 400 * MS);
    let fourth = status_at(&mut state, 800 * MS);
    assert_eq!(third.position_ms, 300);
    assert_eq!(fourth.position_ms, 300);
}

#[test]
fn a_clock_that_reads_less_than_the_start_counts_as_no_time() {
    let mut state = PlaybackState::new(true);
    state.play(None, LoadOutcome::Ready, 500 * MS);
    assert_eq!(state.position(100 * MS), 0);
    state.pause(100 * MS);
    assert_eq!(state.position(900 * MS), 0);
}

#[test]
fn the_position_stops_at_the_largest_clock_value() {
    let mut state = PlaybackState::new(true);
    state.play(None, LoadOutcome::Ready, 0);
    state.pause(u64::MAX - 5);
    state.resume(0);
    assert_eq!(state.position(1_000), u64::MAX / 1_000_000);
    state.pause(1_000);
    assert_eq!(state.position(0), u64::MAX / 1_000_000);
}

#[test]
fn set_volume_clamps_to_the_unit_interval() {
    let cases: [(f32, f32); 9] = [
        (0.0, 0.0),
        (1.0, 1.0),
        (0.5, 0.5),
        (1.5, 1.0),
        (-0.25, 0.0),
        (f32::INFINITY, 1.0),
        (f32::NEG_INFINITY, 0.0),
        (f32::MAX, 1.0),
        (f32::MIN_POSITIVE, f32::MIN_POSITIVE),
    ];
    for (asked, stored) in cases {
        let mut state = PlaybackState::new(true);
        let step = state.handle_command(
            AudioCommand::SetVolume(asked.to_bits()),
            LoadOutcome::Ready,
            0,
        );
        assert_eq!(step.action, SinkAction::SetVolume(stored.to_bits()));
        assert!(matches!(step.reply, Reply::Done));
        assert_eq!(state.status(0).volume.bits(), stored.to_bits());
        assert_eq!(state.status(0).volume.bits(), asked.clamp(0.0, 1.0).to_bits());
    }
}

#[test]
fn set_volume_ignores_what_is_not_a_number() {
    let mut state = PlaybackState::new(true);
    state.set_volume(0.375f32.to_bits());
    for bits in [f32::NAN.to_bits(), 0x7F80_0001, 0xFFC0_0000, 0xFFFF_FFFF] {
        let step = state.set_volume(bits);
        assert_eq!(step.action, SinkAction::Nothing);
        assert!(matches!(step.reply, Reply::Ignored));
        assert_eq!(f32::from_bits(state.status(0).volume.bits()), 0.375);
    }
}

#[test]
fn clamp_agrees_with_the_numbers_on_a_sweep_of_patterns() {
    let mut bits: u32 = 0;
    loop {
        let asked = f32::from_bits(bits);
        match Volume::clamp(bits) {
            Some(volume) => {
                assert!(!asked.is_nan());
                assert_eq!(volume.bits(), asked.clamp(0.0, 1.0).to_bits());
                let stored = f32::from_bits(volume.bits());
                assert!((0.0..=1.0).contains(&stored));
            }
            None => assert!(asked.is_nan()),
        }
        match bits.checked_add(65_521) {
            Some(next) => bits = next,
            None => break,
        }
    }
}

#[test]
fn clamp_at_the_edges_of_the_unit_interval() {
    assert_eq!(Volume::clamp(0x3F80_0000).map(|v| v.bits()), Some(0x3F80_0000));
    assert_eq!(Volume::clamp(0x3F80_0001).map(|v| v.bits()), Some(0x3F80_0000));
    assert_eq!(Volume::clamp(0x3F7F_FFFF).map(|v| v.bits()), Some(0x3F7F_FFFF));
    assert_eq!(Volume::clamp(0x0000_0001).map(|v| v.bits()), Some(0x0000_0001));
    assert_eq!(Volume::clamp(0x8000_0000).map(|v| v.bits()), Some(0x8000_0000));
    assert_eq!(Volume::clamp(0x8000_0001).map(|v| v.bits()), Some(0));
    assert_eq!(Volume::clamp(0x7F80_0000).map(|v| v.bits()), Some(0x3F80_0000));
    assert_eq!(Volume::clamp(0xFF80_0000).map(|v| v.bits()), Some(0));
    assert!(Volume::clamp(0x7F80_0001).is_none());
    assert!(Volume::clamp(0xFF80_0001).is_none());
    assert_eq!(Volume::full().bits(), 1.0f32.to_bits());
}

#[test]
fn only_a_play_command_names_a_source() {
    let play = AudioCommand::Play { path: "/music/a/b/c.mp3".to_string(), track: None };
    assert_eq!(play.source().map(String::as_str), Some("/music/a/b/c.mp3"));
    for command in [
        AudioCommand::Pause,
        AudioCommand::Resume,
        AudioCommand::Stop,
        AudioCommand::Seek(5),
        AudioCommand::SetVolume(0),
        AudioCommand::GetStatus,
    ] {
        assert!(command.source().is_none());
    }
}

#[test]
fn a_copy_of_a_snapshot_says_the_same() {
    let mut state = PlaybackState::new(true);
    state.play(Some(track("a.mp3")), LoadOutcome::Ready, 0);
    state.set_volume(0.75f32.to_bits());
    let status = state.status(2_000 * MS);
    let copy = status.clone();
    assert_eq!(copy.playing, status.playing);
    assert_eq!(copy.position_ms, 2_000);
    assert_eq!(copy.duration_ms, None);
    assert_eq!(copy.volume.bits(), 0.75f32.to_bits());
    assert_eq!(copy.track.map(|t| (t.path, t.title, t.artist, t.album)), status
        .track
        .map(|t| (t.path, t.title, t.artist, t.album)));
}

#[test]
fn the_queue_holds_thirty_two_commands() {
    assert_eq!(digitalis::playback::QUEUE_CAPACITY, 32);
}
