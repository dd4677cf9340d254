use digitalis::api::{
    command_response, decide_play, requested_file, seek_command, seek_response, status_response,
    volume_command, ApiStatus, PlayDecision,
};
use digitalis::layout::{centered_rect, margin, Rect};
use digitalis::track::path_lies_below;
use digitalis::urls::{albums_url, endpoint, tracks_url};
use digitalis::{
    AudioCommand, Library, PlayRequest, PlaybackState, PlaybackStatus, SeekRequest, Track,
    VolumeRequest,
};

fn track(path: &str, title: &str) -> Track {
    Track {
        path: path.to_string(),
        title: title.to_string(),
        artist: "Artist".to_string(),
        album: "Album".to_string(),
    }
}

fn request(path: &str) -> PlayRequest {
    PlayRequest { path: path.to_string() }
}

#[test]
fn status_codes_are_those_of_http() {
    assert_eq!(ApiStatus::Accepted.code(), 200);
    assert_eq!(ApiStatus::Forbidden.code(), 403);
    assert_eq!(ApiStatus::NotFound.code(), 404);
    assert_eq!(ApiStatus::InternalServerError.code(), 500);
    assert_eq!(ApiStatus::NotImplemented.code(), 501);
}

#[test]
fn the_requested_file_is_taken_from_the_music_root() {
    assert_eq!(requested_file("/music", &request("a/b/c.mp3")), "/music/a/b/c.mp3");
    assert_eq!(requested_file("/music/", &request("a/b/c.mp3")), "/music/a/b/c.mp3");
    assert_eq!(requested_file("/music", &request("../etc/passwd")), "/music/../etc/passwd");
    assert_eq!(requested_file("/music", &request("/etc/passwd")), "/etc/passwd");
    assert_eq!(requested_file("/music", &request("")), "/music/");
    assert_eq!(requested_file("", &request("a")), "a");
    for (root, path) in [("/music", "a/b"), ("/music/", "x"), ("/m", "/abs"), ("/m", ""), ("", "r")] {
        let expected = std::path::Path::new(root).join(path);
        assert_eq!(requested_file(root, &request(path)), expected.to_str().unwrap());
    }
}

#[test]
fn a_missing_file_is_not_found() {
    let library = Library { tracks: vec![track("a/b/c.mp3", "c")] };
    let decision = decide_play(&library, "/music", &request("a/b/c.mp3"), None);
    assert!(matches!(decision, PlayDecision::Reject(ApiStatus::NotFound)));
}

#[test]
fn a_file_outside_the_music_root_is_forbidden() {
    let library = Library { tracks: vec![track("a/b/c.mp3", "c")] };
    for resolved in ["/etc/passwd", "/musical/a/b/c.mp3", "/"] {
        let decision = decide_play(
            &library,
            "/music",
            &request("../etc/passwd"),
            Some(resolved.to_string()),
        );
        assert!(matches!(decision, PlayDecision::Reject(ApiStatus::Forbidden)), "{}", resolved);
    }
    assert!(path_lies_below("/music/a", "/music"));
    assert!(path_lies_below("/music", "/music"));
    assert!(!path_lies_below("/musi", "/music"));
}

#[test]
fn a_file_below_the_music_root_is_sent_to_the_actor_with_its_track() {
    let library = Library {
        tracks: vec![track("a/b/c.mp3", "first"), track("a/b/d.mp3", "d"), track("a/b/c.mp3", "twin")],
    };
    let decision = decide_play(
        &library,
        "/music",
        &request("a/b/c.mp3"),
        Some("/music/a/b/c.mp3".to_string()),
    );
    match decision {
        PlayDecision::Send(AudioCommand::Play { path, track }) => {
            assert_eq!(path, "/music/a/b/c.mp3");
            assert_eq!(track.map(|t| t.title), Some("first".to_string()));
        }
        other => panic!("{:?}", other),
    }
    let decision = decide_play(
        &library,
        "/music",
        &request("a/b/unknown.mp3"),
        Some("/music/a/b/unknown.mp3".to_string()),
    );
    match decision {
        PlayDecision::Send(AudioCommand::Play { path, track }) => {
            assert_eq!(path, "/music/a/b/unknown.mp3");
            assert!(track.is_none());
        }
        other => panic!("{:?}", other),
    }
}

#[test]
fn commands_are_answered_by_their_delivery() {
    assert_eq!(command_response(true), ApiStatus::Accepted);
    assert_eq!(command_response(false), ApiStatus::InternalServerError);
    assert_eq!(seek_response(true), ApiStatus::NotImplemented);
    assert_eq!(seek_response(false), ApiStatus::InternalServerError);
}

#[test]
fn requests_become_commands_as_they_came() {
    assert!(matches!(
        seek_command(&SeekRequest { position_ms: 61_000 }),
        AudioCommand::Seek(61_000)
    ));
    let bits = 7.5f32.to_bits();
    match volume_command(&VolumeRequest { volume: bits }) {
        AudioCommand::SetVolume(sent) => assert_eq!(sent, bits),
        other => panic!("{:?}", other),
    }
}

#[test]
fn a_missing_status_is_that_of_an_idle_player() {
    let status = status_response(None);
    assert!(!status.playing);
    assert!(status.track.is_none());
    assert_eq!(status.position_ms, 0);
    assert_eq!(status.duration_ms, None);
    assert_eq!(f32::from_bits(status.volume.bits()), 1.0);

    let mut state = PlaybackState::new(true);
    state.play(Some(track("a/b/c.mp3", "c")), digitalis::playback::LoadOutcome::Ready, 0);
    let snapshot: PlaybackStatus = state.status(42_000_000);
    let status = status_response(Some(snapshot));
    assert!(status.playing);
    assert_eq!(status.position_ms, 42);
    assert_eq!(status.track.map(|t| t.title), Some("c".to_string()));
}

#[test]
fn addresses_are_percent_encoded_by_segment() {
    let server = "127.0.0.1:3000";
    assert_eq!(endpoint(server, "/api/status"), "127.0.0.1:3000/api/status");
    assert_eq!(
        albums_url(server, "AC/DC"),
        "127.0.0.1:3000/api/library/artists/AC%2FDC/albums"
    );
    assert_eq!(
        albums_url(server, "Plain-Name_1.0~"),
        "127.0.0.1:3000/api/library/artists/Plain-Name_1.0~/albums"
    );
    assert_eq!(
        tracks_url(server, "Björk", "Homogénic (1997)"),
        "127.0.0.1:3000/api/library/artists/Bj%C3%B6rk/Homog%C3%A9nic%20%281997%29"
    );
    assert_eq!(tracks_url("", "", ""), "/api/library/artists//");
    assert_eq!(albums_url("s", "\u{0}\u{7f}%+"), "s/api/library/artists/%00%7F%25%2B/albums");
}

#[test]
fn a_popup_stands_in_the_middle_of_its_area() {
    assert_eq!(margin(60), 20);
    assert_eq!(margin(20), 40);
    assert_eq!(margin(30), 35);
    assert_eq!(margin(100), 0);
    assert_eq!(margin(0), 50);
    assert_eq!(margin(25), 37);
    let screen = Rect { x: 0, y: 0, width: 100, height: 50 };
    assert_eq!(centered_rect(60, 20, screen), Rect { x: 20, y: 20, width: 60, height: 10 });
    let shifted = Rect { x: 10, y: 5, width: 100, height: 50 };
    assert_eq!(centered_rect(60, 20, shifted), Rect { x: 30, y: 25, width: 60, height: 10 });
    assert_eq!(centered_rect(100, 100, screen), screen);
}

fn within(area: Rect, part: Rect) -> bool {
    let (left, top) = (u32::from(area.x), u32::from(area.y));
    let (right, bottom) = (left + u32::from(area.width), top + u32::from(area.height));
    left <= u32::from(part.x)
        && u32::from(part.x) + u32::from(part.width) <= right
        && top <= u32::from(part.y)
        && u32::from(part.y) + u32::from(part.height) <= bottom
}

#[test]
fn a_popup_lies_within_its_area() {
    let areas = [
        Rect { x: 0, y: 0, width: 80, height: 24 },
        Rect { x: 3, y: 7, width: 1, height: 1 },
        Rect { x: 5, y: 5, width: 0, height: 0 },
        Rect { x: 0, y: 0, width: 7, height: 3 },
        Rect { x: 100, y: 200, width: 333, height: 77 },
        Rect { x: 65_000, y: 65_500, width: 500, height: 35 },
        Rect { x: 65_535, y: 0, width: 10, height: 65_535 },
        Rect { x: 0, y: 0, width: 65_535, height: 65_535 },
    ];
    for area in areas {
        for percent_x in [0, 1, 10, 30, 33, 50, 60, 99, 100] {
            for percent_y in [0, 1, 10, 20, 50, 67, 100] {
                let popup = centered_rect(percent_x, percent_y, area);
                assert!(within(area, popup), "{:?} in {:?}", popup, area);
            }
        }
    }
}

#[test]
fn a_popup_takes_its_share_of_a_roomy_area() {
    let screen = Rect { x: 0, y: 0, width: 200, height: 100 };
    assert_eq!(centered_rect(30, 10, screen), Rect { x: 70, y: 45, width: 60, height: 10 });
    assert_eq!(centered_rect(50, 50, screen), Rect { x: 50, y: 25, width: 100, height: 50 });
    assert_eq!(centered_rect(0, 0, screen).width, 0);
    assert_eq!(centered_rect(0, 0, screen).height, 0);
}
