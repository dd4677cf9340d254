use digitalis::client::{clock_text, is_due, poll_timeout, Action, App, Highlight, Key, Panel};
use digitalis::playback::{LoadOutcome, PlaybackState};
use digitalis::{Library, Track};

fn names(list: &[&str]) -> Vec<String> {
    list.iter().map(|s| s.to_string()).collect()
}

fn track(title: &str) -> Track {
    Track {
        path: format!("Can/Tago Mago/{}.flac", title),
        title: title.to_string(),
        artist: "Can".to_string(),
        album: "Tago Mago".to_string(),
    }
}

fn loaded_app() -> App {
    let mut app = App::new("127.0.0.1:3000".to_string());
    app.artists = names(&["AC/DC", "Can", "Neu!"]);
    app.albums = names(&["Ege Bamyasi", "Tago Mago"]);
    app.tracks = vec![track("Aumgn"), track("Halleluhwah"), track("Mushroom")];
    app.loaded(None);
    app
}

#[test]
fn a_new_client_is_loading_with_nothing_selected() {
    let app = App::new("127.0.0.1:3000".to_string());
    assert_eq!(app.server, "127.0.0.1:3000");
    assert!(app.library.is_none());
    assert!(!app.playback_status.playing);
    assert_eq!(app.playback_status.position_ms, 0);
    assert!(app.artists.is_empty() && app.albums.is_empty() && app.tracks.is_empty());
    assert_eq!((app.selected_artist, app.selected_album, app.selected_track), (0, 0, 0));
    assert_eq!(app.active_panel, Panel::Artists);
    assert!(app.loading);
    assert!(app.error_message.is_none());
}

#[test]
fn the_focus_moves_between_the_panels_and_stops_at_the_ends() {
    let mut app = loaded_app();
    app.prev_panel();
    assert_eq!(app.active_panel, Panel::Artists);
    app.next_panel();
    assert_eq!(app.active_panel, Panel::Albums);
    app.next_panel();
    assert_eq!(app.active_panel, Panel::Tracks);
    app.next_panel();
    assert_eq!(app.active_panel, Panel::Tracks);
    app.prev_panel();
    assert_eq!(app.active_panel, Panel::Albums);
    app.prev_panel();
    assert_eq!(app.active_panel, Panel::Artists);
}

#[test]
fn the_selection_wraps_downwards_and_stops_upwards() {
    let mut app = loaded_app();
    app.next_item();
    assert_eq!(app.selected_artist, 1);
    app.next_item();
    assert_eq!(app.selected_artist, 2);
    app.next_item();
    assert_eq!(app.selected_artist, 0);
    app.prev_item();
    assert_eq!(app.selected_artist, 0);
    app.selected_artist = 2;
    app.prev_item();
    assert_eq!(app.selected_artist, 1);
    assert_eq!((app.selected_album, app.selected_track), (0, 0));

    app.active_panel = Panel::Albums;
    app.next_item();
    app.next_item();
    assert_eq!(app.selected_album, 0);
    app.active_panel = Panel::Tracks;
    app.next_item();
    assert_eq!(app.selected_track, 1);
    app.prev_item();
    assert_eq!(app.selected_track, 0);
}

#[test]
fn a_selection_beyond_the_list_comes_back_into_it() {
    let mut app = loaded_app();
    app.selected_artist = 7;
    app.next_item();
    assert_eq!(app.selected_artist, (7 + 1) % 3);
    app.selected_artist = usize::MAX;
    app.next_item();
    assert_eq!(app.selected_artist, ((usize::MAX % 3) + 1) % 3);
    app.artists = names(&["only"]);
    app.selected_artist = 5;
    app.next_item();
    assert_eq!(app.selected_artist, 0);
}

#[test]
fn an_empty_list_keeps_its_selection() {
    let mut app = App::new("s".to_string());
    app.selected_artist = 4;
    app.next_item();
    assert_eq!(app.selected_artist, 4);
    app.prev_item();
    assert_eq!(app.selected_artist, 4);
}

#[test]
fn keys_move_the_focus_and_the_selection() {
    let mut app = loaded_app();
    assert!(matches!(app.on_key(Key::Tab, true), Action::Nothing));
    assert_eq!(app.active_panel, Panel::Albums);
    assert!(matches!(app.on_key(Key::Right, true), Action::Nothing));
    assert_eq!(app.active_panel, Panel::Tracks);
    assert!(matches!(app.on_key(Key::Down, true), Action::Nothing));
    assert_eq!(app.selected_track, 1);
    assert!(matches!(app.on_key(Key::Up, true), Action::Nothing));
    assert_eq!(app.selected_track, 0);
    assert!(matches!(app.on_key(Key::Left, true), Action::Nothing));
    assert_eq!(app.active_panel, Panel::Albums);
    assert!(matches!(app.on_key(Key::Other, true), Action::Nothing));
    assert!(matches!(app.on_key(Key::Char('x'), true), Action::Nothing));
}

#[test]
fn a_key_that_did_not_go_down_does_nothing() {
    let mut app = loaded_app();
    assert!(matches!(app.on_key(Key::Tab, false), Action::Nothing));
    assert!(matches!(app.on_key(Key::Char('q'), false), Action::Nothing));
    assert!(matches!(app.on_key(Key::Enter, false), Action::Nothing));
    assert_eq!(app.active_panel, Panel::Artists);
}

#[test]
fn keys_ask_for_the_transport_actions() {
    let mut app = loaded_app();
    assert!(matches!(app.on_key(Key::Char('q'), true), Action::Quit));
    assert!(matches!(app.on_key(Key::Char('Q'), true), Action::Quit));
    assert!(matches!(app.on_key(Key::Char('s'), true), Action::Stop));
    assert!(matches!(app.on_key(Key::Char('S'), true), Action::Stop));
    assert!(matches!(app.on_key(Key::Char('+'), true), Action::RaiseVolume));
    assert!(matches!(app.on_key(Key::Char('='), true), Action::RaiseVolume));
    assert!(matches!(app.on_key(Key::Char('-'), true), Action::LowerVolume));
    assert!(matches!(app.on_key(Key::Char(' '), true), Action::Resume));
    let mut state = PlaybackState::new(true);
    state.play(None, LoadOutcome::Ready, 0);
    app.status_fetched(Ok(state.status(0)));
    assert!(matches!(app.on_key(Key::Char(' '), true), Action::Pause));
}

#[test]
fn enter_fetches_or_plays_what_is_selected() {
    let mut app = loaded_app();
    match app.on_key(Key::Enter, true) {
        Action::FetchAlbums(url) => {
            assert_eq!(url, "127.0.0.1:3000/api/library/artists/AC%2FDC/albums")
        }
        other => panic!("{:?}", other),
    }
    app.selected_artist = 1;
    app.selected_album = 1;
    app.active_panel = Panel::Albums;
    match app.on_key(Key::Enter, true) {
        Action::FetchTracks(url) => {
            assert_eq!(url, "127.0.0.1:3000/api/library/artists/Can/Tago%20Mago")
        }
        other => panic!("{:?}", other),
    }
    app.active_panel = Panel::Tracks;
    app.selected_track = 2;
    match app.on_key(Key::Enter, true) {
        Action::Play(request) => assert_eq!(request.path, "Can/Tago Mago/Mushroom.flac"),
        other => panic!("{:?}", other),
    }
}

#[test]
fn enter_does_nothing_where_nothing_is_selected() {
    let mut app = loaded_app();
    app.selected_artist = 3;
    assert!(matches!(app.on_key(Key::Enter, true), Action::Nothing));
    assert!(matches!(app.fetch_tracks(), Action::Nothing));
    app.selected_artist = 0;
    app.selected_album = 2;
    app.active_panel = Panel::Albums;
    assert!(matches!(app.on_key(Key::Enter, true), Action::Nothing));
    app.active_panel = Panel::Tracks;
    app.selected_track = 3;
    assert!(matches!(app.on_key(Key::Enter, true), Action::Nothing));
}

#[test]
fn the_lists_are_fetched_one_after_the_other() {
    let mut app = App::new("host".to_string());
    app.library_fetched(Library { tracks: vec![track("Aumgn")] });
    assert_eq!(app.library.as_ref().map(|l| l.tracks.len()), Some(1));
    match app.artists_fetched(names(&["Can"])) {
        Action::FetchAlbums(url) => assert_eq!(url, "host/api/library/artists/Can/albums"),
        other => panic!("{:?}", other),
    }
    assert_eq!(app.artists, names(&["Can"]));
    match app.albums_fetched(names(&["Tago Mago"])) {
        Action::FetchTracks(url) => assert_eq!(url, "host/api/library/artists/Can/Tago%20Mago"),
        other => panic!("{:?}", other),
    }
    app.tracks_fetched(vec![track("Aumgn"), track("Halleluhwah")]);
    assert_eq!(app.tracks.len(), 2);
    app.loaded(None);
    assert!(!app.loading);
    assert!(app.error_message.is_none());
}

#[test]
fn empty_lists_end_the_fetching() {
    let mut app = App::new("host".to_string());
    assert!(matches!(app.artists_fetched(Vec::new()), Action::Nothing));
    app.artists = names(&["Can"]);
    assert!(matches!(app.albums_fetched(Vec::new()), Action::Nothing));
    app.selected_artist = 1;
    assert!(matches!(app.artists_fetched(names(&["Can"])), Action::Nothing));
}

#[test]
fn failures_are_shown_and_a_status_clears_them() {
    let mut app = App::new("host".to_string());
    app.loaded(Some("connection refused".to_string()));
    assert!(!app.loading);
    assert_eq!(app.error_message.as_deref(), Some("Failed to load library: connection refused"));
    app.acted(None);
    assert_eq!(app.error_message.as_deref(), Some("Failed to load library: connection refused"));
    app.acted(Some("timed out".to_string()));
    assert_eq!(app.error_message.as_deref(), Some("Error: timed out"));
    app.status_fetched(Err("no route".to_string()));
    assert_eq!(app.error_message.as_deref(), Some("Connection error: no route"));
    assert!(!app.playback_status.playing);
    let mut state = PlaybackState::new(true);
    state.play(Some(track("Aumgn")), LoadOutcome::Ready, 0);
    app.status_fetched(Ok(state.status(1_500_000_000)));
    assert!(app.error_message.is_none());
    assert!(app.playback_status.playing);
    assert_eq!(app.playback_status.position_ms, 1_500);
}

#[test]
fn the_selected_row_stands_out() {
    let mut app = loaded_app();
    app.selected_album = 1;
    assert_eq!(app.highlight(Panel::Artists, 0), Highlight::Focused);
    assert_eq!(app.highlight(Panel::Artists, 1), Highlight::Plain);
    assert_eq!(app.highlight(Panel::Albums, 1), Highlight::Selected);
    assert_eq!(app.highlight(Panel::Albums, 0), Highlight::Plain);
    assert_eq!(app.highlight(Panel::Tracks, 0), Highlight::Selected);
    app.next_panel();
    assert_eq!(app.highlight(Panel::Artists, 0), Highlight::Selected);
    assert_eq!(app.highlight(Panel::Albums, 1), Highlight::Focused);
}

#[test]
fn the_clock_shows_minutes_and_seconds() {
    assert_eq!(clock_text(0), "00:00");
    assert_eq!(clock_text(999), "00:00");
    assert_eq!(clock_text(9_000), "00:09");
    assert_eq!(clock_text(59_999), "00:59");
    assert_eq!(clock_text(60_000), "01:00");
    assert_eq!(clock_text(754_321), "12:34");
    assert_eq!(clock_text(6_000_000), "100:00");
    assert_eq!(clock_text(u64::MAX), "307445734561825:51");
    for ms in [1_u64, 61_001, 3_599_999, 3_600_000, 86_400_000, 123_456_789_012] {
        let seconds = ms / 1000;
        assert_eq!(clock_text(ms), format!("{:02}:{:02}", seconds / 60, seconds % 60));
    }
}

#[test]
fn the_loop_waits_for_what_is_left_of_the_tick() {
    assert_eq!(poll_timeout(250, 0), 250);
    assert_eq!(poll_timeout(250, 100), 150);
    assert_eq!(poll_timeout(250, 250), 0);
    assert_eq!(poll_timeout(250, 900), 0);
    assert!(!is_due(999, 1_000));
    assert!(is_due(1_000, 1_000));
    assert!(is_due(1_001, 1_000));
}
