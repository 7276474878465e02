use sync_lyrics::app_state::AppState;
use sync_lyrics::application::LyricsApplication;
use sync_lyrics::application::ViewUpdate;
use sync_lyrics::application::POLL_INTERVAL_MILLIS;
use sync_lyrics::lyrics::LyricsResponse;
use sync_lyrics::shared_state::SharedState;
use sync_lyrics::spotify::spotify_event::SpotifyEvent;
use sync_lyrics::ui::UIEvent;

fn text(s: &str) -> String {
    s.to_string()
}

fn fetching(song: &str, artist: &str) -> AppState {
    AppState::FetchingLyrics { song_name: text(song), artist_name: text(artist) }
}

fn fetched(song: &str, artist: &str, lyrics: &str, cover_art: Option<Vec<u8>>) -> AppState {
    AppState::LyricsFetched {
        song_name: text(song),
        artist_name: text(artist),
        lyrics: text(lyrics),
        cover_art,
    }
}

fn song_changed(song: &str, artist: &str) -> ViewUpdate {
    ViewUpdate::SongChanged { song_name: text(song), artist_name: text(artist) }
}

#[test]
fn window_starts_connecting() {
    let window = LyricsApplication::new();
    assert_eq!(*window.app_state(), AppState::Connecting);
    assert_eq!(POLL_INTERVAL_MILLIS, 50);
}

#[test]
fn window_announces_a_new_song() {
    let mut window = LyricsApplication::new();
    assert_eq!(window.update_ui(fetching("Track A", "Artist A")), song_changed("Track A", "Artist A"));
    assert_eq!(*window.app_state(), fetching("Track A", "Artist A"));
}

#[test]
fn window_announces_a_song_once() {
    let mut window = LyricsApplication::new();
    window.update_ui(fetching("Track A", "Artist A"));
    for _ in 0..3 {
        assert_eq!(window.update_ui(fetching("Track A", "Artist A")), ViewUpdate::Nothing);
    }
    assert_eq!(window.update_ui(fetching("Track B", "Artist A")), song_changed("Track B", "Artist A"));
}

#[test]
fn window_shows_lyrics_once() {
    let mut window = LyricsApplication::new();
    window.update_ui(fetching("Track A", "Artist A"));
    assert_eq!(
        window.update_ui(fetched("Track A", "Artist A", "la la la", Some(vec![1, 2]))),
        ViewUpdate::SongDataRetrieved { lyrics: text("la la la"), cover_art: Some(vec![1, 2]) }
    );
    assert_eq!(
        window.update_ui(fetched("Track A", "Artist A", "la la la", Some(vec![1, 2]))),
        ViewUpdate::Nothing
    );
    assert_eq!(*window.app_state(), fetched("Track A", "Artist A", "la la la", Some(vec![1, 2])));
}

#[test]
fn window_shows_lyrics_without_cover() {
    let mut window = LyricsApplication::new();
    assert_eq!(
        window.update_ui(fetched("Track A", "Artist A", "la", None)),
        ViewUpdate::SongDataRetrieved { lyrics: text("la"), cover_art: None }
    );
}

#[test]
fn window_skips_lyrics_after_a_failure() {
    let mut window = LyricsApplication::new();
    window.update_ui(AppState::NetworkFailed);
    assert_eq!(window.update_ui(fetched("Track A", "Artist A", "la", None)), ViewUpdate::Nothing);
    assert_eq!(*window.app_state(), fetched("Track A", "Artist A", "la", None));
}

#[test]
fn window_shows_failures() {
    let mut window = LyricsApplication::new();
    window.update_ui(fetching("Track B", "Artist B"));
    assert_eq!(
        window.update_ui(AppState::SongNotFound {
            song_name: text("Track B"),
            artist_name: text("Artist B"),
        }),
        ViewUpdate::SongNotFound { song_name: text("Track B"), artist_name: text("Artist B") }
    );
    assert_eq!(window.update_ui(AppState::NetworkFailed), ViewUpdate::NetworkFailed);
    assert_eq!(*window.app_state(), AppState::NetworkFailed);
}

#[test]
fn window_announces_the_same_song_again_after_a_failure() {
    let mut window = LyricsApplication::new();
    window.update_ui(AppState::SongNotFound {
        song_name: text("Track B"),
        artist_name: text("Artist B"),
    });
    assert_eq!(window.update_ui(fetching("Track B", "Artist B")), song_changed("Track B", "Artist B"));
}

#[test]
fn window_shows_nothing_for_connecting() {
    let mut window = LyricsApplication::new();
    window.update_ui(fetching("Track A", "Artist A"));
    assert_eq!(window.update_ui(AppState::Connecting), ViewUpdate::Nothing);
    assert_eq!(*window.app_state(), AppState::Connecting);
}

#[test]
fn missed_look_changes_nothing() {
    let mut window = LyricsApplication::new();
    window.update_ui(fetching("Track A", "Artist A"));
    assert_eq!(window.on_snapshot(None), ViewUpdate::Nothing);
    assert_eq!(*window.app_state(), fetching("Track A", "Artist A"));
    assert_eq!(
        window.on_snapshot(Some(fetching("Track B", "Artist B"))),
        song_changed("Track B", "Artist B")
    );
    assert_eq!(*window.app_state(), fetching("Track B", "Artist B"));
}

#[test]
fn poll_follows_the_shared_state() {
    let shared = SharedState::new();
    let mut window = LyricsApplication::new();
    assert_eq!(window.poll(&shared), ViewUpdate::Nothing);
    shared.commit(fetching("Track A", "Artist A"));
    assert_eq!(window.poll(&shared), song_changed("Track A", "Artist A"));
    assert_eq!(window.poll(&shared), ViewUpdate::Nothing);
    shared.commit(fetched("Track A", "Artist A", "la la la", None));
    assert_eq!(
        window.poll(&shared),
        ViewUpdate::SongDataRetrieved { lyrics: text("la la la"), cover_art: None }
    );
    assert_eq!(window.poll(&shared), ViewUpdate::Nothing);
    assert_eq!(*window.app_state(), fetched("Track A", "Artist A", "la la la", None));
}

#[test]
fn events_become_states() {
    let changed = SpotifyEvent::SongChanged { song_name: text("Track A"), artist_name: text("Artist A") };
    assert_eq!(changed.clone(), changed);
    let event = UIEvent::fetching(changed);
    assert_eq!(
        event,
        UIEvent::FetchingLyrics { song_name: text("Track A"), artist_name: text("Artist A") }
    );
    assert_eq!(event.into_state(), fetching("Track A", "Artist A"));
    let response = LyricsResponse {
        artist: text("Artist A"),
        track: text("Track A"),
        lyrics: text("la la la"),
        cover_art: Some(vec![9]),
    };
    let event = UIEvent::fetched(text("Track A"), text("Artist A"), response);
    assert_eq!(event.into_state(), fetched("Track A", "Artist A", "la la la", Some(vec![9])));
}

#[test]
fn window_takes_events() {
    let mut window = LyricsApplication::new();
    let update = window.on_ui_event(UIEvent::FetchingLyrics {
        song_name: text("Track A"),
        artist_name: text("Artist A"),
    });
    assert_eq!(update, song_changed("Track A", "Artist A"));
    let update = window.on_ui_event(UIEvent::SongInformationFetched {
        song_name: text("Track A"),
        artist_name: text("Artist A"),
        lyrics: text("la"),
        cover_art: None,
    });
    assert_eq!(update, ViewUpdate::SongDataRetrieved { lyrics: text("la"), cover_art: None });
}
