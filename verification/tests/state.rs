use sync_lyrics::app_state::is_valid_sample;
use sync_lyrics::app_state::str_eq;
use sync_lyrics::app_state::AppState;

fn fetching(song: &str, artist: &str) -> AppState {
    AppState::FetchingLyrics { song_name: song.to_string(), artist_name: artist.to_string() }
}

fn fetched(song: &str, artist: &str) -> AppState {
    AppState::LyricsFetched {
        song_name: song.to_string(),
        artist_name: artist.to_string(),
        lyrics: "la la la".to_string(),
        cover_art: Some(vec![1, 2, 3]),
    }
}

fn not_found(song: &str, artist: &str) -> AppState {
    AppState::SongNotFound { song_name: song.to_string(), artist_name: artist.to_string() }
}

fn every_state() -> Vec<AppState> {
    vec![
        AppState::Connecting,
        fetching("Track A", "Artist A"),
        fetched("Track A", "Artist A"),
        not_found("Track A", "Artist A"),
        AppState::NetworkFailed,
    ]
}

#[test]
fn connecting_differs_from_everything() {
    assert!(AppState::Connecting.is_different("Track A", "Artist A"));
    assert!(AppState::Connecting.is_different("", ""));
}

#[test]
fn failures_differ_from_everything() {
    assert!(not_found("Track A", "Artist A").is_different("Track A", "Artist A"));
    assert!(not_found("Track A", "Artist A").is_different("Track B", "Artist A"));
    assert!(AppState::NetworkFailed.is_different("Track A", "Artist A"));
}

#[test]
fn fetching_differs_exactly_when_the_pair_does() {
    let state = fetching("Track A", "Artist A");
    assert!(!state.is_different("Track A", "Artist A"));
    assert!(state.is_different("Track B", "Artist A"));
    assert!(state.is_different("Track A", "Artist B"));
    assert!(state.is_different("Track B", "Artist B"));
    assert!(state.is_different("track a", "Artist A"));
}

#[test]
fn fetched_differs_exactly_when_the_pair_does() {
    let state = fetched("Track A", "Artist A");
    assert!(!state.is_different("Track A", "Artist A"));
    assert!(state.is_different("Track B", "Artist A"));
    assert!(state.is_different("Track A", "Artist B"));
}

#[test]
fn samples_need_title_and_artist() {
    assert!(is_valid_sample("Track A", "Artist A"));
    assert!(!is_valid_sample("", "Artist C"));
    assert!(!is_valid_sample("Track C", ""));
    assert!(!is_valid_sample("", ""));
    assert!(is_valid_sample(" ", " "));
}

#[test]
fn string_slices_compare_by_their_characters() {
    assert!(str_eq("abc", "abc"));
    assert!(!str_eq("abc", "abd"));
    assert!(!str_eq("abc", "ab"));
    assert!(str_eq("", ""));
}

#[test]
fn first_sample_starts_a_fetch() {
    let mut state = AppState::Connecting;
    assert!(state.set_if_valid("Track A", "Artist A"));
    assert_eq!(state, fetching("Track A", "Artist A"));
}

#[test]
fn same_sample_after_lyrics_changes_nothing() {
    let mut state = fetched("Track A", "Artist A");
    assert!(!state.set_if_valid("Track A", "Artist A"));
    assert_eq!(state, fetched("Track A", "Artist A"));
}

#[test]
fn same_sample_while_fetching_changes_nothing() {
    let mut state = fetching("Track A", "Artist A");
    for _ in 0..5 {
        assert!(!state.set_if_valid("Track A", "Artist A"));
        assert_eq!(state, fetching("Track A", "Artist A"));
    }
}

#[test]
fn same_sample_after_not_found_fetches_again() {
    let mut state = not_found("Track B", "Artist B");
    assert!(state.set_if_valid("Track B", "Artist B"));
    assert_eq!(state, fetching("Track B", "Artist B"));
}

#[test]
fn sample_after_network_failure_fetches_again() {
    let mut state = AppState::NetworkFailed;
    assert!(state.set_if_valid("Track B", "Artist B"));
    assert_eq!(state, fetching("Track B", "Artist B"));
}

#[test]
fn another_song_replaces_the_one_fetched() {
    let mut state = fetched("Track A", "Artist A");
    assert!(state.set_if_valid("Track B", "Artist A"));
    assert_eq!(state, fetching("Track B", "Artist A"));
}

#[test]
fn empty_title_changes_no_state() {
    for state in every_state() {
        let mut seen = state.clone();
        assert!(!seen.set_if_valid("", "Artist C"));
        assert_eq!(seen, state);
    }
}

#[test]
fn empty_artist_changes_no_state() {
    for state in every_state() {
        let mut seen = state.clone();
        assert!(!seen.set_if_valid("Track C", ""));
        assert_eq!(seen, state);
    }
}

#[test]
fn terminal_states_are_the_three_ends() {
    assert!(!AppState::Connecting.is_terminal());
    assert!(!fetching("Track A", "Artist A").is_terminal());
    assert!(fetched("Track A", "Artist A").is_terminal());
    assert!(not_found("Track A", "Artist A").is_terminal());
    assert!(AppState::NetworkFailed.is_terminal());
}

#[test]
fn well_formed_states_name_song_and_artist() {
    for state in every_state() {
        assert!(state.is_well_formed());
    }
    assert!(!fetching("", "Artist A").is_well_formed());
    assert!(!fetched("Track A", "").is_well_formed());
    assert!(!not_found("", "").is_well_formed());
}

#[test]
fn a_copy_equals_what_it_copies() {
    for state in every_state() {
        assert_eq!(state.clone(), state);
    }
    let bare = AppState::LyricsFetched {
        song_name: "Track A".to_string(),
        artist_name: "Artist A".to_string(),
        lyrics: "la la la".to_string(),
        cover_art: None,
    };
    assert_eq!(bare.clone(), bare);
}
