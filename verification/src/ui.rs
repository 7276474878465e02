use crate::app_state::cover_view;
use crate::app_state::AppState;
use crate::app_state::Track;
use crate::lyrics::LyricsResponse;
use crate::spotify::spotify_event::SpotifyEvent;
use vstd::prelude::*;

verus! {

/// What the background hands to the window.
#[derive(Debug, PartialEq, Eq)]
pub enum UIEvent {
    SongInformationFetched {
        song_name: String,
        artist_name: String,
        lyrics: String,
        cover_art: Option<Vec<u8>>,
    },
    FetchingLyrics { song_name: String, artist_name: String },
}

impl UIEvent {
    /// The state that the window enters on this event.
    pub open spec fn state(self) -> Track {
        match self {
            UIEvent::SongInformationFetched {
                song_name,
                artist_name,
                lyrics,
                cover_art,
            } => Track::LyricsFetched {
                song_name: song_name@,
                artist_name: artist_name@,
                lyrics: lyrics@,
                cover_art: cover_view(cover_art),
            },
            UIEvent::FetchingLyrics { song_name, artist_name } => Track::FetchingLyrics {
                song_name: song_name@,
                artist_name: artist_name@,
            },
        }
    }

    /// The event that tells the window of a change of song.
    pub fn fetching(changed: SpotifyEvent) -> (event: UIEvent)
        ensures
            event.state() == (Track::FetchingLyrics {
                song_name: changed@.0,
                artist_name: changed@.1,
            }),
    {
        match changed {
            SpotifyEvent::SongChanged { song_name, artist_name } => UIEvent::FetchingLyrics {
                song_name,
                artist_name,
            },
        }
    }

    /// The event that tells the window of a provider's answer for a song.
    pub fn fetched(song_name: String, artist_name: String, response: LyricsResponse) -> (event:
        UIEvent)
        ensures
            event.state() == (Track::LyricsFetched {
                song_name: song_name@,
                artist_name: artist_name@,
                lyrics: response.lyrics@,
                cover_art: cover_view(response.cover_art),
            }),
    {
        UIEvent::SongInformationFetched {
            song_name,
            artist_name,
            lyrics: response.lyrics,
            cover_art: response.cover_art,
        }
    }

    /// The state that the window enters on this event.
    pub fn into_state(self) -> (state: AppState)
        ensures
            state@ == self.state(),
    {
        match self {
            UIEvent::SongInformationFetched {
                song_name,
                artist_name,
                lyrics,
                cover_art,
            } => AppState::LyricsFetched { song_name, artist_name, lyrics, cover_art },
            UIEvent::FetchingLyrics { song_name, artist_name } => AppState::FetchingLyrics {
                song_name,
                artist_name,
            },
        }
    }
}

} // verus!
