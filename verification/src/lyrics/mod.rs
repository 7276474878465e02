use crate::app_state::cover_view;
use crate::app_state::AppState;
use crate::app_state::Track;
use vstd::prelude::*;

pub mod genius;
pub mod happi;

verus! {

/// A source of lyrics: given song and artist it answers with the lyrics, or
/// with the reason why there are none. Nothing is promised of an
/// implementation; what becomes of each answer is stated by
/// [`resolve`](crate::lyrics::resolve).
pub trait LyricsFetcher {
    fn get_lyrics(&self, song_title: &str, artist: &str) -> LyricsResult;
}

pub type LyricsResult<T = LyricsResponse> = Result<T, LyricsError>;

/// What a provider found for a song. The cover image may be missing.
#[derive(Debug, PartialEq, Eq)]
pub struct LyricsResponse {
    pub artist: String,
    pub track: String,
    pub lyrics: String,
    pub cover_art: Option<Vec<u8>>,
}

/// Why a provider has no lyrics for a song.
#[derive(Debug, PartialEq, Eq)]
pub enum LyricsError {
    /// The provider could not be reached; the text says what went wrong.
    Network(String),
    /// The provider knows no such song.
    SongNotFound { song_name: String, artist: String },
}

/// The text of an error, as it is shown to a person.
pub open spec fn error_text(error: LyricsError) -> Seq<char> {
    match error {
        LyricsError::Network(cause) => "Network error: "@ + cause@,
        LyricsError::SongNotFound { song_name, artist } => "Song "@ + song_name@ + " by "@
            + artist@ + " is not found"@,
    }
}

impl LyricsError {
    /// The text of this error.
    pub fn message(&self) -> (text: String)
        ensures
            text@ == error_text(*self),
    {
        match self {
            LyricsError::Network(cause) => {
                let mut text = "Network error: ".to_owned();
                text.append(cause.as_str());
                text
            },
            LyricsError::SongNotFound { song_name, artist } => {
                let mut text = "Song ".to_owned();
                text.append(song_name.as_str());
                text.append(" by ");
                text.append(artist.as_str());
                text.append(" is not found");
                text
            },
        }
    }
}

/// The state in which an attempt to fetch the lyrics of `song_name` by
/// `artist_name` ends, for each answer of the provider.
pub open spec fn resolution(
    song_name: Seq<char>,
    artist_name: Seq<char>,
    outcome: LyricsResult,
) -> Track {
    match outcome {
        Ok(response) => Track::LyricsFetched {
            song_name,
            artist_name,
            lyrics: response.lyrics@,
            cover_art: cover_view(response.cover_art),
        },
        Err(LyricsError::SongNotFound { .. }) => Track::SongNotFound { song_name, artist_name },
        Err(LyricsError::Network(_)) => Track::NetworkFailed,
    }
}

/// Turns the provider's answer for the song that is being fetched into the
/// state to commit: lyrics and cover on success, `SongNotFound` for that song
/// when the provider knows none, `NetworkFailed` when it could not be reached.
pub fn resolve(song_name: String, artist_name: String, outcome: LyricsResult) -> (state: AppState)
    ensures
        state@ == resolution(song_name@, artist_name@, outcome),
{
    match outcome {
        Ok(response) => AppState::LyricsFetched {
            song_name,
            artist_name,
            lyrics: response.lyrics,
            cover_art: response.cover_art,
        },
        Err(LyricsError::SongNotFound { .. }) => AppState::SongNotFound { song_name, artist_name },
        Err(LyricsError::Network(_)) => AppState::NetworkFailed,
    }
}

/// Every attempt for a usable song ends in a terminal, well-formed state that
/// names that song wherever it names one.
pub proof fn lemma_resolution_is_terminal(
    song_name: Seq<char>,
    artist_name: Seq<char>,
    outcome: LyricsResult,
)
    requires
        song_name.len() > 0,
        artist_name.len() > 0,
    ensures
        resolution(song_name, artist_name, outcome).is_terminal(),
        resolution(song_name, artist_name, outcome).wf(),
        outcome is Ok ==> resolution(song_name, artist_name, outcome).tracks(
            song_name,
            artist_name,
        ),
{
}

} // verus!
