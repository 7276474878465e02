use crate::app_state::copy_cover;
use crate::app_state::cover_view;
use crate::app_state::AppState;
use crate::app_state::Track;
use crate::shared_state::SharedState;
use crate::ui::UIEvent;
use vstd::prelude::*;

verus! {

/// How often the window looks at the shared state, in milliseconds.
pub const POLL_INTERVAL_MILLIS: u64 = 50;

/// What the window has to show after it has seen a state.
#[derive(Debug, PartialEq, Eq)]
pub enum ViewUpdate {
    /// Nothing changes on screen.
    Nothing,
    /// Another song plays: show its name and a spinner.
    SongChanged { song_name: String, artist_name: String },
    /// Lyrics have arrived: show them, and the cover if there is one.
    SongDataRetrieved { lyrics: String, cover_art: Option<Vec<u8>> },
    /// The provider could not be reached.
    NetworkFailed,
    /// The provider does not know the song.
    SongNotFound { song_name: String, artist_name: String },
}

/// What a `ViewUpdate` holds, as mathematical values.
pub ghost enum Update {
    Nothing,
    SongChanged { song_name: Seq<char>, artist_name: Seq<char> },
    SongDataRetrieved { lyrics: Seq<char>, cover_art: Option<Seq<u8>> },
    NetworkFailed,
    SongNotFound { song_name: Seq<char>, artist_name: Seq<char> },
}

impl View for ViewUpdate {
    type V = Update;

    open spec fn view(&self) -> Update {
        match *self {
            ViewUpdate::Nothing => Update::Nothing,
            ViewUpdate::SongChanged { song_name, artist_name } => Update::SongChanged {
                song_name: song_name@,
                artist_name: artist_name@,
            },
            ViewUpdate::SongDataRetrieved { lyrics, cover_art } => Update::SongDataRetrieved {
                lyrics: lyrics@,
                cover_art: cover_view(cover_art),
            },
            ViewUpdate::NetworkFailed => Update::NetworkFailed,
            ViewUpdate::SongNotFound { song_name, artist_name } => Update::SongNotFound {
                song_name: song_name@,
                artist_name: artist_name@,
            },
        }
    }
}

/// What the window shows when it last showed `last` and now sees `observed`.
///
/// A song that is being fetched is announced when it is another song than
/// `last` tracks. Lyrics are shown when `last` was not yet the end of an
/// attempt. A failure is shown whenever it is seen. `Connecting` shows nothing.
pub open spec fn update_for(last: Track, observed: Track) -> Update {
    match observed {
        Track::Connecting => Update::Nothing,
        Track::FetchingLyrics { song_name, artist_name } => if last.differs_from(
            song_name,
            artist_name,
        ) {
            Update::SongChanged { song_name, artist_name }
        } else {
            Update::Nothing
        },
        Track::LyricsFetched { lyrics, cover_art, .. } => if last.is_terminal() {
            Update::Nothing
        } else {
            Update::SongDataRetrieved { lyrics, cover_art }
        },
        Track::SongNotFound { song_name, artist_name } => Update::SongNotFound {
            song_name,
            artist_name,
        },
        Track::NetworkFailed => Update::NetworkFailed,
    }
}

/// What the window shows, and which state it then remembers, when a look at
/// the shared state brought `snapshot`. A look that found the lock taken
/// brought nothing and changes nothing.
pub open spec fn after_snapshot(last: Track, snapshot: Option<AppState>) -> (Update, Track) {
    match snapshot {
        Some(observed) => (update_for(last, observed@), observed@),
        None => (Update::Nothing, last),
    }
}

/// The window's side of the program: the state that it has last seen.
pub struct LyricsApplication {
    app_state: AppState,
}

impl View for LyricsApplication {
    type V = Track;

    closed spec fn view(&self) -> Track {
        self.app_state@
    }
}

impl LyricsApplication {
    /// A window that has seen nothing yet.
    pub fn new() -> (this: LyricsApplication)
        ensures
            this@ == Track::Connecting,
    {
        LyricsApplication { app_state: AppState::Connecting }
    }

    /// The state that the window has last seen.
    pub fn app_state(&self) -> (state: &AppState)
        ensures
            state@ == self@,
    {
        &self.app_state
    }

    /// Takes a newly seen state: says what to show, and remembers the state.
    pub fn update_ui(&mut self, new_app_state: AppState) -> (update: ViewUpdate)
        ensures
            update@ == update_for(old(self)@, new_app_state@),
            final(self)@ == new_app_state@,
    {
        let update = match &new_app_state {
            AppState::LyricsFetched { lyrics, cover_art, .. } => {
                if self.app_state.is_terminal() {
                    ViewUpdate::Nothing
                } else {
                    ViewUpdate::SongDataRetrieved {
                        lyrics: lyrics.clone(),
                        cover_art: copy_cover(cover_art),
                    }
                }
            },
            AppState::FetchingLyrics { song_name, artist_name } => {
                if self.app_state.is_different(song_name.as_str(), artist_name.as_str()) {
                    ViewUpdate::SongChanged {
                        song_name: song_name.clone(),
                        artist_name: artist_name.clone(),
                    }
                } else {
                    ViewUpdate::Nothing
                }
            },
            AppState::NetworkFailed => ViewUpdate::NetworkFailed,
            AppState::SongNotFound { song_name, artist_name } => ViewUpdate::SongNotFound {
                song_name: song_name.clone(),
                artist_name: artist_name.clone(),
            },
            AppState::Connecting => ViewUpdate::Nothing,
        };
        self.app_state = new_app_state;
        update
    }

    /// Takes an event from the background: the window enters the event's
    /// state.
    pub fn on_ui_event(&mut self, event: UIEvent) -> (update: ViewUpdate)
        ensures
            update@ == update_for(old(self)@, event.state()),
            final(self)@ == event.state(),
    {
        self.update_ui(event.into_state())
    }

    /// Takes the outcome of one look at the shared state. Where the look
    /// brought nothing, nothing is shown and the window remembers what it did.
    pub fn on_snapshot(&mut self, snapshot: Option<AppState>) -> (update: ViewUpdate)
        ensures
            (update@, final(self)@) == after_snapshot(old(self)@, snapshot),
    {
        match snapshot {
            Some(observed) => self.update_ui(observed),
            None => ViewUpdate::Nothing,
        }
    }

    /// One tick of the window's timer: a look at the shared state that never
    /// waits, and what it leads to. Whatever the look brought, the outcome is
    /// the one that `after_snapshot` gives for it.
    pub fn poll(&mut self, shared: &SharedState) -> (update: ViewUpdate)
        ensures
            exists|snapshot: Option<AppState>|
                (update@, final(self)@) == #[trigger] after_snapshot(old(self)@, snapshot),
    {
        let snapshot = shared.try_read();
        self.on_snapshot(snapshot)
    }
}

/// While the window sees the same song being fetched, tick after tick, it
/// announces the song once and then shows nothing new.
pub proof fn lemma_same_song_shown_once(last: Track, song_name: Seq<char>, artist_name: Seq<char>)
    requires
        last.tracks(song_name, artist_name),
    ensures
        update_for(last, Track::FetchingLyrics { song_name, artist_name }) == Update::Nothing,
{
}

/// Lyrics that the window has shown are not shown again on the next look.
pub proof fn lemma_lyrics_shown_once(last: Track, observed: Track)
    requires
        last is LyricsFetched,
        observed is LyricsFetched,
    ensures
        update_for(last, observed) == Update::Nothing,
{
}

} // verus!
