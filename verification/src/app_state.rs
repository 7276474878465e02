use vstd::prelude::*;

verus! {

/// `str`'s `==`: two string slices are equal exactly when they hold the same
/// characters.
pub assume_specification[ <str as PartialEq>::eq ](a: &str, b: &str) -> (equal: bool)
    ensures
        equal == (a@ == b@),
;

/// Whether two string slices hold the same characters.
pub fn str_eq(a: &str, b: &str) -> (equal: bool)
    ensures
        equal == (a@ == b@),
{
    *a == *b
}

/// The lifecycle of the song that is currently playing.
#[derive(Debug, PartialEq, Eq)]
pub enum AppState {
    Connecting,
    FetchingLyrics { song_name: String, artist_name: String },
    LyricsFetched {
        song_name: String,
        artist_name: String,
        lyrics: String,
        cover_art: Option<Vec<u8>>,
    },
    SongNotFound { song_name: String, artist_name: String },
    NetworkFailed,
}

/// What an `AppState` holds, as mathematical values.
pub ghost enum Track {
    Connecting,
    FetchingLyrics { song_name: Seq<char>, artist_name: Seq<char> },
    LyricsFetched {
        song_name: Seq<char>,
        artist_name: Seq<char>,
        lyrics: Seq<char>,
        cover_art: Option<Seq<u8>>,
    },
    SongNotFound { song_name: Seq<char>, artist_name: Seq<char> },
    NetworkFailed,
}

/// The bytes of an optional cover image.
pub open spec fn cover_view(cover_art: Option<Vec<u8>>) -> Option<Seq<u8>> {
    match cover_art {
        Some(bytes) => Some(bytes@),
        None => None,
    }
}

/// A sample is usable when it names both a song and an artist.
pub open spec fn valid_sample(title: Seq<char>, artist: Seq<char>) -> bool {
    title.len() > 0 && artist.len() > 0
}

impl Track {
    /// Whether a sample names another song than the one this state tracks.
    /// Only a state that is fetching, or has fetched, the very same song and
    /// artist says no.
    pub open spec fn differs_from(self, song_name: Seq<char>, artist_name: Seq<char>) -> bool {
        match self {
            Track::FetchingLyrics { song_name: s, artist_name: a } => s != song_name || a
                != artist_name,
            Track::LyricsFetched { song_name: s, artist_name: a, .. } => s != song_name || a
                != artist_name,
            _ => true,
        }
    }

    /// The state is fetching, or has fetched, exactly this song by this
    /// artist.
    pub open spec fn tracks(self, song_name: Seq<char>, artist_name: Seq<char>) -> bool {
        match self {
            Track::FetchingLyrics { song_name: s, artist_name: a } => s == song_name && a
                == artist_name,
            Track::LyricsFetched { song_name: s, artist_name: a, .. } => s == song_name && a
                == artist_name,
            _ => false,
        }
    }

    /// A state in which a fetch attempt has ended.
    pub open spec fn is_terminal(self) -> bool {
        self is LyricsFetched || self is SongNotFound || self is NetworkFailed
    }

    /// Song and artist are never empty where a state names them.
    pub open spec fn wf(self) -> bool {
        match self {
            Track::FetchingLyrics { song_name, artist_name } => valid_sample(
                song_name,
                artist_name,
            ),
            Track::LyricsFetched { song_name, artist_name, .. } => valid_sample(
                song_name,
                artist_name,
            ),
            Track::SongNotFound { song_name, artist_name } => valid_sample(song_name, artist_name),
            _ => true,
        }
    }

    /// The state after a sample has been seen: a usable sample of another
    /// song starts a fetch, any other sample changes nothing.
    pub open spec fn after_sample(self, title: Seq<char>, artist: Seq<char>) -> Track {
        if valid_sample(title, artist) && self.differs_from(title, artist) {
            Track::FetchingLyrics { song_name: title, artist_name: artist }
        } else {
            self
        }
    }
}

impl View for AppState {
    type V = Track;

    open spec fn view(&self) -> Track {
        match *self {
            AppState::Connecting => Track::Connecting,
            AppState::FetchingLyrics { song_name, artist_name } => Track::FetchingLyrics {
                song_name: song_name@,
                artist_name: artist_name@,
            },
            AppState::LyricsFetched {
                song_name,
                artist_name,
                lyrics,
                cover_art,
            } => Track::LyricsFetched {
                song_name: song_name@,
                artist_name: artist_name@,
                lyrics: lyrics@,
                cover_art: cover_view(cover_art),
            },
            AppState::SongNotFound { song_name, artist_name } => Track::SongNotFound {
                song_name: song_name@,
                artist_name: artist_name@,
            },
            AppState::NetworkFailed => Track::NetworkFailed,
        }
    }
}

/// A copy of an optional cover image.
pub fn copy_cover(cover_art: &Option<Vec<u8>>) -> (copy: Option<Vec<u8>>)
    ensures
        cover_view(copy) == cover_view(*cover_art),
{
    match cover_art {
        Some(bytes) => {
            let copy = bytes.clone();
            assert(copy@ =~= bytes@);
            Some(copy)
        },
        None => None,
    }
}

impl Clone for AppState {
    fn clone(&self) -> (copy: Self)
        ensures
            copy@ == self@,
    {
        match self {
            AppState::Connecting => AppState::Connecting,
            AppState::FetchingLyrics { song_name, artist_name } => AppState::FetchingLyrics {
                song_name: song_name.clone(),
                artist_name: artist_name.clone(),
            },
            AppState::LyricsFetched {
                song_name,
                artist_name,
                lyrics,
                cover_art,
            } => AppState::LyricsFetched {
                song_name: song_name.clone(),
                artist_name: artist_name.clone(),
                lyrics: lyrics.clone(),
                cover_art: copy_cover(cover_art),
            },
            AppState::SongNotFound { song_name, artist_name } => AppState::SongNotFound {
                song_name: song_name.clone(),
                artist_name: artist_name.clone(),
            },
            AppState::NetworkFailed => AppState::NetworkFailed,
        }
    }
}

/// Whether a sample from the player can be used: both fields are filled in.
pub fn is_valid_sample(title: &str, artist: &str) -> (valid: bool)
    ensures
        valid == valid_sample(title@, artist@),
{
    !title.is_empty() && !artist.is_empty()
}

impl AppState {
    /// Whether `(new_song_name, new_artist_name)` is another song than the one
    /// this state tracks.
    pub fn is_different(&self, new_song_name: &str, new_artist_name: &str) -> (different: bool)
        ensures
            different == self@.differs_from(new_song_name@, new_artist_name@),
    {
        match self {
            AppState::FetchingLyrics { song_name, artist_name }
            | AppState::LyricsFetched { song_name, artist_name, .. } => {
                !str_eq(song_name.as_str(), new_song_name) || !str_eq(
                    artist_name.as_str(),
                    new_artist_name,
                )
            },
            _ => true,
        }
    }

    /// Whether a fetch attempt has ended in this state.
    pub fn is_terminal(&self) -> (terminal: bool)
        ensures
            terminal == self@.is_terminal(),
    {
        match self {
            AppState::LyricsFetched { .. } => true,
            AppState::SongNotFound { .. } => true,
            AppState::NetworkFailed => true,
            _ => false,
        }
    }

    /// Whether song and artist are filled in wherever this state names them.
    pub fn is_well_formed(&self) -> (well_formed: bool)
        ensures
            well_formed == self@.wf(),
    {
        match self {
            AppState::FetchingLyrics { song_name, artist_name }
            | AppState::LyricsFetched { song_name, artist_name, .. }
            | AppState::SongNotFound { song_name, artist_name } => is_valid_sample(
                song_name.as_str(),
                artist_name.as_str(),
            ),
            _ => true,
        }
    }

    /// Takes a sample from the player into the state. A usable sample of
    /// another song replaces the state by `FetchingLyrics` for that song and
    /// returns `true`; any other sample leaves the state as it is and returns
    /// `false`.
    pub fn set_if_valid(&mut self, new_song_name: &str, new_artist_name: &str) -> (changed: bool)
        ensures
            changed == (valid_sample(new_song_name@, new_artist_name@) && old(self)@.differs_from(
                new_song_name@,
                new_artist_name@,
            )),
            final(self)@ == old(self)@.after_sample(new_song_name@, new_artist_name@),
            !changed ==> *final(self) == *old(self),
    {
        if !is_valid_sample(new_song_name, new_artist_name) {
            false
        } else if self.is_different(new_song_name, new_artist_name) {
            *self = AppState::FetchingLyrics {
                song_name: new_song_name.to_owned(),
                artist_name: new_artist_name.to_owned(),
            };
            true
        } else {
            false
        }
    }
}

/// A state that tracks the sample's own song, fetching or fetched, is not
/// replaced when the sample arrives again.
pub proof fn lemma_same_song_keeps_state(state: Track, title: Seq<char>, artist: Seq<char>)
    requires
        state.tracks(title, artist),
    ensures
        !state.differs_from(title, artist),
        state.after_sample(title, artist) == state,
{
}

/// Before the first song, and after a failed attempt, every sample counts as
/// another song; while a song is fetching or fetched, exactly the samples
/// that name another song or artist do.
pub proof fn lemma_change_detection(state: Track, title: Seq<char>, artist: Seq<char>)
    ensures
        state is Connecting || state is SongNotFound || state is NetworkFailed
            ==> state.differs_from(title, artist),
        state is FetchingLyrics || state is LyricsFetched ==> (state.differs_from(title, artist)
            <==> !state.tracks(title, artist)),
{
}

/// A sample with an empty title or an empty artist changes no state.
pub proof fn lemma_invalid_sample_ignored(state: Track, title: Seq<char>, artist: Seq<char>)
    requires
        title.len() == 0 || artist.len() == 0,
    ensures
        state.after_sample(title, artist) == state,
{
}

/// Samples keep the state well formed, and never bring back `Connecting`.
pub proof fn lemma_sample_keeps_invariants(state: Track, title: Seq<char>, artist: Seq<char>)
    requires
        state.wf(),
    ensures
        state.after_sample(title, artist).wf(),
        state.after_sample(title, artist) is Connecting ==> state is Connecting,
{
}

} // verus!
