use vstd::prelude::*;

verus! {

/// What the player reports.
#[derive(Debug, PartialEq, Eq)]
pub enum SpotifyEvent {
    SongChanged { song_name: String, artist_name: String },
}

impl View for SpotifyEvent {
    type V = (Seq<char>, Seq<char>);

    /// The song and the artist that the event names.
    open spec fn view(&self) -> (Seq<char>, Seq<char>) {
        match *self {
            SpotifyEvent::SongChanged { song_name, artist_name } => (song_name@, artist_name@),
        }
    }
}

impl Clone for SpotifyEvent {
    fn clone(&self) -> (copy: Self)
        ensures
            copy@ == self@,
    {
        match self {
            SpotifyEvent::SongChanged { song_name, artist_name } => SpotifyEvent::SongChanged {
                song_name: song_name.clone(),
                artist_name: artist_name.clone(),
            },
        }
    }
}

} // verus!
