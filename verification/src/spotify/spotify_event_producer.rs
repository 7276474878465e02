use crate::app_state::str_eq;
use crate::spotify::spotify_event::SpotifyEvent;
use vstd::prelude::*;

verus! {

/// The key under which the player's metadata holds the title.
pub const TITLE_KEY: &'static str = "xesam:title";

/// The key under which the player's metadata holds the artists.
pub const ARTIST_KEY: &'static str = "xesam:artist";

/// A value of the player's metadata, as far as it is read here.
#[derive(Debug, PartialEq, Eq)]
pub enum MetadataValue {
    /// A single text.
    Text(String),
    /// A list of texts.
    TextList(Vec<String>),
    /// Anything else.
    Other,
}

/// One entry of the player's metadata.
#[derive(Debug, PartialEq, Eq)]
pub struct MetadataEntry {
    pub key: String,
    pub value: MetadataValue,
}

/// The title that an entry gives: the text under the title key.
pub open spec fn entry_title(entry: MetadataEntry) -> Option<Seq<char>> {
    match entry.value {
        MetadataValue::Text(text) if entry.key@ == TITLE_KEY@ => Some(text@),
        _ => None,
    }
}

/// The artist that an entry gives: the first of the texts under the artist
/// key.
pub open spec fn entry_artist(entry: MetadataEntry) -> Option<Seq<char>> {
    match entry.value {
        MetadataValue::TextList(texts) if entry.key@ == ARTIST_KEY@ && texts.len() > 0 => Some(
            texts[0]@,
        ),
        _ => None,
    }
}

/// The title that the metadata gives: that of the last entry that gives one.
pub open spec fn title_in(metadata: Seq<MetadataEntry>) -> Option<Seq<char>>
    decreases metadata.len(),
{
    if metadata.len() == 0 {
        None
    } else if entry_title(metadata.last()) is Some {
        entry_title(metadata.last())
    } else {
        title_in(metadata.drop_last())
    }
}

/// The artist that the metadata gives: that of the last entry that gives one.
pub open spec fn artist_in(metadata: Seq<MetadataEntry>) -> Option<Seq<char>>
    decreases metadata.len(),
{
    if metadata.len() == 0 {
        None
    } else if entry_artist(metadata.last()) is Some {
        entry_artist(metadata.last())
    } else {
        artist_in(metadata.drop_last())
    }
}

/// The characters of a text that may be missing.
pub open spec fn text_view(text: Option<String>) -> Option<Seq<char>> {
    match text {
        Some(text) => Some(text@),
        None => None,
    }
}

/// Title and artist in the player's metadata, each as far as it is there.
pub fn get_title_and_artist(metadata: &Vec<MetadataEntry>) -> (found: (
    Option<String>,
    Option<String>,
))
    ensures
        text_view(found.0) == title_in(metadata@),
        text_view(found.1) == artist_in(metadata@),
{
    let mut title: Option<String> = None;
    let mut artist: Option<String> = None;
    let mut i: usize = 0;
    while i < metadata.len()
        invariant
            i <= metadata.len(),
            text_view(title) == title_in(metadata@.take(i as int)),
            text_view(artist) == artist_in(metadata@.take(i as int)),
        decreases metadata.len() - i,
    {
        assert(metadata@.take(i + 1).drop_last() =~= metadata@.take(i as int));
        let entry = &metadata[i];
        match &entry.value {
            MetadataValue::Text(text) => {
                if str_eq(entry.key.as_str(), TITLE_KEY) {
                    title = Some(text.clone());
                }
            },
            MetadataValue::TextList(texts) => {
                if str_eq(entry.key.as_str(), ARTIST_KEY) && texts.len() > 0 {
                    artist = Some(texts[0].clone());
                }
            },
            MetadataValue::Other => {},
        }
        i = i + 1;
    }
    assert(metadata@.take(i as int) =~= metadata@);
    (title, artist)
}

/// A change of the player's properties that names a song.
#[derive(Debug, PartialEq, Eq)]
pub struct PropertiesChanged {
    pub sender: String,
    pub title: Option<String>,
    pub artist: Option<String>,
}

/// A change of the player's properties, which may or may not name a song.
#[derive(Debug, PartialEq, Eq)]
pub struct MaybePropertiesChanged(pub Option<PropertiesChanged>);

/// The metadata of a change names a song when it gives title and artist.
pub open spec fn names_song(metadata: Option<&Vec<MetadataEntry>>) -> bool {
    metadata matches Some(entries) && title_in(entries@) is Some && artist_in(entries@) is Some
}

impl MaybePropertiesChanged {
    /// Reads a change of the player's properties, sent by `sender`, whose
    /// metadata, if the change has any, is `metadata`. The change names a song
    /// exactly when the metadata is there and gives both title and artist.
    pub fn from_metadata(sender: String, metadata: Option<&Vec<MetadataEntry>>) -> (change:
        MaybePropertiesChanged)
        ensures
            change.0 is Some == names_song(metadata),
            change.0 matches Some(named) ==> named.sender@ == sender@ && text_view(named.title)
                == title_in(metadata.unwrap()@) && text_view(named.artist) == artist_in(
                metadata.unwrap()@,
            ),
    {
        match metadata {
            Some(entries) => {
                let (title, artist) = get_title_and_artist(entries);
                match (title, artist) {
                    (Some(title), Some(artist)) => MaybePropertiesChanged(
                        Some(PropertiesChanged { sender, title: Some(title), artist: Some(artist) }),
                    ),
                    _ => MaybePropertiesChanged(None),
                }
            },
            None => MaybePropertiesChanged(None),
        }
    }
}

/// Turns what the player says into events.
pub struct SpotifyEventProducer;

impl SpotifyEventProducer {
    /// The event for a title and an artist read from the player: a change of
    /// song when both are there, nothing otherwise.
    pub fn song_changed(title: Option<String>, artist: Option<String>) -> (event: Option<
        SpotifyEvent,
    >)
        ensures
            event is Some == (title is Some && artist is Some),
            event matches Some(changed) ==> changed@ == (title.unwrap()@, artist.unwrap()@),
    {
        match (title, artist) {
            (Some(song_name), Some(artist_name)) => Some(
                SpotifyEvent::SongChanged { song_name, artist_name },
            ),
            _ => None,
        }
    }

    /// The event for the player's metadata.
    pub fn event_of(metadata: &Vec<MetadataEntry>) -> (event: Option<SpotifyEvent>)
        ensures
            event is Some == (title_in(metadata@) is Some && artist_in(metadata@) is Some),
            event matches Some(changed) ==> Some(changed@.0) == title_in(metadata@) && Some(
                changed@.1,
            ) == artist_in(metadata@),
    {
        let (title, artist) = get_title_and_artist(metadata);
        SpotifyEventProducer::song_changed(title, artist)
    }
}

} // verus!
