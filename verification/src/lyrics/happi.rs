use crate::lyrics::LyricsError;
use crate::text::decimal;
use crate::text::decimal_chars;
use crate::text::string_of;
use vstd::prelude::*;

verus! {

/// Where the provider's interface lives.
pub const BASE_ENDPOINT: &'static str = "https://api.happi.dev";

/// The path of the search.
pub const SEARCH_PATH: &'static str = "v1/music";

/// Access to the lyrics of happi.dev.
pub struct HappiLyrics {
    api_key: String,
}

/// One hit of a search.
#[derive(Debug, PartialEq, Eq)]
pub struct SearchResponse {
    pub track: String,
    pub id_track: u32,
    pub artist: String,
    pub id_artist: u32,
    pub album: String,
    pub id_album: u32,
    pub haslyrics: bool,
}

/// The path under which the lyrics of a hit are found.
pub open spec fn lyrics_path_of(hit: SearchResponse) -> Seq<char> {
    "v1/music/artists/"@ + decimal(hit.id_artist as nat) + "/albums/"@ + decimal(
        hit.id_album as nat,
    ) + "/tracks/"@ + decimal(hit.id_track as nat) + "/lyrics"@
}

/// A parameter of a request, as name and value.
pub open spec fn pair_view(pair: (String, String)) -> (Seq<char>, Seq<char>) {
    (pair.0@, pair.1@)
}

/// The parameters of a request, as names and values.
pub open spec fn pairs_view(pairs: Vec<(String, String)>) -> Seq<(Seq<char>, Seq<char>)> {
    pairs@.map_values(|pair: (String, String)| pair_view(pair))
}

/// `i` is the place of the first hit that has lyrics.
pub open spec fn is_first_with_lyrics(results: Seq<SearchResponse>, i: int) -> bool {
    &&& 0 <= i < results.len()
    &&& results[i].haslyrics
    &&& forall|k: int| 0 <= k < i ==> !(#[trigger] results[k]).haslyrics
}

/// A parameter of a request.
fn pair(name: &str, value: &str) -> (pair: (String, String))
    ensures
        pair_view(pair) == (name@, value@),
{
    (name.to_owned(), value.to_owned())
}

impl HappiLyrics {
    /// The key that the provider knows this user by.
    pub closed spec fn key(self) -> Seq<char> {
        self.api_key@
    }

    pub fn new(api_key: String) -> (this: HappiLyrics)
        ensures
            this.key() == api_key@,
    {
        HappiLyrics { api_key }
    }

    /// The key that the provider knows this user by.
    pub fn api_key(&self) -> (api_key: &str)
        ensures
            api_key@ == self.key(),
    {
        self.api_key.as_str()
    }

    /// The words to search for: the title, a comma and a blank, the artist.
    pub fn search_text(song_title: &str, artist: &str) -> (text: String)
        ensures
            text@ == song_title@ + ", "@ + artist@,
    {
        let mut text = song_title.to_owned();
        text.append(", ");
        text.append(artist);
        text
    }

    /// The parameters of a search for `query`.
    pub fn search_query(&self, query: &str) -> (pairs: Vec<(String, String)>)
        ensures
            pairs_view(pairs) == seq![
                ("q"@, query@),
                ("apikey"@, self.key()),
                ("limit"@, ""@),
                ("type"@, ""@),
            ],
    {
        let mut pairs: Vec<(String, String)> = Vec::new();
        pairs.push(pair("q", query));
        pairs.push(pair("apikey", self.api_key.as_str()));
        pairs.push(pair("limit", ""));
        pairs.push(pair("type", ""));
        assert(pairs_view(pairs) =~= seq![
            ("q"@, query@),
            ("apikey"@, self.key()),
            ("limit"@, ""@),
            ("type"@, ""@),
        ]);
        pairs
    }

    /// The parameters of a request for lyrics.
    pub fn lyrics_query(&self) -> (pairs: Vec<(String, String)>)
        ensures
            pairs_view(pairs) == seq![("apikey"@, self.key())],
    {
        let mut pairs: Vec<(String, String)> = Vec::new();
        pairs.push(pair("apikey", self.api_key.as_str()));
        assert(pairs_view(pairs) =~= seq![("apikey"@, self.key())]);
        pairs
    }

    /// The path under which the lyrics of a hit are found.
    pub fn lyrics_path(par: &SearchResponse) -> (path: String)
        ensures
            path@ == lyrics_path_of(*par),
    {
        let mut path = "v1/music/artists/".to_owned();
        path.append(string_of(&decimal_chars(par.id_artist as u64)).as_str());
        path.append("/albums/");
        path.append(string_of(&decimal_chars(par.id_album as u64)).as_str());
        path.append("/tracks/");
        path.append(string_of(&decimal_chars(par.id_track as u64)).as_str());
        path.append("/lyrics");
        path
    }

    /// The place of the first hit that has lyrics, if any hit has.
    pub fn first_with_lyrics(results: &Vec<SearchResponse>) -> (found: Option<usize>)
        ensures
            match found {
                Some(i) => is_first_with_lyrics(results@, i as int),
                None => forall|k: int| 0 <= k < results.len() ==> !(#[trigger] results[k]).haslyrics,
            },
    {
        let mut i: usize = 0;
        while i < results.len()
            invariant
                i <= results.len(),
                forall|k: int| 0 <= k < i ==> !(#[trigger] results[k]).haslyrics,
            decreases results.len() - i,
        {
            if results[i].haslyrics {
                return Some(i);
            }
            i = i + 1;
        }
        None
    }

    /// The error for a song of which no hit has lyrics.
    pub fn no_lyrics(song_title: &str, artist: &str) -> (error: LyricsError)
        ensures
            error matches LyricsError::SongNotFound { song_name, artist: by } && song_name@
                == song_title@ && by@ == artist@,
    {
        LyricsError::SongNotFound { song_name: song_title.to_owned(), artist: artist.to_owned() }
    }
}

} // verus!
