use crate::app_state::cover_view;
use crate::lyrics::LyricsError;
use crate::lyrics::LyricsResponse;
use crate::lyrics::LyricsResult;
use crate::text::chars_of;
use crate::text::contains_char;
use crate::text::decimal;
use crate::text::decimal_chars;
use crate::text::is_blank;
use crate::text::is_blank_chars;
use crate::text::join;
use crate::text::join_chars;
use crate::text::lines_view;
use crate::text::push_all;
use crate::text::replace_char;
use crate::text::replace_chars;
use crate::text::string_of;
use crate::text::trim;
use crate::text::trim_chars;
use scraper::Html;
use scraper::Selector;
use vstd::prelude::*;

verus! {

/// Where the provider's interface lives.
pub const BASE_ENDPOINT: &'static str = "https://api.genius.com/";

/// Selects the lyrics on pages of the older layout.
pub const CLASSIC_SELECTOR: &'static str = "div.lyrics";

/// Selects the lyrics on pages of the newer layout.
pub const CONTAINER_SELECTOR: &'static str = "div[class^=\"Lyrics__Container\"]";

/// The address of the search.
pub fn search_url() -> (url: String)
    ensures
        url@ == BASE_ENDPOINT@ + "search"@,
{
    let mut url = BASE_ENDPOINT.to_owned();
    url.append("search");
    url
}

/// The address of the description of the song with the given number.
pub fn song_url(song_id: usize) -> (url: String)
    ensures
        url@ == BASE_ENDPOINT@ + "songs/"@ + decimal(song_id as nat),
{
    let mut url = BASE_ENDPOINT.to_owned();
    url.append("songs/");
    let digits = string_of(&decimal_chars(song_id as u64));
    url.append(digits.as_str());
    url
}

/// The words to search for: the title, a blank, the artist.
pub fn search_query(song_title: &str, artist: &str) -> (query: String)
    ensures
        query@ == song_title@ + " "@ + artist@,
{
    let mut query = song_title.to_owned();
    query.append(" ");
    query.append(artist);
    query
}

/// The value of the header that carries the access token.
pub fn authorization(access_token: &str) -> (value: String)
    ensures
        value@ == "Bearer "@ + access_token@,
{
    let mut value = "Bearer ".to_owned();
    value.append(access_token);
    value
}

/// The number of the song that a search found: that of the first hit. A
/// search without hits means that the song is not known.
pub fn first_hit(hits: &Vec<usize>, song_title: &str, artist: &str) -> (found: LyricsResult<usize>)
    ensures
        hits.len() > 0 ==> found == Ok::<usize, LyricsError>(hits[0]),
        hits.len() == 0 ==> (found matches Err(LyricsError::SongNotFound { song_name, artist: by })
            && song_name@ == song_title@ && by@ == artist@),
{
    if hits.len() > 0 {
        Ok(hits[0])
    } else {
        Err(LyricsError::SongNotFound { song_name: song_title.to_owned(), artist: artist.to_owned() })
    }
}

/// The cover image that a fetch brought, if it brought one.
pub open spec fn fetched_cover(cover_art: LyricsResult<Vec<u8>>) -> Option<Seq<u8>> {
    match cover_art {
        Ok(bytes) => Some(bytes@),
        Err(_) => None,
    }
}

/// How the two fetches of one song combine. Without the text there is no
/// answer, and its error is the error of the whole; without the cover the
/// answer has the text alone.
pub open spec fn is_joined(
    answer: LyricsResult,
    song_title: Seq<char>,
    artist: Seq<char>,
    lyrics: LyricsResult<String>,
    cover_art: LyricsResult<Vec<u8>>,
) -> bool {
    match lyrics {
        Ok(text) => answer matches Ok(response) && response.track@ == song_title && response.artist@
            == artist && response.lyrics@ == text@ && cover_view(response.cover_art)
            == fetched_cover(cover_art),
        Err(error) => answer == Err::<LyricsResponse, LyricsError>(error),
    }
}

/// Joins the fetch of the text and the fetch of the cover image of one song
/// into the provider's answer.
pub fn join_fetches(
    song_title: &str,
    artist: &str,
    lyrics: LyricsResult<String>,
    cover_art: LyricsResult<Vec<u8>>,
) -> (answer: LyricsResult)
    ensures
        is_joined(answer, song_title@, artist@, lyrics, cover_art),
{
    match lyrics {
        Ok(text) => {
            let cover = match cover_art {
                Ok(bytes) => Some(bytes),
                Err(_) => None,
            };
            Ok(
                LyricsResponse {
                    artist: artist.to_owned(),
                    track: song_title.to_owned(),
                    lyrics: text,
                    cover_art: cover,
                },
            )
        },
        Err(error) => Err(error),
    }
}

/// What `scraper` finds in the document `html` for the CSS selector
/// `selector`: for each element that matches, in the order of the document,
/// the text nodes below it, in that order. `None` stands for a selector that
/// does not parse.
pub uninterp spec fn selected_text(html: Seq<char>, selector: Seq<char>) -> Option<
    Seq<Seq<Seq<char>>>,
>;

/// The text fragments of each element, as character sequences.
pub open spec fn fragments_view(divs: Vec<Vec<String>>) -> Seq<Seq<Seq<char>>> {
    Seq::new(divs.len() as nat, |i: int| Seq::new(divs[i].len() as nat, |j: int| divs[i][j]@))
}

/// The same for the elements of a selection that may have failed.
pub open spec fn selection_view(found: Option<Vec<Vec<String>>>) -> Option<Seq<Seq<Seq<char>>>> {
    match found {
        Some(divs) => Some(fragments_view(divs)),
        None => None,
    }
}

/// `scraper`'s `Selector::parse`, `Html::parse_document`, `Html::select` and
/// `ElementRef::text`: parses the selector and the document, and hands out
/// the text nodes of every element that the selector matches. The result is
/// a function of the two texts alone, which `selected_text` names.
#[verifier::external_body]
fn select_text(html: &str, selector: &str) -> (found: Option<Vec<Vec<String>>>)
    ensures
        selection_view(found) == selected_text(html@, selector@),
{
    let selector = match Selector::parse(selector) {
        Ok(selector) => selector,
        Err(_) => return None,
    };
    let document = Html::parse_document(html);
    let mut divs: Vec<Vec<String>> = Vec::new();
    for element in document.select(&selector) {
        divs.push(element.text().map(String::from).collect());
    }
    Some(divs)
}

/// A text fragment as it enters the lyrics: one that holds a line break loses
/// the white space at both ends.
pub open spec fn clean(fragment: Seq<char>) -> Seq<char> {
    if fragment.contains('\n') {
        trim(fragment)
    } else {
        fragment
    }
}

/// The lines of one element: its cleaned fragments, but for the blank ones.
pub open spec fn kept_lines(fragments: Seq<Seq<char>>) -> Seq<Seq<char>> {
    fragments.map_values(|fragment: Seq<char>| clean(fragment)).filter(
        |line: Seq<char>| !is_blank(line),
    )
}

/// The text of one element: its lines, one below the other.
pub open spec fn div_text(fragments: Seq<Seq<char>>) -> Seq<char> {
    join(kept_lines(fragments), seq!['\n'])
}

/// The texts of all elements, one directly behind the other.
pub open spec fn all_text(divs: Seq<Seq<Seq<char>>>) -> Seq<char>
    decreases divs.len(),
{
    if divs.len() == 0 {
        Seq::empty()
    } else {
        all_text(divs.drop_last()) + div_text(divs.last())
    }
}

/// The lyrics that the selected elements hold: their texts in a row, each
/// section header `[..]` on a line of its own, without white space at either
/// end.
pub open spec fn assembled(divs: Seq<Seq<Seq<char>>>) -> Seq<char> {
    trim(replace_char(all_text(divs), '[', seq!['\n', '[']))
}

/// The elements that hold the lyrics of a song page: those of the older
/// layout first, then those of the newer one.
pub open spec fn lyrics_divs(html: Seq<char>) -> Seq<Seq<Seq<char>>> {
    selection_or_empty(selected_text(html, CLASSIC_SELECTOR@)) + selection_or_empty(
        selected_text(html, CONTAINER_SELECTOR@),
    )
}

/// The elements of a selection, none where the selector did not parse.
pub open spec fn selection_or_empty(found: Option<Seq<Seq<Seq<char>>>>) -> Seq<Seq<Seq<char>>> {
    match found {
        Some(divs) => divs,
        None => Seq::empty(),
    }
}

/// The character sequences that a list of strings holds.
pub open spec fn strings_view(strings: Vec<String>) -> Seq<Seq<char>> {
    Seq::new(strings.len() as nat, |i: int| strings[i]@)
}

/// The text of one element, from its text fragments.
pub fn div_chars(fragments: &Vec<String>) -> (text: Vec<char>)
    ensures
        text@ == div_text(strings_view(*fragments)),
{
    let ghost all = strings_view(*fragments);
    let mut lines: Vec<Vec<char>> = Vec::new();
    let mut i: usize = 0;
    proof {
        reveal(Seq::filter);
        assert(lines_view(lines) =~= kept_lines(all.take(0)));
    }
    while i < fragments.len()
        invariant
            i <= fragments.len(),
            all == strings_view(*fragments),
            lines_view(lines) == kept_lines(all.take(i as int)),
        decreases fragments.len() - i,
    {
        let chars = chars_of(fragments[i].as_str());
        let line = if contains_char(&chars, '\n') {
            trim_chars(&chars)
        } else {
            chars
        };
        let ghost before = lines_view(lines);
        proof {
            reveal(Seq::filter);
            let cleaned = all.take(i + 1).map_values(|fragment: Seq<char>| clean(fragment));
            assert(line@ == clean(all[i as int]));
            assert(cleaned.drop_last() =~= all.take(i as int).map_values(
                |fragment: Seq<char>| clean(fragment),
            ));
            assert(cleaned.last() == line@);
        }
        if !is_blank_chars(&line) {
            lines.push(line);
            assert(lines_view(lines) =~= before.push(line@));
        }
        i = i + 1;
    }
    assert(all.take(i as int) =~= all);
    let mut separator: Vec<char> = Vec::new();
    separator.push('\n');
    assert(separator@ =~= seq!['\n']);
    join_chars(&lines, &separator)
}

/// The lyrics that the given elements hold, each element given by its text
/// fragments.
pub fn assemble_lyrics(divs: &Vec<Vec<String>>) -> (lyrics: String)
    ensures
        lyrics@ == assembled(fragments_view(*divs)),
{
    let ghost all = fragments_view(*divs);
    let mut text: Vec<char> = Vec::new();
    let mut i: usize = 0;
    while i < divs.len()
        invariant
            i <= divs.len(),
            all == fragments_view(*divs),
            text@ == all_text(all.take(i as int)),
        decreases divs.len() - i,
    {
        let part = div_chars(&divs[i]);
        proof {
            assert(all.take(i + 1).drop_last() =~= all.take(i as int));
            assert(all.take(i + 1).last() =~= strings_view(divs[i as int]));
        }
        push_all(&mut text, &part);
        i = i + 1;
    }
    assert(all.take(i as int) =~= all);
    let mut header: Vec<char> = Vec::new();
    header.push('\n');
    header.push('[');
    assert(header@ =~= seq!['\n', '[']);
    let replaced = replace_chars(&text, '[', &header);
    string_of(&trim_chars(&replaced))
}

/// The lyrics on a song page.
pub fn extract_lyrics(html: String) -> (lyrics: String)
    ensures
        lyrics@ == assembled(lyrics_divs(html@)),
{
    let classic = select_text(html.as_str(), CLASSIC_SELECTOR);
    let container = select_text(html.as_str(), CONTAINER_SELECTOR);
    let mut divs: Vec<Vec<String>> = match classic {
        Some(divs) => divs,
        None => Vec::new(),
    };
    let ghost first = fragments_view(divs);
    assert(first =~= selection_or_empty(selected_text(html@, CLASSIC_SELECTOR@)));
    match container {
        Some(mut more) => {
            let ghost second = fragments_view(more);
            divs.append(&mut more);
            assert(fragments_view(divs) =~= first + second);
        },
        None => {
            assert(fragments_view(divs) =~= first + Seq::<Seq<Seq<char>>>::empty());
        },
    }
    assemble_lyrics(&divs)
}

} // verus!
