use crate::text::chars_of;
use crate::text::replace_char;
use crate::text::replace_chars;
use crate::text::string_of;
use vstd::prelude::*;

verus! {

/// `text` as it may stand inside markup: every `&` written as `&amp;`.
pub open spec fn escaped(text: Seq<char>) -> Seq<char> {
    replace_char(text, '&', "&amp;"@)
}

/// `text` inside a span with the given attributes.
pub open spec fn span(attributes: Seq<char>, text: Seq<char>) -> Seq<char> {
    "<span "@ + attributes + ">"@ + escaped(text) + "</span>"@
}

/// `text` as it may stand inside markup.
pub fn escape_markup(text: &str) -> (markup: String)
    ensures
        markup@ == escaped(text@),
{
    let chars = chars_of(text);
    let entity = chars_of("&amp;");
    string_of(&replace_chars(&chars, '&', &entity))
}

/// `text` inside a span with the given attributes.
fn span_markup(attributes: &str, text: &str) -> (markup: String)
    ensures
        markup@ == span(attributes@, text@),
{
    let mut markup = "<span ".to_owned();
    markup.append(attributes);
    markup.append(">");
    markup.append(escape_markup(text).as_str());
    markup.append("</span>");
    markup
}

/// The markup that shows a song's title.
pub fn title_markup(song_title: &str) -> (markup: String)
    ensures
        markup@ == span("size=\"xx-large\""@, song_title@),
{
    span_markup("size=\"xx-large\"", song_title)
}

/// The markup that shows an artist's name.
pub fn artist_markup(artist_name: &str) -> (markup: String)
    ensures
        markup@ == span("size=\"x-large\" weight=\"bold\""@, artist_name@),
{
    span_markup("size=\"x-large\" weight=\"bold\"", artist_name)
}

/// The markup that shows the lyrics.
pub fn lyrics_markup(lyrics: &str) -> (markup: String)
    ensures
        markup@ == span("size=\"large\""@, lyrics@),
{
    span_markup("size=\"large\"", lyrics)
}

/// The line that says that a song could not be found.
pub fn not_found_text(song_title: &str, artist_name: &str) -> (text: String)
    ensures
        text@ == song_title@ + " - "@ + artist_name@ + " could not be found"@,
{
    let mut text = song_title.to_owned();
    text.append(" - ");
    text.append(artist_name);
    text.append(" could not be found");
    text
}

} // verus!
