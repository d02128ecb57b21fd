//! The response to `currentsong`: whether a track is present, and its
//! artist and title.

use crate::mpd::{decode, read_lines, response_lines, MPDError, Song};
use crate::text::{
    after_first_white, chars_of, has_prefix, rest_after_white, starts_with, string_of, views,
};
use vstd::prelude::*;
use vstd::utf8::{decode_utf8, valid_utf8};

verus! {

/// Whether a response begins with the bytes `file`, which say that a track
/// is present.
pub open spec fn has_marker(bytes: Seq<u8>) -> bool {
    &&& bytes.len() >= 4
    &&& bytes[0] == 0x66
    &&& bytes[1] == 0x69
    &&& bytes[2] == 0x6c
    &&& bytes[3] == 0x65
}

/// The value of the first line at or after `from` that begins with
/// `prefix`: what follows the first white space of that line. Nothing
/// where no line begins so.
pub open spec fn field_from(lines: Seq<Seq<char>>, prefix: Seq<char>, from: int) -> Option<
    Seq<char>,
>
    decreases lines.len() - from,
{
    if from >= lines.len() {
        None
    } else if has_prefix(lines[from], prefix) {
        Some(after_first_white(lines[from]))
    } else {
        field_from(lines, prefix, from + 1)
    }
}

/// The value of the first line that begins with `prefix`.
pub open spec fn field(lines: Seq<Seq<char>>, prefix: Seq<char>) -> Option<Seq<char>> {
    field_from(lines, prefix, 0)
}

/// Artist and title as a track's description gives them, each found by the
/// prefix of its line. A track that has only one of the two gets a
/// placeholder for the other; a description with neither gives nothing.
pub open spec fn song_of(text: Seq<char>) -> Option<(Seq<char>, Seq<char>)> {
    let lines = response_lines(text);
    match (field(lines, "Artist"@), field(lines, "Title"@)) {
        (None, None) => None,
        (artist, title) => Some(
            (
                match artist {
                    Some(name) => name,
                    None => "<i>No Artist</i>"@,
                },
                match title {
                    Some(name) => name,
                    None => "<i>No Title</i>"@,
                },
            ),
        ),
    }
}

/// What the response to `currentsong` says: without the marker, that the
/// playlist is empty; else the track, unless the buffer is ill-encoded or
/// names neither artist nor title.
pub open spec fn song_reply(bytes: Seq<u8>) -> Result<(Seq<char>, Seq<char>), MPDError> {
    if !has_marker(bytes) {
        Err(MPDError::EmptyPlaylist)
    } else if !valid_utf8(bytes) {
        Err(MPDError::ParseError)
    } else {
        match song_of(decode_utf8(bytes)) {
            Some(pair) => Ok(pair),
            None => Err(MPDError::ConnectionError),
        }
    }
}

fn marked(bytes: &[u8]) -> (found: bool)
    ensures
        found == has_marker(bytes@),
{
    bytes.len() >= 4 && bytes[0] == 0x66 && bytes[1] == 0x69 && bytes[2] == 0x6c && bytes[3]
        == 0x65
}

fn find_field(lines: &Vec<Vec<char>>, prefix: &str) -> (value: Option<String>)
    ensures
        value is Some <==> field(views(lines@), prefix@) is Some,
        value matches Some(found) ==> field(views(lines@), prefix@) == Some(found@),
{
    let wanted = chars_of(prefix);
    let ghost source = views(lines@);
    let mut i: usize = 0;
    while i < lines.len()
        invariant
            i <= lines.len(),
            wanted@ == prefix@,
            source == views(lines@),
            field_from(source, prefix@, i as int) == field(source, prefix@),
        decreases lines.len() - i,
    {
        let line = &lines[i];
        assert(source[i as int] == line@);
        if starts_with(line, &wanted) {
            return Some(string_of(&rest_after_white(line)));
        }
        i += 1;
    }
    None
}

fn read_song(text: &str) -> (out: Option<Song>)
    ensures
        out is Some <==> song_of(text@) is Some,
        out matches Some(song) ==> Some(song@) == song_of(text@),
{
    let lines = read_lines(text);
    match (find_field(&lines, "Artist"), find_field(&lines, "Title")) {
        (None, None) => None,
        (artist, title) => {
            let artist = match artist {
                Some(name) => name,
                None => String::from_str("<i>No Artist</i>"),
            };
            let title = match title {
                Some(name) => name,
                None => String::from_str("<i>No Title</i>"),
            };
            Some(Song { artist, title })
        },
    }
}

/// Reads the response to `currentsong`.
pub fn parse_song(bytes: &[u8]) -> (out: Result<Song, MPDError>)
    ensures
        out matches Ok(song) ==> song_reply(bytes@) == Ok::<_, MPDError>(song@),
        out matches Err(error) ==> song_reply(bytes@) == Err::<(Seq<char>, Seq<char>), _>(error),
{
    if !marked(bytes) {
        return Err(MPDError::EmptyPlaylist);
    }
    match decode(bytes) {
        None => Err(MPDError::ParseError),
        Some(text) => match read_song(text.as_str()) {
            Some(song) => Ok(song),
            None => Err(MPDError::ConnectionError),
        },
    }
}

} // verus!
