//! The client of the music player's line protocol: what a response buffer
//! says, which fragment a poll ends in, and when the client reconnects.

use crate::text::{chars_of, lines, split_lines, trim_of, trimmed_of, views};
use vstd::prelude::*;
use vstd::utf8::{decode_utf8, valid_utf8};

pub mod client;
pub mod fragment;
pub mod laws;
pub mod song;
pub mod status;

pub use crate::mpd::client::{Answer, Client, ConnectionState, Move, Reply, Request, Stage, Step, MPD};
pub use crate::mpd::fragment::{compose, empty_playlist_output, unavailable_output};
pub use crate::mpd::song::parse_song;
pub use crate::mpd::status::{parse_status, percent};

verus! {

/// What the player is doing.
#[derive(Debug, Clone, Copy, PartialEq, Eq, Structural)]
pub enum State {
    Pause,
    Play,
    Stop,
}

/// The four switches of the player.
#[derive(Debug, Clone, Copy, PartialEq, Eq, Structural)]
pub struct StatusFlags {
    pub repeat: bool,
    pub random: bool,
    pub single: bool,
    pub consume: bool,
}

impl Default for StatusFlags {
    fn default() -> (flags: StatusFlags)
        ensures
            flags == (StatusFlags { repeat: false, random: false, single: false, consume: false }),
    {
        StatusFlags { repeat: false, random: false, single: false, consume: false }
    }
}

impl StatusFlags {
    /// One letter per switch, in the order random, consume, repeat, single:
    /// a capital where the switch is on.
    pub open spec fn letters(self) -> Seq<char> {
        seq![
            if self.random {
                'Z'
            } else {
                'z'
            },
            if self.consume {
                'C'
            } else {
                'c'
            },
            if self.repeat {
                'R'
            } else {
                'r'
            },
            if self.single {
                'Y'
            } else {
                'y'
            },
        ]
    }

    /// The letters of [`StatusFlags::letters`] as a string.
    pub fn to_text(&self) -> (out: String)
        ensures
            out@ == self.letters(),
    {
        let mut out = String::new();
        out.push(
            if self.random {
                'Z'
            } else {
                'z'
            },
        );
        out.push(
            if self.consume {
                'C'
            } else {
                'c'
            },
        );
        out.push(
            if self.repeat {
                'R'
            } else {
                'r'
            },
        );
        out.push(
            if self.single {
                'Y'
            } else {
                'y'
            },
        );
        assert(out@ =~= self.letters());
        out
    }
}

/// The player's status as one response gives it.
#[derive(Debug, Clone, Copy, PartialEq, Eq, Structural)]
pub struct Status {
    pub flags: StatusFlags,
    pub percentage: u8,
    pub state: State,
}

/// The current track.
#[derive(Debug)]
pub struct Song {
    pub artist: String,
    pub title: String,
}

impl View for Song {
    type V = (Seq<char>, Seq<char>);

    open spec fn view(&self) -> (Seq<char>, Seq<char>) {
        (self.artist@, self.title@)
    }
}

/// Why an exchange with the player gave no answer to use. An empty
/// playlist is a steady state of the player, not a failure of the link.
#[derive(Debug, Clone, Copy, PartialEq, Eq, Structural)]
pub enum MPDError {
    ConnectionError,
    ParseError,
    EmptyPlaylist,
}

/// `str::from_utf8` accepts a buffer exactly when it is well-formed UTF-8,
/// and the text it gives then holds the characters that the bytes encode.
#[verifier::external_body]
pub(crate) fn decode(bytes: &[u8]) -> (out: Option<String>)
    ensures
        out is Some <==> valid_utf8(bytes@),
        out matches Some(text) ==> text@ == decode_utf8(bytes@),
{
    match std::str::from_utf8(bytes) {
        Ok(text) => Some(text.to_owned()),
        Err(_) => None,
    }
}

/// The lines of a response without its padding.
pub open spec fn response_lines(text: Seq<char>) -> Seq<Seq<char>> {
    lines(trimmed_of(text, '\0'))
}

pub(crate) fn read_lines(text: &str) -> (out: Vec<Vec<char>>)
    ensures
        views(out@) == response_lines(text@),
{
    let chars = chars_of(text);
    let body = trim_of(&chars, '\0');
    split_lines(&body)
}

} // verus!
