//! The fragments that a poll of the player ends in.

use crate::mpd::{Song, State, Status};
use crate::text::{decimal, push_decimal};
use crate::{Fragment, WidgetOutput};
use vstd::prelude::*;

verus! {

/// The fragment shown while the player cannot be reached.
pub open spec fn unavailable() -> Fragment {
    Fragment {
        text: "<span foreground='red'>No MPD</span>"@,
        use_default_background: true,
        use_default_foreground: false,
    }
}

/// The fragment shown while the playlist is empty.
pub open spec fn empty_playlist() -> Fragment {
    Fragment {
        text: "<span foreground='grey'>Empty Playlist</span>"@,
        use_default_background: true,
        use_default_foreground: false,
    }
}

/// The share played, in square brackets, then artist and title with a dash
/// between them.
pub open spec fn progress(song: (Seq<char>, Seq<char>), percentage: nat) -> Seq<char> {
    "["@ + decimal(percentage) + "] "@ + song.0 + " - "@ + song.1
}

/// The fragment for a track: the share played, artist and title, plain
/// while it plays and in italics and in `colour` while it pauses; artist and
/// title alone, between slashes, in italics and in `colour`, once it has
/// stopped.
pub open spec fn playing(song: (Seq<char>, Seq<char>), status: Status, colour: Seq<char>) -> Fragment {
    match status.state {
        State::Play => Fragment {
            text: progress(song, status.percentage as nat),
            use_default_background: true,
            use_default_foreground: true,
        },
        State::Pause => Fragment {
            text: "<span foreground='"@ + colour + "'><i>"@ + progress(
                song,
                status.percentage as nat,
            ) + "</i></span>"@,
            use_default_background: true,
            use_default_foreground: false,
        },
        State::Stop => Fragment {
            text: "<span foreground='"@ + colour + "'><i>/"@ + song.0 + " - "@ + song.1
                + "/</i></span>"@,
            use_default_background: true,
            use_default_foreground: true,
        },
    }
}

fn progress_text(song: &Song, percentage: u8) -> (out: String)
    ensures
        out@ == progress(song@, percentage as nat),
{
    let mut out = String::from_str("[");
    push_decimal(&mut out, percentage as u128);
    out.append("] ");
    out.append(song.artist.as_str());
    out.append(" - ");
    out.append(song.title.as_str());
    out
}

/// The fragment for a track and the status that came with it.
pub fn compose(song: &Song, status: &Status, colour: &str) -> (out: WidgetOutput)
    ensures
        out@ == playing(song@, *status, colour@),
{
    match status.state {
        State::Play => WidgetOutput {
            text: progress_text(song, status.percentage),
            use_default_background: true,
            use_default_foreground: true,
        },
        State::Pause => {
            let mut text = String::from_str("<span foreground='");
            text.append(colour);
            text.append("'><i>");
            text.append(progress_text(song, status.percentage).as_str());
            text.append("</i></span>");
            WidgetOutput { text, use_default_background: true, use_default_foreground: false }
        },
        State::Stop => {
            let mut text = String::from_str("<span foreground='");
            text.append(colour);
            text.append("'><i>/");
            text.append(song.artist.as_str());
            text.append(" - ");
            text.append(song.title.as_str());
            text.append("/</i></span>");
            WidgetOutput { text, use_default_background: true, use_default_foreground: true }
        },
    }
}

/// The fragment of [`unavailable`].
pub fn unavailable_output() -> (out: WidgetOutput)
    ensures
        out@ == unavailable(),
{
    WidgetOutput {
        text: String::from_str("<span foreground='red'>No MPD</span>"),
        use_default_background: true,
        use_default_foreground: false,
    }
}

/// The fragment of [`empty_playlist`].
pub fn empty_playlist_output() -> (out: WidgetOutput)
    ensures
        out@ == empty_playlist(),
{
    WidgetOutput {
        text: String::from_str("<span foreground='grey'>Empty Playlist</span>"),
        use_default_background: true,
        use_default_foreground: false,
    }
}

} // verus!
