//! What holds of every poll: how often it reconnects, and when it ends.

use crate::mpd::client::{
    begun, exchanged, resumed, song_fails, song_result, status_result, Answer, Client, Move,
    Request, Stage,
};
use crate::mpd::fragment::{empty_playlist, playing, unavailable};
use crate::mpd::song::has_marker;
use crate::mpd::{MPDError, State, Status};
use crate::Fragment;
use vstd::prelude::*;

verus! {

/// How many reconnects a poll asks for from `step` on, while it takes
/// `answers` one by one. The count ends where the poll is done or the
/// answers run out.
pub open spec fn reconnects<H>(client: Client<H>, step: Move, answers: Seq<Answer<H>>) -> nat
    decreases answers.len(),
{
    let here: nat = if step == Move::Ask(Request::Reconnect) {
        1
    } else {
        0
    };
    if step is Done || answers.len() == 0 {
        here
    } else {
        let next = resumed(client, answers[0]);
        here + reconnects(next.0, next.1, answers.drop_first())
    }
}

/// The fragment that a poll ends in, from `step` on, while it takes
/// `answers` one by one; nothing where the answers run out first.
pub open spec fn outcome<H>(client: Client<H>, step: Move, answers: Seq<Answer<H>>) -> Option<
    Fragment,
>
    decreases answers.len(),
{
    match step {
        Move::Done(fragment) => Some(fragment),
        Move::Ask(_) => if answers.len() == 0 {
            None
        } else {
            let next = resumed(client, answers[0]);
            outcome(next.0, next.1, answers.drop_first())
        },
    }
}

/// The reconnects that one whole poll asks for.
pub open spec fn poll_reconnects<H>(client: Client<H>, answers: Seq<Answer<H>>) -> nat {
    reconnects(begun(client).0, begun(client).1, answers)
}

/// The fragment that one whole poll ends in.
pub open spec fn poll_outcome<H>(client: Client<H>, answers: Seq<Answer<H>>) -> Option<Fragment> {
    outcome(begun(client).0, begun(client).1, answers)
}

/// Whether in this poll both operations fail at their first attempt:
/// `currentsong` fails or finds no link, the reconnect and the second
/// attempt succeed, and `status` fails then.
pub open spec fn both_fail<H>(client: Client<H>, answers: Seq<Answer<H>>) -> bool {
    if client.link is Some {
        &&& answers.len() >= 4
        &&& song_fails(true, exchanged(answers[0]))
        &&& answers[1] matches Answer::Link(Some(_))
        &&& song_result(true, exchanged(answers[2])) is Ok
        &&& status_result(true, exchanged(answers[3])) is Err
    } else {
        &&& answers.len() >= 3
        &&& answers[0] matches Answer::Link(Some(_))
        &&& song_result(true, exchanged(answers[1])) is Ok
        &&& status_result(true, exchanged(answers[2])) is Err
    }
}

/// A response that does not begin with the marker means an empty playlist:
/// the poll ends in that fragment at once, the link stays, and no
/// reconnect is asked for.
pub proof fn lemma_empty_playlist_is_no_failure<H>(client: Client<H>, bytes: Seq<u8>)
    requires
        client.link is Some,
        client.stage is Song,
        !has_marker(bytes),
    ensures
        song_result(true, Some(bytes)) == Err::<(Seq<char>, Seq<char>), _>(
            MPDError::EmptyPlaylist,
        ),
        resumed(client, Answer::Response(bytes)).1 == Move::Done(empty_playlist()),
        resumed(client, Answer::Response(bytes)).0.link == client.link,
{
}

/// A poll whose first response lacks the marker asks for no reconnect at
/// all.
pub proof fn lemma_empty_playlist_poll<H>(client: Client<H>, answers: Seq<Answer<H>>)
    requires
        client.link is Some,
        answers.len() > 0,
        answers[0] matches Answer::Response(bytes) && !has_marker(bytes),
    ensures
        poll_reconnects(client, answers) == 0,
        poll_outcome(client, answers) == Some(empty_playlist()),
{
    reveal_with_fuel(reconnects, 3);
    reveal_with_fuel(outcome, 3);
}

/// After the reconnect of an operation, a second failure of that operation
/// ends the poll as unavailable: no further reconnect is asked for.
pub proof fn lemma_no_second_reconnect<H>(client: Client<H>, answer: Answer<H>)
    requires
        client.stage matches Stage::Song { retried: true } || client.stage matches Stage::Info {
            retried: true,
            ..
        },
    ensures
        resumed(client, answer).1 != Move::Ask(Request::Reconnect),
        client.stage is Song && song_fails(client.link is Some, exchanged(answer)) ==> resumed(
            client,
            answer,
        ).1 == Move::Done(unavailable()),
        client.stage is Info && status_result(client.link is Some, exchanged(answer)) is Err
            ==> resumed(client, answer).1 == Move::Done(unavailable()),
{
}

/// A reconnect that fails ends the poll as unavailable.
pub proof fn lemma_failed_reconnect_gives_up<H>(client: Client<H>)
    requires
        client.stage is SongLink || client.stage is InfoLink,
    ensures
        resumed(client, Answer::Link(None)).1 == Move::Done(unavailable()),
{
}

/// Every poll is over after six answers at most.
pub proof fn lemma_poll_ends<H>(client: Client<H>, answers: Seq<Answer<H>>)
    requires
        answers.len() >= 6,
    ensures
        poll_outcome(client, answers) is Some,
{
    lemma_poll_shape(client, answers);
}

/// A poll asks for at most one reconnect per operation, so for two at
/// most; it asks for two exactly when both operations fail at their first
/// attempt. A poll that ends as unavailable asked for a reconnect.
pub proof fn lemma_reconnects_per_poll<H>(client: Client<H>, answers: Seq<Answer<H>>)
    ensures
        poll_reconnects(client, answers) <= 2,
        poll_reconnects(client, answers) == 2 <==> both_fail(client, answers),
        poll_outcome(client, answers) == Some(unavailable()) ==> poll_reconnects(client, answers)
            >= 1,
{
    lemma_poll_shape(client, answers);
}

/// Where the two operations do not both fail at their first attempt, a
/// poll that ends as unavailable asked for exactly one reconnect.
pub proof fn lemma_one_reconnect_per_failed_poll<H>(client: Client<H>, answers: Seq<Answer<H>>)
    requires
        !both_fail(client, answers),
        poll_outcome(client, answers) == Some(unavailable()),
    ensures
        poll_reconnects(client, answers) == 1,
{
    lemma_poll_shape(client, answers);
}

/// The fragment for a track is never the one shown while the player
/// cannot be reached.
pub proof fn lemma_track_is_not_unavailable(
    song: (Seq<char>, Seq<char>),
    status: Status,
    colour: Seq<char>,
)
    ensures
        playing(song, status, colour) != unavailable(),
{
    if status.state == State::Pause {
        let tail = "</i></span>"@;
        let text = playing(song, status, colour).text;
        let other = unavailable().text;
        reveal_strlit("</i></span>");
        reveal_strlit("<span foreground='red'>No MPD</span>");
        assert(text.len() >= 11);
        assert(text[text.len() - 8] == tail[3]);
        assert(tail[3] == '>');
        assert(other.len() == 36);
        assert(other[28] == 'D');
    }
}

proof fn lemma_poll_shape<H>(client: Client<H>, answers: Seq<Answer<H>>)
    ensures
        poll_reconnects(client, answers) <= 2,
        poll_reconnects(client, answers) == 2 <==> both_fail(client, answers),
        poll_outcome(client, answers) == Some(unavailable()) ==> poll_reconnects(client, answers)
            >= 1,
        answers.len() >= 6 ==> poll_outcome(client, answers) is Some,
{
    reveal_with_fuel(reconnects, 8);
    reveal_with_fuel(outcome, 8);
    assert forall|song: (Seq<char>, Seq<char>), status: Status, colour: Seq<char>|
        #[trigger] playing(song, status, colour) != unavailable() by {
        lemma_track_is_not_unavailable(song, status, colour);
    }
    assert(empty_playlist() != unavailable()) by {
        reveal_strlit("<span foreground='grey'>Empty Playlist</span>");
        reveal_strlit("<span foreground='red'>No MPD</span>");
        assert(empty_playlist().text.len() != unavailable().text.len());
    }
    let a1 = answers.drop_first();
    let a2 = a1.drop_first();
    let a3 = a2.drop_first();
    let a4 = a3.drop_first();
    let a5 = a4.drop_first();
    if answers.len() > 0 {
        assert(a1.len() == answers.len() - 1);
        if a1.len() > 0 {
            assert(a1[0] == answers[1]);
            if a2.len() > 0 {
                assert(a2[0] == answers[2]);
                if a3.len() > 0 {
                    assert(a3[0] == answers[3]);
                    if a4.len() > 0 {
                        assert(a4[0] == answers[4]);
                        if a5.len() > 0 {
                            assert(a5[0] == answers[5]);
                        }
                    }
                }
            }
        }
    }
}

} // verus!
