//! The client's state and its decisions: which request follows which
//! reply, and when a poll is over.

use crate::mpd::fragment::{
    compose, empty_playlist, empty_playlist_output, playing, unavailable, unavailable_output,
};
use crate::mpd::song::{parse_song, song_reply};
use crate::mpd::status::{parse_status, status_reply};
use crate::mpd::{MPDError, Song, Status};
use crate::{Fragment, WidgetOutput};
use std::time::Duration;
use vstd::prelude::*;

verus! {

/// The link to the player. `H` is the handle that the embedding program
/// talks through; the client keeps it and never looks inside.
pub enum ConnectionState<H> {
    Disconnected,
    Connected(H),
}

/// What the client asks the embedding program to do next.
#[derive(Debug, Clone, Copy, PartialEq, Eq, Structural)]
pub enum Request {
    /// Send `currentsong` and read one buffer.
    CurrentSong,
    /// Send `status` and read one buffer.
    Status,
    /// Open a new link and discard the greeting.
    Reconnect,
}

impl Request {
    /// The command line to send, with its line feed; nothing for a
    /// reconnect.
    pub open spec fn line(self) -> Seq<char> {
        match self {
            Request::CurrentSong => "currentsong\n"@,
            Request::Status => "status\n"@,
            Request::Reconnect => ""@,
        }
    }

    /// The command line of [`Request::line`].
    pub fn command(&self) -> (line: &'static str)
        ensures
            line@ == self.line(),
    {
        match self {
            Request::CurrentSong => "currentsong\n",
            Request::Status => "status\n",
            Request::Reconnect => "",
        }
    }
}

/// What came of a request.
pub enum Reply<H> {
    /// The buffer that was read after a command.
    Response(Vec<u8>),
    /// Writing the command or reading the buffer failed.
    Failed,
    /// The new link, where one could be opened.
    Link(Option<H>),
}

/// What a reply holds.
pub enum Answer<H> {
    Response(Seq<u8>),
    Failed,
    Link(Option<H>),
}

impl<H> View for Reply<H> {
    type V = Answer<H>;

    open spec fn view(&self) -> Answer<H> {
        match self {
            Reply::Response(bytes) => Answer::Response(bytes@),
            Reply::Failed => Answer::Failed,
            Reply::Link(link) => Answer::Link(*link),
        }
    }
}

/// One step of a poll: a request to carry out, or the fragment the poll
/// ends in.
pub enum Step {
    Ask(Request),
    Done(WidgetOutput),
}

/// What a step holds.
pub enum Move {
    Ask(Request),
    Done(Fragment),
}

impl View for Step {
    type V = Move;

    open spec fn view(&self) -> Move {
        match self {
            Step::Ask(request) => Move::Ask(*request),
            Step::Done(output) => Move::Done(output@),
        }
    }
}

/// Where a poll stands.
pub enum Stage {
    /// No poll is under way.
    Idle,
    /// `currentsong` was asked; `retried` says that this follows a
    /// reconnect.
    Song { retried: bool },
    /// A reconnect was asked because `currentsong` failed.
    SongLink,
    /// `status` was asked for `song`; `retried` says that this follows a
    /// reconnect.
    Info { song: (Seq<char>, Seq<char>), retried: bool },
    /// A reconnect was asked because `status` failed.
    InfoLink { song: (Seq<char>, Seq<char>) },
}

enum Phase {
    Idle,
    Song { retried: bool },
    SongLink,
    Info { song: Song, retried: bool },
    InfoLink { song: Song },
}

impl View for Phase {
    type V = Stage;

    closed spec fn view(&self) -> Stage {
        match self {
            Phase::Idle => Stage::Idle,
            Phase::Song { retried } => Stage::Song { retried: *retried },
            Phase::SongLink => Stage::SongLink,
            Phase::Info { song, retried } => Stage::Info { song: song@, retried: *retried },
            Phase::InfoLink { song } => Stage::InfoLink { song: song@ },
        }
    }
}

/// The client's state: the handle of the link, while there is one; where
/// the poll stands; the colour of a track that does not play.
pub struct Client<H> {
    pub link: Option<H>,
    pub stage: Stage,
    pub colour: Seq<char>,
}

/// The client of the player.
pub struct MPD<H> {
    stream: ConnectionState<H>,
    interval: Duration,
    pause_color: String,
    phase: Phase,
}

/// What `currentsong` comes to: without a link, or where the exchange
/// failed (`answer` is `None`), a connection error; else what the response
/// says.
pub open spec fn song_result(connected: bool, answer: Option<Seq<u8>>) -> Result<
    (Seq<char>, Seq<char>),
    MPDError,
> {
    match answer {
        Some(bytes) if connected => song_reply(bytes),
        _ => Err(MPDError::ConnectionError),
    }
}

/// What `status` comes to: without a link, or where the exchange failed
/// (`answer` is `None`), a connection error; else what the response says.
pub open spec fn status_result(connected: bool, answer: Option<Seq<u8>>) -> Result<
    Status,
    MPDError,
> {
    match answer {
        Some(bytes) if connected => status_reply(bytes),
        _ => Err(MPDError::ConnectionError),
    }
}

/// Whether `currentsong` fails in a way that calls for a reconnect: with
/// any error but an empty playlist.
pub open spec fn song_fails(connected: bool, answer: Option<Seq<u8>>) -> bool {
    song_result(connected, answer) is Err && song_result(connected, answer) != Err::<
        (Seq<char>, Seq<char>),
        _,
    >(MPDError::EmptyPlaylist)
}

/// The state in which a poll starts, and its first step: `currentsong`
/// over the link, or, without a link, the reconnect that the failed
/// `currentsong` calls for.
pub open spec fn begun<H>(client: Client<H>) -> (Client<H>, Move) {
    if client.link is Some {
        (
            Client { link: client.link, stage: Stage::Song { retried: false }, colour: client.colour },
            Move::Ask(Request::CurrentSong),
        )
    } else {
        (
            Client { link: None, stage: Stage::SongLink, colour: client.colour },
            Move::Ask(Request::Reconnect),
        )
    }
}

/// The poll ends as unavailable; the link stays as it is.
pub open spec fn given_up<H>(client: Client<H>) -> (Client<H>, Move) {
    (
        Client { link: client.link, stage: Stage::Idle, colour: client.colour },
        Move::Done(unavailable()),
    )
}

/// An operation failed and the link is lost: the one reconnect of this
/// operation is asked for, or, if it was used already, the poll ends as
/// unavailable.
pub open spec fn failed<H>(client: Client<H>, retried: bool, link: Stage) -> (Client<H>, Move) {
    if retried {
        (
            Client { link: None, stage: Stage::Idle, colour: client.colour },
            Move::Done(unavailable()),
        )
    } else {
        (Client { link: None, stage: link, colour: client.colour }, Move::Ask(Request::Reconnect))
    }
}

/// The buffer that an exchange gave; nothing where the exchange failed,
/// or where the reply answers no command.
pub open spec fn exchanged<H>(answer: Answer<H>) -> Option<Seq<u8>> {
    match answer {
        Answer::Response(bytes) => Some(bytes),
        _ => None,
    }
}

/// The state and the step that follow `answer`. A reply that does not answer
/// the last request counts as a failure of that request.
pub open spec fn resumed<H>(client: Client<H>, answer: Answer<H>) -> (Client<H>, Move) {
    match client.stage {
        Stage::Idle => given_up(client),
        Stage::Song { retried } => match song_result(client.link is Some, exchanged(answer)) {
            Ok(song) => (
                Client {
                    link: client.link,
                    stage: Stage::Info { song, retried: false },
                    colour: client.colour,
                },
                Move::Ask(Request::Status),
            ),
            Err(MPDError::EmptyPlaylist) => (
                Client { link: client.link, stage: Stage::Idle, colour: client.colour },
                Move::Done(empty_playlist()),
            ),
            Err(_) => failed(client, retried, Stage::SongLink),
        },
        Stage::SongLink => match answer {
            Answer::Link(Some(handle)) => (
                Client {
                    link: Some(handle),
                    stage: Stage::Song { retried: true },
                    colour: client.colour,
                },
                Move::Ask(Request::CurrentSong),
            ),
            _ => given_up(client),
        },
        Stage::Info { song, retried } => match status_result(
            client.link is Some,
            exchanged(answer),
        ) {
            Ok(status) => (
                Client { link: client.link, stage: Stage::Idle, colour: client.colour },
                Move::Done(playing(song, status, client.colour)),
            ),
            Err(_) => failed(client, retried, Stage::InfoLink { song }),
        },
        Stage::InfoLink { song } => match answer {
            Answer::Link(Some(handle)) => (
                Client {
                    link: Some(handle),
                    stage: Stage::Info { song, retried: true },
                    colour: client.colour,
                },
                Move::Ask(Request::Status),
            ),
            _ => given_up(client),
        },
    }
}

impl<H> View for MPD<H> {
    type V = Client<H>;

    closed spec fn view(&self) -> Client<H> {
        Client {
            link: match self.stream {
                ConnectionState::Connected(handle) => Some(handle),
                ConnectionState::Disconnected => None,
            },
            stage: self.phase@,
            colour: self.pause_color@,
        }
    }
}

impl<H> MPD<H> {
    /// The pause between two polls.
    pub closed spec fn period(&self) -> Duration {
        self.interval
    }

    /// A client that polls every `interval`. It starts connected where the
    /// embedding program could open a link, and disconnected otherwise: the
    /// first poll then begins with a reconnect.
    pub fn new(interval: Duration, link: Option<H>) -> (client: Self)
        ensures
            client@ == (Client { link, stage: Stage::Idle, colour: "grey"@ }),
            client.period() == interval,
    {
        let stream = match link {
            Some(handle) => ConnectionState::Connected(handle),
            None => ConnectionState::Disconnected,
        };
        MPD { stream, interval, pause_color: String::from_str("grey"), phase: Phase::Idle }
    }

    /// The pause between two polls.
    pub fn interval(&self) -> (interval: Duration)
        ensures
            interval == self.period(),
    {
        self.interval
    }

    /// Whether there is a link.
    pub fn is_connected(&self) -> (connected: bool)
        ensures
            connected == self@.link is Some,
    {
        match &self.stream {
            ConnectionState::Connected(_) => true,
            ConnectionState::Disconnected => false,
        }
    }

    /// The handle to talk through, while there is a link.
    pub fn link(&self) -> (handle: Option<&H>)
        ensures
            handle matches Some(held) ==> self@.link == Some(*held),
            handle is None ==> self@.link is None,
    {
        match &self.stream {
            ConnectionState::Connected(handle) => Some(handle),
            ConnectionState::Disconnected => None,
        }
    }

    /// Takes the outcome of an attempt to open a new link. A new link
    /// replaces the state of the connection as a whole; a failed attempt
    /// leaves it as it was. Says whether there was a new link.
    pub fn reconnect(&mut self, link: Option<H>) -> (linked: bool)
        ensures
            linked == link is Some,
            final(self)@.link == if linked {
                link
            } else {
                old(self)@.link
            },
            final(self)@.stage == old(self)@.stage,
            final(self)@.colour == old(self)@.colour,
            final(self).period() == old(self).period(),
    {
        match link {
            Some(handle) => {
                self.stream = ConnectionState::Connected(handle);
                true
            },
            None => false,
        }
    }

    /// Reads the outcome of a `currentsong` exchange: the buffer that was
    /// read, or `None` where writing or reading failed. Every error but an
    /// empty playlist leaves the client disconnected.
    pub fn current_song(&mut self, answer: Option<&[u8]>) -> (out: Result<Song, MPDError>)
        ensures
            out matches Ok(song) ==> song_result(
                old(self)@.link is Some,
                match answer {
                    Some(bytes) => Some(bytes@),
                    None => None,
                },
            ) == Ok::<_, MPDError>(song@),
            out matches Err(error) ==> song_result(
                old(self)@.link is Some,
                match answer {
                    Some(bytes) => Some(bytes@),
                    None => None,
                },
            ) == Err::<(Seq<char>, Seq<char>), _>(error),
            final(self)@.link == if out is Ok || out == Err::<Song, _>(MPDError::EmptyPlaylist) {
                old(self)@.link
            } else {
                None
            },
            final(self)@.stage == old(self)@.stage,
            final(self)@.colour == old(self)@.colour,
            final(self).period() == old(self).period(),
    {
        let out = match answer {
            Some(bytes) => if self.is_connected() {
                parse_song(bytes)
            } else {
                Err(MPDError::ConnectionError)
            },
            None => Err(MPDError::ConnectionError),
        };
        match &out {
            Ok(_) => {},
            Err(MPDError::EmptyPlaylist) => {},
            Err(_) => {
                self.stream = ConnectionState::Disconnected;
            },
        }
        out
    }

    /// Reads the outcome of a `status` exchange: the buffer that was read,
    /// or `None` where writing or reading failed. Every error leaves the
    /// client disconnected.
    pub fn status(&mut self, answer: Option<&[u8]>) -> (out: Result<Status, MPDError>)
        ensures
            out == status_result(
                old(self)@.link is Some,
                match answer {
                    Some(bytes) => Some(bytes@),
                    None => None,
                },
            ),
            final(self)@.link == if out is Ok {
                old(self)@.link
            } else {
                None
            },
            final(self)@.stage == old(self)@.stage,
            final(self)@.colour == old(self)@.colour,
            final(self).period() == old(self).period(),
    {
        let out = match answer {
            Some(bytes) => if self.is_connected() {
                parse_status(bytes)
            } else {
                Err(MPDError::ConnectionError)
            },
            None => Err(MPDError::ConnectionError),
        };
        if out.is_err() {
            self.stream = ConnectionState::Disconnected;
        }
        out
    }

    /// Starts a poll and says what to do first.
    pub fn begin(&mut self) -> (step: Step)
        ensures
            (final(self)@, step@) == begun(old(self)@),
            final(self).period() == old(self).period(),
    {
        if self.is_connected() {
            self.phase = Phase::Song { retried: false };
            Step::Ask(Request::CurrentSong)
        } else {
            self.phase = Phase::SongLink;
            Step::Ask(Request::Reconnect)
        }
    }

    fn give_up(&mut self) -> (step: Step)
        ensures
            (final(self)@, step@) == given_up(old(self)@),
            final(self).period() == old(self).period(),
    {
        self.phase = Phase::Idle;
        Step::Done(unavailable_output())
    }

    /// Takes the reply to the last request and says what to do next, or
    /// which fragment the poll ends in.
    pub fn resume(&mut self, reply: Reply<H>) -> (step: Step)
        ensures
            (final(self)@, step@) == resumed(old(self)@, reply@),
            final(self).period() == old(self).period(),
    {
        let mut phase = Phase::Idle;
        std::mem::swap(&mut self.phase, &mut phase);
        match phase {
            Phase::Idle => self.give_up(),
            Phase::Song { retried } => {
                let song = match reply {
                    Reply::Response(bytes) => self.current_song(Some(bytes.as_slice())),
                    _ => self.current_song(None),
                };
                match song {
                    Ok(song) => {
                        self.phase = Phase::Info { song, retried: false };
                        Step::Ask(Request::Status)
                    },
                    Err(MPDError::EmptyPlaylist) => Step::Done(empty_playlist_output()),
                    Err(_) => if retried {
                        Step::Done(unavailable_output())
                    } else {
                        self.phase = Phase::SongLink;
                        Step::Ask(Request::Reconnect)
                    },
                }
            },
            Phase::SongLink => match reply {
                Reply::Link(Some(handle)) => {
                    self.stream = ConnectionState::Connected(handle);
                    self.phase = Phase::Song { retried: true };
                    Step::Ask(Request::CurrentSong)
                },
                _ => self.give_up(),
            },
            Phase::Info { song, retried } => {
                let status = match reply {
                    Reply::Response(bytes) => self.status(Some(bytes.as_slice())),
                    _ => self.status(None),
                };
                match status {
                    Ok(status) => Step::Done(compose(&song, &status, self.pause_color.as_str())),
                    Err(_) => if retried {
                        Step::Done(unavailable_output())
                    } else {
                        self.phase = Phase::InfoLink { song };
                        Step::Ask(Request::Reconnect)
                    },
                }
            },
            Phase::InfoLink { song } => match reply {
                Reply::Link(Some(handle)) => {
                    self.stream = ConnectionState::Connected(handle);
                    self.phase = Phase::Info { song, retried: true };
                    Step::Ask(Request::Status)
                },
                _ => self.give_up(),
            },
        }
    }
}

} // verus!
