//! A status-line engine: independent sources are polled, each result is
//! decorated for its slot, and the slots are joined into one published line.

use std::time::Duration;
use vstd::prelude::*;

pub mod aggregator;
pub mod alsa;
pub mod battery;
pub mod brightness;
pub mod cpu;
pub mod date;
pub mod levels;
pub mod memory;
pub mod mpd;
pub mod network;
pub mod render;
pub mod text;
pub mod wifi;

pub use crate::alsa::Alsa;
pub use crate::battery::Battery;
pub use crate::brightness::Brightness;
pub use crate::cpu::CPU;
pub use crate::date::Date;
pub use crate::memory::Memory;
pub use crate::mpd::{MPDError, MPD};
pub use crate::network::Network;
pub use crate::wifi::Wifi;

use crate::aggregator::Aggregator;
use crate::render::{render, rendered};

verus! {

/// One display fragment, as a source produces it on one poll.
#[derive(Debug)]
pub struct WidgetOutput {
    pub text: String,
    pub use_default_background: bool,
    pub use_default_foreground: bool,
}

/// What a fragment holds, its text as a sequence of characters.
pub struct Fragment {
    pub text: Seq<char>,
    pub use_default_background: bool,
    pub use_default_foreground: bool,
}

impl View for WidgetOutput {
    type V = Fragment;

    open spec fn view(&self) -> Fragment {
        Fragment {
            text: self.text@,
            use_default_background: self.use_default_background,
            use_default_foreground: self.use_default_foreground,
        }
    }
}

/// A source of fragments. Whatever fragment a query returns is decorated
/// and published. Of the pause the engine asks that the source declares
/// one: `interval` returns it, and a query leaves it as it is.
pub trait Widget: Send + Sync {
    /// The pause between two queries that the source declares. A source
    /// that is verified says what it is; of any other source the engine
    /// takes on trust what the two methods below promise of it.
    closed spec fn pause(&self) -> Duration {
        arbitrary()
    }

    /// Queries the source once. The declared pause stays as it is.
    fn get_output(&mut self) -> (out: WidgetOutput)
        ensures
            final(self).pause() == old(self).pause(),
    ;

    /// The pause between two queries of this source.
    fn interval(&self) -> (interval: Duration)
        ensures
            interval == self.pause(),
    ;
}

/// A source as the registry takes it.
pub type Handler = Box<dyn Widget>;

/// Where the loop of one source stands.
#[derive(Debug, Clone, Copy, PartialEq, Eq, Structural)]
pub enum Turn {
    /// The source rests: its wait was handed out, or is about to be.
    Resting,
    /// The source was queried and its update waits to be forwarded.
    Forwarding,
}

/// What the loop of a source reports back.
#[derive(Debug, Clone, Copy, PartialEq, Eq, Structural)]
pub enum Event {
    /// The wait is over.
    Woke,
    /// The update was forwarded.
    Sent,
}

/// What the loop of a source is to do next.
pub enum Action {
    /// Wait this long.
    Wait(Duration),
    /// Forward this text for this slot to the aggregator.
    Forward(usize, String),
}

/// Whether the source is queried on `event`: only when its wait is over.
pub open spec fn polls(turn: Turn, event: Event) -> bool {
    turn == Turn::Resting && event == Event::Woke
}

/// Where the loop stands after `event`.
pub open spec fn turn_after(turn: Turn, event: Event) -> Turn {
    if polls(turn, event) {
        Turn::Forwarding
    } else {
        Turn::Resting
    }
}

/// Where the loop stands after `events`, one by one.
pub open spec fn turn_after_all(turn: Turn, events: Seq<Event>) -> Turn
    decreases events.len(),
{
    if events.len() == 0 {
        turn
    } else {
        turn_after(turn_after_all(turn, events.drop_last()), events.last())
    }
}

/// Whether the source is queried on the event at `at`.
pub open spec fn polls_at(turn: Turn, events: Seq<Event>, at: int) -> bool {
    polls(turn_after_all(turn, events.take(at)), events[at])
}

/// A source is never queried twice in a row: the step after a query hands
/// out a wait, whatever is reported. So no query of a source begins before
/// the one before it has ended and a wait was handed out.
pub proof fn lemma_wait_between_polls(turn: Turn, events: Seq<Event>, at: int)
    requires
        0 <= at,
        at + 1 < events.len(),
        polls_at(turn, events, at),
    ensures
        !polls_at(turn, events, at + 1),
{
    assert(events.take(at + 1).drop_last() =~= events.take(at));
    assert(events.take(at + 1).last() == events[at]);
}

/// Two queries of a source are at least one wait apart in time. `times`
/// gives the moment of every report, in any unit, and `pause` is what a
/// wait lasts in that unit: every wait that `Task::start` and `Task::step`
/// hand out is the pause that the source declares. If no wake-up is
/// reported earlier than `pause` after the wait before it was handed out,
/// then a later query begins no earlier than `pause` after an earlier
/// one.
pub proof fn lemma_polls_are_a_wait_apart(
    turn: Turn,
    events: Seq<Event>,
    times: Seq<int>,
    pause: int,
    first: int,
    second: int,
)
    requires
        times.len() == events.len(),
        forall|i: int, j: int| 0 <= i <= j < times.len() ==> times[i] <= times[j],
        forall|k: int|
            0 < k < events.len() && events[k] == Event::Woke && !polls_at(turn, events, k - 1)
                ==> times[k] >= times[k - 1] + pause,
        0 <= first < second < events.len(),
        polls_at(turn, events, first),
        polls_at(turn, events, second),
    ensures
        times[second] >= times[first] + pause,
{
    let before = second - 1;
    if polls_at(turn, events, before) {
        lemma_wait_between_polls(turn, events, before);
    }
    assert(times[second] >= times[before] + pause);
    assert(times[first] <= times[before]);
}

/// The reports of a loop that is driven in turn: a wake-up, then the
/// forwarding of the update that it gave, and so on.
pub open spec fn in_turn(rounds: nat) -> Seq<Event>
    decreases rounds,
{
    if rounds == 0 {
        Seq::empty()
    } else {
        in_turn((rounds - 1) as nat).push(Event::Woke).push(Event::Sent)
    }
}

/// How many times the source is queried while `events` are reported.
pub open spec fn queries(turn: Turn, events: Seq<Event>) -> nat
    decreases events.len(),
{
    if events.len() == 0 {
        0
    } else {
        queries(turn, events.drop_last()) + if polls(
            turn_after_all(turn, events.drop_last()),
            events.last(),
        ) {
            1nat
        } else {
            0nat
        }
    }
}

/// A loop that is driven in turn queries its source once per wait that
/// ends: after `rounds` waits the source has given `rounds` updates, and
/// rests again.
pub proof fn lemma_one_update_per_wait(rounds: nat)
    ensures
        queries(Turn::Resting, in_turn(rounds)) == rounds,
        turn_after_all(Turn::Resting, in_turn(rounds)) == Turn::Resting,
        in_turn(rounds).len() == 2 * rounds,
    decreases rounds,
{
    if rounds > 0 {
        let before = in_turn((rounds - 1) as nat);
        lemma_one_update_per_wait((rounds - 1) as nat);
        let woke = before.push(Event::Woke);
        let all = woke.push(Event::Sent);
        assert(woke.drop_last() =~= before);
        assert(all.drop_last() =~= woke);
        assert(all == in_turn(rounds));
        assert(woke.last() == Event::Woke);
        assert(all.last() == Event::Sent);
        assert(turn_after_all(Turn::Resting, woke) == Turn::Forwarding);
        assert(queries(Turn::Resting, woke) == rounds);
        assert(queries(Turn::Resting, all) == rounds);
    }
}

/// A registered source together with its slot.
pub struct Task {
    index: usize,
    widget: Handler,
    turn: Turn,
}

impl Task {
    /// The slot that the fragments of this source fill.
    pub closed spec fn slot(&self) -> nat {
        self.index as nat
    }

    /// Where the loop of this source stands.
    pub closed spec fn turn(&self) -> Turn {
        self.turn
    }

    /// The pause between two queries that the source declares.
    pub closed spec fn period(&self) -> Duration {
        self.widget.pause()
    }

    fn bind(index: usize, widget: Handler) -> (task: Task)
        ensures
            task.slot() == index,
            task.turn() == Turn::Resting,
    {
        Task { index, widget, turn: Turn::Resting }
    }

    /// The slot that the source fills.
    pub fn index(&self) -> (index: usize)
        ensures
            index == self.slot(),
    {
        self.index
    }

    /// The pause between two queries, as the source declares it.
    pub fn interval(&self) -> (interval: Duration)
        ensures
            interval == self.period(),
    {
        self.widget.interval()
    }

    /// Queries the source once and decorates what it returned for its
    /// slot. The pair is what the aggregator takes.
    pub fn poll(&mut self) -> (update: (usize, String))
        ensures
            final(self).slot() == old(self).slot(),
            final(self).turn() == old(self).turn(),
            final(self).period() == old(self).period(),
            update.0 == old(self).slot(),
            exists|text: Seq<char>, foreground: bool, background: bool|
                update.1@ == rendered(text, foreground, background, old(self).slot()),
    {
        let fragment = self.widget.get_output();
        let shown = render(&fragment, self.index);
        assert(shown@ == rendered(
            fragment.text@,
            fragment.use_default_foreground,
            fragment.use_default_background,
            old(self).slot(),
        ));
        (self.index, shown)
    }

    /// Begins the loop: the source rests for its interval first.
    pub fn start(&mut self) -> (action: Action)
        ensures
            final(self).slot() == old(self).slot(),
            final(self).turn() == Turn::Resting,
            final(self).period() == old(self).period(),
            action == Action::Wait(old(self).period()),
    {
        self.turn = Turn::Resting;
        Action::Wait(self.widget.interval())
    }

    /// Takes what the loop reports and says what to do next. The source
    /// is queried when its wait is over, and then only; every other
    /// report is answered by a wait of the source's interval.
    pub fn step(&mut self, event: Event) -> (action: Action)
        ensures
            final(self).slot() == old(self).slot(),
            final(self).turn() == turn_after(old(self).turn(), event),
            final(self).period() == old(self).period(),
            polls(old(self).turn(), event) ==> (action matches Action::Forward(slot, shown)
                && slot == old(self).slot() && exists|
                text: Seq<char>,
                foreground: bool,
                background: bool,
            | shown@ == rendered(text, foreground, background, old(self).slot())),
            !polls(old(self).turn(), event) ==> action == Action::Wait(old(self).period()),
    {
        match (self.turn, event) {
            (Turn::Resting, Event::Woke) => {
                let update = self.poll();
                self.turn = Turn::Forwarding;
                Action::Forward(update.0, update.1)
            },
            _ => {
                self.turn = Turn::Resting;
                Action::Wait(self.widget.interval())
            },
        }
    }
}

/// The registry of sources, in registration order.
pub struct Barr {
    widgets: Vec<Task>,
}

impl View for Barr {
    type V = Seq<Task>;

    closed spec fn view(&self) -> Seq<Task> {
        self.widgets@
    }
}

impl Barr {
    /// The number of registered sources.
    pub open spec fn count(&self) -> nat {
        self@.len()
    }

    /// Every source sits at the index of its slot, and rests.
    #[verifier::type_invariant]
    spec fn ordered(&self) -> bool {
        forall|i: int|
            0 <= i < self.widgets@.len() ==> (#[trigger] self.widgets@[i]).slot() == i
                && self.widgets@[i].turn() == Turn::Resting
    }

    /// A registry without sources.
    pub fn new() -> (barr: Barr)
        ensures
            barr.count() == 0,
    {
        Barr { widgets: Vec::new() }
    }

    /// Registers `widget` under the next free slot: slots are given out
    /// in registration order, from zero, and never again. The sources
    /// registered before keep their places.
    pub fn add_widget(&mut self, widget: Handler)
        ensures
            final(self)@.len() == old(self)@.len() + 1,
            final(self)@.drop_last() == old(self)@,
            final(self)@.last().slot() == old(self)@.len(),
            final(self)@.last().turn() == Turn::Resting,
    {
        proof {
            use_type_invariant(&*self);
        }
        let task = Task::bind(self.widgets.len(), widget);
        let mut widgets: Vec<Task> = Vec::new();
        std::mem::swap(&mut self.widgets, &mut widgets);
        widgets.push(task);
        std::mem::swap(&mut self.widgets, &mut widgets);
        assert(self@.drop_last() =~= old(self)@);
    }

    /// The number of registered sources.
    pub fn len(&self) -> (n: usize)
        ensures
            n == self.count(),
    {
        self.widgets.len()
    }

    /// Sets the engine up to run: hands out one task per source, in
    /// registration order, each bound to the slot of its index, and the
    /// aggregator whose table has one empty slot for each of them. The
    /// embedding program drives the loop of every task, forwards what the
    /// tasks give to the aggregator, and publishes the lines that come of
    /// it.
    pub fn run(self) -> (parts: (Vec<Task>, Aggregator))
        ensures
            parts.0@ == self@,
            forall|i: int|
                0 <= i < parts.0@.len() ==> (#[trigger] parts.0@[i]).slot() == i
                    && parts.0@[i].turn() == Turn::Resting,
            parts.1@ == Seq::new(self.count(), |i: int| Seq::<char>::empty()),
    {
        proof {
            use_type_invariant(&self);
        }
        let aggregator = Aggregator::new(self.widgets.len());
        (self.widgets, aggregator)
    }
}

impl Default for Barr {
    fn default() -> (barr: Barr)
        ensures
            barr.count() == 0,
    {
        Barr::new()
    }
}

} // verus!
