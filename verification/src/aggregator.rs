//! The slot table: the last text shown for each source, and the line that
//! the slots make together.

use vstd::prelude::*;

verus! {

/// The text of every slot, in registration order.
pub struct Aggregator {
    slots: Vec<String>,
}

/// The texts that a vector of strings holds.
pub open spec fn texts(slots: Seq<String>) -> Seq<Seq<char>> {
    Seq::new(slots.len(), |i: int| slots[i]@)
}

impl View for Aggregator {
    type V = Seq<Seq<char>>;

    closed spec fn view(&self) -> Seq<Seq<char>> {
        texts(self.slots@)
    }
}

impl Aggregator {
    /// A table of `count` slots, all empty.
    pub fn new(count: usize) -> (table: Aggregator)
        ensures
            table@ == Seq::new(count as nat, |i: int| Seq::<char>::empty()),
    {
        let mut slots: Vec<String> = Vec::new();
        let mut i: usize = 0;
        while i < count
            invariant
                i <= count,
                slots@.len() == i,
                forall|k: int| 0 <= k < i ==> (#[trigger] slots@[k])@ == Seq::<char>::empty(),
            decreases count - i,
        {
            slots.push(String::new());
            i += 1;
        }
        let table = Aggregator { slots };
        assert(table@ =~= Seq::new(count as nat, |i: int| Seq::<char>::empty()));
        table
    }

    /// The number of slots.
    pub fn len(&self) -> (n: usize)
        ensures
            n == self@.len(),
    {
        self.slots.len()
    }

    /// The slots joined in order, with nothing between them.
    pub fn line(&self) -> (line: String)
        ensures
            line@ == self@.flatten(),
    {
        let mut line = String::new();
        let mut i: usize = 0;
        while i < self.slots.len()
            invariant
                i <= self.slots.len(),
                line@ == self@.take(i as int).flatten(),
            decreases self.slots.len() - i,
        {
            line.append(self.slots[i].as_str());
            proof {
                let done = self@.take(i as int);
                assert(self@.take(i + 1) =~= done.push(self@[i as int]));
                done.lemma_flatten_push(self@[i as int]);
            }
            i += 1;
        }
        assert(self@.take(i as int) =~= self@);
        line
    }

    /// Takes the text that arrived for `slot` and returns the line to
    /// publish: every slot as last written, the other slots untouched.
    pub fn receive(&mut self, slot: usize, text: String) -> (line: String)
        requires
            slot < old(self)@.len(),
        ensures
            final(self)@ == old(self)@.update(slot as int, text@),
            line@ == final(self)@.flatten(),
    {
        self.slots.set(slot, text);
        assert(self@ =~= old(self)@.update(slot as int, text@));
        self.line()
    }
}

/// A table of `count` empty slots.
pub open spec fn blank(count: nat) -> Seq<Seq<char>> {
    Seq::new(count, |i: int| Seq::<char>::empty())
}

/// The table after the arrivals `(slot, text)` were taken in their order.
pub open spec fn after(slots: Seq<Seq<char>>, arrivals: Seq<(int, Seq<char>)>) -> Seq<Seq<char>>
    decreases arrivals.len(),
{
    if arrivals.len() == 0 {
        slots
    } else {
        after(slots, arrivals.drop_last()).update(arrivals.last().0, arrivals.last().1)
    }
}

/// The text of the last arrival for `slot`; nothing where none arrived.
pub open spec fn latest(arrivals: Seq<(int, Seq<char>)>, slot: int) -> Seq<char>
    decreases arrivals.len(),
{
    if arrivals.len() == 0 {
        Seq::empty()
    } else if arrivals.last().0 == slot {
        arrivals.last().1
    } else {
        latest(arrivals.drop_last(), slot)
    }
}

/// The line that is published after `arrivals`, starting from `count`
/// empty slots.
pub open spec fn published(count: nat, arrivals: Seq<(int, Seq<char>)>) -> Seq<char> {
    after(blank(count), arrivals).flatten()
}

/// However the updates of the sources interleave, the table keeps one slot
/// per source, and the published line is the concatenation, in registration
/// order, of the latest text of each source.
pub proof fn lemma_line_in_registration_order(count: nat, arrivals: Seq<(int, Seq<char>)>)
    requires
        forall|k: int| 0 <= k < arrivals.len() ==> 0 <= (#[trigger] arrivals[k]).0 < count,
    ensures
        after(blank(count), arrivals).len() == count,
        after(blank(count), arrivals) == Seq::new(count, |i: int| latest(arrivals, i)),
        published(count, arrivals) == Seq::new(count, |i: int| latest(arrivals, i)).flatten(),
    decreases arrivals.len(),
{
    if arrivals.len() > 0 {
        let earlier = arrivals.drop_last();
        assert forall|k: int| 0 <= k < earlier.len() implies 0 <= (#[trigger] earlier[k]).0
            < count by {
            assert(earlier[k] == arrivals[k]);
        }
        lemma_line_in_registration_order(count, earlier);
    }
    assert(after(blank(count), arrivals) =~= Seq::new(count, |i: int| latest(arrivals, i)));
}

/// Two runs in which every source last sent the same text publish the same
/// line, in whatever order the updates arrived.
pub proof fn lemma_line_ignores_arrival_order(
    count: nat,
    first: Seq<(int, Seq<char>)>,
    second: Seq<(int, Seq<char>)>,
)
    requires
        forall|k: int| 0 <= k < first.len() ==> 0 <= (#[trigger] first[k]).0 < count,
        forall|k: int| 0 <= k < second.len() ==> 0 <= (#[trigger] second[k]).0 < count,
        forall|slot: int| 0 <= slot < count ==> latest(first, slot) == latest(second, slot),
    ensures
        published(count, first) == published(count, second),
{
    lemma_line_in_registration_order(count, first);
    lemma_line_in_registration_order(count, second);
    assert(Seq::new(count, |i: int| latest(first, i)) =~= Seq::new(
        count,
        |i: int| latest(second, i),
    ));
}

} // verus!
