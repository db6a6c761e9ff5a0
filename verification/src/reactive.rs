//! Reactive primitives: an owned emission endpoint (`Sink`), a multicast
//! read-only view of its emissions (`Stream`), and a continuously-readable
//! most-recent-value view (`Cell`).
//!
//! A `Sink` records every value sent on it, in order. A `Stream` is a
//! handle that observes every emission made after the handle was attached
//! and none made before; any number of streams may observe one sink, and
//! all of them see the same values in the same order. A `Cell` pairs a
//! stream with an initial value and always reads the most recently emitted
//! value, or the initial value while nothing has been emitted yet.

use vstd::prelude::*;
use core::marker::PhantomData;

verus! {

/// An owned emission endpoint. The single owner writes; any number of
/// derived streams and cells read.
pub struct Sink<T> {
    pub history: Vec<T>,
}

impl<T> View for Sink<T> {
    type V = Seq<T>;

    open spec fn view(&self) -> Seq<T> {
        self.history@
    }
}

/// A read-only handle on a sink's emissions, observing everything sent
/// after the point at which it was attached.
pub struct Stream<T> {
    pub attach: usize,
    pub marker: PhantomData<T>,
}

/// A continuously-readable view: the most recent value emitted after the
/// underlying stream attached, or the initial value if there is none yet.
pub struct Cell<T> {
    pub initial: T,
    pub attach: usize,
}

impl<T> Sink<T> {
    /// A fresh sink with no emissions.
    pub fn new() -> (s: Sink<T>)
        ensures
            s@ == Seq::<T>::empty(),
    {
        Sink { history: Vec::new() }
    }

    /// Emit one value: it is appended to the emission history, after
    /// everything sent earlier, and so becomes visible, in order, to every
    /// stream and cell attached to this sink.
    pub fn send(&mut self, value: T)
        ensures
            final(self)@ == old(self)@.push(value),
    {
        self.history.push(value);
    }

    /// Attach a new stream: it observes exactly the emissions made from
    /// this point on.
    pub fn stream(&self) -> (r: Stream<T>)
        ensures
            r.attach == self@.len(),
    {
        Stream { attach: self.history.len(), marker: PhantomData }
    }

    /// How many values have been emitted so far.
    pub fn len(&self) -> (n: usize)
        ensures
            n == self@.len(),
    {
        self.history.len()
    }
}

impl<T> Stream<T> {
    /// The emissions this stream observes, given the full emission history
    /// of its sink: everything from its attach point on.
    pub open spec fn observed(&self, history: Seq<T>) -> Seq<T> {
        if self.attach <= history.len() {
            history.skip(self.attach as int)
        } else {
            Seq::empty()
        }
    }

    /// Derive a cell: it reads `initial` until the stream emits, and the
    /// most recent emission afterwards.
    pub fn hold(&self, initial: T) -> (c: Cell<T>)
        ensures
            c.initial == initial,
            c.attach == self.attach,
    {
        Cell { initial, attach: self.attach }
    }

    /// The values this stream has observed so far on `sink`, in emission
    /// order.
    pub fn events(&self, sink: &Sink<T>) -> (r: Vec<T>) where T: Copy
        ensures
            r@ == self.observed(sink@),
    {
        let mut out: Vec<T> = Vec::new();
        if self.attach > sink.history.len() {
            return out;
        }
        let mut i: usize = self.attach;
        while i < sink.history.len()
            invariant
                self.attach <= i <= sink.history@.len(),
                out@ == sink.history@.subrange(self.attach as int, i as int),
            decreases sink.history@.len() - i,
        {
            let ghost pre = out@;
            out.push(sink.history[i]);
            proof {
                assert(sink.history@.subrange(self.attach as int, i + 1 as int)
                    =~= pre.push(sink.history@[i as int]));
            }
            i = i + 1;
        }
        proof {
            assert(out@ =~= self.observed(sink@));
        }
        out
    }
}

impl<T> Cell<T> {
    /// What this cell reads, given the full emission history of its sink:
    /// the last emission if any was made after the cell attached, else the
    /// initial value.
    pub open spec fn sample_spec(&self, history: Seq<T>) -> T {
        if history.len() > self.attach {
            history.last()
        } else {
            self.initial
        }
    }

    /// Read the cell's current value from its sink.
    pub fn sample(&self, sink: &Sink<T>) -> (r: T) where T: Copy
        ensures
            r == self.sample_spec(sink@),
    {
        if sink.history.len() > self.attach {
            sink.history[sink.history.len() - 1]
        } else {
            self.initial
        }
    }
}

/// Streams attached at the same point are observationally equivalent: on
/// any emission history of the sink they observe the same values in the
/// same order.
pub proof fn lemma_stream_observation_equivalent<T>(s1: Stream<T>, s2: Stream<T>, history: Seq<T>)
    requires
        s1.attach == s2.attach,
    ensures
        s1.observed(history) == s2.observed(history),
{
}

/// Every send on a sink is visible, in order, to every stream attached no
/// later than it: however the sink's history grows, an attached stream's
/// observations grow by exactly the emitted values, in emission order.
pub proof fn lemma_stream_sees_every_send<T>(s: Stream<T>, history: Seq<T>, emitted: Seq<T>)
    requires
        s.attach <= history.len(),
    ensures
        s.observed(history + emitted) == s.observed(history) + emitted,
{
    assert((history + emitted).skip(s.attach as int)
        =~= history.skip(s.attach as int) + emitted);
}

/// Endpoint handles are interchangeable for everything still to come: two
/// streams on one sink, wherever each attached, observe every emission
/// made after both were attached identically — the same values in the
/// same order.
pub proof fn lemma_streams_agree_on_later_sends<T>(
    s1: Stream<T>,
    s2: Stream<T>,
    history: Seq<T>,
    emitted: Seq<T>,
)
    requires
        s1.attach <= history.len(),
        s2.attach <= history.len(),
    ensures
        s1.observed(history + emitted).skip(s1.observed(history).len() as int)
            == s2.observed(history + emitted).skip(s2.observed(history).len() as int),
{
    lemma_stream_sees_every_send(s1, history, emitted);
    lemma_stream_sees_every_send(s2, history, emitted);
    assert((s1.observed(history) + emitted).skip(s1.observed(history).len() as int) =~= emitted);
    assert((s2.observed(history) + emitted).skip(s2.observed(history).len() as int) =~= emitted);
}

/// Cell initial-value law: while nothing has been emitted past a cell's
/// attach point, the cell reads its initial value.
pub proof fn lemma_cell_initial<T>(c: Cell<T>, history: Seq<T>)
    requires
        history.len() <= c.attach,
    ensures
        c.sample_spec(history) == c.initial,
{
}

/// Cell update law, first half: once something has been emitted past the
/// cell's attach point, the cell reads the most recent emission.
pub proof fn lemma_cell_latest<T>(c: Cell<T>, history: Seq<T>)
    requires
        history.len() > c.attach,
    ensures
        c.sample_spec(history) == history.last(),
{
}

/// Cell update law, second half: immediately after a value is emitted, a
/// cell that was attached beforehand reads exactly that value, and keeps
/// doing so until the sink emits again.
pub proof fn lemma_cell_update<T>(c: Cell<T>, history: Seq<T>, value: T)
    requires
        c.attach <= history.len(),
    ensures
        c.sample_spec(history.push(value)) == value,
{
}

} // verus!
