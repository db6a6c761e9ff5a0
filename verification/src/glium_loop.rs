//! The application loop: a drift-corrected fixed-tick scheduler that fans
//! raw platform events out into typed reactive endpoints.
//!
//! The loop instance owns one sink per endpoint (ticks, window position and
//! size, buttons, characters, cursor motion, wheel, focus). Each iteration
//! it either sleeps until the next tick boundary or runs a due tick:
//! dispatch the pending raw events, advance the boundary by an exact
//! multiple of the tick length, and emit the elapsed nanoseconds.

use vstd::prelude::*;
use vstd::arithmetic::div_mod::{lemma_fundamental_div_mod, lemma_mod_bound, lemma_mod_multiples_basic};
use crate::button::{Button, ButtonEvent, ElementState, button_state_of, to_button_state};
use crate::reactive::{Cell, Sink, Stream};

verus! {

/// One raw platform event, as the window system reports it.
#[derive(Copy, Clone, PartialEq, Eq, Structural, Debug)]
pub enum RawEvent {
    /// A key press or release, with the key code if one could be resolved.
    KeyboardInput(ElementState, Option<u32>),
    /// A pointer button press or release.
    MouseInput(ElementState, u32),
    /// A signed wheel delta.
    MouseWheel(i32),
    /// The pointer position as the platform supplies it.
    MouseMoved(i32, i32),
    /// Focus gained or lost.
    Focused(bool),
    /// The window was resized to the given width and height.
    Resized(u32, u32),
    /// The window was moved to the given position.
    Moved(i32, i32),
    /// One character of text input.
    ReceivedCharacter(char),
    /// A request to close the window: terminates the loop.
    Closed,
    /// Any other platform event: silently ignored.
    Other,
}

/// What one tick of the scheduler reported.
#[derive(Copy, Clone, PartialEq, Eq, Structural, Debug)]
pub enum TickOutcome {
    /// The tick ran: the elapsed nanoseconds were emitted on the tick stream.
    Ticked(u64),
    /// A close request was observed: the loop is over.
    Terminated,
}

/// What one iteration of the loop should do next.
#[derive(Copy, Clone, PartialEq, Eq, Structural, Debug)]
pub enum PollDecision {
    /// The next tick is not yet due: sleep this many nanoseconds.
    Sleep(u64),
    /// A tick is due; the payload is the observed time.
    Due(u64),
}

// The classification table, one row per spec function: what one raw event
// writes to each endpoint. An event writes to at most one endpoint;
// unrecognized events (and close requests) write nothing.

/// The button endpoint's write for one raw event: key events with a
/// resolvable key code and pointer button events; key events without a
/// resolvable code are dropped.
pub open spec fn button_write(ev: RawEvent) -> Option<ButtonEvent<Button>> {
    match ev {
        RawEvent::KeyboardInput(st, key) => match key {
            Option::Some(k) => Option::Some(
                ButtonEvent { button: Button::Keyboard(k), state: button_state_of(st) },
            ),
            Option::None => Option::None,
        },
        RawEvent::MouseInput(st, b) => Option::Some(
            ButtonEvent { button: Button::Mouse(b), state: button_state_of(st) },
        ),
        _ => Option::None,
    }
}

/// The wheel endpoint's write for one raw event.
pub open spec fn wheel_write(ev: RawEvent) -> Option<i32> {
    match ev {
        RawEvent::MouseWheel(d) => Option::Some(d),
        _ => Option::None,
    }
}

/// The cursor-motion endpoint's write for one raw event.
pub open spec fn cursor_write(ev: RawEvent) -> Option<(i32, i32)> {
    match ev {
        RawEvent::MouseMoved(x, y) => Option::Some((x, y)),
        _ => Option::None,
    }
}

/// The focus endpoint's write for one raw event.
pub open spec fn focus_write(ev: RawEvent) -> Option<bool> {
    match ev {
        RawEvent::Focused(f) => Option::Some(f),
        _ => Option::None,
    }
}

/// The window-size endpoint's write for one raw event.
pub open spec fn size_write(ev: RawEvent) -> Option<(u32, u32)> {
    match ev {
        RawEvent::Resized(w, h) => Option::Some((w, h)),
        _ => Option::None,
    }
}

/// The window-position endpoint's write for one raw event.
pub open spec fn position_write(ev: RawEvent) -> Option<(i32, i32)> {
    match ev {
        RawEvent::Moved(x, y) => Option::Some((x, y)),
        _ => Option::None,
    }
}

/// The character endpoint's write for one raw event.
pub open spec fn char_write(ev: RawEvent) -> Option<char> {
    match ev {
        RawEvent::ReceivedCharacter(c) => Option::Some(c),
        _ => Option::None,
    }
}

/// A sink's emission history after one write: unchanged if there is
/// nothing to write, else with the written value appended.
pub open spec fn sent<T>(history: Seq<T>, write: Option<T>) -> Seq<T> {
    match write {
        Option::Some(v) => history.push(v),
        Option::None => history,
    }
}

// The per-endpoint write functions as values, so the sequence versions
// below and the proofs about them speak of one and the same function.

pub open spec fn button_write_fn() -> spec_fn(RawEvent) -> Option<ButtonEvent<Button>> {
    |e: RawEvent| button_write(e)
}

pub open spec fn wheel_write_fn() -> spec_fn(RawEvent) -> Option<i32> {
    |e: RawEvent| wheel_write(e)
}

pub open spec fn cursor_write_fn() -> spec_fn(RawEvent) -> Option<(i32, i32)> {
    |e: RawEvent| cursor_write(e)
}

pub open spec fn focus_write_fn() -> spec_fn(RawEvent) -> Option<bool> {
    |e: RawEvent| focus_write(e)
}

pub open spec fn size_write_fn() -> spec_fn(RawEvent) -> Option<(u32, u32)> {
    |e: RawEvent| size_write(e)
}

pub open spec fn position_write_fn() -> spec_fn(RawEvent) -> Option<(i32, i32)> {
    |e: RawEvent| position_write(e)
}

pub open spec fn char_write_fn() -> spec_fn(RawEvent) -> Option<char> {
    |e: RawEvent| char_write(e)
}

// The sequence of values a batch of raw events writes to each endpoint,
// in arrival order.

pub open spec fn button_writes(evs: Seq<RawEvent>) -> Seq<ButtonEvent<Button>> {
    evs.filter_map(button_write_fn())
}

pub open spec fn wheel_writes(evs: Seq<RawEvent>) -> Seq<i32> {
    evs.filter_map(wheel_write_fn())
}

pub open spec fn cursor_writes(evs: Seq<RawEvent>) -> Seq<(i32, i32)> {
    evs.filter_map(cursor_write_fn())
}

pub open spec fn focus_writes(evs: Seq<RawEvent>) -> Seq<bool> {
    evs.filter_map(focus_write_fn())
}

pub open spec fn size_writes(evs: Seq<RawEvent>) -> Seq<(u32, u32)> {
    evs.filter_map(size_write_fn())
}

pub open spec fn position_writes(evs: Seq<RawEvent>) -> Seq<(i32, i32)> {
    evs.filter_map(position_write_fn())
}

pub open spec fn char_writes(evs: Seq<RawEvent>) -> Seq<char> {
    evs.filter_map(char_write_fn())
}

/// The index of the first close request in a batch, or the batch length
/// if there is none. Events from this index on are never dispatched.
pub open spec fn close_pos(evs: Seq<RawEvent>) -> int
    decreases evs.len(),
{
    if evs.len() == 0 {
        0
    } else if evs[0] is Closed {
        0
    } else {
        1 + close_pos(evs.drop_first())
    }
}

/// Whether a batch contains a close request.
pub open spec fn has_close(evs: Seq<RawEvent>) -> bool {
    close_pos(evs) < evs.len()
}

/// The prefix of a batch that is actually dispatched: everything before
/// the first close request.
pub open spec fn handled_prefix(evs: Seq<RawEvent>) -> Seq<RawEvent> {
    evs.take(close_pos(evs))
}

/// `close_pos` is exactly the position of the first close request: if the
/// first `i` events are not close requests and either the batch ends there
/// or event `i` is one, then `close_pos` is `i`.
pub proof fn lemma_close_pos_at(evs: Seq<RawEvent>, i: int)
    requires
        0 <= i <= evs.len(),
        forall|j: int| 0 <= j < i ==> !((#[trigger] evs[j]) is Closed),
        i < evs.len() ==> evs[i] is Closed,
    ensures
        close_pos(evs) == i,
    decreases evs.len(),
{
    if i == 0 {
    } else {
        assert(!(evs[0] is Closed));
        let rest = evs.drop_first();
        assert(forall|j: int| 0 <= j < i - 1 ==> rest[j] == evs[j + 1]);
        lemma_close_pos_at(rest, i - 1);
    }
}

/// The per-endpoint write of a batch grows by exactly the write of the
/// next handled event.
proof fn lemma_sent_take_succ<T>(base: Seq<T>, evs: Seq<RawEvent>, f: spec_fn(RawEvent) -> Option<T>, i: int)
    requires
        0 <= i < evs.len(),
    ensures
        base + evs.take(i + 1).filter_map(f) == sent(base + evs.take(i).filter_map(f), f(evs[i])),
{
    evs.lemma_filter_map_take_succ(f, i);
    match f(evs[i]) {
        Option::Some(v) => {
            assert(base + evs.take(i + 1).filter_map(f)
                =~= (base + evs.take(i).filter_map(f)).push(v));
        },
        Option::None => {
            assert(base + evs.take(i + 1).filter_map(f)
                =~= base + evs.take(i).filter_map(f));
        },
    }
}

/// The Glium implementation of an application loop: the display's raw
/// events, classified into reactive endpoints, driven by a fixed-tick
/// drift-corrected scheduler.
pub struct GliumLoop {
    /// The fixed tick length in nanoseconds; positive, and constant for
    /// the instance's lifetime.
    pub tick_length: u64,
    /// The absolute nanosecond timestamp at which the next tick is due.
    pub next_tick: u64,
    /// Whether a close request has ended the loop; absorbing.
    pub terminated: bool,
    pub tick_sink: Sink<u64>,
    pub winpos_sink: Sink<(i32, i32)>,
    pub winsize_sink: Sink<(u32, u32)>,
    pub button_sink: Sink<ButtonEvent<Button>>,
    pub mouse_motion_sink: Sink<(i32, i32)>,
    pub mouse_wheel_sink: Sink<i32>,
    pub focus_sink: Sink<bool>,
    pub char_sink: Sink<char>,
}

/// What dispatching one raw event does to the loop: the endpoint the
/// classification table selects receives exactly its written value, every
/// other endpoint and all timing state are untouched.
pub open spec fn dispatch_post(pre: GliumLoop, post: GliumLoop, ev: RawEvent) -> bool {
    &&& post.tick_length == pre.tick_length
    &&& post.next_tick == pre.next_tick
    &&& post.terminated == pre.terminated
    &&& post.tick_sink@ == pre.tick_sink@
    &&& post.button_sink@ == sent(pre.button_sink@, button_write(ev))
    &&& post.mouse_wheel_sink@ == sent(pre.mouse_wheel_sink@, wheel_write(ev))
    &&& post.mouse_motion_sink@ == sent(pre.mouse_motion_sink@, cursor_write(ev))
    &&& post.focus_sink@ == sent(pre.focus_sink@, focus_write(ev))
    &&& post.winsize_sink@ == sent(pre.winsize_sink@, size_write(ev))
    &&& post.winpos_sink@ == sent(pre.winpos_sink@, position_write(ev))
    &&& post.char_sink@ == sent(pre.char_sink@, char_write(ev))
}

/// No event endpoint changed between the two loop states.
pub open spec fn event_sinks_unchanged(pre: GliumLoop, post: GliumLoop) -> bool {
    &&& post.button_sink@ == pre.button_sink@
    &&& post.mouse_wheel_sink@ == pre.mouse_wheel_sink@
    &&& post.mouse_motion_sink@ == pre.mouse_motion_sink@
    &&& post.focus_sink@ == pre.focus_sink@
    &&& post.winsize_sink@ == pre.winsize_sink@
    &&& post.winpos_sink@ == pre.winpos_sink@
    &&& post.char_sink@ == pre.char_sink@
}

/// What dispatching a batch does to the event endpoints: each receives
/// exactly the values the handled prefix of the batch writes to it, in
/// arrival order.
pub open spec fn batch_appended(pre: GliumLoop, post: GliumLoop, handled: Seq<RawEvent>) -> bool {
    &&& post.button_sink@ == pre.button_sink@ + button_writes(handled)
    &&& post.mouse_wheel_sink@ == pre.mouse_wheel_sink@ + wheel_writes(handled)
    &&& post.mouse_motion_sink@ == pre.mouse_motion_sink@ + cursor_writes(handled)
    &&& post.focus_sink@ == pre.focus_sink@ + focus_writes(handled)
    &&& post.winsize_sink@ == pre.winsize_sink@ + size_writes(handled)
    &&& post.winpos_sink@ == pre.winpos_sink@ + position_writes(handled)
    &&& post.char_sink@ == pre.char_sink@ + char_writes(handled)
}

/// The drift-corrected advance for a tick observed at `now`: the largest
/// multiple of `tick_length` not exceeding the overshoot `now - next_tick`.
/// The remainder carries over to the next tick instead of being discarded.
pub open spec fn spec_delta(now: u64, next_tick: u64, tick_length: u64) -> int
    recommends
        next_tick <= now,
        tick_length > 0,
{
    let diff = now - next_tick;
    diff - diff % (tick_length as int)
}

impl GliumLoop {
    /// The instance invariant: the configured tick length is positive, so
    /// the drift correction's modulus is never zero.
    pub open spec fn wf(&self) -> bool {
        self.tick_length > 0
    }

    /// Create a new Glium loop.
    ///
    /// `tick_length` is the minimum duration of a tick in nanoseconds; a
    /// zero tick length is rejected, since the drift correction divides by
    /// it. A fresh loop has emitted nothing on any endpoint.
    pub fn new(tick_length: u64) -> (r: Option<GliumLoop>)
        ensures
            r is Some <==> tick_length > 0,
            (r matches Some(l) ==> {
                &&& l.wf()
                &&& l.tick_length == tick_length
                &&& l.next_tick == 0
                &&& !l.terminated
                &&& l.tick_sink@ == Seq::<u64>::empty()
                &&& l.button_sink@ == Seq::<ButtonEvent<Button>>::empty()
                &&& l.mouse_wheel_sink@ == Seq::<i32>::empty()
                &&& l.mouse_motion_sink@ == Seq::<(i32, i32)>::empty()
                &&& l.focus_sink@ == Seq::<bool>::empty()
                &&& l.winsize_sink@ == Seq::<(u32, u32)>::empty()
                &&& l.winpos_sink@ == Seq::<(i32, i32)>::empty()
                &&& l.char_sink@ == Seq::<char>::empty()
            }),
    {
        if tick_length == 0 {
            return None;
        }
        Some(GliumLoop {
            tick_length,
            next_tick: 0,
            terminated: false,
            tick_sink: Sink::new(),
            winpos_sink: Sink::new(),
            winsize_sink: Sink::new(),
            button_sink: Sink::new(),
            mouse_motion_sink: Sink::new(),
            mouse_wheel_sink: Sink::new(),
            focus_sink: Sink::new(),
            char_sink: Sink::new(),
        })
    }

    /// Classify one raw event and write it to its endpoint: exactly one
    /// value to exactly one sink, or nothing for unrecognized events, key
    /// events without a resolvable key code, and close requests.
    pub fn dispatch(&mut self, event: RawEvent)
        ensures
            dispatch_post(*old(self), *final(self), event),
    {
        match event {
            RawEvent::KeyboardInput(state, key) => {
                match key {
                    Some(k) => self.button_sink.send(ButtonEvent {
                        button: Button::Keyboard(k),
                        state: to_button_state(state),
                    }),
                    None => (),
                }
            },
            RawEvent::MouseInput(state, b) => self.button_sink.send(ButtonEvent {
                button: Button::Mouse(b),
                state: to_button_state(state),
            }),
            RawEvent::MouseWheel(d) => self.mouse_wheel_sink.send(d),
            RawEvent::MouseMoved(x, y) => self.mouse_motion_sink.send((x, y)),
            RawEvent::Focused(f) => self.focus_sink.send(f),
            RawEvent::Resized(w, h) => self.winsize_sink.send((w, h)),
            RawEvent::Moved(x, y) => self.winpos_sink.send((x, y)),
            RawEvent::ReceivedCharacter(c) => self.char_sink.send(c),
            RawEvent::Closed => (),
            RawEvent::Other => (),
        }
    }

    /// Dispatch a batch of polled raw events in arrival order, stopping at
    /// the first close request without dispatching it or anything after
    /// it. Returns whether a close request was found.
    pub fn process_batch(&mut self, events: &Vec<RawEvent>) -> (closed: bool)
        ensures
            closed == has_close(events@),
            batch_appended(*old(self), *final(self), handled_prefix(events@)),
            final(self).tick_length == old(self).tick_length,
            final(self).next_tick == old(self).next_tick,
            final(self).terminated == old(self).terminated,
            final(self).tick_sink@ == old(self).tick_sink@,
    {
        let mut i: usize = 0;
        while i < events.len()
            invariant
                0 <= i <= events@.len(),
                forall|j: int| 0 <= j < i ==> !((#[trigger] events@[j]) is Closed),
                self.tick_length == old(self).tick_length,
                self.next_tick == old(self).next_tick,
                self.terminated == old(self).terminated,
                self.tick_sink@ == old(self).tick_sink@,
                self.button_sink@ == old(self).button_sink@ + button_writes(events@.take(i as int)),
                self.mouse_wheel_sink@ == old(self).mouse_wheel_sink@ + wheel_writes(events@.take(i as int)),
                self.mouse_motion_sink@ == old(self).mouse_motion_sink@ + cursor_writes(events@.take(i as int)),
                self.focus_sink@ == old(self).focus_sink@ + focus_writes(events@.take(i as int)),
                self.winsize_sink@ == old(self).winsize_sink@ + size_writes(events@.take(i as int)),
                self.winpos_sink@ == old(self).winpos_sink@ + position_writes(events@.take(i as int)),
                self.char_sink@ == old(self).char_sink@ + char_writes(events@.take(i as int)),
            decreases events@.len() - i,
        {
            let ev = events[i];
            if let RawEvent::Closed = ev {
                proof {
                    lemma_close_pos_at(events@, i as int);
                }
                return true;
            }
            proof {
                lemma_sent_take_succ(old(self).button_sink@, events@, button_write_fn(), i as int);
                lemma_sent_take_succ(old(self).mouse_wheel_sink@, events@, wheel_write_fn(), i as int);
                lemma_sent_take_succ(old(self).mouse_motion_sink@, events@, cursor_write_fn(), i as int);
                lemma_sent_take_succ(old(self).focus_sink@, events@, focus_write_fn(), i as int);
                lemma_sent_take_succ(old(self).winsize_sink@, events@, size_write_fn(), i as int);
                lemma_sent_take_succ(old(self).winpos_sink@, events@, position_write_fn(), i as int);
                lemma_sent_take_succ(old(self).char_sink@, events@, char_write_fn(), i as int);
            }
            self.dispatch(ev);
            i = i + 1;
        }
        proof {
            lemma_close_pos_at(events@, events@.len() as int);
            assert(events@.take(events@.len() as int) =~= events@);
        }
        false
    }

    /// Start timing: the first tick is due at `now`.
    pub fn begin(&mut self, now: u64)
        ensures
            final(self).next_tick == now,
            final(self).tick_length == old(self).tick_length,
            final(self).terminated == old(self).terminated,
            final(self).tick_sink@ == old(self).tick_sink@,
            event_sinks_unchanged(*old(self), *final(self)),
    {
        self.next_tick = now;
    }

    /// The scheduling decision over an observed clock value: while the
    /// next tick is not yet due, sleep exactly the remaining time,
    /// `next_tick - now`; from the boundary on, the tick is due at the
    /// observed time.
    pub fn decide_poll(now: u64, next_tick: u64) -> (r: PollDecision)
        ensures
            now < next_tick ==> r == PollDecision::Sleep((next_tick - now) as u64),
            now >= next_tick ==> r == PollDecision::Due(now),
    {
        if now < next_tick {
            PollDecision::Sleep(next_tick - now)
        } else {
            PollDecision::Due(now)
        }
    }

    /// Decide one iteration: read the clock once and take the scheduling
    /// decision of `decide_poll` on what it reported. Whatever time comes
    /// back, a sleep is positive and never reaches past the next tick
    /// boundary, and a due tick carries a time at or past it.
    pub fn poll_clock(&self) -> (r: PollDecision)
        ensures
            (r matches PollDecision::Sleep(ns) ==> 0 < ns <= self.next_tick),
            (r matches PollDecision::Due(now) ==> now >= self.next_tick),
    {
        Self::decide_poll(now_ns(), self.next_tick)
    }

    /// Run one due tick, observed at `now`, over the raw events polled for
    /// it: dispatch the batch up to the first close request, advance the
    /// tick boundary by the drift-corrected delta, and either emit the
    /// delta on the tick stream or, on a close request, terminate without
    /// emitting a tick for the batch.
    pub fn run_tick(&mut self, now: u64, events: &Vec<RawEvent>) -> (r: TickOutcome)
        requires
            old(self).wf(),
            !old(self).terminated,
            now >= old(self).next_tick,
        ensures
            final(self).wf(),
            final(self).tick_length == old(self).tick_length,
            final(self).next_tick == old(self).next_tick + spec_delta(now, old(self).next_tick, old(self).tick_length),
            final(self).terminated == has_close(events@),
            batch_appended(*old(self), *final(self), handled_prefix(events@)),
            has_close(events@) ==> {
                &&& final(self).tick_sink@ == old(self).tick_sink@
                &&& r == TickOutcome::Terminated
            },
            !has_close(events@) ==> {
                &&& final(self).tick_sink@ == old(self).tick_sink@.push(
                    spec_delta(now, old(self).next_tick, old(self).tick_length) as u64,
                )
                &&& r == TickOutcome::Ticked(
                    spec_delta(now, old(self).next_tick, old(self).tick_length) as u64,
                )
            },
    {
        let diff = now - self.next_tick;
        proof {
            assert(diff % self.tick_length <= diff) by (nonlinear_arith)
                requires
                    self.tick_length > 0,
            {
            }
        }
        let delta = diff - diff % self.tick_length;
        self.next_tick = self.next_tick + delta;
        let closed = self.process_batch(events);
        if closed {
            self.terminated = true;
            TickOutcome::Terminated
        } else {
            self.tick_sink.send(delta);
            TickOutcome::Ticked(delta)
        }
    }

    /// The stream of elapsed-nanosecond deltas, one per tick.
    pub fn ticks(&self) -> (r: Stream<u64>)
        ensures
            r.attach == self.tick_sink@.len(),
    {
        self.tick_sink.stream()
    }

    /// The window position as a cell, seeded with `(0, 0)` until the first
    /// move event.
    pub fn position(&self) -> (r: Cell<(i32, i32)>)
        ensures
            r.initial == (0i32, 0i32),
            r.attach == self.winpos_sink@.len(),
    {
        self.winpos_sink.stream().hold((0, 0))
    }

    /// The window size as a cell, seeded with `(0, 0)` until the first
    /// resize event.
    pub fn size(&self) -> (r: Cell<(u32, u32)>)
        ensures
            r.initial == (0u32, 0u32),
            r.attach == self.winsize_sink@.len(),
    {
        self.winsize_sink.stream().hold((0, 0))
    }

    /// The stream of button transition events.
    pub fn buttons(&self) -> (r: Stream<ButtonEvent<Button>>)
        ensures
            r.attach == self.button_sink@.len(),
    {
        self.button_sink.stream()
    }

    /// The stream of received characters.
    pub fn characters(&self) -> (r: Stream<char>)
        ensures
            r.attach == self.char_sink@.len(),
    {
        self.char_sink.stream()
    }

    /// The cursor position as a cell, seeded with `(0, 0)`.
    pub fn cursor(&self) -> (r: Cell<(i32, i32)>)
        ensures
            r.initial == (0i32, 0i32),
            r.attach == self.mouse_motion_sink@.len(),
    {
        self.mouse_motion_sink.stream().hold((0, 0))
    }

    /// The wheel delta as a cell, seeded with `0`.
    pub fn wheel(&self) -> (r: Cell<i32>)
        ensures
            r.initial == 0i32,
            r.attach == self.mouse_wheel_sink@.len(),
    {
        self.mouse_wheel_sink.stream().hold(0)
    }

    /// The focus state as a cell, seeded with `true`: the window is
    /// assumed focused until told otherwise.
    pub fn focus(&self) -> (r: Cell<bool>)
        ensures
            r.initial == true,
            r.attach == self.focus_sink@.len(),
    {
        self.focus_sink.stream().hold(true)
    }
}

/// How many values one potential endpoint write contributes.
pub open spec fn opt_count<T>(write: Option<T>) -> int {
    if write is Some {
        1
    } else {
        0
    }
}

/// How many endpoint writes one raw event produces over all endpoints.
pub open spec fn write_count(ev: RawEvent) -> int {
    opt_count(button_write(ev)) + opt_count(wheel_write(ev)) + opt_count(cursor_write(ev))
        + opt_count(focus_write(ev)) + opt_count(size_write(ev)) + opt_count(position_write(ev))
        + opt_count(char_write(ev))
}

/// Whether the classification table recognizes a raw event. Close
/// requests are not recognized here: they terminate the loop instead of
/// writing to an endpoint.
pub open spec fn recognized(ev: RawEvent) -> bool {
    match ev {
        RawEvent::KeyboardInput(_, key) => key is Some,
        RawEvent::MouseInput(_, _) => true,
        RawEvent::MouseWheel(_) => true,
        RawEvent::MouseMoved(_, _) => true,
        RawEvent::Focused(_) => true,
        RawEvent::Resized(_, _) => true,
        RawEvent::Moved(_, _) => true,
        RawEvent::ReceivedCharacter(_) => true,
        RawEvent::Closed => false,
        RawEvent::Other => false,
    }
}

/// Dispatching one raw event writes exactly one value to exactly one
/// endpoint if the classification table recognizes it, and nothing at all
/// otherwise.
pub proof fn lemma_single_write(ev: RawEvent)
    ensures
        write_count(ev) == if recognized(ev) {
            1int
        } else {
            0int
        },
{
}

/// Every tick delta is an exact multiple of the configured tick length,
/// never exceeds the observed overshoot (the remainder carries over), and
/// is at least one tick length whenever the scheduler has fallen at least
/// one full tick behind.
pub proof fn lemma_tick_delta_multiple(now: u64, next_tick: u64, tick_length: u64)
    requires
        tick_length > 0,
        next_tick <= now,
    ensures
        spec_delta(now, next_tick, tick_length) % (tick_length as int) == 0,
        0 <= spec_delta(now, next_tick, tick_length) <= now - next_tick,
        now - next_tick >= tick_length ==> spec_delta(now, next_tick, tick_length) >= tick_length,
{
    let d: int = now - next_tick;
    let m: int = tick_length as int;
    lemma_mod_bound(d, m);
    lemma_fundamental_div_mod(d, m);
    assert(d - d % m == m * (d / m));
    lemma_mod_multiples_basic(d / m, m);
    if d >= m {
        assert(m * (d / m) > 0);
        assert(d / m >= 1) by (nonlinear_arith)
            requires
                m > 0,
                m * (d / m) > 0,
        {
        }
        assert(m * (d / m) >= m) by (nonlinear_arith)
            requires
                m > 0,
                d / m >= 1,
        {
        }
    }
}

/// Cell update law at the loop level: once a resize event has written
/// `(w, h)` to the size endpoint, a size cell attached beforehand reads
/// `(w, h)`, and continues to as long as the handled events that follow
/// contain no further resize.
pub proof fn lemma_size_cell_update(
    c: Cell<(u32, u32)>,
    history: Seq<(u32, u32)>,
    w: u32,
    h: u32,
    later: Seq<RawEvent>,
)
    requires
        c.attach <= history.len(),
        size_writes(later) == Seq::<(u32, u32)>::empty(),
    ensures
        c.sample_spec(history.push((w, h)) + size_writes(later)) == (w, h),
{
    assert(history.push((w, h)) + size_writes(later) =~= history.push((w, h)));
}

/// Relies on clock_ticks::precise_time_ns: the current value of a
/// high-resolution performance counter, in nanoseconds since an
/// unspecified epoch. Nothing is promised of the value: everything the
/// loop concludes holds whatever time comes back.
#[verifier::external_body]
fn now_ns() -> u64 {
    clock_ticks::precise_time_ns()
}

} // verus!
