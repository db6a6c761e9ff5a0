//! Composable reactive primitives over an imperative, polling-based
//! windowing event source, driven by a drift-corrected fixed-tick
//! scheduler.
//!
//! The loop advances time in fixed-size ticks, correcting for scheduling
//! drift by whole multiples of the tick length; each due tick it takes the
//! pending raw platform events, fans every recognized one out into exactly
//! one typed reactive endpoint, and emits the elapsed nanoseconds on the
//! tick stream. The endpoints are discrete event streams and
//! continuously-readable cells derived from them.

pub mod button;
pub mod reactive;
pub mod glium_loop;
