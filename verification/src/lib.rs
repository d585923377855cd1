//! Bridges an asynchronous new-block subscription into a polling-friendly
//! event stream for a synchronous, tick-driven host.
//!
//! The pieces, producer side to consumer side:
//!
//! - [`driver`]: the subscription driver as an explicit state machine. The
//!   asynchronous work (connecting, subscribing, fetching a block) is left to
//!   the caller; the machine decides, from the current state and the outcome
//!   handed back, what to do next.
//! - [`channel`]: the bridge channel, a bounded first-in-first-out handoff of
//!   block records between the asynchronous producer and the synchronous
//!   consumer, backed by a crossbeam bounded channel.
//! - [`session`]: a driver loop over a whole sequence of notification
//!   outcomes, pushing each resolved block through a bridge channel and
//!   draining under back-pressure.

pub mod block;
pub mod channel;
pub mod driver;
pub mod session;
