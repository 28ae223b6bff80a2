//! Interrupt-driven serial echo, as a set of verified state machines.
//!
//! The firmware around this library reads and writes the peripheral's
//! registers; every decision between a read and a write is taken here:
//!
//! * [`mailbox`]: the single slot that holds one byte waiting to be sent;
//! * [`handler`]: what one entry of the interrupt handler does with the
//!   status flags it found;
//! * [`runs`]: what holds over any run of entries: the enable bit mirrors
//!   the mailbox, a free line echoes every byte, a busy one keeps the newest;
//! * [`heartbeat`]: the foreground loop's counter and indicator;
//! * [`boot`]: the order in which the receive interrupt is armed;
//! * [`trace`]: the diagnostic line for a received byte.

pub mod boot;
pub mod handler;
pub mod heartbeat;
pub mod mailbox;
pub mod runs;
pub mod trace;
