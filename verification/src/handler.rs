//! The receive/transmit interrupt handler as a state machine.
//!
//! One entry of the handler is one call of [`Handler::service`]. The firmware
//! reads the status flags (and, where a byte has arrived, the byte), hands
//! them over as an [`Entry`], and performs the register writes that the
//! returned [`Outcome`] names, in the order given there. The handler never
//! waits: every entry runs to completion on what it was handed.
//!
//! [`State`] is the model that the contracts speak of; what holds of it over
//! whole runs of entries is proved in [`crate::runs`].

use vstd::prelude::*;
use crate::mailbox::Mailbox;
use crate::trace::{line_for, received_line};

verus! {

/// A byte read from the receive data register.
#[derive(Clone, Copy, Debug, PartialEq, Eq)]
pub struct Arrival {
    /// The byte as it came off the line.
    pub byte: u8,
    /// Whether the transmit register was empty when probed right after the
    /// byte had been read.
    pub transmit_ready: bool,
}

/// What the peripheral reported at one entry of the handler.
#[derive(Clone, Copy, Debug, PartialEq, Eq)]
pub struct Entry {
    /// `Some` where receive-ready was set on entry: the byte that was read,
    /// which is what clears the condition.
    pub arrival: Option<Arrival>,
    /// Transmit-ready as it stood in the status word taken on entry.
    pub transmit_ready: bool,
}

/// What the receive path did with the byte it was handed.
#[derive(Clone, Copy, Debug, PartialEq, Eq)]
pub enum Reception {
    /// The transmitter was free: write the byte to the transmit data register.
    Echoed(u8),
    /// The transmitter was busy: the byte waits in the mailbox; enable the
    /// transmit-ready interrupt.
    Deferred(u8),
}

/// What the transmit path did.
#[derive(Clone, Copy, Debug, PartialEq, Eq)]
pub struct Drain {
    /// The byte that waited, if any: write it to the transmit data register.
    pub byte: Option<u8>,
    /// Whether to disable the transmit-ready interrupt after that write.
    pub disarm: bool,
}

/// The register writes of one entry: those of the receive path first, then
/// those of the transmit path.
#[derive(Clone, Copy, Debug, PartialEq, Eq)]
pub struct Outcome {
    /// `Some` where a byte had arrived.
    pub reception: Option<Reception>,
    /// `Some` where transmit-ready stood in the status word taken on entry.
    pub drain: Option<Drain>,
}

/// The handler's state between entries.
#[derive(Clone, Copy, Debug, PartialEq, Eq)]
pub struct State {
    /// The byte waiting in the mailbox.
    pub pending: Option<u8>,
    /// The transmit-ready interrupt enable bit.
    pub armed: bool,
}

impl Reception {
    /// The byte that was received.
    pub open spec fn received(self) -> u8 {
        match self {
            Reception::Echoed(byte) => byte,
            Reception::Deferred(byte) => byte,
        }
    }

    /// The bytes this path writes to the transmit data register.
    pub open spec fn written(self) -> Seq<u8> {
        match self {
            Reception::Echoed(byte) => seq![byte],
            Reception::Deferred(_) => Seq::empty(),
        }
    }

    /// The byte that was received.
    pub fn byte(&self) -> (byte: u8)
        ensures
            byte == self.received(),
    {
        match self {
            Reception::Echoed(byte) => *byte,
            Reception::Deferred(byte) => *byte,
        }
    }
}

impl Drain {
    /// The bytes this path writes to the transmit data register.
    pub open spec fn written(self) -> Seq<u8> {
        match self.byte {
            Some(byte) => seq![byte],
            None => Seq::empty(),
        }
    }
}

impl Outcome {
    /// Every byte this entry writes to the transmit data register, in order.
    pub open spec fn written(self) -> Seq<u8> {
        let first = match self.reception {
            Some(reception) => reception.written(),
            None => Seq::empty(),
        };
        let second = match self.drain {
            Some(drain) => drain.written(),
            None => Seq::empty(),
        };
        first + second
    }

    /// The diagnostic line of this entry: that of the byte it received.
    pub open spec fn trace(self) -> Option<Seq<u8>> {
        match self.reception {
            Some(reception) => Some(line_for(reception.received())),
            None => None,
        }
    }

    /// The diagnostic line to emit for this entry: one for each byte
    /// received, whether it went out at once or waits.
    pub fn trace_line(&self) -> (line: Option<[u8; 8]>)
        ensures
            match line {
                Some(text) => self.trace() == Some(text@),
                None => self.trace() is None,
            },
    {
        match self.reception {
            Some(reception) => Some(received_line(reception.byte())),
            None => None,
        }
    }

    /// The enable bit of the transmit-ready interrupt once the writes of this
    /// entry are done, where it stood at `before` on entry.
    pub open spec fn armed_after(self, before: bool) -> bool {
        let middle = match self.reception {
            Some(Reception::Deferred(_)) => true,
            _ => before,
        };
        match self.drain {
            Some(drain) => middle && !drain.disarm,
            None => middle,
        }
    }
}

impl State {
    /// The state at boot: nothing waits, the interrupt is disabled.
    pub open spec fn initial() -> State {
        State { pending: None, armed: false }
    }

    /// Nothing waits and the transmit-ready interrupt is disabled.
    pub open spec fn is_idle(self) -> bool {
        self.pending is None && !self.armed
    }

    /// One byte waits and the transmit-ready interrupt is enabled.
    pub open spec fn is_pending(self) -> bool {
        self.pending is Some && self.armed
    }

    /// The enable bit mirrors the mailbox: set exactly while a byte waits.
    pub open spec fn mirrored(self) -> bool {
        self.armed <==> self.pending is Some
    }

    /// The receive path. A free transmitter takes the byte at once and the
    /// state stays as it was; a busy one leaves the byte in the mailbox, in
    /// place of any byte that still waited there, with the interrupt enabled.
    pub open spec fn receive(self, arrival: Arrival) -> (State, Reception) {
        if arrival.transmit_ready {
            (self, Reception::Echoed(arrival.byte))
        } else {
            (State { pending: Some(arrival.byte), armed: true }, Reception::Deferred(arrival.byte))
        }
    }

    /// The transmit path. Whatever waited goes out, and the interrupt is
    /// disabled: also where nothing waited, against a stale signal.
    pub open spec fn transmit(self) -> (State, Drain) {
        (State { pending: None, armed: false }, Drain { byte: self.pending, disarm: true })
    }

    /// One entry: the receive path where a byte has arrived, then the
    /// transmit path where transmit-ready stood on entry.
    pub open spec fn step(self, entry: Entry) -> (State, Outcome) {
        let (middle, reception) = match entry.arrival {
            Some(arrival) => (self.receive(arrival).0, Some(self.receive(arrival).1)),
            None => (self, None),
        };
        let (last, drain) = if entry.transmit_ready {
            (middle.transmit().0, Some(middle.transmit().1))
        } else {
            (middle, None)
        };
        (last, Outcome { reception, drain })
    }

    /// How many bytes wait: one or none.
    pub open spec fn waiting(self) -> nat {
        if self.pending is Some {
            1
        } else {
            0
        }
    }

    /// Whether `entry`, met in this state, stores a byte over one that still
    /// waits.
    pub open spec fn overwrites(self, entry: Entry) -> bool {
        &&& self.pending is Some
        &&& entry.arrival matches Some(arrival)
        &&& !arrival.transmit_ready
    }

    /// The state after the entries of `entries`, one after the other.
    pub open spec fn run(self, entries: Seq<Entry>) -> State
        decreases entries.len(),
    {
        if entries.len() == 0 {
            self
        } else {
            self.run(entries.drop_last()).step(entries.last()).0
        }
    }

    /// Every byte written to the transmit data register over the entries of
    /// `entries`, in order.
    pub open spec fn echo(self, entries: Seq<Entry>) -> Seq<u8>
        decreases entries.len(),
    {
        if entries.len() == 0 {
            Seq::empty()
        } else {
            self.echo(entries.drop_last()) + self.run(entries.drop_last()).step(
                entries.last(),
            ).1.written()
        }
    }
}

/// The handler's state: the mailbox, and the transmit-ready interrupt enable
/// bit as the handler has last set it.
#[derive(Debug)]
pub struct Handler {
    mailbox: Mailbox,
    armed: bool,
}

impl View for Handler {
    type V = State;

    closed spec fn view(&self) -> State {
        State { pending: self.mailbox@, armed: self.armed }
    }
}

impl Handler {
    /// The handler at boot: an empty mailbox, the interrupt disabled.
    pub fn new() -> (handler: Handler)
        ensures
            handler@ == State::initial(),
            handler@.mirrored(),
    {
        Handler { mailbox: Mailbox::new(), armed: false }
    }

    /// The byte that waits in the mailbox.
    pub fn pending(&self) -> (pending: Option<u8>)
        ensures
            pending == self@.pending,
    {
        self.mailbox.peek()
    }

    /// Whether the transmit-ready interrupt is enabled.
    pub fn is_armed(&self) -> (armed: bool)
        ensures
            armed == self@.armed,
    {
        self.armed
    }

    /// The receive path, for a byte that has been read from the receive data
    /// register.
    pub fn on_receive(&mut self, arrival: Arrival) -> (reception: Reception)
        ensures
            final(self)@ == old(self)@.receive(arrival).0,
            reception == old(self)@.receive(arrival).1,
            old(self)@.mirrored() ==> final(self)@.mirrored(),
    {
        if arrival.transmit_ready {
            Reception::Echoed(arrival.byte)
        } else {
            self.mailbox.put(arrival.byte);
            self.armed = true;
            Reception::Deferred(arrival.byte)
        }
    }

    /// The transmit path, for an entry that found transmit-ready set.
    ///
    /// The interrupt is disabled once the mailbox is seen empty after the
    /// byte was taken, which it always is.
    pub fn on_transmit_ready(&mut self) -> (drain: Drain)
        ensures
            final(self)@ == old(self)@.transmit().0,
            drain == old(self)@.transmit().1,
            final(self)@.is_idle(),
    {
        match self.mailbox.take() {
            Some(byte) => {
                let disarm = !self.mailbox.is_valid();
                if disarm {
                    self.armed = false;
                }
                Drain { byte: Some(byte), disarm }
            },
            None => {
                self.armed = false;
                Drain { byte: None, disarm: true }
            },
        }
    }

    /// One entry of the interrupt handler.
    ///
    /// Receive-ready is looked at before transmit-ready, so a byte that
    /// arrives while the transmitter is free goes out within the same entry.
    /// The enable bit that the writes of `outcome` leave in the peripheral is
    /// the one the new state records, and it mirrors the mailbox after the
    /// entry where it did before.
    pub fn service(&mut self, entry: Entry) -> (outcome: Outcome)
        ensures
            final(self)@ == old(self)@.step(entry).0,
            outcome == old(self)@.step(entry).1,
            outcome.armed_after(old(self)@.armed) == final(self)@.armed,
            old(self)@.mirrored() ==> final(self)@.mirrored(),
    {
        let reception = match entry.arrival {
            Some(arrival) => Some(self.on_receive(arrival)),
            None => None,
        };
        let drain = if entry.transmit_ready {
            Some(self.on_transmit_ready())
        } else {
            None
        };
        Outcome { reception, drain }
    }
}

} // verus!
