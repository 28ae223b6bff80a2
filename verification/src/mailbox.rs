//! A single-slot holding cell for one outgoing byte.

use vstd::prelude::*;

verus! {

/// Holds at most one byte that is waiting for the transmitter.
///
/// The slot is described by its view: `Some(b)` while `b` waits, `None` while
/// the slot is empty. Whatever the byte field holds while the slot is empty
/// is not part of the view, so a byte that was taken can never be seen again.
///
/// Both operations need exclusive access, so each is one indivisible step for
/// every other user of the slot: nobody can observe it half-written.
#[derive(Debug)]
pub struct Mailbox {
    valid: bool,
    byte: u8,
}

impl View for Mailbox {
    type V = Option<u8>;

    closed spec fn view(&self) -> Option<u8> {
        if self.valid {
            Some(self.byte)
        } else {
            None
        }
    }
}

impl Mailbox {
    /// What the slot holds after `put(byte)`, whatever it held before.
    pub open spec fn after_put(before: Option<u8>, byte: u8) -> Option<u8> {
        Some(byte)
    }

    /// What `take` hands out of a slot that holds `before`.
    pub open spec fn taken(before: Option<u8>) -> Option<u8> {
        before
    }

    /// What the slot holds after `take`, whatever it held before.
    pub open spec fn after_take(before: Option<u8>) -> Option<u8> {
        None
    }

    /// An empty slot.
    pub fn new() -> (m: Mailbox)
        ensures
            m@ == None::<u8>,
    {
        Mailbox { valid: false, byte: 0 }
    }

    /// Stores `byte` and marks the slot valid.
    ///
    /// A byte that was still waiting is replaced: the slot keeps the newest.
    pub fn put(&mut self, byte: u8)
        ensures
            final(self)@ == Self::after_put(old(self)@, byte),
    {
        self.byte = byte;
        self.valid = true;
    }

    /// Reads the waiting byte and empties the slot, in one step.
    pub fn take(&mut self) -> (taken: Option<u8>)
        ensures
            taken == Self::taken(old(self)@),
            final(self)@ == Self::after_take(old(self)@),
    {
        if self.valid {
            self.valid = false;
            Some(self.byte)
        } else {
            None
        }
    }

    /// Whether a byte is waiting.
    pub fn is_valid(&self) -> (valid: bool)
        ensures
            valid == self@.is_some(),
    {
        self.valid
    }

    /// The waiting byte, left in place.
    pub fn peek(&self) -> (waiting: Option<u8>)
        ensures
            waiting == self@,
    {
        if self.valid {
            Some(self.byte)
        } else {
            None
        }
    }

    /// A taken byte is gone: a second `take` with no `put` in between finds
    /// the slot empty, whatever the first one found.
    pub proof fn lemma_take_leaves_nothing(before: Option<u8>)
        ensures
            Self::taken(Self::after_take(before)) == None::<u8>,
            Self::after_take(Self::after_take(before)) == None::<u8>,
    {
    }

    /// A stored byte comes out once and unchanged: `take` after `put(byte)`
    /// hands out `byte`, whatever waited before the `put`.
    pub proof fn lemma_put_then_take(before: Option<u8>, byte: u8)
        ensures
            Self::taken(Self::after_put(before, byte)) == Some(byte),
            Self::after_take(Self::after_put(before, byte)) == None::<u8>,
    {
    }

    /// The slot has one place: of two bytes stored with no `take` in between,
    /// only the second is still there.
    pub proof fn lemma_put_replaces(before: Option<u8>, first: u8, second: u8)
        ensures
            Self::after_put(Self::after_put(before, first), second) == Some(second),
    {
    }
}

} // verus!
