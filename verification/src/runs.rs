//! What holds over runs of handler entries.
//!
//! Everything here is stated of [`State::step`], [`State::run`] and
//! [`State::echo`], which is what [`crate::handler::Handler::service`] is
//! proved to follow, so it holds of every sequence of entries that the
//! firmware can go through.

use vstd::prelude::*;
use crate::handler::{Arrival, Entry, State};

verus! {

impl State {
    /// How many bytes are lost over the entries of `entries`: one for each
    /// byte that is stored while another still waits.
    pub open spec fn lost(self, entries: Seq<Entry>) -> nat
        decreases entries.len(),
    {
        if entries.len() == 0 {
            0
        } else {
            self.lost(entries.drop_last()) + if self.run(entries.drop_last()).overwrites(
                entries.last(),
            ) {
                1nat
            } else {
                0nat
            }
        }
    }
}

impl Entry {
    /// An entry that found a byte and a busy transmitter, and transmit-ready
    /// clear in the status word.
    pub open spec fn arrival_on_busy_line(byte: u8) -> Entry {
        Entry { arrival: Some(Arrival { byte, transmit_ready: false }), transmit_ready: false }
    }

    /// An entry that found transmit-ready set and no byte.
    pub open spec fn transmitter_free() -> Entry {
        Entry { arrival: None, transmit_ready: true }
    }

    /// Whether this entry found no byte, or found the transmitter free for
    /// the byte it found.
    pub open spec fn finds_line_free(self) -> bool {
        match self.arrival {
            Some(arrival) => arrival.transmit_ready,
            None => true,
        }
    }
}

/// The bytes that arrived over the entries of `entries`, in order.
pub open spec fn arrivals(entries: Seq<Entry>) -> Seq<u8>
    decreases entries.len(),
{
    if entries.len() == 0 {
        Seq::empty()
    } else {
        arrivals(entries.drop_last()) + match entries.last().arrival {
            Some(arrival) => seq![arrival.byte],
            None => Seq::empty(),
        }
    }
}

/// The enable bit that the register writes of an entry leave behind is the
/// one that the state after the entry records.
pub proof fn lemma_writes_set_the_enable_bit(state: State, entry: Entry)
    ensures
        state.step(entry).1.armed_after(state.armed) == state.step(entry).0.armed,
{
}

/// The enable bit mirrors the mailbox in exactly two states: idle, and
/// pending.
pub proof fn lemma_mirrored_is_idle_or_pending(state: State)
    ensures
        state.mirrored() <==> state.is_idle() || state.is_pending(),
{
}

/// An entry keeps the enable bit in step with the mailbox, and an entry that
/// ran the transmit path leaves the handler idle whatever came before.
pub proof fn lemma_entry_keeps_mirror(state: State, entry: Entry)
    ensures
        state.mirrored() ==> state.step(entry).0.mirrored(),
        entry.transmit_ready ==> state.step(entry).0.is_idle(),
{
}

/// After every entry of every run that starts with the enable bit in step
/// with the mailbox, the transmit-ready interrupt is enabled if and only if a
/// byte waits in the mailbox.
pub proof fn lemma_run_keeps_mirror(state: State, entries: Seq<Entry>)
    requires
        state.mirrored(),
    ensures
        state.run(entries).mirrored(),
    decreases entries.len(),
{
    if entries.len() > 0 {
        lemma_run_keeps_mirror(state, entries.drop_last());
        lemma_entry_keeps_mirror(state.run(entries.drop_last()), entries.last());
    }
}

/// The same from boot: whatever entries follow, the enable bit mirrors the
/// mailbox after each of them.
pub proof fn lemma_mirror_holds_from_boot(entries: Seq<Entry>)
    ensures
        State::initial().run(entries).mirrored(),
{
    lemma_run_keeps_mirror(State::initial(), entries);
}

/// A byte that arrives while the mailbox is empty and the transmitter is
/// free is written back, unchanged and alone, within the entry that read it,
/// and nothing waits when the entry is over.
pub proof fn lemma_free_line_echoes_at_once(state: State, byte: u8, transmit_ready_on_entry: bool)
    requires
        state.pending is None,
    ensures
        state.step(
            (Entry {
                arrival: Some(Arrival { byte, transmit_ready: true }),
                transmit_ready: transmit_ready_on_entry,
            }),
        ).1.written() == seq![byte],
        state.step(
            (Entry {
                arrival: Some(Arrival { byte, transmit_ready: true }),
                transmit_ready: transmit_ready_on_entry,
            }),
        ).0.pending is None,
{
    let entry = Entry {
        arrival: Some(Arrival { byte, transmit_ready: true }),
        transmit_ready: transmit_ready_on_entry,
    };
    assert(state.step(entry).1.written() =~= seq![byte]);
}

/// The echo is transparent: over a run that starts with an empty mailbox and
/// never finds the transmitter busy, what is written back is what arrived,
/// byte for byte and in order, and nothing waits at the end.
pub proof fn lemma_free_line_is_transparent(state: State, entries: Seq<Entry>)
    requires
        state.pending is None,
        forall|i: int| 0 <= i < entries.len() ==> (#[trigger] entries[i]).finds_line_free(),
    ensures
        state.echo(entries) == arrivals(entries),
        state.run(entries).pending is None,
    decreases entries.len(),
{
    if entries.len() > 0 {
        let before = entries.drop_last();
        let last = entries.last();
        assert forall|i: int| 0 <= i < before.len() implies (#[trigger] before[i]).finds_line_free() by {
            assert(before[i] == entries[i]);
        }
        lemma_free_line_is_transparent(state, before);
        assert(last.finds_line_free());
        let middle = state.run(before);
        match last.arrival {
            Some(arrival) => {
                assert(middle.step(last).1.written() =~= seq![arrival.byte]);
            },
            None => {
                assert(middle.step(last).1.written() =~= Seq::<u8>::empty());
            },
        }
    }
}

/// Every byte is accounted for: over any run, what was written, what still
/// waits and what was overwritten add up to what arrived and what waited at
/// the start. So a byte can only go missing by being overwritten in the
/// mailbox, and no more bytes are written than arrived or waited.
pub proof fn lemma_bytes_are_accounted_for(state: State, entries: Seq<Entry>)
    ensures
        state.echo(entries).len() + state.run(entries).waiting() + state.lost(entries) == arrivals(
            entries,
        ).len() + state.waiting(),
    decreases entries.len(),
{
    if entries.len() > 0 {
        lemma_bytes_are_accounted_for(state, entries.drop_last());
    }
}

/// No byte is invented or altered: every byte written over a run, and the
/// byte that waits at its end, is one that arrived during the run or waited
/// at its start.
pub proof fn lemma_no_byte_is_invented(state: State, entries: Seq<Entry>)
    ensures
        forall|i: int|
            0 <= i < state.echo(entries).len() ==> arrivals(entries).contains(
                #[trigger] state.echo(entries)[i],
            ) || state.pending == Some(state.echo(entries)[i]),
        state.run(entries).pending matches Some(byte) ==> arrivals(entries).contains(byte)
            || state.pending == Some(byte),
    decreases entries.len(),
{
    if entries.len() > 0 {
        let before = entries.drop_last();
        let last = entries.last();
        lemma_no_byte_is_invented(state, before);
        let middle = state.run(before);
        let came = match last.arrival {
            Some(arrival) => seq![arrival.byte],
            None => Seq::<u8>::empty(),
        };
        assert(arrivals(entries) == arrivals(before) + came);
        // what arrived before, and what arrives now, has arrived by the end
        assert forall|byte: u8| arrivals(before).contains(byte) implies arrivals(
            entries,
        ).contains(byte) by {
            let k = choose|k: int| 0 <= k < arrivals(before).len() && arrivals(before)[k] == byte;
            assert(arrivals(entries)[k] == byte);
        }
        assert forall|byte: u8| came.contains(byte) implies arrivals(entries).contains(byte) by {
            assert(arrivals(entries)[arrivals(before).len() as int] == byte);
        }
        if last.arrival is Some {
            assert(came[0] == last.arrival->0.byte);
            assert(came.contains(last.arrival->0.byte));
        }
        let now = middle.step(last).1.written();
        assert forall|i: int| 0 <= i < state.echo(entries).len() implies arrivals(
            entries,
        ).contains(#[trigger] state.echo(entries)[i]) || state.pending == Some(
            state.echo(entries)[i],
        ) by {
            if i < state.echo(before).len() {
                assert(state.echo(entries)[i] == state.echo(before)[i]);
            } else {
                let byte = now[i - state.echo(before).len()];
                assert(state.echo(entries)[i] == byte);
                // a byte written now has just arrived or waited in the middle
                assert(came.contains(byte) || middle.pending == Some(byte));
            }
        }
    }
}

/// A byte that arrives while the transmitter is busy waits in the mailbox
/// with the interrupt enabled, and the next entry that finds the transmitter
/// free writes exactly that byte and leaves the handler idle.
pub proof fn lemma_deferred_byte_goes_out(state: State, byte: u8)
    ensures
        state.step(Entry::arrival_on_busy_line(byte)).0 == (State {
            pending: Some(byte),
            armed: true,
        }),
        state.step(Entry::arrival_on_busy_line(byte)).1.written() == Seq::<u8>::empty(),
        state.step(Entry::arrival_on_busy_line(byte)).0.step(
            Entry::transmitter_free(),
        ).1.written() == seq![byte],
        state.step(Entry::arrival_on_busy_line(byte)).0.step(
            Entry::transmitter_free(),
        ).0.is_idle(),
{
    let first = state.step(Entry::arrival_on_busy_line(byte));
    assert(first.1.written() =~= Seq::<u8>::empty());
    assert(first.0.step(Entry::transmitter_free()).1.written() =~= seq![byte]);
}

/// The mailbox keeps the newest byte. Of two bytes that arrive one after the
/// other while the transmitter stays busy, the second takes the place of the
/// first, and when the transmitter is free again the second alone goes out:
/// the first is lost.
pub proof fn lemma_newest_byte_wins(state: State, first: u8, second: u8)
    ensures
        state.run(
            seq![Entry::arrival_on_busy_line(first), Entry::arrival_on_busy_line(second)],
        ).pending == Some(second),
        state.echo(
            seq![
                Entry::arrival_on_busy_line(first),
                Entry::arrival_on_busy_line(second),
                Entry::transmitter_free(),
            ],
        ) == seq![second],
        state.run(
            seq![
                Entry::arrival_on_busy_line(first),
                Entry::arrival_on_busy_line(second),
                Entry::transmitter_free(),
            ],
        ).is_idle(),
{
    let e1 = Entry::arrival_on_busy_line(first);
    let e2 = Entry::arrival_on_busy_line(second);
    let e3 = Entry::transmitter_free();
    let none = Seq::<Entry>::empty();
    let one = seq![e1];
    let two = seq![e1, e2];
    let three = seq![e1, e2, e3];
    assert(one.drop_last() =~= none);
    assert(two.drop_last() =~= one);
    assert(three.drop_last() =~= two);
    assert(state.run(none) == state);
    assert(state.echo(none) =~= Seq::<u8>::empty());
    assert(state.run(one) == state.step(e1).0);
    assert(state.echo(one) =~= Seq::<u8>::empty());
    assert(state.run(two) == state.run(one).step(e2).0);
    assert(state.echo(two) =~= Seq::<u8>::empty());
    assert(state.run(three) == state.run(two).step(e3).0);
    assert(state.run(two).step(e3).1.written() =~= seq![second]);
    assert(state.echo(three) =~= seq![second]);
}

} // verus!
