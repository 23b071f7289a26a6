//! What holds of every connection, whatever the socket and the stream do
//! to it.

use crate::address::{recognized, url_of, SegmentView};
use crate::model::{
    arrived, arrived_in, delivered, delivered_by, run, send_result, step, ConnState, Event,
    ReadOutcome, WriteOutcome,
};
use vstd::prelude::*;

verus! {

/// Address resolution is total: every address either has a recognized
/// shape, and then it has a URL, or it has none. The URL is a function of
/// the first three segments alone: addresses that agree on them resolve
/// alike, whatever follows.
pub proof fn resolution_is_total(a: Seq<SegmentView>, b: Seq<SegmentView>)
    ensures
        recognized(a) <==> url_of(a) is Some,
        !recognized(a) <==> url_of(a) is None,
        a.len() < 3 ==> url_of(a) is None,
        a.len() >= 3 && b.len() >= 3 && a.take(3) == b.take(3) ==> url_of(a) == url_of(b),
{
    if a.len() >= 3 && b.len() >= 3 && a.take(3) == b.take(3) {
        assert(a[0] == a.take(3)[0] && a[1] == a.take(3)[1] && a[2] == a.take(3)[2]);
    }
}

/// Once a connection is open it stays open, whatever happens next.
pub proof fn opened_is_sticky(state: ConnState, events: Seq<Event>)
    requires
        state.opened,
    ensures
        run(state, events).opened,
    decreases events.len(),
{
    if events.len() > 0 {
        opened_is_sticky(state, events.drop_last());
    }
}

/// Once a connection has failed, its error stays the same whatever happens
/// next, and every later read and write answers with that error.
pub proof fn error_is_permanent(state: ConnState, events: Seq<Event>, capacity: nat)
    requires
        state.error is Some,
    ensures
        run(state, events).error == state.error,
        run(state, events).read(capacity) == ReadOutcome::Failed(state.error->0),
        run(state, events).write() == WriteOutcome::Failed(state.error->0),
    decreases events.len(),
{
    if events.len() > 0 {
        error_is_permanent(state, events.drop_last(), capacity);
    }
}

/// What a read event hands over is what the read answers with: the
/// delivered bytes, and nothing where the read fails or is parked.
pub proof fn delivered_is_what_read_answers(state: ConnState, capacity: nat)
    ensures
        match state.read(capacity) {
            ReadOutcome::Delivered(bytes) => delivered(state, Event::Read(capacity)) == bytes,
            _ => delivered(state, Event::Read(capacity)) == Seq::<u8>::empty(),
        },
{
}

/// No byte is lost, repeated or reordered: at any moment, the bytes that
/// the reads have returned so far, followed by the bytes still buffered,
/// are the bytes buffered at the start followed by every chunk that
/// arrived, in the order of arrival. This holds however the reads and the
/// arrivals interleave and whatever the sizes of the read buffers.
pub proof fn bytes_are_conserved(state: ConnState, events: Seq<Event>)
    ensures
        delivered_by(state, events) + run(state, events).inbound == state.inbound + arrived_in(
            events,
        ),
    decreases events.len(),
{
    if events.len() > 0 {
        let before = events.drop_last();
        let last = events.last();
        let mid = run(state, before);
        bytes_are_conserved(state, before);
        assert(delivered_by(state, events) + run(state, events).inbound == (delivered_by(
            state,
            before,
        ) + mid.inbound) + arrived(last));
    }
}

/// Reads that together drain the buffer return exactly what arrived:
/// starting with an empty buffer, if the buffer is empty again after
/// `events`, the reads among them have returned the concatenation of all
/// chunks, in order.
pub proof fn drained_reads_return_what_arrived(state: ConnState, events: Seq<Event>)
    requires
        state.inbound.len() == 0,
        run(state, events).inbound.len() == 0,
    ensures
        delivered_by(state, events) == arrived_in(events),
{
    bytes_are_conserved(state, events);
    assert(delivered_by(state, events) + run(state, events).inbound == delivered_by(
        state,
        events,
    ));
}

/// The number of bytes read and the number still buffered add up to the
/// number buffered at the start and the number that arrived.
pub proof fn byte_counts_add_up(state: ConnState, events: Seq<Event>)
    ensures
        delivered_by(state, events).len() + run(state, events).inbound.len()
            == state.inbound.len() + arrived_in(events).len(),
{
    bytes_are_conserved(state, events);
    assert((delivered_by(state, events) + run(state, events).inbound).len() == (state.inbound
        + arrived_in(events)).len());
}

/// A read with a buffer smaller than what is buffered fills the buffer
/// with the oldest bytes and leaves the rest for the next read.
pub proof fn partial_read_leaves_the_rest(state: ConnState, capacity: nat)
    requires
        state.error is None,
        capacity < state.inbound.len(),
    ensures
        state.read(capacity) == ReadOutcome::Delivered(state.inbound.take(capacity as int)),
        state.inbound.take(capacity as int).len() == capacity,
        state.after_read(capacity).inbound == state.inbound.skip(capacity as int),
        state.inbound.take(capacity as int) + state.after_read(capacity).inbound
            == state.inbound,
{
}

/// A write before the socket has opened is parked, not failed. Once the
/// open event has come, a write at any later moment is told to send, unless
/// the connection has failed by then; and a send that the socket accepts
/// reports every byte written.
pub proof fn write_parks_until_open(state: ConnState, later: Seq<Event>, len: nat)
    requires
        !state.opened,
        state.error is None,
    ensures
        state.write() == WriteOutcome::Pending,
        step(state, Event::Opened).write() == WriteOutcome::Send,
        run(step(state, Event::Opened), later).error is None ==> run(
            step(state, Event::Opened),
            later,
        ).write() == WriteOutcome::Send,
        send_result(len, Ok(())) == Ok::<nat, Seq<char>>(len),
{
    opened_is_sticky(step(state, Event::Opened), later);
}

} // verus!
