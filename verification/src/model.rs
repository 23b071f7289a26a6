//! The mathematical model of one connection: its state, the events that
//! change it, and what a read or a write attempt answers in each state.

use vstd::prelude::*;

verus! {

/// The state that the socket's event handlers and the stream operations
/// share.
pub ghost struct ConnState {
    /// Whether the socket has signalled that it is ready.
    pub opened: bool,
    /// The first fatal error that the socket reported, if any.
    pub error: Option<Seq<char>>,
    /// The bytes received and not yet handed to a reader, oldest first.
    pub inbound: Seq<u8>,
}

/// What a read attempt answers.
pub ghost enum ReadOutcome {
    /// The connection has failed with this error.
    Failed(Seq<char>),
    /// Nothing is buffered: the reader is parked.
    Pending,
    /// These bytes leave the head of the buffer for the reader.
    Delivered(Seq<u8>),
}

/// What a write attempt decides before anything is sent.
pub ghost enum WriteOutcome {
    /// The connection has failed with this error.
    Failed(Seq<char>),
    /// The socket is not open yet: the writer is parked.
    Pending,
    /// The bytes are to be handed to the socket as one frame.
    Send,
}

/// The text that precedes the socket's diagnostic in the error of a failed
/// send.
pub open spec fn write_error_prefix() -> Seq<char> {
    "Write error: "@
}

/// What a write reports once the socket has answered the send of `len`
/// bytes: all of them accepted, or an error that carries the diagnostic.
pub open spec fn send_result(len: nat, sent: Result<(), Seq<char>>) -> Result<nat, Seq<char>> {
    match sent {
        Ok(_) => Ok(len),
        Err(diagnostic) => Err(write_error_prefix() + diagnostic),
    }
}

impl ConnState {
    /// The state of a connection whose socket was just created.
    pub open spec fn initial() -> ConnState {
        ConnState { opened: false, error: None, inbound: Seq::empty() }
    }

    /// The socket signalled that it is open.
    pub open spec fn on_open(self) -> ConnState {
        ConnState { opened: true, ..self }
    }

    /// The socket delivered a chunk of bytes.
    pub open spec fn on_data(self, chunk: Seq<u8>) -> ConnState {
        ConnState { inbound: self.inbound + chunk, ..self }
    }

    /// The socket reported an error: the first one stays.
    pub open spec fn on_error(self, message: Seq<char>) -> ConnState {
        if self.error is Some {
            self
        } else {
            ConnState { error: Some(message), ..self }
        }
    }

    /// How many bytes a read into a buffer of `capacity` bytes takes.
    pub open spec fn read_len(self, capacity: nat) -> nat {
        if self.error is Some {
            0
        } else if self.inbound.len() <= capacity {
            self.inbound.len()
        } else {
            capacity
        }
    }

    /// What a read into a buffer of `capacity` bytes answers.
    pub open spec fn read(self, capacity: nat) -> ReadOutcome {
        if self.error is Some {
            ReadOutcome::Failed(self.error->0)
        } else if self.inbound.len() == 0 {
            ReadOutcome::Pending
        } else {
            ReadOutcome::Delivered(self.inbound.take(self.read_len(capacity) as int))
        }
    }

    /// The state that a read into a buffer of `capacity` bytes leaves.
    pub open spec fn after_read(self, capacity: nat) -> ConnState {
        ConnState { inbound: self.inbound.skip(self.read_len(capacity) as int), ..self }
    }

    /// What a write attempt decides.
    pub open spec fn write(self) -> WriteOutcome {
        if self.error is Some {
            WriteOutcome::Failed(self.error->0)
        } else if !self.opened {
            WriteOutcome::Pending
        } else {
            WriteOutcome::Send
        }
    }
}

/// Something that happens to a connection: a reaction to the socket, or an
/// operation of the stream.
pub ghost enum Event {
    /// The socket opened.
    Opened,
    /// The socket delivered these bytes.
    Data(Seq<u8>),
    /// The socket reported an error with this message.
    Errored(Seq<char>),
    /// A read into a buffer of this many bytes.
    Read(nat),
    /// A write attempt.
    Write,
    /// A flush.
    Flush,
    /// A close attempt.
    Close,
}

/// The state after one event.
pub open spec fn step(state: ConnState, event: Event) -> ConnState {
    match event {
        Event::Opened => state.on_open(),
        Event::Data(chunk) => state.on_data(chunk),
        Event::Errored(message) => state.on_error(message),
        Event::Read(capacity) => state.after_read(capacity),
        Event::Write => state,
        Event::Flush => state,
        Event::Close => state,
    }
}

/// The bytes that one event hands to a reader.
pub open spec fn delivered(state: ConnState, event: Event) -> Seq<u8> {
    match event {
        Event::Read(capacity) => state.inbound.take(state.read_len(capacity) as int),
        _ => Seq::empty(),
    }
}

/// The bytes that one event brings in from the socket.
pub open spec fn arrived(event: Event) -> Seq<u8> {
    match event {
        Event::Data(chunk) => chunk,
        _ => Seq::empty(),
    }
}

/// The state after a sequence of events, taken in order.
pub open spec fn run(state: ConnState, events: Seq<Event>) -> ConnState
    decreases events.len(),
{
    if events.len() == 0 {
        state
    } else {
        step(run(state, events.drop_last()), events.last())
    }
}

/// All bytes that the reads among `events` return, in the order of the
/// reads.
pub open spec fn delivered_by(state: ConnState, events: Seq<Event>) -> Seq<u8>
    decreases events.len(),
{
    if events.len() == 0 {
        Seq::empty()
    } else {
        delivered_by(state, events.drop_last()) + delivered(
            run(state, events.drop_last()),
            events.last(),
        )
    }
}

/// All bytes that the data events among `events` bring, in the order of
/// arrival.
pub open spec fn arrived_in(events: Seq<Event>) -> Seq<u8>
    decreases events.len(),
{
    if events.len() == 0 {
        Seq::empty()
    } else {
        arrived_in(events.drop_last()) + arrived(events.last())
    }
}

} // verus!
