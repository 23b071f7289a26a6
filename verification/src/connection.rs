//! The state of one connection and the operations of its byte stream.
//!
//! The socket's event handlers call `on_open`, `on_message` and `on_error`;
//! the stream calls `poll_read`, `poll_write`, `poll_flush` and `poll_close`.
//! Every access is expected to happen under the lock that guards the
//! connection, so each operation sees and leaves one consistent state.

use crate::attempt::Attempt;
use crate::model::{send_result, ConnState, ReadOutcome, WriteOutcome};
use std::collections::VecDeque;
use std::task::Waker;
use vstd::prelude::*;

verus! {

/// The handle by which a task asks to be polled again. Nothing inside it is
/// visible here.
#[verifier::external_type_specification]
#[verifier::external_body]
pub struct ExWaker(Waker);

/// `Waker::wake_by_ref` asks the executor to poll the waker's task again. It
/// returns nothing and the contract claims nothing.
pub assume_specification[ Waker::wake_by_ref ](waker: &Waker)
;

/// What a write attempt decides under the lock, before anything is sent.
#[derive(Debug, PartialEq, Eq)]
pub enum WriteStep {
    /// The connection has failed with this error.
    Failed(String),
    /// The socket is not open yet; the writer is parked.
    Pending,
    /// The caller hands the bytes to the socket as one frame and reports
    /// what the socket answered to [`finish_write`].
    Send,
}

impl View for WriteStep {
    type V = WriteOutcome;

    open spec fn view(&self) -> WriteOutcome {
        match self {
            WriteStep::Failed(message) => WriteOutcome::Failed(message@),
            WriteStep::Pending => WriteOutcome::Pending,
            WriteStep::Send => WriteOutcome::Send,
        }
    }
}

/// The state of one connection, with the socket that it owns.
pub struct Connection<S> {
    opened: bool,
    error: Option<String>,
    data: VecDeque<u8>,
    waker: Option<Waker>,
    socket: S,
}

impl<S> View for Connection<S> {
    type V = ConnState;

    closed spec fn view(&self) -> ConnState {
        ConnState {
            opened: self.opened,
            error: match self.error {
                Some(message) => Some(message@),
                None => None,
            },
            inbound: self.data@,
        }
    }
}

/// Moves the first `n` bytes of `data` to the head of `buf`, in order.
fn drain(data: &mut VecDeque<u8>, buf: &mut [u8], n: usize)
    requires
        n <= old(data)@.len(),
        n <= old(buf)@.len(),
    ensures
        final(data)@ == old(data)@.skip(n as int),
        final(buf)@ == old(data)@.take(n as int) + old(buf)@.skip(n as int),
{
    let ghost inbound = data@;
    let ghost before = buf@;
    let mut i: usize = 0;
    while i < n
        invariant
            i <= n,
            n <= inbound.len(),
            n <= before.len(),
            data@ == inbound.skip(i as int),
            buf@ == inbound.take(i as int) + before.skip(i as int),
        decreases n - i,
    {
        if let Some(byte) = data.pop_front() {
            buf[i] = byte;
        }
        i += 1;
    }
}

/// Appends `bytes` to the tail of `data`, in order.
fn extend(data: &mut VecDeque<u8>, bytes: &[u8])
    ensures
        final(data)@ == old(data)@ + bytes@,
{
    let ghost inbound = data@;
    let mut i: usize = 0;
    while i < bytes.len()
        invariant
            i <= bytes@.len(),
            data@ == inbound + bytes@.take(i as int),
        decreases bytes@.len() - i,
    {
        data.push_back(bytes[i]);
        i += 1;
    }
}

impl<S> Connection<S> {
    /// The waker of the most recent read or write attempt, if there was one.
    pub closed spec fn registered_waker(&self) -> Option<Waker> {
        self.waker
    }

    /// The socket that the connection owns.
    pub closed spec fn socket_handle(&self) -> S {
        self.socket
    }

    /// The state of a connection around a socket that was just created: not
    /// open, without error, nothing buffered, nobody waiting.
    pub fn new(socket: S) -> (conn: Self)
        ensures
            conn@ == ConnState::initial(),
            conn.registered_waker() is None,
            conn.socket_handle() == socket,
    {
        Connection {
            opened: false,
            error: None,
            data: VecDeque::with_capacity(65536),
            waker: None,
            socket,
        }
    }

    /// The socket that the connection owns.
    pub fn socket(&self) -> (socket: &S)
        ensures
            *socket == self.socket_handle(),
    {
        &self.socket
    }

    /// Whether the socket has opened.
    pub fn is_open(&self) -> (opened: bool)
        ensures
            opened == self@.opened,
    {
        self.opened
    }

    /// The error that the connection has failed with, if it has.
    pub fn error(&self) -> (error: Option<String>)
        ensures
            match self@.error {
                Some(message) => error matches Some(e) && e@ == message,
                None => error is None,
            },
    {
        match &self.error {
            Some(message) => Some(message.clone()),
            None => None,
        }
    }

    /// How many received bytes wait for a reader.
    pub fn buffered(&self) -> (len: usize)
        ensures
            len == self@.inbound.len(),
    {
        self.data.len()
    }

    /// Wakes the registered waker, if there is one, and says whether there
    /// was.
    fn notify(&self) -> (notified: bool)
        ensures
            notified == self.registered_waker() is Some,
    {
        match &self.waker {
            Some(waker) => {
                waker.wake_by_ref();
                true
            },
            None => false,
        }
    }

    /// The reaction to the socket's open event: the connection is open from
    /// now on, and a parked reader or writer is woken. Returns whether a
    /// waker was registered.
    pub fn on_open(&mut self) -> (notified: bool)
        ensures
            final(self)@ == old(self)@.on_open(),
            final(self).registered_waker() == old(self).registered_waker(),
            final(self).socket_handle() == old(self).socket_handle(),
            notified == old(self).registered_waker() is Some,
    {
        self.opened = true;
        self.notify()
    }

    /// The reaction to the socket's message event: the bytes join the tail
    /// of the buffer, and a parked reader is woken. Returns whether a waker
    /// was registered.
    pub fn on_message(&mut self, bytes: &[u8]) -> (notified: bool)
        ensures
            final(self)@ == old(self)@.on_data(bytes@),
            final(self).registered_waker() == old(self).registered_waker(),
            final(self).socket_handle() == old(self).socket_handle(),
            notified == old(self).registered_waker() is Some,
    {
        extend(&mut self.data, bytes);
        self.notify()
    }

    /// The reaction to the socket's error event: the first error is kept for
    /// good, a later one is dropped.
    pub fn on_error(&mut self, message: String)
        ensures
            final(self)@ == old(self)@.on_error(message@),
            final(self).registered_waker() == old(self).registered_waker(),
            final(self).socket_handle() == old(self).socket_handle(),
    {
        if self.error.is_none() {
            self.error = Some(message);
        }
    }

    /// Attempts to read into `buf`.
    ///
    /// Registers `waker` in place of any earlier one. A failed connection
    /// answers with its error. With nothing buffered the reader is parked.
    /// Otherwise as many buffered bytes as `buf` has room for move from the
    /// head of the buffer to the head of `buf`, in order, and their count is
    /// returned; the rest of `buf` and of the buffer stay as they are.
    pub fn poll_read(&mut self, waker: Waker, buf: &mut [u8]) -> (res: Attempt<
        Result<usize, String>,
    >)
        ensures
            final(self)@ == old(self)@.after_read(old(buf)@.len()),
            final(self).registered_waker() == Some(waker),
            final(self).socket_handle() == old(self).socket_handle(),
            match old(self)@.read(old(buf)@.len()) {
                ReadOutcome::Failed(error) => {
                    &&& res matches Attempt::Ready(Err(message))
                    &&& message@ == error
                    &&& final(buf)@ == old(buf)@
                },
                ReadOutcome::Pending => {
                    &&& res is Pending
                    &&& final(buf)@ == old(buf)@
                },
                ReadOutcome::Delivered(bytes) => {
                    &&& res matches Attempt::Ready(Ok(n))
                    &&& n == bytes.len()
                    &&& final(buf)@ == bytes + old(buf)@.skip(bytes.len() as int)
                },
            },
    {
        self.waker = Some(waker);
        if let Some(message) = &self.error {
            let message = message.clone();
            assert(self.data@.skip(0) == self.data@);
            return Attempt::Ready(Err(message));
        }
        if self.data.len() == 0 {
            assert(self.data@.skip(0) == self.data@);
            return Attempt::Pending;
        }
        let n: usize = if self.data.len() <= buf.len() {
            self.data.len()
        } else {
            buf.len()
        };
        drain(&mut self.data, buf, n);
        Attempt::Ready(Ok(n))
    }

    /// Decides a write attempt.
    ///
    /// Registers `waker` in place of any earlier one. A failed connection
    /// answers with its error. Before the socket has opened the writer is
    /// parked. Otherwise the caller is told to send. The state itself does
    /// not change.
    pub fn poll_write(&mut self, waker: Waker) -> (step: WriteStep)
        ensures
            final(self)@ == old(self)@,
            final(self).registered_waker() == Some(waker),
            final(self).socket_handle() == old(self).socket_handle(),
            step@ == old(self)@.write(),
    {
        self.waker = Some(waker);
        if let Some(message) = &self.error {
            WriteStep::Failed(message.clone())
        } else if !self.opened {
            WriteStep::Pending
        } else {
            WriteStep::Send
        }
    }

    /// Flushing always succeeds at once: every write leaves as a whole
    /// frame.
    pub fn poll_flush(&self) -> (res: Attempt<Result<(), String>>)
        ensures
            res == Attempt::<Result<(), String>>::Ready(Ok(())),
    {
        Attempt::Ready(Ok(()))
    }

    /// Closing is never ready: the socket is closed when the connection is
    /// dropped.
    pub fn poll_close(&self) -> (res: Attempt<Result<(), String>>)
        ensures
            res is Pending,
    {
        Attempt::Pending
    }
}

/// What the socket answered to a send, with the diagnostic as a sequence
/// of characters.
pub open spec fn sent_view(sent: Result<(), String>) -> Result<(), Seq<char>> {
    match sent {
        Ok(_) => Ok(()),
        Err(diagnostic) => Err(diagnostic@),
    }
}

/// What a write of `len` bytes reports once the socket has answered the
/// send: all bytes accepted, or the error `Write error: ` followed by the
/// socket's diagnostic.
pub fn finish_write(len: usize, sent: Result<(), String>) -> (res: Result<usize, String>)
    ensures
        match send_result(len as nat, sent_view(sent)) {
            Ok(accepted) => res matches Ok(n) && n == accepted,
            Err(message) => res matches Err(m) && m@ == message,
        },
{
    match sent {
        Ok(_) => Ok(len),
        Err(diagnostic) => {
            let mut message = String::from_str("Write error: ");
            message.append(diagnostic.as_str());
            Err(message)
        },
    }
}

} // verus!
