//! One remote peer's session.
//!
//! A session wraps one accepted reliable connection. Outside this crate a
//! dedicated inbound-read task blocks on that connection; the session's state
//! here is what that task and the hub agree on: the peer's address, fixed for
//! the session's lifetime, and the liveness flag, true from acceptance until
//! the peer disconnects, a read fails, or the session is closed — a one-way
//! transition, with no reopening.

use vstd::prelude::*;

use crate::packets::Packet;
use crate::srv::address::Address;

verus! {

/// What one blocking read on the session's connection came back with. The
/// read task reads one framed message at a time: first the one-byte kind id,
/// then exactly the payload length declared for that kind.
pub enum ReadEvent {
    /// The read returned zero bytes: the peer disconnected in an orderly way.
    Eof,
    /// The read failed, including a failure caused by a concurrent close of
    /// the session: an abnormal disconnect.
    Failed,
    /// A whole framed message arrived: the kind id byte and the payload bytes
    /// that followed it. An unrecognized id carries an empty payload, since
    /// no length is declared for it.
    Frame { id: u8, payload: Vec<u8> },
}

/// What the inbound-read task must do after handing one [`ReadEvent`] to its
/// session.
#[derive(PartialEq, Eq, Structural, Debug)]
pub enum ReadControl {
    /// Pass the decoded packet downstream and keep reading.
    Deliver(Packet),
    /// Shut the connection down and exit the read loop.
    Stop,
}

/// The bookkeeping state of one remote peer's session.
#[derive(Clone, Copy, PartialEq, Eq, Structural, Debug)]
pub struct User {
    /// The peer's remote address, fixed for the session's lifetime.
    pub addr: Address,
    /// The liveness flag: true until the peer disconnects, a read fails, or
    /// the session is closed. Outside this crate it is shared between the
    /// session's read task and everyone else as a single-writer atomic.
    pub alive: bool,
}

impl User {
    /// The state a session starts in when the hub accepts a connection from
    /// `addr`: alive, with the address recorded.
    pub open spec fn spec_new(addr: Address) -> User {
        User { addr, alive: true }
    }

    /// Opens the session for an accepted connection whose peer is `addr`.
    pub fn new(addr: Address) -> (u: User)
        ensures
            u == User::spec_new(addr),
    {
        User { addr, alive: true }
    }

    /// The peer's remote address.
    pub fn remote_address(&self) -> (a: Address)
        ensures
            a == self.addr,
    {
        self.addr
    }

    /// Reads the liveness flag.
    pub fn is_open(&self) -> (r: bool)
        ensures
            r == self.alive,
    {
        self.alive
    }

    /// Closes the session: the liveness flag goes false and stays there. The
    /// caller shuts the connection itself down; closing an already-closed
    /// session is a no-op, so teardown may close blindly.
    pub fn close(&mut self)
        ensures
            final(self).addr == old(self).addr,
            !final(self).alive,
    {
        self.alive = false;
    }

    /// Advances the session for one read event and says what the read task
    /// does next.
    ///
    /// Zero bytes or a read error means the peer is gone: the session dies
    /// and the task stops. A framed message that decodes is delivered
    /// downstream with the session untouched. A framed message that does not
    /// decode also kills the session: a reliable stream with a bad frame
    /// cannot be resynchronized, so the connection is dropped rather than
    /// guessed at.
    pub fn handle_read_event(&mut self, event: &ReadEvent) -> (r: ReadControl)
        ensures
            final(self).addr == old(self).addr,
            match *event {
                ReadEvent::Eof => !final(self).alive && r == ReadControl::Stop,
                ReadEvent::Failed => !final(self).alive && r == ReadControl::Stop,
                ReadEvent::Frame { id, payload } => match Packet::spec_decode(id, payload@) {
                    Ok(p) => final(self).alive == old(self).alive && r == ReadControl::Deliver(p),
                    Err(_) => !final(self).alive && r == ReadControl::Stop,
                },
            },
    {
        match event {
            ReadEvent::Eof => {
                self.alive = false;
                ReadControl::Stop
            },
            ReadEvent::Failed => {
                self.alive = false;
                ReadControl::Stop
            },
            ReadEvent::Frame { id, payload } => match Packet::decode(*id, payload.as_slice()) {
                Ok(p) => ReadControl::Deliver(p),
                Err(_) => {
                    self.alive = false;
                    ReadControl::Stop
                },
            },
        }
    }
}

} // verus!
