//! Life of one forwarded connection.
//!
//! A session starts when a local client is accepted and goes through
//! connecting to the remote server, relaying in both directions, closing its
//! streams, and closed. The caller reports outcomes; the session answers with
//! what must be done to the streams. Each stream is closed exactly once.
//!
//! When one direction reaches end-of-stream while the other still runs, the
//! write side of that direction's sink is shut down, so the peer sees the end
//! too; the session closes both streams once both directions are over. A
//! failure in either direction closes both streams at once.

use vstd::prelude::*;
use crate::pump::Ending;

verus! {

/// One of the two streams of a session.
#[derive(Clone, Copy, Debug, PartialEq, Eq, Structural)]
pub enum Side {
    /// The accepted client connection.
    Local,
    /// The outbound connection to the remote server.
    Remote,
}

/// One of the two directions of a session.
#[derive(Clone, Copy, Debug, PartialEq, Eq, Structural)]
pub enum Direction {
    /// Bytes read from the local stream and written to the remote one.
    Forward,
    /// Bytes read from the remote stream and written to the local one.
    Backward,
}

impl Direction {
    pub open spec fn spec_sink(self) -> Side {
        match self {
            Direction::Forward => Side::Remote,
            Direction::Backward => Side::Local,
        }
    }

    /// The stream this direction writes to.
    #[verifier::when_used_as_spec(spec_sink)]
    pub fn sink(self) -> (r: Side)
        ensures
            r == self.spec_sink(),
    {
        match self {
            Direction::Forward => Side::Remote,
            Direction::Backward => Side::Local,
        }
    }

    pub open spec fn spec_source(self) -> Side {
        match self {
            Direction::Forward => Side::Local,
            Direction::Backward => Side::Remote,
        }
    }

    /// The stream this direction reads from.
    #[verifier::when_used_as_spec(spec_source)]
    pub fn source(self) -> (r: Side)
        ensures
            r == self.spec_source(),
    {
        match self {
            Direction::Forward => Side::Local,
            Direction::Backward => Side::Remote,
        }
    }
}

/// Where a session is in its life.
#[derive(Clone, Copy, Debug, PartialEq, Eq, Structural)]
pub enum Phase {
    /// The local client is accepted; the remote connection is being opened.
    Connecting,
    /// Both directions copy bytes.
    Relaying,
    /// The session is over; some of its streams are still open.
    Closing,
    /// Every stream of the session is closed.
    Closed,
}

/// What the caller must do after reporting the end of a direction.
#[derive(Clone, Copy, Debug, PartialEq, Eq, Structural)]
pub enum Command {
    /// Nothing.
    Nothing,
    /// Shut down the write side of this stream, so its peer sees end-of-stream.
    ShutdownWrite(Side),
    /// Close both streams (through `Session::close`, one call per side).
    CloseBoth,
}

/// State of one session.
#[derive(Clone, Copy, Debug, PartialEq, Eq, Structural)]
pub struct Session {
    pub phase: Phase,
    /// How the forward direction ended, once it has.
    pub forward: Option<Ending>,
    /// How the backward direction ended, once it has.
    pub backward: Option<Ending>,
    pub local_open: bool,
    pub remote_open: bool,
}

impl Session {
    pub open spec fn is_open(self, side: Side) -> bool {
        match side {
            Side::Local => self.local_open,
            Side::Remote => self.remote_open,
        }
    }

    pub open spec fn ended(self, d: Direction) -> Option<Ending> {
        match d {
            Direction::Forward => self.forward,
            Direction::Backward => self.backward,
        }
    }

    pub open spec fn wf(self) -> bool {
        match self.phase {
            Phase::Connecting => {
                &&& self.forward is None
                &&& self.backward is None
                &&& self.local_open
                &&& !self.remote_open
            },
            Phase::Relaying => {
                &&& self.local_open
                &&& self.remote_open
                &&& self.forward != Some(Ending::Failed)
                &&& self.backward != Some(Ending::Failed)
                &&& (self.forward is None || self.backward is None)
            },
            Phase::Closing => self.local_open || self.remote_open,
            Phase::Closed => !self.local_open && !self.remote_open,
        }
    }

    pub open spec fn initial() -> Session {
        Session {
            phase: Phase::Connecting,
            forward: None,
            backward: None,
            local_open: true,
            remote_open: false,
        }
    }

    pub open spec fn after_connected(self) -> Session {
        Session { phase: Phase::Relaying, remote_open: true, ..self }
    }

    pub open spec fn after_connect_failed(self) -> Session {
        Session { phase: Phase::Closing, ..self }
    }

    pub open spec fn with_ended(self, d: Direction, e: Ending) -> Session {
        match d {
            Direction::Forward => Session { forward: Some(e), ..self },
            Direction::Backward => Session { backward: Some(e), ..self },
        }
    }

    /// The state and the command after direction `d` ended as `e`.
    pub open spec fn after_ended(self, d: Direction, e: Ending) -> (Session, Command) {
        let s = self.with_ended(d, e);
        if self.phase != Phase::Relaying {
            (s, Command::Nothing)
        } else if e == Ending::Failed || s.forward is Some && s.backward is Some {
            (Session { phase: Phase::Closing, ..s }, Command::CloseBoth)
        } else {
            (s, Command::ShutdownWrite(d.sink()))
        }
    }

    pub open spec fn after_close(self, side: Side) -> Session {
        let s = match side {
            Side::Local => Session { local_open: false, ..self },
            Side::Remote => Session { remote_open: false, ..self },
        };
        if !s.local_open && !s.remote_open {
            Session { phase: Phase::Closed, ..s }
        } else if self.phase == Phase::Connecting || self.phase == Phase::Relaying {
            Session { phase: Phase::Closing, ..s }
        } else {
            s
        }
    }

    /// A session for a local client just accepted.
    pub fn new() -> (s: Session)
        ensures
            s == Session::initial(),
            s.wf(),
    {
        Session {
            phase: Phase::Connecting,
            forward: None,
            backward: None,
            local_open: true,
            remote_open: false,
        }
    }

    /// Reports that the remote connection is open: relaying starts.
    pub fn on_connected(&mut self)
        requires
            old(self).wf(),
            old(self).phase == Phase::Connecting,
        ensures
            final(self).wf(),
            *final(self) == old(self).after_connected(),
    {
        self.phase = Phase::Relaying;
        self.remote_open = true;
    }

    /// Reports that the remote connection could not be opened: the session
    /// ends without relaying, and only the local stream is left to close.
    pub fn on_connect_failed(&mut self)
        requires
            old(self).wf(),
            old(self).phase == Phase::Connecting,
        ensures
            final(self).wf(),
            *final(self) == old(self).after_connect_failed(),
            final(self).phase == Phase::Closing,
            final(self).is_open(Side::Local),
            !final(self).is_open(Side::Remote),
    {
        self.phase = Phase::Closing;
    }

    /// Reports that direction `d` ended as `e`, and says what to do.
    pub fn on_ended(&mut self, d: Direction, e: Ending) -> (c: Command)
        requires
            old(self).wf(),
            old(self).phase != Phase::Connecting,
            old(self).ended(d) is None,
        ensures
            final(self).wf(),
            (*final(self), c) == old(self).after_ended(d, e),
    {
        match d {
            Direction::Forward => {
                self.forward = Some(e);
            },
            Direction::Backward => {
                self.backward = Some(e);
            },
        }
        if self.phase != Phase::Relaying {
            Command::Nothing
        } else if e == Ending::Failed || (self.forward.is_some() && self.backward.is_some()) {
            self.phase = Phase::Closing;
            Command::CloseBoth
        } else {
            Command::ShutdownWrite(d.sink())
        }
    }

    /// Marks stream `side` closed. Returns whether it was open, that is
    /// whether the caller must close it now; closing it again does nothing.
    pub fn close(&mut self, side: Side) -> (r: bool)
        requires
            old(self).wf(),
        ensures
            final(self).wf(),
            r == old(self).is_open(side),
            *final(self) == old(self).after_close(side),
    {
        let was_open = match side {
            Side::Local => self.local_open,
            Side::Remote => self.remote_open,
        };
        match side {
            Side::Local => {
                self.local_open = false;
            },
            Side::Remote => {
                self.remote_open = false;
            },
        }
        if !self.local_open && !self.remote_open {
            self.phase = Phase::Closed;
        } else if self.phase == Phase::Connecting || self.phase == Phase::Relaying {
            self.phase = Phase::Closing;
        }
        was_open
    }

    /// Whether every stream of the session is closed.
    pub fn is_closed(&self) -> (r: bool)
        requires
            self.wf(),
        ensures
            r == (self.phase == Phase::Closed),
            r == (!self.is_open(Side::Local) && !self.is_open(Side::Remote)),
    {
        self.phase == Phase::Closed
    }
}

/// Closing a stream a second time changes nothing, and the second close
/// reports that there is nothing left to close.
pub proof fn lemma_close_idempotent(s: Session, side: Side)
    requires
        s.wf(),
    ensures
        s.after_close(side).wf(),
        !s.after_close(side).is_open(side),
        s.after_close(side).after_close(side) == s.after_close(side),
{
}

/// End-of-stream from the local client does not cut the session short: the
/// remote server is told of it by a shutdown of its write side while the
/// backward direction goes on; once that direction ends too, however it
/// ends, both streams are closed, each exactly once, and the session is
/// closed.
pub proof fn lemma_eof_propagation(s: Session, e: Ending)
    requires
        s.wf(),
        s.phase == Phase::Relaying,
        s.forward is None,
        s.backward is None,
    ensures
        s.after_ended(Direction::Forward, Ending::Eof).1 == Command::ShutdownWrite(Side::Remote),
        s.after_ended(Direction::Forward, Ending::Eof).0.phase == Phase::Relaying,
        ({
            let s1 = s.after_ended(Direction::Forward, Ending::Eof).0;
            let (s2, c) = s1.after_ended(Direction::Backward, e);
            &&& c == Command::CloseBoth
            &&& s2.is_open(Side::Local) && s2.is_open(Side::Remote)
            &&& s2.after_close(Side::Local).phase == Phase::Closing
            &&& s2.after_close(Side::Local).after_close(Side::Remote).phase == Phase::Closed
        }),
{
}

/// A session whose remote connection fails closes its local stream and
/// nothing else, and is then closed.
pub proof fn lemma_connect_failure(s: Session)
    requires
        s == Session::initial(),
    ensures
        s.after_connect_failed().is_open(Side::Local),
        !s.after_connect_failed().is_open(Side::Remote),
        s.after_connect_failed().after_close(Side::Local).phase == Phase::Closed,
{
}

/// From any well-formed state, closing both streams closes the session.
pub proof fn lemma_close_both(s: Session)
    requires
        s.wf(),
    ensures
        s.after_close(Side::Local).wf(),
        s.after_close(Side::Local).after_close(Side::Remote).phase == Phase::Closed,
{
}

} // verus!
