//! The encode/decode session state machine: a stateful wrapper around one
//! opened backend. Each feed forwards one input unit and passes the
//! backend's output sequence through unmodified and in order; draining
//! flushes once and closes; the backend handle is released exactly once on
//! every path, including failure paths.

use vstd::prelude::*;
use crate::adapter::{same_descr, BackendAdapter};
use crate::common::{AdapterError, CodecError, MediaUnit, OpenRequest};

verus! {

/// Where a session stands in its lifecycle.
#[derive(Clone, Copy, Debug, PartialEq, Eq, Structural)]
pub enum SessionState {
    /// Feeds are accepted and forwarded to the backend.
    Running,
    /// The session was drained or closed by its owner; the backend is
    /// released; every further call fails with `SessionClosed`.
    Closed,
    /// The backend reported an unrecoverable fault; the backend is released;
    /// every further call fails with `SessionTerminated`.
    Terminated,
}

/// A stateful handle bound to exactly one backend and one request. Feed and
/// drain calls must be serialized by the caller; the backend handle is
/// exclusively owned by the session for its lifetime.
pub struct Session<B: BackendAdapter> {
    pub backend: B,
    pub state: SessionState,
    pub fed: u64,
}

impl<B: BackendAdapter> Session<B> {
    /// A session never leaves the backend open once it stops running.
    pub open spec fn wf(&self) -> bool {
        &&& (self.state is Running ==> self.backend.spec_open() && !self.backend.spec_closed())
        &&& (!(self.state is Running) ==> self.backend.spec_closed())
    }

    /// Opens a session against one backend: the only constructor. Fails
    /// with `BackendUnavailable` when the backend rejects the request, in
    /// which case the backend is released before being dropped.
    pub fn open(backend: B, req: &OpenRequest) -> (r: Result<Session<B>, CodecError>)
        requires
            !backend.spec_closed(),
        ensures
            r matches Ok(s) ==> {
                &&& s.wf()
                &&& s.state is Running
                &&& s.fed == 0
                &&& same_descr(backend, s.backend)
                &&& s.backend.spec_close_calls() == backend.spec_close_calls()
            },
            r matches Err(e) ==> e == CodecError::BackendUnavailable,
    {
        let mut b = backend;
        match b.try_open(req) {
            Ok(()) => Ok(Session { backend: b, state: SessionState::Running, fed: 0 }),
            Err(_) => {
                b.close();
                Err(CodecError::BackendUnavailable)
            },
        }
    }

    /// Forwards one input unit. In `Running` state the backend's outputs
    /// are returned unmodified and in order and the input counter advances;
    /// a transient backend failure is surfaced for this unit only and the
    /// session stays `Running`; an unrecoverable backend fault releases the
    /// backend and moves the session to `Terminated`. On a session no longer
    /// running, nothing changes and the error names the state.
    pub fn feed(&mut self, input: &MediaUnit) -> (r: Result<Vec<MediaUnit>, CodecError>)
        requires
            old(self).wf(),
            old(self).fed < u64::MAX,
        ensures
            final(self).wf(),
            same_descr(old(self).backend, final(self).backend),
            old(self).state is Closed ==> {
                &&& r matches Err(e)
                &&& e == CodecError::SessionClosed
                &&& *final(self) == *old(self)
            },
            old(self).state is Terminated ==> {
                &&& r matches Err(e)
                &&& e == CodecError::SessionTerminated
                &&& *final(self) == *old(self)
            },
            old(self).state is Running ==> {
                &&& final(self).fed == old(self).fed + 1
                &&& (r is Ok ==> final(self).state is Running
                    && final(self).backend.spec_close_calls()
                    == old(self).backend.spec_close_calls())
                &&& (r matches Err(e) ==> {
                    ||| (e == CodecError::TransientFeedFailure && final(self).state is Running
                        && final(self).backend.spec_close_calls()
                        == old(self).backend.spec_close_calls())
                    ||| (e == CodecError::SessionTerminated && final(self).state is Terminated
                        && final(self).backend.spec_close_calls()
                        == old(self).backend.spec_close_calls() + 1)
                })
            },
    {
        match self.state {
            SessionState::Closed => Err(CodecError::SessionClosed),
            SessionState::Terminated => Err(CodecError::SessionTerminated),
            SessionState::Running => {
                self.fed = self.fed + 1;
                match self.backend.feed(input) {
                    Ok(outs) => Ok(outs),
                    Err(AdapterError::Transient) => Err(CodecError::TransientFeedFailure),
                    Err(_) => {
                        self.backend.close();
                        self.state = SessionState::Terminated;
                        Err(CodecError::SessionTerminated)
                    },
                }
            },
        }
    }

    /// Signals end of stream: flushes the backend once, returns whatever it
    /// had buffered, and closes it — the session ends `Closed` and the
    /// backend is released exactly once, whatever flush reported. On a
    /// session no longer running, nothing changes and the error names the
    /// state.
    pub fn drain(&mut self) -> (r: Result<Vec<MediaUnit>, CodecError>)
        requires
            old(self).wf(),
        ensures
            final(self).wf(),
            same_descr(old(self).backend, final(self).backend),
            old(self).state is Closed ==> {
                &&& r matches Err(e)
                &&& e == CodecError::SessionClosed
                &&& *final(self) == *old(self)
            },
            old(self).state is Terminated ==> {
                &&& r matches Err(e)
                &&& e == CodecError::SessionTerminated
                &&& *final(self) == *old(self)
            },
            old(self).state is Running ==> {
                &&& final(self).state is Closed
                &&& final(self).fed == old(self).fed
                &&& final(self).backend.spec_closed()
                &&& final(self).backend.spec_close_calls()
                    == old(self).backend.spec_close_calls() + 1
                &&& (r matches Err(e) ==> e == CodecError::TransientFeedFailure)
            },
    {
        match self.state {
            SessionState::Closed => Err(CodecError::SessionClosed),
            SessionState::Terminated => Err(CodecError::SessionTerminated),
            SessionState::Running => {
                let res = self.backend.flush();
                self.backend.close();
                self.state = SessionState::Closed;
                match res {
                    Ok(outs) => Ok(outs),
                    Err(_) => Err(CodecError::TransientFeedFailure),
                }
            },
        }
    }

    /// Closes the session without draining, discarding any
    /// buffered-but-undrained backend output. Idempotent at the session
    /// level: the backend itself is released exactly once over the
    /// session's lifetime.
    pub fn close(&mut self)
        requires
            old(self).wf(),
        ensures
            final(self).wf(),
            same_descr(old(self).backend, final(self).backend),
            final(self).fed == old(self).fed,
            old(self).state is Running ==> final(self).state is Closed
                && final(self).backend.spec_close_calls()
                == old(self).backend.spec_close_calls() + 1,
            !(old(self).state is Running) ==> *final(self) == *old(self),
    {
        match self.state {
            SessionState::Running => {
                self.backend.close();
                self.state = SessionState::Closed;
            },
            _ => {},
        }
    }

    /// The session's current lifecycle state.
    pub fn state(&self) -> (r: SessionState)
        ensures
            r == self.state,
    {
        self.state
    }

    /// How many input units have been accepted for forwarding.
    pub fn frames_fed(&self) -> (r: u64)
        ensures
            r == self.fed,
    {
        self.fed
    }
}

} // verus!
