//! The notification session: a pull-based sequence of events over one WebSocket connection.
use vstd::prelude::*;
use crate::error::ClientError;

verus! {

/// Lifecycle of a session.
#[derive(Clone, Copy, Debug, PartialEq, Eq, Structural)]
pub enum SessionState {
    Connecting,
    Open,
    Closed,
    Failed,
}

/// What the connection delivered.
pub enum Frame {
    Text(String),
    Binary(Vec<u8>),
    Ping(Vec<u8>),
    Pong(Vec<u8>),
    /// The peer's close frame.
    Close,
    /// The connection ended without a close frame.
    Ended,
    /// Reading failed.
    Error(String),
}

/// What one frame means for the caller of `next`.
#[derive(Debug)]
pub enum FrameOutcome {
    /// An event: the text frame's JSON.
    Event(String),
    /// A control or binary frame: read the next one.
    Skip,
    /// No more events.
    Finished,
    /// The connection failed.
    Failed(ClientError),
}

/// The state after a frame.
pub open spec fn next_state(st: SessionState, f: Frame) -> SessionState {
    if st != SessionState::Open {
        st
    } else {
        match f {
            Frame::Close => SessionState::Closed,
            Frame::Ended => SessionState::Closed,
            Frame::Error(_) => SessionState::Failed,
            _ => SessionState::Open,
        }
    }
}

/// The event a frame yields, if any.
pub open spec fn frame_event(st: SessionState, f: Frame) -> Option<Seq<char>> {
    if st != SessionState::Open {
        None
    } else {
        match f {
            Frame::Text(s) => Some(s@),
            _ => None,
        }
    }
}

/// The state after a sequence of frames.
pub open spec fn state_after(st: SessionState, frames: Seq<Frame>) -> SessionState
    decreases frames.len(),
{
    if frames.len() == 0 {
        st
    } else {
        state_after(next_state(st, frames[0]), frames.drop_first())
    }
}

/// The events a sequence of frames yields, in order.
pub open spec fn events(st: SessionState, frames: Seq<Frame>) -> Seq<Seq<char>>
    decreases frames.len(),
{
    if frames.len() == 0 {
        Seq::empty()
    } else {
        let rest = events(next_state(st, frames[0]), frames.drop_first());
        match frame_event(st, frames[0]) {
            Some(e) => seq![e] + rest,
            None => rest,
        }
    }
}

/// A frame that ends an open session.
pub open spec fn ends_session(f: Frame) -> bool {
    f is Close || f is Ended || f is Error
}

/// One notification session.
pub struct NotificationSession {
    state: SessionState,
}

impl NotificationSession {
    /// A session whose handshake has not completed.
    pub fn new() -> (r: NotificationSession)
        ensures
            r.state() == SessionState::Connecting,
    {
        NotificationSession { state: SessionState::Connecting }
    }

    /// The lifecycle state.
    pub closed spec fn state(&self) -> SessionState {
        self.state
    }

    /// The lifecycle state.
    pub fn current_state(&self) -> (r: SessionState)
        ensures
            r == self.state(),
    {
        self.state
    }

    /// The handshake succeeded: a connecting session opens.
    pub fn opened(&mut self)
        ensures
            old(self).state() == SessionState::Connecting ==> final(self).state()
                == SessionState::Open,
            old(self).state() != SessionState::Connecting ==> final(self).state() == old(
                self,
            ).state(),
    {
        if self.state == SessionState::Connecting {
            self.state = SessionState::Open;
        }
    }

    /// The handshake failed: a connecting session fails with a transport error.
    pub fn connect_failed(&mut self, reason: String) -> (r: ClientError)
        ensures
            old(self).state() == SessionState::Connecting ==> final(self).state()
                == SessionState::Failed,
            old(self).state() != SessionState::Connecting ==> final(self).state() == old(
                self,
            ).state(),
            r is Transport && r->Transport_0@ == reason@,
    {
        if self.state == SessionState::Connecting {
            self.state = SessionState::Failed;
        }
        ClientError::Transport(reason)
    }

    /// Whether `next` should read a frame; a session that has ended is never read again, so
    /// asking it for events returns at once.
    pub fn wants_frame(&self) -> (r: bool)
        ensures
            r == (self.state() == SessionState::Open),
    {
        self.state == SessionState::Open
    }

    /// Handles one frame: a text frame is an event, control and binary frames are skipped, a
    /// close frame or the end of the connection finishes the session and a read error fails it.
    /// A session that is not open yields no more events.
    pub fn on_frame(&mut self, f: Frame) -> (r: FrameOutcome)
        ensures
            final(self).state() == next_state(old(self).state(), f),
            frame_event(old(self).state(), f) is Some <==> r is Event,
            r is Event ==> r->Event_0@ == frame_event(old(self).state(), f)->Some_0,
            old(self).state() != SessionState::Open ==> r is Finished,
            old(self).state() == SessionState::Open ==> ((f is Close || f is Ended) <==> r is Finished),
            old(self).state() == SessionState::Open ==> (f is Error <==> r is Failed),
            r is Failed ==> r->Failed_0 is Transport && r->Failed_0->Transport_0@ == f->Error_0@,
    {
        if self.state != SessionState::Open {
            return FrameOutcome::Finished;
        }
        match f {
            Frame::Text(s) => FrameOutcome::Event(s),
            Frame::Binary(_) => FrameOutcome::Skip,
            Frame::Ping(_) => FrameOutcome::Skip,
            Frame::Pong(_) => FrameOutcome::Skip,
            Frame::Close => {
                self.state = SessionState::Closed;
                FrameOutcome::Finished
            },
            Frame::Ended => {
                self.state = SessionState::Closed;
                FrameOutcome::Finished
            },
            Frame::Error(m) => {
                self.state = SessionState::Failed;
                FrameOutcome::Failed(ClientError::Transport(m))
            },
        }
    }
}

/// An ended session stays ended: whatever frames follow, it yields no event and keeps its
/// state.
pub proof fn lemma_ended_is_terminal(st: SessionState, frames: Seq<Frame>)
    requires
        st == SessionState::Closed || st == SessionState::Failed,
    ensures
        events(st, frames) == Seq::<Seq<char>>::empty(),
        state_after(st, frames) == st,
    decreases frames.len(),
{
    if frames.len() > 0 {
        lemma_ended_is_terminal(st, frames.drop_first());
    }
}

/// A close frame ends an open session: the events are exactly those of the frames before it,
/// the session is closed afterwards, and nothing after the close frame yields an event.
pub proof fn lemma_close_ends_session(frames: Seq<Frame>, k: int)
    requires
        0 <= k < frames.len(),
        frames[k] is Close,
        forall|i: int| 0 <= i < k ==> !ends_session(#[trigger] frames[i]),
    ensures
        events(SessionState::Open, frames) == events(SessionState::Open, frames.take(k)),
        state_after(SessionState::Open, frames) == SessionState::Closed,
    decreases k,
{
    if k == 0 {
        lemma_ended_is_terminal(SessionState::Closed, frames.drop_first());
        assert(frames.take(0) =~= Seq::<Frame>::empty());
    } else {
        let rest = frames.drop_first();
        assert forall|i: int| 0 <= i < k - 1 implies !ends_session(#[trigger] rest[i]) by {
            assert(rest[i] == frames[i + 1]);
        }
        assert(!ends_session(frames[0]));
        assert(next_state(SessionState::Open, frames[0]) == SessionState::Open);
        lemma_close_ends_session(rest, k - 1);
        assert(frames.take(k).drop_first() =~= rest.take(k - 1));
        assert(frames.take(k)[0] == frames[0]);
    }
}

} // verus!
