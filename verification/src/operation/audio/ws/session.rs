//! The session driver: one connection, one handler, one task.
//!
//! The driver is a state machine. What happens on the socket and in the
//! handler's hooks reaches it as a [`SessionInput`]; it answers with the
//! [`SessionAction`]s to perform, in order, before the next input is read.
//! Whoever owns the socket runs the loop; every decision is taken here.

use crate::error::{DashScopeError, DashScopeErrorView};
use crate::operation::audio::ws::output::{decode_text, WebSocketEvent, WebSocketEventView};
use vstd::prelude::*;

verus! {

/// Where a session stands.
#[derive(Debug, Clone, Copy, PartialEq, Eq, Structural)]
pub enum SessionState {
    /// The transport is established; the open hook is running.
    Opening,
    /// The receive loop is running.
    Active,
    /// A close frame or the end of the stream was seen; the loop is about to exit.
    Draining,
    /// The session ended in order.
    Closed,
    /// The transport failed.
    Failed,
}

/// The keep-alive of a session.
#[derive(Debug, Clone, Copy, PartialEq, Eq, Structural)]
pub enum Heartbeat {
    /// The handler asked for none, or was not asked yet.
    Off,
    /// A ping is due on every tick of the given period.
    Running { interval_ms: u64 },
    /// It ran and has ended: it was cancelled, or a ping could not be sent.
    Stopped,
}

impl Heartbeat {
    /// This keep-alive once the session lets go of it.
    pub open spec fn released(self) -> Heartbeat {
        match self {
            Heartbeat::Running { .. } => Heartbeat::Stopped,
            other => other,
        }
    }

    /// What is to be done to let go of this keep-alive: cancel it if it runs.
    pub open spec fn release(self) -> Seq<SessionActionView> {
        match self {
            Heartbeat::Running { .. } => seq![SessionActionView::StopHeartbeat],
            _ => Seq::empty(),
        }
    }
}

/// One message unit on the transport.
#[derive(Debug, Clone, PartialEq, Eq)]
pub enum Frame {
    Text(String),
    Binary(Vec<u8>),
    Ping(Vec<u8>),
    Pong(Vec<u8>),
    Close { code: u16, reason: String },
}

/// The content of a [`Frame`].
pub enum FrameView {
    Text(Seq<char>),
    Binary(Seq<u8>),
    Ping(Seq<u8>),
    Pong(Seq<u8>),
    Close { code: u16, reason: Seq<char> },
}

impl View for Frame {
    type V = FrameView;

    open spec fn view(&self) -> FrameView {
        match self {
            Frame::Text(t) => FrameView::Text(t@),
            Frame::Binary(b) => FrameView::Binary(b@),
            Frame::Ping(b) => FrameView::Ping(b@),
            Frame::Pong(b) => FrameView::Pong(b@),
            Frame::Close { code, reason } => FrameView::Close { code: *code, reason: reason@ },
        }
    }
}

/// What the driver is told.
#[derive(Debug, Clone, PartialEq, Eq)]
pub enum SessionInput {
    /// The open hook has returned. The period is what the handler's
    /// `heartbeat_interval` gives, in milliseconds.
    Opened { heartbeat_interval_ms: Option<u64> },
    /// A frame has arrived.
    Frame(Frame),
    /// The stream has ended without a close frame.
    EndOfStream,
    /// Reading from the transport has failed; the text says how.
    TransportError(String),
    /// The keep-alive timer has fired.
    Tick,
    /// A keep-alive ping could not be sent.
    PingFailed,
    /// The receive loop has been left.
    LoopExited,
}

/// The content of a [`SessionInput`].
pub enum SessionInputView {
    Opened { heartbeat_interval_ms: Option<u64> },
    Frame(FrameView),
    EndOfStream,
    TransportError(Seq<char>),
    Tick,
    PingFailed,
    LoopExited,
}

impl View for SessionInput {
    type V = SessionInputView;

    open spec fn view(&self) -> SessionInputView {
        match self {
            SessionInput::Opened { heartbeat_interval_ms } => SessionInputView::Opened {
                heartbeat_interval_ms: *heartbeat_interval_ms,
            },
            SessionInput::Frame(f) => SessionInputView::Frame(f@),
            SessionInput::EndOfStream => SessionInputView::EndOfStream,
            SessionInput::TransportError(m) => SessionInputView::TransportError(m@),
            SessionInput::Tick => SessionInputView::Tick,
            SessionInput::PingFailed => SessionInputView::PingFailed,
            SessionInput::LoopExited => SessionInputView::LoopExited,
        }
    }
}

/// What the driver asks for.
#[derive(Debug, Clone, PartialEq)]
pub enum SessionAction {
    /// Call the handler's `on_open` with the send half.
    OnOpen,
    /// Start the keep-alive with the given period.
    StartHeartbeat { interval_ms: u64 },
    /// Call `on_event` with the send half and this event.
    OnEvent(WebSocketEvent),
    /// Call `on_error` with this error.
    OnError(DashScopeError),
    /// Call `on_data` with the send half and these bytes.
    OnData(Vec<u8>),
    /// Send a pong frame with these bytes.
    SendPong(Vec<u8>),
    /// Call `on_pong` with these bytes.
    OnPong(Vec<u8>),
    /// Send a ping frame without payload.
    SendPing,
    /// Cancel the keep-alive.
    StopHeartbeat,
    /// Call `on_close` with this code and reason.
    OnClose { code: u16, reason: String },
}

/// The content of a [`SessionAction`].
pub enum SessionActionView {
    OnOpen,
    StartHeartbeat { interval_ms: u64 },
    OnEvent(WebSocketEventView),
    OnError(DashScopeErrorView),
    OnData(Seq<u8>),
    SendPong(Seq<u8>),
    OnPong(Seq<u8>),
    SendPing,
    StopHeartbeat,
    OnClose { code: u16, reason: Seq<char> },
}

impl View for SessionAction {
    type V = SessionActionView;

    open spec fn view(&self) -> SessionActionView {
        match self {
            SessionAction::OnOpen => SessionActionView::OnOpen,
            SessionAction::StartHeartbeat { interval_ms } => SessionActionView::StartHeartbeat {
                interval_ms: *interval_ms,
            },
            SessionAction::OnEvent(e) => SessionActionView::OnEvent(e@),
            SessionAction::OnError(e) => SessionActionView::OnError(e@),
            SessionAction::OnData(b) => SessionActionView::OnData(b@),
            SessionAction::SendPong(b) => SessionActionView::SendPong(b@),
            SessionAction::OnPong(b) => SessionActionView::OnPong(b@),
            SessionAction::SendPing => SessionActionView::SendPing,
            SessionAction::StopHeartbeat => SessionActionView::StopHeartbeat,
            SessionAction::OnClose { code, reason } => SessionActionView::OnClose {
                code: *code,
                reason: reason@,
            },
        }
    }
}

/// The contents of a run of actions.
pub open spec fn actions_view(actions: Seq<SessionAction>) -> Seq<SessionActionView> {
    Seq::new(actions.len(), |i: int| actions[i]@)
}

/// The contents of a run of inputs.
pub open spec fn inputs_view(inputs: Seq<SessionInput>) -> Seq<SessionInputView> {
    Seq::new(inputs.len(), |i: int| inputs[i]@)
}

/// The content of a [`Session`].
pub struct SessionView {
    pub state: SessionState,
    pub heartbeat: Heartbeat,
    /// The transport error that ended the session, once it has failed.
    pub failure: Option<DashScopeErrorView>,
}

/// The error for a transport that has failed.
pub open spec fn transport_failure(message: Seq<char>) -> DashScopeErrorView {
    DashScopeErrorView::WebSocketError(message)
}

/// The hook that a text frame leads to: `on_event` with the event that the
/// frame decodes to, or `on_error` with the reason why it decodes to none.
pub open spec fn text_hook(text: Seq<char>) -> SessionActionView {
    match decode_text(text) {
        Ok(event) => SessionActionView::OnEvent(event),
        Err(error) => SessionActionView::OnError(error),
    }
}

impl SessionView {
    /// A session whose open hook is running.
    pub open spec fn initial() -> SessionView {
        SessionView { state: SessionState::Opening, heartbeat: Heartbeat::Off, failure: None }
    }

    /// The keep-alive runs only while the receive loop does, with a period
    /// that is not zero, and a failure is recorded exactly in `Failed`.
    pub open spec fn wf(self) -> bool {
        &&& self.heartbeat matches Heartbeat::Running { interval_ms } ==> self.state
            == SessionState::Active && interval_ms > 0
        &&& self.failure is Some <==> self.state == SessionState::Failed
    }

    /// Whether the session has ended.
    pub open spec fn ended(self) -> bool {
        self.state == SessionState::Closed || self.state == SessionState::Failed
    }

    /// The session after the transport failed with `message`: it lets go of
    /// the keep-alive, reports the error to the handler, and has failed.
    pub open spec fn fail(self, message: Seq<char>) -> (SessionView, Seq<SessionActionView>) {
        (
            SessionView {
                state: SessionState::Failed,
                heartbeat: self.heartbeat.released(),
                failure: Some(transport_failure(message)),
            },
            self.heartbeat.release().push(SessionActionView::OnError(transport_failure(message))),
        )
    }

    /// The session once the receive loop is to be left: it lets go of the
    /// keep-alive first and then performs `last`.
    pub open spec fn drain(self, last: Seq<SessionActionView>) -> (
        SessionView,
        Seq<SessionActionView>,
    ) {
        (
            SessionView {
                state: SessionState::Draining,
                heartbeat: self.heartbeat.released(),
                failure: self.failure,
            },
            self.heartbeat.release() + last,
        )
    }

    /// One step of the driver: the session after `input`, and what is to be
    /// done before the next input.
    ///
    /// - A session that has ended ignores everything.
    /// - A transport error ends any other session in `Failed`.
    /// - `Opening`: when the open hook has returned the session is `Active`,
    ///   and the keep-alive starts if the handler gave a period that is not zero.
    /// - `Active`: a text frame leads to exactly one hook, `on_event` or
    ///   `on_error`, and the loop goes on; a binary frame goes to `on_data`;
    ///   a ping is answered by a pong with the same bytes; a pong goes to
    ///   `on_pong`; a close frame cancels the keep-alive, goes to `on_close`
    ///   and leads to `Draining`, as does the end of the stream; a tick sends
    ///   one ping while the keep-alive runs; a ping that could not be sent
    ///   ends the keep-alive without a word.
    /// - `Draining`: when the loop has been left the session is `Closed`.
    pub open spec fn step(self, input: SessionInputView) -> (SessionView, Seq<SessionActionView>) {
        if self.ended() {
            (self, Seq::empty())
        } else {
            match (self.state, input) {
                (_, SessionInputView::TransportError(message)) => self.fail(message),
                (SessionState::Opening, SessionInputView::Opened { heartbeat_interval_ms }) => {
                    match heartbeat_interval_ms {
                        Some(interval_ms) if interval_ms > 0 => (
                            SessionView {
                                state: SessionState::Active,
                                heartbeat: Heartbeat::Running { interval_ms },
                                failure: self.failure,
                            },
                            seq![SessionActionView::StartHeartbeat { interval_ms }],
                        ),
                        _ => (
                            SessionView {
                                state: SessionState::Active,
                                heartbeat: Heartbeat::Off,
                                failure: self.failure,
                            },
                            Seq::empty(),
                        ),
                    }
                },
                (SessionState::Active, SessionInputView::Frame(frame)) => match frame {
                    FrameView::Text(text) => (self, seq![text_hook(text)]),
                    FrameView::Binary(bytes) => (self, seq![SessionActionView::OnData(bytes)]),
                    FrameView::Ping(bytes) => (self, seq![SessionActionView::SendPong(bytes)]),
                    FrameView::Pong(bytes) => (self, seq![SessionActionView::OnPong(bytes)]),
                    FrameView::Close { code, reason } => self.drain(
                        seq![SessionActionView::OnClose { code, reason }],
                    ),
                },
                (SessionState::Active, SessionInputView::EndOfStream) => self.drain(Seq::empty()),
                (SessionState::Active, SessionInputView::Tick) => (
                    self,
                    match self.heartbeat {
                        Heartbeat::Running { .. } => seq![SessionActionView::SendPing],
                        _ => Seq::empty(),
                    },
                ),
                (SessionState::Active, SessionInputView::PingFailed) => (
                    SessionView {
                        state: self.state,
                        heartbeat: self.heartbeat.released(),
                        failure: self.failure,
                    },
                    Seq::empty(),
                ),
                (SessionState::Draining, SessionInputView::LoopExited) => (
                    SessionView {
                        state: SessionState::Closed,
                        heartbeat: self.heartbeat,
                        failure: self.failure,
                    },
                    Seq::empty(),
                ),
                _ => (self, Seq::empty()),
            }
        }
    }

    /// The session after a run of inputs, and everything that was to be done
    /// on the way, in order.
    pub open spec fn run(self, inputs: Seq<SessionInputView>) -> (
        SessionView,
        Seq<SessionActionView>,
    )
        decreases inputs.len(),
    {
        if inputs.len() == 0 {
            (self, Seq::empty())
        } else {
            let (before, done) = self.run(inputs.drop_last());
            let (after, more) = before.step(inputs.last());
            (after, done + more)
        }
    }
}

/// A whole session from the moment the transport is established: the open
/// hook first, then what the inputs lead to.
pub open spec fn session_trace(inputs: Seq<SessionInputView>) -> (
    SessionView,
    Seq<SessionActionView>,
) {
    let (end, done) = SessionView::initial().run(inputs);
    (end, seq![SessionActionView::OnOpen] + done)
}

/// The state of one session.
#[derive(Debug, Clone, PartialEq)]
pub struct Session {
    state: SessionState,
    heartbeat: Heartbeat,
    failure: Option<DashScopeError>,
}

impl View for Session {
    type V = SessionView;

    closed spec fn view(&self) -> SessionView {
        SessionView {
            state: self.state,
            heartbeat: self.heartbeat,
            failure: match self.failure {
                Some(e) => Some(e@),
                None => None,
            },
        }
    }
}

impl Session {
    /// Begins a session on an established transport. The one thing to do
    /// first is to call the open hook.
    pub fn open() -> (r: (Session, Vec<SessionAction>))
        ensures
            r.0@ == SessionView::initial(),
            r.0@.wf(),
            actions_view(r.1@) == seq![SessionActionView::OnOpen],
    {
        let session = Session {
            state: SessionState::Opening,
            heartbeat: Heartbeat::Off,
            failure: None,
        };
        let mut actions: Vec<SessionAction> = Vec::new();
        actions.push(SessionAction::OnOpen);
        proof {
            assert(actions_view(actions@) =~= seq![SessionActionView::OnOpen]);
        }
        (session, actions)
    }

    /// Where the session stands.
    pub fn state(&self) -> (r: SessionState)
        ensures
            r == self@.state,
    {
        self.state
    }

    /// The keep-alive of the session.
    pub fn heartbeat(&self) -> (r: Heartbeat)
        ensures
            r == self@.heartbeat,
    {
        self.heartbeat
    }

    /// Whether the session has ended.
    pub fn is_ended(&self) -> (r: bool)
        ensures
            r == self@.ended(),
    {
        matches!(self.state, SessionState::Closed | SessionState::Failed)
    }

    /// What the call that ran the session returns: nothing yet while the
    /// session goes on, `Ok` from `Closed`, and from `Failed` the transport
    /// error.
    pub fn outcome(self) -> (r: Option<Result<(), DashScopeError>>)
        requires
            self@.wf(),
        ensures
            match r {
                None => !self@.ended(),
                Some(Ok(_)) => self@.state == SessionState::Closed,
                Some(Err(e)) => self@.state == SessionState::Failed && self@.failure == Some(e@),
            },
    {
        match self.state {
            SessionState::Closed => Some(Ok(())),
            SessionState::Failed => match self.failure {
                Some(e) => Some(Err(e)),
                None => None,
            },
            _ => None,
        }
    }

    /// Lets go of the keep-alive: it is cancelled if it runs.
    fn release(&mut self, actions: &mut Vec<SessionAction>)
        ensures
            final(self).state == old(self).state,
            final(self).failure == old(self).failure,
            final(self).heartbeat == old(self).heartbeat.released(),
            actions_view(final(actions)@) == actions_view(old(actions)@) + old(
                self,
            ).heartbeat.release(),
    {
        match self.heartbeat {
            Heartbeat::Running { .. } => {
                self.heartbeat = Heartbeat::Stopped;
                actions.push(SessionAction::StopHeartbeat);
            },
            _ => {},
        }
        proof {
            assert(actions_view(actions@) =~= actions_view(old(actions)@) + old(
                self,
            ).heartbeat.release());
        }
    }

    /// One step of the driver: takes an input, moves the session on, and
    /// says what is to be done, in order, before the next input is read.
    pub fn step(&mut self, input: SessionInput) -> (actions: Vec<SessionAction>)
        ensures
            (final(self)@, actions_view(actions@)) == old(self)@.step(input@),
            old(self)@.wf() ==> final(self)@.wf(),
    {
        let mut actions: Vec<SessionAction> = Vec::new();
        proof {
            assert(actions_view(actions@) =~= Seq::empty());
        }
        if self.is_ended() {
            return actions;
        }
        match (self.state, input) {
            (_, SessionInput::TransportError(message)) => {
                self.release(&mut actions);
                let reported = DashScopeError::WebSocketError(message.clone());
                self.failure = Some(DashScopeError::WebSocketError(message));
                self.state = SessionState::Failed;
                actions.push(SessionAction::OnError(reported));
                proof {
                    assert(actions_view(actions@) =~= old(self)@.step(input@).1);
                }
            },
            (SessionState::Opening, SessionInput::Opened { heartbeat_interval_ms }) => {
                self.state = SessionState::Active;
                match heartbeat_interval_ms {
                    Some(interval_ms) => {
                        if interval_ms > 0 {
                            self.heartbeat = Heartbeat::Running { interval_ms };
                            actions.push(SessionAction::StartHeartbeat { interval_ms });
                        } else {
                            self.heartbeat = Heartbeat::Off;
                        }
                    },
                    None => {
                        self.heartbeat = Heartbeat::Off;
                    },
                }
                proof {
                    assert(actions_view(actions@) =~= old(self)@.step(input@).1);
                }
            },
            (SessionState::Active, SessionInput::Frame(frame)) => match frame {
                Frame::Text(text) => {
                    match WebSocketEvent::decode(text.as_str()) {
                        Ok(event) => actions.push(SessionAction::OnEvent(event)),
                        Err(error) => actions.push(SessionAction::OnError(error)),
                    }
                    proof {
                        assert(actions_view(actions@) =~= seq![text_hook(text@)]);
                    }
                },
                Frame::Binary(bytes) => {
                    actions.push(SessionAction::OnData(bytes));
                    proof {
                        assert(actions_view(actions@) =~= old(self)@.step(input@).1);
                    }
                },
                Frame::Ping(bytes) => {
                    actions.push(SessionAction::SendPong(bytes));
                    proof {
                        assert(actions_view(actions@) =~= old(self)@.step(input@).1);
                    }
                },
                Frame::Pong(bytes) => {
                    actions.push(SessionAction::OnPong(bytes));
                    proof {
                        assert(actions_view(actions@) =~= old(self)@.step(input@).1);
                    }
                },
                Frame::Close { code, reason } => {
                    self.release(&mut actions);
                    self.state = SessionState::Draining;
                    actions.push(SessionAction::OnClose { code, reason });
                    proof {
                        assert(actions_view(actions@) =~= old(self)@.step(input@).1);
                    }
                },
            },
            (SessionState::Active, SessionInput::EndOfStream) => {
                self.release(&mut actions);
                self.state = SessionState::Draining;
                proof {
                    assert(actions_view(actions@) =~= old(self)@.step(input@).1);
                }
            },
            (SessionState::Active, SessionInput::Tick) => {
                match self.heartbeat {
                    Heartbeat::Running { .. } => actions.push(SessionAction::SendPing),
                    _ => {},
                }
                proof {
                    assert(actions_view(actions@) =~= old(self)@.step(input@).1);
                }
            },
            (SessionState::Active, SessionInput::PingFailed) => {
                match self.heartbeat {
                    Heartbeat::Running { .. } => {
                        self.heartbeat = Heartbeat::Stopped;
                    },
                    _ => {},
                }
            },
            (SessionState::Draining, SessionInput::LoopExited) => {
                self.state = SessionState::Closed;
            },
            _ => {},
        }
        actions
    }

    /// Runs a whole session on inputs that are known beforehand: begins it,
    /// feeds it the inputs one by one, and collects what was to be done.
    pub fn run(inputs: Vec<SessionInput>) -> (r: (Session, Vec<SessionAction>))
        ensures
            (r.0@, actions_view(r.1@)) == session_trace(inputs_view(inputs@)),
            r.0@.wf(),
    {
        let (mut session, mut done) = Session::open();
        let ghost all = inputs_view(inputs@);
        let mut rest = inputs;
        let mut i: usize = 0;
        let n = rest.len();
        proof {
            assert(all.take(0) =~= Seq::empty());
            assert(actions_view(done@) =~= seq![SessionActionView::OnOpen] + Seq::empty());
        }
        while i < n
            invariant
                i <= n,
                n == all.len(),
                rest@.len() == n - i,
                inputs_view(rest@) == all.skip(i as int),
                session@.wf(),
                (session@, actions_view(done@)) == ({
                    let (end, acts) = SessionView::initial().run(all.take(i as int));
                    (end, seq![SessionActionView::OnOpen] + acts)
                }),
            decreases n - i,
        {
            let ghost queue = rest@;
            let input = rest.remove(0);
            proof {
                assert(inputs_view(queue)[0] == queue[0]@);
                assert(all.skip(i as int)[0] == all[i as int]);
                assert(input@ == all[i as int]);
                assert forall|k: int| 0 <= k < rest@.len() implies inputs_view(rest@)[k]
                    == all.skip(i as int + 1)[k] by {
                    assert(rest@[k] == queue[k + 1]);
                    assert(inputs_view(queue)[k + 1] == queue[k + 1]@);
                    assert(all.skip(i as int)[k + 1] == all[i as int + k + 1]);
                }
                assert(inputs_view(rest@) =~= all.skip(i as int + 1));
                assert(all.take(i as int + 1).drop_last() =~= all.take(i as int));
                assert(all.take(i as int + 1).last() == all[i as int]);
            }
            let ghost before = actions_view(done@);
            let mut more = session.step(input);
            let ghost added = actions_view(more@);
            done.append(&mut more);
            proof {
                assert(actions_view(done@) =~= before + added);
                let (end, acts) = SessionView::initial().run(all.take(i as int));
                assert(seq![SessionActionView::OnOpen] + (acts + added) =~= (
                seq![SessionActionView::OnOpen] + acts) + added);
            }
            i += 1;
        }
        proof {
            assert(all.take(n as int) =~= all);
        }
        (session, done)
    }
}

} // verus!
