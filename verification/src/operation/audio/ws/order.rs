//! What holds of every session: the order of the hooks, the life of the
//! keep-alive, and what a frame that cannot be decoded does and does not do.

use crate::operation::audio::ws::output::decode_text;
use crate::operation::audio::ws::session::{
    session_trace, text_hook, FrameView, Heartbeat, SessionActionView, SessionInputView,
    SessionState, SessionView,
};
use vstd::prelude::*;

verus! {

/// The inputs that a run of text frames arrives as.
pub open spec fn text_frames(texts: Seq<Seq<char>>) -> Seq<SessionInputView> {
    Seq::new(texts.len(), |i: int| SessionInputView::Frame(FrameView::Text(texts[i])))
}

/// The hooks that a run of text frames leads to, one for each.
pub open spec fn text_hooks(texts: Seq<Seq<char>>) -> Seq<SessionActionView> {
    Seq::new(texts.len(), |i: int| text_hook(texts[i]))
}

/// Whether the receive loop of a session has been left for good.
pub open spec fn loop_left(s: SessionView) -> bool {
    s.state == SessionState::Draining || s.ended()
}

/// Running on two runs of inputs, one after the other, is running on both.
pub proof fn lemma_run_append(s: SessionView, a: Seq<SessionInputView>, b: Seq<SessionInputView>)
    ensures
        s.run(a + b) == ({
            let (mid, first) = s.run(a);
            let (end, second) = mid.run(b);
            (end, first + second)
        }),
    decreases b.len(),
{
    let (mid, first) = s.run(a);
    if b.len() == 0 {
        assert(a + b =~= a);
        assert(first + Seq::<SessionActionView>::empty() =~= first);
    } else {
        lemma_run_append(s, a, b.drop_last());
        assert((a + b).drop_last() =~= a + b.drop_last());
        assert((a + b).last() == b.last());
        let (before, done) = mid.run(b.drop_last());
        let (after, more) = before.step(b.last());
        assert(first + (done + more) =~= (first + done) + more);
    }
}

/// Running on one input is one step.
pub proof fn lemma_run_one(s: SessionView, input: SessionInputView)
    ensures
        s.run(seq![input]) == s.step(input),
{
    let inputs = seq![input];
    assert(inputs.drop_last() =~= Seq::empty());
    assert(s.run(inputs.drop_last()) == (s, Seq::<SessionActionView>::empty()));
    assert(Seq::<SessionActionView>::empty() + s.step(input).1 =~= s.step(input).1);
}

/// Every step keeps a session well formed.
pub proof fn lemma_step_keeps_wf(s: SessionView, input: SessionInputView)
    requires
        s.wf(),
    ensures
        s.step(input).0.wf(),
{
}

/// While the receive loop runs, every text frame leads to exactly one hook:
/// `on_event` where the frame decodes to an event, `on_error` where it does
/// not. Either way the session stays as it is, so the frames that follow are
/// processed as if nothing had happened.
pub proof fn lemma_text_frame_one_hook(s: SessionView, text: Seq<char>)
    requires
        s.state == SessionState::Active,
    ensures
        s.step(SessionInputView::Frame(FrameView::Text(text))) == (s, seq![text_hook(text)]),
        decode_text(text) is Ok ==> text_hook(text) == SessionActionView::OnEvent(
            decode_text(text)->Ok_0,
        ),
        decode_text(text) is Err ==> text_hook(text) == SessionActionView::OnError(
            decode_text(text)->Err_0,
        ),
{
}

/// Text frames are dispatched in the order of their arrival, one hook each.
pub proof fn lemma_text_frames_in_order(s: SessionView, texts: Seq<Seq<char>>)
    requires
        s.state == SessionState::Active,
    ensures
        s.run(text_frames(texts)) == (s, text_hooks(texts)),
    decreases texts.len(),
{
    if texts.len() == 0 {
        assert(text_hooks(texts) =~= Seq::empty());
    } else {
        lemma_text_frames_in_order(s, texts.drop_last());
        assert(text_frames(texts).drop_last() =~= text_frames(texts.drop_last()));
        lemma_text_frame_one_hook(s, texts.last());
        assert(text_hooks(texts.drop_last()) + seq![text_hook(texts.last())] =~= text_hooks(texts));
    }
}

/// A frame that cannot be decoded, between two that can, causes exactly one
/// call of `on_error`, and the frame after it is processed all the same:
/// the three frames lead to `on_event`, `on_error`, `on_event`, in this order
/// and nothing else.
pub proof fn lemma_malformed_frame_is_survived(
    s: SessionView,
    first: Seq<char>,
    malformed: Seq<char>,
    second: Seq<char>,
)
    requires
        s.state == SessionState::Active,
        decode_text(first) is Ok,
        decode_text(malformed) is Err,
        decode_text(second) is Ok,
    ensures
        s.run(text_frames(seq![first, malformed, second])) == (
            s,
            seq![
                SessionActionView::OnEvent(decode_text(first)->Ok_0),
                SessionActionView::OnError(decode_text(malformed)->Err_0),
                SessionActionView::OnEvent(decode_text(second)->Ok_0),
            ],
        ),
{
    let texts = seq![first, malformed, second];
    lemma_text_frames_in_order(s, texts);
    assert(text_hooks(texts) =~= seq![
        SessionActionView::OnEvent(decode_text(first)->Ok_0),
        SessionActionView::OnError(decode_text(malformed)->Err_0),
        SessionActionView::OnEvent(decode_text(second)->Ok_0),
    ]);
}

/// The inputs of a session that is opened without a keep-alive, receives a
/// run of text frames and then a close frame, and leaves its loop.
pub open spec fn plain_session(texts: Seq<Seq<char>>, code: u16, reason: Seq<char>) -> Seq<
    SessionInputView,
> {
    seq![SessionInputView::Opened { heartbeat_interval_ms: None }] + text_frames(texts)
        + seq![
        SessionInputView::Frame(FrameView::Close { code, reason }),
        SessionInputView::LoopExited,
    ]
}

/// The order of the hooks. In a session that receives a run of text frames
/// and then a close frame, `on_open` is called once, before everything; then
/// each frame leads to its one hook, in the order of arrival; then `on_close`
/// is called once, after everything; and the session ends `Closed`. For
/// frames that all decode, such as started, result, result, finished, the
/// hooks in between are `on_event`, once for each.
pub proof fn lemma_hooks_in_order(texts: Seq<Seq<char>>, code: u16, reason: Seq<char>)
    ensures
        session_trace(plain_session(texts, code, reason)) == (
            SessionView {
                state: SessionState::Closed,
                heartbeat: Heartbeat::Off,
                failure: None,
            },
            seq![SessionActionView::OnOpen] + text_hooks(texts) + seq![
                SessionActionView::OnClose { code, reason },
            ],
        ),
        forall|i: int|
            0 <= i < texts.len() && decode_text(texts[i]) is Ok ==> #[trigger] text_hooks(texts)[i]
                == SessionActionView::OnEvent(decode_text(texts[i])->Ok_0),
{
    let opened = seq![SessionInputView::Opened { heartbeat_interval_ms: None }];
    let closing = seq![
        SessionInputView::Frame(FrameView::Close { code, reason }),
        SessionInputView::LoopExited,
    ];
    let close = seq![SessionInputView::Frame(FrameView::Close { code, reason })];
    let exit = seq![SessionInputView::LoopExited];
    let start = SessionView::initial();
    let active = SessionView {
        state: SessionState::Active,
        heartbeat: Heartbeat::Off,
        failure: None,
    };
    let draining = SessionView {
        state: SessionState::Draining,
        heartbeat: Heartbeat::Off,
        failure: None,
    };
    lemma_run_one(start, opened[0]);
    assert(start.run(opened) == (active, Seq::<SessionActionView>::empty()));
    lemma_text_frames_in_order(active, texts);
    lemma_run_append(start, opened, text_frames(texts));
    assert(Seq::<SessionActionView>::empty() + text_hooks(texts) =~= text_hooks(texts));
    lemma_run_one(active, close[0]);
    lemma_run_one(draining, exit[0]);
    assert(closing =~= close + exit);
    lemma_run_append(active, close, exit);
    assert(active.step(close[0]).1 =~= seq![SessionActionView::OnClose { code, reason }]);
    assert(active.run(closing).1 =~= seq![SessionActionView::OnClose { code, reason }]);
    lemma_run_append(start, opened + text_frames(texts), closing);
    assert(seq![SessionActionView::OnOpen] + (text_hooks(texts) + seq![
        SessionActionView::OnClose { code, reason },
    ]) =~= seq![SessionActionView::OnOpen] + text_hooks(texts) + seq![
        SessionActionView::OnClose { code, reason },
    ]);
}

/// The keep-alive pings. A session whose handler gave a period that is not
/// zero starts the keep-alive when it is opened, and from then on every tick
/// sends exactly one ping, for as long as the receive loop runs and no ping
/// has failed.
pub proof fn lemma_tick_sends_ping(s: SessionView, interval_ms: u64)
    requires
        interval_ms > 0,
    ensures
        SessionView::initial().step(
            SessionInputView::Opened { heartbeat_interval_ms: Some(interval_ms) },
        ) == (
            SessionView {
                state: SessionState::Active,
                heartbeat: Heartbeat::Running { interval_ms },
                failure: None,
            },
            seq![SessionActionView::StartHeartbeat { interval_ms }],
        ),
        s.state == SessionState::Active && s.heartbeat == (Heartbeat::Running { interval_ms })
            ==> s.step(SessionInputView::Tick) == (s, seq![SessionActionView::SendPing]),
        s.state == SessionState::Active && s.heartbeat == (Heartbeat::Running { interval_ms })
            ==> forall|frame: FrameView|
            !(frame is Close) ==> (#[trigger] s.step(SessionInputView::Frame(frame))).0 == s,
{
}

/// A session that outlives a period of its keep-alive pings. Whatever text
/// frames arrive after the session was opened with a period that is not
/// zero, the tick that follows them sends a ping, and the session goes on.
pub proof fn lemma_outliving_a_period_pings(interval_ms: u64, texts: Seq<Seq<char>>)
    requires
        interval_ms > 0,
    ensures
        session_trace(
            seq![SessionInputView::Opened { heartbeat_interval_ms: Some(interval_ms) }]
                + text_frames(texts) + seq![SessionInputView::Tick],
        ) == (
            SessionView {
                state: SessionState::Active,
                heartbeat: Heartbeat::Running { interval_ms },
                failure: None,
            },
            seq![SessionActionView::OnOpen, SessionActionView::StartHeartbeat { interval_ms }]
                + text_hooks(texts) + seq![SessionActionView::SendPing],
        ),
{
    let opened = seq![SessionInputView::Opened { heartbeat_interval_ms: Some(interval_ms) }];
    let tick = seq![SessionInputView::Tick];
    let start = SessionView::initial();
    let running = SessionView {
        state: SessionState::Active,
        heartbeat: Heartbeat::Running { interval_ms },
        failure: None,
    };
    lemma_run_one(start, opened[0]);
    lemma_text_frames_in_order(running, texts);
    lemma_run_append(start, opened, text_frames(texts));
    lemma_run_one(running, tick[0]);
    lemma_run_append(start, opened + text_frames(texts), tick);
    assert(seq![SessionActionView::OnOpen] + ((seq![
        SessionActionView::StartHeartbeat { interval_ms },
    ] + text_hooks(texts)) + seq![SessionActionView::SendPing]) =~= seq![
        SessionActionView::OnOpen,
        SessionActionView::StartHeartbeat { interval_ms },
    ] + text_hooks(texts) + seq![SessionActionView::SendPing]);
}

/// No keep-alive outlives its session. Once the receive loop has been left,
/// it stays left, whatever comes; nothing that comes then sends a ping; and
/// the keep-alive does not run. Leaving the loop cancels a keep-alive that
/// runs, on every way out: a close frame, the end of the stream, a
/// transport error.
pub proof fn lemma_no_ping_after_exit(s: SessionView, input: SessionInputView)
    requires
        s.wf(),
    ensures
        loop_left(s) ==> loop_left(s.step(input).0) && !s.step(input).1.contains(
            SessionActionView::SendPing,
        ) && !(s.heartbeat is Running),
        s.ended() ==> s.step(input) == (s, Seq::<SessionActionView>::empty()),
        !loop_left(s) && loop_left(s.step(input).0) && s.heartbeat is Running ==> s.step(
            input,
        ).1.contains(SessionActionView::StopHeartbeat) && s.step(input).0.heartbeat
            == Heartbeat::Stopped,
        !(s.step(input).0.heartbeat is Running) ==> !s.step(input).1.contains(
            SessionActionView::SendPing,
        ) || s.heartbeat is Running,
{
    let (after, actions) = s.step(input);
    if !loop_left(s) && loop_left(after) && s.heartbeat is Running {
        assert(actions[0] == SessionActionView::StopHeartbeat);
    }
}

/// Once a session has ended, nothing is done any more, whatever the inputs.
pub proof fn lemma_ended_is_final(s: SessionView, inputs: Seq<SessionInputView>)
    requires
        s.ended(),
    ensures
        s.run(inputs) == (s, Seq::<SessionActionView>::empty()),
    decreases inputs.len(),
{
    if inputs.len() > 0 {
        lemma_ended_is_final(s, inputs.drop_last());
        assert(Seq::<SessionActionView>::empty() + Seq::<SessionActionView>::empty()
            =~= Seq::<SessionActionView>::empty());
    }
}

} // verus!
