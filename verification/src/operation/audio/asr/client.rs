//! Recognition over the socket in one call: the commands that frame the
//! audio, the pieces that the audio is sent in, and what each frame that
//! comes back leads to.

use crate::operation::audio::asr::param::{
    AsrInput, AsrInputView, AutomaticSpeechRecognitionParam, FinishTaskCommand,
    FinishTaskCommandView, FinishTaskPayload, FinishTaskPayloadView, RunTaskCommand,
    RunTaskCommandView, RunTaskPayload, RunTaskPayloadView, WebSocketHeader, WebSocketHeaderView,
};
use crate::operation::audio::ws::output::{decode_text, EventType, WebSocketEvent, WebSocketEventView};
use crate::operation::audio::ws::param::is_lower_hex;
use crate::operation::audio::ws::session::{Frame, FrameView};
use vstd::prelude::*;

verus! {

/// The length of the task id that a recognition makes up for itself.
pub const SESSION_ID_LEN: usize = 32;

/// How many bytes of audio go into one piece: a tenth of a second at 16 kHz
/// and 16 bits.
pub const CHUNK_SIZE: usize = 1600;

/// How long the sender pauses between two pieces, in milliseconds.
pub const CHUNK_PAUSE_MS: u64 = 100;

/// How many events may wait to be taken.
pub const EVENT_QUEUE: usize = 100;

/// Whether a text has the form of the task id of a recognition: 32
/// hexadecimal digits in lower case, and no hyphen.
pub open spec fn is_session_id(s: Seq<char>) -> bool {
    &&& s.len() == SESSION_ID_LEN
    &&& forall|i: int| 0 <= i < s.len() ==> is_lower_hex(#[trigger] s[i])
}

/// `Uuid::new_v4` written in the simple form: a fresh random id of 32
/// hexadecimal digits in lower case, without hyphens. Which id comes back
/// is open; two calls may differ.
#[verifier::external_body]
pub(crate) fn new_session_id() -> (r: String)
    ensures
        is_session_id(r@),
{
    uuid::Uuid::new_v4().simple().to_string()
}

/// A fresh id for the task of one recognition.
pub fn fresh_task_id() -> (r: String)
    ensures
        is_session_id(r@),
{
    new_session_id()
}

/// The header of a command of the given action for the task `task_id`.
fn header(action: &str, task_id: &str) -> (r: WebSocketHeader)
    ensures
        r@ == (WebSocketHeaderView { action: action@, task_id: task_id@, streaming: "duplex"@ }),
{
    WebSocketHeader {
        action: action.to_owned(),
        task_id: task_id.to_owned(),
        streaming: "duplex".to_owned(),
    }
}

/// The command that starts the recognition that `param` asks for: action
/// `run-task`, mode `duplex`, group `audio`, family `asr`, function
/// `recognition`, and the model, parameters, resources and input of `param`.
pub fn run_task_command(task_id: &str, param: AutomaticSpeechRecognitionParam) -> (r:
    RunTaskCommand)
    ensures
        r@ == (RunTaskCommandView {
            header: WebSocketHeaderView {
                action: "run-task"@,
                task_id: task_id@,
                streaming: "duplex"@,
            },
            payload: RunTaskPayloadView {
                task_group: "audio"@,
                task: "asr"@,
                function: "recognition"@,
                model: param@.model,
                parameters: param@.parameters,
                resources: param@.resources,
                input: param@.input,
            },
        }),
{
    RunTaskCommand {
        header: header("run-task", task_id),
        payload: RunTaskPayload {
            task_group: "audio".to_owned(),
            task: "asr".to_owned(),
            function: "recognition".to_owned(),
            model: param.model,
            parameters: param.parameters,
            resources: param.resources,
            input: param.input,
        },
    }
}

/// The command that ends the input of the task `task_id`: action
/// `finish-task`, mode `duplex`, and an empty input.
pub fn finish_task_command(task_id: &str) -> (r: FinishTaskCommand)
    ensures
        r@ == (FinishTaskCommandView {
            header: WebSocketHeaderView {
                action: "finish-task"@,
                task_id: task_id@,
                streaming: "duplex"@,
            },
            payload: FinishTaskPayloadView { input: AsrInputView {  } },
        }),
{
    FinishTaskCommand {
        header: header("finish-task", task_id),
        payload: FinishTaskPayload { input: AsrInput {  } },
    }
}

/// The pieces of a run of bytes, laid end to end.
pub open spec fn flattened(chunks: Seq<Vec<u8>>) -> Seq<u8>
    decreases chunks.len(),
{
    if chunks.len() == 0 {
        Seq::empty()
    } else {
        flattened(chunks.drop_last()) + chunks.last()@
    }
}

/// Cuts audio into pieces of `size` bytes; the last piece is what is left
/// and may be shorter. Laid end to end the pieces are the audio, and none
/// is empty.
pub fn chunk_audio(data: &[u8], size: usize) -> (r: Vec<Vec<u8>>)
    requires
        size > 0,
    ensures
        flattened(r@) == data@,
        r@.len() == (data@.len() + size - 1) / (size as int),
        forall|i: int| 0 <= i < r@.len() - 1 ==> (#[trigger] r@[i])@.len() == size,
        r@.len() > 0 ==> 0 < r@[r@.len() - 1]@.len() <= size,
{
    let mut chunks: Vec<Vec<u8>> = Vec::new();
    let mut start: usize = 0;
    let n = data.len();
    proof {
        assert(data@.subrange(0, 0) =~= Seq::<u8>::empty());
        assert((size - 1) / (size as int) == 0) by (nonlinear_arith)
            requires
                size > 0,
        ;
    }
    while start < n
        invariant
            start <= n,
            n == data@.len(),
            size > 0,
            flattened(chunks@) == data@.subrange(0, start as int),
            start == chunks@.len() * size || start == n,
            start == n ==> chunks@.len() == (n + size - 1) / (size as int),
            (start < n || chunks@.len() == 0) ==> start == chunks@.len() * size,
            forall|i: int| 0 <= i < chunks@.len() - 1 ==> (#[trigger] chunks@[i])@.len() == size,
            chunks@.len() > 0 ==> 0 < chunks@[chunks@.len() - 1]@.len() <= size,
            start < n && chunks@.len() > 0 ==> chunks@[chunks@.len() - 1]@.len() == size,
        decreases n - start,
    {
        let end = if n - start > size {
            start + size
        } else {
            n
        };
        let mut chunk: Vec<u8> = Vec::new();
        let mut k: usize = start;
        while k < end
            invariant
                start <= k <= end,
                end <= n,
                n == data@.len(),
                chunk@ == data@.subrange(start as int, k as int),
            decreases end - k,
        {
            chunk.push(data[k]);
            proof {
                assert(chunk@ =~= data@.subrange(start as int, k as int + 1));
            }
            k += 1;
        }
        let ghost before = chunks@;
        chunks.push(chunk);
        proof {
            assert(chunks@.drop_last() =~= before);
            assert(flattened(chunks@) =~= data@.subrange(0, end as int));
            let count = before.len() as int;
            assert(start == count * size) by (nonlinear_arith)
                requires
                    start == before.len() * size,
                    count == before.len(),
            ;
            if end == n {
                assert((n + size - 1) / (size as int) == count + 1) by (nonlinear_arith)
                    requires
                        start == count * size,
                        start < n,
                        n - start <= size,
                        size > 0,
                ;
            } else {
                assert(end == (count + 1) * size) by (nonlinear_arith)
                    requires
                        start == count * size,
                        end == start + size,
                ;
            }
        }
        start = end;
    }
    proof {
        assert(data@.subrange(0, n as int) =~= data@);
    }
    chunks
}

/// Where the sending side of a recognition stands.
#[derive(Debug, Clone, Copy, PartialEq, Eq, Structural)]
pub enum SenderState {
    /// Nothing was sent yet.
    Ready,
    /// The start command was sent; no audio yet.
    Started,
    /// Audio is being sent.
    Streaming,
    /// The finish command was sent; nothing follows.
    Finished,
}

/// What the sending side is told.
#[derive(Debug, Clone, PartialEq, Eq)]
pub enum SenderInput {
    /// The socket stands.
    Begin,
    /// The next piece of audio is there.
    Chunk(Vec<u8>),
    /// The audio has ended, in order or with an error.
    EndOfAudio,
    /// A piece of audio could not be sent.
    SendFailed,
}

/// The content of a [`SenderInput`].
pub enum SenderInputView {
    Begin,
    Chunk(Seq<u8>),
    EndOfAudio,
    SendFailed,
}

impl View for SenderInput {
    type V = SenderInputView;

    open spec fn view(&self) -> SenderInputView {
        match self {
            SenderInput::Begin => SenderInputView::Begin,
            SenderInput::Chunk(c) => SenderInputView::Chunk(c@),
            SenderInput::EndOfAudio => SenderInputView::EndOfAudio,
            SenderInput::SendFailed => SenderInputView::SendFailed,
        }
    }
}

/// One frame to send, with the pauses around it in milliseconds.
#[derive(Debug, Clone, PartialEq, Eq)]
pub enum SenderAction {
    /// Send a text frame.
    SendText(String),
    /// Pause, send a binary frame, and pause again.
    SendBinary { bytes: Vec<u8>, pause_before_ms: u64, pause_after_ms: u64 },
}

/// The content of a [`SenderAction`].
pub enum SenderActionView {
    SendText(Seq<char>),
    SendBinary { bytes: Seq<u8>, pause_before_ms: u64, pause_after_ms: u64 },
}

impl View for SenderAction {
    type V = SenderActionView;

    open spec fn view(&self) -> SenderActionView {
        match self {
            SenderAction::SendText(t) => SenderActionView::SendText(t@),
            SenderAction::SendBinary { bytes, pause_before_ms, pause_after_ms } => {
                SenderActionView::SendBinary {
                    bytes: bytes@,
                    pause_before_ms: *pause_before_ms,
                    pause_after_ms: *pause_after_ms,
                }
            },
        }
    }
}

/// The contents of a run of actions.
pub open spec fn sender_actions_view(actions: Seq<SenderAction>) -> Seq<SenderActionView> {
    Seq::new(actions.len(), |i: int| actions[i]@)
}

/// The content of a [`Sender`].
pub struct SenderView {
    pub state: SenderState,
    /// The text of the start command.
    pub run: Seq<char>,
    /// The text of the finish command.
    pub finish: Seq<char>,
}

impl SenderView {
    /// The frame that carries a piece of audio: the first piece waits for
    /// the service to take up the task, and every piece is followed by a
    /// pause.
    pub open spec fn audio(first: bool, bytes: Seq<u8>) -> SenderActionView {
        SenderActionView::SendBinary {
            bytes,
            pause_before_ms: if first {
                CHUNK_PAUSE_MS
            } else {
                0
            },
            pause_after_ms: CHUNK_PAUSE_MS,
        }
    }

    /// One step of the sending side. The start command goes first; every
    /// piece of audio goes out as one binary frame, in the order of its
    /// arrival; when the audio has ended, or a piece could not be sent, the
    /// finish command goes last. After that nothing is sent.
    pub open spec fn step(self, input: SenderInputView) -> (SenderView, Seq<SenderActionView>) {
        match (self.state, input) {
            (SenderState::Ready, SenderInputView::Begin) => (
                SenderView { state: SenderState::Started, ..self },
                seq![SenderActionView::SendText(self.run)],
            ),
            (SenderState::Started, SenderInputView::Chunk(bytes)) => (
                SenderView { state: SenderState::Streaming, ..self },
                seq![Self::audio(true, bytes)],
            ),
            (SenderState::Streaming, SenderInputView::Chunk(bytes)) => (
                self,
                seq![Self::audio(false, bytes)],
            ),
            (SenderState::Started, SenderInputView::EndOfAudio)
            | (SenderState::Started, SenderInputView::SendFailed)
            | (SenderState::Streaming, SenderInputView::EndOfAudio)
            | (SenderState::Streaming, SenderInputView::SendFailed) => (
                SenderView { state: SenderState::Finished, ..self },
                seq![SenderActionView::SendText(self.finish)],
            ),
            _ => (self, Seq::empty()),
        }
    }

    /// The sending side after a run of inputs, and everything that was to
    /// be sent on the way, in order.
    pub open spec fn run_on(self, inputs: Seq<SenderInputView>) -> (
        SenderView,
        Seq<SenderActionView>,
    )
        decreases inputs.len(),
    {
        if inputs.len() == 0 {
            (self, Seq::empty())
        } else {
            let (before, done) = self.run_on(inputs.drop_last());
            let (after, more) = before.step(inputs.last());
            (after, done + more)
        }
    }
}

/// The sending side of one recognition.
#[derive(Debug, Clone, PartialEq, Eq)]
pub struct Sender {
    state: SenderState,
    run: String,
    finish: String,
}

impl View for Sender {
    type V = SenderView;

    closed spec fn view(&self) -> SenderView {
        SenderView { state: self.state, run: self.run@, finish: self.finish@ }
    }
}

/// The text of a command that was written.
fn written(r: Result<String, crate::error::DashScopeError>) -> (s: String)
    requires
        r is Ok,
    ensures
        r == Ok::<String, crate::error::DashScopeError>(s),
{
    match r {
        Ok(s) => s,
        Err(_) => String::new(),
    }
}

impl Sender {
    /// The sending side of the recognition that `param` asks for, under the
    /// task id `task_id`: its two commands are written here, once.
    pub fn new(task_id: &str, param: AutomaticSpeechRecognitionParam) -> (r: Sender)
        ensures
            r@ == (SenderView {
                state: SenderState::Ready,
                run: crate::json::rendered(
                    (RunTaskCommandView {
                        header: WebSocketHeaderView {
                            action: "run-task"@,
                            task_id: task_id@,
                            streaming: "duplex"@,
                        },
                        payload: RunTaskPayloadView {
                            task_group: "audio"@,
                            task: "asr"@,
                            function: "recognition"@,
                            model: param@.model,
                            parameters: param@.parameters,
                            resources: param@.resources,
                            input: param@.input,
                        },
                    }).to_json(),
                ),
                finish: crate::json::rendered(
                    (FinishTaskCommandView {
                        header: WebSocketHeaderView {
                            action: "finish-task"@,
                            task_id: task_id@,
                            streaming: "duplex"@,
                        },
                        payload: FinishTaskPayloadView { input: AsrInputView {  } },
                    }).to_json(),
                ),
            }),
    {
        let run = written(run_task_command(task_id, param).encode());
        let finish = written(finish_task_command(task_id).encode());
        Sender { state: SenderState::Ready, run, finish }
    }

    /// Where the sending side stands.
    pub fn state(&self) -> (r: SenderState)
        ensures
            r == self@.state,
    {
        self.state
    }

    /// One step of the sending side: takes an input and says what is to be
    /// sent, in order, before the next input is taken.
    pub fn step(&mut self, input: SenderInput) -> (actions: Vec<SenderAction>)
        ensures
            (final(self)@, sender_actions_view(actions@)) == old(self)@.step(input@),
    {
        let mut actions: Vec<SenderAction> = Vec::new();
        match (self.state, input) {
            (SenderState::Ready, SenderInput::Begin) => {
                self.state = SenderState::Started;
                actions.push(SenderAction::SendText(self.run.clone()));
            },
            (SenderState::Started, SenderInput::Chunk(bytes)) => {
                self.state = SenderState::Streaming;
                actions.push(
                    SenderAction::SendBinary {
                        bytes,
                        pause_before_ms: CHUNK_PAUSE_MS,
                        pause_after_ms: CHUNK_PAUSE_MS,
                    },
                );
            },
            (SenderState::Streaming, SenderInput::Chunk(bytes)) => {
                actions.push(
                    SenderAction::SendBinary {
                        bytes,
                        pause_before_ms: 0,
                        pause_after_ms: CHUNK_PAUSE_MS,
                    },
                );
            },
            (SenderState::Started, SenderInput::EndOfAudio)
            | (SenderState::Started, SenderInput::SendFailed)
            | (SenderState::Streaming, SenderInput::EndOfAudio)
            | (SenderState::Streaming, SenderInput::SendFailed) => {
                self.state = SenderState::Finished;
                actions.push(SenderAction::SendText(self.finish.clone()));
            },
            _ => {},
        }
        proof {
            assert(sender_actions_view(actions@) =~= old(self)@.step(input@).1);
        }
        actions
    }
}

/// The inputs that a run of pieces of audio arrives as.
pub open spec fn chunk_inputs(chunks: Seq<Seq<u8>>) -> Seq<SenderInputView> {
    Seq::new(chunks.len(), |i: int| SenderInputView::Chunk(chunks[i]))
}

/// The frames that carry a run of pieces of audio, one for each.
pub open spec fn chunk_frames(chunks: Seq<Seq<u8>>) -> Seq<SenderActionView> {
    Seq::new(chunks.len(), |i: int| SenderView::audio(i == 0, chunks[i]))
}

/// Running the sending side on two runs of inputs, one after the other, is
/// running it on both.
pub proof fn lemma_sender_run_append(
    s: SenderView,
    a: Seq<SenderInputView>,
    b: Seq<SenderInputView>,
)
    ensures
        s.run_on(a + b) == ({
            let (mid, first) = s.run_on(a);
            let (end, second) = mid.run_on(b);
            (end, first + second)
        }),
    decreases b.len(),
{
    let (mid, first) = s.run_on(a);
    if b.len() == 0 {
        assert(a + b =~= a);
        assert(first + Seq::<SenderActionView>::empty() =~= first);
    } else {
        lemma_sender_run_append(s, a, b.drop_last());
        assert((a + b).drop_last() =~= a + b.drop_last());
        assert((a + b).last() == b.last());
        let (before, done) = mid.run_on(b.drop_last());
        let (after, more) = before.step(b.last());
        assert(first + (done + more) =~= (first + done) + more);
    }
}

/// Running the sending side on one input is one step.
pub proof fn lemma_sender_run_one(s: SenderView, input: SenderInputView)
    ensures
        s.run_on(seq![input]) == s.step(input),
{
    let inputs = seq![input];
    assert(inputs.drop_last() =~= Seq::empty());
    assert(s.run_on(inputs.drop_last()) == (s, Seq::<SenderActionView>::empty()));
    assert(Seq::<SenderActionView>::empty() + s.step(input).1 =~= s.step(input).1);
}

/// Once the start command was sent, the pieces of audio go out in the order
/// of their arrival, one binary frame each.
pub proof fn lemma_chunks_in_order(s: SenderView, chunks: Seq<Seq<u8>>)
    requires
        s.state == SenderState::Started,
    ensures
        s.run_on(chunk_inputs(chunks)) == (
            SenderView {
                state: if chunks.len() == 0 {
                    SenderState::Started
                } else {
                    SenderState::Streaming
                },
                ..s
            },
            chunk_frames(chunks),
        ),
    decreases chunks.len(),
{
    if chunks.len() == 0 {
        assert(chunk_frames(chunks) =~= Seq::empty());
    } else {
        lemma_chunks_in_order(s, chunks.drop_last());
        assert(chunk_inputs(chunks).drop_last() =~= chunk_inputs(chunks.drop_last()));
        assert(chunk_frames(chunks.drop_last()) + seq![
            SenderView::audio(chunks.len() == 1, chunks.last()),
        ] =~= chunk_frames(chunks));
    }
}

/// The order of the frames of a recognition: the start command, then the
/// pieces of audio in the order of their arrival, then the finish command,
/// and nothing else.
pub proof fn lemma_frames_in_order(s: SenderView, chunks: Seq<Seq<u8>>)
    requires
        s.state == SenderState::Ready,
    ensures
        s.run_on(
            seq![SenderInputView::Begin] + chunk_inputs(chunks) + seq![SenderInputView::EndOfAudio],
        ) == (
            SenderView { state: SenderState::Finished, ..s },
            seq![SenderActionView::SendText(s.run)] + chunk_frames(chunks) + seq![
                SenderActionView::SendText(s.finish),
            ],
        ),
{
    let begin = seq![SenderInputView::Begin];
    let end = seq![SenderInputView::EndOfAudio];
    let started = SenderView { state: SenderState::Started, ..s };
    lemma_sender_run_one(s, begin[0]);
    lemma_chunks_in_order(started, chunks);
    lemma_sender_run_append(s, begin, chunk_inputs(chunks));
    let mid = s.run_on(begin + chunk_inputs(chunks)).0;
    lemma_sender_run_one(mid, end[0]);
    lemma_sender_run_append(s, begin + chunk_inputs(chunks), end);
    assert(s.run_on(begin).1 =~= seq![SenderActionView::SendText(s.run)]);
    assert(mid.run_on(end).1 =~= seq![SenderActionView::SendText(s.finish)]);
}

/// What the receiver does with a frame.
#[derive(Debug, Clone, PartialEq)]
pub enum Received {
    /// Hand the event on, and go on receiving.
    Event(WebSocketEvent),
    /// Hand the event on, and stop: it is the last of its task.
    LastEvent(WebSocketEvent),
    /// Nothing to hand on; go on receiving.
    Skip,
    /// Stop receiving.
    Stop,
}

/// The content of a [`Received`].
pub enum ReceivedView {
    Event(WebSocketEventView),
    LastEvent(WebSocketEventView),
    Skip,
    Stop,
}

impl View for Received {
    type V = ReceivedView;

    open spec fn view(&self) -> ReceivedView {
        match self {
            Received::Event(e) => ReceivedView::Event(e@),
            Received::LastEvent(e) => ReceivedView::LastEvent(e@),
            Received::Skip => ReceivedView::Skip,
            Received::Stop => ReceivedView::Stop,
        }
    }
}

/// Whether an event is the last of its task: the task has finished or failed.
pub open spec fn is_terminal(kind: EventType) -> bool {
    kind == EventType::TaskFinished || kind == EventType::TaskFailed
}

/// What a frame leads to: a text frame that decodes to an event hands the
/// event on, and ends the receiving if the event is the last of its task; a
/// text frame that decodes to none is passed over, as are binary frames,
/// pings and pongs; a close frame ends the receiving.
pub open spec fn received(frame: FrameView) -> ReceivedView {
    match frame {
        FrameView::Text(text) => match decode_text(text) {
            Ok(event) => if is_terminal(event.kind()) {
                ReceivedView::LastEvent(event)
            } else {
                ReceivedView::Event(event)
            },
            Err(_) => ReceivedView::Skip,
        },
        FrameView::Close { .. } => ReceivedView::Stop,
        _ => ReceivedView::Skip,
    }
}

/// Decides what a frame leads to.
pub fn receive(frame: Frame) -> (r: Received)
    ensures
        r@ == received(frame@),
{
    match frame {
        Frame::Text(text) => match WebSocketEvent::decode(text.as_str()) {
            Ok(event) => if event.is_task_finished() || event.is_task_failed() {
                Received::LastEvent(event)
            } else {
                Received::Event(event)
            },
            Err(_) => Received::Skip,
        },
        Frame::Close { .. } => Received::Stop,
        _ => Received::Skip,
    }
}

} // verus!
