//! The ingestion loop: one connection after another, each a session that
//! runs from stream discovery through streaming and draining to the closing
//! of the camera sink.
//!
//! The receiver is a state machine. It hands out one action at a time, the
//! program carries the action out with the sockets and the multimedia
//! framework, and hands back what came of it.

use vstd::prelude::*;
use vstd::string::StringExecFns;
use crate::decode::{DecodeSignal, DecodeStage, DrainEnd};
use crate::display::{
    CameraView,
    ConfigOutcome,
    PlanKind,
    PlanOutcome,
    SinkError,
    SinkOp,
    SinkPlan,
    SinkState,
    Timing,
    VideoVirtualCamera,
    plan_result,
};
use crate::media::{FrameInfo, MediaType, Pixel, StreamInfo};

verus! {

/// Where the ingestion loop stands.
#[derive(Clone, Copy, Debug, PartialEq, Eq, Structural)]
pub enum Phase {
    /// Waiting for a source to connect.
    Listening,
    /// A source has connected; its streams are not yet known.
    Connected,
    /// A video stream was picked; its decoder is being made.
    StreamDiscovery,
    /// Packets are read, decoded and written to the sink.
    Streaming,
    /// The input is exhausted; what the decoder and the encoder still hold
    /// is written out.
    Draining,
}

/// The answer that the receiver waits for.
#[derive(Clone, Copy, Debug, PartialEq, Eq, Structural)]
pub enum Wait {
    /// Nothing: the receiver was not started.
    Idle,
    /// Whether a source connected.
    Connection,
    /// The streams of the input.
    Streams,
    /// Whether the decoder could be made.
    Decoder,
    /// The next packet.
    Packet,
    /// What the decoder said to a packet.
    Submit,
    /// The next decoded frame.
    Frame,
    /// How the sink's configuration plan ended.
    Configure,
    /// How the sink's plan for a frame ended.
    Render,
    /// What the decoder said to the end of the stream.
    Eof,
    /// How the sink's finishing plan ended.
    Finish,
}

/// What the program reports to the receiver.
#[derive(Debug)]
pub enum IngestEvent {
    /// A source connected and the input was opened on the connection.
    Connected,
    /// The input could not be opened.
    ConnectFailed,
    /// The streams of the input, in the input's order.
    Streams(Vec<StreamInfo>),
    DecoderReady,
    DecoderFailed,
    /// A packet was read; `stream` is the index of the stream it belongs to.
    Packet { stream: usize },
    /// The input has no more packets.
    EndOfInput,
    /// What the decoder said to the packet.
    Submitted(Result<(), DecodeSignal>),
    /// A decoded frame.
    Frame(FrameInfo),
    /// The decoder gave no frame.
    NoFrame(DecodeSignal),
    /// What the decoder said to the end of the stream.
    EofSent(Result<(), DecodeSignal>),
    /// How the sink's configuration plan ended.
    SinkConfigured(ConfigOutcome),
    /// How the sink's plan for a frame, or its finishing plan, ended.
    SinkDone(PlanOutcome),
}

/// What the receiver asks the program to do next.
#[derive(Clone, Copy, Debug, PartialEq, Eq, Structural)]
pub enum IngestAction {
    /// Drop what is left of the last session, listen on the port and open
    /// the input on the first connection.
    Listen { port: u16 },
    /// Report the streams of the input.
    ListStreams,
    /// Make a video decoder from the parameters of the stream with this
    /// index.
    OpenDecoder { stream: usize },
    /// Read the next packet.
    ReadPacket,
    /// Feed the packet last read to the decoder.
    SendPacket,
    /// Ask the decoder for a frame.
    ReceiveFrame,
    /// Tell the decoder that no packet follows.
    SendEof,
    /// Run the operations that come with this action on the sink, in order,
    /// up to the first that fails, with the frame last decoded as the
    /// incoming frame.
    RunSink(PlanKind),
}

/// What the program should put in its log.
#[derive(Clone, Copy, Debug, PartialEq, Eq, Structural)]
pub enum Notice {
    ConnectFailed,
    /// The input has no video stream.
    NoVideoStream,
    /// No decoder could be made for the video stream.
    DecoderUnavailable,
    /// The decoder refused a packet; the packet is skipped.
    SubmitFailed,
    /// The decoder failed when asked for a frame.
    ReceiveFailed,
    /// The decoder failed when told of the end of the stream.
    EofFailed,
    /// A frame could not be written; the session goes on.
    FrameLost(SinkError),
    /// The session is given up.
    SessionAborted(SinkError),
    /// The sink could not be closed cleanly.
    FinishFailed,
    /// The session came to its end.
    SessionEnded,
    /// The program reported something that was not asked for; the session
    /// is given up.
    OutOfTurn,
}

impl Notice {
    /// The notice in words.
    pub open spec fn text(self) -> Seq<char> {
        match self {
            Notice::ConnectFailed => "Could not open the input"@,
            Notice::NoVideoStream => "Didn't find a video stream in the incoming connection"@,
            Notice::DecoderUnavailable =>
                "Couldn't create a decoder for the incoming video stream"@,
            Notice::SubmitFailed => "Error sending packet to decoder"@,
            Notice::ReceiveFailed => "Error receiving frame"@,
            Notice::EofFailed => "Error sending EOF to decoder"@,
            Notice::FrameLost(e) => "Error displaying/encoding frame: "@ + e.text(),
            Notice::SessionAborted(e) => "Session aborted: "@ + e.text(),
            Notice::FinishFailed => "Error finalizing output"@,
            Notice::SessionEnded => "Finished receiving and writing video."@,
            Notice::OutOfTurn => "Unexpected report; session aborted"@,
        }
    }

    pub fn message(&self) -> (m: String)
        ensures
            m@ == self.text(),
    {
        match self {
            Notice::ConnectFailed => "Could not open the input".to_owned(),
            Notice::NoVideoStream =>
                "Didn't find a video stream in the incoming connection".to_owned(),
            Notice::DecoderUnavailable =>
                "Couldn't create a decoder for the incoming video stream".to_owned(),
            Notice::SubmitFailed => "Error sending packet to decoder".to_owned(),
            Notice::ReceiveFailed => "Error receiving frame".to_owned(),
            Notice::EofFailed => "Error sending EOF to decoder".to_owned(),
            Notice::FrameLost(e) => {
                let mut m = "Error displaying/encoding frame: ".to_owned();
                m.append(e.message());
                m
            },
            Notice::SessionAborted(e) => {
                let mut m = "Session aborted: ".to_owned();
                m.append(e.message());
                m
            },
            Notice::FinishFailed => "Error finalizing output".to_owned(),
            Notice::SessionEnded => "Finished receiving and writing video.".to_owned(),
            Notice::OutOfTurn => "Unexpected report; session aborted".to_owned(),
        }
    }
}

/// One step of the receiver: what to do next, the sink operations that go
/// with it, and what to log.
#[derive(Debug)]
pub struct Step {
    pub action: IngestAction,
    /// The operations of the plan where the action is `RunSink`; empty
    /// otherwise.
    pub ops: Vec<SinkOp>,
    pub notice: Option<Notice>,
}

/// The receiver as contracts see it.
pub struct ReceiverView {
    pub width: u32,
    pub height: u32,
    pub use_mjpeg: bool,
    pub device_path: Seq<char>,
    pub port: u16,
    pub wait: Wait,
    pub stage: DecodeStage,
    /// The index of the stream that was picked.
    pub video_stream: Option<usize>,
    /// The frame for which the sink is being configured.
    pub frame: Option<FrameInfo>,
    pub display: CameraView,
}

/// A step as contracts see it.
pub struct StepView {
    pub next: ReceiverView,
    pub action: IngestAction,
    pub ops: Seq<SinkOp>,
    pub notice: Option<Notice>,
}

/// The address on which the input listens, up to the port.
pub const LISTEN_PREFIX: &'static str = "tcp://0.0.0.0:";

/// The input option that makes the framework listen rather than connect.
pub const LISTEN_OPTION: &'static str = "listen";

/// The value of `LISTEN_OPTION`.
pub const LISTEN_VALUE: &'static str = "1";

/// The decimal digit for `d`.
pub open spec fn digit(d: int) -> char {
    if d == 0 {
        '0'
    } else if d == 1 {
        '1'
    } else if d == 2 {
        '2'
    } else if d == 3 {
        '3'
    } else if d == 4 {
        '4'
    } else if d == 5 {
        '5'
    } else if d == 6 {
        '6'
    } else if d == 7 {
        '7'
    } else if d == 8 {
        '8'
    } else {
        '9'
    }
}

/// The decimal numeral of `n`, without leading zeros.
pub open spec fn decimal(n: nat) -> Seq<char>
    decreases n,
{
    if n < 10 {
        seq![digit(n as int)]
    } else {
        decimal(n / 10) + seq![digit((n % 10) as int)]
    }
}

/// The address at which the input listens on `port`.
pub open spec fn listen_url_of(port: u16) -> Seq<char> {
    LISTEN_PREFIX@ + decimal(port as nat)
}

fn digit_str(d: u16) -> (r: &'static str)
    requires
        d < 10,
    ensures
        r@ == seq![digit(d as int)],
{
    proof {
        reveal_strlit("0");
        reveal_strlit("1");
        reveal_strlit("2");
        reveal_strlit("3");
        reveal_strlit("4");
        reveal_strlit("5");
        reveal_strlit("6");
        reveal_strlit("7");
        reveal_strlit("8");
        reveal_strlit("9");
    }
    let r = if d == 0 {
        "0"
    } else if d == 1 {
        "1"
    } else if d == 2 {
        "2"
    } else if d == 3 {
        "3"
    } else if d == 4 {
        "4"
    } else if d == 5 {
        "5"
    } else if d == 6 {
        "6"
    } else if d == 7 {
        "7"
    } else if d == 8 {
        "8"
    } else {
        "9"
    };
    assert(r@ =~= seq![digit(d as int)]);
    r
}

fn push_decimal(text: &mut String, n: u16)
    ensures
        final(text)@ == old(text)@ + decimal(n as nat),
    decreases n,
{
    if n >= 10 {
        push_decimal(text, n / 10);
    }
    text.append(digit_str(n % 10));
    assert(final(text)@ =~= old(text)@ + decimal(n as nat));
}

/// The address at which the input listens on `port`.
pub fn listen_url(port: u16) -> (url: String)
    ensures
        url@ == listen_url_of(port),
{
    let mut url = LISTEN_PREFIX.to_owned();
    push_decimal(&mut url, port);
    url
}

/// The first video stream of an input, if it has one.
pub open spec fn first_video(streams: Seq<StreamInfo>) -> Option<StreamInfo>
    decreases streams.len(),
{
    if streams.len() == 0 {
        None
    } else if streams[0].is_video() {
        Some(streams[0])
    } else {
        first_video(streams.drop_first())
    }
}

/// `first_video` picks a video stream before which no video stream stands,
/// and finds none only where there is none.
pub proof fn lemma_first_video(streams: Seq<StreamInfo>)
    ensures
        match first_video(streams) {
            Some(stream) => exists|i: int|
                0 <= i < streams.len() && #[trigger] streams[i] == stream && stream.is_video()
                    && forall|j: int| 0 <= j < i ==> !(#[trigger] streams[j]).is_video(),
            None => forall|j: int| 0 <= j < streams.len() ==> !(#[trigger] streams[j]).is_video(),
        },
    decreases streams.len(),
{
    if streams.len() > 0 && !streams[0].is_video() {
        let rest = streams.drop_first();
        lemma_first_video(rest);
        assert(forall|j: int| 0 <= j < rest.len() ==> rest[j] == streams[j + 1]);
        match first_video(rest) {
            Some(stream) => {
                let i = choose|i: int|
                    0 <= i < rest.len() && #[trigger] rest[i] == stream && stream.is_video()
                        && forall|j: int| 0 <= j < i ==> !(#[trigger] rest[j]).is_video();
                assert(streams[i + 1] == stream);
                assert forall|j: int| 0 <= j < i + 1 implies !(#[trigger] streams[j]).is_video() by {
                    if j > 0 {
                        assert(rest[j - 1] == streams[j]);
                    }
                }
            },
            None => {
                assert forall|j: int| 0 <= j < streams.len() implies !(
                #[trigger] streams[j]).is_video() by {
                    if j > 0 {
                        assert(rest[j - 1] == streams[j]);
                    }
                }
            },
        }
    } else if streams.len() > 0 {
        assert(streams[0] == first_video(streams)->0);
    }
}

/// Finds the first video stream among the streams of an input.
pub fn find_video_stream(streams: &Vec<StreamInfo>) -> (r: Option<StreamInfo>)
    ensures
        r == first_video(streams@),
        r is Some ==> r->0.is_video(),
        r is None <==> forall|j: int| 0 <= j < streams@.len() ==> !(#[trigger] streams@[j]).is_video(),
{
    proof {
        lemma_first_video(streams@);
    }
    let n = streams.len();
    let mut i: usize = 0;
    assert(streams@.subrange(0, n as int) =~= streams@);
    while i < n
        invariant
            n == streams@.len(),
            i <= n,
            first_video(streams@) == first_video(streams@.subrange(i as int, n as int)),
        decreases n - i,
    {
        let stream = streams[i];
        let ghost rest = streams@.subrange(i as int, n as int);
        assert(rest[0] == stream);
        match stream.parameters.medium {
            MediaType::Video => {
                return Some(stream);
            },
            _ => {},
        }
        assert(rest.drop_first() =~= streams@.subrange(i + 1, n as int));
        i = i + 1;
    }
    assert(streams@.subrange(n as int, n as int).len() == 0);
    None
}

impl Wait {
    /// The phase of the ingestion loop in which this answer is awaited.
    /// While frames are pulled and written the phase is that of the input:
    /// streaming until it is exhausted, draining from then on.
    pub open spec fn phase(self, stage: DecodeStage) -> Phase {
        match self {
            Wait::Idle => Phase::Listening,
            Wait::Connection => Phase::Listening,
            Wait::Streams => Phase::Connected,
            Wait::Decoder => Phase::StreamDiscovery,
            Wait::Packet => Phase::Streaming,
            Wait::Submit => Phase::Streaming,
            Wait::Eof => Phase::Draining,
            Wait::Finish => Phase::Draining,
            _ => if stage.flushing {
                Phase::Draining
            } else {
                Phase::Streaming
            },
        }
    }
}

impl ReceiverView {
    pub open spec fn phase(self) -> Phase {
        self.wait.phase(self.stage)
    }

    /// The sink with which a session starts: unconfigured, for the
    /// receiver's device and target size, in the receiver's encoder mode.
    pub open spec fn session_sink(self) -> CameraView {
        CameraView {
            state: SinkState::Unconfigured,
            timing: None,
            width: self.width,
            height: self.height,
            params: None,
            device_path: self.device_path,
            use_mjpeg: self.use_mjpeg,
            target_pix_fmt: if self.use_mjpeg {
                Pixel::Yuv420p
            } else {
                Pixel::Yuyv422
            },
        }
    }

    /// The receiver at the start of a session, listening.
    pub open spec fn fresh(self) -> ReceiverView {
        ReceiverView {
            wait: Wait::Connection,
            stage: DecodeStage { flushing: false },
            video_stream: None,
            frame: None,
            display: self.session_sink(),
            ..self
        }
    }

    /// Back to listening, with a new session.
    pub open spec fn listen(self, notice: Option<Notice>) -> StepView {
        StepView {
            next: self.fresh(),
            action: IngestAction::Listen { port: self.port },
            ops: Seq::empty(),
            notice,
        }
    }

    /// On with the session: an action without sink operations.
    pub open spec fn go(self, wait: Wait, action: IngestAction, notice: Option<Notice>) -> StepView {
        StepView { next: ReceiverView { wait, ..self }, action, ops: Seq::empty(), notice }
    }

    /// The end of the session. A configured sink is finished first; with any
    /// other sink the receiver listens again at once.
    pub open spec fn close(self, notice: Option<Notice>) -> StepView {
        if self.display.state is Configured {
            StepView {
                next: ReceiverView {
                    wait: Wait::Finish,
                    stage: DecodeStage { flushing: true },
                    frame: None,
                    display: self.display.after_finish(),
                    ..self
                },
                action: IngestAction::RunSink(PlanKind::Finish),
                ops: self.display.finish_ops(),
                notice,
            }
        } else {
            self.listen(
                match notice {
                    Some(n) => Some(n),
                    None => Some(Notice::SessionEnded),
                },
            )
        }
    }

    /// A decoded frame goes to the sink. The sink's plan is run; where the
    /// sink has none, a fatal error ends the session and any other loses the
    /// frame.
    pub open spec fn offer(self, frame: FrameInfo) -> StepView {
        match self.display.frame_plan(frame) {
            Ok((PlanKind::Configure, ops)) => StepView {
                next: ReceiverView { wait: Wait::Configure, frame: Some(frame), ..self },
                action: IngestAction::RunSink(PlanKind::Configure),
                ops,
                notice: None,
            },
            Ok((kind, ops)) => StepView {
                next: ReceiverView { wait: Wait::Render, frame: None, ..self },
                action: IngestAction::RunSink(kind),
                ops,
                notice: None,
            },
            Err(e) => if e.fatal() {
                self.close(Some(Notice::SessionAborted(e)))
            } else {
                self.go(Wait::Frame, IngestAction::ReceiveFrame, Some(Notice::FrameLost(e)))
            },
        }
    }

    /// The streams of the input are known: the first video stream is picked,
    /// the timing of the session is taken from it and its decoder is asked
    /// for. Without a video stream the connection is given up.
    pub open spec fn discover(self, streams: Seq<StreamInfo>) -> StepView {
        match first_video(streams) {
            Some(stream) => StepView {
                next: ReceiverView {
                    wait: Wait::Decoder,
                    video_stream: Some(stream.index),
                    display: CameraView {
                        timing: Some(Timing::of_stream(stream)),
                        ..self.display
                    },
                    ..self
                },
                action: IngestAction::OpenDecoder { stream: stream.index },
                ops: Seq::empty(),
                notice: None,
            },
            None => self.listen(Some(Notice::NoVideoStream)),
        }
    }

    /// The outcome of the sink's configuration is known. On success the
    /// frame that set it off is written. On failure the session is over.
    pub open spec fn configured(self, frame: FrameInfo, outcome: ConfigOutcome) -> StepView {
        let display = self.display.after_configure(frame, outcome);
        let with_sink = ReceiverView { display, frame: None, ..self };
        match self.display.configure_result(outcome) {
            Ok(()) => match display.render_plan(frame) {
                Ok(ops) => StepView {
                    next: ReceiverView { wait: Wait::Render, ..with_sink },
                    action: IngestAction::RunSink(PlanKind::Render),
                    ops,
                    notice: None,
                },
                Err(e) => with_sink.close(Some(Notice::SessionAborted(e))),
            },
            Err(e) => with_sink.close(Some(Notice::SessionAborted(e))),
        }
    }

    /// The outcome of writing a frame is known. A failed conversion ends the
    /// session; a failed write loses the frame; either way, or after
    /// success, the next frame is asked for.
    pub open spec fn rendered(self, outcome: PlanOutcome) -> StepView {
        match plan_result(outcome) {
            Ok(()) => self.go(Wait::Frame, IngestAction::ReceiveFrame, None),
            Err(e) => if e.fatal() {
                self.close(Some(Notice::SessionAborted(e)))
            } else {
                self.go(Wait::Frame, IngestAction::ReceiveFrame, Some(Notice::FrameLost(e)))
            },
        }
    }

    /// The decoder has no frame ready. While streaming the next packet is
    /// read; while draining the session ends.
    pub open spec fn drained(self, signal: DecodeSignal) -> StepView {
        let notice = if signal.fails_drain() {
            Some(Notice::ReceiveFailed)
        } else {
            None
        };
        match self.stage.after_drain() {
            DrainEnd::Finished => self.close(notice),
            DrainEnd::Feed => self.go(Wait::Packet, IngestAction::ReadPacket, notice),
        }
    }

    /// The receiver is told to serve the next connection on another device
    /// or port. A sink that is open is finished before the receiver listens.
    pub open spec fn serve(self, device_path: Seq<char>, port: u16) -> StepView {
        let told = ReceiverView { device_path, port, ..self };
        if self.display.state is Configured {
            told.close(None)
        } else {
            told.listen(None)
        }
    }

    /// The receiver's answer to an event.
    pub open spec fn step(self, event: IngestEvent) -> StepView {
        match (self.wait, event) {
            (Wait::Connection, IngestEvent::Connected) => self.go(
                Wait::Streams,
                IngestAction::ListStreams,
                None,
            ),
            (Wait::Connection, IngestEvent::ConnectFailed) => self.listen(
                Some(Notice::ConnectFailed),
            ),
            (Wait::Streams, IngestEvent::Streams(streams)) => self.discover(streams@),
            (Wait::Decoder, IngestEvent::DecoderReady) => self.go(
                Wait::Packet,
                IngestAction::ReadPacket,
                None,
            ),
            (Wait::Decoder, IngestEvent::DecoderFailed) => self.listen(
                Some(Notice::DecoderUnavailable),
            ),
            (Wait::Packet, IngestEvent::Packet { stream }) => if self.video_stream == Some(stream) {
                self.go(Wait::Submit, IngestAction::SendPacket, None)
            } else {
                self.go(Wait::Packet, IngestAction::ReadPacket, None)
            },
            (Wait::Packet, IngestEvent::EndOfInput) => self.go(
                Wait::Eof,
                IngestAction::SendEof,
                None,
            ),
            (Wait::Submit, IngestEvent::Submitted(result)) => self.go(
                Wait::Frame,
                IngestAction::ReceiveFrame,
                match result {
                    Err(signal) => if signal.fails_submit() {
                        Some(Notice::SubmitFailed)
                    } else {
                        None
                    },
                    Ok(()) => None,
                },
            ),
            (Wait::Frame, IngestEvent::Frame(frame)) => self.offer(frame),
            (Wait::Frame, IngestEvent::NoFrame(signal)) => self.drained(signal),
            (Wait::Configure, IngestEvent::SinkConfigured(outcome)) => match self.frame {
                Some(frame) => self.configured(frame, outcome),
                None => self.close(Some(Notice::OutOfTurn)),
            },
            (Wait::Render, IngestEvent::SinkDone(outcome)) => self.rendered(outcome),
            (Wait::Eof, IngestEvent::EofSent(result)) => (ReceiverView {
                stage: DecodeStage { flushing: true },
                ..self
            }).go(
                Wait::Frame,
                IngestAction::ReceiveFrame,
                if result is Err {
                    Some(Notice::EofFailed)
                } else {
                    None
                },
            ),
            (Wait::Finish, IngestEvent::SinkDone(outcome)) => self.listen(
                Some(
                    if outcome is Completed {
                        Notice::SessionEnded
                    } else {
                        Notice::FinishFailed
                    },
                ),
            ),
            _ => self.close(Some(Notice::OutOfTurn)),
        }
    }
}

impl ReceiverView {
    /// What holds of the receiver at every step: the sink's state fits the
    /// answer that is awaited. Before a video stream is picked the sink is
    /// untouched; from then on its timing is set; it is configured while a
    /// frame is written and finalized while its finishing plan runs.
    pub open spec fn wf(self) -> bool {
        match self.wait {
            Wait::Idle | Wait::Connection | Wait::Streams => {
                &&& self.display.state is Unconfigured
                &&& self.display.timing is None
                &&& !self.stage.flushing
                &&& self.frame is None
            },
            Wait::Decoder => {
                &&& self.display.state is Unconfigured
                &&& self.display.timing is Some
                &&& !self.stage.flushing
                &&& self.frame is None
            },
            Wait::Packet | Wait::Submit => {
                &&& !(self.display.state is Finalized)
                &&& self.display.timing is Some
                &&& !self.stage.flushing
                &&& self.frame is None
            },
            Wait::Frame => {
                &&& !(self.display.state is Finalized)
                &&& self.display.timing is Some
                &&& self.frame is None
            },
            Wait::Eof => {
                &&& !(self.display.state is Finalized)
                &&& self.display.timing is Some
                &&& !self.stage.flushing
                &&& self.frame is None
            },
            Wait::Configure => {
                &&& self.display.state is Unconfigured
                &&& self.display.timing is Some
                &&& self.frame is Some
            },
            Wait::Render => {
                &&& self.display.state is Configured
                &&& self.display.timing is Some
                &&& self.frame is None
            },
            Wait::Finish => {
                &&& self.display.state is Finalized
                &&& self.stage.flushing
                &&& self.frame is None
            },
        }
    }
}

/// The receiver of the video feed: the ingestion loop and the session that
/// it is serving.
pub struct VideoReceiver {
    width: u32,
    height: u32,
    use_mjpeg: bool,
    device_path: String,
    port: u16,
    wait: Wait,
    stage: DecodeStage,
    video_stream: Option<usize>,
    frame: Option<FrameInfo>,
    display: VideoVirtualCamera,
}

impl View for VideoReceiver {
    type V = ReceiverView;

    closed spec fn view(&self) -> ReceiverView {
        ReceiverView {
            width: self.width,
            height: self.height,
            use_mjpeg: self.use_mjpeg,
            device_path: self.device_path@,
            port: self.port,
            wait: self.wait,
            stage: self.stage,
            video_stream: self.video_stream,
            frame: self.frame,
            display: self.display@,
        }
    }
}

/// A sink for the start of a session.
fn session_display(width: u32, height: u32, use_mjpeg: bool, device_path: &str) -> (cam:
    VideoVirtualCamera)
    ensures
        cam@ == (CameraView {
            state: SinkState::Unconfigured,
            timing: None,
            width,
            height,
            params: None,
            device_path: device_path@,
            use_mjpeg,
            target_pix_fmt: if use_mjpeg {
                Pixel::Yuv420p
            } else {
                Pixel::Yuyv422
            },
        }),
{
    let mut cam = VideoVirtualCamera::new(width, height, device_path).unwrap();
    if !use_mjpeg {
        cam.use_rawvideo_yuyv422();
    }
    cam
}

impl VideoReceiver {
    /// A receiver for the given target size. It is idle, has no device yet
    /// and will write uncompressed video.
    pub fn new(width: u32, height: u32) -> (r: Self)
        ensures
            r@.width == width,
            r@.height == height,
            !r@.use_mjpeg,
            r@.device_path == Seq::<char>::empty(),
            r@.port == 0,
            r@.wait is Idle,
            r@.display == r@.session_sink(),
            r@.wf(),
    {
        let device_path = String::new();
        let display = session_display(width, height, false, device_path.as_str());
        VideoReceiver {
            width,
            height,
            use_mjpeg: false,
            device_path,
            port: 0,
            wait: Wait::Idle,
            stage: DecodeStage::new(),
            video_stream: None,
            frame: None,
            display,
        }
    }

    /// Chooses between MJPEG and uncompressed output. The choice holds from
    /// the next session that starts.
    pub fn set_mjpeg(&mut self, use_mjpeg: bool)
        ensures
            final(self)@ == (ReceiverView { use_mjpeg, ..old(self)@ }),
            old(self)@.wf() ==> final(self)@.wf(),
    {
        self.use_mjpeg = use_mjpeg;
    }

    /// Serves the next connection on `port`, for the camera at
    /// `device_path`. The receiver listens at once, unless the sink of a
    /// session under way is still open: then that sink is finished first.
    pub fn handle_connection(&mut self, device_path: &str, port: u16) -> (r: Step)
        ensures
            final(self)@ == old(self)@.serve(device_path@, port).next,
            r.action == old(self)@.serve(device_path@, port).action,
            r.ops@ == old(self)@.serve(device_path@, port).ops,
            r.notice is None,
            final(self)@.wf(),
            !(old(self)@.display.state is Configured) ==> {
                &&& r.action == (IngestAction::Listen { port })
                &&& final(self)@.phase() is Listening
            },
    {
        self.device_path = device_path.to_owned();
        self.port = port;
        match self.display.state() {
            SinkState::Configured(_) => self.close(None),
            _ => self.listen(None),
        }
    }

    /// Where the ingestion loop stands.
    pub fn phase(&self) -> (p: Phase)
        ensures
            p == self@.phase(),
    {
        match self.wait {
            Wait::Idle | Wait::Connection => Phase::Listening,
            Wait::Streams => Phase::Connected,
            Wait::Decoder => Phase::StreamDiscovery,
            Wait::Packet | Wait::Submit => Phase::Streaming,
            Wait::Eof | Wait::Finish => Phase::Draining,
            _ => if self.stage.flushing {
                Phase::Draining
            } else {
                Phase::Streaming
            },
        }
    }

    /// The sink of the session under way.
    pub fn display(&self) -> (cam: &VideoVirtualCamera)
        ensures
            cam@ == self@.display,
    {
        &self.display
    }

    fn listen(&mut self, notice: Option<Notice>) -> (r: Step)
        ensures
            final(self)@ == old(self)@.listen(notice).next,
            r.action == old(self)@.listen(notice).action,
            r.ops@ == old(self)@.listen(notice).ops,
            r.notice == notice,
    {
        self.display = session_display(
            self.width,
            self.height,
            self.use_mjpeg,
            self.device_path.as_str(),
        );
        self.wait = Wait::Connection;
        self.stage = DecodeStage::new();
        self.video_stream = None;
        self.frame = None;
        Step { action: IngestAction::Listen { port: self.port }, ops: Vec::new(), notice }
    }

    fn go(&mut self, wait: Wait, action: IngestAction, notice: Option<Notice>) -> (r: Step)
        ensures
            final(self)@ == old(self)@.go(wait, action, notice).next,
            r.action == action,
            r.ops@ == Seq::<SinkOp>::empty(),
            r.notice == notice,
    {
        self.wait = wait;
        Step { action, ops: Vec::new(), notice }
    }

    fn close(&mut self, notice: Option<Notice>) -> (r: Step)
        ensures
            final(self)@ == old(self)@.close(notice).next,
            r.action == old(self)@.close(notice).action,
            r.ops@ == old(self)@.close(notice).ops,
            r.notice == old(self)@.close(notice).notice,
    {
        match self.display.state() {
            SinkState::Configured(_) => {
                let ops = self.display.finish();
                self.wait = Wait::Finish;
                self.stage.flushing = true;
                self.frame = None;
                Step { action: IngestAction::RunSink(PlanKind::Finish), ops, notice }
            },
            _ => {
                let notice = match notice {
                    Some(n) => Some(n),
                    None => Some(Notice::SessionEnded),
                };
                self.listen(notice)
            },
        }
    }

    fn offer(&mut self, frame: FrameInfo) -> (r: Step)
        ensures
            final(self)@ == old(self)@.offer(frame).next,
            r.action == old(self)@.offer(frame).action,
            r.ops@ == old(self)@.offer(frame).ops,
            r.notice == old(self)@.offer(frame).notice,
    {
        match self.display.show_frame(&frame) {
            Ok(plan) => {
                let SinkPlan { kind, ops } = plan;
                match kind {
                    PlanKind::Configure => {
                        self.wait = Wait::Configure;
                        self.frame = Some(frame);
                    },
                    _ => {
                        self.wait = Wait::Render;
                        self.frame = None;
                    },
                }
                Step { action: IngestAction::RunSink(kind), ops, notice: None }
            },
            Err(e) => if e.is_fatal() {
                self.close(Some(Notice::SessionAborted(e)))
            } else {
                self.go(Wait::Frame, IngestAction::ReceiveFrame, Some(Notice::FrameLost(e)))
            },
        }
    }

    fn discover(&mut self, streams: &Vec<StreamInfo>) -> (r: Step)
        ensures
            final(self)@ == old(self)@.discover(streams@).next,
            r.action == old(self)@.discover(streams@).action,
            r.ops@ == old(self)@.discover(streams@).ops,
            r.notice == old(self)@.discover(streams@).notice,
    {
        match find_video_stream(streams) {
            Some(stream) => {
                self.video_stream = Some(stream.index);
                self.display.prepare_from_stream(&stream);
                self.wait = Wait::Decoder;
                Step {
                    action: IngestAction::OpenDecoder { stream: stream.index },
                    ops: Vec::new(),
                    notice: None,
                }
            },
            None => self.listen(Some(Notice::NoVideoStream)),
        }
    }

    fn configured(&mut self, frame: FrameInfo, outcome: ConfigOutcome) -> (r: Step)
        ensures
            final(self)@ == old(self)@.configured(frame, outcome).next,
            r.action == old(self)@.configured(frame, outcome).action,
            r.ops@ == old(self)@.configured(frame, outcome).ops,
            r.notice == old(self)@.configured(frame, outcome).notice,
    {
        let reported = self.display.configured(&frame, &outcome);
        self.frame = None;
        match reported {
            Ok(()) => match self.display.render_frame(&frame) {
                Ok(ops) => {
                    self.wait = Wait::Render;
                    Step { action: IngestAction::RunSink(PlanKind::Render), ops, notice: None }
                },
                Err(e) => self.close(Some(Notice::SessionAborted(e))),
            },
            Err(e) => self.close(Some(Notice::SessionAborted(e))),
        }
    }

    fn rendered(&mut self, outcome: PlanOutcome) -> (r: Step)
        ensures
            final(self)@ == old(self)@.rendered(outcome).next,
            r.action == old(self)@.rendered(outcome).action,
            r.ops@ == old(self)@.rendered(outcome).ops,
            r.notice == old(self)@.rendered(outcome).notice,
    {
        match VideoVirtualCamera::rendered(&outcome) {
            Ok(()) => self.go(Wait::Frame, IngestAction::ReceiveFrame, None),
            Err(e) => if e.is_fatal() {
                self.close(Some(Notice::SessionAborted(e)))
            } else {
                self.go(Wait::Frame, IngestAction::ReceiveFrame, Some(Notice::FrameLost(e)))
            },
        }
    }

    fn drained(&mut self, signal: DecodeSignal) -> (r: Step)
        ensures
            final(self)@ == old(self)@.drained(signal).next,
            r.action == old(self)@.drained(signal).action,
            r.ops@ == old(self)@.drained(signal).ops,
            r.notice == old(self)@.drained(signal).notice,
    {
        let (end, failed) = self.stage.drain(signal);
        let notice = if failed {
            Some(Notice::ReceiveFailed)
        } else {
            None
        };
        match end {
            DrainEnd::Finished => self.close(notice),
            DrainEnd::Feed => self.go(Wait::Packet, IngestAction::ReadPacket, notice),
        }
    }

    /// Takes what the program reports and says what to do next.
    ///
    /// The answer is that of `ReceiverView::step`. A report that was not
    /// asked for ends the session as an error would: a configured sink is
    /// finished, then the receiver listens again. The receiver never stops:
    /// after the last step of a session comes the first of the next.
    pub fn step(&mut self, event: IngestEvent) -> (r: Step)
        ensures
            final(self)@ == old(self)@.step(event).next,
            r.action == old(self)@.step(event).action,
            r.ops@ == old(self)@.step(event).ops,
            r.notice == old(self)@.step(event).notice,
            old(self)@.wf() ==> final(self)@.wf(),
    {
        proof {
            if self@.wf() {
                lemma_step_keeps_wf(self@, event);
            }
        }
        match (self.wait, event) {
            (Wait::Connection, IngestEvent::Connected) => self.go(
                Wait::Streams,
                IngestAction::ListStreams,
                None,
            ),
            (Wait::Connection, IngestEvent::ConnectFailed) => self.listen(
                Some(Notice::ConnectFailed),
            ),
            (Wait::Streams, IngestEvent::Streams(streams)) => self.discover(&streams),
            (Wait::Decoder, IngestEvent::DecoderReady) => self.go(
                Wait::Packet,
                IngestAction::ReadPacket,
                None,
            ),
            (Wait::Decoder, IngestEvent::DecoderFailed) => self.listen(
                Some(Notice::DecoderUnavailable),
            ),
            (Wait::Packet, IngestEvent::Packet { stream }) => {
                let selected = match self.video_stream {
                    Some(index) => index == stream,
                    None => false,
                };
                if selected {
                    self.go(Wait::Submit, IngestAction::SendPacket, None)
                } else {
                    self.go(Wait::Packet, IngestAction::ReadPacket, None)
                }
            },
            (Wait::Packet, IngestEvent::EndOfInput) => self.go(
                Wait::Eof,
                IngestAction::SendEof,
                None,
            ),
            (Wait::Submit, IngestEvent::Submitted(result)) => {
                let notice = if self.stage.submit(result) {
                    Some(Notice::SubmitFailed)
                } else {
                    None
                };
                self.go(Wait::Frame, IngestAction::ReceiveFrame, notice)
            },
            (Wait::Frame, IngestEvent::Frame(frame)) => self.offer(frame),
            (Wait::Frame, IngestEvent::NoFrame(signal)) => self.drained(signal),
            (Wait::Configure, IngestEvent::SinkConfigured(outcome)) => match self.frame {
                Some(frame) => self.configured(frame, outcome),
                None => self.close(Some(Notice::OutOfTurn)),
            },
            (Wait::Render, IngestEvent::SinkDone(outcome)) => self.rendered(outcome),
            (Wait::Eof, IngestEvent::EofSent(result)) => {
                let notice = if self.stage.end_of_stream(result) {
                    Some(Notice::EofFailed)
                } else {
                    None
                };
                self.go(Wait::Frame, IngestAction::ReceiveFrame, notice)
            },
            (Wait::Finish, IngestEvent::SinkDone(outcome)) => {
                let notice = match outcome {
                    PlanOutcome::Completed => Notice::SessionEnded,
                    PlanOutcome::Failed(_) => Notice::FinishFailed,
                };
                self.listen(Some(notice))
            },
            _ => self.close(Some(Notice::OutOfTurn)),
        }
    }
}

/// Every step leaves the receiver well formed.
pub proof fn lemma_step_keeps_wf(s: ReceiverView, event: IngestEvent)
    requires
        s.wf(),
    ensures
        s.step(event).next.wf(),
{
}

/// An input without a video stream costs nothing but the connection: the
/// receiver says so and listens again, with a new session and a sink that
/// was never touched.
pub proof fn lemma_no_video_stream_resumes_listening(s: ReceiverView, event: IngestEvent)
    requires
        s.wait is Streams,
        event is Streams,
        forall|i: int|
            0 <= i < event->Streams_0@.len() ==> !(#[trigger] event->Streams_0@[i]).is_video(),
    ensures
        s.step(event).action == (IngestAction::Listen { port: s.port }),
        s.step(event).notice == Some(Notice::NoVideoStream),
        s.step(event).ops.len() == 0,
        s.step(event).next == s.fresh(),
        s.step(event).next.phase() is Listening,
        s.step(event).next.display.state is Unconfigured,
{
    lemma_first_video(event->Streams_0@);
}

/// A decoder that cannot be made costs nothing but the connection either.
pub proof fn lemma_no_decoder_resumes_listening(s: ReceiverView)
    requires
        s.wait is Decoder,
    ensures
        s.step(IngestEvent::DecoderFailed).action == (IngestAction::Listen { port: s.port }),
        s.step(IngestEvent::DecoderFailed).notice == Some(Notice::DecoderUnavailable),
        s.step(IngestEvent::DecoderFailed).next == s.fresh(),
        s.step(IngestEvent::DecoderFailed).next.phase() is Listening,
{
}

/// The receiver listens for the next connection only when the sink of the
/// last session is closed: whatever is reported, a configured sink is
/// handed its finishing plan before anything else happens, and a new
/// session starts from a sink that nothing has touched.
pub proof fn lemma_sink_is_closed_before_listening(s: ReceiverView, event: IngestEvent)
    requires
        s.wf(),
    ensures
        s.step(event).action is Listen ==> {
            &&& !(s.display.state is Configured)
            &&& s.step(event).next == s.fresh()
            &&& s.step(event).next.display.state is Unconfigured
        },
        s.step(event).action == IngestAction::RunSink(PlanKind::Finish) ==> {
            &&& s.display.state is Configured
            &&& s.step(event).ops == s.display.finish_ops()
            &&& s.step(event).next.display.state is Finalized
            &&& s.step(event).next.wait is Finish
        },
{
}

/// While frames are pulled, each one goes to the sink: the step's plan is
/// the sink's own plan for that frame.
pub proof fn lemma_frames_go_to_the_sink(s: ReceiverView, frame: FrameInfo)
    requires
        s.wf(),
        s.wait is Frame,
    ensures
        match s.display.frame_plan(frame) {
            Ok((kind, ops)) => {
                &&& s.step(IngestEvent::Frame(frame)).action == IngestAction::RunSink(kind)
                &&& s.step(IngestEvent::Frame(frame)).ops == ops
            },
            Err(e) => s.step(IngestEvent::Frame(frame)).notice is Some,
        },
{
}

/// The sink is finished only when there is nothing left to write: after the
/// decoder, told of the end of the stream, gave out its last frame. The one
/// other way to the finishing plan is a session that is given up.
pub proof fn lemma_finish_follows_the_last_frame(s: ReceiverView, event: IngestEvent)
    requires
        s.wf(),
        s.step(event).action == IngestAction::RunSink(PlanKind::Finish),
    ensures
        ({
            ||| s.wait is Frame && s.stage.flushing && event is NoFrame
            ||| s.step(event).notice matches Some(Notice::SessionAborted(e)) && e.fatal()
            ||| s.step(event).notice == Some(Notice::OutOfTurn)
        }),
{
}

/// Within a session the sink is configured at most once: the configuration
/// plan goes out only for a frame that meets an unconfigured sink, and once
/// its outcome is in, the sink is configured for the rest of the session or
/// the session is over.
pub proof fn lemma_receiver_configures_once(s: ReceiverView, event: IngestEvent)
    requires
        s.wf(),
    ensures
        s.step(event).action == IngestAction::RunSink(PlanKind::Configure) ==> {
            &&& s.wait is Frame
            &&& event is Frame
            &&& s.display.state is Unconfigured
            &&& s.step(event).next.wait is Configure
        },
        s.wait is Configure && event is SinkConfigured ==> {
            ||| {
                &&& s.step(event).action == IngestAction::RunSink(PlanKind::Render)
                &&& s.step(event).next.display.state is Configured
                &&& event->SinkConfigured_0 is Ready
            }
            ||| {
                &&& s.step(event).action is Listen
                &&& s.step(event).notice matches Some(Notice::SessionAborted(e))
                &&& e.fatal()
                &&& event->SinkConfigured_0 is Failed
            }
        },
        !(s.display.state is Unconfigured) ==> s.step(event).action != IngestAction::RunSink(
            PlanKind::Configure,
        ),
{
}

impl ReceiverView {
    /// The receiver after a run of reports.
    pub open spec fn run(self, events: Seq<IngestEvent>) -> ReceiverView
        decreases events.len(),
    {
        if events.len() == 0 {
            self
        } else {
            self.step(events[0]).next.run(events.drop_first())
        }
    }

    /// The report tells of a sink that was opened for a session.
    pub open spec fn opens_sink(self, event: IngestEvent) -> bool {
        self.wait is Configure && event is SinkConfigured && event->SinkConfigured_0 is Ready
    }

    /// The answer to the report is the plan that closes the sink.
    pub open spec fn closes_sink(self, event: IngestEvent) -> bool {
        self.step(event).action == IngestAction::RunSink(PlanKind::Finish)
    }

    /// How many sinks are open: one or none.
    pub open spec fn sinks_open(self) -> nat {
        if self.display.state is Configured {
            1
        } else {
            0
        }
    }

    /// How many sinks were opened in a run of reports.
    pub open spec fn sinks_opened(self, events: Seq<IngestEvent>) -> nat
        decreases events.len(),
    {
        if events.len() == 0 {
            0
        } else {
            let here: nat = if self.opens_sink(events[0]) {
                1
            } else {
                0
            };
            here + self.step(events[0]).next.sinks_opened(events.drop_first())
        }
    }

    /// How many finishing plans were handed out in a run of reports.
    pub open spec fn sinks_closed(self, events: Seq<IngestEvent>) -> nat
        decreases events.len(),
    {
        if events.len() == 0 {
            0
        } else {
            let here: nat = if self.closes_sink(events[0]) {
                1
            } else {
                0
            };
            here + self.step(events[0]).next.sinks_closed(events.drop_first())
        }
    }
}

/// One session at a time, and none left open. Whatever the program reports
/// and for however long, every sink that is opened gets its finishing plan
/// exactly once: the sinks opened and the finishing plans handed out differ
/// by the one sink that is open now, if one is. With it goes that the
/// receiver stays well formed throughout.
pub proof fn lemma_every_sink_is_closed_once(s: ReceiverView, events: Seq<IngestEvent>)
    requires
        s.wf(),
    ensures
        s.run(events).wf(),
        s.sinks_open() + s.sinks_opened(events) == s.sinks_closed(events) + s.run(events).sinks_open(),
        s.sinks_closed(events) <= s.sinks_open() + s.sinks_opened(events),
        s.sinks_open() + s.sinks_opened(events) <= s.sinks_closed(events) + 1,
    decreases events.len(),
{
    if events.len() > 0 {
        let next = s.step(events[0]).next;
        lemma_step_keeps_wf(s, events[0]);
        assert(s.sinks_open() + (if s.opens_sink(events[0]) {
            1nat
        } else {
            0nat
        }) == (if s.closes_sink(events[0]) {
            1nat
        } else {
            0nat
        }) + next.sinks_open());
        lemma_every_sink_is_closed_once(next, events.drop_first());
    }
}

impl ReceiverView {
    /// The session under way has had its configuration plan: one or none.
    pub open spec fn configurations_tried(self) -> nat {
        if self.wait is Configure || !(self.display.state is Unconfigured) {
            1
        } else {
            0
        }
    }

    /// How many configuration plans were handed out in a run of reports.
    pub open spec fn configurations(self, events: Seq<IngestEvent>) -> nat
        decreases events.len(),
    {
        if events.len() == 0 {
            0
        } else {
            let here: nat = if self.step(events[0]).action == IngestAction::RunSink(
                PlanKind::Configure,
            ) {
                1
            } else {
                0
            };
            here + self.step(events[0]).next.configurations(events.drop_first())
        }
    }

    /// How many sessions were started in a run of reports.
    pub open spec fn sessions(self, events: Seq<IngestEvent>) -> nat
        decreases events.len(),
    {
        if events.len() == 0 {
            0
        } else {
            let here: nat = if self.step(events[0]).action is Listen {
                1
            } else {
                0
            };
            here + self.step(events[0]).next.sessions(events.drop_first())
        }
    }
}

/// The sink is configured at most once in a session, however many frames
/// the session has: over any run of reports, the configuration plans handed
/// out are no more than the sessions started, and the session under way at
/// the start if it had none yet.
pub proof fn lemma_one_configuration_per_session(s: ReceiverView, events: Seq<IngestEvent>)
    requires
        s.wf(),
    ensures
        s.configurations_tried() + s.configurations(events) <= s.sessions(events) + s.run(
            events,
        ).configurations_tried(),
        s.configurations(events) <= s.sessions(events) + 1,
    decreases events.len(),
{
    if events.len() > 0 {
        let step = s.step(events[0]);
        lemma_step_keeps_wf(s, events[0]);
        lemma_receiver_configures_once(s, events[0]);
        lemma_one_configuration_per_session(step.next, events.drop_first());
    }
}

} // verus!
