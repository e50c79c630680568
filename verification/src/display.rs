//! The virtual camera sink: the output side of a session.
//!
//! The sink decides; it does not touch the camera device. Each decision is a
//! list of operations for the multimedia framework, to be run in order up to
//! the first that fails, and the outcome is reported back to the sink.

use vstd::prelude::*;
use crate::media::{CodecId, ColorRange, FrameInfo, PacketTimes, Pixel, StreamInfo, StreamParameters};
use crate::rational::{lemma_rescale_monotone, rescale, rescaled, Rational};

verus! {

/// The container format under which the device is opened.
pub const CONTAINER_FORMAT: &'static str = "video4linux2";

/// The time bases of a session, as read from the source stream.
#[derive(Clone, Copy, Debug, PartialEq, Eq, Structural)]
pub struct Timing {
    /// The time base of the timestamps that arrive with the frames.
    pub input: Rational,
    /// The time base in which the encoder counts.
    pub encoder: Rational,
    /// The frame rate that the encoder is told.
    pub frame_rate: Rational,
}

impl Timing {
    /// The timing that a source stream calls for. A stream with a constant
    /// frame rate is encoded at that rate, one tick per frame. A stream
    /// without one is encoded at 30 frames per second.
    pub open spec fn of_stream(stream: StreamInfo) -> Timing {
        if stream.avg_frame_rate.is_positive() {
            Timing {
                input: stream.time_base,
                encoder: stream.avg_frame_rate.inverse(),
                frame_rate: stream.avg_frame_rate,
            }
        } else {
            Timing {
                input: stream.time_base,
                encoder: Rational { num: 1, den: 30 },
                frame_rate: Rational { num: 30, den: 1 },
            }
        }
    }
}

/// What a frame converter is built for: frames of one geometry and format
/// in, frames of another out, scaled bilinearly.
#[derive(Clone, Copy, Debug, PartialEq, Eq, Structural)]
pub struct ConverterBinding {
    pub src_width: u32,
    pub src_height: u32,
    pub src_format: Pixel,
    pub dst_format: Pixel,
    pub dst_width: u32,
    pub dst_height: u32,
}

/// One operation of the multimedia framework on the sink.
#[derive(Clone, Copy, Debug, PartialEq, Eq, Structural)]
pub enum SinkOp {
    /// Open the output at the sink's device path, in `CONTAINER_FORMAT`.
    OpenOutput,
    /// Look the encoder up.
    FindEncoder { codec: CodecId },
    /// Make a video encoder context for the encoder found.
    CreateEncoder,
    /// Set the encoder's picture size and pixel format.
    SetEncoderGeometry { width: u32, height: u32, format: Pixel },
    SetEncoderFrameRate { rate: Rational },
    SetEncoderTimeBase { time_base: Rational },
    /// Open the encoder.
    OpenEncoder,
    /// Add the one output stream and copy the encoder's parameters onto it.
    AddStream,
    /// Write the container header.
    WriteHeader,
    /// Build the frame converter.
    CreateScaler { binding: ConverterBinding },
    /// Allocate an empty destination frame.
    AllocateFrame { format: Pixel, width: u32, height: u32 },
    /// Stamp the destination frame's color range.
    SetColorRange { range: ColorRange },
    /// Convert the incoming frame into the destination frame.
    RunScaler,
    /// Stamp the destination frame's presentation timestamp.
    SetPts { pts: i64 },
    /// Hand the destination frame to the encoder.
    SendFrame,
    /// Pull packets from the encoder until it has none ready; move the
    /// times of each from the time base `from` to the time base `to` with
    /// `PacketTimes::rescale_ts`, give it the stream index, and write it
    /// interleaved.
    DrainPackets { from: Rational, to: Rational, stream_index: usize },
    /// Tell the encoder that no frame follows.
    SendEof,
    /// Write the container trailer.
    WriteTrailer,
}

/// Why the sink could not do what was asked.
#[derive(Clone, Copy, Debug, PartialEq, Eq, Structural)]
pub enum SinkError {
    /// A frame arrived before the timing of the source stream was set.
    NotPrepared,
    /// The framework does not have the encoder.
    EncoderUnavailable,
    /// The device, the encoder or the output stream could not be opened.
    SinkInit,
    /// The frame converter could not be built or run.
    Convert,
    /// The encoder or the container refused a frame or a packet.
    Write,
    /// A frame arrived after the sink was finalized.
    Finalized,
}

/// The classes of the sink's errors.
#[derive(Clone, Copy, Debug, PartialEq, Eq, Structural)]
pub enum ErrorClass {
    /// The sink could not be configured.
    Config,
    /// A frame could not be converted.
    Convert,
    /// A frame or a packet could not be written.
    Write,
}

impl SinkError {
    /// The class of the error.
    pub open spec fn class_of(self) -> ErrorClass {
        match self {
            SinkError::NotPrepared => ErrorClass::Config,
            SinkError::EncoderUnavailable => ErrorClass::Config,
            SinkError::SinkInit => ErrorClass::Config,
            SinkError::Convert => ErrorClass::Convert,
            SinkError::Write => ErrorClass::Write,
            SinkError::Finalized => ErrorClass::Write,
        }
    }

    /// The error ends the session. Errors of configuration and of conversion
    /// do; a frame that could not be written is lost and the session goes on.
    pub open spec fn fatal(self) -> bool {
        !(self.class_of() is Write)
    }

    pub fn class(&self) -> (c: ErrorClass)
        ensures
            c == self.class_of(),
    {
        match self {
            SinkError::NotPrepared | SinkError::EncoderUnavailable | SinkError::SinkInit =>
                ErrorClass::Config,
            SinkError::Convert => ErrorClass::Convert,
            SinkError::Write | SinkError::Finalized => ErrorClass::Write,
        }
    }

    pub fn is_fatal(&self) -> (b: bool)
        ensures
            b == self.fatal(),
    {
        match self.class() {
            ErrorClass::Write => false,
            _ => true,
        }
    }

    /// The error in words.
    pub open spec fn text(self) -> Seq<char> {
        match self {
            SinkError::NotPrepared =>
                "No timing set. Call prepare_from_stream() before sending frames."@,
            SinkError::EncoderUnavailable => "Requested encoder not found"@,
            SinkError::SinkInit => "Could not open the virtual camera output"@,
            SinkError::Convert => "Could not convert the frame"@,
            SinkError::Write => "Could not encode or write the frame"@,
            SinkError::Finalized => "The virtual camera output is already finished"@,
        }
    }

    pub fn message(&self) -> (m: &'static str)
        ensures
            m@ == self.text(),
    {
        match self {
            SinkError::NotPrepared =>
                "No timing set. Call prepare_from_stream() before sending frames.",
            SinkError::EncoderUnavailable => "Requested encoder not found",
            SinkError::SinkInit => "Could not open the virtual camera output",
            SinkError::Convert => "Could not convert the frame",
            SinkError::Write => "Could not encode or write the frame",
            SinkError::Finalized => "The virtual camera output is already finished",
        }
    }
}

impl SinkOp {
    /// The operation builds or runs the frame converter.
    pub open spec fn converts(self) -> bool {
        self is CreateScaler || self is RunScaler
    }

    /// The error that a failure of `self` amounts to in a plan of the given
    /// kind. A converter that cannot be built or run is a conversion error
    /// wherever it happens. Any other failure while the sink is configured
    /// is one of configuration: the encoder is missing, or something could
    /// not be opened. Any other failure later is a failed write.
    pub open spec fn failure(self, kind: PlanKind) -> SinkError {
        if self.converts() {
            SinkError::Convert
        } else if kind is Configure {
            if self is FindEncoder {
                SinkError::EncoderUnavailable
            } else {
                SinkError::SinkInit
            }
        } else {
            SinkError::Write
        }
    }

    pub fn failure_kind(&self, kind: PlanKind) -> (e: SinkError)
        ensures
            e == self.failure(kind),
    {
        match (self, kind) {
            (SinkOp::CreateScaler { .. }, _) => SinkError::Convert,
            (SinkOp::RunScaler, _) => SinkError::Convert,
            (SinkOp::FindEncoder { .. }, PlanKind::Configure) => SinkError::EncoderUnavailable,
            (_, PlanKind::Configure) => SinkError::SinkInit,
            _ => SinkError::Write,
        }
    }
}

/// How running a configuration plan ended.
#[derive(Clone, Copy, Debug, PartialEq, Eq, Structural)]
pub enum ConfigOutcome {
    /// Every operation succeeded.
    Ready {
        /// The index of the output stream that was added.
        stream_index: usize,
        /// The time base that the container gave that stream.
        out_time_base: Rational,
        /// The codec of the encoder that was opened, if it names one.
        encoder: Option<CodecId>,
    },
    /// The operation that failed; none after it was run.
    Failed(SinkOp),
}

/// How running a plan for a frame or for finalization ended.
#[derive(Clone, Copy, Debug, PartialEq, Eq, Structural)]
pub enum PlanOutcome {
    Completed,
    /// The operation that failed; none after it was run.
    Failed(SinkOp),
}

/// What was settled when the sink was configured. It holds for the rest of
/// the session.
#[derive(Clone, Copy, Debug, PartialEq, Eq, Structural)]
pub struct Negotiated {
    pub stream_index: usize,
    pub out_time_base: Rational,
    pub encoder: Option<CodecId>,
    pub timing: Timing,
    pub converter: ConverterBinding,
}

/// Where the sink stands in its life.
#[derive(Clone, Copy, Debug, PartialEq, Eq, Structural)]
pub enum SinkState {
    /// Nothing is open.
    Unconfigured,
    /// Output, encoder and stream are open, the header is written and the
    /// frame converter is built.
    Configured(Negotiated),
    /// The encoder was flushed and the trailer written, or configuration
    /// failed. Nothing more is written.
    Finalized,
}

/// Which of the sink's plans a list of operations is.
#[derive(Clone, Copy, Debug, PartialEq, Eq, Structural)]
pub enum PlanKind {
    /// Opens the sink; its outcome goes to `VideoVirtualCamera::configured`.
    Configure,
    /// Writes one frame; its outcome goes to `VideoVirtualCamera::rendered`.
    Render,
    /// Closes the sink; its outcome goes to `VideoVirtualCamera::finished`.
    Finish,
}

/// A list of operations to run in order, up to the first that fails.
#[derive(Debug)]
pub struct SinkPlan {
    pub kind: PlanKind,
    pub ops: Vec<SinkOp>,
}

/// The sink as contracts see it.
pub struct CameraView {
    pub state: SinkState,
    pub timing: Option<Timing>,
    pub width: u32,
    pub height: u32,
    pub params: Option<StreamParameters>,
    pub device_path: Seq<char>,
    pub use_mjpeg: bool,
    pub target_pix_fmt: Pixel,
}

/// Whether an encoder with this codec is the MJPEG encoder.
pub open spec fn mjpeg_encoder(encoder: Option<CodecId>) -> bool {
    encoder == Some(CodecId::Mjpeg)
}

impl CameraView {
    /// The encoder that the mode flag selects.
    pub open spec fn codec(self) -> CodecId {
        if self.use_mjpeg {
            CodecId::Mjpeg
        } else {
            CodecId::RawVideo
        }
    }

    /// The converter from the geometry and format of `first` to the target.
    pub open spec fn converter_for(self, first: FrameInfo) -> ConverterBinding {
        ConverterBinding {
            src_width: first.width,
            src_height: first.height,
            src_format: first.format,
            dst_format: self.target_pix_fmt,
            dst_width: self.width,
            dst_height: self.height,
        }
    }

    /// The operations that open the sink, in their order. The encoder gets
    /// the target size, at least one pixel each way, and the target format.
    pub open spec fn configure_ops(self, timing: Timing, first: FrameInfo) -> Seq<SinkOp> {
        seq![
            SinkOp::OpenOutput,
            SinkOp::FindEncoder { codec: self.codec() },
            SinkOp::CreateEncoder,
            SinkOp::SetEncoderGeometry {
                width: if self.width >= 1 { self.width } else { 1 },
                height: if self.height >= 1 { self.height } else { 1 },
                format: self.target_pix_fmt,
            },
            SinkOp::SetEncoderFrameRate { rate: timing.frame_rate },
            SinkOp::SetEncoderTimeBase { time_base: timing.encoder },
            SinkOp::OpenEncoder,
            SinkOp::AddStream,
            SinkOp::WriteHeader,
            SinkOp::CreateScaler { binding: self.converter_for(first) },
        ]
    }

    /// The plan that opens the sink for the frame `first`, or the reason why
    /// there is none.
    pub open spec fn configure_plan(self, first: FrameInfo) -> Result<Seq<SinkOp>, SinkError> {
        match self.timing {
            Some(timing) => Ok(self.configure_ops(timing, first)),
            None => Err(SinkError::NotPrepared),
        }
    }

    /// The sink after the outcome of its configuration plan was reported.
    /// Only an unconfigured sink takes the report. Success makes it
    /// configured; failure finalizes it, so that nothing is tried again.
    pub open spec fn after_configure(self, first: FrameInfo, outcome: ConfigOutcome) -> CameraView {
        match (self.state, outcome, self.timing) {
            (
                SinkState::Unconfigured,
                ConfigOutcome::Ready { stream_index, out_time_base, encoder },
                Some(timing),
            ) => CameraView {
                state: SinkState::Configured(
                    Negotiated {
                        stream_index,
                        out_time_base,
                        encoder,
                        timing,
                        converter: self.converter_for(first),
                    },
                ),
                ..self
            },
            (SinkState::Unconfigured, _, _) => CameraView { state: SinkState::Finalized, ..self },
            _ => self,
        }
    }

    /// What reporting the outcome of a configuration plan returns.
    pub open spec fn configure_result(self, outcome: ConfigOutcome) -> Result<(), SinkError> {
        match (self.state, outcome, self.timing) {
            (SinkState::Unconfigured, ConfigOutcome::Ready { .. }, Some(_)) => Ok(()),
            (SinkState::Unconfigured, ConfigOutcome::Ready { .. }, None) => Err(
                SinkError::NotPrepared,
            ),
            (SinkState::Unconfigured, ConfigOutcome::Failed(op), _) => Err(
                op.failure(PlanKind::Configure),
            ),
            (SinkState::Configured(_), _, _) => Ok(()),
            (SinkState::Finalized, _, _) => Err(SinkError::Finalized),
        }
    }

    /// The plan that writes `frame`. An unconfigured sink has nothing to do.
    pub open spec fn render_plan(self, frame: FrameInfo) -> Result<Seq<SinkOp>, SinkError> {
        match self.state {
            SinkState::Unconfigured => Ok(Seq::empty()),
            SinkState::Configured(session) => Ok(session.render_ops(frame)),
            SinkState::Finalized => Err(SinkError::Finalized),
        }
    }

    /// What the sink asks for when `frame` arrives: its configuration while
    /// it is unconfigured, the writing of the frame from then on.
    pub open spec fn frame_plan(self, frame: FrameInfo) -> Result<(PlanKind, Seq<SinkOp>), SinkError> {
        match self.state {
            SinkState::Unconfigured => match self.configure_plan(frame) {
                Ok(ops) => Ok((PlanKind::Configure, ops)),
                Err(e) => Err(e),
            },
            _ => match self.render_plan(frame) {
                Ok(ops) => Ok((PlanKind::Render, ops)),
                Err(e) => Err(e),
            },
        }
    }

    /// The operations that close a configured sink: flush the encoder, write
    /// what it still holds, then the trailer. Any other sink has none.
    pub open spec fn finish_ops(self) -> Seq<SinkOp> {
        match self.state {
            SinkState::Configured(session) => seq![
                SinkOp::SendEof,
                session.drain(),
                SinkOp::WriteTrailer,
            ],
            _ => Seq::empty(),
        }
    }

    /// The sink after it was asked to finish.
    pub open spec fn after_finish(self) -> CameraView {
        if self.state is Configured {
            CameraView { state: SinkState::Finalized, ..self }
        } else {
            self
        }
    }
}

impl Negotiated {
    /// The pixel format of the frames handed to the encoder: the full-range
    /// counterpart of the target format for MJPEG, the target format itself
    /// otherwise.
    pub open spec fn dest_format(self) -> Pixel {
        if mjpeg_encoder(self.encoder) {
            self.converter.dst_format.full_range()
        } else {
            self.converter.dst_format
        }
    }

    /// The operations that write one frame, in their order. The destination
    /// frame takes the source frame's color range before the conversion and
    /// is marked full range after it, whatever the conversion made of it. A
    /// timestamp is set where the frame has one that the encoder's time base
    /// can express.
    pub open spec fn render_ops(self, frame: FrameInfo) -> Seq<SinkOp> {
        let head = seq![
            SinkOp::AllocateFrame {
                format: self.dest_format(),
                width: self.converter.dst_width,
                height: self.converter.dst_height,
            },
            SinkOp::SetColorRange { range: frame.color_range },
            SinkOp::RunScaler,
            SinkOp::SetColorRange { range: ColorRange::Full },
        ];
        let tail = seq![SinkOp::SendFrame, self.drain()];
        match self.frame_pts(frame) {
            Some(pts) => head + seq![SinkOp::SetPts { pts }] + tail,
            None => head + tail,
        }
    }

    /// The operation that writes out what the encoder has ready: every
    /// packet leaves the encoder's time base for that of the output stream.
    pub open spec fn drain(self) -> SinkOp {
        SinkOp::DrainPackets {
            from: self.timing.encoder,
            to: self.out_time_base,
            stream_index: self.stream_index,
        }
    }

    /// The timestamp of `frame` in the encoder's time base.
    pub open spec fn frame_pts(self, frame: FrameInfo) -> Option<i64> {
        match frame.pts {
            Some(pts) => rescaled(pts as int, self.timing.input, self.timing.encoder),
            None => None,
        }
    }
}

/// What the outcome of a plan for a frame or for finalization amounts to.
pub open spec fn plan_result(outcome: PlanOutcome) -> Result<(), SinkError> {
    match outcome {
        PlanOutcome::Completed => Ok(()),
        PlanOutcome::Failed(op) => Err(op.failure(PlanKind::Render)),
    }
}

/// The virtual camera sink of one session.
pub struct VideoVirtualCamera {
    state: SinkState,
    timing: Option<Timing>,
    width: u32,
    height: u32,
    params: Option<StreamParameters>,
    device_path: String,
    use_mjpeg: bool,
    target_pix_fmt: Pixel,
}

impl View for VideoVirtualCamera {
    type V = CameraView;

    closed spec fn view(&self) -> CameraView {
        CameraView {
            state: self.state,
            timing: self.timing,
            width: self.width,
            height: self.height,
            params: self.params,
            device_path: self.device_path@,
            use_mjpeg: self.use_mjpeg,
            target_pix_fmt: self.target_pix_fmt,
        }
    }
}

impl VideoVirtualCamera {
    /// A sink for the device at `device_path` with the given target size. It
    /// is unconfigured, encodes MJPEG and targets planar YUV 4:2:0.
    pub fn new(width: u32, height: u32, device_path: &str) -> (r: Result<Self, SinkError>)
        ensures
            r is Ok,
            r->Ok_0@ == (CameraView {
                state: SinkState::Unconfigured,
                timing: None,
                width,
                height,
                params: None,
                device_path: device_path@,
                use_mjpeg: true,
                target_pix_fmt: Pixel::Yuv420p,
            }),
    {
        Ok(
            VideoVirtualCamera {
                state: SinkState::Unconfigured,
                timing: None,
                width,
                height,
                params: None,
                device_path: device_path.to_owned(),
                use_mjpeg: true,
                target_pix_fmt: Pixel::Yuv420p,
            },
        )
    }

    /// Switches the sink to uncompressed output in packed YUV 4:2:2. A
    /// sink that is configured already goes on as it was configured.
    pub fn use_rawvideo_yuyv422(&mut self)
        ensures
            final(self)@ == (CameraView {
                use_mjpeg: false,
                target_pix_fmt: Pixel::Yuyv422,
                ..old(self)@
            }),
    {
        self.use_mjpeg = false;
        self.target_pix_fmt = Pixel::Yuyv422;
    }

    /// Keeps the codec parameters of the source stream.
    pub fn set_parameters(&mut self, params: StreamParameters)
        ensures
            final(self)@ == (CameraView { params: Some(params), ..old(self)@ }),
    {
        self.params = Some(params);
    }

    /// Takes the timing of the session from the source stream. With a
    /// constant frame rate `R` the encoder counts in ticks of `1 / R`; without
    /// one it runs at 30 frames per second and counts in ticks of `1 / 30`.
    /// A sink that is configured already keeps the timing it was configured
    /// with.
    pub fn prepare_from_stream(&mut self, in_stream: &StreamInfo)
        ensures
            final(self)@ == (CameraView {
                timing: Some(Timing::of_stream(*in_stream)),
                ..old(self)@
            }),
            final(self)@.timing->0.input == in_stream.time_base,
            in_stream.avg_frame_rate.is_positive() ==> {
                &&& final(self)@.timing->0.frame_rate == in_stream.avg_frame_rate
                &&& final(self)@.timing->0.encoder == in_stream.avg_frame_rate.inverse()
            },
            !in_stream.avg_frame_rate.is_positive() ==> {
                &&& final(self)@.timing->0.frame_rate == (Rational { num: 30, den: 1 })
                &&& final(self)@.timing->0.encoder == (Rational { num: 1, den: 30 })
            },
    {
        let in_tb = in_stream.time_base;
        let avg_fr = in_stream.avg_frame_rate;
        let has_cfr = avg_fr.numerator() > 0 && avg_fr.denominator() > 0;
        if has_cfr {
            self.timing = Some(
                Timing {
                    input: in_tb,
                    encoder: Rational::new(avg_fr.denominator(), avg_fr.numerator()),
                    frame_rate: avg_fr,
                },
            );
        } else {
            self.timing = Some(
                Timing {
                    input: in_tb,
                    encoder: Rational::new(1, 30),
                    frame_rate: Rational::new(30, 1),
                },
            );
        }
    }

    /// What to do with a frame that arrived: the plan that configures the
    /// sink while it is unconfigured, the plan that writes the frame once it
    /// is configured. The sink itself changes only when an outcome is
    /// reported.
    pub fn show_frame(&self, frame: &FrameInfo) -> (r: Result<SinkPlan, SinkError>)
        ensures
            match self@.frame_plan(*frame) {
                Ok((kind, ops)) => r is Ok && r->Ok_0.kind == kind && r->Ok_0.ops@ == ops,
                Err(e) => r is Err && r->Err_0 == e,
            },
            (r is Ok && r->Ok_0.kind is Configure) <==> (self@.state is Unconfigured
                && self@.timing is Some),
    {
        match self.state {
            SinkState::Unconfigured => match self.init_virtual_camera(frame) {
                Ok(ops) => Ok(SinkPlan { kind: PlanKind::Configure, ops }),
                Err(e) => Err(e),
            },
            _ => match self.render_frame(frame) {
                Ok(ops) => Ok(SinkPlan { kind: PlanKind::Render, ops }),
                Err(e) => Err(e),
            },
        }
    }

    /// The converter that the session uses: the one already built, which is
    /// never rebuilt, or else one from the given source to the target.
    pub fn ensure_scaler(&self, src_w: u32, src_h: u32, src_fmt: Pixel) -> (binding:
        ConverterBinding)
        ensures
            binding == match self@.state {
                SinkState::Configured(session) => session.converter,
                _ => ConverterBinding {
                    src_width: src_w,
                    src_height: src_h,
                    src_format: src_fmt,
                    dst_format: self@.target_pix_fmt,
                    dst_width: self@.width,
                    dst_height: self@.height,
                },
            },
    {
        match self.state {
            SinkState::Configured(session) => session.converter,
            _ => ConverterBinding {
                src_width: src_w,
                src_height: src_h,
                src_format: src_fmt,
                dst_format: self.target_pix_fmt,
                dst_width: self.width,
                dst_height: self.height,
            },
        }
    }

    /// The plan that opens the sink for its first frame. It fails where the
    /// timing of the source stream was never set.
    pub fn init_virtual_camera(&self, first_frame: &FrameInfo) -> (r: Result<
        Vec<SinkOp>,
        SinkError,
    >)
        ensures
            match self@.configure_plan(*first_frame) {
                Ok(ops) => r is Ok && r->Ok_0@ == ops,
                Err(e) => r is Err && r->Err_0 == e,
            },
            r is Ok <==> self@.timing is Some,
    {
        let timing = match self.timing {
            Some(t) => t,
            None => {
                return Err(SinkError::NotPrepared);
            },
        };
        let codec_id = if self.use_mjpeg {
            CodecId::Mjpeg
        } else {
            CodecId::RawVideo
        };
        let binding = ConverterBinding {
            src_width: first_frame.width,
            src_height: first_frame.height,
            src_format: first_frame.format,
            dst_format: self.target_pix_fmt,
            dst_width: self.width,
            dst_height: self.height,
        };
        let ops = vec![
            SinkOp::OpenOutput,
            SinkOp::FindEncoder { codec: codec_id },
            SinkOp::CreateEncoder,
            SinkOp::SetEncoderGeometry {
                width: if self.width >= 1 { self.width } else { 1 },
                height: if self.height >= 1 { self.height } else { 1 },
                format: self.target_pix_fmt,
            },
            SinkOp::SetEncoderFrameRate { rate: timing.frame_rate },
            SinkOp::SetEncoderTimeBase { time_base: timing.encoder },
            SinkOp::OpenEncoder,
            SinkOp::AddStream,
            SinkOp::WriteHeader,
            SinkOp::CreateScaler { binding },
        ];
        assert(ops@ =~= self@.configure_ops(timing, *first_frame));
        Ok(ops)
    }

    /// Takes the outcome of the configuration plan that was issued for
    /// `first_frame`. On success the sink is configured, for good. On failure
    /// it is finalized and says why: nothing is tried a second time.
    pub fn configured(&mut self, first_frame: &FrameInfo, outcome: &ConfigOutcome) -> (r: Result<
        (),
        SinkError,
    >)
        ensures
            final(self)@ == old(self)@.after_configure(*first_frame, *outcome),
            r == old(self)@.configure_result(*outcome),
            r is Err && old(self)@.state is Unconfigured ==> r->Err_0.fatal(),
            old(self)@.state is Unconfigured ==> (r is Ok <==> final(self)@.state is Configured),
            old(self)@.state is Unconfigured ==> (r is Err <==> final(self)@.state is Finalized),
            !(final(self)@.state is Unconfigured),
    {
        match self.state {
            SinkState::Unconfigured => {},
            SinkState::Configured(_) => {
                return Ok(());
            },
            SinkState::Finalized => {
                return Err(SinkError::Finalized);
            },
        }
        match *outcome {
            ConfigOutcome::Ready { stream_index, out_time_base, encoder } => match self.timing {
                Some(timing) => {
                    let converter = self.ensure_scaler(
                        first_frame.width,
                        first_frame.height,
                        first_frame.format,
                    );
                    self.state = SinkState::Configured(
                        Negotiated { stream_index, out_time_base, encoder, timing, converter },
                    );
                    Ok(())
                },
                None => {
                    self.state = SinkState::Finalized;
                    Err(SinkError::NotPrepared)
                },
            },
            ConfigOutcome::Failed(op) => {
                self.state = SinkState::Finalized;
                Err(op.failure_kind(PlanKind::Configure))
            },
        }
    }

    /// The format that an MJPEG encoder is fed in place of `pix`.
    pub fn to_full_range_for_mjpeg(pix: Pixel) -> (r: Pixel)
        ensures
            r == pix.full_range(),
    {
        match pix {
            Pixel::Yuv420p => Pixel::Yuvj420p,
            Pixel::Yuv422p => Pixel::Yuvj422p,
            Pixel::Yuv444p => Pixel::Yuvj444p,
            Pixel::Nv12 | Pixel::Nv21 => Pixel::Yuvj420p,
            Pixel::Yuvj420p | Pixel::Yuvj422p | Pixel::Yuvj444p => pix,
            other => other,
        }
    }

    /// Whether the encoder that was opened is the MJPEG encoder. An encoder
    /// that names no codec is not.
    pub fn is_mjpeg_encoder(encoder: Option<CodecId>) -> (b: bool)
        ensures
            b == mjpeg_encoder(encoder),
    {
        match encoder {
            Some(CodecId::Mjpeg) => true,
            _ => false,
        }
    }

    /// The plan that writes one frame: convert it to the target size and
    /// format, mark it full range, rebase its timestamp from the input time
    /// base to the encoder's, encode it and write the packets that come out.
    /// An unconfigured sink has nothing to do; a finalized one refuses.
    pub fn render_frame(&self, frame: &FrameInfo) -> (r: Result<Vec<SinkOp>, SinkError>)
        ensures
            match self@.render_plan(*frame) {
                Ok(ops) => r is Ok && r->Ok_0@ == ops,
                Err(e) => r is Err && r->Err_0 == e,
            },
            r is Err <==> self@.state is Finalized,
    {
        let session = match self.state {
            SinkState::Unconfigured => {
                return Ok(Vec::new());
            },
            SinkState::Configured(session) => session,
            SinkState::Finalized => {
                return Err(SinkError::Finalized);
            },
        };
        let target = session.converter;
        let dest_pix_fmt = if Self::is_mjpeg_encoder(session.encoder) {
            Self::to_full_range_for_mjpeg(target.dst_format)
        } else {
            target.dst_format
        };
        let mut ops = vec![
            SinkOp::AllocateFrame {
                format: dest_pix_fmt,
                width: target.dst_width,
                height: target.dst_height,
            },
            SinkOp::SetColorRange { range: frame.color_range },
            SinkOp::RunScaler,
            SinkOp::SetColorRange { range: ColorRange::Full },
        ];
        if let Some(src_pts) = frame.pts {
            if let Some(dst_pts) = rescale(src_pts, session.timing.input, session.timing.encoder) {
                ops.push(SinkOp::SetPts { pts: dst_pts });
            }
        }
        ops.push(SinkOp::SendFrame);
        ops.push(
            SinkOp::DrainPackets {
                from: session.timing.encoder,
                to: session.out_time_base,
                stream_index: session.stream_index,
            },
        );
        assert(ops@ =~= session.render_ops(*frame));
        Ok(ops)
    }

    /// What the outcome of a plan that wrote a frame amounts to: a failed
    /// conversion, a failed write, or success.
    pub fn rendered(outcome: &PlanOutcome) -> (r: Result<(), SinkError>)
        ensures
            r == plan_result(*outcome),
            r is Ok <==> *outcome is Completed,
    {
        match *outcome {
            PlanOutcome::Completed => Ok(()),
            PlanOutcome::Failed(op) => Err(op.failure_kind(PlanKind::Render)),
        }
    }

    /// Closes the sink. A configured sink becomes finalized and hands out the
    /// plan that flushes the encoder and writes the trailer. Any other sink
    /// stays as it is and hands out an empty plan, so a second call does
    /// nothing.
    pub fn finish(&mut self) -> (ops: Vec<SinkOp>)
        ensures
            final(self)@ == old(self)@.after_finish(),
            ops@ == old(self)@.finish_ops(),
            !(final(self)@.state is Configured),
            !(old(self)@.state is Configured) ==> ops@.len() == 0 && final(self)@ == old(self)@,
    {
        match self.state {
            SinkState::Configured(session) => {
                self.state = SinkState::Finalized;
                let ops = vec![
                    SinkOp::SendEof,
                    SinkOp::DrainPackets {
                        from: session.timing.encoder,
                        to: session.out_time_base,
                        stream_index: session.stream_index,
                    },
                    SinkOp::WriteTrailer,
                ];
                assert(ops@ =~= old(self)@.finish_ops());
                ops
            },
            _ => Vec::new(),
        }
    }

    /// What the outcome of the finishing plan amounts to. The sink stays
    /// finalized either way.
    pub fn finished(outcome: &PlanOutcome) -> (r: Result<(), SinkError>)
        ensures
            r == plan_result(*outcome),
            r is Ok <==> *outcome is Completed,
    {
        Self::rendered(outcome)
    }

    pub fn state(&self) -> (s: SinkState)
        ensures
            s == self@.state,
    {
        self.state
    }

    pub fn device_path(&self) -> (path: &str)
        ensures
            path@ == self@.device_path,
    {
        self.device_path.as_str()
    }
}

impl SinkState {
    /// How far the sink has come: no step of it ever lowers this.
    pub open spec fn rank(self) -> nat {
        match self {
            SinkState::Unconfigured => 0,
            SinkState::Configured(_) => 1,
            SinkState::Finalized => 2,
        }
    }
}

impl CameraView {
    /// The arrival of `frame` makes the sink issue its configuration plan.
    pub open spec fn issues_configuration(self, frame: FrameInfo) -> bool {
        self.frame_plan(frame) is Ok && self.frame_plan(frame)->Ok_0.0 is Configure
    }

    /// The sink after `frame` arrived and the framework did what was asked:
    /// where the plan was a configuration, `outcome` was reported for it.
    pub open spec fn after_frame(self, frame: FrameInfo, outcome: ConfigOutcome) -> CameraView {
        if self.issues_configuration(frame) {
            self.after_configure(frame, outcome)
        } else {
            self
        }
    }

    /// How many configuration plans the sink issues while `frames` arrive one
    /// after another, `outcomes[i]` being what the framework would report for
    /// a configuration issued at frame `i`.
    pub open spec fn configurations(
        self,
        frames: Seq<FrameInfo>,
        outcomes: Seq<ConfigOutcome>,
    ) -> nat
        decreases frames.len(),
    {
        if frames.len() == 0 || outcomes.len() != frames.len() {
            0
        } else {
            let issued: nat = if self.issues_configuration(frames[0]) {
                1
            } else {
                0
            };
            issued + self.after_frame(frames[0], outcomes[0]).configurations(
                frames.drop_first(),
                outcomes.drop_first(),
            )
        }
    }
}

/// The sink moves through its life in one direction only: no report and no
/// call takes it back to an earlier state.
pub proof fn lemma_lifecycle_forward(cam: CameraView, frame: FrameInfo, outcome: ConfigOutcome)
    ensures
        cam.state.rank() <= cam.after_configure(frame, outcome).state.rank(),
        cam.state.rank() <= cam.after_frame(frame, outcome).state.rank(),
        cam.state.rank() <= cam.after_finish().state.rank(),
        !(cam.after_configure(frame, outcome).state is Unconfigured),
{
}

/// A sink that has left the unconfigured state never issues a configuration
/// plan again.
pub proof fn lemma_no_second_configuration(
    cam: CameraView,
    frames: Seq<FrameInfo>,
    outcomes: Seq<ConfigOutcome>,
)
    requires
        !(cam.state is Unconfigured),
    ensures
        cam.configurations(frames, outcomes) == 0,
    decreases frames.len(),
{
    if frames.len() > 0 && outcomes.len() == frames.len() {
        lemma_no_second_configuration(
            cam.after_frame(frames[0], outcomes[0]),
            frames.drop_first(),
            outcomes.drop_first(),
        );
    }
}

/// The sink is configured once in a session, however many frames are
/// written: over any run of frames at most one configuration plan is issued,
/// whether it succeeds or fails, and a fresh sink whose timing is set issues
/// exactly one, for the first frame.
pub proof fn lemma_configured_once(
    cam: CameraView,
    frames: Seq<FrameInfo>,
    outcomes: Seq<ConfigOutcome>,
)
    requires
        outcomes.len() == frames.len(),
    ensures
        cam.configurations(frames, outcomes) <= 1,
        cam.state is Unconfigured && cam.timing is Some && frames.len() >= 1
            ==> cam.configurations(frames, outcomes) == 1 && cam.issues_configuration(frames[0]),
    decreases frames.len(),
{
    if frames.len() > 0 {
        let next = cam.after_frame(frames[0], outcomes[0]);
        if cam.issues_configuration(frames[0]) {
            lemma_no_second_configuration(next, frames.drop_first(), outcomes.drop_first());
        } else {
            lemma_configured_once(next, frames.drop_first(), outcomes.drop_first());
        }
    }
}

/// Finishing twice is finishing once: the second call hands out no
/// operation, so the encoder is flushed once and the trailer written once,
/// and it leaves the sink as the first call left it.
pub proof fn lemma_finish_idempotent(cam: CameraView)
    ensures
        cam.after_finish().finish_ops() =~= Seq::<SinkOp>::empty(),
        cam.after_finish().after_finish() == cam.after_finish(),
        (cam.finish_ops() + cam.after_finish().finish_ops()).filter(
            |op: SinkOp| op is WriteTrailer,
        ).len() <= 1,
{
    let both = cam.finish_ops() + cam.after_finish().finish_ops();
    assert(both =~= cam.finish_ops());
    let trailer = |op: SinkOp| op is WriteTrailer;
    if cam.state is Configured {
        let drain = cam.state->Configured_0.drain();
        let ops = seq![SinkOp::SendEof, drain, SinkOp::WriteTrailer];
        assert(both =~= ops);
        assert(ops.filter(trailer).len() <= 1) by {
            reveal_with_fuel(Seq::filter, 4);
            assert(ops.drop_last() =~= seq![SinkOp::SendEof, drain]);
            assert(ops.drop_last().drop_last() =~= seq![SinkOp::SendEof]);
            assert(ops.drop_last().drop_last().drop_last() =~= Seq::<SinkOp>::empty());
        }
    } else {
        assert(both =~= Seq::<SinkOp>::empty());
        reveal_with_fuel(Seq::filter, 1);
    }
}

/// Whatever the source stream says of its frame rate, the encoder gets a
/// positive frame rate and counts in ticks of one frame.
pub proof fn lemma_encoder_ticks_once_per_frame(stream: StreamInfo)
    ensures
        Timing::of_stream(stream).frame_rate.is_positive(),
        Timing::of_stream(stream).encoder.is_positive(),
        Timing::of_stream(stream).encoder == Timing::of_stream(stream).frame_rate.inverse(),
        Timing::of_stream(stream).input == stream.time_base,
{
}

/// The encoder is set up as the source stream calls for. For a stream with
/// a constant frame rate `R` it is told the rate `R` and the time base
/// `1 / R`; for any other it is told 30 frames per second and the time base
/// `1 / 30`.
pub proof fn lemma_encoder_follows_the_stream(cam: CameraView, stream: StreamInfo, first: FrameInfo)
    requires
        cam.timing == Some(Timing::of_stream(stream)),
    ensures
        cam.configure_plan(first) is Ok,
        stream.avg_frame_rate.is_positive() ==> {
            &&& cam.configure_plan(first)->Ok_0[4] == (SinkOp::SetEncoderFrameRate {
                rate: stream.avg_frame_rate,
            })
            &&& cam.configure_plan(first)->Ok_0[5] == (SinkOp::SetEncoderTimeBase {
                time_base: stream.avg_frame_rate.inverse(),
            })
        },
        !stream.avg_frame_rate.is_positive() ==> {
            &&& cam.configure_plan(first)->Ok_0[4] == (SinkOp::SetEncoderFrameRate {
                rate: Rational { num: 30, den: 1 },
            })
            &&& cam.configure_plan(first)->Ok_0[5] == (SinkOp::SetEncoderTimeBase {
                time_base: Rational { num: 1, den: 30 },
            })
        },
{
}

/// Every frame reaches the encoder in the destination format and size,
/// converted, and marked full range: the mark is set after the conversion
/// and nothing sets it again before the frame is sent.
pub proof fn lemma_frames_are_sent_full_range(session: Negotiated, frame: FrameInfo)
    ensures
        ({
            let ops = session.render_ops(frame);
            let send = ops.len() - 2;
            &&& ops[0] == (SinkOp::AllocateFrame {
                format: session.dest_format(),
                width: session.converter.dst_width,
                height: session.converter.dst_height,
            })
            &&& ops[2] == SinkOp::RunScaler
            &&& ops[3] == (SinkOp::SetColorRange { range: ColorRange::Full })
            &&& ops[send] == SinkOp::SendFrame
            &&& ops[send + 1] == session.drain()
            &&& forall|i: int| 3 < i < ops.len() ==> !(#[trigger] ops[i] is SetColorRange)
            &&& forall|i: int| 0 <= i < send ==> !(#[trigger] ops[i] is SendFrame)
        }),
{
}

/// Nothing is renegotiated in the middle of a session: once the sink is
/// configured, its plans follow from what was settled then and from the
/// frame alone. Whatever is set on the sink later is of no account, and the
/// target is the one the converter was built for.
pub proof fn lemma_no_renegotiation(cam: CameraView, other: CameraView, frame: FrameInfo)
    requires
        cam.state is Configured,
        other.state == cam.state,
    ensures
        other.render_plan(frame) == cam.render_plan(frame),
        other.frame_plan(frame) == cam.frame_plan(frame),
        other.finish_ops() == cam.finish_ops(),
        cam.render_plan(frame) is Ok,
        cam.render_plan(frame)->Ok_0[0] == (SinkOp::AllocateFrame {
            format: cam.state->Configured_0.dest_format(),
            width: cam.state->Configured_0.converter.dst_width,
            height: cam.state->Configured_0.converter.dst_height,
        }),
{
}

/// Timestamps keep their order on the way through the sink: of two frames,
/// the later one is encoded with the later timestamp, and of two packets the
/// later one is written with the later timestamp.
pub proof fn lemma_timestamps_stay_ordered(cam: CameraView, first: i64, second: i64)
    requires
        first <= second,
        cam.state is Configured,
    ensures
        ({
            let session = cam.state->Configured_0;
            let a = rescaled(first as int, session.timing.input, session.timing.encoder);
            let b = rescaled(second as int, session.timing.input, session.timing.encoder);
            a is Some && b is Some ==> a->0 <= b->0
        }),
        ({
            let session = cam.state->Configured_0;
            let from = session.drain()->from;
            let to = session.drain()->to;
            let a = (PacketTimes { pts: Some(first), dts: None, duration: 0 }).rebased(from, to).pts;
            let b = (PacketTimes { pts: Some(second), dts: None, duration: 0 }).rebased(from, to).pts;
            a is Some && b is Some ==> a->0 <= b->0
        }),
{
    let session = cam.state->Configured_0;
    if rescaled(first as int, session.timing.input, session.timing.encoder) is Some && rescaled(
        second as int,
        session.timing.input,
        session.timing.encoder,
    ) is Some {
        lemma_rescale_monotone(first, second, session.timing.input, session.timing.encoder);
    }
    if rescaled(first as int, session.timing.encoder, session.out_time_base) is Some && rescaled(
        second as int,
        session.timing.encoder,
        session.out_time_base,
    ) is Some {
        lemma_rescale_monotone(first, second, session.timing.encoder, session.out_time_base);
    }
}

} // verus!
