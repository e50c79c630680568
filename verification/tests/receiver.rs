use video_receiver::decode::DecodeSignal;
use video_receiver::display::{
    ConfigOutcome, PlanKind, PlanOutcome, SinkError, SinkOp, SinkState,
};
use video_receiver::media::{
    CodecId, ColorRange, FrameInfo, MediaType, PacketTimes, Pixel, StreamInfo, StreamParameters,
};
use video_receiver::rational::Rational;
use video_receiver::receiver::{
    find_video_stream, listen_url, IngestAction, IngestEvent, Notice, Phase, Step, VideoReceiver,
    LISTEN_OPTION, LISTEN_PREFIX, LISTEN_VALUE,
};

fn q(num: i32, den: i32) -> Rational {
    Rational::new(num, den)
}

fn stream(index: usize, medium: MediaType) -> StreamInfo {
    StreamInfo {
        index,
        time_base: q(1, 90000),
        avg_frame_rate: q(25, 1),
        parameters: StreamParameters { medium },
    }
}

fn frame(pts: Option<i64>) -> FrameInfo {
    FrameInfo {
        width: 640,
        height: 480,
        format: Pixel::Yuv420p,
        color_range: ColorRange::Limited,
        pts,
    }
}

fn drain() -> SinkOp {
    SinkOp::DrainPackets { from: q(1, 25), to: q(1, 1000), stream_index: 0 }
}

fn ready(encoder: CodecId) -> ConfigOutcome {
    ConfigOutcome::Ready { stream_index: 0, out_time_base: q(1, 1000), encoder: Some(encoder) }
}

/// A receiver that has picked the video stream 0 and waits for a packet.
fn streaming(mjpeg: bool) -> VideoReceiver {
    let mut rx = VideoReceiver::new(320, 240);
    rx.set_mjpeg(mjpeg);
    rx.handle_connection("/dev/video2", 8080);
    rx.step(IngestEvent::Connected);
    rx.step(IngestEvent::Streams(vec![stream(0, MediaType::Video)]));
    let step = rx.step(IngestEvent::DecoderReady);
    assert_eq!(step.action, IngestAction::ReadPacket);
    rx
}

/// A receiver whose sink is configured and that waits for the next frame.
fn writing(mjpeg: bool) -> VideoReceiver {
    let mut rx = streaming(mjpeg);
    rx.step(IngestEvent::Packet { stream: 0 });
    rx.step(IngestEvent::Submitted(Ok(())));
    let step = rx.step(IngestEvent::Frame(frame(Some(0))));
    assert_eq!(step.action, IngestAction::RunSink(PlanKind::Configure));
    let codec = if mjpeg { CodecId::Mjpeg } else { CodecId::RawVideo };
    let step = rx.step(IngestEvent::SinkConfigured(ready(codec)));
    assert_eq!(step.action, IngestAction::RunSink(PlanKind::Render));
    let step = rx.step(IngestEvent::SinkDone(PlanOutcome::Completed));
    assert_eq!(step.action, IngestAction::ReceiveFrame);
    rx
}

/// A stand-in for the sockets and the multimedia framework.
struct Framework {
    streams: Vec<StreamInfo>,
    packets: Vec<(usize, FrameInfo)>,
    next_packet: usize,
    current: Option<FrameInfo>,
    decoded: Vec<FrameInfo>,
    eof_sent: bool,
    shown: Option<FrameInfo>,
    dest_range: ColorRange,
    dest_pts: Option<i64>,
    encoded: Vec<PacketTimes>,
    written: Vec<(PacketTimes, ColorRange)>,
    opened: usize,
    headers: usize,
    scalers: usize,
    trailers: usize,
    eofs_to_encoder: usize,
    notices: Vec<Notice>,
    listens: usize,
}

impl Framework {
    fn new(streams: Vec<StreamInfo>, packets: Vec<(usize, FrameInfo)>) -> Framework {
        Framework {
            streams,
            packets,
            next_packet: 0,
            current: None,
            decoded: Vec::new(),
            eof_sent: false,
            shown: None,
            dest_range: ColorRange::Unspecified,
            dest_pts: None,
            encoded: Vec::new(),
            written: Vec::new(),
            opened: 0,
            headers: 0,
            scalers: 0,
            trailers: 0,
            eofs_to_encoder: 0,
            notices: Vec::new(),
            listens: 0,
        }
    }

    fn run_sink(&mut self, ops: &[SinkOp]) {
        for op in ops {
            match *op {
                SinkOp::OpenOutput => self.opened += 1,
                SinkOp::WriteHeader => self.headers += 1,
                SinkOp::CreateScaler { .. } => self.scalers += 1,
                SinkOp::AllocateFrame { .. } => {
                    self.dest_range = ColorRange::Unspecified;
                    self.dest_pts = None;
                }
                SinkOp::SetColorRange { range } => self.dest_range = range,
                SinkOp::SetPts { pts } => self.dest_pts = Some(pts),
                SinkOp::SendFrame => self.encoded.push(PacketTimes {
                    pts: self.dest_pts,
                    dts: self.dest_pts,
                    duration: 1,
                }),
                SinkOp::DrainPackets { from, to, stream_index } => {
                    assert_eq!(stream_index, 0);
                    for packet in self.encoded.drain(..) {
                        self.written.push((packet.rescale_ts(from, to), self.dest_range));
                    }
                }
                SinkOp::SendEof => self.eofs_to_encoder += 1,
                SinkOp::WriteTrailer => self.trailers += 1,
                _ => {}
            }
        }
    }

    /// Carries one step out. `None` where the receiver listens again.
    fn perform(&mut self, step: &Step, codec: CodecId) -> Option<IngestEvent> {
        if let Some(notice) = step.notice {
            self.notices.push(notice);
        }
        Some(match step.action {
            IngestAction::Listen { .. } => {
                self.listens += 1;
                return None;
            }
            IngestAction::ListStreams => IngestEvent::Streams(self.streams.clone()),
            IngestAction::OpenDecoder { .. } => IngestEvent::DecoderReady,
            IngestAction::ReadPacket => {
                if self.next_packet < self.packets.len() {
                    let (stream, frame) = self.packets[self.next_packet];
                    self.next_packet += 1;
                    self.current = Some(frame);
                    IngestEvent::Packet { stream }
                } else {
                    IngestEvent::EndOfInput
                }
            }
            IngestAction::SendPacket => {
                self.decoded.push(self.current.take().unwrap());
                IngestEvent::Submitted(Ok(()))
            }
            IngestAction::ReceiveFrame => {
                if self.decoded.is_empty() {
                    IngestEvent::NoFrame(if self.eof_sent {
                        DecodeSignal::Eof
                    } else {
                        DecodeSignal::Again
                    })
                } else {
                    let frame = self.decoded.remove(0);
                    self.shown = Some(frame);
                    IngestEvent::Frame(frame)
                }
            }
            IngestAction::SendEof => {
                self.eof_sent = true;
                IngestEvent::EofSent(Ok(()))
            }
            IngestAction::RunSink(kind) => {
                self.run_sink(&step.ops);
                match kind {
                    PlanKind::Configure => IngestEvent::SinkConfigured(ready(codec)),
                    _ => IngestEvent::SinkDone(PlanOutcome::Completed),
                }
            }
        })
    }

    /// Serves one connection from the first answer to `Listen` to the next
    /// `Listen`.
    fn serve(&mut self, rx: &mut VideoReceiver, codec: CodecId) {
        let mut step = rx.step(IngestEvent::Connected);
        while let Some(event) = self.perform(&step, codec) {
            step = rx.step(event);
        }
    }
}

#[test]
fn the_listening_address_names_the_port() {
    assert_eq!(listen_url(8080), "tcp://0.0.0.0:8080");
    assert_eq!(listen_url(0), "tcp://0.0.0.0:0");
    assert_eq!(listen_url(7), "tcp://0.0.0.0:7");
    assert_eq!(listen_url(10), "tcp://0.0.0.0:10");
    assert_eq!(listen_url(100), "tcp://0.0.0.0:100");
    assert_eq!(listen_url(1009), "tcp://0.0.0.0:1009");
    assert_eq!(listen_url(65535), "tcp://0.0.0.0:65535");
    assert_eq!(LISTEN_PREFIX, "tcp://0.0.0.0:");
    assert_eq!((LISTEN_OPTION, LISTEN_VALUE), ("listen", "1"));
}

#[test]
fn the_listening_address_agrees_with_formatting() {
    for port in (0..=u16::MAX).step_by(37) {
        assert_eq!(listen_url(port), format!("tcp://0.0.0.0:{}", port));
    }
}

#[test]
fn the_first_video_stream_is_picked() {
    let streams = vec![
        stream(0, MediaType::Audio),
        stream(1, MediaType::Data),
        stream(2, MediaType::Video),
        stream(3, MediaType::Video),
    ];
    assert_eq!(find_video_stream(&streams), Some(streams[2]));
    assert_eq!(find_video_stream(&streams[..2].to_vec()), None);
    assert_eq!(find_video_stream(&Vec::new()), None);
    let others = vec![
        stream(0, MediaType::Unknown),
        stream(1, MediaType::Subtitle),
        stream(2, MediaType::Attachment),
    ];
    assert_eq!(find_video_stream(&others), None);
}

#[test]
fn a_new_receiver_is_idle_and_listens_when_started() {
    let mut rx = VideoReceiver::new(480, 640);
    assert_eq!(rx.phase(), Phase::Listening);
    let step = rx.handle_connection("/dev/video2", 8080);
    assert_eq!(step.action, IngestAction::Listen { port: 8080 });
    assert!(step.ops.is_empty());
    assert_eq!(step.notice, None);
    assert_eq!(rx.phase(), Phase::Listening);
    assert_eq!(rx.display().device_path(), "/dev/video2");
    assert_eq!(rx.display().state(), SinkState::Unconfigured);
}

#[test]
fn the_phases_of_a_session() {
    let mut rx = VideoReceiver::new(320, 240);
    rx.handle_connection("/dev/video2", 8080);
    assert_eq!(rx.phase(), Phase::Listening);
    assert_eq!(rx.step(IngestEvent::Connected).action, IngestAction::ListStreams);
    assert_eq!(rx.phase(), Phase::Connected);
    let streams = vec![stream(0, MediaType::Audio), stream(1, MediaType::Video)];
    assert_eq!(
        rx.step(IngestEvent::Streams(streams)).action,
        IngestAction::OpenDecoder { stream: 1 }
    );
    assert_eq!(rx.phase(), Phase::StreamDiscovery);
    assert_eq!(rx.step(IngestEvent::DecoderReady).action, IngestAction::ReadPacket);
    assert_eq!(rx.phase(), Phase::Streaming);
    assert_eq!(rx.step(IngestEvent::Packet { stream: 1 }).action, IngestAction::SendPacket);
    assert_eq!(rx.step(IngestEvent::Submitted(Ok(()))).action, IngestAction::ReceiveFrame);
    assert_eq!(rx.phase(), Phase::Streaming);
    assert_eq!(
        rx.step(IngestEvent::NoFrame(DecodeSignal::Again)).action,
        IngestAction::ReadPacket
    );
    assert_eq!(rx.step(IngestEvent::EndOfInput).action, IngestAction::SendEof);
    assert_eq!(rx.phase(), Phase::Draining);
    assert_eq!(rx.step(IngestEvent::EofSent(Ok(()))).action, IngestAction::ReceiveFrame);
    assert_eq!(rx.phase(), Phase::Draining);
    let step = rx.step(IngestEvent::NoFrame(DecodeSignal::Eof));
    assert_eq!(step.action, IngestAction::Listen { port: 8080 });
    assert_eq!(step.notice, Some(Notice::SessionEnded));
    assert_eq!(rx.phase(), Phase::Listening);
}

#[test]
fn an_input_without_video_stream_returns_to_listening() {
    let mut rx = VideoReceiver::new(320, 240);
    rx.handle_connection("/dev/video2", 9000);
    rx.step(IngestEvent::Connected);
    let step = rx.step(IngestEvent::Streams(vec![
        stream(0, MediaType::Audio),
        stream(1, MediaType::Subtitle),
    ]));
    assert_eq!(step.action, IngestAction::Listen { port: 9000 });
    assert_eq!(step.notice, Some(Notice::NoVideoStream));
    assert!(step.ops.is_empty());
    assert_eq!(rx.phase(), Phase::Listening);
    assert_eq!(rx.display().state(), SinkState::Unconfigured);

    let step = rx.step(IngestEvent::Connected);
    assert_eq!(step.action, IngestAction::ListStreams);
    let step = rx.step(IngestEvent::Streams(Vec::new()));
    assert_eq!(step.action, IngestAction::Listen { port: 9000 });
    assert_eq!(step.notice, Some(Notice::NoVideoStream));

    let mut fw = Framework::new(vec![stream(0, MediaType::Video)], vec![(0, frame(Some(0)))]);
    fw.serve(&mut rx, CodecId::RawVideo);
    assert_eq!(fw.written.len(), 1);
}

#[test]
fn a_failed_connection_or_decoder_returns_to_listening() {
    let mut rx = VideoReceiver::new(320, 240);
    rx.handle_connection("/dev/video2", 8080);
    let step = rx.step(IngestEvent::ConnectFailed);
    assert_eq!(step.action, IngestAction::Listen { port: 8080 });
    assert_eq!(step.notice, Some(Notice::ConnectFailed));

    rx.step(IngestEvent::Connected);
    rx.step(IngestEvent::Streams(vec![stream(0, MediaType::Video)]));
    let step = rx.step(IngestEvent::DecoderFailed);
    assert_eq!(step.action, IngestAction::Listen { port: 8080 });
    assert_eq!(step.notice, Some(Notice::DecoderUnavailable));
    assert_eq!(rx.phase(), Phase::Listening);
    assert_eq!(rx.display().state(), SinkState::Unconfigured);
    assert_eq!(
        rx.display().show_frame(&frame(None)).unwrap_err(),
        SinkError::NotPrepared
    );
}

#[test]
fn ten_frames_through_the_whole_pipeline() {
    let mut rx = VideoReceiver::new(320, 240);
    rx.set_mjpeg(true);
    let first = rx.handle_connection("/dev/video2", 8080);
    assert_eq!(first.action, IngestAction::Listen { port: 8080 });

    let packets: Vec<(usize, FrameInfo)> =
        (0..10i64).map(|i| (0, frame(Some(i * 3600)))).collect();
    let mut fw = Framework::new(vec![stream(0, MediaType::Video)], packets);
    fw.serve(&mut rx, CodecId::Mjpeg);

    assert_eq!(fw.written.len(), 10);
    for (i, (times, range)) in fw.written.iter().enumerate() {
        assert_eq!(times.pts, Some(40 * i as i64));
        assert_eq!(times.dts, Some(40 * i as i64));
        assert_eq!(times.duration, 40);
        assert_eq!(*range, ColorRange::Full);
    }
    for pair in fw.written.windows(2) {
        assert!(pair[0].0.pts <= pair[1].0.pts);
    }
    assert_eq!(fw.opened, 1);
    assert_eq!(fw.headers, 1);
    assert_eq!(fw.scalers, 1);
    assert_eq!(fw.eofs_to_encoder, 1);
    assert_eq!(fw.trailers, 1);
    assert_eq!(fw.listens, 1);
    assert_eq!(fw.notices, vec![Notice::SessionEnded]);
    assert_eq!(rx.phase(), Phase::Listening);
    assert_eq!(rx.display().state(), SinkState::Unconfigured);
}

#[test]
fn one_session_after_another() {
    let mut rx = VideoReceiver::new(320, 240);
    rx.handle_connection("/dev/video2", 8080);
    let mut total = 0;
    for session in 0..3 {
        let packets: Vec<(usize, FrameInfo)> =
            (0..4i64).map(|i| (0, frame(Some(i * 3600)))).collect();
        let mut fw = Framework::new(vec![stream(0, MediaType::Video)], packets);
        fw.serve(&mut rx, CodecId::RawVideo);
        assert_eq!(fw.opened, 1, "session {session}");
        assert_eq!(fw.trailers, 1, "session {session}");
        assert_eq!(fw.written.len(), 4);
        total += fw.written.len();
        assert_eq!(rx.phase(), Phase::Listening);
    }
    assert_eq!(total, 12);
}

#[test]
fn the_receiver_writes_raw_video_unless_told_otherwise() {
    let mut rx = streaming(false);
    rx.step(IngestEvent::Packet { stream: 0 });
    rx.step(IngestEvent::Submitted(Ok(())));
    let step = rx.step(IngestEvent::Frame(frame(Some(0))));
    assert_eq!(step.action, IngestAction::RunSink(PlanKind::Configure));
    assert_eq!(step.ops[1], SinkOp::FindEncoder { codec: CodecId::RawVideo });
    assert_eq!(
        step.ops[3],
        SinkOp::SetEncoderGeometry { width: 320, height: 240, format: Pixel::Yuyv422 }
    );
    let step = rx.step(IngestEvent::SinkConfigured(ready(CodecId::RawVideo)));
    assert_eq!(step.action, IngestAction::RunSink(PlanKind::Render));
    assert_eq!(
        step.ops[0],
        SinkOp::AllocateFrame { format: Pixel::Yuyv422, width: 320, height: 240 }
    );

    let mut rx = streaming(true);
    rx.step(IngestEvent::Packet { stream: 0 });
    rx.step(IngestEvent::Submitted(Ok(())));
    let step = rx.step(IngestEvent::Frame(frame(Some(0))));
    assert_eq!(step.ops[1], SinkOp::FindEncoder { codec: CodecId::Mjpeg });
    let step = rx.step(IngestEvent::SinkConfigured(ready(CodecId::Mjpeg)));
    assert_eq!(
        step.ops[0],
        SinkOp::AllocateFrame { format: Pixel::Yuvj420p, width: 320, height: 240 }
    );
}

#[test]
fn packets_of_other_streams_are_discarded() {
    let mut rx = VideoReceiver::new(320, 240);
    rx.handle_connection("/dev/video2", 8080);
    let streams = vec![stream(0, MediaType::Audio), stream(1, MediaType::Video)];
    let mut packets = Vec::new();
    for i in 0..6i64 {
        packets.push(((i % 2) as usize, frame(Some(i * 3600))));
    }
    let mut fw = Framework::new(streams, packets);
    fw.serve(&mut rx, CodecId::RawVideo);
    assert_eq!(fw.written.len(), 3);
    let pts: Vec<Option<i64>> = fw.written.iter().map(|w| w.0.pts).collect();
    assert_eq!(pts, vec![Some(40), Some(120), Some(200)]);
}

#[test]
fn the_timing_follows_the_stream_that_was_picked() {
    let mut rx = VideoReceiver::new(320, 240);
    rx.handle_connection("/dev/video2", 8080);
    rx.step(IngestEvent::Connected);
    let mut picked = stream(4, MediaType::Video);
    picked.time_base = q(1, 1000);
    picked.avg_frame_rate = q(0, 0);
    rx.step(IngestEvent::Streams(vec![stream(0, MediaType::Audio), picked]));
    rx.step(IngestEvent::DecoderReady);
    assert_eq!(rx.step(IngestEvent::Packet { stream: 0 }).action, IngestAction::ReadPacket);
    assert_eq!(rx.step(IngestEvent::Packet { stream: 4 }).action, IngestAction::SendPacket);
    rx.step(IngestEvent::Submitted(Ok(())));
    let step = rx.step(IngestEvent::Frame(frame(Some(100))));
    assert_eq!(step.ops[4], SinkOp::SetEncoderFrameRate { rate: q(30, 1) });
    assert_eq!(step.ops[5], SinkOp::SetEncoderTimeBase { time_base: q(1, 30) });
    let step = rx.step(IngestEvent::SinkConfigured(ready(CodecId::RawVideo)));
    assert!(step.ops.contains(&SinkOp::SetPts { pts: 3 }));
}

#[test]
fn a_refused_packet_is_skipped_and_the_session_goes_on() {
    let mut rx = streaming(false);
    rx.step(IngestEvent::Packet { stream: 0 });
    let step = rx.step(IngestEvent::Submitted(Err(DecodeSignal::Other)));
    assert_eq!(step.action, IngestAction::ReceiveFrame);
    assert_eq!(step.notice, Some(Notice::SubmitFailed));

    let step = rx.step(IngestEvent::NoFrame(DecodeSignal::Again));
    assert_eq!(step.action, IngestAction::ReadPacket);
    assert_eq!(step.notice, None);

    rx.step(IngestEvent::Packet { stream: 0 });
    let step = rx.step(IngestEvent::Submitted(Err(DecodeSignal::Again)));
    assert_eq!(step.action, IngestAction::ReceiveFrame);
    assert_eq!(step.notice, None);

    let step = rx.step(IngestEvent::NoFrame(DecodeSignal::Other));
    assert_eq!(step.action, IngestAction::ReadPacket);
    assert_eq!(step.notice, Some(Notice::ReceiveFailed));
    assert_eq!(rx.phase(), Phase::Streaming);

    rx.step(IngestEvent::Packet { stream: 0 });
    let step = rx.step(IngestEvent::Submitted(Err(DecodeSignal::Eof)));
    assert_eq!(step.notice, Some(Notice::SubmitFailed));
}

#[test]
fn a_frame_that_cannot_be_written_is_lost_and_the_session_goes_on() {
    let mut rx = writing(true);
    let step = rx.step(IngestEvent::Frame(frame(Some(3600))));
    assert_eq!(step.action, IngestAction::RunSink(PlanKind::Render));
    let step = rx.step(IngestEvent::SinkDone(PlanOutcome::Failed(SinkOp::SendFrame)));
    assert_eq!(step.action, IngestAction::ReceiveFrame);
    assert_eq!(step.notice, Some(Notice::FrameLost(SinkError::Write)));
    assert_eq!(rx.phase(), Phase::Streaming);

    let step = rx.step(IngestEvent::Frame(frame(Some(7200))));
    assert_eq!(step.action, IngestAction::RunSink(PlanKind::Render));
    let step = rx.step(IngestEvent::SinkDone(PlanOutcome::Failed(drain())));
    assert_eq!(step.action, IngestAction::ReceiveFrame);
    assert_eq!(step.notice, Some(Notice::FrameLost(SinkError::Write)));
}

#[test]
fn a_failed_conversion_ends_the_session_after_finishing_the_sink() {
    let mut rx = writing(true);
    rx.step(IngestEvent::Frame(frame(Some(3600))));
    let step = rx.step(IngestEvent::SinkDone(PlanOutcome::Failed(SinkOp::RunScaler)));
    assert_eq!(step.action, IngestAction::RunSink(PlanKind::Finish));
    assert_eq!(step.ops, vec![SinkOp::SendEof, drain(), SinkOp::WriteTrailer]);
    assert_eq!(step.notice, Some(Notice::SessionAborted(SinkError::Convert)));
    assert_eq!(rx.phase(), Phase::Draining);
    assert_eq!(rx.display().state(), SinkState::Finalized);

    let step = rx.step(IngestEvent::SinkDone(PlanOutcome::Completed));
    assert_eq!(step.action, IngestAction::Listen { port: 8080 });
    assert_eq!(step.notice, Some(Notice::SessionEnded));
    assert_eq!(rx.phase(), Phase::Listening);
}

#[test]
fn a_failed_configuration_ends_the_session() {
    let cases = [
        (SinkOp::FindEncoder { codec: CodecId::RawVideo }, SinkError::EncoderUnavailable),
        (SinkOp::OpenOutput, SinkError::SinkInit),
        (SinkOp::WriteHeader, SinkError::SinkInit),
    ];
    for (op, error) in cases {
        let mut rx = streaming(false);
        rx.step(IngestEvent::Packet { stream: 0 });
        rx.step(IngestEvent::Submitted(Ok(())));
        let step = rx.step(IngestEvent::Frame(frame(Some(0))));
        assert_eq!(step.action, IngestAction::RunSink(PlanKind::Configure));
        let step = rx.step(IngestEvent::SinkConfigured(ConfigOutcome::Failed(op)));
        assert_eq!(step.action, IngestAction::Listen { port: 8080 });
        assert_eq!(step.notice, Some(Notice::SessionAborted(error)));
        assert!(step.ops.is_empty());
        assert_eq!(rx.phase(), Phase::Listening);
        assert_eq!(rx.display().state(), SinkState::Unconfigured);
    }
}

#[test]
fn a_failed_finish_still_ends_the_session() {
    let mut rx = writing(false);
    rx.step(IngestEvent::NoFrame(DecodeSignal::Again));
    rx.step(IngestEvent::EndOfInput);
    let step = rx.step(IngestEvent::EofSent(Err(DecodeSignal::Other)));
    assert_eq!(step.action, IngestAction::ReceiveFrame);
    assert_eq!(step.notice, Some(Notice::EofFailed));
    let step = rx.step(IngestEvent::NoFrame(DecodeSignal::Other));
    assert_eq!(step.action, IngestAction::RunSink(PlanKind::Finish));
    assert_eq!(step.notice, Some(Notice::ReceiveFailed));
    let step = rx.step(IngestEvent::SinkDone(PlanOutcome::Failed(SinkOp::WriteTrailer)));
    assert_eq!(step.action, IngestAction::Listen { port: 8080 });
    assert_eq!(step.notice, Some(Notice::FinishFailed));
    assert_eq!(rx.phase(), Phase::Listening);
}

#[test]
fn frames_that_come_while_draining_are_written_before_the_sink_is_finished() {
    let mut rx = writing(true);
    rx.step(IngestEvent::NoFrame(DecodeSignal::Again));
    rx.step(IngestEvent::EndOfInput);
    rx.step(IngestEvent::EofSent(Ok(())));
    let step = rx.step(IngestEvent::Frame(frame(Some(3600))));
    assert_eq!(step.action, IngestAction::RunSink(PlanKind::Render));
    assert_eq!(rx.phase(), Phase::Draining);
    let step = rx.step(IngestEvent::SinkDone(PlanOutcome::Completed));
    assert_eq!(step.action, IngestAction::ReceiveFrame);
    let step = rx.step(IngestEvent::NoFrame(DecodeSignal::Eof));
    assert_eq!(step.action, IngestAction::RunSink(PlanKind::Finish));
    assert_eq!(step.ops, vec![SinkOp::SendEof, drain(), SinkOp::WriteTrailer]);
    assert_eq!(step.notice, None);
}

#[test]
fn a_report_out_of_turn_ends_the_session() {
    let mut rx = writing(true);
    let step = rx.step(IngestEvent::DecoderReady);
    assert_eq!(step.action, IngestAction::RunSink(PlanKind::Finish));
    assert_eq!(step.notice, Some(Notice::OutOfTurn));
    let step = rx.step(IngestEvent::SinkDone(PlanOutcome::Completed));
    assert_eq!(step.action, IngestAction::Listen { port: 8080 });

    let step = rx.step(IngestEvent::Frame(frame(None)));
    assert_eq!(step.action, IngestAction::Listen { port: 8080 });
    assert_eq!(step.notice, Some(Notice::OutOfTurn));

    let mut idle = VideoReceiver::new(1, 1);
    let step = idle.step(IngestEvent::EndOfInput);
    assert_eq!(step.action, IngestAction::Listen { port: 0 });
    assert_eq!(step.notice, Some(Notice::OutOfTurn));
}

#[test]
fn starting_again_closes_the_sink_that_is_open() {
    let mut rx = writing(true);
    assert!(matches!(rx.display().state(), SinkState::Configured(_)));
    let step = rx.handle_connection("/dev/video3", 9090);
    assert_eq!(step.action, IngestAction::RunSink(PlanKind::Finish));
    assert_eq!(step.ops, vec![SinkOp::SendEof, drain(), SinkOp::WriteTrailer]);
    assert_eq!(step.notice, None);
    assert_eq!(rx.display().state(), SinkState::Finalized);
    let step = rx.step(IngestEvent::SinkDone(PlanOutcome::Completed));
    assert_eq!(step.action, IngestAction::Listen { port: 9090 });
    assert_eq!(rx.display().state(), SinkState::Unconfigured);
    assert_eq!(rx.display().device_path(), "/dev/video3");
    assert_eq!(rx.phase(), Phase::Listening);
}

#[test]
fn starting_again_without_an_open_sink_listens_at_once() {
    let mut rx = streaming(false);
    let step = rx.handle_connection("/dev/video3", 9090);
    assert_eq!(step.action, IngestAction::Listen { port: 9090 });
    assert_eq!(step.notice, None);
    assert_eq!(rx.display().device_path(), "/dev/video3");
    assert_eq!(rx.phase(), Phase::Listening);
    assert_eq!(
        rx.display().show_frame(&frame(None)).unwrap_err(),
        SinkError::NotPrepared
    );
}

#[test]
fn the_encoder_mode_holds_from_the_next_session() {
    let mut rx = streaming(false);
    rx.set_mjpeg(true);
    rx.step(IngestEvent::Packet { stream: 0 });
    rx.step(IngestEvent::Submitted(Ok(())));
    let step = rx.step(IngestEvent::Frame(frame(Some(0))));
    assert_eq!(step.ops[1], SinkOp::FindEncoder { codec: CodecId::RawVideo });
    let step = rx.step(IngestEvent::SinkConfigured(ConfigOutcome::Failed(SinkOp::OpenOutput)));
    assert_eq!(step.action, IngestAction::Listen { port: 8080 });

    rx.step(IngestEvent::Connected);
    rx.step(IngestEvent::Streams(vec![stream(0, MediaType::Video)]));
    rx.step(IngestEvent::DecoderReady);
    rx.step(IngestEvent::Packet { stream: 0 });
    rx.step(IngestEvent::Submitted(Ok(())));
    let step = rx.step(IngestEvent::Frame(frame(Some(0))));
    assert_eq!(step.ops[1], SinkOp::FindEncoder { codec: CodecId::Mjpeg });
}

#[test]
fn notices_in_words() {
    assert_eq!(
        Notice::NoVideoStream.message(),
        "Didn't find a video stream in the incoming connection"
    );
    assert_eq!(
        Notice::DecoderUnavailable.message(),
        "Couldn't create a decoder for the incoming video stream"
    );
    assert_eq!(Notice::SubmitFailed.message(), "Error sending packet to decoder");
    assert_eq!(Notice::ReceiveFailed.message(), "Error receiving frame");
    assert_eq!(Notice::EofFailed.message(), "Error sending EOF to decoder");
    assert_eq!(Notice::FinishFailed.message(), "Error finalizing output");
    assert_eq!(Notice::SessionEnded.message(), "Finished receiving and writing video.");
    assert_eq!(Notice::ConnectFailed.message(), "Could not open the input");
    assert_eq!(Notice::OutOfTurn.message(), "Unexpected report; session aborted");
    assert_eq!(
        Notice::FrameLost(SinkError::Write).message(),
        "Error displaying/encoding frame: Could not encode or write the frame"
    );
    assert_eq!(
        Notice::SessionAborted(SinkError::EncoderUnavailable).message(),
        "Session aborted: Requested encoder not found"
    );
    assert_eq!(
        SinkError::NotPrepared.message(),
        "No timing set. Call prepare_from_stream() before sending frames."
    );
    assert_eq!(SinkError::SinkInit.message(), "Could not open the virtual camera output");
    assert_eq!(SinkError::Convert.message(), "Could not convert the frame");
    assert_eq!(
        SinkError::Finalized.message(),
        "The virtual camera output is already finished"
    );
}
