//! Plain descriptions of the media values that the relay decides on.
//!
//! The multimedia framework owns the frames, packets and streams themselves.
//! These types carry what the decisions read of them.

use vstd::prelude::*;
use crate::rational::{rescale, rescaled, Rational};

verus! {

/// A pixel format.
///
/// The formats that the full-range table speaks of are named, with the packed
/// 4:2:2 format of raw output; any other is carried by the framework's own
/// number for it.
#[derive(Clone, Copy, Debug, PartialEq, Eq, Structural)]
pub enum Pixel {
    /// Planar YUV 4:2:0, limited range.
    Yuv420p,
    /// Planar YUV 4:2:2, limited range.
    Yuv422p,
    /// Planar YUV 4:4:4, limited range.
    Yuv444p,
    /// Semi-planar YUV 4:2:0, chroma interleaved as UV.
    Nv12,
    /// Semi-planar YUV 4:2:0, chroma interleaved as VU.
    Nv21,
    /// Planar YUV 4:2:0, full range.
    Yuvj420p,
    /// Planar YUV 4:2:2, full range.
    Yuvj422p,
    /// Planar YUV 4:4:4, full range.
    Yuvj444p,
    /// Packed YUV 4:2:2.
    Yuyv422,
    /// A format that the table does not name.
    Other(i32),
}

impl Pixel {
    /// The format is one of the full-range planar formats.
    pub open spec fn is_full_range(self) -> bool {
        self is Yuvj420p || self is Yuvj422p || self is Yuvj444p
    }

    /// The format has a full-range counterpart different from itself.
    pub open spec fn is_upgraded(self) -> bool {
        self is Yuv420p || self is Yuv422p || self is Yuv444p || self is Nv12 || self is Nv21
    }

    /// The format that an MJPEG encoder is fed in place of `self`: the
    /// full-range counterpart of a limited-range planar format, the full-range
    /// planar 4:2:0 format for the semi-planar ones, and `self` otherwise.
    pub open spec fn full_range(self) -> Pixel {
        match self {
            Pixel::Yuv420p => Pixel::Yuvj420p,
            Pixel::Yuv422p => Pixel::Yuvj422p,
            Pixel::Yuv444p => Pixel::Yuvj444p,
            Pixel::Nv12 => Pixel::Yuvj420p,
            Pixel::Nv21 => Pixel::Yuvj420p,
            other => other,
        }
    }
}

/// The table is idempotent: a second application changes nothing. What it
/// yields for a format that it upgrades is a full-range format, and every
/// other format, full-range or unnamed, is its own image.
pub proof fn lemma_full_range_idempotent(pix: Pixel)
    ensures
        pix.full_range().full_range() == pix.full_range(),
        pix.is_upgraded() ==> pix.full_range().is_full_range() && pix.full_range() != pix,
        !pix.is_upgraded() ==> pix.full_range() == pix,
        !pix.full_range().is_upgraded(),
{
}

/// How sample values map to intensity.
#[derive(Clone, Copy, Debug, PartialEq, Eq, Structural)]
pub enum ColorRange {
    Unspecified,
    /// Limited ("MPEG") range.
    Limited,
    /// Full ("JPEG") range.
    Full,
}

/// The kind of data that a stream carries.
#[derive(Clone, Copy, Debug, PartialEq, Eq, Structural)]
pub enum MediaType {
    Unknown,
    Video,
    Audio,
    Data,
    Subtitle,
    Attachment,
}

/// The encoders that the camera sink can ask for.
#[derive(Clone, Copy, Debug, PartialEq, Eq, Structural)]
pub enum CodecId {
    Mjpeg,
    RawVideo,
}

/// The codec parameters of a stream, as far as the relay reads them.
#[derive(Clone, Copy, Debug, PartialEq, Eq, Structural)]
pub struct StreamParameters {
    pub medium: MediaType,
}

/// One stream of an opened input.
#[derive(Clone, Copy, Debug, PartialEq, Eq, Structural)]
pub struct StreamInfo {
    /// The number by which packets name the stream.
    pub index: usize,
    pub time_base: Rational,
    /// The average frame rate; not positive where the source has no constant
    /// rate.
    pub avg_frame_rate: Rational,
    pub parameters: StreamParameters,
}

impl StreamInfo {
    pub open spec fn is_video(self) -> bool {
        self.parameters.medium is Video
    }
}

/// A decoded frame.
#[derive(Clone, Copy, Debug, PartialEq, Eq, Structural)]
pub struct FrameInfo {
    pub width: u32,
    pub height: u32,
    pub format: Pixel,
    pub color_range: ColorRange,
    /// The presentation timestamp in the time base of the source stream.
    pub pts: Option<i64>,
}

/// The times that an encoded packet carries.
#[derive(Clone, Copy, Debug, PartialEq, Eq, Structural)]
pub struct PacketTimes {
    pub pts: Option<i64>,
    pub dts: Option<i64>,
    /// The duration in ticks; zero where it is not known.
    pub duration: i64,
}

impl PacketTimes {
    /// The times of `self`, counted in ticks of `source`, in ticks of
    /// `destination`. A timestamp that is absent stays absent, and one that
    /// cannot be expressed becomes absent. A duration is rebased where it is
    /// known (above zero), and cleared where it cannot be expressed.
    pub open spec fn rebased(self, source: Rational, destination: Rational) -> PacketTimes {
        PacketTimes {
            pts: match self.pts {
                Some(p) => rescaled(p as int, source, destination),
                None => None,
            },
            dts: match self.dts {
                Some(d) => rescaled(d as int, source, destination),
                None => None,
            },
            duration: if self.duration > 0 {
                match rescaled(self.duration as int, source, destination) {
                    Some(d) => d,
                    None => 0,
                }
            } else {
                self.duration
            },
        }
    }

    /// Moves the times of a packet from one time base to another.
    pub fn rescale_ts(&self, source: Rational, destination: Rational) -> (r: PacketTimes)
        ensures
            r == self.rebased(source, destination),
    {
        let pts = match self.pts {
            Some(p) => rescale(p, source, destination),
            None => None,
        };
        let dts = match self.dts {
            Some(d) => rescale(d, source, destination),
            None => None,
        };
        let duration = if self.duration > 0 {
            match rescale(self.duration, source, destination) {
                Some(d) => d,
                None => 0,
            }
        } else {
            self.duration
        };
        PacketTimes { pts, dts, duration }
    }
}

} // verus!
