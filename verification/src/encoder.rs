//! Encoder session: one live engine context configured for a fixed
//! resolution, per-frame pushes, in-place quality updates, and the
//! extraction of the compressed frames each push produces.

use vstd::prelude::*;

use crate::config::{
    chosen_q_max, chosen_q_min, config_wf, derived_config, enc_cfg, target_bitrate,
    AomEncoderConfig, CodecConfig,
};
use crate::error::CodecError;
use crate::extract::IterState;
use crate::quality::{
    custom_q_max, custom_q_min, lemma_quality_bounds, quality_rates, Quality, DEFAULT_Q_MAX,
    DEFAULT_Q_MIN,
};

verus! {

/// Native frame-flags bit marking a keyframe in the engine's output.
pub const FRAME_IS_KEY: u32 = 1;

/// The pixel layout of every input frame: tightly packed planar YUV 4:2:0.
#[derive(Clone, Copy, Debug, PartialEq, Eq, Structural)]
pub enum PixelFormat {
    I420,
}

/// How one input frame is handed to the engine: the buffer is wrapped as
/// a non-owning image view (no copy) and submitted for compression with a
/// duration of one tick and no special flags.
#[derive(Clone, Copy, Debug, PartialEq, Eq, Structural)]
pub struct FrameSubmission {
    pub fmt: PixelFormat,
    pub width: u32,
    pub height: u32,
    pub stride_align: usize,
    pub pts: i64,
    pub duration: u32,
    pub flags: u32,
}

/// One buffered output packet pulled from the engine, in plain values.
#[derive(Debug)]
pub enum CxPacket {
    /// A compressed-frame packet: payload bytes, native frame flags,
    /// presentation timestamp.
    Frame { data: Vec<u8>, flags: u32, pts: i64 },
    /// Any other packet kind; skipped by extraction.
    Other,
}

/// One compressed frame: payload, keyframe flag, presentation timestamp.
/// The payload of the engine's packet is only valid within its push's
/// extraction window, so it is copied into the frame.
#[derive(Clone, Debug, PartialEq, Eq)]
pub struct EncodeFrame {
    pub data: Vec<u8>,
    pub key: bool,
    pub pts: i64,
}

/// The frames of one push, batched for the outbound message framing.
#[derive(Clone, Debug, PartialEq, Eq)]
pub struct FrameBatch {
    pub frames: Vec<EncodeFrame>,
}

/// Outcome of one extraction advance.
#[derive(Debug)]
pub enum DrainStep {
    /// The pulled packet was a compressed frame.
    Emit(EncodeFrame),
    /// The pulled packet was of another kind; it does not end the
    /// sequence.
    Skip,
    /// The engine has no more buffered output for this push.
    End,
}

/// An encoder session owning exactly one live engine context plus the
/// resolution it was configured for. It is never copied, and destroying
/// it consumes it, so a second destruction is unrepresentable.
#[derive(Debug)]
pub struct AomEncoder {
    cfg: CodecConfig,
    width: usize,
    height: usize,
}

/// The configuration update `set_quality` applies: it recomputes the
/// quantizer pair and the target bitrate from the quality setting exactly
/// as initial derivation does, and overwrites only those three fields of
/// the live configuration.
pub open spec fn applied_quality(c: CodecConfig, q: Quality, base: u32) -> CodecConfig {
    CodecConfig {
        rc_min_quantizer: chosen_q_min(q) as u32,
        rc_max_quantizer: chosen_q_max(q) as u32,
        rc_target_bitrate: target_bitrate(base as int, quality_rates(q).2) as u32,
        ..c
    }
}

/// Applying the same quality setting twice leaves the same live
/// configuration as applying it once: the rewritten fields depend only on
/// the quality setting and the base bitrate, and every other field is
/// passed through.
pub proof fn lemma_set_quality_idempotent(c: CodecConfig, q: Quality, base: u32)
    ensures
        applied_quality(applied_quality(c, q, base), q, base) == applied_quality(c, q, base),
{
}

impl AomEncoder {
    /// The live engine configuration this session mirrors.
    pub closed spec fn live_cfg(&self) -> CodecConfig {
        self.cfg
    }

    /// The frame width the session was configured for.
    pub closed spec fn width_spec(&self) -> usize {
        self.width
    }

    /// The frame height the session was configured for.
    pub closed spec fn height_spec(&self) -> usize {
        self.height
    }

    /// A live session: a well-formed configuration whose resolution
    /// matches the session's.
    pub open spec fn wf(&self) -> bool {
        &&& config_wf(self.live_cfg())
        &&& self.width_spec() == self.live_cfg().width as usize
        &&& self.height_spec() == self.live_cfg().height as usize
    }

    /// Creates an encoder session from the user-facing knobs by deriving
    /// the complete configuration record. The surrounding program
    /// initializes one engine context from that record and applies the
    /// derived toggle list to it.
    pub fn new(config: AomEncoderConfig, threads: u32, base_bitrate: u32) -> (r: AomEncoder)
        requires
            config.width > 0,
            config.height > 0,
            config.width * config.height <= u32::MAX,
            threads > 0,
            base_bitrate > 0,
            base_bitrate * 200 <= u32::MAX,
            config.keyframe_interval matches Some(k) ==> k <= u32::MAX,
        ensures
            r.live_cfg() == derived_config(config, threads, base_bitrate),
            r.wf(),
    {
        let c = enc_cfg(config, threads, base_bitrate);
        AomEncoder { cfg: c, width: config.width as usize, height: config.height as usize }
    }

    /// The live configuration record, for the engine calls.
    pub fn config(&self) -> (r: CodecConfig)
        ensures
            r == self.live_cfg(),
    {
        self.cfg
    }

    /// Quantizer bounds and bitrate scale percentage for a quality
    /// setting.
    pub fn convert_quality(quality: Quality) -> (r: (u32, u32, u32))
        ensures
            r.0 as int == quality_rates(quality).0,
            r.1 as int == quality_rates(quality).1,
            r.2 as int == quality_rates(quality).2,
    {
        match quality {
            Quality::Best => (12, 25, 100),
            Quality::Balanced => (12, 35, 100 * 2 / 3),
            Quality::Low => (18, 45, 50),
            Quality::Custom(b) => {
                let (q_min, q_max) = Self::calc_q_values(b);
                let bc: u32 = if b > 200 {
                    200
                } else {
                    b
                };
                (q_min, q_max, bc)
            },
        }
    }

    /// Interpolated quantizer bounds for a custom bitrate percentage.
    ///
    /// The breakpoints (24, 45) at 0% and (5, 25) at 200% are tuned
    /// policy constants and are kept literally.
    pub fn calc_q_values(b: u32) -> (r: (u32, u32))
        ensures
            r.0 as int == custom_q_min(b as int),
            r.1 as int == custom_q_max(b as int),
    {
        let bc: u32 = if b > 200 {
            200
        } else {
            b
        };
        let q_min: u32 = (4900 - 19 * bc) / 200;
        let q_max: u32 = (9100 - 20 * bc) / 200;
        (q_min, q_max)
    }

    /// The input frames are planar YUV.
    pub fn use_yuv(&self) -> (r: bool)
        ensures
            r,
    {
        true
    }

    /// Pushes one input frame. The buffer must hold a full-resolution
    /// planar 4:2:0 frame, that is at least 1.5 x width x height bytes;
    /// an undersized buffer fails immediately with `InsufficientData`,
    /// before anything reaches the engine. On success the frame is
    /// wrapped for submission (one tick, no flags) and a fresh extraction
    /// sequence over this push's output begins.
    pub fn encode<'a>(&'a mut self, pts: i64, data: &[u8], stride_align: usize) -> (r: Result<
        (FrameSubmission, EncodeFrames<'a>),
        CodecError,
    >)
        requires
            old(self).wf(),
        ensures
            *final(self) == *old(self),
            r is Err <==> 2 * data@.len() < 3 * (old(self).width_spec() as int) * (old(
                self,
            ).height_spec() as int),
            r matches Err(e) ==> e is InsufficientData,
            r matches Ok(p) ==> p.0 == (FrameSubmission {
                fmt: PixelFormat::I420,
                width: old(self).live_cfg().width,
                height: old(self).live_cfg().height,
                stride_align,
                pts,
                duration: 1,
                flags: 0,
            }) && p.1.state is Draining,
    {
        let w64: u64 = self.width as u64;
        let h64: u64 = self.height as u64;
        proof {
            assert(3 * w64 * h64 <= 3 * (u32::MAX as int)) by (nonlinear_arith)
                requires
                    w64 * h64 <= u32::MAX,
            ;
        }
        let need: u64 = 3 * w64 * h64;
        if (data.len() as u64) < (need + 1) / 2 {
            proof {
                assert((data@.len() as int) < (3 * w64 * h64 + 1) / 2 <==> 2 * data@.len() < 3
                    * w64 * h64);
            }
            return Err(CodecError::InsufficientData);
        }
        let submission = FrameSubmission {
            fmt: PixelFormat::I420,
            width: self.cfg.width,
            height: self.cfg.height,
            stride_align,
            pts,
            duration: 1,
            flags: 0,
        };
        let s: &'a AomEncoder = self;
        Ok((submission, EncodeFrames { session: s, state: IterState::Draining }))
    }

    /// Updates the live configuration in place for a new quality setting:
    /// the quantizer pair and target bitrate are recomputed exactly as at
    /// creation and overwrite only those fields; everything else is
    /// untouched. The returned record is what the surrounding program
    /// asks the engine to apply.
    pub fn set_quality(&mut self, quality: Quality, base_bitrate: u32) -> (r: CodecConfig)
        requires
            old(self).wf(),
            base_bitrate > 0,
            base_bitrate * 200 <= u32::MAX,
        ensures
            final(self).live_cfg() == applied_quality(old(self).live_cfg(), quality, base_bitrate),
            r == final(self).live_cfg(),
            final(self).wf(),
            final(self).width_spec() == old(self).width_spec(),
            final(self).height_spec() == old(self).height_spec(),
            quality_rates(quality).2 == 0 ==> final(self).live_cfg().rc_target_bitrate
                == base_bitrate,
    {
        let (q_min, q_max, scale) = Self::convert_quality(quality);
        let (use_min, use_max) = if q_min > 0 && q_min < q_max && q_max < 64 {
            (q_min, q_max)
        } else {
            (DEFAULT_Q_MIN, DEFAULT_Q_MAX)
        };
        proof {
            crate::config::lemma_scale_bounded(quality);
            assert(base_bitrate * scale <= base_bitrate * 200) by (nonlinear_arith)
                requires
                    scale <= 200,
                    base_bitrate >= 0,
            ;
            assert(scale == 0 ==> base_bitrate * scale == 0) by (nonlinear_arith);
            lemma_quality_bounds(quality);
        }
        let scaled: u32 = base_bitrate * scale / 100;
        let bitrate: u32 = if scaled > 0 {
            scaled
        } else {
            base_bitrate
        };
        self.cfg.rc_min_quantizer = use_min;
        self.cfg.rc_max_quantizer = use_max;
        self.cfg.rc_target_bitrate = bitrate;
        self.cfg
    }

    /// Reads the live configuration's target bitrate; no engine call is
    /// involved.
    pub fn bitrate(&self) -> (r: u32)
        ensures
            r == self.live_cfg().rc_target_bitrate,
    {
        self.cfg.rc_target_bitrate
    }

    /// Batches the frames one push produced for the outbound message
    /// framing. A push that produced zero usable frames is reported as
    /// `NoOutput`, which is distinct from a hard failure.
    pub fn create_msg(frames: Vec<EncodeFrame>) -> (r: Result<FrameBatch, CodecError>)
        ensures
            frames@.len() > 0 ==> (r matches Ok(b) && b.frames@ == frames@),
            frames@.len() == 0 ==> (r matches Err(e) && e is NoOutput),
    {
        if frames.len() > 0 {
            Ok(FrameBatch { frames })
        } else {
            Err(CodecError::NoOutput)
        }
    }

    /// Ends the session, consuming it. The engine context is released at
    /// the same moment by the surrounding program; a failure of that
    /// release is fatal, since it implies unrecoverable native-library
    /// state corruption. Ownership makes a second destruction
    /// unrepresentable.
    pub fn destroy(self) {
    }
}

/// Extraction sequence over the compressed frames one push produced. It
/// borrows its session, so it cannot outlive the session nor overlap a
/// competing push on it.
pub struct EncodeFrames<'a> {
    pub session: &'a AomEncoder,
    pub state: IterState,
}

impl<'a> EncodeFrames<'a> {
    /// Advances the sequence by one engine answer: the next buffered
    /// packet, or nothing when the engine has no more. Only
    /// compressed-frame packets are surfaced; any other packet kind is
    /// skipped without ending the sequence. A null answer exhausts the
    /// sequence for good; it is an empty end, not an error.
    pub fn next(&mut self, pulled: Option<CxPacket>) -> (r: DrainStep)
        ensures
            old(self).state is Exhausted ==> final(self).state is Exhausted && r is End,
            old(self).state is Draining ==> match pulled {
                None => final(self).state is Exhausted && r is End,
                Some(CxPacket::Frame { data, flags, pts }) => final(self).state is Draining && (
                r matches DrainStep::Emit(f) && f.data@ == data@ && f.key == ((flags & FRAME_IS_KEY)
                    != 0) && f.pts == pts),
                Some(CxPacket::Other) => final(self).state is Draining && r is Skip,
            },
    {
        match self.state {
            IterState::Exhausted => DrainStep::End,
            IterState::Draining => match pulled {
                None => {
                    self.state = IterState::Exhausted;
                    DrainStep::End
                },
                Some(CxPacket::Frame { data, flags, pts }) => DrainStep::Emit(
                    EncodeFrame { data, key: (flags & FRAME_IS_KEY) != 0, pts },
                ),
                Some(CxPacket::Other) => DrainStep::Skip,
            },
        }
    }
}

} // verus!
