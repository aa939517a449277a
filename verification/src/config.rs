//! Derivation of the complete engine configuration record from the
//! user-facing knobs.

use vstd::prelude::*;

use crate::encoder::AomEncoder;
use crate::quality::{
    clamp200, quality_rates, valid_q_pair, Quality, DEFAULT_Q_MAX, DEFAULT_Q_MIN,
};

verus! {

/// Ticks per second of the fixed input/output timebase.
pub const TICKS_PER_SECOND: i32 = 90000;

/// Bit depth of the planar input frames.
pub const INPUT_BIT_DEPTH: u32 = 8;

/// Keyframe placement policy.
#[derive(Clone, Copy, Debug, PartialEq, Eq, Structural)]
pub enum KeyframePolicy {
    /// No keyframe is ever forced after the first frame.
    Disabled,
    /// The engine places keyframes at its discretion, at least `min_dist`
    /// and at most `max_dist` frames apart.
    Auto { min_dist: u32, max_dist: u32 },
}

/// How the engine spends the output bit budget over time.
#[derive(Clone, Copy, Debug, PartialEq, Eq, Structural)]
pub enum RateControlMode {
    VariableBitrate,
    ConstantBitrate,
    ConstrainedQuality,
    ConstantQuality,
}

/// Which rate-control pass this encode performs.
#[derive(Clone, Copy, Debug, PartialEq, Eq, Structural)]
pub enum EncodingPass {
    OnePass,
    FirstPass,
    LastPass,
}

/// User-facing encoder knobs: resolution, quality, optional keyframe
/// interval. The thread count and the resolution-dependent base bitrate
/// are policies of the host process and are supplied alongside.
#[derive(Clone, Copy, Debug)]
pub struct AomEncoderConfig {
    pub width: u32,
    pub height: u32,
    pub quality: Quality,
    pub keyframe_interval: Option<usize>,
}

/// Complete, self-consistent engine configuration record. Once derived it
/// can initialize the engine in one call; a record with an unusable
/// quantizer pair never reaches the engine.
#[derive(Clone, Copy, Debug, PartialEq, Eq, Structural)]
pub struct CodecConfig {
    pub width: u32,
    pub height: u32,
    pub threads: u32,
    pub timebase_num: i32,
    pub timebase_den: i32,
    pub input_bit_depth: u32,
    pub keyframes: KeyframePolicy,
    pub rc_min_quantizer: u32,
    pub rc_max_quantizer: u32,
    /// Target bitrate in kilobits per second.
    pub rc_target_bitrate: u32,
    pub rc_undershoot_pct: u32,
    pub rc_overshoot_pct: u32,
    /// Buffer occupancy goals, in milliseconds of one target-bitrate-second.
    pub rc_buf_initial_sz: u32,
    pub rc_buf_optimal_sz: u32,
    pub rc_buf_sz: u32,
    pub rc_end_usage: RateControlMode,
    pub pass: EncodingPass,
    pub lag_in_frames: u32,
    pub error_resilient: bool,
}

/// The quantizer lower bound actually used: the derived one when the
/// derived pair is usable, the safe default otherwise.
pub open spec fn chosen_q_min(q: Quality) -> int {
    if valid_q_pair(quality_rates(q).0, quality_rates(q).1) {
        quality_rates(q).0
    } else {
        DEFAULT_Q_MIN as int
    }
}

/// The quantizer upper bound actually used: the derived one when the
/// derived pair is usable, the safe default otherwise.
pub open spec fn chosen_q_max(q: Quality) -> int {
    if valid_q_pair(quality_rates(q).0, quality_rates(q).1) {
        quality_rates(q).1
    } else {
        DEFAULT_Q_MAX as int
    }
}

/// Target bitrate: the scaled base bitrate, or the unscaled base whenever
/// the scaled value would not be positive.
pub open spec fn target_bitrate(base: int, scale: int) -> int {
    if base * scale / 100 > 0 {
        base * scale / 100
    } else {
        base
    }
}

/// A derived target bitrate is never zero or negative: whenever the
/// scale is zero, or the scaled value would not be positive, the
/// unscaled base bitrate is kept.
pub proof fn lemma_target_bitrate_fallback(base: int, scale: int)
    requires
        base > 0,
        scale >= 0,
    ensures
        target_bitrate(base, scale) > 0,
        base * scale / 100 <= 0 ==> target_bitrate(base, scale) == base,
{
}

/// The keyframe policy derived from an optional interval.
pub open spec fn keyframe_policy(interval: Option<usize>) -> KeyframePolicy {
    match interval {
        Some(k) => KeyframePolicy::Auto { min_dist: 0, max_dist: k as u32 },
        None => KeyframePolicy::Disabled,
    }
}

/// The full configuration record derived from the knobs: fixed real-time
/// timebase, 8-bit input, the chosen quantizer pair, the scaled target
/// bitrate, 50%/50% under/overshoot, 600/600/1000 ms buffer goals, and
/// constant-bitrate one-pass encoding with no look-ahead.
pub open spec fn derived_config(cfg: AomEncoderConfig, threads: u32, base_bitrate: u32) -> CodecConfig {
    CodecConfig {
        width: cfg.width,
        height: cfg.height,
        threads,
        timebase_num: 1,
        timebase_den: TICKS_PER_SECOND,
        input_bit_depth: INPUT_BIT_DEPTH,
        keyframes: keyframe_policy(cfg.keyframe_interval),
        rc_min_quantizer: chosen_q_min(cfg.quality) as u32,
        rc_max_quantizer: chosen_q_max(cfg.quality) as u32,
        rc_target_bitrate: target_bitrate(base_bitrate as int, quality_rates(cfg.quality).2) as u32,
        rc_undershoot_pct: 50,
        rc_overshoot_pct: 50,
        rc_buf_initial_sz: 600,
        rc_buf_optimal_sz: 600,
        rc_buf_sz: 1000,
        rc_end_usage: RateControlMode::ConstantBitrate,
        pass: EncodingPass::OnePass,
        lag_in_frames: 0,
        error_resilient: false,
    }
}

/// A configuration record fit to hand to the engine.
pub open spec fn config_wf(c: CodecConfig) -> bool {
    &&& c.width > 0
    &&& c.height > 0
    &&& c.width * c.height <= u32::MAX
    &&& c.threads > 0
    &&& valid_q_pair(c.rc_min_quantizer as int, c.rc_max_quantizer as int)
    &&& c.rc_target_bitrate > 0
}

/// Derives the complete engine configuration from the user-facing knobs.
///
/// The quantizer pair comes from the quality setting, with the safe default
/// pair substituted if the derived pair were unusable; the target bitrate
/// is the base bitrate scaled by the quality's percentage, falling back to
/// the unscaled base when the scaled value is not positive; rate control is
/// fixed to constant-bitrate, one-pass, zero look-ahead.
pub fn enc_cfg(cfg: AomEncoderConfig, threads: u32, base_bitrate: u32) -> (r: CodecConfig)
    requires
        cfg.width > 0,
        cfg.height > 0,
        cfg.width * cfg.height <= u32::MAX,
        threads > 0,
        base_bitrate > 0,
        base_bitrate * 200 <= u32::MAX,
        cfg.keyframe_interval matches Some(k) ==> k <= u32::MAX,
    ensures
        r == derived_config(cfg, threads, base_bitrate),
        config_wf(r),
        r.rc_target_bitrate as int == target_bitrate(
            base_bitrate as int,
            quality_rates(cfg.quality).2,
        ),
        quality_rates(cfg.quality).2 == 0 ==> r.rc_target_bitrate == base_bitrate,
{
    let (q_min, q_max, scale) = AomEncoder::convert_quality(cfg.quality);
    let (use_min, use_max) = if q_min > 0 && q_min < q_max && q_max < 64 {
        (q_min, q_max)
    } else {
        (DEFAULT_Q_MIN, DEFAULT_Q_MAX)
    };
    proof {
        lemma_scale_bounded(cfg.quality);
        assert(base_bitrate * scale <= base_bitrate * 200) by (nonlinear_arith)
            requires
                scale <= 200,
                base_bitrate >= 0,
        ;
        assert(scale == 0 ==> base_bitrate * scale == 0) by (nonlinear_arith);
    }
    let scaled: u32 = base_bitrate * scale / 100;
    let bitrate: u32 = if scaled > 0 {
        scaled
    } else {
        base_bitrate
    };
    let keyframes = match cfg.keyframe_interval {
        Some(k) => KeyframePolicy::Auto { min_dist: 0, max_dist: k as u32 },
        None => KeyframePolicy::Disabled,
    };
    CodecConfig {
        width: cfg.width,
        height: cfg.height,
        threads,
        timebase_num: 1,
        timebase_den: TICKS_PER_SECOND,
        input_bit_depth: INPUT_BIT_DEPTH,
        keyframes,
        rc_min_quantizer: use_min,
        rc_max_quantizer: use_max,
        rc_target_bitrate: bitrate,
        rc_undershoot_pct: 50,
        rc_overshoot_pct: 50,
        rc_buf_initial_sz: 600,
        rc_buf_optimal_sz: 600,
        rc_buf_sz: 1000,
        rc_end_usage: RateControlMode::ConstantBitrate,
        pass: EncodingPass::OnePass,
        lag_in_frames: 0,
        error_resilient: false,
    }
}

/// The bitrate scale of every quality setting lies in `[0, 200]`.
pub proof fn lemma_scale_bounded(q: Quality)
    ensures
        0 <= quality_rates(q).2 <= 200,
{
    match q {
        Quality::Custom(b) => {
            assert(0 <= clamp200(b as int) <= 200);
        },
        _ => {},
    }
}

} // verus!
