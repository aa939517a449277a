use aom_rtc::config::{
    enc_cfg, AomEncoderConfig, CodecConfig, EncodingPass, KeyframePolicy, RateControlMode,
};
use aom_rtc::controls::{
    ceil_log2, get_cpu_speed, get_super_block_size, set_controls, Control, ControlId,
    ControlValue, SuperblockSize, TuneContent,
};
use aom_rtc::error::{engine_status, CodecError, EngineOp};
use aom_rtc::encoder::AomEncoder;
use aom_rtc::quality::Quality;

#[test]
fn quality_tiers_exact() {
    assert_eq!(AomEncoder::convert_quality(Quality::Best), (12, 25, 100));
    assert_eq!(AomEncoder::convert_quality(Quality::Balanced), (12, 35, 66));
    assert_eq!(AomEncoder::convert_quality(Quality::Low), (18, 45, 50));
}

#[test]
fn custom_breakpoints() {
    assert_eq!(AomEncoder::calc_q_values(0), (24, 45));
    assert_eq!(AomEncoder::calc_q_values(200), (5, 25));
    assert_eq!(AomEncoder::calc_q_values(100), (15, 35));
}

#[test]
fn custom_clamped_above_200() {
    assert_eq!(AomEncoder::calc_q_values(201), (5, 25));
    assert_eq!(AomEncoder::calc_q_values(u32::MAX), (5, 25));
    // the bitrate scale is clamped as well
    assert_eq!(AomEncoder::convert_quality(Quality::Custom(1000)).2, 200);
}

#[test]
fn custom_bounds_hold_over_full_domain() {
    for b in 0..=200u32 {
        let (q_min, q_max, scale) = AomEncoder::convert_quality(Quality::Custom(b));
        assert!(q_min > 0, "b={b}");
        assert!(q_min < q_max, "b={b}");
        assert!(q_max < 64, "b={b}");
        assert_eq!(scale, b);
    }
}

#[test]
fn fixed_tier_bounds_valid() {
    for q in [Quality::Best, Quality::Balanced, Quality::Low] {
        let (q_min, q_max, _) = AomEncoder::convert_quality(q);
        assert!(q_min > 0 && q_min < q_max && q_max < 64);
    }
}

#[test]
fn derived_record_complete() {
    let knobs = AomEncoderConfig {
        width: 1280,
        height: 720,
        quality: Quality::Balanced,
        keyframe_interval: None,
    };
    let c = enc_cfg(knobs, 4, 3000);
    let expected = CodecConfig {
        width: 1280,
        height: 720,
        threads: 4,
        timebase_num: 1,
        timebase_den: 90000,
        input_bit_depth: 8,
        keyframes: KeyframePolicy::Disabled,
        rc_min_quantizer: 12,
        rc_max_quantizer: 35,
        rc_target_bitrate: 1980,
        rc_undershoot_pct: 50,
        rc_overshoot_pct: 50,
        rc_buf_initial_sz: 600,
        rc_buf_optimal_sz: 600,
        rc_buf_sz: 1000,
        rc_end_usage: RateControlMode::ConstantBitrate,
        pass: EncodingPass::OnePass,
        lag_in_frames: 0,
        error_resilient: false,
    };
    assert_eq!(c, expected);
}

#[test]
fn keyframe_interval_kept() {
    let knobs = AomEncoderConfig {
        width: 640,
        height: 360,
        quality: Quality::Low,
        keyframe_interval: Some(150),
    };
    let c = enc_cfg(knobs, 2, 1000);
    assert_eq!(c.keyframes, KeyframePolicy::Auto { min_dist: 0, max_dist: 150 });
}

#[test]
fn zero_scale_falls_back_to_base() {
    let knobs = AomEncoderConfig {
        width: 640,
        height: 360,
        quality: Quality::Custom(0),
        keyframe_interval: None,
    };
    let c = enc_cfg(knobs, 2, 1500);
    assert_eq!(c.rc_target_bitrate, 1500);
}

#[test]
fn nonpositive_scaled_bitrate_falls_back_to_base() {
    // 30 * 2 / 100 rounds down to zero, so the unscaled base is kept
    let knobs = AomEncoderConfig {
        width: 320,
        height: 180,
        quality: Quality::Custom(2),
        keyframe_interval: None,
    };
    let c = enc_cfg(knobs, 1, 30);
    assert_eq!(c.rc_target_bitrate, 30);
    assert!(c.rc_target_bitrate > 0);
}

#[test]
fn speed_preset_three_tiers() {
    assert_eq!(get_cpu_speed(320, 180), 8);
    assert_eq!(get_cpu_speed(160, 90), 8);
    assert_eq!(get_cpu_speed(640, 360), 9);
    assert_eq!(get_cpu_speed(321, 180), 9);
    assert_eq!(get_cpu_speed(1280, 720), 10);
    assert_eq!(get_cpu_speed(1920, 1080), 10);
}

#[test]
fn superblock_band() {
    assert_eq!(get_super_block_size(960, 540, 4), SuperblockSize::Size64X64);
    assert_eq!(get_super_block_size(1280, 720, 4), SuperblockSize::Size64X64);
    assert_eq!(get_super_block_size(1920, 1080, 4), SuperblockSize::Dynamic);
    assert_eq!(get_super_block_size(640, 360, 4), SuperblockSize::Dynamic);
    assert_eq!(get_super_block_size(1280, 720, 2), SuperblockSize::Dynamic);
}

#[test]
fn ceil_log2_values() {
    assert_eq!(ceil_log2(1), 0);
    assert_eq!(ceil_log2(2), 1);
    assert_eq!(ceil_log2(3), 2);
    assert_eq!(ceil_log2(4), 2);
    assert_eq!(ceil_log2(5), 3);
    assert_eq!(ceil_log2(8), 3);
    assert_eq!(ceil_log2(16), 4);
}

fn control_for(controls: &[Control], id: ControlId) -> Option<&Control> {
    controls.iter().find(|c| c.id == id)
}

#[test]
fn round_trip_720p_balanced_four_threads() {
    let knobs = AomEncoderConfig {
        width: 1280,
        height: 720,
        quality: Quality::Balanced,
        keyframe_interval: None,
    };
    let c = enc_cfg(knobs, 4, 3000);
    let controls = set_controls(&c);
    // 1280x720 exceeds 640x360, so the fastest preset is selected
    let speed = control_for(&controls, ControlId::CpuUsed).unwrap();
    assert_eq!(speed.value, ControlValue::Num(10));
    // width is not 640, so the row-tiling special case does not apply
    assert!(control_for(&controls, ControlId::TileRows).is_none());
    let cols = control_for(&controls, ControlId::TileColumns).unwrap();
    assert_eq!(cols.value, ControlValue::Num(2));
}

#[test]
fn row_tiling_special_case() {
    for h in [360u32, 480u32] {
        let knobs = AomEncoderConfig {
            width: 640,
            height: h,
            quality: Quality::Balanced,
            keyframe_interval: None,
        };
        let c = enc_cfg(knobs, 4, 1000);
        let controls = set_controls(&c);
        let rows = control_for(&controls, ControlId::TileRows).unwrap();
        assert_eq!(rows.value, ControlValue::Num(2));
        assert!(control_for(&controls, ControlId::TileColumns).is_none());
    }
    // any other combination tiles by columns
    let knobs = AomEncoderConfig {
        width: 640,
        height: 400,
        quality: Quality::Balanced,
        keyframe_interval: None,
    };
    let c = enc_cfg(knobs, 4, 1000);
    let controls = set_controls(&c);
    assert!(control_for(&controls, ControlId::TileRows).is_none());
    assert!(control_for(&controls, ControlId::TileColumns).is_some());
}

#[test]
fn control_list_fixed_toggles() {
    let knobs = AomEncoderConfig {
        width: 1280,
        height: 720,
        quality: Quality::Best,
        keyframe_interval: None,
    };
    let c = enc_cfg(knobs, 4, 3000);
    let controls = set_controls(&c);
    assert_eq!(controls.len(), 41);
    let tune = control_for(&controls, ControlId::TuneContent).unwrap();
    assert_eq!(tune.value, ControlValue::Content(TuneContent::Screen));
    let palette = control_for(&controls, ControlId::EnablePalette).unwrap();
    assert_eq!(palette.value, ControlValue::Num(1));
    let intra = control_for(&controls, ControlId::MaxIntraBitratePct).unwrap();
    assert_eq!(intra.value, ControlValue::Num(300));
    let sb = control_for(&controls, ControlId::SuperblockSize).unwrap();
    assert_eq!(sb.value, ControlValue::Superblock(SuperblockSize::Size64X64));
    let refs = control_for(&controls, ControlId::MaxReferenceFrames).unwrap();
    assert_eq!(refs.value, ControlValue::Num(3));
    let restoration = control_for(&controls, ControlId::EnableRestoration).unwrap();
    assert_eq!(restoration.value, ControlValue::Num(0));
}

#[test]
fn engine_status_translation() {
    assert_eq!(engine_status(EngineOp::Init, 0), Ok(()));
    assert_eq!(engine_status(EngineOp::Init, 1), Err(CodecError::EngineInit(1)));
    assert_eq!(engine_status(EngineOp::Encode, 5), Err(CodecError::EngineEncode(5)));
    assert_eq!(engine_status(EngineOp::Decode, -1), Err(CodecError::EngineDecode(-1)));
    assert_eq!(engine_status(EngineOp::Reconfig, 7), Err(CodecError::EngineReconfig(7)));
    assert_eq!(engine_status(EngineOp::ConfigDefault, 2), Err(CodecError::ConfigDefault(2)));
}

#[test]
fn control_failures_tolerated() {
    // feature-toggle calls are best-effort: a failure is not fatal
    assert_eq!(engine_status(EngineOp::Control, 0), Ok(()));
    assert_eq!(engine_status(EngineOp::Control, 3), Ok(()));
    assert_eq!(engine_status(EngineOp::Control, -2), Ok(()));
}
