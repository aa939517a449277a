//! The per-context feature toggles applied after engine initialization,
//! expressed as a declarative list of (capability, value) pairs that a
//! small interpreter loop in the host program hands to the engine one by
//! one. Toggle application is best-effort: a toggle the engine build does
//! not support is skipped, never fatal.

use vstd::prelude::*;

use crate::config::CodecConfig;

verus! {

/// Engine capability addressed by one control call.
#[derive(Clone, Copy, Debug, PartialEq, Eq, Structural)]
pub enum ControlId {
    CpuUsed,
    EnableCdef,
    EnableTplModel,
    DeltaqMode,
    EnableOrderHint,
    AqMode,
    MaxIntraBitratePct,
    CoeffCostUpdFreq,
    ModeCostUpdFreq,
    MvCostUpdFreq,
    TuneContent,
    EnablePalette,
    TileRows,
    TileColumns,
    RowMt,
    EnableObmc,
    NoiseSensitivity,
    EnableWarpedMotion,
    EnableGlobalMotion,
    EnableRefFrameMvs,
    SuperblockSize,
    EnableCflIntra,
    EnableSmoothIntra,
    EnableAngleDelta,
    EnableFilterIntra,
    IntraDefaultTxOnly,
    DisableTrellisQuant,
    EnableDistWtdComp,
    EnableDiffWtdComp,
    EnableDualFilter,
    EnableInterintraComp,
    EnableInterintraWedge,
    EnableIntraEdgeFilter,
    EnableIntrabc,
    EnableMaskedComp,
    EnablePaethIntra,
    EnableQm,
    EnableRectPartitions,
    EnableRestoration,
    EnableSmoothInterintra,
    EnableTx64,
    MaxReferenceFrames,
}

/// The engine's largest coding unit granularity.
#[derive(Clone, Copy, Debug, PartialEq, Eq, Structural)]
pub enum SuperblockSize {
    Size64X64,
    Dynamic,
}

/// Content-type hint the rate-distortion search is tuned for.
#[derive(Clone, Copy, Debug, PartialEq, Eq, Structural)]
pub enum TuneContent {
    Standard,
    Screen,
    Film,
}

/// Value carried by one control call.
#[derive(Clone, Copy, Debug, PartialEq, Eq, Structural)]
pub enum ControlValue {
    Num(u32),
    Superblock(SuperblockSize),
    Content(TuneContent),
}

/// One feature toggle: a capability and the value to set it to.
#[derive(Clone, Copy, Debug, PartialEq, Eq, Structural)]
pub struct Control {
    pub id: ControlId,
    pub value: ControlValue,
}

/// Ceiling of the base-2 logarithm: the smallest `e` with `2^e >= n`.
pub open spec fn clog2(n: int) -> int
    decreases n,
{
    if n <= 1 {
        0
    } else {
        1 + clog2((n + 1) / 2)
    }
}

/// `clog2` is non-negative and at most its argument.
pub proof fn lemma_clog2_le(n: int)
    requires
        n >= 0,
    ensures
        0 <= clog2(n) <= n,
    decreases n,
{
    if n > 1 {
        lemma_clog2_le((n + 1) / 2);
    }
}

/// The smallest `e` with `2^e` at or above `n`, for a positive `n`.
pub fn ceil_log2(n: u32) -> (r: u32)
    requires
        n >= 1,
    ensures
        r as int == clog2(n as int),
    decreases n,
{
    if n <= 1 {
        0
    } else {
        let m: u32 = n / 2 + n % 2;
        assert(m as int == (n as int + 1) / 2);
        proof {
            lemma_clog2_le(m as int);
        }
        1 + ceil_log2(m)
    }
}

/// Speed preset by pixel area, biased toward speed as resolution grows:
/// the engine's fastest real-time presets 8, 9 and 10.
pub open spec fn spec_cpu_speed(w: int, h: int) -> int {
    if w * h <= 320 * 180 {
        8
    } else if w * h <= 640 * 360 {
        9
    } else {
        10
    }
}

/// Speed preset derived from the frame resolution.
pub fn get_cpu_speed(width: u32, height: u32) -> (r: u32)
    requires
        width * height <= u32::MAX,
    ensures
        r as int == spec_cpu_speed(width as int, height as int),
{
    let area: u32 = width * height;
    if area <= 320 * 180 {
        8
    } else if area <= 640 * 360 {
        9
    } else {
        10
    }
}

/// The fixed 64x64 superblock is preferred only with at least four threads
/// on a mid-size frame; otherwise the engine chooses dynamically.
pub open spec fn spec_super_block_size(w: int, h: int, threads: int) -> SuperblockSize {
    if threads >= 4 && 960 * 540 <= w * h && w * h < 1920 * 1080 {
        SuperblockSize::Size64X64
    } else {
        SuperblockSize::Dynamic
    }
}

/// Superblock granularity derived from resolution and thread count.
pub fn get_super_block_size(width: u32, height: u32, threads: u32) -> (r: SuperblockSize)
    requires
        width * height <= u32::MAX,
    ensures
        r == spec_super_block_size(width as int, height as int, threads as int),
{
    let resolution: u32 = width * height;
    if threads >= 4 && resolution >= 960 * 540 && resolution < 1920 * 1080 {
        SuperblockSize::Size64X64
    } else {
        SuperblockSize::Dynamic
    }
}

/// Row-based tiling is chosen only for one narrow combination that works
/// around a known limitation on constrained platforms; every other
/// configuration tiles by columns.
pub open spec fn row_tiling(c: CodecConfig) -> bool {
    c.threads == 4 && c.width == 640 && (c.height == 360 || c.height == 480)
}

/// The tiling control: rows for the special-cased combination, columns
/// otherwise, with `clog2(threads)` tiles either way.
pub open spec fn spec_tile_control(c: CodecConfig) -> Control {
    Control {
        id: if row_tiling(c) {
            ControlId::TileRows
        } else {
            ControlId::TileColumns
        },
        value: ControlValue::Num(clog2(c.threads as int) as u32),
    }
}

/// The complete toggle list for one configuration, in application order:
/// the resolution-derived speed preset, screen-content tuning with palette
/// mode, the tiling layout, row-multithreading, a 300% cap on intra-frame
/// bitrate spend, and the fixed set of disabled search and filter features
/// whose cost exceeds their real-time benefit.
pub open spec fn spec_controls(c: CodecConfig) -> Seq<Control> {
    seq![
        Control {
            id: ControlId::CpuUsed,
            value: ControlValue::Num(spec_cpu_speed(c.width as int, c.height as int) as u32),
        },
        Control { id: ControlId::EnableCdef, value: ControlValue::Num(1) },
        Control { id: ControlId::EnableTplModel, value: ControlValue::Num(0) },
        Control { id: ControlId::DeltaqMode, value: ControlValue::Num(0) },
        Control { id: ControlId::EnableOrderHint, value: ControlValue::Num(0) },
        Control { id: ControlId::AqMode, value: ControlValue::Num(3) },
        Control { id: ControlId::MaxIntraBitratePct, value: ControlValue::Num(300) },
        Control { id: ControlId::CoeffCostUpdFreq, value: ControlValue::Num(3) },
        Control { id: ControlId::ModeCostUpdFreq, value: ControlValue::Num(3) },
        Control { id: ControlId::MvCostUpdFreq, value: ControlValue::Num(3) },
        Control { id: ControlId::TuneContent, value: ControlValue::Content(TuneContent::Screen) },
        Control { id: ControlId::EnablePalette, value: ControlValue::Num(1) },
        spec_tile_control(c),
        Control { id: ControlId::RowMt, value: ControlValue::Num(1) },
        Control { id: ControlId::EnableObmc, value: ControlValue::Num(0) },
        Control { id: ControlId::NoiseSensitivity, value: ControlValue::Num(0) },
        Control { id: ControlId::EnableWarpedMotion, value: ControlValue::Num(0) },
        Control { id: ControlId::EnableGlobalMotion, value: ControlValue::Num(0) },
        Control { id: ControlId::EnableRefFrameMvs, value: ControlValue::Num(0) },
        Control {
            id: ControlId::SuperblockSize,
            value: ControlValue::Superblock(
                spec_super_block_size(c.width as int, c.height as int, c.threads as int),
            ),
        },
        Control { id: ControlId::EnableCflIntra, value: ControlValue::Num(0) },
        Control { id: ControlId::EnableSmoothIntra, value: ControlValue::Num(0) },
        Control { id: ControlId::EnableAngleDelta, value: ControlValue::Num(0) },
        Control { id: ControlId::EnableFilterIntra, value: ControlValue::Num(0) },
        Control { id: ControlId::IntraDefaultTxOnly, value: ControlValue::Num(1) },
        Control { id: ControlId::DisableTrellisQuant, value: ControlValue::Num(1) },
        Control { id: ControlId::EnableDistWtdComp, value: ControlValue::Num(0) },
        Control { id: ControlId::EnableDiffWtdComp, value: ControlValue::Num(0) },
        Control { id: ControlId::EnableDualFilter, value: ControlValue::Num(0) },
        Control { id: ControlId::EnableInterintraComp, value: ControlValue::Num(0) },
        Control { id: ControlId::EnableInterintraWedge, value: ControlValue::Num(0) },
        Control { id: ControlId::EnableIntraEdgeFilter, value: ControlValue::Num(0) },
        Control { id: ControlId::EnableIntrabc, value: ControlValue::Num(0) },
        Control { id: ControlId::EnableMaskedComp, value: ControlValue::Num(0) },
        Control { id: ControlId::EnablePaethIntra, value: ControlValue::Num(0) },
        Control { id: ControlId::EnableQm, value: ControlValue::Num(0) },
        Control { id: ControlId::EnableRectPartitions, value: ControlValue::Num(0) },
        Control { id: ControlId::EnableRestoration, value: ControlValue::Num(0) },
        Control { id: ControlId::EnableSmoothInterintra, value: ControlValue::Num(0) },
        Control { id: ControlId::EnableTx64, value: ControlValue::Num(0) },
        Control { id: ControlId::MaxReferenceFrames, value: ControlValue::Num(3) },
    ]
}

/// Derives the full toggle list for a configuration.
#[verifier::rlimit(60)]
pub fn set_controls(c: &CodecConfig) -> (r: Vec<Control>)
    requires
        c.threads >= 1,
        c.width * c.height <= u32::MAX,
    ensures
        r@ == spec_controls(*c),
{
    let mut v: Vec<Control> = Vec::new();
    let speed = get_cpu_speed(c.width, c.height);
    v.push(Control { id: ControlId::CpuUsed, value: ControlValue::Num(speed) });
    v.push(Control { id: ControlId::EnableCdef, value: ControlValue::Num(1) });
    v.push(Control { id: ControlId::EnableTplModel, value: ControlValue::Num(0) });
    v.push(Control { id: ControlId::DeltaqMode, value: ControlValue::Num(0) });
    v.push(Control { id: ControlId::EnableOrderHint, value: ControlValue::Num(0) });
    v.push(Control { id: ControlId::AqMode, value: ControlValue::Num(3) });
    v.push(Control { id: ControlId::MaxIntraBitratePct, value: ControlValue::Num(300) });
    v.push(Control { id: ControlId::CoeffCostUpdFreq, value: ControlValue::Num(3) });
    v.push(Control { id: ControlId::ModeCostUpdFreq, value: ControlValue::Num(3) });
    v.push(Control { id: ControlId::MvCostUpdFreq, value: ControlValue::Num(3) });
    v.push(Control { id: ControlId::TuneContent, value: ControlValue::Content(TuneContent::Screen) });
    v.push(Control { id: ControlId::EnablePalette, value: ControlValue::Num(1) });
    let tiles = ceil_log2(c.threads);
    let tile_id = if c.threads == 4 && c.width == 640 && (c.height == 360 || c.height == 480) {
        ControlId::TileRows
    } else {
        ControlId::TileColumns
    };
    v.push(Control { id: tile_id, value: ControlValue::Num(tiles) });
    v.push(Control { id: ControlId::RowMt, value: ControlValue::Num(1) });
    v.push(Control { id: ControlId::EnableObmc, value: ControlValue::Num(0) });
    v.push(Control { id: ControlId::NoiseSensitivity, value: ControlValue::Num(0) });
    v.push(Control { id: ControlId::EnableWarpedMotion, value: ControlValue::Num(0) });
    v.push(Control { id: ControlId::EnableGlobalMotion, value: ControlValue::Num(0) });
    v.push(Control { id: ControlId::EnableRefFrameMvs, value: ControlValue::Num(0) });
    let sb = get_super_block_size(c.width, c.height, c.threads);
    v.push(Control { id: ControlId::SuperblockSize, value: ControlValue::Superblock(sb) });
    v.push(Control { id: ControlId::EnableCflIntra, value: ControlValue::Num(0) });
    v.push(Control { id: ControlId::EnableSmoothIntra, value: ControlValue::Num(0) });
    v.push(Control { id: ControlId::EnableAngleDelta, value: ControlValue::Num(0) });
    v.push(Control { id: ControlId::EnableFilterIntra, value: ControlValue::Num(0) });
    v.push(Control { id: ControlId::IntraDefaultTxOnly, value: ControlValue::Num(1) });
    v.push(Control { id: ControlId::DisableTrellisQuant, value: ControlValue::Num(1) });
    v.push(Control { id: ControlId::EnableDistWtdComp, value: ControlValue::Num(0) });
    v.push(Control { id: ControlId::EnableDiffWtdComp, value: ControlValue::Num(0) });
    v.push(Control { id: ControlId::EnableDualFilter, value: ControlValue::Num(0) });
    v.push(Control { id: ControlId::EnableInterintraComp, value: ControlValue::Num(0) });
    v.push(Control { id: ControlId::EnableInterintraWedge, value: ControlValue::Num(0) });
    v.push(Control { id: ControlId::EnableIntraEdgeFilter, value: ControlValue::Num(0) });
    v.push(Control { id: ControlId::EnableIntrabc, value: ControlValue::Num(0) });
    v.push(Control { id: ControlId::EnableMaskedComp, value: ControlValue::Num(0) });
    v.push(Control { id: ControlId::EnablePaethIntra, value: ControlValue::Num(0) });
    v.push(Control { id: ControlId::EnableQm, value: ControlValue::Num(0) });
    v.push(Control { id: ControlId::EnableRectPartitions, value: ControlValue::Num(0) });
    v.push(Control { id: ControlId::EnableRestoration, value: ControlValue::Num(0) });
    v.push(Control { id: ControlId::EnableSmoothInterintra, value: ControlValue::Num(0) });
    v.push(Control { id: ControlId::EnableTx64, value: ControlValue::Num(0) });
    v.push(Control { id: ControlId::MaxReferenceFrames, value: ControlValue::Num(3) });
    proof {
        assert(v@ =~= spec_controls(*c));
    }
    v
}

} // verus!
