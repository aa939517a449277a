//! Typed failures, and the translation of native engine status codes into
//! them.

use vstd::prelude::*;

verus! {

/// Everything that can go wrong in this core. The engine-call variants
/// carry the engine's native status code; `InsufficientData` is raised
/// before any engine call; `NoOutput` marks a push that produced zero
/// usable frames, which is distinct from a hard failure.
#[derive(Clone, Copy, Debug, PartialEq, Eq, Structural)]
pub enum CodecError {
    /// The engine failed to produce a baseline configuration.
    ConfigDefault(i32),
    /// The engine rejected session initialization.
    EngineInit(i32),
    /// The engine rejected a frame submitted for compression.
    EngineEncode(i32),
    /// The engine rejected a compressed chunk submitted for decoding.
    EngineDecode(i32),
    /// The engine rejected an in-place configuration update.
    EngineReconfig(i32),
    /// The caller supplied an input buffer smaller than one full frame.
    InsufficientData,
    /// A push produced no usable frame.
    NoOutput,
}

/// The class of engine call a status code came from.
#[derive(Clone, Copy, Debug, PartialEq, Eq, Structural)]
pub enum EngineOp {
    ConfigDefault,
    Init,
    Encode,
    Decode,
    Reconfig,
    /// A feature-toggle call; these are best-effort and never fatal.
    Control,
}

/// The native status code the engine reports for success.
pub const STATUS_OK: i32 = 0;

/// The typed outcome for a native status code of one engine call class.
pub open spec fn spec_engine_status(op: EngineOp, status: i32) -> Result<(), CodecError> {
    if status == STATUS_OK || op is Control {
        Ok(())
    } else {
        match op {
            EngineOp::ConfigDefault => Err(CodecError::ConfigDefault(status)),
            EngineOp::Init => Err(CodecError::EngineInit(status)),
            EngineOp::Encode => Err(CodecError::EngineEncode(status)),
            EngineOp::Decode => Err(CodecError::EngineDecode(status)),
            EngineOp::Reconfig => Err(CodecError::EngineReconfig(status)),
            EngineOp::Control => Ok(()),
        }
    }
}

/// Translates a native engine status into this core's typed failures: zero
/// is success, anything else fails with the error of its call class —
/// except feature-toggle calls, whose failures are tolerated (a missing
/// optional feature costs efficiency, not correctness).
pub fn engine_status(op: EngineOp, status: i32) -> (r: Result<(), CodecError>)
    ensures
        r == spec_engine_status(op, status),
        r is Ok <==> (status == STATUS_OK || op is Control),
{
    if status == STATUS_OK {
        return Ok(());
    }
    match op {
        EngineOp::ConfigDefault => Err(CodecError::ConfigDefault(status)),
        EngineOp::Init => Err(CodecError::EngineInit(status)),
        EngineOp::Encode => Err(CodecError::EngineEncode(status)),
        EngineOp::Decode => Err(CodecError::EngineDecode(status)),
        EngineOp::Reconfig => Err(CodecError::EngineReconfig(status)),
        EngineOp::Control => Ok(()),
    }
}

} // verus!
