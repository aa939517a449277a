//! Decoder session: one live engine context accepting variable-size
//! compressed chunks, and the extraction of the decoded images it buffers.

use vstd::prelude::*;

use crate::extract::IterState;
use crate::image::{Image, ImageInfo};

verus! {

/// Decoder initialization record: picture dimensions are discovered from
/// the stream, so the size hint is zero; the thread count is supplied by
/// the host process; reduced output bit-depth is allowed.
#[derive(Clone, Copy, Debug, PartialEq, Eq, Structural)]
pub struct DecoderConfig {
    pub threads: u32,
    pub width: u32,
    pub height: u32,
    pub allow_lowbitdepth: bool,
}

/// One byte chunk handed to the engine's push-decode call; a flush
/// submits a zero-length chunk to request any frame the engine is
/// internally holding back.
#[derive(Clone, Copy, Debug, PartialEq, Eq, Structural)]
pub struct ChunkSubmission {
    pub len: usize,
}

/// A decoder session owning exactly one live engine context. It is never
/// copied, and destroying it consumes it, so a second destruction is
/// unrepresentable.
#[derive(Debug)]
pub struct AomDecoder {
    cfg: DecoderConfig,
}

impl AomDecoder {
    /// The initialization record this session was created with.
    pub closed spec fn config_spec(&self) -> DecoderConfig {
        self.cfg
    }

    /// Creates a decoder session: zero-size hint, externally supplied
    /// thread count, reduced output bit-depth allowed. The surrounding
    /// program initializes the engine context from the same record.
    pub fn new(threads: u32) -> (r: AomDecoder)
        requires
            threads > 0,
        ensures
            r.config_spec() == (DecoderConfig {
                threads,
                width: 0,
                height: 0,
                allow_lowbitdepth: true,
            }),
    {
        AomDecoder { cfg: DecoderConfig { threads, width: 0, height: 0, allow_lowbitdepth: true } }
    }

    /// The initialization record, for the engine call.
    pub fn config(&self) -> (r: DecoderConfig)
        ensures
            r == self.config_spec(),
    {
        self.cfg
    }

    /// Submits one compressed chunk and starts a fresh extraction
    /// sequence over whatever images the engine buffers for it. Whether
    /// the chunk is acceptable is the engine's decision; its status is
    /// translated by the caller through the engine-status mapping.
    pub fn decode<'a>(&'a mut self, data: &[u8]) -> (r: (ChunkSubmission, DecodeFrames<'a>))
        ensures
            r.0.len == data@.len(),
            r.1.state is Draining,
    {
        let chunk = ChunkSubmission { len: data.len() };
        let s: &'a AomDecoder = self;
        (chunk, DecodeFrames { session: s, state: IterState::Draining })
    }

    /// Requests any frame the engine is holding back, by submitting a
    /// zero-length chunk; same return shape as `decode`.
    pub fn flush<'a>(&'a mut self) -> (r: (ChunkSubmission, DecodeFrames<'a>))
        ensures
            r.0.len == 0,
            r.1.state is Draining,
    {
        let chunk = ChunkSubmission { len: 0 };
        let s: &'a AomDecoder = self;
        (chunk, DecodeFrames { session: s, state: IterState::Draining })
    }

    /// Ends the session, consuming it. The engine context is released at
    /// the same moment by the surrounding program; a failure of that
    /// release is fatal, since it implies unrecoverable native-library
    /// state corruption. Ownership makes a second destruction
    /// unrepresentable.
    pub fn destroy(self) {
    }
}

/// Extraction sequence over the images one chunk produced. It borrows its
/// session, so it cannot outlive the session nor overlap a competing
/// push on it.
pub struct DecodeFrames<'a> {
    pub session: &'a AomDecoder,
    pub state: IterState,
}

impl<'a> DecodeFrames<'a> {
    /// Advances the sequence by one engine answer: the metadata of the
    /// next buffered image, or nothing when the engine has no more. A
    /// returned image is engine-owned. A null answer exhausts the
    /// sequence for good; it is an empty end, not an error.
    pub fn next(&mut self, pulled: Option<ImageInfo>) -> (r: Option<Image>)
        ensures
            old(self).state is Exhausted ==> final(self).state is Exhausted && r is None,
            old(self).state is Draining ==> match pulled {
                None => final(self).state is Exhausted && r is None,
                Some(info) => final(self).state is Draining && (r matches Some(img) && img.present
                    && img.engine_owned && img.info == info),
            },
    {
        match self.state {
            IterState::Exhausted => None,
            IterState::Draining => match pulled {
                None => {
                    self.state = IterState::Exhausted;
                    None
                },
                Some(info) => Some(Image { present: true, engine_owned: true, info }),
            },
        }
    }
}

} // verus!
