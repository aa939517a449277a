//! Non-owning view of one decoded picture: format tag, display size and
//! per-plane strides, without the pixel data itself.

use vstd::prelude::*;

verus! {

/// Metadata of one decoded picture, in plain values: the engine's pixel
/// format tag, display width and height, and per-plane byte strides.
#[derive(Clone, Copy, Debug, PartialEq, Eq)]
pub struct ImageInfo {
    pub fmt: u32,
    pub d_w: u32,
    pub d_h: u32,
    pub stride: [i32; 3],
}

/// One decoded image. An image drained through a session's extraction
/// iterator is backed by the engine's internal buffer ring: it is valid
/// only until the next pull or session destruction and must not be freed
/// by the caller. A standalone image owns its native handle and releases
/// it exactly once, and only if non-null.
#[derive(Debug)]
pub struct Image {
    /// Whether a picture is present (a null standalone image has none).
    pub present: bool,
    /// Whether the backing buffer belongs to the engine's buffer ring.
    pub engine_owned: bool,
    pub info: ImageInfo,
}

impl Image {
    /// A null standalone image, for default/empty state.
    pub fn new() -> (r: Image)
        ensures
            !r.present,
            !r.engine_owned,
    {
        Image {
            present: false,
            engine_owned: false,
            info: ImageInfo { fmt: 0, d_w: 0, d_h: 0, stride: [0, 0, 0] },
        }
    }

    /// Whether no picture is present.
    pub fn is_null(&self) -> (r: bool)
        ensures
            r == !self.present,
    {
        !self.present
    }

    /// The engine's pixel format tag of the present picture.
    pub fn format(&self) -> (r: u32)
        requires
            self.present,
        ensures
            r == self.info.fmt,
    {
        self.info.fmt
    }

    /// Display width of the present picture.
    pub fn width(&self) -> (r: usize)
        requires
            self.present,
        ensures
            r == self.info.d_w as usize,
    {
        self.info.d_w as usize
    }

    /// Display height of the present picture.
    pub fn height(&self) -> (r: usize)
        requires
            self.present,
        ensures
            r == self.info.d_h as usize,
    {
        self.info.d_h as usize
    }

    /// Per-plane byte strides of the present picture.
    pub fn stride(&self) -> (r: Vec<i32>)
        requires
            self.present,
        ensures
            r@ == self.info.stride@,
    {
        let mut v: Vec<i32> = Vec::new();
        v.push(self.info.stride[0]);
        v.push(self.info.stride[1]);
        v.push(self.info.stride[2]);
        proof {
            assert(v@ =~= self.info.stride@);
        }
        v
    }

    /// Ends this image's lifetime and decides the release of the native
    /// handle: the caller must free it exactly when the image is a
    /// standalone one holding a picture; an engine-owned picture belongs
    /// to the engine's buffer ring and must never be freed here.
    pub fn release(self) -> (r: bool)
        ensures
            r == (self.present && !self.engine_owned),
    {
        self.present && !self.engine_owned
    }
}

} // verus!
