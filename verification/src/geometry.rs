//! Frame-buffer geometry: the window dimensions chosen by the client (or
//! suggested by the compositor) and the derived stride and pool size.
//!
//! The wire contract requires the shared-memory pool handed to the compositor
//! to hold exactly `height * stride` bytes, with `stride = width *
//! bytes_per_pixel`.  Both products are computed here once, with overflow
//! ruled out by construction, and every other component states its contracts
//! over these two functions.

use vstd::prelude::*;

verus! {

/// Window geometry: positive dimensions whose derived stride and byte size
/// both fit the protocol's signed 32-bit fields.
#[derive(Clone, Copy, PartialEq, Eq, Structural, Debug)]
pub struct FrameGeometry {
    pub width: i32,
    pub height: i32,
    pub bytes_per_pixel: i32,
}

impl FrameGeometry {
    /// The dimensions are positive and the derived products fit in `i32`,
    /// so `stride` and `buffer_size` are well defined.
    pub open spec fn well_formed(self) -> bool {
        &&& 0 < self.width
        &&& 0 < self.height
        &&& 0 < self.bytes_per_pixel
        &&& self.width * self.bytes_per_pixel <= i32::MAX
        &&& self.height * (self.width * self.bytes_per_pixel) <= i32::MAX
    }

    /// Distance in bytes between two rows of the frame buffer.
    pub open spec fn spec_stride(self) -> int {
        self.width * self.bytes_per_pixel
    }

    /// Byte size of the pool backing one frame.
    pub open spec fn spec_size(self) -> int {
        self.height * self.spec_stride()
    }

    /// Validates candidate dimensions; succeeds exactly when they make a
    /// well-formed geometry.
    pub fn new(width: i32, height: i32, bytes_per_pixel: i32) -> (r: Option<FrameGeometry>)
        ensures
            match r {
                Some(g) => {
                    &&& g == (FrameGeometry { width, height, bytes_per_pixel })
                    &&& g.well_formed()
                },
                None => !(FrameGeometry { width, height, bytes_per_pixel }).well_formed(),
            },
    {
        if width <= 0 || height <= 0 || bytes_per_pixel <= 0 {
            return None;
        }
        let stride = match width.checked_mul(bytes_per_pixel) {
            Some(s) => s,
            None => {
                return None;
            },
        };
        match height.checked_mul(stride) {
            Some(_) => Some(FrameGeometry { width, height, bytes_per_pixel }),
            None => None,
        }
    }

    /// `stride = width * bytes_per_pixel`.
    pub fn stride(&self) -> (s: i32)
        requires
            self.well_formed(),
        ensures
            s == self.spec_stride(),
            0 < s,
    {
        proof {
            assert(0 < self.width * self.bytes_per_pixel) by (nonlinear_arith)
                requires
                    0 < self.width,
                    0 < self.bytes_per_pixel,
            ;
        }
        self.width * self.bytes_per_pixel
    }

    /// `size = height * stride`: the exact byte length of the pool that backs
    /// one frame of this geometry.
    pub fn buffer_size(&self) -> (s: i32)
        requires
            self.well_formed(),
        ensures
            s == self.spec_size(),
            0 < s,
    {
        let stride = self.stride();
        proof {
            assert(0 < self.height * stride) by (nonlinear_arith)
                requires
                    0 < self.height,
                    0 < stride,
            ;
        }
        self.height * stride
    }
}

} // verus!
