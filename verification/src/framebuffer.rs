//! The frame-buffer manager: one presentable frame per trigger.
//!
//! Every frame gets a fresh pool of exactly `height * stride` bytes from the
//! shared-memory allocator; the render callback fills its pixels before the
//! buffer is handed on to be attached and committed.  The returned region is
//! the model of the mapped pool: the shell copies it into the region the
//! compositor maps before attaching.

use vstd::prelude::*;
use crate::game::{Game, PixelBuffer, spec_rendered_byte};
use crate::geometry::FrameGeometry;
use crate::input::KeyState;
use crate::shm::ShmPool;
use vstd::arithmetic::div_mod::lemma_div_by_multiple;

verus! {

/// Produces the next frame for a window of `geometry`: a fresh zeroed pool of
/// exactly `height * stride` bytes, rendered by the game's callback with the
/// offsets advanced one timestep under the held keys.
pub fn produce_frame(geometry: &FrameGeometry, game: &mut Game, keystate: &KeyState) -> (r:
    PixelBuffer)
    requires
        geometry.well_formed(),
        geometry.bytes_per_pixel >= 3,
    ensures
        r.width == geometry.width,
        r.height == geometry.height,
        r.stride == geometry.spec_stride(),
        r.data@.len() == geometry.spec_size(),
        *final(game) == Game::spec_update(*old(game), *keystate),
        forall|i: int|
            0 <= i < r.data@.len() ==> r.data@[i] == spec_rendered_byte(
                final(game).x_offset,
                final(game).y_offset,
                geometry.width as int,
                geometry.height as int,
                geometry.spec_stride(),
                Seq::new(geometry.spec_size() as nat, |j: int| 0u8),
                i,
            ),
{
    let stride = geometry.stride();
    let size = geometry.buffer_size();
    let pool = match ShmPool::allocate(size) {
        Ok(p) => p,
        Err(_) => unreached(),
    };
    let mut frame = PixelBuffer {
        data: pool.data,
        height: geometry.height,
        width: geometry.width,
        stride,
    };
    proof {
        assert(frame.data@ =~= Seq::new(geometry.spec_size() as nat, |j: int| 0u8));
        assert(geometry.width * geometry.bytes_per_pixel == geometry.bytes_per_pixel
            * geometry.width) by {
            vstd::arithmetic::mul::lemma_mul_is_commutative(
                geometry.width as int,
                geometry.bytes_per_pixel as int,
            );
        }
        assert(frame.spec_bpp() == geometry.bytes_per_pixel) by {
            lemma_div_by_multiple(geometry.bytes_per_pixel as int, geometry.width as int);
        }
        assert(3 * frame.width <= frame.stride) by {
            vstd::arithmetic::mul::lemma_mul_inequality(
                3,
                geometry.bytes_per_pixel as int,
                geometry.width as int,
            );
            assert(3 * geometry.width == geometry.width * 3) by {
                vstd::arithmetic::mul::lemma_mul_is_commutative(3, geometry.width as int);
            }
        }
        assert(frame.well_formed());
    }
    game.update_and_render(&mut frame, keystate);
    frame
}

} // verus!
