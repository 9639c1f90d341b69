//! The demo game state and its render callback: a scrolling colour gradient
//! whose offsets follow the logical movement keys, plus the audio bridge's
//! scratch buffer.
//!
//! Rendering is specified byte by byte: every byte of the frame is either one
//! of the three written colour components of a pixel — determined by the
//! offsets and the pixel's coordinates alone — or is left untouched.

use vstd::prelude::*;
use crate::input::KeyState;
use vstd::arithmetic::div_mod::{
    lemma_fundamental_div_mod,
    lemma_fundamental_div_mod_converse,
    lemma_div_is_ordered,
    lemma_div_by_multiple,
    lemma_add_mod_noop,
};
use vstd::arithmetic::mul::{lemma_mul_inequality, lemma_mul_nonnegative};

verus! {

/// How far one keypress step moves the gradient.
pub const SCROLL_STEP: u8 = 25;

/// The lowest value the tone offset can reach.
pub const PITCH_MIN: i32 = -250;

/// The highest value the tone offset can reach.
pub const PITCH_MAX: i32 = 250;

/// The game's drawing offsets and tone offset.  The movement keys scroll the
/// gradient by wrapping the offsets and nudge the tone offset one step per
/// frame, clamped to its range.
#[derive(Clone, Copy, PartialEq, Eq, Structural, Debug)]
pub struct Game {
    pub x_offset: u8,
    pub y_offset: u8,
    pub pitch_offset: i32,
}

/// One frame of pixels: a byte region with its geometry.  `stride` bytes per
/// row, `stride / width` bytes per pixel, of which the first three are
/// written as colour components.
#[derive(Debug)]
pub struct PixelBuffer {
    pub data: Vec<u8>,
    pub height: i32,
    pub width: i32,
    pub stride: i32,
}

impl PixelBuffer {
    /// Bytes per pixel, recovered from the row stride.
    pub open spec fn spec_bpp(self) -> int {
        self.stride as int / self.width as int
    }

    /// Positive dimensions, at least three bytes per pixel, and a byte
    /// region that covers every row; the total size fits the protocol's
    /// signed 32-bit fields.
    pub open spec fn well_formed(self) -> bool {
        &&& 0 < self.width
        &&& 0 < self.height
        &&& 3 * self.width <= self.stride
        &&& self.height * self.stride <= self.data@.len()
        &&& self.height * self.stride <= i32::MAX
    }
}

/// An interleaved block of audio samples to be handed to the audio server.
#[derive(Debug)]
pub struct SoundBuffer {
    pub data: Vec<u8>,
    pub bytes_per_sample: usize,
    pub sample_rate: u32,
    pub num_channels: u8,
}

/// The audio bridge's scratch buffer for a server request of exactly
/// `length` bytes: zeroed, with 32-bit samples, ready for the sample-render
/// callback to fill.
pub fn prepare_sound_buffer(length: usize, sample_rate: u32, num_channels: u8) -> (b: SoundBuffer)
    ensures
        b.data@.len() == length,
        forall|i: int| 0 <= i < b.data@.len() ==> b.data@[i] == 0,
        b.bytes_per_sample == 4,
        b.sample_rate == sample_rate,
        b.num_channels == num_channels,
{
    let mut data: Vec<u8> = Vec::new();
    let mut i: usize = 0;
    while i < length
        invariant
            i <= length,
            data@.len() == i,
            forall|j: int| 0 <= j < i ==> data@[j] == 0,
        decreases length - i,
    {
        data.push(0);
        i = i + 1;
    }
    SoundBuffer { data, bytes_per_sample: 4, sample_rate, num_channels }
}

/// A base byte advanced by `off` with wrap-around.
pub open spec fn wrap_u8(base: u8, off: int) -> u8 {
    ((base + off) % 256) as u8
}

/// What one byte of the frame holds after rendering with offsets
/// `(xo, yo)`: bytes inside a pixel's first three components hold the
/// gradient pattern, every other byte keeps its prior value.
pub open spec fn spec_rendered_byte(
    xo: u8,
    yo: u8,
    width: int,
    height: int,
    stride: int,
    prior: Seq<u8>,
    i: int,
) -> u8 {
    let bpp = stride / width;
    let y = i / stride;
    let r = i % stride;
    let x = r / bpp;
    let c = r % bpp;
    if y < height && x < width && c < 3 {
        if c == 0 {
            wrap_u8(xo, x)
        } else if c == 1 {
            wrap_u8(yo, y)
        } else {
            0u8
        }
    } else {
        prior[i]
    }
}

/// What one byte holds while rendering is part way through: pixels before
/// `(rows, cols)` in row-major order are rendered, the rest still hold their
/// prior value.
pub open spec fn spec_partially_rendered_byte(
    xo: u8,
    yo: u8,
    width: int,
    height: int,
    stride: int,
    prior: Seq<u8>,
    i: int,
    rows: int,
    cols: int,
) -> u8 {
    let bpp = stride / width;
    let y = i / stride;
    let r = i % stride;
    let x = r / bpp;
    let c = r % bpp;
    if (y < rows || (y == rows && x < cols)) && y < height && x < width && c < 3 {
        if c == 0 {
            wrap_u8(xo, x)
        } else if c == 1 {
            wrap_u8(yo, y)
        } else {
            0u8
        }
    } else {
        prior[i]
    }
}

/// Decomposes a pixel-component index `y * stride + x * bpp + c` back into
/// its row, pixel and component coordinates.
proof fn lemma_pixel_decomposition(stride: int, bpp: int, width: int, y: int, x: int, c: int)
    requires
        0 < width,
        0 < bpp,
        width * bpp <= stride,
        0 <= y,
        0 <= x < width,
        0 <= c < bpp,
    ensures
        (y * stride + x * bpp + c) / stride == y,
        (y * stride + x * bpp + c) % stride == x * bpp + c,
        (x * bpp + c) / bpp == x,
        (x * bpp + c) % bpp == c,
{
    let r = x * bpp + c;
    lemma_mul_nonnegative(x, bpp);
    assert((x + 1) * bpp <= width * bpp) by {
        lemma_mul_inequality(x + 1, width, bpp);
    }
    assert((x + 1) * bpp == x * bpp + bpp) by (nonlinear_arith);
    assert(0 <= r < stride);
    assert(y * stride + r == y * stride + r);
    lemma_fundamental_div_mod_converse(y * stride + r, stride, y, r);
    lemma_fundamental_div_mod_converse(r, bpp, x, c);
}

/// The stride covers all `width` pixels of `bpp = stride / width` bytes, and
/// a stride of at least three bytes per pixel gives `bpp >= 3`.
proof fn lemma_bpp_bounds(stride: int, width: int)
    requires
        0 < width,
        3 * width <= stride,
    ensures
        3 <= stride / width,
        width * (stride / width) <= stride,
{
    assert(3 == (3 * width) / width) by {
        lemma_div_by_multiple(3, width);
    }
    lemma_div_is_ordered(3 * width, stride, width);
    lemma_fundamental_div_mod(stride, width);
}

/// Law: reading a rendered frame back at pixel coordinates yields exactly
/// what the render callback wrote there — for every pixel `(x, y)` the first
/// component holds the `x` gradient, the second the `y` gradient, the third
/// zero, whatever the region held before.
pub proof fn lemma_rendered_pixel(
    xo: u8,
    yo: u8,
    width: int,
    height: int,
    stride: int,
    prior: Seq<u8>,
    y: int,
    x: int,
)
    requires
        0 < width,
        0 < height,
        3 * width <= stride,
        0 <= y < height,
        0 <= x < width,
    ensures
        ({
            let p = y * stride + x * (stride / width);
            &&& spec_rendered_byte(xo, yo, width, height, stride, prior, p) == wrap_u8(xo, x)
            &&& spec_rendered_byte(xo, yo, width, height, stride, prior, p + 1) == wrap_u8(yo, y)
            &&& spec_rendered_byte(xo, yo, width, height, stride, prior, p + 2) == 0
        }),
{
    let bpp = stride / width;
    lemma_bpp_bounds(stride, width);
    lemma_pixel_decomposition(stride, bpp, width, y, x, 0);
    lemma_pixel_decomposition(stride, bpp, width, y, x, 1);
    lemma_pixel_decomposition(stride, bpp, width, y, x, 2);
}

impl Game {
    /// Everything at rest: no scroll, centre tone.
    pub fn new() -> (g: Game)
        ensures
            g == (Game { x_offset: 0, y_offset: 0, pitch_offset: 0 }),
    {
        Game { x_offset: 0, y_offset: 0, pitch_offset: 0 }
    }

    /// The offsets after one timestep under the held keys: left/right scroll
    /// horizontally and bend the tone down/up, up/down scroll vertically and
    /// bend the tone up/down, each clamped to the tone range.
    pub open spec fn spec_update(g: Game, ks: KeyState) -> Game {
        let gx = if ks.left {
            Game {
                x_offset: g.x_offset.wrapping_sub(SCROLL_STEP),
                pitch_offset: if g.pitch_offset > PITCH_MIN {
                    (g.pitch_offset - 1) as i32
                } else {
                    g.pitch_offset
                },
                ..g
            }
        } else if ks.right {
            Game {
                x_offset: g.x_offset.wrapping_add(SCROLL_STEP),
                pitch_offset: if g.pitch_offset < PITCH_MAX {
                    (g.pitch_offset + 1) as i32
                } else {
                    g.pitch_offset
                },
                ..g
            }
        } else {
            g
        };
        if ks.up {
            Game {
                y_offset: gx.y_offset.wrapping_sub(SCROLL_STEP),
                pitch_offset: if gx.pitch_offset < PITCH_MAX {
                    (gx.pitch_offset + 1) as i32
                } else {
                    gx.pitch_offset
                },
                ..gx
            }
        } else if ks.down {
            Game {
                y_offset: gx.y_offset.wrapping_add(SCROLL_STEP),
                pitch_offset: if gx.pitch_offset > PITCH_MIN {
                    (gx.pitch_offset - 1) as i32
                } else {
                    gx.pitch_offset
                },
                ..gx
            }
        } else {
            gx
        }
    }

    /// Advances the offsets for one timestep and renders the frame with the
    /// new offsets.
    pub fn update_and_render(&mut self, pixel_buffer: &mut PixelBuffer, keystate: &KeyState)
        requires
            old(pixel_buffer).well_formed(),
        ensures
            *final(self) == Self::spec_update(*old(self), *keystate),
            final(pixel_buffer).width == old(pixel_buffer).width,
            final(pixel_buffer).height == old(pixel_buffer).height,
            final(pixel_buffer).stride == old(pixel_buffer).stride,
            final(pixel_buffer).data@.len() == old(pixel_buffer).data@.len(),
            forall|i: int|
                0 <= i < final(pixel_buffer).data@.len() ==> final(pixel_buffer).data@[i]
                    == spec_rendered_byte(
                    final(self).x_offset,
                    final(self).y_offset,
                    old(pixel_buffer).width as int,
                    old(pixel_buffer).height as int,
                    old(pixel_buffer).stride as int,
                    old(pixel_buffer).data@,
                    i,
                ),
    {
        if keystate.left {
            self.x_offset = self.x_offset.wrapping_sub(SCROLL_STEP);
            if self.pitch_offset > PITCH_MIN {
                self.pitch_offset = self.pitch_offset - 1;
            }
        } else if keystate.right {
            self.x_offset = self.x_offset.wrapping_add(SCROLL_STEP);
            if self.pitch_offset < PITCH_MAX {
                self.pitch_offset = self.pitch_offset + 1;
            }
        }
        if keystate.up {
            self.y_offset = self.y_offset.wrapping_sub(SCROLL_STEP);
            if self.pitch_offset < PITCH_MAX {
                self.pitch_offset = self.pitch_offset + 1;
            }
        } else if keystate.down {
            self.y_offset = self.y_offset.wrapping_add(SCROLL_STEP);
            if self.pitch_offset > PITCH_MIN {
                self.pitch_offset = self.pitch_offset - 1;
            }
        }
        self.render(pixel_buffer);
    }

    /// Fills the three colour components of every pixel with the gradient
    /// pattern and touches nothing else.
    #[verifier::rlimit(100)]
    fn render(&self, pb: &mut PixelBuffer)
        requires
            old(pb).well_formed(),
        ensures
            final(pb).width == old(pb).width,
            final(pb).height == old(pb).height,
            final(pb).stride == old(pb).stride,
            final(pb).data@.len() == old(pb).data@.len(),
            forall|i: int|
                0 <= i < final(pb).data@.len() ==> final(pb).data@[i] == spec_rendered_byte(
                    self.x_offset,
                    self.y_offset,
                    old(pb).width as int,
                    old(pb).height as int,
                    old(pb).stride as int,
                    old(pb).data@,
                    i,
                ),
    {
        let height = pb.height;
        let width = pb.width;
        let stride = pb.stride;
        let bytes_per_pixel = stride / width;
        proof {
            lemma_bpp_bounds(stride as int, width as int);
        }
        let ghost prior = pb.data@;
        let mut y: i32 = 0;
        while y < height
            invariant
                0 <= y <= height,
                pb.width == width,
                pb.height == height,
                pb.stride == stride,
                pb.well_formed(),
                bytes_per_pixel == stride as int / width as int,
                3 <= bytes_per_pixel,
                width * bytes_per_pixel <= stride,
                prior.len() == pb.data@.len(),
                forall|i: int|
                    0 <= i < pb.data@.len() ==> pb.data@[i] == spec_partially_rendered_byte(
                        self.x_offset,
                        self.y_offset,
                        width as int,
                        height as int,
                        stride as int,
                        prior,
                        i,
                        y as int,
                        0,
                    ),
            decreases height - y,
        {
            let mut x: i32 = 0;
            while x < width
                invariant
                    0 <= y < height,
                    0 <= x <= width,
                    pb.width == width,
                    pb.height == height,
                    pb.stride == stride,
                    pb.well_formed(),
                    bytes_per_pixel == stride as int / width as int,
                    3 <= bytes_per_pixel,
                    width * bytes_per_pixel <= stride,
                    prior.len() == pb.data@.len(),
                    forall|i: int|
                        0 <= i < pb.data@.len() ==> pb.data@[i] == spec_partially_rendered_byte(
                            self.x_offset,
                            self.y_offset,
                            width as int,
                            height as int,
                            stride as int,
                            prior,
                            i,
                            y as int,
                            x as int,
                        ),
                decreases width - x,
            {
                proof {
                    assert((y + 1) * stride <= height * stride) by {
                        lemma_mul_inequality(y + 1, height as int, stride as int);
                    }
                    assert((x + 1) * bytes_per_pixel <= width * bytes_per_pixel) by {
                        lemma_mul_inequality(x + 1, width as int, bytes_per_pixel as int);
                    }
                    assert((y + 1) * stride == y * stride + stride) by (nonlinear_arith);
                    assert((x + 1) * bytes_per_pixel == x * bytes_per_pixel + bytes_per_pixel)
                        by (nonlinear_arith);
                    lemma_mul_nonnegative(y as int, stride as int);
                    lemma_mul_nonnegative(x as int, bytes_per_pixel as int);
                }
                let pixel_i32 = y * stride + x * bytes_per_pixel;
                let pixel = pixel_i32 as usize;
                let ghost before = pb.data@;
                let b = self.x_offset.wrapping_add((x % 256) as u8);
                let g = self.y_offset.wrapping_add((y % 256) as u8);
                pb.data.set(pixel, b);
                pb.data.set(pixel + 1, g);
                pb.data.set(pixel + 2, 0x00);
                x = x + 1;
                proof {
                    let w = width as int;
                    let h = height as int;
                    let st = stride as int;
                    let bpp = bytes_per_pixel as int;
                    let yy = y as int;
                    let xx = x - 1 as int;
                    let p = yy * st + xx * bpp;
                    lemma_pixel_decomposition(st, bpp, w, yy, xx, 0);
                    lemma_pixel_decomposition(st, bpp, w, yy, xx, 1);
                    lemma_pixel_decomposition(st, bpp, w, yy, xx, 2);
                    assert(b == wrap_u8(self.x_offset, xx)) by {
                        lemma_add_mod_noop(self.x_offset as int, xx, 256);
                    }
                    assert(g == wrap_u8(self.y_offset, yy)) by {
                        lemma_add_mod_noop(self.y_offset as int, yy, 256);
                    }
                    assert forall|i: int| 0 <= i < pb.data@.len() implies pb.data@[i]
                        == spec_partially_rendered_byte(
                        self.x_offset,
                        self.y_offset,
                        w,
                        h,
                        st,
                        prior,
                        i,
                        yy,
                        x as int,
                    ) by {
                        if i == p || i == p + 1 || i == p + 2 {
                        } else {
                            lemma_fundamental_div_mod(i, st);
                            lemma_fundamental_div_mod(i % st, bpp);
                            assert(pb.data@[i] == before[i]);
                            if i / st == yy && (i % st) / bpp == xx && (i % st) % bpp < 3 {
                                assert(i == yy * st + (xx * bpp + (i % st) % bpp)) by (nonlinear_arith)
                                    requires
                                        i == st * (i / st) + i % st,
                                        i % st == bpp * ((i % st) / bpp) + (i % st) % bpp,
                                        i / st == yy,
                                        (i % st) / bpp == xx,
                                ;
                            }
                        }
                    }
                }
            }
            y = y + 1;
            proof {
                assert forall|i: int| 0 <= i < pb.data@.len() implies pb.data@[i]
                    == spec_partially_rendered_byte(
                    self.x_offset,
                    self.y_offset,
                    width as int,
                    height as int,
                    stride as int,
                    prior,
                    i,
                    y as int,
                    0,
                ) by {
                    let st = stride as int;
                    let bpp = bytes_per_pixel as int;
                    lemma_fundamental_div_mod(i, st);
                    lemma_fundamental_div_mod(i % st, bpp);
                }
            }
        }
    }
}

} // verus!
