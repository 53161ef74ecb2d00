//! The glyph atlas: a single-channel texture the GPU reads glyphs from.
//!
//! The GPU-side texture is opaque; this model carries its exact intended
//! contents, texel by texel, so that every partial update the layout engine
//! emits is pinned down: the bytes land row-major inside the given
//! sub-rectangle and nothing outside it moves. The host mirrors each update
//! verbatim onto the device texture.

use crate::MAX_TEXTURE_DIMENSION;
use vstd::prelude::*;

verus! {

/// A sub-rectangle of the atlas in texel coordinates, `min` inclusive and
/// `max` exclusive, as the layout engine reports update rectangles.
#[derive(Clone, Copy, Debug, PartialEq, Eq, Structural)]
pub struct Region {
    pub min_x: u32,
    pub min_y: u32,
    pub max_x: u32,
    pub max_y: u32,
}

impl Region {
    /// The corners are ordered.
    pub open spec fn wf(self) -> bool {
        self.min_x <= self.max_x && self.min_y <= self.max_y
    }

    pub open spec fn spec_width(self) -> int {
        self.max_x - self.min_x
    }

    pub open spec fn spec_height(self) -> int {
        self.max_y - self.min_y
    }

    /// The texel (x, y) lies inside this region.
    pub open spec fn contains(self, x: int, y: int) -> bool {
        self.min_x <= x < self.max_x && self.min_y <= y < self.max_y
    }

    /// Row-major offset of the texel (x, y) within this region's data.
    pub open spec fn data_index(self, x: int, y: int) -> int {
        (y - self.min_y) * self.spec_width() + (x - self.min_x)
    }

    pub fn width(&self) -> (w: u32)
        requires
            self.wf(),
        ensures
            w == self.spec_width(),
    {
        self.max_x - self.min_x
    }

    pub fn height(&self) -> (h: u32)
        requires
            self.wf(),
        ensures
            h == self.spec_height(),
    {
        self.max_y - self.min_y
    }
}

/// Offsets in a row-major grid stay inside the grid.
proof fn lemma_row_major_bound(x: int, y: int, w: int, h: int)
    requires
        0 <= x < w,
        0 <= y < h,
    ensures
        0 <= y * w + x < w * h,
{
    assert(0 <= y * w + x < w * h) by (nonlinear_arith)
        requires
            0 <= x < w,
            0 <= y < h,
    ;
}

/// Two texel coordinates with the same row-major offset are the same texel.
proof fn lemma_row_major_injective(x1: int, y1: int, x2: int, y2: int, w: int)
    requires
        0 <= x1 < w,
        0 <= x2 < w,
        0 <= y1,
        0 <= y2,
        y1 * w + x1 == y2 * w + x2,
    ensures
        x1 == x2 && y1 == y2,
{
    assert(x1 == x2 && y1 == y2) by (nonlinear_arith)
        requires
            0 <= x1 < w,
            0 <= x2 < w,
            0 <= y1,
            0 <= y2,
            y1 * w + x1 == y2 * w + x2,
    ;
}

/// Relies on std's `vec![elem; n]` (`alloc::vec::from_elem`): a vector of
/// `n` copies of the element; for `u8` cloning is copying, so every byte
/// is the given one.
#[verifier::external_body]
fn zeroed_bytes(n: usize) -> (v: Vec<u8>)
    ensures
        v@.len() == n,
        forall|i: int| 0 <= i < n ==> v@[i] == 0u8,
{
    vec![0u8; n]
}

/// The CPU model of the atlas texture: dimensions and the exact texel
/// contents the GPU copy must hold.
pub struct Cache {
    pub width: u32,
    pub height: u32,
    pub texels: Vec<u8>,
}

impl Cache {
    /// Dimensions are positive, within the device limit, and the texel
    /// store covers the whole area.
    pub open spec fn wf(self) -> bool {
        &&& 1 <= self.width <= MAX_TEXTURE_DIMENSION
        &&& 1 <= self.height <= MAX_TEXTURE_DIMENSION
        &&& self.texels@.len() == self.width * self.height
    }

    /// The texel at (x, y), row-major.
    pub open spec fn spec_texel(self, x: int, y: int) -> u8 {
        self.texels@[y * self.width + x]
    }

    /// Allocates an atlas of the given dimensions with every texel zero.
    pub fn new(width: u32, height: u32) -> (c: Cache)
        requires
            1 <= width <= MAX_TEXTURE_DIMENSION,
            1 <= height <= MAX_TEXTURE_DIMENSION,
        ensures
            c.wf(),
            c.width == width,
            c.height == height,
            forall|x: int, y: int|
                0 <= x < width && 0 <= y < height ==> c.spec_texel(x, y) == 0,
    {
        proof {
            assert(width * height <= MAX_TEXTURE_DIMENSION * MAX_TEXTURE_DIMENSION)
                by (nonlinear_arith)
                requires
                    1 <= width <= MAX_TEXTURE_DIMENSION,
                    1 <= height <= MAX_TEXTURE_DIMENSION,
            ;
        }
        let n: usize = (width as usize) * (height as usize);
        let texels = zeroed_bytes(n);
        let c = Cache { width, height, texels };
        proof {
            assert forall|x: int, y: int|
                0 <= x < width && 0 <= y < height implies c.spec_texel(x, y) == 0 by {
                lemma_row_major_bound(x, y, width as int, height as int);
            }
        }
        c
    }

    /// Reads one texel back; the host and the tests check the mirror
    /// against this.
    pub fn texel(&self, x: u32, y: u32) -> (t: u8)
        requires
            self.wf(),
            x < self.width,
            y < self.height,
        ensures
            t == self.spec_texel(x as int, y as int),
    {
        let total = self.texels.len();
        proof {
            lemma_row_major_bound(x as int, y as int, self.width as int, self.height as int);
            assert((y as int) * (self.width as int) + (x as int) < (total as int));
        }
        self.texels[(y as usize) * (self.width as usize) + (x as usize)]
    }

    /// Writes `data` (row-major, tightly packed) into the sub-rectangle
    /// `rect`: exactly those texels take the corresponding byte of `data`,
    /// every other texel keeps its value, and the dimensions do not move.
    /// The rectangle must lie within the atlas; the layout engine never
    /// emits one that does not.
    pub fn update(&mut self, rect: Region, data: &[u8])
        requires
            old(self).wf(),
            rect.wf(),
            rect.max_x <= old(self).width,
            rect.max_y <= old(self).height,
            data@.len() == rect.spec_width() * rect.spec_height(),
        ensures
            final(self).wf(),
            final(self).width == old(self).width,
            final(self).height == old(self).height,
            forall|x: int, y: int|
                rect.contains(x, y) ==> final(self).spec_texel(x, y) == data@[rect.data_index(
                    x,
                    y,
                )],
            forall|x: int, y: int|
                0 <= x < old(self).width && 0 <= y < old(self).height && !rect.contains(x, y)
                    ==> final(self).spec_texel(x, y) == old(self).spec_texel(x, y),
    {
        let ghost orig = *self;
        let rw = rect.width();
        let w = self.width as usize;
        let mut y = rect.min_y;
        while y < rect.max_y
            invariant
                self.wf(),
                self.width == orig.width,
                self.height == orig.height,
                rw == rect.spec_width(),
                w == orig.width,
                rect.wf(),
                rect.max_x <= orig.width,
                rect.max_y <= orig.height,
                data@.len() == rect.spec_width() * rect.spec_height(),
                rect.min_y <= y <= rect.max_y,
                forall|xx: int, yy: int|
                    rect.contains(xx, yy) && yy < y ==> self.spec_texel(xx, yy)
                        == data@[rect.data_index(xx, yy)],
                forall|xx: int, yy: int|
                    0 <= xx < orig.width && 0 <= yy < orig.height && !(rect.contains(xx, yy)
                        && yy < y) ==> self.spec_texel(xx, yy) == orig.spec_texel(xx, yy),
            decreases rect.max_y - y,
        {
            let mut x = rect.min_x;
            while x < rect.max_x
                invariant
                    self.wf(),
                    self.width == orig.width,
                    self.height == orig.height,
                    rw == rect.spec_width(),
                    w == orig.width,
                    rect.wf(),
                    rect.max_x <= orig.width,
                    rect.max_y <= orig.height,
                    data@.len() == rect.spec_width() * rect.spec_height(),
                    rect.min_y <= y < rect.max_y,
                    rect.min_x <= x <= rect.max_x,
                    forall|xx: int, yy: int|
                        rect.contains(xx, yy) && (yy < y || (yy == y && xx < x))
                            ==> self.spec_texel(xx, yy) == data@[rect.data_index(xx, yy)],
                    forall|xx: int, yy: int|
                        0 <= xx < orig.width && 0 <= yy < orig.height && !(rect.contains(xx, yy)
                            && (yy < y || (yy == y && xx < x))) ==> self.spec_texel(xx, yy)
                            == orig.spec_texel(xx, yy),
                decreases rect.max_x - x,
            {
                proof {
                    lemma_row_major_bound(
                        x as int,
                        y as int,
                        orig.width as int,
                        orig.height as int,
                    );
                    lemma_row_major_bound(
                        x - rect.min_x,
                        y - rect.min_y,
                        rect.spec_width(),
                        rect.spec_height(),
                    );
                }
                let total = self.texels.len();
                let dlen = data.len();
                proof {
                    assert((y as int) * (w as int) + (x as int) < (total as int));
                    assert(((y - rect.min_y) as int) * (rw as int) + ((x - rect.min_x) as int) < (
                    dlen as int));
                }
                let idx: usize = (y as usize) * w + (x as usize);
                let didx: usize = ((y - rect.min_y) as usize) * (rw as usize) + ((x
                    - rect.min_x) as usize);
                let ghost before = *self;
                self.texels[idx] = data[didx];
                proof {
                    assert forall|xx: int, yy: int|
                        rect.contains(xx, yy) && (yy < y || (yy == y && xx < x
                            + 1)) implies self.spec_texel(xx, yy) == data@[rect.data_index(
                        xx,
                        yy,
                    )] by {
                        lemma_row_major_bound(xx, yy, orig.width as int, orig.height as int);
                        if yy * orig.width + xx == idx {
                            lemma_row_major_injective(
                                xx,
                                yy,
                                x as int,
                                y as int,
                                orig.width as int,
                            );
                        }
                    }
                    assert forall|xx: int, yy: int|
                        0 <= xx < orig.width && 0 <= yy < orig.height && !(rect.contains(xx, yy)
                            && (yy < y || (yy == y && xx < x + 1))) implies self.spec_texel(xx, yy)
                        == orig.spec_texel(xx, yy) by {
                        lemma_row_major_bound(xx, yy, orig.width as int, orig.height as int);
                        if yy * orig.width + xx == idx {
                            lemma_row_major_injective(
                                xx,
                                yy,
                                x as int,
                                y as int,
                                orig.width as int,
                            );
                        }
                    }
                }
                x = x + 1;
            }
            y = y + 1;
        }
    }
}

} // verus!
