//! Colors and the pixel grid the camera renders into.

use vstd::prelude::*;

use crate::scalar::{fp_abs, fp_add, fp_mul, fp_sub, tdiv, Scalar, EPSILON, SCALE};
use crate::tuple::Tuple;

verus! {

#[derive(Clone, Copy, PartialEq, Eq, Structural, Debug)]
pub struct Pixel {
    pub r: Scalar,
    pub g: Scalar,
    pub b: Scalar,
}

pub open spec fn px(r: int, g: int, b: int) -> Pixel {
    Pixel { r: Scalar { raw: r as i64 }, g: Scalar { raw: g as i64 }, b: Scalar { raw: b as i64 } }
}

pub open spec fn px_black() -> Pixel {
    px(0, 0, 0)
}

pub open spec fn px_add(a: Pixel, b: Pixel) -> Pixel {
    px(fp_add(a.r@, b.r@), fp_add(a.g@, b.g@), fp_add(a.b@, b.b@))
}

/// Componentwise (Hadamard) product of two colors.
pub open spec fn px_mul(a: Pixel, b: Pixel) -> Pixel {
    px(fp_mul(a.r@, b.r@), fp_mul(a.g@, b.g@), fp_mul(a.b@, b.b@))
}

pub open spec fn px_scale(a: Pixel, s: int) -> Pixel {
    px(fp_mul(a.r@, s), fp_mul(a.g@, s), fp_mul(a.b@, s))
}

/// One channel scaled by 255, truncated, and clamped into a byte.
pub open spec fn px_channel_byte(v: int) -> int {
    let t = tdiv(fp_mul(v, 255 * SCALE), SCALE as int);
    if t < 0 {
        0
    } else if t > 255 {
        255
    } else {
        t
    }
}

impl Pixel {
    pub fn rgb(r: Scalar, g: Scalar, b: Scalar) -> (p: Pixel)
        ensures
            p == (Pixel { r, g, b }),
    {
        Pixel { r, g, b }
    }

    pub fn red() -> (p: Pixel)
        ensures
            p == px(SCALE as int, 0, 0),
    {
        Pixel { r: Scalar { raw: SCALE }, g: Scalar { raw: 0 }, b: Scalar { raw: 0 } }
    }

    pub fn green() -> (p: Pixel)
        ensures
            p == px(0, SCALE as int, 0),
    {
        Pixel { r: Scalar { raw: 0 }, g: Scalar { raw: SCALE }, b: Scalar { raw: 0 } }
    }

    pub fn blue() -> (p: Pixel)
        ensures
            p == px(0, 0, SCALE as int),
    {
        Pixel { r: Scalar { raw: 0 }, g: Scalar { raw: 0 }, b: Scalar { raw: SCALE } }
    }

    pub fn black() -> (p: Pixel)
        ensures
            p == px_black(),
    {
        Pixel { r: Scalar { raw: 0 }, g: Scalar { raw: 0 }, b: Scalar { raw: 0 } }
    }

    pub fn white() -> (p: Pixel)
        ensures
            p == px(SCALE as int, SCALE as int, SCALE as int),
    {
        Pixel { r: Scalar { raw: SCALE }, g: Scalar { raw: SCALE }, b: Scalar { raw: SCALE } }
    }

    /// The channels as a tuple with `w == -1`, a marker that the value is
    /// neither a point nor a vector.
    pub fn to_tuple(&self) -> (t: Tuple)
        ensures
            t == (Tuple { x: self.r, y: self.g, z: self.b, w: Scalar { raw: (-SCALE) as i64 } }),
    {
        Tuple { x: self.r, y: self.g, z: self.b, w: Scalar { raw: -SCALE } }
    }

    pub fn add(self, rhs: Pixel) -> (p: Pixel)
        ensures
            p == px_add(self, rhs),
    {
        Pixel { r: self.r.add(rhs.r), g: self.g.add(rhs.g), b: self.b.add(rhs.b) }
    }

    /// Componentwise product of two colors.
    pub fn mul(self, rhs: Pixel) -> (p: Pixel)
        ensures
            p == px_mul(self, rhs),
    {
        Pixel { r: self.r.mul(rhs.r), g: self.g.mul(rhs.g), b: self.b.mul(rhs.b) }
    }

    /// Each channel scaled by one scalar.
    pub fn scale(self, s: Scalar) -> (p: Pixel)
        ensures
            p == px_scale(self, s@),
    {
        Pixel { r: self.r.mul(s), g: self.g.mul(s), b: self.b.mul(s) }
    }

    /// The channels scaled by 255 and clamped into bytes.
    pub fn as_array_u8(&self) -> (bytes: [u8; 3])
        ensures
            bytes[0] == px_channel_byte(self.r@),
            bytes[1] == px_channel_byte(self.g@),
            bytes[2] == px_channel_byte(self.b@),
    {
        [channel_byte(self.r), channel_byte(self.g), channel_byte(self.b)]
    }

    /// True when every channel differs by less than the tolerance.
    pub fn approx_eq(&self, rhs: &Pixel) -> (res: bool)
        ensures
            res == (fp_abs(fp_sub(self.r@, rhs.r@)) < EPSILON && fp_abs(fp_sub(self.g@, rhs.g@))
                < EPSILON && fp_abs(fp_sub(self.b@, rhs.b@)) < EPSILON),
    {
        self.r.approx_eq(rhs.r) && self.g.approx_eq(rhs.g) && self.b.approx_eq(rhs.b)
    }
}

fn channel_byte(v: Scalar) -> (byte: u8)
    ensures
        byte == px_channel_byte(v@),
{
    let s = v.mul(Scalar { raw: 255 * SCALE });
    if s.raw <= 0 {
        0
    } else {
        let t = (s.raw as u64) / (SCALE as u64);
        if t > 255 {
            255
        } else {
            t as u8
        }
    }
}

/// A width-by-height grid of pixels addressed column-first, as the camera
/// writes it.
#[derive(Clone, Debug)]
pub struct Canvas {
    pub width: u32,
    pub height: u32,
    pub data: Vec<Pixel>,
}

impl Canvas {
    /// The pixel count matches the dimensions and indexing cannot overflow.
    pub open spec fn wf(&self) -> bool {
        self.data@.len() == (self.width as int) * (self.height as int) && (self.width as int) * (
        self.height as int) <= u32::MAX
    }

    pub open spec fn spec_width(&self) -> int {
        self.width as int
    }

    pub open spec fn spec_height(&self) -> int {
        self.height as int
    }

    /// The stored color at a column and row.
    pub open spec fn px_at(&self, x: int, y: int) -> Pixel {
        self.data@[x * (self.height as int) + y]
    }

    /// A canvas of the given dimensions, all pixels black.
    pub fn with_dimesnions(width: u32, height: u32) -> (c: Canvas)
        requires
            (width as int) * (height as int) <= u32::MAX,
        ensures
            c.wf(),
            c.spec_width() == width,
            c.spec_height() == height,
            forall|i: int| 0 <= i < c.data@.len() ==> c.data@[i] == px_black(),
    {
        let total = width as u64 * height as u64;
        let mut data: Vec<Pixel> = Vec::new();
        let mut i: u64 = 0;
        while i < total
            invariant
                i <= total,
                data@.len() == i,
                forall|k: int| 0 <= k < data@.len() ==> data@[k] == px_black(),
            decreases total - i,
        {
            data.push(Pixel::black());
            i = i + 1;
        }
        Canvas { width, height, data }
    }

    pub fn width(&self) -> (w: u32)
        ensures
            w == self.spec_width(),
    {
        self.width
    }

    pub fn height(&self) -> (h: u32)
        ensures
            h == self.spec_height(),
    {
        self.height
    }

    /// Overwrites every pixel with one color.
    pub fn fill(&mut self, color: Pixel)
        ensures
            final(self).wf() == old(self).wf(),
            final(self).spec_width() == old(self).spec_width(),
            final(self).spec_height() == old(self).spec_height(),
            final(self).data@.len() == old(self).data@.len(),
            forall|i: int| 0 <= i < final(self).data@.len() ==> final(self).data@[i] == color,
    {
        let n = self.data.len();
        let mut i: usize = 0;
        while i < n
            invariant
                i <= n,
                self.data@.len() == n,
                self.width == old(self).width,
                self.height == old(self).height,
                forall|k: int| 0 <= k < i ==> self.data@[k] == color,
            decreases n - i,
        {
            self.data.set(i, color);
            i = i + 1;
        }
    }

    pub fn get(&self, x: u32, y: u32) -> (p: Pixel)
        requires
            self.wf(),
            x < self.spec_width(),
            y < self.spec_height(),
        ensures
            p == self.px_at(x as int, y as int),
    {
        proof {
            lemma_canvas_index(self.width as int, self.height as int, x as int, y as int);
        }
        let index = (x * self.height + y) as usize;
        self.data[index]
    }

    pub fn set(&mut self, x: u32, y: u32, color: Pixel)
        requires
            old(self).wf(),
            x < old(self).spec_width(),
            y < old(self).spec_height(),
        ensures
            final(self).wf(),
            final(self).spec_width() == old(self).spec_width(),
            final(self).spec_height() == old(self).spec_height(),
            final(self).px_at(x as int, y as int) == color,
            forall|i: int, j: int|
                0 <= i < final(self).spec_width() && 0 <= j < final(self).spec_height() && !(i == x
                    as int && j == y as int) ==> final(self).px_at(i, j) == old(self).px_at(i, j),
    {
        proof {
            lemma_canvas_index(self.width as int, self.height as int, x as int, y as int);
        }
        let index = (x * self.height + y) as usize;
        self.data.set(index, color);
        proof {
            assert forall|i: int, j: int|
                0 <= i < self.spec_width() && 0 <= j < self.spec_height() && !(i == x as int && j
                    == y as int) implies self.px_at(i, j) == old(self).px_at(i, j) by {
                lemma_canvas_index(self.width as int, self.height as int, i, j);
                lemma_canvas_index_distinct(
                    self.height as int,
                    x as int,
                    y as int,
                    i,
                    j,
                );
            }
        }
    }
}

/// Column-first indexing stays within the pixel vector.
proof fn lemma_canvas_index(width: int, height: int, x: int, y: int)
    requires
        0 <= x < width,
        0 <= y < height,
    ensures
        0 <= x * height + y < width * height,
{
    vstd::arithmetic::mul::lemma_mul_inequality(x + 1, width, height);
    assert((x + 1) * height == x * height + height) by (nonlinear_arith);
    vstd::arithmetic::mul::lemma_mul_nonnegative(x, height);
}

/// Distinct coordinates map to distinct indices.
proof fn lemma_canvas_index_distinct(height: int, x: int, y: int, i: int, j: int)
    requires
        height > 0,
        0 <= y < height,
        0 <= j < height,
        !(i == x && j == y),
    ensures
        i * height + j != x * height + y,
{
    if i == x {
    } else {
        assert(i * height + j != x * height + y) by (nonlinear_arith)
            requires
                height > 0,
                0 <= y < height,
                0 <= j < height,
                i != x,
        ;
    }
}

} // verus!
