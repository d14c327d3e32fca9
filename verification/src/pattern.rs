//! Procedural surface patterns, sampled in pattern-local space.

use vstd::prelude::*;

use crate::canvas::{px, px_add, Pixel};
use crate::error::TraceError;
use crate::matrix4x4::{inv4, m4_identity, m4_invertible, mat4_mul_tuple, Matrix4x4};
use crate::scalar::{fp_add, fp_clamp, fp_floor, fp_mul, fp_sqrt, fp_sub, Scalar, SCALE};
use crate::shape::{shape_transform, Shape};
use crate::tuple::{tup_scale, tup_sub, Tuple};

verus! {

#[derive(Clone, Copy, PartialEq, Eq, Structural, Debug)]
pub struct StripePattern {
    pub color_a: Pixel,
    pub color_b: Pixel,
    pub transform: Matrix4x4,
}

#[derive(Clone, Copy, PartialEq, Eq, Structural, Debug)]
pub struct GradientPattern {
    pub color_a: Pixel,
    pub color_b: Pixel,
    pub transform: Matrix4x4,
}

#[derive(Clone, Copy, PartialEq, Eq, Structural, Debug)]
pub struct RingPattern {
    pub color_a: Pixel,
    pub color_b: Pixel,
    pub transform: Matrix4x4,
}

#[derive(Clone, Copy, PartialEq, Eq, Structural, Debug)]
pub struct CheckersPattern {
    pub color_a: Pixel,
    pub color_b: Pixel,
    pub transform: Matrix4x4,
}

/// Echoes the sample point as a color, to make transform composition visible.
#[derive(Clone, Copy, PartialEq, Eq, Structural, Debug)]
pub struct TestPattern {
    pub transform: Matrix4x4,
}

#[derive(Clone, Copy, PartialEq, Eq, Structural, Debug)]
pub enum Pattern {
    Stripe(StripePattern),
    Gradient(GradientPattern),
    Ring(RingPattern),
    Checkers(CheckersPattern),
    Test(TestPattern),
}

pub open spec fn pattern_transform(p: Pattern) -> Matrix4x4 {
    match p {
        Pattern::Stripe(item) => item.transform,
        Pattern::Gradient(item) => item.transform,
        Pattern::Ring(item) => item.transform,
        Pattern::Checkers(item) => item.transform,
        Pattern::Test(item) => item.transform,
    }
}

/// The floor of a scalar, rescaled back into raw units.
pub open spec fn floor_scaled(v: int) -> int {
    fp_clamp(fp_floor(v) * (SCALE as int))
}

/// Even-parity test on the floor of a scalar.
pub open spec fn floor_even(v: int) -> bool {
    fp_floor(v) % 2 == 0
}

/// The color of a pattern at a point already in pattern-local space.
pub open spec fn pattern_at_spec(p: Pattern, point: Tuple) -> Pixel {
    match p {
        Pattern::Stripe(item) => if floor_even(point.x@) {
            item.color_a
        } else {
            item.color_b
        },
        Pattern::Gradient(item) => {
            let distance = tup_sub(
                Tuple { x: item.color_b.r, y: item.color_b.g, z: item.color_b.b, w: Scalar { raw: (-SCALE) as i64 } },
                Tuple { x: item.color_a.r, y: item.color_a.g, z: item.color_a.b, w: Scalar { raw: (-SCALE) as i64 } },
            );
            let fraction = fp_sub(point.x@, floor_scaled(point.x@));
            let a = tup_scale(distance, fraction);
            px_add(item.color_a, px(a.x@, a.y@, a.z@))
        },
        Pattern::Ring(item) => {
            let radial = fp_sqrt(fp_add(fp_mul(point.x@, point.x@), fp_mul(point.z@, point.z@)));
            if floor_even(radial) {
                item.color_a
            } else {
                item.color_b
            }
        },
        Pattern::Checkers(item) => {
            let s = fp_floor(point.x@) + fp_floor(point.y@) + fp_floor(point.z@);
            if s % 2 == 0 {
                item.color_a
            } else {
                item.color_b
            }
        },
        Pattern::Test(_) => px(point.x@, point.y@, point.z@),
    }
}

/// The color at a world point on a shape: the point is carried through the
/// inverse shape transform, then the inverse pattern transform.
pub open spec fn pattern_at_object_spec(p: Pattern, object: Shape, world_point: Tuple) -> Pixel {
    let object_point = mat4_mul_tuple(inv4(shape_transform(object)), world_point);
    let pattern_point = mat4_mul_tuple(inv4(pattern_transform(p)), object_point);
    pattern_at_spec(p, pattern_point)
}

/// The same pattern with its transform replaced.
pub open spec fn pattern_with_transform(p: Pattern, transform: Matrix4x4) -> Pattern {
    match p {
        Pattern::Stripe(item) => Pattern::Stripe(StripePattern { transform, ..item }),
        Pattern::Gradient(item) => Pattern::Gradient(GradientPattern { transform, ..item }),
        Pattern::Ring(item) => Pattern::Ring(RingPattern { transform, ..item }),
        Pattern::Checkers(item) => Pattern::Checkers(CheckersPattern { transform, ..item }),
        Pattern::Test(_) => Pattern::Test(TestPattern { transform }),
    }
}

/// Both inversions that `at_object` performs succeed.
pub open spec fn pattern_sampling_ok(p: Pattern, object: Shape) -> bool {
    m4_invertible(shape_transform(object)) && m4_invertible(pattern_transform(p))
}

impl Pattern {
    pub fn stripe(color_a: Pixel, color_b: Pixel) -> (r: Pattern)
        ensures
            r == Pattern::Stripe(StripePattern { color_a, color_b, transform: m4_identity() }),
    {
        Pattern::Stripe(StripePattern { color_a, color_b, transform: Matrix4x4::identity() })
    }

    pub fn gradient(color_a: Pixel, color_b: Pixel) -> (r: Pattern)
        ensures
            r == Pattern::Gradient(GradientPattern { color_a, color_b, transform: m4_identity() }),
    {
        Pattern::Gradient(GradientPattern { color_a, color_b, transform: Matrix4x4::identity() })
    }

    pub fn ring(color_a: Pixel, color_b: Pixel) -> (r: Pattern)
        ensures
            r == Pattern::Ring(RingPattern { color_a, color_b, transform: m4_identity() }),
    {
        Pattern::Ring(RingPattern { color_a, color_b, transform: Matrix4x4::identity() })
    }

    pub fn checkers(color_a: Pixel, color_b: Pixel) -> (r: Pattern)
        ensures
            r == Pattern::Checkers(CheckersPattern { color_a, color_b, transform: m4_identity() }),
    {
        Pattern::Checkers(CheckersPattern { color_a, color_b, transform: Matrix4x4::identity() })
    }

    pub fn test() -> (r: Pattern)
        ensures
            r == Pattern::Test(TestPattern { transform: m4_identity() }),
    {
        Pattern::Test(TestPattern { transform: Matrix4x4::identity() })
    }

    pub fn transform(&self) -> (r: Matrix4x4)
        ensures
            r == pattern_transform(*self),
    {
        match self {
            Pattern::Stripe(item) => item.transform,
            Pattern::Gradient(item) => item.transform,
            Pattern::Ring(item) => item.transform,
            Pattern::Checkers(item) => item.transform,
            Pattern::Test(item) => item.transform,
        }
    }

    pub fn set_transform(&mut self, transform: Matrix4x4)
        ensures
            *final(self) == pattern_with_transform(*old(self), transform),
    {
        match self {
            Pattern::Stripe(item) => item.transform = transform,
            Pattern::Gradient(item) => item.transform = transform,
            Pattern::Ring(item) => item.transform = transform,
            Pattern::Checkers(item) => item.transform = transform,
            Pattern::Test(item) => item.transform = transform,
        }
    }

    /// The color at a point already in pattern-local space.
    pub fn at(&self, point: Tuple) -> (r: Pixel)
        ensures
            r == pattern_at_spec(*self, point),
    {
        match self {
            Pattern::Stripe(item) => {
                if floor_even_e(point.x) {
                    item.color_a
                } else {
                    item.color_b
                }
            },
            Pattern::Gradient(item) => {
                let distance = item.color_b.to_tuple().sub(item.color_a.to_tuple());
                let fraction = point.x.sub(floor_scaled_e(point.x));
                let a = distance.scale(fraction);
                item.color_a.add(Pixel { r: a.x, g: a.y, b: a.z })
            },
            Pattern::Ring(item) => {
                let radial = point.x.mul(point.x).add(point.z.mul(point.z)).sqrt();
                if floor_even_e(radial) {
                    item.color_a
                } else {
                    item.color_b
                }
            },
            Pattern::Checkers(item) => {
                let fx = point.x.floor();
                let fy = point.y.floor();
                let fz = point.z.floor();
                proof {
                    lemma_floor_small(point.x@);
                    lemma_floor_small(point.y@);
                    lemma_floor_small(point.z@);
                }
                if parity_even(fx + fy + fz) {
                    item.color_a
                } else {
                    item.color_b
                }
            },
            Pattern::Test(_) => Pixel { r: point.x, g: point.y, b: point.z },
        }
    }

    /// The color at a world point on a shape, sampled through the inverse
    /// shape and pattern transforms.
    pub fn at_object(&self, object: &Shape, world_point: Tuple) -> (r: Result<Pixel, TraceError>)
        ensures
            pattern_sampling_ok(*self, *object) ==> r == Ok::<Pixel, TraceError>(
                pattern_at_object_spec(*self, *object, world_point),
            ),
            !pattern_sampling_ok(*self, *object) ==> r == Err::<Pixel, TraceError>(
                TraceError::NotInvertible,
            ),
    {
        let shape_inv = match object.transform().inverse() {
            Ok(m) => m,
            Err(e) => {
                return Err(e);
            },
        };
        let pattern_inv = match self.transform().inverse() {
            Ok(m) => m,
            Err(e) => {
                return Err(e);
            },
        };
        let object_point = shape_inv.mul_tuple(&world_point);
        let pattern_point = pattern_inv.mul_tuple(&object_point);
        Ok(self.at(pattern_point))
    }
}

/// Executable even-parity test on the floor of a scalar.
fn floor_even_e(v: Scalar) -> (r: bool)
    ensures
        r == floor_even(v@),
{
    let f = v.floor();
    proof {
        lemma_floor_small(v@);
    }
    parity_even(f)
}

/// The floor of a scalar, rescaled back into raw units.
fn floor_scaled_e(v: Scalar) -> (r: Scalar)
    ensures
        r@ == floor_scaled(v@),
{
    let f = v.floor();
    proof {
        lemma_floor_small(v@);
        vstd::arithmetic::mul::lemma_mul_inequality(f as int, 0x20000000000000, SCALE as int);
        vstd::arithmetic::mul::lemma_mul_inequality(-0x20000000000000, f as int, SCALE as int);
    }
    let wide = (f as i128) * (SCALE as i128);
    let raw = if wide > i64::MAX as i128 {
        i64::MAX
    } else if wide < i64::MIN as i128 {
        i64::MIN
    } else {
        wide as i64
    };
    Scalar { raw }
}

/// The floor of a raw value is small enough for further raw arithmetic.
proof fn lemma_floor_small(v: int)
    requires
        i64::MIN <= v <= i64::MAX,
    ensures
        -0x20000000000000 <= fp_floor(v) <= 0x20000000000000,
{
    vstd::arithmetic::div_mod::lemma_fundamental_div_mod(v, SCALE as int);
}

/// Executable Euclidean even-parity test.
fn parity_even(n: i64) -> (r: bool)
    ensures
        r == ((n as int) % 2 == 0),
{
    if n >= 0 {
        (n as u64) % 2 == 0
    } else {
        let m = (-(n as i128)) as u64;
        proof {
            lemma_neg_parity(n as int);
        }
        m % 2 == 0
    }
}

/// A value and its negation have the same parity.
proof fn lemma_neg_parity(n: int)
    ensures
        ((-n) % 2 == 0) == (n % 2 == 0),
{
    vstd::arithmetic::div_mod::lemma_fundamental_div_mod(n, 2);
    vstd::arithmetic::div_mod::lemma_fundamental_div_mod(-n, 2);
    if n % 2 == 0 {
        vstd::arithmetic::div_mod::lemma_fundamental_div_mod_converse(-n, 2, -(n / 2), 0);
    }
    if (-n) % 2 == 0 {
        vstd::arithmetic::div_mod::lemma_fundamental_div_mod_converse(n, 2, -((-n) / 2), 0);
    }
}

} // verus!
