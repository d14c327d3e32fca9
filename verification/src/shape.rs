//! Scene primitives: sphere, plane, and a transform-echoing test double.
//!
//! Each variant implements intersection and normals in its own local space;
//! the shared wrappers carry world rays and points through the inverse of
//! the shape's transform, and normals back through its inverse transpose.

use vstd::prelude::*;

use crate::intersection::Intersection;
use crate::material::Material;
use crate::error::TraceError;
use crate::matrix4x4::{inv4, m4_identity, m4_invertible, m4_transpose, mat4_mul_tuple, Matrix4x4};
use crate::ray::{ray_transform, Ray};
use crate::scalar::{
    fp_abs, fp_add, fp_div, fp_mul, fp_neg, fp_sqrt, fp_sub, tdiv, Scalar, EPSILON, SCALE,
};
use crate::tuple::{tup_dot, tup_normalize, tup_sub, Tuple};

verus! {

#[derive(Clone, Copy, PartialEq, Eq, Structural, Debug)]
pub struct Sphere {
    pub transform: Matrix4x4,
    pub material: Material,
}

#[derive(Clone, Copy, PartialEq, Eq, Structural, Debug)]
pub struct Plane {
    pub transform: Matrix4x4,
    pub material: Material,
}

/// A primitive that intersects nothing and echoes normals, kept so the
/// world-to-local wrapping can be exercised on its own.
#[derive(Clone, Copy, PartialEq, Eq, Structural, Debug)]
pub struct TestShape {
    pub transform: Matrix4x4,
    pub material: Material,
}

#[derive(Clone, Copy, PartialEq, Eq, Structural, Debug)]
pub enum Shape {
    Sphere(Sphere),
    Plane(Plane),
    Test(TestShape),
}

pub open spec fn shape_transform(s: Shape) -> Matrix4x4 {
    match s {
        Shape::Sphere(item) => item.transform,
        Shape::Plane(item) => item.transform,
        Shape::Test(item) => item.transform,
    }
}

pub open spec fn shape_material(s: Shape) -> Material {
    match s {
        Shape::Sphere(item) => item.material,
        Shape::Plane(item) => item.material,
        Shape::Test(item) => item.material,
    }
}

pub open spec fn shape_with_transform(s: Shape, transform: Matrix4x4) -> Shape {
    match s {
        Shape::Sphere(item) => Shape::Sphere(Sphere { transform, ..item }),
        Shape::Plane(item) => Shape::Plane(Plane { transform, ..item }),
        Shape::Test(item) => Shape::Test(TestShape { transform, ..item }),
    }
}

pub open spec fn shape_with_material(s: Shape, material: Material) -> Shape {
    match s {
        Shape::Sphere(item) => Shape::Sphere(Sphere { material, ..item }),
        Shape::Plane(item) => Shape::Plane(Plane { material, ..item }),
        Shape::Test(item) => Shape::Test(TestShape { material, ..item }),
    }
}

/// The origin as a point.
pub open spec fn origin_point() -> Tuple {
    Tuple {
        x: Scalar { raw: 0 },
        y: Scalar { raw: 0 },
        z: Scalar { raw: 0 },
        w: Scalar { raw: SCALE },
    }
}

/// The quadratic coefficient `a`: the direction dotted with itself.
pub open spec fn sphere_a(r: Ray) -> int {
    tup_dot(r.direction, r.direction)
}

/// The quadratic coefficient `b`: twice the direction dotted with the
/// origin-to-center offset.
pub open spec fn sphere_b(r: Ray) -> int {
    fp_mul(2 * SCALE, tup_dot(r.direction, tup_sub(r.origin, origin_point())))
}

/// The quadratic coefficient `c`: the offset's squared length minus one.
pub open spec fn sphere_c(r: Ray) -> int {
    let sphere_to_ray = tup_sub(r.origin, origin_point());
    fp_sub(tup_dot(sphere_to_ray, sphere_to_ray), SCALE as int)
}

/// The product term `(4 a) c` of the discriminant.
pub open spec fn sphere_4ac(r: Ray) -> int {
    fp_mul(fp_mul(4 * SCALE, sphere_a(r)), sphere_c(r))
}

/// The discriminant `b b - (4 a) c`.
pub open spec fn sphere_disc(r: Ray) -> int {
    fp_sub(fp_mul(sphere_b(r), sphere_b(r)), sphere_4ac(r))
}

/// The t values where a local-space ray meets the unit sphere: none when
/// the discriminant is negative, otherwise the two quadratic roots in
/// ascending order (a tangent ray repeats one root).
pub open spec fn sphere_local_ts(r: Ray) -> Seq<int> {
    let b = sphere_b(r);
    let disc = sphere_disc(r);
    if disc < 0 {
        Seq::<int>::empty()
    } else {
        let t1 = fp_div(fp_sub(fp_neg(b), fp_sqrt(disc)), fp_mul(2 * SCALE, sphere_a(r)));
        let t2 = fp_div(fp_add(fp_neg(b), fp_sqrt(disc)), fp_mul(2 * SCALE, sphere_a(r)));
        if t2 < t1 {
            seq![t2, t1]
        } else {
            seq![t1, t2]
        }
    }
}

/// A ray meets the unit sphere in either zero or two parameters, and a
/// tangent ray reports the same parameter twice.
pub proof fn lemma_sphere_intersection_count(r: Ray)
    ensures
        sphere_local_ts(r).len() == 0 || sphere_local_ts(r).len() == 2,
        sphere_disc(r) == 0 ==> sphere_local_ts(r) =~= seq![
            sphere_local_ts(r)[0],
            sphere_local_ts(r)[0],
        ],
{
    if sphere_disc(r) == 0 {
        assert(fp_sqrt(0) == 0);
    }
}

/// For a ray whose origin lies strictly inside the unit sphere the two
/// reported parameters straddle zero: one at or behind the ray's start,
/// one at or ahead of it. The hypotheses state, in fixed-point terms, that
/// the direction is not degenerate, that the discriminant's product term
/// is strictly negative (the origin is strictly inside), and that neither
/// the squared b coefficient nor the discriminant saturates the range.
pub proof fn lemma_sphere_inside_origin_straddle(r: Ray)
    requires
        sphere_a(r) > 0,
        sphere_4ac(r) < 0,
        tdiv(sphere_b(r) * sphere_b(r), SCALE as int) <= i64::MAX,
        tdiv(sphere_b(r) * sphere_b(r), SCALE as int) - sphere_4ac(r) <= i64::MAX,
    ensures
        sphere_local_ts(r).len() == 2,
        sphere_local_ts(r)[0] <= 0,
        sphere_local_ts(r)[1] >= 0,
{
    let sc = SCALE as int;
    let a = sphere_a(r);
    let b = sphere_b(r);
    let bb = b * b;
    let m = sphere_4ac(r);

    crate::scalar::lemma_mul_sign_abs(b, b);
    assert(bb >= 0);
    assert(tdiv(bb, sc) == bb / sc);
    vstd::arithmetic::div_mod::lemma_div_pos_is_pos(bb, sc);
    vstd::arithmetic::div_mod::lemma_fundamental_div_mod(bb, sc);
    vstd::arithmetic::div_mod::lemma_mod_bound(bb, sc);

    let b2 = fp_mul(b, b);
    assert(b2 == bb / sc);
    let disc = sphere_disc(r);
    assert(disc == b2 - m);
    assert(disc >= b2 + 1);

    // disc * sc exceeds b * b, so the root is at least the magnitude of b.
    vstd::arithmetic::mul::lemma_mul_inequality(b2 + 1, disc, sc);
    vstd::arithmetic::mul::lemma_mul_is_distributive_add_other_way(sc, b2, 1);
    assert((b2 + 1) * sc == b2 * sc + sc);
    vstd::arithmetic::mul::lemma_mul_is_commutative(b2, sc);
    assert(disc * sc >= bb + 1);

    let babs = vstd::math::abs(b) as int;
    assert(babs * babs == bb);
    let root = fp_sqrt(disc);
    crate::scalar::lemma_isqrt_ge(disc * sc, babs);
    crate::scalar::lemma_isqrt_bounds(disc * sc);
    assert(root >= babs);

    // b cannot be the extreme value: its square would overflow the range.
    if b == i64::MIN {
        assert(babs == 0x8000000000000000);
        assert(0x8000000000000000 * 0x8000000000000000 == 0x40000000000000000000000000000000int);
        assert(bb == 0x40000000000000000000000000000000);
        vstd::arithmetic::div_mod::lemma_div_is_ordered(
            (i64::MAX + 1) * sc,
            bb,
            sc,
        );
        vstd::arithmetic::div_mod::lemma_div_multiples_vanish(i64::MAX + 1, sc);
        assert(bb / sc >= i64::MAX + 1);
        assert(false);
    }
    assert(fp_neg(b) == -b);

    // The two quotient numerators have the right signs.
    let num1 = fp_sub(fp_neg(b), root);
    let num2 = fp_add(fp_neg(b), root);
    assert(-b - root <= 0);
    assert(-b + root >= 0);
    assert(num1 <= 0);
    assert(num2 >= 0);

    // The denominator is strictly positive.
    let denom = fp_mul(2 * sc, a);
    assert(2 * sc * a >= 0);
    assert(tdiv(2 * sc * a, sc) == (2 * sc * a) / sc);
    assert(2 * sc * a == sc * (2 * a));
    vstd::arithmetic::div_mod::lemma_div_multiples_vanish(2 * a, sc);
    assert((2 * sc * a) / sc == 2 * a);
    assert(denom >= 1);

    // Quotients keep the numerators' signs.
    let t1 = fp_div(num1, denom);
    let t2 = fp_div(num2, denom);
    vstd::arithmetic::mul::lemma_mul_nonnegative(num2, sc);
    vstd::arithmetic::div_mod::lemma_div_pos_is_pos(num2 * sc, denom);
    assert(t2 >= 0);
    assert(num1 * sc <= 0);
    vstd::arithmetic::div_mod::lemma_div_pos_is_pos(-(num1 * sc), denom);
    assert(t1 <= 0);

    assert(sphere_local_ts(r).len() == 2);
    assert(sphere_local_ts(r)[0] <= 0);
    assert(sphere_local_ts(r)[1] >= 0);
}

/// The t value where a local-space ray meets the y == 0 plane: none when
/// the ray is parallel within the tolerance.
pub open spec fn plane_local_ts(r: Ray) -> Seq<int> {
    if fp_abs(r.direction.y@) < EPSILON {
        Seq::<int>::empty()
    } else {
        seq![fp_div(fp_neg(r.origin.y@), r.direction.y@)]
    }
}

pub open spec fn shape_local_ts(s: Shape, r: Ray) -> Seq<int> {
    match s {
        Shape::Sphere(_) => sphere_local_ts(r),
        Shape::Plane(_) => plane_local_ts(r),
        Shape::Test(_) => Seq::<int>::empty(),
    }
}

pub open spec fn shape_local_normal(s: Shape, p: Tuple) -> Tuple {
    match s {
        Shape::Sphere(_) => tup_sub(p, origin_point()),
        Shape::Plane(_) => Tuple {
            x: Scalar { raw: 0 },
            y: Scalar { raw: SCALE },
            z: Scalar { raw: 0 },
            w: Scalar { raw: 0 },
        },
        Shape::Test(_) => Tuple { x: p.x, y: p.y, z: p.z, w: Scalar { raw: 0 } },
    }
}

/// Local t values paired with the owning shape.
pub open spec fn ts_to_xs(ts: Seq<int>, s: Shape) -> Seq<Intersection> {
    ts.map_values(|t: int| Intersection { t: Scalar { raw: t as i64 }, obj: s })
}

/// The intersections of a world ray with a shape: the ray is carried into
/// object space by the inverse transform, then the variant's local
/// intersection runs.
pub open spec fn shape_xs(s: Shape, r: Ray) -> Seq<Intersection> {
    ts_to_xs(shape_local_ts(s, ray_transform(r, inv4(shape_transform(s)))), s)
}

/// The world normal: the local normal at the inverse-transformed point,
/// carried back by the inverse transpose, with `w` zeroed, normalized.
pub open spec fn shape_normal_spec(s: Shape, world_point: Tuple) -> Tuple {
    let inv = inv4(shape_transform(s));
    let local_point = mat4_mul_tuple(inv, world_point);
    let local_normal = shape_local_normal(s, local_point);
    let world_normal = mat4_mul_tuple(m4_transpose(inv), local_normal);
    tup_normalize(
        Tuple { x: world_normal.x, y: world_normal.y, z: world_normal.z, w: Scalar { raw: 0 } },
    )
}

impl Sphere {
    /// A unit sphere at the origin with the default material.
    pub fn new() -> (r: Sphere)
        ensures
            r == (Sphere { transform: m4_identity(), material: Material::default_spec() }),
    {
        Sphere { transform: Matrix4x4::identity(), material: Material::default() }
    }
}

impl Plane {
    /// The y == 0 plane with the default material.
    pub fn new() -> (r: Plane)
        ensures
            r == (Plane { transform: m4_identity(), material: Material::default_spec() }),
    {
        Plane { transform: Matrix4x4::identity(), material: Material::default() }
    }
}

impl TestShape {
    /// A test double with the identity transform and default material.
    pub fn new() -> (r: TestShape)
        ensures
            r == (TestShape { transform: m4_identity(), material: Material::default_spec() }),
    {
        TestShape { transform: Matrix4x4::identity(), material: Material::default() }
    }
}

impl Shape {
    pub fn sphere() -> (r: Shape)
        ensures
            r == Shape::Sphere(
                Sphere { transform: m4_identity(), material: Material::default_spec() },
            ),
    {
        Shape::Sphere(Sphere { transform: Matrix4x4::identity(), material: Material::default() })
    }

    pub fn plane() -> (r: Shape)
        ensures
            r == Shape::Plane(Plane { transform: m4_identity(), material: Material::default_spec() }),
    {
        Shape::Plane(Plane { transform: Matrix4x4::identity(), material: Material::default() })
    }

    pub fn test_shape() -> (r: Shape)
        ensures
            r == Shape::Test(
                TestShape { transform: m4_identity(), material: Material::default_spec() },
            ),
    {
        Shape::Test(TestShape { transform: Matrix4x4::identity(), material: Material::default() })
    }

    pub fn transform(&self) -> (r: Matrix4x4)
        ensures
            r == shape_transform(*self),
    {
        match self {
            Shape::Sphere(item) => item.transform,
            Shape::Plane(item) => item.transform,
            Shape::Test(item) => item.transform,
        }
    }

    pub fn set_transform(&mut self, transform: Matrix4x4)
        ensures
            *final(self) == shape_with_transform(*old(self), transform),
    {
        match self {
            Shape::Sphere(item) => item.transform = transform,
            Shape::Plane(item) => item.transform = transform,
            Shape::Test(item) => item.transform = transform,
        }
    }

    pub fn material(&self) -> (r: Material)
        ensures
            r == shape_material(*self),
    {
        match self {
            Shape::Sphere(item) => item.material,
            Shape::Plane(item) => item.material,
            Shape::Test(item) => item.material,
        }
    }

    pub fn set_material(&mut self, material: Material)
        ensures
            *final(self) == shape_with_material(*old(self), material),
    {
        match self {
            Shape::Sphere(item) => item.material = material,
            Shape::Plane(item) => item.material = material,
            Shape::Test(item) => item.material = material,
        }
    }

    /// The world ray carried into this shape's object space, the exact ray
    /// the local intersection routine receives.
    pub fn local_ray(&self, ray: Ray) -> (r: Result<Ray, TraceError>)
        ensures
            m4_invertible(shape_transform(*self)) ==> r == Ok::<Ray, TraceError>(
                ray_transform(ray, inv4(shape_transform(*self))),
            ),
            !m4_invertible(shape_transform(*self)) ==> r == Err::<Ray, TraceError>(
                TraceError::NotInvertible,
            ),
    {
        match self.transform().inverse() {
            Ok(inv) => Ok(ray.transform(inv)),
            Err(e) => Err(e),
        }
    }

    /// All intersections of a world ray with this shape, ascending by t;
    /// fails when the shape's transform is not invertible.
    pub fn intersect(&self, ray: Ray) -> (r: Result<Vec<Intersection>, TraceError>)
        ensures
            m4_invertible(shape_transform(*self)) ==> r is Ok && r->Ok_0@ == shape_xs(*self, ray),
            !m4_invertible(shape_transform(*self)) ==> r == Err::<Vec<Intersection>, TraceError>(
                TraceError::NotInvertible,
            ),
    {
        let inv = match self.transform().inverse() {
            Ok(m) => m,
            Err(e) => {
                return Err(e);
            },
        };
        let local_ray = ray.transform(inv);
        match self {
            Shape::Sphere(_) => Ok(sphere_intersect(local_ray, *self)),
            Shape::Plane(_) => Ok(plane_intersect(local_ray, *self)),
            Shape::Test(_) => {
                let v: Vec<Intersection> = Vec::new();
                proof {
                    assert(v@ =~= ts_to_xs(Seq::<int>::empty(), *self));
                }
                Ok(v)
            },
        }
    }

    /// The world-space surface normal at a point; fails when the shape's
    /// transform is not invertible.
    pub fn normal_at(&self, point: Tuple) -> (r: Result<Tuple, TraceError>)
        ensures
            m4_invertible(shape_transform(*self)) ==> r == Ok::<Tuple, TraceError>(
                shape_normal_spec(*self, point),
            ),
            !m4_invertible(shape_transform(*self)) ==> r == Err::<Tuple, TraceError>(
                TraceError::NotInvertible,
            ),
    {
        let inv = match self.transform().inverse() {
            Ok(m) => m,
            Err(e) => {
                return Err(e);
            },
        };
        let local_point = inv.mul_tuple(&point);
        let local_normal = match self {
            Shape::Sphere(_) => local_point.sub(Tuple::point(
                Scalar { raw: 0 },
                Scalar { raw: 0 },
                Scalar { raw: 0 },
            )),
            Shape::Plane(_) => Tuple::vector(
                Scalar { raw: 0 },
                Scalar { raw: SCALE },
                Scalar { raw: 0 },
            ),
            Shape::Test(_) => Tuple::vector(local_point.x, local_point.y, local_point.z),
        };
        let world_normal = inv.transpose().mul_tuple(&local_normal);
        let zeroed = Tuple {
            x: world_normal.x,
            y: world_normal.y,
            z: world_normal.z,
            w: Scalar { raw: 0 },
        };
        Ok(zeroed.normalize())
    }
}

/// The unit-sphere quadratic in object space.
fn sphere_intersect(local_ray: Ray, shape: Shape) -> (v: Vec<Intersection>)
    ensures
        v@ == ts_to_xs(sphere_local_ts(local_ray), shape),
{
    let sphere_to_ray = local_ray.origin().sub(Tuple::point(
        Scalar { raw: 0 },
        Scalar { raw: 0 },
        Scalar { raw: 0 },
    ));
    let dir = local_ray.direction();

    let two = Scalar { raw: 2 * SCALE };
    let four = Scalar { raw: 4 * SCALE };
    let a = dir.dot(&dir);
    let b = two.mul(dir.dot(&sphere_to_ray));
    let c = sphere_to_ray.dot(&sphere_to_ray).sub(Scalar { raw: SCALE });

    let discriminant = b.mul(b).sub(four.mul(a).mul(c));

    if discriminant.raw < 0 {
        let v: Vec<Intersection> = Vec::new();
        proof {
            assert(v@ =~= ts_to_xs(sphere_local_ts(local_ray), shape));
        }
        return v;
    }

    let root = discriminant.sqrt();
    let denom = two.mul(a);
    let t1 = b.neg().sub(root).div(denom);
    let t2 = b.neg().add(root).div(denom);

    let mut v: Vec<Intersection> = Vec::new();
    if t2.raw < t1.raw {
        v.push(Intersection { t: t2, obj: shape });
        v.push(Intersection { t: t1, obj: shape });
    } else {
        v.push(Intersection { t: t1, obj: shape });
        v.push(Intersection { t: t2, obj: shape });
    }
    proof {
        assert(v@ =~= ts_to_xs(sphere_local_ts(local_ray), shape));
    }
    v
}

/// The y == 0 plane in object space.
fn plane_intersect(local_ray: Ray, shape: Shape) -> (v: Vec<Intersection>)
    ensures
        v@ == ts_to_xs(plane_local_ts(local_ray), shape),
{
    if local_ray.direction().get_y().abs().raw < EPSILON {
        let v: Vec<Intersection> = Vec::new();
        proof {
            assert(v@ =~= ts_to_xs(plane_local_ts(local_ray), shape));
        }
        v
    } else {
        let t = local_ray.origin().get_y().neg().div(local_ray.direction().get_y());
        let mut v: Vec<Intersection> = Vec::new();
        v.push(Intersection { t, obj: shape });
        proof {
            assert(v@ =~= ts_to_xs(plane_local_ts(local_ray), shape));
        }
        v
    }
}

} // verus!
