//! Intersections, nearest-hit selection, and the per-hit shading context.

use vstd::prelude::*;

use crate::error::TraceError;
use crate::matrix4x4::m4_invertible;
use crate::ray::{ray_position, Ray};
use crate::scalar::{
    fp_add, fp_div, fp_mul, fp_pow, fp_sqrt, fp_sub, Scalar, EPSILON, SCALE,
};
use crate::shape::{shape_material, shape_normal_spec, shape_transform, Shape};
use crate::tuple::{tup_add, tup_dot, tup_neg, tup_reflect, tup_scale, tup_sub, Tuple};

verus! {

#[derive(Clone, Copy, PartialEq, Eq, Structural, Debug)]
pub struct Intersection {
    pub t: Scalar,
    pub obj: Shape,
}

impl Intersection {
    pub fn new(t: Scalar, obj: Shape) -> (r: Intersection)
        ensures
            r == (Intersection { t, obj }),
    {
        Intersection { t, obj }
    }

    /// A two-element list, in the order given.
    pub fn make(i1: Intersection, i2: Intersection) -> (r: Vec<Intersection>)
        ensures
            r@ == seq![i1, i2],
    {
        let mut v = Vec::new();
        v.push(i1);
        v.push(i2);
        proof {
            assert(v@ =~= seq![i1, i2]);
        }
        v
    }

    pub fn t(&self) -> (r: Scalar)
        ensures
            r == self.t,
    {
        self.t
    }

    pub fn object(&self) -> (r: Shape)
        ensures
            r == self.obj,
    {
        self.obj
    }

    /// The full shading context for this hit; fails when the hit object's
    /// transform is not invertible.
    pub fn prepare_computations(&self, ray: Ray, xs: Vec<Intersection>) -> (r: Result<
        Computations,
        TraceError,
    >)
        ensures
            m4_invertible(shape_transform(self.obj)) ==> r == Ok::<Computations, TraceError>(
                precompute_spec(*self, ray, xs@),
            ),
            !m4_invertible(shape_transform(self.obj)) ==> r == Err::<Computations, TraceError>(
                TraceError::NotInvertible,
            ),
    {
        let t = self.t;
        let object = self.obj;
        let point = ray.position(t);
        let eyev = ray.direction().neg();
        let normalv0 = match object.normal_at(point) {
            Ok(n) => n,
            Err(e) => {
                return Err(e);
            },
        };
        let inside = normalv0.dot(&eyev).raw < 0;
        let normalv = if inside {
            normalv0.neg()
        } else {
            normalv0
        };
        let reflectv = ray.direction().reflect(normalv);
        let eps = Scalar { raw: EPSILON };
        let over_point = point.add(normalv.scale(eps));
        let under_point = point.sub(normalv.scale(eps));
        let (n1, n2) = refraction_pair(&xs, self);
        Ok(
            Computations {
                t,
                object,
                point,
                eyev,
                normalv,
                inside,
                over_point,
                under_point,
                reflectv,
                n1,
                n2,
            },
        )
    }
}

/// A container list with `obj` removed at its first occurrence, or pushed
/// when absent: the ray leaves a shape it was inside, or enters a new one.
pub open spec fn toggle_container(containers: Seq<Shape>, obj: Shape) -> Seq<Shape> {
    if containers.contains(obj) {
        containers.remove_value(obj)
    } else {
        containers.push(obj)
    }
}

/// The refractive index the walk reads at a boundary: vacuum outside any
/// container, else the innermost container's material.
pub open spec fn containers_index(containers: Seq<Shape>) -> int {
    if containers.len() == 0 {
        SCALE as int
    } else {
        shape_material(containers.last()).refractive_index@
    }
}

/// The containment-stack walk over the full intersection list in ascending
/// order: entering pushes a shape, exiting removes it, and at the target
/// hit the indices on both sides of the boundary are read. A target that
/// never occurs leaves both indices at zero.
pub open spec fn refraction_walk(
    xs: Seq<Intersection>,
    i: int,
    containers: Seq<Shape>,
    target: Intersection,
) -> (int, int)
    decreases xs.len() - i,
{
    if i < 0 || i >= xs.len() {
        (0, 0)
    } else {
        let x = xs[i];
        let n1 = containers_index(containers);
        let containers2 = toggle_container(containers, x.obj);
        if x == target {
            (n1, containers_index(containers2))
        } else {
            refraction_walk(xs, i + 1, containers2, target)
        }
    }
}

/// The (n1, n2) pair for a hit within the full intersection list.
pub open spec fn refraction_pair_spec(xs: Seq<Intersection>, target: Intersection) -> (int, int) {
    refraction_walk(xs, 0, Seq::<Shape>::empty(), target)
}

/// The index of the first occurrence of `obj`, when present.
fn find_shape(containers: &Vec<Shape>, obj: &Shape) -> (r: Option<usize>)
    ensures
        match r {
            Some(i) => i < containers@.len() && containers@[i as int] == *obj && forall|j: int|
                0 <= j < i ==> containers@[j] != *obj,
            None => !containers@.contains(*obj),
        },
{
    let mut i: usize = 0;
    while i < containers.len()
        invariant
            i <= containers@.len(),
            forall|j: int| 0 <= j < i ==> containers@[j] != *obj,
        decreases containers@.len() - i,
    {
        if containers[i] == *obj {
            return Some(i);
        }
        i = i + 1;
    }
    None
}

/// One toggle step on the executable container list.
fn toggle_exec(containers: &mut Vec<Shape>, obj: &Shape)
    ensures
        final(containers)@ == toggle_container(old(containers)@, *obj),
{
    match find_shape(containers, obj) {
        Some(i) => {
            proof {
                containers@.index_of_first_ensures(*obj);
            }
            containers.remove(i);
        },
        None => {
            containers.push(*obj);
        },
    }
}

/// Walks the intersection list keeping the container stack, mirroring the
/// recursive walk step for step.
fn refraction_pair(xs: &Vec<Intersection>, target: &Intersection) -> (r: (Scalar, Scalar))
    ensures
        r.0@ == refraction_pair_spec(xs@, *target).0,
        r.1@ == refraction_pair_spec(xs@, *target).1,
{
    let mut containers: Vec<Shape> = Vec::new();
    let mut i: usize = 0;
    proof {
        assert(containers@ =~= Seq::<Shape>::empty());
    }
    while i < xs.len()
        invariant
            i <= xs@.len(),
            refraction_pair_spec(xs@, *target) == refraction_walk(xs@, i as int, containers@, *target),
        decreases xs@.len() - i,
    {
        let x = xs[i];
        let is_target = x == *target;
        let n1 = if containers.len() == 0 {
            Scalar { raw: SCALE }
        } else {
            containers[containers.len() - 1].material().refractive_index()
        };
        toggle_exec(&mut containers, &x.obj);
        if is_target {
            let n2 = if containers.len() == 0 {
                Scalar { raw: SCALE }
            } else {
                containers[containers.len() - 1].material().refractive_index()
            };
            return (n1, n2);
        }
        i = i + 1;
    }
    (Scalar { raw: 0 }, Scalar { raw: 0 })
}

/// The earliest intersection with the smallest non-negative t in the prefix
/// considered so far, folded from the left.
pub open spec fn hit_spec(s: Seq<Intersection>) -> Option<Intersection>
    decreases s.len(),
{
    if s.len() == 0 {
        None
    } else {
        let prev = hit_spec(s.drop_last());
        let x = s.last();
        match prev {
            None => if x.t@ >= 0 {
                Some(x)
            } else {
                None
            },
            Some(b) => if x.t@ >= 0 && x.t@ < b.t@ {
                Some(x)
            } else {
                Some(b)
            },
        }
    }
}

/// The nearest visible intersection: the one with the smallest
/// non-negative t, or none when every t is negative. Among equal t values
/// the earliest in the list wins.
pub fn hit(xs: Vec<Intersection>) -> (r: Option<Intersection>)
    ensures
        r == hit_spec(xs@),
{
    let mut best: Option<Intersection> = None;
    let mut i: usize = 0;
    proof {
        assert(xs@.take(0) =~= Seq::<Intersection>::empty());
    }
    while i < xs.len()
        invariant
            i <= xs@.len(),
            best == hit_spec(xs@.take(i as int)),
        decreases xs@.len() - i,
    {
        let x = xs[i];
        proof {
            assert(xs@.take(i + 1).drop_last() =~= xs@.take(i as int));
            assert(xs@.take(i + 1).last() == xs@[i as int]);
        }
        best = match best {
            None => if x.t.raw >= 0 {
                Some(x)
            } else {
                None
            },
            Some(b) => if x.t.raw >= 0 && x.t.raw < b.t.raw {
                Some(x)
            } else {
                Some(b)
            },
        };
        i = i + 1;
    }
    proof {
        assert(xs@.take(xs@.len() as int) =~= xs@);
    }
    best
}

/// What `hit_spec` selects: nothing when every t is negative, otherwise a
/// member of the list with the smallest non-negative t.
pub proof fn lemma_hit_properties(s: Seq<Intersection>)
    ensures
        hit_spec(s) is None ==> forall|i: int| 0 <= i < s.len() ==> (#[trigger] s[i]).t@ < 0,
        hit_spec(s) is Some ==> s.contains(hit_spec(s)->Some_0),
        hit_spec(s) is Some ==> hit_spec(s)->Some_0.t@ >= 0,
        hit_spec(s) is Some ==> forall|i: int|
            0 <= i < s.len() && (#[trigger] s[i]).t@ >= 0 ==> hit_spec(s)->Some_0.t@ <= s[i].t@,
    decreases s.len(),
{
    if s.len() > 0 {
        lemma_hit_properties(s.drop_last());
        let prev = hit_spec(s.drop_last());
        assert forall|i: int| 0 <= i < s.len() - 1 implies s.drop_last()[i] == s[i] by {}
        if hit_spec(s) is Some {
            let h = hit_spec(s)->Some_0;
            if prev is Some && h == prev->Some_0 {
                assert(s.drop_last().contains(h));
                let w = choose|i: int|
                    0 <= i < s.drop_last().len() && s.drop_last()[i] == h;
                assert(s[w] == h);
            } else {
                assert(s[s.len() - 1] == h);
            }
        }
    }
}

/// The shading context derived from one hit: the surface point, eye and
/// normal vectors, the reflection vector, acne-avoiding offset points, and
/// the refractive indices on both sides of the boundary.
#[derive(Clone, Copy, PartialEq, Eq, Structural, Debug)]
pub struct Computations {
    pub t: Scalar,
    pub object: Shape,
    pub point: Tuple,
    pub eyev: Tuple,
    pub normalv: Tuple,
    pub inside: bool,
    pub over_point: Tuple,
    pub under_point: Tuple,
    pub reflectv: Tuple,
    pub n1: Scalar,
    pub n2: Scalar,
}

/// The context `prepare_computations` builds: the normal is flipped toward
/// the eye when the hit is inside the shape, the offset points sit one
/// tolerance along the (flipped) normal, and the refractive pair comes
/// from the containment walk over the whole list.
pub open spec fn precompute_spec(hit: Intersection, ray: Ray, xs: Seq<Intersection>)
    -> Computations {
    let point = ray_position(ray, hit.t@);
    let eyev = tup_neg(ray.direction);
    let normalv0 = shape_normal_spec(hit.obj, point);
    let inside = tup_dot(normalv0, eyev) < 0;
    let normalv = if inside {
        tup_neg(normalv0)
    } else {
        normalv0
    };
    let pair = refraction_pair_spec(xs, hit);
    Computations {
        t: hit.t,
        object: hit.obj,
        point,
        eyev,
        normalv,
        inside,
        over_point: tup_add(point, tup_scale(normalv, EPSILON as int)),
        under_point: tup_sub(point, tup_scale(normalv, EPSILON as int)),
        reflectv: tup_reflect(ray.direction, normalv),
        n1: Scalar { raw: pair.0 as i64 },
        n2: Scalar { raw: pair.1 as i64 },
    }
}

/// The common tail of the Schlick approximation.
pub open spec fn schlick_tail(n1: int, n2: int, cos: int) -> int {
    let r0 = fp_pow(fp_div(fp_sub(n1, n2), fp_add(n1, n2)), 2);
    fp_add(r0, fp_mul(fp_sub(SCALE as int, r0), fp_pow(fp_sub(SCALE as int, cos), 5)))
}

/// The Schlick reflectance: exactly one at total internal reflection, and
/// otherwise the `r0 + (1 - r0) * (1 - cos)^5` approximation, with the
/// cosine replaced by its refracted counterpart when leaving a denser
/// medium.
pub open spec fn schlick_spec(c: Computations) -> int {
    let cos = tup_dot(c.eyev, c.normalv);
    if c.n1@ > c.n2@ {
        let n = fp_div(c.n1@, c.n2@);
        let sin2_t = fp_mul(fp_mul(n, n), fp_sub(SCALE as int, fp_mul(cos, cos)));
        if sin2_t > SCALE {
            SCALE as int
        } else {
            schlick_tail(c.n1@, c.n2@, fp_sqrt(fp_sub(SCALE as int, sin2_t)))
        }
    } else {
        schlick_tail(c.n1@, c.n2@, cos)
    }
}

/// Total internal reflection: leaving a denser medium at an angle whose
/// refracted sine would exceed one makes the boundary fully reflective.
pub proof fn lemma_schlick_total_internal_reflection(c: Computations)
    requires
        c.n1@ > c.n2@,
        fp_mul(
            fp_mul(fp_div(c.n1@, c.n2@), fp_div(c.n1@, c.n2@)),
            fp_sub(SCALE as int, fp_mul(tup_dot(c.eyev, c.normalv), tup_dot(c.eyev, c.normalv))),
        ) > SCALE,
    ensures
        schlick_spec(c) == SCALE,
{
}

impl Computations {
    /// The Fresnel reflectance estimate for this boundary.
    pub fn schlick(&self) -> (r: Scalar)
        ensures
            r@ == schlick_spec(*self),
    {
        let mut cos = self.eyev.dot(&self.normalv);

        if self.n1.raw > self.n2.raw {
            let n = self.n1.div(self.n2);
            let one = Scalar { raw: SCALE };
            let sin2_t = n.mul(n).mul(one.sub(cos.mul(cos)));
            if sin2_t.raw > SCALE {
                return Scalar { raw: SCALE };
            }
            cos = one.sub(sin2_t).sqrt();
        }

        let one = Scalar { raw: SCALE };
        let r0 = self.n1.sub(self.n2).div(self.n1.add(self.n2)).powi(2);
        r0.add(one.sub(r0).mul(one.sub(cos).powi(5)))
    }

    pub fn t(&self) -> (r: Scalar)
        ensures
            r == self.t,
    {
        self.t
    }

    pub fn object(&self) -> (r: Shape)
        ensures
            r == self.object,
    {
        self.object
    }

    pub fn point(&self) -> (r: Tuple)
        ensures
            r == self.point,
    {
        self.point
    }

    pub fn eyev(&self) -> (r: Tuple)
        ensures
            r == self.eyev,
    {
        self.eyev
    }

    pub fn normalv(&self) -> (r: Tuple)
        ensures
            r == self.normalv,
    {
        self.normalv
    }

    pub fn inside(&self) -> (r: bool)
        ensures
            r == self.inside,
    {
        self.inside
    }

    pub fn over_point(&self) -> (r: Tuple)
        ensures
            r == self.over_point,
    {
        self.over_point
    }

    pub fn under_point(&self) -> (r: Tuple)
        ensures
            r == self.under_point,
    {
        self.under_point
    }

    pub fn reflectv(&self) -> (r: Tuple)
        ensures
            r == self.reflectv,
    {
        self.reflectv
    }

    pub fn n1(&self) -> (r: Scalar)
        ensures
            r == self.n1,
    {
        self.n1
    }

    pub fn n2(&self) -> (r: Scalar)
        ensures
            r == self.n2,
    {
        self.n2
    }
}

} // verus!
