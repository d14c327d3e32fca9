//! The scene: an object list and a light, with intersection collection,
//! shadow testing, and the recursive reflection/refraction compositing.

use vstd::prelude::*;

use crate::canvas::{px, px_add, px_black, px_scale, Pixel};
use crate::error::TraceError;
use crate::intersection::{
    hit, hit_spec, precompute_spec, schlick_spec, Computations, Intersection,
};
use crate::light::{light_position, Light, PointLight};
use crate::material::{lighting_ok, lighting_spec, Material};
use crate::matrix4x4::{m4_invertible, Matrix4x4};
use crate::ray::Ray;
use crate::scalar::{
    fp_abs, fp_div, fp_mul, fp_pow, fp_sqrt, fp_sub, Scalar, EPSILON, SCALE,
};
use crate::shape::{shape_material, shape_transform, shape_xs, Shape};
use crate::transformation::m4_scaling;
use crate::tuple::{tup_dot, tup_magnitude, tup_normalize, tup_scale, tup_sub, Tuple};

verus! {

/// `x` inserted after every element with t at or below its own, which on a
/// sorted list keeps it sorted and keeps earlier equal-t entries first.
pub open spec fn insert_by_t(s: Seq<Intersection>, x: Intersection) -> Seq<Intersection>
    decreases s.len(),
{
    if s.len() == 0 {
        seq![x]
    } else if s.last().t@ <= x.t@ {
        s.push(x)
    } else {
        insert_by_t(s.drop_last(), x).push(s.last())
    }
}

/// Stable insertion sort by t.
pub open spec fn sort_by_t(s: Seq<Intersection>) -> Seq<Intersection>
    decreases s.len(),
{
    if s.len() == 0 {
        Seq::<Intersection>::empty()
    } else {
        insert_by_t(sort_by_t(s.drop_last()), s.last())
    }
}

pub open spec fn sorted_by_t(s: Seq<Intersection>) -> bool {
    forall|i: int, j: int| 0 <= i <= j < s.len() ==> (#[trigger] s[i]).t@ <= (#[trigger] s[j]).t@
}

/// Every shape's intersections, concatenated in object order.
pub open spec fn world_xs_concat(objs: Seq<Shape>, ray: Ray) -> Seq<Intersection>
    decreases objs.len(),
{
    if objs.len() == 0 {
        Seq::<Intersection>::empty()
    } else {
        world_xs_concat(objs.drop_last(), ray) + shape_xs(objs.last(), ray)
    }
}

/// What `intersect_world` returns: the concatenated intersections, stably
/// sorted ascending by t.
pub open spec fn intersect_world_spec(objs: Seq<Shape>, ray: Ray) -> Seq<Intersection> {
    sort_by_t(world_xs_concat(objs, ray))
}

/// Every object's transform can be inverted.
pub open spec fn all_invertible(objs: Seq<Shape>) -> bool {
    forall|i: int| 0 <= i < objs.len() ==> m4_invertible(shape_transform(#[trigger] objs[i]))
}

/// Every object can be both intersected and shaded: its transform is
/// invertible and its pattern, if any, can be sampled.
pub open spec fn world_renderable(objs: Seq<Shape>) -> bool {
    all_invertible(objs) && forall|i: int|
        0 <= i < objs.len() ==> lighting_ok(shape_material(#[trigger] objs[i]), objs[i])
}

/// A point is shadowed when something stands between it and the light:
/// the hit along the ray toward the light lies closer than the light.
pub open spec fn is_shadowed_spec(objs: Seq<Shape>, light: Light, point: Tuple) -> bool {
    let v = tup_sub(light_position(light), point);
    let distance = tup_magnitude(v);
    let direction = tup_normalize(v);
    let r = Ray { origin: point, direction };
    match hit_spec(intersect_world_spec(objs, r)) {
        Some(h) => h.t@ < distance,
        None => false,
    }
}

/// Mirror reflection contribution: black when the recursion budget is
/// spent or the surface is not reflective; otherwise the color along the
/// reflected ray, scaled by the reflectivity.
pub open spec fn reflected_color_spec(
    objs: Seq<Shape>,
    light: Light,
    comps: Computations,
    remaining: int,
) -> Pixel
    decreases remaining, 0int,
{
    let reflective = shape_material(comps.object).reflective@;
    if remaining < 1 || fp_abs(reflective) < EPSILON {
        px_black()
    } else {
        let reflected_ray = Ray { origin: comps.over_point, direction: comps.reflectv };
        px_scale(color_at_spec(objs, light, reflected_ray, remaining - 1), reflective)
    }
}

/// Refraction contribution: black when the budget is spent, the surface is
/// opaque, or total internal reflection occurs; otherwise the color along
/// the Snell-refracted ray, scaled by the transparency.
pub open spec fn refracted_color_spec(
    objs: Seq<Shape>,
    light: Light,
    comps: Computations,
    remaining: int,
) -> Pixel
    decreases remaining, 0int,
{
    let transparency = shape_material(comps.object).transparency@;
    if remaining < 1 || fp_abs(transparency) < EPSILON {
        px_black()
    } else {
        let n_ratio = fp_div(comps.n1@, comps.n2@);
        let cos_i = tup_dot(comps.eyev, comps.normalv);
        let sin2_t = fp_mul(fp_pow(n_ratio, 2), fp_sub(SCALE as int, fp_pow(cos_i, 2)));
        if sin2_t > SCALE {
            px_black()
        } else {
            let cos_t = fp_sqrt(fp_sub(SCALE as int, sin2_t));
            let direction = tup_sub(
                tup_scale(comps.normalv, fp_sub(fp_mul(n_ratio, cos_i), cos_t)),
                tup_scale(comps.eyev, n_ratio),
            );
            let refracted_ray = Ray { origin: comps.under_point, direction };
            px_scale(color_at_spec(objs, light, refracted_ray, remaining - 1), transparency)
        }
    }
}

/// Surface color plus the reflected and refracted contributions; when the
/// material is both reflective and transparent the two are blended by the
/// Schlick reflectance.
pub open spec fn shade_hit_spec(
    objs: Seq<Shape>,
    light: Light,
    comps: Computations,
    remaining: int,
) -> Pixel
    decreases remaining, 1int,
{
    let shadowed = is_shadowed_spec(objs, light, comps.over_point);
    let surface = lighting_spec(
        shape_material(comps.object),
        comps.object,
        light,
        comps.point,
        comps.eyev,
        comps.normalv,
        shadowed,
    );
    let reflected = reflected_color_spec(objs, light, comps, remaining);
    let refracted = refracted_color_spec(objs, light, comps, remaining);
    let m = shape_material(comps.object);
    if m.reflective@ > 0 && m.transparency@ > 0 {
        let reflectance = schlick_spec(comps);
        px_add(
            px_add(surface, px_scale(reflected, reflectance)),
            px_scale(refracted, fp_sub(SCALE as int, reflectance)),
        )
    } else {
        px_add(px_add(surface, reflected), refracted)
    }
}

/// The color a ray sees: black when it hits nothing, else the hit shaded
/// with the given recursion budget.
pub open spec fn color_at_spec(objs: Seq<Shape>, light: Light, ray: Ray, remaining: int) -> Pixel
    decreases remaining, 2int,
{
    let xs = intersect_world_spec(objs, ray);
    match hit_spec(xs) {
        Some(h) => shade_hit_spec(objs, light, precompute_spec(h, ray, xs), remaining),
        None => px_black(),
    }
}

pub struct World {
    pub objects: Vec<Shape>,
    pub light: Option<Light>,
}

/// The light of the ready-made two-sphere world.
pub open spec fn default_light_spec() -> Light {
    Light::Point(
        PointLight {
            intensity: px(SCALE as int, SCALE as int, SCALE as int),
            position: Tuple {
                x: Scalar { raw: (-10_000_000) as i64 },
                y: Scalar { raw: 10_000_000 },
                z: Scalar { raw: (-10_000_000) as i64 },
                w: Scalar { raw: SCALE },
            },
        },
    )
}

/// The outer sphere of the ready-made world: a green-tinted material.
pub open spec fn default_sphere1_spec() -> Shape {
    Shape::Sphere(
        crate::shape::Sphere {
            transform: crate::matrix4x4::m4_identity(),
            material: Material {
                color: px(800_000, 1_000_000, 600_000),
                diffuse: Scalar { raw: 700_000 },
                specular: Scalar { raw: 200_000 },
                ..Material::default_spec()
            },
        },
    )
}

/// The inner sphere of the ready-made world: default material, half scale.
pub open spec fn default_sphere2_spec() -> Shape {
    Shape::Sphere(
        crate::shape::Sphere {
            transform: m4_scaling(500_000, 500_000, 500_000),
            material: Material::default_spec(),
        },
    )
}

impl World {
    /// An empty world: no objects and no light.
    pub fn new() -> (w: World)
        ensures
            w.objects@ == Seq::<Shape>::empty(),
            w.light is None,
    {
        let objects: Vec<Shape> = Vec::new();
        proof {
            assert(objects@ =~= Seq::<Shape>::empty());
        }
        World { objects, light: None }
    }

    /// The ready-made world: a white light and two concentric spheres.
    pub fn default() -> (w: World)
        ensures
            w.objects@ == seq![default_sphere1_spec(), default_sphere2_spec()],
            w.light == Some(default_light_spec()),
    {
        let light = Light::point(
            Tuple::point(
                Scalar { raw: -10_000_000 },
                Scalar { raw: 10_000_000 },
                Scalar { raw: -10_000_000 },
            ),
            Pixel::white(),
        );
        let mut s1 = Shape::sphere();
        let mut s1_m = Material::default();
        s1_m.set_color(Pixel::rgb(
            Scalar { raw: 800_000 },
            Scalar { raw: 1_000_000 },
            Scalar { raw: 600_000 },
        ));
        s1_m.set_diffuse(Scalar { raw: 700_000 });
        s1_m.set_specular(Scalar { raw: 200_000 });
        s1.set_material(s1_m);
        let mut s2 = Shape::sphere();
        s2.set_transform(Matrix4x4::scaling(
            Scalar { raw: 500_000 },
            Scalar { raw: 500_000 },
            Scalar { raw: 500_000 },
        ));

        let mut objects: Vec<Shape> = Vec::new();
        objects.push(s1);
        objects.push(s2);
        proof {
            assert(objects@ =~= seq![default_sphere1_spec(), default_sphere2_spec()]);
        }
        World { objects, light: Some(light) }
    }

    /// A copy of the object list.
    pub fn objects(&self) -> (r: Vec<Shape>)
        ensures
            r@ == self.objects@,
    {
        let mut copy: Vec<Shape> = Vec::new();
        let mut i: usize = 0;
        while i < self.objects.len()
            invariant
                i <= self.objects@.len(),
                copy@ == self.objects@.take(i as int),
            decreases self.objects@.len() - i,
        {
            copy.push(self.objects[i]);
            proof {
                assert(copy@ =~= self.objects@.take(i + 1));
            }
            i = i + 1;
        }
        proof {
            assert(self.objects@.take(self.objects@.len() as int) =~= self.objects@);
        }
        copy
    }

    pub fn light(&self) -> (r: Option<Light>)
        ensures
            r == self.light,
    {
        self.light
    }

    pub fn set_light(&mut self, light: Light)
        ensures
            final(self).light == Some(light),
            final(self).objects@ == old(self).objects@,
    {
        self.light = Some(light);
    }

    pub fn set_objects(&mut self, objs: Vec<Shape>)
        ensures
            final(self).objects@ == objs@,
            final(self).light == old(self).light,
    {
        self.objects = objs;
    }

    /// Every object's intersections with the ray, sorted ascending by t;
    /// fails when any object's transform is not invertible.
    pub fn intersect_world(&self, ray: Ray) -> (r: Result<Vec<Intersection>, TraceError>)
        ensures
            all_invertible(self.objects@) ==> r is Ok && r->Ok_0@ == intersect_world_spec(
                self.objects@,
                ray,
            ),
            !all_invertible(self.objects@) ==> r == Err::<Vec<Intersection>, TraceError>(
                TraceError::NotInvertible,
            ),
    {
        let mut hits: Vec<Intersection> = Vec::new();
        let mut i: usize = 0;
        proof {
            assert(self.objects@.take(0) =~= Seq::<Shape>::empty());
            assert(hits@ =~= world_xs_concat(self.objects@.take(0), ray));
        }
        while i < self.objects.len()
            invariant
                i <= self.objects@.len(),
                forall|j: int|
                    0 <= j < i ==> m4_invertible(shape_transform(#[trigger] self.objects@[j])),
                hits@ == world_xs_concat(self.objects@.take(i as int), ray),
            decreases self.objects@.len() - i,
        {
            let obj = self.objects[i];
            let mut these = match obj.intersect(ray) {
                Ok(v) => v,
                Err(e) => {
                    proof {
                        assert(!m4_invertible(shape_transform(self.objects@[i as int])));
                    }
                    return Err(e);
                },
            };
            hits.append(&mut these);
            proof {
                assert(self.objects@.take(i + 1).drop_last() =~= self.objects@.take(i as int));
                assert(self.objects@.take(i + 1).last() == self.objects@[i as int]);
                assert(hits@ =~= world_xs_concat(self.objects@.take(i + 1), ray));
            }
            i = i + 1;
        }
        proof {
            assert(self.objects@.take(self.objects@.len() as int) =~= self.objects@);
        }
        let sorted = sort_intersections(hits);
        Ok(sorted)
    }

    /// True when something blocks the light from the point; fails without
    /// a light, or when an object's transform is not invertible.
    pub fn is_shadowed(&self, point: Tuple) -> (r: Result<bool, TraceError>)
        ensures
            self.light is Some && all_invertible(self.objects@) ==> r == Ok::<bool, TraceError>(
                is_shadowed_spec(self.objects@, self.light->Some_0, point),
            ),
            self.light is None ==> r == Err::<bool, TraceError>(TraceError::MissingLight),
            self.light is Some && !all_invertible(self.objects@) ==> r == Err::<bool, TraceError>(
                TraceError::NotInvertible,
            ),
    {
        let light = match &self.light {
            Some(l) => *l,
            None => {
                return Err(TraceError::MissingLight);
            },
        };
        let v = light.position().sub(point);
        let distance = v.magnitude();
        let direction = v.normalize();

        let r = Ray::new(point, direction);
        let intersections = match self.intersect_world(r) {
            Ok(xs) => xs,
            Err(e) => {
                return Err(e);
            },
        };

        match hit(intersections) {
            Some(hs) => Ok(hs.t().raw < distance.raw),
            None => Ok(false),
        }
    }

    /// Local shading plus the recursive reflected and refracted colors,
    /// blended by Schlick reflectance when the material has both.
    pub fn shade_hit(&self, comps: Computations, remaining: i32) -> (r: Result<Pixel, TraceError>)
        ensures
            self.light is Some && world_renderable(self.objects@) && lighting_ok(
                shape_material(comps.object),
                comps.object,
            ) ==> r == Ok::<Pixel, TraceError>(
                shade_hit_spec(self.objects@, self.light->Some_0, comps, remaining as int),
            ),
            self.light is None ==> r == Err::<Pixel, TraceError>(TraceError::MissingLight),
            self.light is Some && !all_invertible(self.objects@) ==> r == Err::<
                Pixel,
                TraceError,
            >(TraceError::NotInvertible),
        decreases remaining, 1int,
    {
        let shadowed = match self.is_shadowed(comps.over_point()) {
            Ok(b) => b,
            Err(e) => {
                return Err(e);
            },
        };

        let light = match &self.light {
            Some(l) => *l,
            None => {
                return Err(TraceError::MissingLight);
            },
        };

        let surface = match comps.object().material().lighting(
            &comps.object(),
            &light,
            comps.point(),
            comps.eyev(),
            comps.normalv(),
            shadowed,
        ) {
            Ok(c) => c,
            Err(e) => {
                return Err(e);
            },
        };

        let reflected = match self.reflected_color(comps, remaining) {
            Ok(c) => c,
            Err(e) => {
                return Err(e);
            },
        };
        let refracted = match self.refracted_color(comps, remaining) {
            Ok(c) => c,
            Err(e) => {
                return Err(e);
            },
        };

        let material = comps.object().material();
        if material.reflective().raw > 0 && material.transparency().raw > 0 {
            let reflectance = comps.schlick();
            let one = Scalar { raw: SCALE };
            Ok(
                surface.add(reflected.scale(reflectance)).add(
                    refracted.scale(one.sub(reflectance)),
                ),
            )
        } else {
            Ok(surface.add(reflected).add(refracted))
        }
    }

    /// The color the ray sees: black when it hits nothing, else the
    /// nearest hit shaded with the given recursion budget.
    pub fn color_at(&self, ray: Ray, remaining: i32) -> (r: Result<Pixel, TraceError>)
        ensures
            all_invertible(self.objects@) && hit_spec(
                intersect_world_spec(self.objects@, ray),
            ) is None ==> r == Ok::<Pixel, TraceError>(px_black()),
            self.light is Some && world_renderable(self.objects@) ==> r == Ok::<
                Pixel,
                TraceError,
            >(color_at_spec(self.objects@, self.light->Some_0, ray, remaining as int)),
            !all_invertible(self.objects@) ==> r == Err::<Pixel, TraceError>(
                TraceError::NotInvertible,
            ),
            self.light is None && all_invertible(self.objects@) && hit_spec(
                intersect_world_spec(self.objects@, ray),
            ) is Some ==> r == Err::<Pixel, TraceError>(TraceError::MissingLight),
        decreases remaining, 2int,
    {
        let xs = match self.intersect_world(ray) {
            Ok(v) => v,
            Err(e) => {
                return Err(e);
            },
        };
        let xs_copy = copy_intersections(&xs);
        match hit(xs_copy) {
            Some(h) => {
                let comps = match h.prepare_computations(ray, xs) {
                    Ok(c) => c,
                    Err(e) => {
                        proof {
                            crate::intersection::lemma_hit_properties(
                                intersect_world_spec(self.objects@, ray),
                            );
                            lemma_sort_by_t_membership(
                                world_xs_concat(self.objects@, ray),
                                h,
                            );
                            lemma_concat_membership(self.objects@, ray, h);
                        }
                        return Err(e);
                    },
                };
                proof {
                    crate::intersection::lemma_hit_properties(
                        intersect_world_spec(self.objects@, ray),
                    );
                    lemma_sort_by_t_membership(world_xs_concat(self.objects@, ray), h);
                    lemma_concat_membership(self.objects@, ray, h);
                }
                self.shade_hit(comps, remaining)
            },
            None => Ok(Pixel::black()),
        }
    }

    /// Black when the budget is spent or the surface is not reflective,
    /// whatever the scene; otherwise the recursive reflection color.
    pub fn reflected_color(&self, comps: Computations, remaining: i32) -> (r: Result<
        Pixel,
        TraceError,
    >)
        ensures
            remaining < 1 || fp_abs(shape_material(comps.object).reflective@) < EPSILON ==> r
                == Ok::<Pixel, TraceError>(px_black()),
            self.light is Some && world_renderable(self.objects@) ==> r == Ok::<
                Pixel,
                TraceError,
            >(
                reflected_color_spec(
                    self.objects@,
                    self.light->Some_0,
                    comps,
                    remaining as int,
                ),
            ),
        decreases remaining, 0int,
    {
        if remaining < 1 || comps.object().material().reflective().near_zero() {
            return Ok(Pixel::black());
        }

        let reflected_ray = Ray::new(comps.over_point(), comps.reflectv());
        let color = match self.color_at(reflected_ray, remaining - 1) {
            Ok(c) => c,
            Err(e) => {
                return Err(e);
            },
        };

        Ok(color.scale(comps.object().material().reflective()))
    }

    /// Black when the budget is spent, the surface is opaque, or total
    /// internal reflection occurs, whatever the scene; otherwise the
    /// recursive refraction color.
    pub fn refracted_color(&self, comps: Computations, remaining: i32) -> (r: Result<
        Pixel,
        TraceError,
    >)
        ensures
            remaining < 1 || fp_abs(shape_material(comps.object).transparency@) < EPSILON ==> r
                == Ok::<Pixel, TraceError>(px_black()),
            self.light is Some && world_renderable(self.objects@) ==> r == Ok::<
                Pixel,
                TraceError,
            >(
                refracted_color_spec(
                    self.objects@,
                    self.light->Some_0,
                    comps,
                    remaining as int,
                ),
            ),
        decreases remaining, 0int,
    {
        if remaining < 1 || comps.object().material().transparency().near_zero() {
            return Ok(Pixel::black());
        }

        let one = Scalar { raw: SCALE };
        let n_ratio = comps.n1().div(comps.n2());
        let cos_i = comps.eyev().dot(&comps.normalv());
        let sin2_t = n_ratio.powi(2).mul(one.sub(cos_i.powi(2)));

        if sin2_t.raw > SCALE {
            return Ok(Pixel::black());
        }

        let cos_t = one.sub(sin2_t).sqrt();
        let direction = comps.normalv().scale(n_ratio.mul(cos_i).sub(cos_t)).sub(
            comps.eyev().scale(n_ratio),
        );

        let refracted_ray = Ray::new(comps.under_point(), direction);

        let color = match self.color_at(refracted_ray, remaining - 1) {
            Ok(c) => c,
            Err(e) => {
                return Err(e);
            },
        };

        Ok(color.scale(comps.object().material().transparency()))
    }
}

/// A by-value copy of an intersection list.
fn copy_intersections(xs: &Vec<Intersection>) -> (r: Vec<Intersection>)
    ensures
        r@ == xs@,
{
    let mut copy: Vec<Intersection> = Vec::new();
    let mut i: usize = 0;
    while i < xs.len()
        invariant
            i <= xs@.len(),
            copy@ == xs@.take(i as int),
        decreases xs@.len() - i,
    {
        copy.push(xs[i]);
        proof {
            assert(copy@ =~= xs@.take(i + 1));
        }
        i = i + 1;
    }
    proof {
        assert(xs@.take(xs@.len() as int) =~= xs@);
    }
    copy
}

/// `sort_by_t` yields a list sorted by t.
pub proof fn lemma_insert_sorted(s: Seq<Intersection>, x: Intersection)
    requires
        sorted_by_t(s),
    ensures
        sorted_by_t(insert_by_t(s, x)),
        insert_by_t(s, x).len() == s.len() + 1,
        insert_by_t(s, x).to_multiset() == s.to_multiset().insert(x),
    decreases s.len(),
{
    s.to_multiset_ensures();
    if s.len() == 0 {
        let r = insert_by_t(s, x);
        assert(r =~= seq![x]);
        seq![x].to_multiset_ensures();
        assert(seq![x].drop_last() =~= Seq::<Intersection>::empty());
        Seq::<Intersection>::empty().to_multiset_ensures();
        assert(r.to_multiset() =~= s.to_multiset().insert(x));
    } else if s.last().t@ <= x.t@ {
        let r = s.push(x);
        assert forall|i: int, j: int| 0 <= i <= j < r.len() implies (#[trigger] r[i]).t@
            <= (#[trigger] r[j]).t@ by {
            if j < r.len() - 1 {
                assert(s[i].t@ <= s[j].t@);
            } else if i < r.len() - 1 {
                assert(s[i].t@ <= s.last().t@);
            }
        }
        assert(r.drop_last() =~= s);
        r.to_multiset_ensures();
    } else {
        let inner = insert_by_t(s.drop_last(), x);
        assert forall|i: int, j: int| 0 <= i <= j < s.drop_last().len() implies (
        #[trigger] s.drop_last()[i]).t@ <= (#[trigger] s.drop_last()[j]).t@ by {
            assert(s[i].t@ <= s[j].t@);
        }
        lemma_insert_sorted(s.drop_last(), x);
        let r = inner.push(s.last());
        // Everything in `inner` is either from `s.drop_last()` (at most
        // `s.last().t`) or is `x` itself, which here is below `s.last().t`.
        assert forall|i: int| 0 <= i < inner.len() implies inner[i].t@ <= s.last().t@ by {
            inner.to_multiset_ensures();
            assert(inner.to_multiset().contains(inner[i]));
            s.drop_last().to_multiset_ensures();
            if inner[i] != x {
                assert(s.drop_last().to_multiset().contains(inner[i]));
                let w = choose|k: int|
                    0 <= k < s.drop_last().len() && s.drop_last()[k] == inner[i];
                assert(s[w].t@ <= s[s.len() - 1].t@);
            }
        }
        assert forall|i: int, j: int| 0 <= i <= j < r.len() implies (#[trigger] r[i]).t@
            <= (#[trigger] r[j]).t@ by {
            if j < r.len() - 1 {
                assert(inner[i].t@ <= inner[j].t@);
            } else if i < r.len() - 1 {
                assert(inner[i].t@ <= s.last().t@);
            }
        }
        inner.to_multiset_ensures();
        s.drop_last().to_multiset_ensures();
        assert(s.drop_last().push(s.last()) =~= s);
        assert(s.to_multiset() == s.drop_last().to_multiset().insert(s.last()));
        assert(r.to_multiset() == inner.to_multiset().insert(s.last()));
        assert(r.to_multiset() =~= s.to_multiset().insert(x));
    }
}

/// Sorting keeps exactly the same intersections.
pub proof fn lemma_sort_by_t_ensures(s: Seq<Intersection>)
    ensures
        sorted_by_t(sort_by_t(s)),
        sort_by_t(s).len() == s.len(),
        sort_by_t(s).to_multiset() == s.to_multiset(),
    decreases s.len(),
{
    s.to_multiset_ensures();
    if s.len() == 0 {
        assert(sort_by_t(s) =~= Seq::<Intersection>::empty());
        assert(s =~= Seq::<Intersection>::empty());
    } else {
        lemma_sort_by_t_ensures(s.drop_last());
        lemma_insert_sorted(sort_by_t(s.drop_last()), s.last());
        s.drop_last().to_multiset_ensures();
        assert(s.drop_last().push(s.last()) =~= s);
        assert(s.to_multiset() == s.drop_last().to_multiset().insert(s.last()));
        assert(sort_by_t(s).to_multiset() =~= s.to_multiset());
    }
}

/// Whatever the sort emits was in the unsorted list.
pub proof fn lemma_sort_by_t_membership(s: Seq<Intersection>, x: Intersection)
    requires
        sort_by_t(s).contains(x),
    ensures
        s.contains(x),
{
    lemma_sort_by_t_ensures(s);
    sort_by_t(s).to_multiset_ensures();
    s.to_multiset_ensures();
    let w = choose|i: int| 0 <= i < sort_by_t(s).len() && sort_by_t(s)[i] == x;
    assert(sort_by_t(s).to_multiset().contains(x));
    assert(s.to_multiset().contains(x));
}

/// An intersection of the concatenated per-shape lists belongs to one of
/// the shapes, so its object sits in the object list.
pub proof fn lemma_concat_membership(objs: Seq<Shape>, ray: Ray, x: Intersection)
    requires
        world_xs_concat(objs, ray).contains(x),
    ensures
        exists|i: int| 0 <= i < objs.len() && #[trigger] objs[i] == x.obj,
    decreases objs.len(),
{
    if objs.len() > 0 {
        let front = world_xs_concat(objs.drop_last(), ray);
        let back = shape_xs(objs.last(), ray);
        let w = choose|i: int|
            0 <= i < world_xs_concat(objs, ray).len() && world_xs_concat(objs, ray)[i] == x;
        if w < front.len() {
            assert(front[w] == x);
            assert(front.contains(x));
            lemma_concat_membership(objs.drop_last(), ray, x);
            let i = choose|i: int| 0 <= i < objs.drop_last().len() && #[trigger] objs.drop_last()[i] == x.obj;
            assert(objs[i] == x.obj);
        } else {
            assert(back[w - front.len()] == x);
            assert(x.obj == objs.last());
            assert(objs[objs.len() - 1] == x.obj);
        }
    }
}

/// Insertion sort ascending by t, stable for equal t values.
fn sort_intersections(xs: Vec<Intersection>) -> (r: Vec<Intersection>)
    ensures
        r@ == sort_by_t(xs@),
{
    let mut sorted: Vec<Intersection> = Vec::new();
    let mut i: usize = 0;
    proof {
        assert(xs@.take(0) =~= Seq::<Intersection>::empty());
        assert(sorted@ =~= sort_by_t(xs@.take(0)));
    }
    while i < xs.len()
        invariant
            i <= xs@.len(),
            sorted@ == sort_by_t(xs@.take(i as int)),
            sorted_by_t(sorted@),
        decreases xs@.len() - i,
    {
        let x = xs[i];
        proof {
            lemma_sort_by_t_ensures(xs@.take(i as int));
        }
        let ghost pre = sorted@;
        let mut j = sorted.len();
        while j > 0 && sorted[j - 1].t.raw > x.t.raw
            invariant
                j <= sorted@.len(),
                sorted@ == pre,
                forall|k: int| j <= k < sorted@.len() ==> (#[trigger] sorted@[k]).t@ > x.t@,
            decreases j,
        {
            j = j - 1;
        }
        proof {
            assert forall|k: int| 0 <= k < j implies (#[trigger] sorted@[k]).t@ <= x.t@ by {
                if j > 0 {
                    assert(sorted@[k].t@ <= sorted@[j - 1].t@);
                }
            }
            lemma_insert_at(sorted@, x, j as int);
            assert(xs@.take(i + 1).drop_last() =~= xs@.take(i as int));
            assert(xs@.take(i + 1).last() == xs@[i as int]);
        }
        sorted.insert(j, x);
        proof {
            assert(sorted@ =~= insert_by_t(pre, x));
            lemma_insert_sorted(pre, x);
        }
        i = i + 1;
    }
    proof {
        assert(xs@.take(xs@.len() as int) =~= xs@);
    }
    sorted
}

/// Positional characterization of `insert_by_t`: inserting at the boundary
/// index produces exactly the recursive result.
proof fn lemma_insert_at(s: Seq<Intersection>, x: Intersection, j: int)
    requires
        0 <= j <= s.len(),
        forall|k: int| 0 <= k < j ==> (#[trigger] s[k]).t@ <= x.t@,
        forall|k: int| j <= k < s.len() ==> (#[trigger] s[k]).t@ > x.t@,
    ensures
        insert_by_t(s, x) == s.insert(j, x),
    decreases s.len(),
{
    if s.len() == 0 {
        assert(insert_by_t(s, x) =~= s.insert(0, x));
    } else if s.last().t@ <= x.t@ {
        assert(j == s.len());
        assert(insert_by_t(s, x) =~= s.insert(j, x));
    } else {
        lemma_insert_at(s.drop_last(), x, j);
        assert(insert_by_t(s, x) =~= s.insert(j, x));
    }
}

} // verus!
