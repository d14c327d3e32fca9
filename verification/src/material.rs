//! Surface materials and the Phong illumination model.

use vstd::prelude::*;

use crate::canvas::{px_add, px_black, px_mul, px_scale, Pixel};
use crate::light::{light_intensity, light_position, Light};
use crate::error::TraceError;
use crate::pattern::{pattern_at_object_spec, pattern_sampling_ok, Pattern};
use crate::scalar::{fp_pow, Scalar};
use crate::shape::Shape;
use crate::tuple::{tup_dot, tup_neg, tup_normalize, tup_reflect, tup_sub, Tuple};

verus! {

#[derive(Clone, Copy, PartialEq, Eq, Structural, Debug)]
pub struct Material {
    pub color: Pixel,
    pub ambient: Scalar,
    pub diffuse: Scalar,
    pub specular: Scalar,
    /// The specular exponent; a whole number, since the power is computed
    /// by repeated fixed-point products.
    pub shininess: u32,
    pub pattern: Option<Pattern>,
    pub reflective: Scalar,
    pub transparency: Scalar,
    pub refractive_index: Scalar,
}

/// The Phong model at a point: ambient plus, outside shadow, diffuse and
/// specular terms, all folded exactly as the code folds them.
pub open spec fn lighting_spec(
    m: Material,
    object: Shape,
    light: Light,
    point: Tuple,
    eyev: Tuple,
    normalv: Tuple,
    in_shadow: bool,
) -> Pixel {
    let color = match m.pattern {
        Some(p) => pattern_at_object_spec(p, object, point),
        None => m.color,
    };
    let effective = px_mul(color, light_intensity(light));
    let lightv = tup_normalize(tup_sub(light_position(light), point));
    let ambient = px_scale(effective, m.ambient@);
    let ldn = tup_dot(lightv, normalv);
    let diffuse = if ldn < 0 {
        px_black()
    } else {
        px_scale(px_scale(effective, m.diffuse@), ldn)
    };
    let specular = if ldn < 0 {
        px_black()
    } else {
        let reflectv = tup_reflect(tup_neg(lightv), normalv);
        let rde = tup_dot(reflectv, eyev);
        if rde <= 0 {
            px_black()
        } else {
            px_scale(px_scale(light_intensity(light), m.specular@), fp_pow(rde, m.shininess as nat))
        }
    };
    px_add(
        ambient,
        if in_shadow {
            px_black()
        } else {
            px_add(diffuse, specular)
        },
    )
}

/// Sampling the material's pattern on this object cannot fail.
pub open spec fn lighting_ok(m: Material, object: Shape) -> bool {
    match m.pattern {
        Some(p) => pattern_sampling_ok(p, object),
        None => true,
    }
}

impl Material {
    pub fn new(color: Pixel, ambient: Scalar, diffuse: Scalar, specular: Scalar, shininess: u32)
        -> (r: Material)
        ensures
            r == (Material {
                color,
                ambient,
                diffuse,
                specular,
                shininess,
                pattern: None::<Pattern>,
                reflective: Scalar { raw: 0 },
                transparency: Scalar { raw: 0 },
                refractive_index: Scalar { raw: crate::scalar::SCALE },
            }),
    {
        Material {
            color,
            ambient,
            diffuse,
            specular,
            shininess,
            pattern: None,
            reflective: Scalar { raw: 0 },
            transparency: Scalar { raw: 0 },
            refractive_index: Scalar { raw: crate::scalar::SCALE },
        }
    }

    /// White, ambient 0.1, diffuse 0.9, specular 0.9, shininess 200.
    pub fn default() -> (r: Material)
        ensures
            r == Material::default_spec(),
    {
        Material::new(
            Pixel::white(),
            Scalar { raw: 100_000 },
            Scalar { raw: 900_000 },
            Scalar { raw: 900_000 },
            200,
        )
    }

    /// The default material's exact value.
    pub open spec fn default_spec() -> Material {
        Material {
            color: crate::canvas::px(
                crate::scalar::SCALE as int,
                crate::scalar::SCALE as int,
                crate::scalar::SCALE as int,
            ),
            ambient: Scalar { raw: 100_000 },
            diffuse: Scalar { raw: 900_000 },
            specular: Scalar { raw: 900_000 },
            shininess: 200,
            pattern: None,
            reflective: Scalar { raw: 0 },
            transparency: Scalar { raw: 0 },
            refractive_index: Scalar { raw: crate::scalar::SCALE },
        }
    }

    pub fn color(&self) -> (r: Pixel)
        ensures
            r == self.color,
    {
        self.color
    }

    pub fn ambient(&self) -> (r: Scalar)
        ensures
            r == self.ambient,
    {
        self.ambient
    }

    pub fn diffuse(&self) -> (r: Scalar)
        ensures
            r == self.diffuse,
    {
        self.diffuse
    }

    pub fn specular(&self) -> (r: Scalar)
        ensures
            r == self.specular,
    {
        self.specular
    }

    pub fn shininess(&self) -> (r: u32)
        ensures
            r == self.shininess,
    {
        self.shininess
    }

    pub fn pattern(&self) -> (r: Option<Pattern>)
        ensures
            r == self.pattern,
    {
        self.pattern
    }

    pub fn reflective(&self) -> (r: Scalar)
        ensures
            r == self.reflective,
    {
        self.reflective
    }

    pub fn transparency(&self) -> (r: Scalar)
        ensures
            r == self.transparency,
    {
        self.transparency
    }

    pub fn refractive_index(&self) -> (r: Scalar)
        ensures
            r == self.refractive_index,
    {
        self.refractive_index
    }

    pub fn set_color(&mut self, color: Pixel)
        ensures
            *final(self) == (Material { color, ..*old(self) }),
    {
        self.color = color;
    }

    pub fn set_ambient(&mut self, val: Scalar)
        ensures
            *final(self) == (Material { ambient: val, ..*old(self) }),
    {
        self.ambient = val;
    }

    pub fn set_diffuse(&mut self, val: Scalar)
        ensures
            *final(self) == (Material { diffuse: val, ..*old(self) }),
    {
        self.diffuse = val;
    }

    pub fn set_specular(&mut self, val: Scalar)
        ensures
            *final(self) == (Material { specular: val, ..*old(self) }),
    {
        self.specular = val;
    }

    pub fn set_shininess(&mut self, val: u32)
        ensures
            *final(self) == (Material { shininess: val, ..*old(self) }),
    {
        self.shininess = val;
    }

    pub fn set_pattern(&mut self, pattern: Pattern)
        ensures
            *final(self) == (Material { pattern: Some(pattern), ..*old(self) }),
    {
        self.pattern = Some(pattern);
    }

    pub fn set_reflective(&mut self, val: Scalar)
        ensures
            *final(self) == (Material { reflective: val, ..*old(self) }),
    {
        self.reflective = val;
    }

    pub fn set_transparency(&mut self, val: Scalar)
        ensures
            *final(self) == (Material { transparency: val, ..*old(self) }),
    {
        self.transparency = val;
    }

    pub fn set_refractive_index(&mut self, val: Scalar)
        ensures
            *final(self) == (Material { refractive_index: val, ..*old(self) }),
    {
        self.refractive_index = val;
    }

    /// Phong shading at a point; fails only when the material's pattern
    /// cannot be sampled because a transform is not invertible.
    pub fn lighting(
        &self,
        object: &Shape,
        light: &Light,
        point: Tuple,
        eyev: Tuple,
        normalv: Tuple,
        in_shadow: bool,
    ) -> (r: Result<Pixel, TraceError>)
        ensures
            lighting_ok(*self, *object) ==> r == Ok::<Pixel, TraceError>(
                lighting_spec(*self, *object, *light, point, eyev, normalv, in_shadow),
            ),
            !lighting_ok(*self, *object) ==> r == Err::<Pixel, TraceError>(
                TraceError::NotInvertible,
            ),
    {
        let color = match &self.pattern {
            Some(p) => {
                match p.at_object(object, point) {
                    Ok(c) => c,
                    Err(e) => {
                        return Err(e);
                    },
                }
            },
            None => self.color,
        };

        let effective = color.mul(light.intensity());
        let lightv = light.position().sub(point).normalize();
        let ambient = effective.scale(self.ambient);

        let ldn = lightv.dot(&normalv);
        let (diffuse, specular) = if ldn.raw < 0 {
            (Pixel::black(), Pixel::black())
        } else {
            let diffuse = effective.scale(self.diffuse).scale(ldn);

            let reflectv = lightv.neg().reflect(normalv);
            let rde = reflectv.dot(&eyev);

            let specular = if rde.raw <= 0 {
                Pixel::black()
            } else {
                let factor = rde.powi(self.shininess);
                light.intensity().scale(self.specular).scale(factor)
            };

            (diffuse, specular)
        };

        Ok(
            ambient.add(
                if in_shadow {
                    Pixel::black()
                } else {
                    diffuse.add(specular)
                },
            ),
        )
    }
}

} // verus!
