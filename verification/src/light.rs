//! Light sources; currently a single point light variant.

use vstd::prelude::*;

use crate::canvas::Pixel;
use crate::tuple::Tuple;

verus! {

#[derive(Clone, Copy, PartialEq, Eq, Structural, Debug)]
pub struct PointLight {
    pub intensity: Pixel,
    pub position: Tuple,
}

#[derive(Clone, Copy, PartialEq, Eq, Structural, Debug)]
pub enum Light {
    Point(PointLight),
}

pub open spec fn light_position(l: Light) -> Tuple {
    match l {
        Light::Point(item) => item.position,
    }
}

pub open spec fn light_intensity(l: Light) -> Pixel {
    match l {
        Light::Point(item) => item.intensity,
    }
}

impl Light {
    pub fn point(position: Tuple, intensity: Pixel) -> (r: Light)
        ensures
            r == Light::Point(PointLight { intensity, position }),
    {
        Light::Point(PointLight { intensity, position })
    }

    pub fn position(&self) -> (r: Tuple)
        ensures
            r == light_position(*self),
    {
        match self {
            Light::Point(item) => item.position,
        }
    }

    pub fn intensity(&self) -> (r: Pixel)
        ensures
            r == light_intensity(*self),
    {
        match self {
            Light::Point(item) => item.intensity,
        }
    }
}

} // verus!
