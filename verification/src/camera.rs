//! The camera: pixel-to-ray mapping through an invertible view transform,
//! and the render loop that fills a canvas.

use vstd::prelude::*;

use crate::canvas::Canvas;
use crate::error::TraceError;
use crate::matrix4x4::{inv4, m4_identity, m4_invertible, mat4_mul_tuple, Matrix4x4};
use crate::ray::Ray;
use crate::scalar::{fp_div, fp_mul, fp_sub, Scalar, SCALE};
use crate::shape::origin_point;
use crate::tuple::{tup_normalize, tup_sub, Tuple};
use crate::world::{all_invertible, color_at_spec, world_renderable, World};

verus! {

/// The recursion budget every primary ray starts with.
pub const MAX_RECURSION_DEPTH: i32 = 5;

/// Half of one scalar unit, the sub-pixel centering offset.
pub const HALF_UNIT: i64 = 500_000;

pub struct Camera {
    pub hsize: i32,
    pub vsize: i32,
    pub field_of_view: Scalar,
    pub transform: Matrix4x4,
    pub pixel_size: Scalar,
    pub half_width: Scalar,
    pub half_height: Scalar,
}

/// The derived viewport numbers: half the view width and height, split by
/// the aspect ratio, and the world-space size of one pixel.
/// `half_view` is the tangent of half the field of view, computed by the
/// caller since the scalars are fixed-point.
pub open spec fn camera_half_width(hsize: int, vsize: int, half_view: int) -> int {
    let aspect = fp_div(hsize * (SCALE as int), vsize * (SCALE as int));
    if aspect >= SCALE {
        half_view
    } else {
        fp_mul(half_view, aspect)
    }
}

pub open spec fn camera_half_height(hsize: int, vsize: int, half_view: int) -> int {
    let aspect = fp_div(hsize * (SCALE as int), vsize * (SCALE as int));
    if aspect >= SCALE {
        fp_div(half_view, aspect)
    } else {
        half_view
    }
}

pub open spec fn camera_pixel_size(hsize: int, vsize: int, half_view: int) -> int {
    fp_div(
        fp_mul(camera_half_width(hsize, vsize, half_view), 2 * SCALE),
        hsize * (SCALE as int),
    )
}

/// The primary ray through the center of pixel (px, py): offsets from the
/// viewport corner, carried through the inverse camera transform.
pub open spec fn ray_for_pixel_spec(cam: Camera, px: int, py: int) -> Ray {
    let xoffset = fp_mul(px * (SCALE as int) + HALF_UNIT, cam.pixel_size@);
    let yoffset = fp_mul(py * (SCALE as int) + HALF_UNIT, cam.pixel_size@);
    let world_x = fp_sub(cam.half_width@, xoffset);
    let world_y = fp_sub(cam.half_height@, yoffset);
    let inv = inv4(cam.transform);
    let pixel = mat4_mul_tuple(
        inv,
        Tuple {
            x: Scalar { raw: world_x as i64 },
            y: Scalar { raw: world_y as i64 },
            z: Scalar { raw: (-SCALE) as i64 },
            w: Scalar { raw: SCALE },
        },
    );
    let origin = mat4_mul_tuple(inv, origin_point());
    let direction = tup_normalize(tup_sub(pixel, origin));
    Ray { origin, direction }
}

impl Camera {
    /// The image dimensions are usable: at least one pixel each way, and a
    /// pixel count the canvas can address.
    pub open spec fn wf(&self) -> bool {
        1 <= self.hsize && 1 <= self.vsize && (self.hsize as int) * (self.vsize as int)
            <= u32::MAX
    }

    /// A camera with the identity view transform. `half_view` is the
    /// tangent of half the field of view, supplied by the caller.
    pub fn new(hsize: i32, vsize: i32, field_of_view: Scalar, half_view: Scalar) -> (r: Camera)
        requires
            1 <= hsize,
            1 <= vsize,
        ensures
            r.hsize == hsize,
            r.vsize == vsize,
            r.field_of_view == field_of_view,
            r.transform == m4_identity(),
            r.half_width@ == camera_half_width(hsize as int, vsize as int, half_view@),
            r.half_height@ == camera_half_height(hsize as int, vsize as int, half_view@),
            r.pixel_size@ == camera_pixel_size(hsize as int, vsize as int, half_view@),
    {
        let hs = Scalar { raw: (hsize as i64) * SCALE };
        let vs = Scalar { raw: (vsize as i64) * SCALE };
        let aspect = hs.div(vs);
        let (half_width, half_height) = if aspect.raw >= SCALE {
            (half_view, half_view.div(aspect))
        } else {
            (half_view.mul(aspect), half_view)
        };
        let two = Scalar { raw: 2 * SCALE };
        let pixel_size = half_width.mul(two).div(hs);
        Camera {
            hsize,
            vsize,
            field_of_view,
            transform: Matrix4x4::identity(),
            pixel_size,
            half_width,
            half_height,
        }
    }

    /// A camera with an explicit view transform.
    pub fn with_transform(
        hsize: i32,
        vsize: i32,
        field_of_view: Scalar,
        half_view: Scalar,
        transform: Matrix4x4,
    ) -> (r: Camera)
        requires
            1 <= hsize,
            1 <= vsize,
        ensures
            r.hsize == hsize,
            r.vsize == vsize,
            r.field_of_view == field_of_view,
            r.transform == transform,
            r.half_width@ == camera_half_width(hsize as int, vsize as int, half_view@),
            r.half_height@ == camera_half_height(hsize as int, vsize as int, half_view@),
            r.pixel_size@ == camera_pixel_size(hsize as int, vsize as int, half_view@),
    {
        let c = Camera::new(hsize, vsize, field_of_view, half_view);
        Camera { transform, ..c }
    }

    pub fn hsize(&self) -> (r: i32)
        ensures
            r == self.hsize,
    {
        self.hsize
    }

    pub fn vsize(&self) -> (r: i32)
        ensures
            r == self.vsize,
    {
        self.vsize
    }

    pub fn field_of_view(&self) -> (r: Scalar)
        ensures
            r == self.field_of_view,
    {
        self.field_of_view
    }

    pub fn transform(&self) -> (r: Matrix4x4)
        ensures
            r == self.transform,
    {
        self.transform
    }

    pub fn pixel_size(&self) -> (r: Scalar)
        ensures
            r == self.pixel_size,
    {
        self.pixel_size
    }

    /// The primary ray through the center of a pixel; fails when the view
    /// transform is not invertible.
    pub fn ray_for_pixel(&self, px: usize, py: usize) -> (r: Result<Ray, TraceError>)
        requires
            px < 0x80000000,
            py < 0x80000000,
        ensures
            m4_invertible(self.transform) ==> r == Ok::<Ray, TraceError>(
                ray_for_pixel_spec(*self, px as int, py as int),
            ),
            !m4_invertible(self.transform) ==> r == Err::<Ray, TraceError>(
                TraceError::NotInvertible,
            ),
    {
        let xoffset = Scalar { raw: (px as i64) * SCALE + HALF_UNIT }.mul(self.pixel_size);
        let yoffset = Scalar { raw: (py as i64) * SCALE + HALF_UNIT }.mul(self.pixel_size);

        let world_x = self.half_width.sub(xoffset);
        let world_y = self.half_height.sub(yoffset);

        let transform_inv = match self.transform.inverse() {
            Ok(m) => m,
            Err(e) => {
                return Err(e);
            },
        };

        let pixel = transform_inv.mul_tuple(
            &Tuple::point(world_x, world_y, Scalar { raw: -SCALE }),
        );
        let origin = transform_inv.mul_tuple(
            &Tuple::point(Scalar { raw: 0 }, Scalar { raw: 0 }, Scalar { raw: 0 }),
        );
        let direction = pixel.sub(origin).normalize();

        Ok(Ray::new(origin, direction))
    }

    /// Renders the world: every pixel holds the color of its primary ray,
    /// shaded with the full recursion budget. Fails when the camera's or
    /// any object's transform is not invertible.
    pub fn render(&self, world: World) -> (r: Result<Canvas, TraceError>)
        requires
            self.wf(),
        ensures
            m4_invertible(self.transform) && world.light is Some && world_renderable(
                world.objects@,
            ) ==> r is Ok && {
                let c = r->Ok_0;
                &&& c.wf()
                &&& c.spec_width() == self.hsize
                &&& c.spec_height() == self.vsize
                &&& forall|x: int, y: int|
                    0 <= x < self.hsize && 0 <= y < self.vsize ==> c.px_at(x, y) == color_at_spec(
                        world.objects@,
                        world.light->Some_0,
                        ray_for_pixel_spec(*self, x, y),
                        MAX_RECURSION_DEPTH as int,
                    )
            },
            !m4_invertible(self.transform) ==> r == Err::<Canvas, TraceError>(
                TraceError::NotInvertible,
            ),
            m4_invertible(self.transform) && !all_invertible(world.objects@) ==> r == Err::<
                Canvas,
                TraceError,
            >(TraceError::NotInvertible),
    {
        let mut image = Canvas::with_dimesnions(self.hsize as u32, self.vsize as u32);
        let mut x: i32 = 0;
        while x < self.hsize
            invariant
                0 <= x <= self.hsize,
                self.wf(),
                image.wf(),
                image.spec_width() == self.hsize,
                image.spec_height() == self.vsize,
                x > 0 ==> m4_invertible(self.transform) && all_invertible(world.objects@),
                m4_invertible(self.transform) && world.light is Some && world_renderable(
                    world.objects@,
                ) ==> forall|i: int, j: int|
                    0 <= i < x && 0 <= j < self.vsize ==> image.px_at(i, j) == color_at_spec(
                        world.objects@,
                        world.light->Some_0,
                        ray_for_pixel_spec(*self, i, j),
                        MAX_RECURSION_DEPTH as int,
                    ),
            decreases self.hsize - x,
        {
            let mut y: i32 = 0;
            while y < self.vsize
                invariant
                    0 <= x < self.hsize,
                    0 <= y <= self.vsize,
                    self.wf(),
                    image.wf(),
                    image.spec_width() == self.hsize,
                    image.spec_height() == self.vsize,
                    x > 0 || y > 0 ==> m4_invertible(self.transform) && all_invertible(
                        world.objects@,
                    ),
                    m4_invertible(self.transform) && world.light is Some && world_renderable(
                        world.objects@,
                    ) ==> forall|i: int, j: int|
                        (0 <= i < x && 0 <= j < self.vsize) || (i == x && 0 <= j < y)
                            ==> image.px_at(i, j) == color_at_spec(
                            world.objects@,
                            world.light->Some_0,
                            ray_for_pixel_spec(*self, i, j),
                            MAX_RECURSION_DEPTH as int,
                        ),
                decreases self.vsize - y,
            {
                let ray = match self.ray_for_pixel(x as usize, y as usize) {
                    Ok(r) => r,
                    Err(e) => {
                        return Err(e);
                    },
                };
                let color = match world.color_at(ray, MAX_RECURSION_DEPTH) {
                    Ok(c) => c,
                    Err(e) => {
                        return Err(e);
                    },
                };
                image.set(x as u32, y as u32, color);
                y = y + 1;
            }
            x = x + 1;
        }
        Ok(image)
    }
}

} // verus!
