//! The camera: per-pixel ray generation and image assembly.
use crate::canvas::Canvas;
use crate::fx::{
    fx_add, fx_add_s, fx_div, fx_div_s, fx_mul, fx_mul_s, fx_sub, fx_sub_s, fx_tan,
    int_to_fx, int_to_fx_s, tan_s, FX_HALF, FX_ONE, FX_TWO,
};
use crate::matrix::{det4_s, identity_s, inverse4_s, mat4_mul_tup_s, Matrix4};
use crate::ray::Ray;
use crate::tuple::{normalize_s, tup_sub_s, Tuple};
use crate::world::{color_at_s, world_invertible_s, World};
use vstd::prelude::*;

verus! {

/// A camera: pixel counts, a field of view, a camera-to-world transform and
/// the projection values derived from them once at construction.
#[derive(Debug, Clone, Copy, PartialEq, Eq, Structural)]
pub struct Camera {
    pub hsize: usize,
    pub vsize: usize,
    pub field_of_view: i64,
    pub transform: Matrix4,
    pub half_width: i64,
    pub half_height: i64,
    pub pixel_size: i64,
}

/// Half the width of the projection plane: the tangent of half the field of
/// view, scaled down by the aspect ratio when the image is taller than it
/// is wide.
pub open spec fn half_width_s(hsize: int, vsize: int, field_of_view: i64) -> i64 {
    let half_view = tan_s(fx_div_s(field_of_view, FX_TWO));
    let aspect = fx_div_s(int_to_fx_s(hsize), int_to_fx_s(vsize));
    if aspect >= FX_ONE {
        half_view
    } else {
        fx_mul_s(half_view, aspect)
    }
}

/// Half the height of the projection plane.
pub open spec fn half_height_s(hsize: int, vsize: int, field_of_view: i64) -> i64 {
    let half_view = tan_s(fx_div_s(field_of_view, FX_TWO));
    let aspect = fx_div_s(int_to_fx_s(hsize), int_to_fx_s(vsize));
    if aspect >= FX_ONE {
        fx_div_s(half_view, aspect)
    } else {
        half_view
    }
}

/// The world-space size of one square pixel.
pub open spec fn pixel_size_s(hsize: int, vsize: int, field_of_view: i64) -> i64 {
    fx_div_s(
        fx_mul_s(half_width_s(hsize, vsize, field_of_view), FX_TWO),
        int_to_fx_s(hsize),
    )
}

/// The ray through the center of pixel `(px, py)`: the pixel's point on the
/// projection plane and the camera origin, both carried into world space by
/// the inverse camera transform.
#[verifier::opaque]
pub open spec fn ray_for_pixel_s(c: Camera, px: int, py: int) -> Ray {
    let xoffset = fx_mul_s(fx_add_s(int_to_fx_s(px), FX_HALF), c.pixel_size);
    let yoffset = fx_mul_s(fx_add_s(int_to_fx_s(py), FX_HALF), c.pixel_size);
    let world_x = fx_sub_s(c.half_width, xoffset);
    let world_y = fx_sub_s(c.half_height, yoffset);
    let inv = inverse4_s(c.transform);
    let pixel = mat4_mul_tup_s(
        inv,
        Tuple { x: world_x, y: world_y, z: -4294967296i64, w: FX_ONE },
    );
    let origin = mat4_mul_tup_s(inv, Tuple { x: 0, y: 0, z: 0, w: FX_ONE });
    let direction = normalize_s(tup_sub_s(pixel, origin));
    Ray { origin, direction }
}

impl Camera {
    /// A camera with the identity transform and its projection values
    /// derived from the pixel counts and field of view.  The pixel counts
    /// are bounded so that every later index computation fits the machine.
    pub fn new(hsize: usize, vsize: usize, field_of_view: i64) -> (r: Camera)
        requires
            hsize <= 0xffff,
            vsize <= 0xffff,
        ensures
            r.hsize == hsize,
            r.vsize == vsize,
            r.field_of_view == field_of_view,
            r.transform == identity_s(),
            r.half_width == half_width_s(hsize as int, vsize as int, field_of_view),
            r.half_height == half_height_s(hsize as int, vsize as int, field_of_view),
            r.pixel_size == pixel_size_s(hsize as int, vsize as int, field_of_view),
    {
        let half_view = fx_tan(fx_div(field_of_view, FX_TWO));
        let aspect = fx_div(int_to_fx(hsize as i64), int_to_fx(vsize as i64));
        let (half_width, half_height) = if aspect >= FX_ONE {
            (half_view, fx_div(half_view, aspect))
        } else {
            (fx_mul(half_view, aspect), half_view)
        };
        let pixel_size = fx_div(fx_mul(half_width, FX_TWO), int_to_fx(hsize as i64));
        Camera {
            hsize,
            vsize,
            field_of_view,
            transform: Matrix4::identity(),
            half_width,
            half_height,
            pixel_size,
        }
    }

    /// The ray through the center of pixel `(px, py)`; the camera transform
    /// must be invertible.
    pub fn ray_for_pixel(&self, px: usize, py: usize) -> (r: Ray)
        requires
            det4_s(self.transform) != 0,
            px <= 0x7fffffff,
            py <= 0x7fffffff,
        ensures
            r == ray_for_pixel_s(*self, px as int, py as int),
    {
        proof {
            reveal(ray_for_pixel_s);
        }
        let xoffset = fx_mul(fx_add(int_to_fx(px as i64), FX_HALF), self.pixel_size);
        let yoffset = fx_mul(fx_add(int_to_fx(py as i64), FX_HALF), self.pixel_size);
        let world_x = fx_sub(self.half_width, xoffset);
        let world_y = fx_sub(self.half_height, yoffset);
        let inv = self.transform.inverse();
        let pixel = inv.mul_tuple(&Tuple::new_point(world_x, world_y, -4294967296i64));
        let origin = inv.mul_tuple(&Tuple::new_point(0, 0, 0));
        let direction = pixel.sub(&origin).normalize();
        Ray::new(origin, direction)
    }

    /// Render the scene: a canvas where every pixel holds the color seen
    /// along its ray.  The scene must have a light and invertible shapes,
    /// the camera transform must be invertible, and the pixel counts must
    /// be small enough to index.
    pub fn render(&self, world: &World) -> (image: Canvas)
        requires
            world.light is Some,
            world_invertible_s(world.objects@),
            det4_s(self.transform) != 0,
            self.hsize <= 0xffff,
            self.vsize <= 0xffff,
        ensures
            image.wf(),
            image.width_s() == self.hsize,
            image.height_s() == self.vsize,
            world.light matches Some(l) ==> forall|x: int, y: int|
                0 <= x < self.hsize && 0 <= y < self.vsize ==> image.pixel_s(x, y)
                    == color_at_s(world.objects@, l, ray_for_pixel_s(*self, x, y)),
    {
        proof {
            assert(self.hsize * self.vsize <= 0xffff * 0xffff) by (nonlinear_arith)
                requires
                    self.hsize <= 0xffff,
                    self.vsize <= 0xffff;
        }
        let mut image = Canvas::new(self.hsize, self.vsize);
        let ghost l = world.light->Some_0;
        let mut y: usize = 0;
        while y < self.vsize
            invariant
                y <= self.vsize,
                image.wf(),
                image.width_s() == self.hsize,
                image.height_s() == self.vsize,
                world.light is Some,
                l == world.light->Some_0,
                world_invertible_s(world.objects@),
                det4_s(self.transform) != 0,
                self.hsize <= 0xffff,
                self.vsize <= 0xffff,
                forall|i: int, j: int|
                    0 <= i < self.hsize && 0 <= j < y ==> image.pixel_s(i, j) == color_at_s(
                        world.objects@,
                        l,
                        ray_for_pixel_s(*self, i, j),
                    ),
            decreases self.vsize - y,
        {
            let mut x: usize = 0;
            while x < self.hsize
                invariant
                    x <= self.hsize,
                    y < self.vsize,
                    image.wf(),
                    image.width_s() == self.hsize,
                    image.height_s() == self.vsize,
                    world.light is Some,
                    l == world.light->Some_0,
                    world_invertible_s(world.objects@),
                    det4_s(self.transform) != 0,
                    self.hsize <= 0xffff,
                    self.vsize <= 0xffff,
                    forall|i: int, j: int|
                        0 <= i < self.hsize && 0 <= j < y ==> image.pixel_s(i, j) == color_at_s(
                            world.objects@,
                            l,
                            ray_for_pixel_s(*self, i, j),
                        ),
                    forall|i: int|
                        0 <= i < x ==> image.pixel_s(i, y as int) == color_at_s(
                            world.objects@,
                            l,
                            ray_for_pixel_s(*self, i, y as int),
                        ),
                decreases self.hsize - x,
            {
                let ray = self.ray_for_pixel(x, y);
                let color = world.color_at(ray);
                image.write_pixel(x, y, color);
                x = x + 1;
            }
            y = y + 1;
        }
        image
    }
}

} // verus!
