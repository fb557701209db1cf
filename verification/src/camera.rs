//! The pinhole camera: pixel-to-ray projection and the render loop.

use vstd::prelude::*;
use crate::fixed::{
    fadd, fsub, fmul, fdiv, fdiv_int, ftan, sat64, SCALE, add_f, sub_f, mul_f, div_f, div_int_f,
    tan_f, scale_int,
};
use crate::raytuple::{RayTuple, tsub, tnormalize};
use crate::matrix::{Matrix, midentity, minverse, mmul_t, mdet};
use crate::ray::Ray;
use crate::canvas::{Canvas, canvas_wf};
use crate::color::Color;
use crate::world::{World, world_wf, color_at_spec};
use crate::shape::Shape;

verus! {

/// The recursion budget given to every primary ray.
pub const RECURSION_DEPTH: i32 = 5;

/// A pinhole camera: raster extents, field of view, a world-to-camera
/// transform, and the derived pixel geometry.
#[derive(Clone, Copy, Debug)]
pub struct Camera {
    pub hsize: i32,
    pub vsize: i32,
    pub field_of_view: i64,
    pub transform: Matrix,
    pub pixel_size: i64,
    pub half_width: i64,
    pub half_height: i64,
}

/// Half the extent of the view plane one unit in front of the camera.
pub open spec fn half_view_of(fov: int) -> int {
    ftan(fdiv_int(fov, 2))
}

/// The aspect ratio of the raster.
pub open spec fn aspect_of(hsize: int, vsize: int) -> int {
    fdiv(sat64(hsize * (SCALE as int)), sat64(vsize * (SCALE as int)))
}

/// The half-width of the view plane.
pub open spec fn half_width_of(hsize: int, vsize: int, fov: int) -> int {
    if aspect_of(hsize, vsize) >= SCALE as int {
        half_view_of(fov)
    } else {
        fmul(half_view_of(fov), aspect_of(hsize, vsize))
    }
}

/// The half-height of the view plane.
pub open spec fn half_height_of(hsize: int, vsize: int, fov: int) -> int {
    if aspect_of(hsize, vsize) >= SCALE as int {
        fdiv(half_view_of(fov), aspect_of(hsize, vsize))
    } else {
        half_view_of(fov)
    }
}

/// The world-space side length of one pixel.
pub open spec fn pixel_size_of(hsize: int, vsize: int, fov: int) -> int {
    fdiv_int(fmul(half_width_of(hsize, vsize, fov), 2 * SCALE as int), hsize)
}

/// The world-space ray through the center of pixel `(px, py)`.
pub open spec fn ray_for_pixel_spec(c: Camera, px: int, py: int) -> Ray {
    let xoffset = fmul(fadd(sat64(px * (SCALE as int)), 50_000_000), c.pixel_size as int);
    let yoffset = fmul(fadd(sat64(py * (SCALE as int)), 50_000_000), c.pixel_size as int);
    let world_x = fsub(c.half_width as int, xoffset);
    let world_y = fsub(c.half_height as int, yoffset);
    let inv = minverse(c.transform);
    let pixel = mmul_t(
        inv,
        RayTuple { x: world_x as i64, y: world_y as i64, z: -100_000_000i64, w: SCALE },
    );
    let origin = mmul_t(inv, RayTuple { x: 0i64, y: 0i64, z: 0i64, w: SCALE });
    Ray { origin, direction: tnormalize(tsub(pixel, origin)) }
}

/// The color the camera records at pixel `(px, py)` of a scene.
pub open spec fn pixel_color_spec(c: Camera, w: World, px: int, py: int) -> Color {
    color_at_spec(w, ray_for_pixel_spec(c, px, py), RECURSION_DEPTH as int)
}

proof fn lemma_pixel_index_bounds(w: int, h: int, x: int, y: int)
    requires
        0 <= x < w,
        0 <= y < h,
    ensures
        0 <= y * w + x < w * h,
{
    assert(0 <= y * w + x < w * h) by (nonlinear_arith)
        requires
            0 <= x < w,
            0 <= y < h,
    ;
}

proof fn lemma_pixel_index_distinct(w: int, x1: int, y1: int, x2: int, y2: int)
    requires
        0 <= x1 < w,
        0 <= x2 < w,
        0 <= y1,
        0 <= y2,
        x1 != x2 || y1 != y2,
    ensures
        y1 * w + x1 != y2 * w + x2,
{
    assert(y1 * w + x1 != y2 * w + x2) by (nonlinear_arith)
        requires
            0 <= x1 < w,
            0 <= x2 < w,
            0 <= y1,
            0 <= y2,
            x1 != x2 || y1 != y2,
    ;
}

impl Camera {
    /// Builds a camera from the raster extents and the field of view (in
    /// radians); the transform starts as the identity.
    pub fn new(hsize: i32, vsize: i32, field_of_view: i64) -> (c: Self)
        requires
            hsize >= 1,
            vsize >= 1,
        ensures
            c.hsize == hsize,
            c.vsize == vsize,
            c.field_of_view == field_of_view,
            c.transform == midentity(),
            c.half_width as int == half_width_of(hsize as int, vsize as int, field_of_view as int),
            c.half_height as int == half_height_of(hsize as int, vsize as int,
                field_of_view as int),
            c.pixel_size as int == pixel_size_of(hsize as int, vsize as int, field_of_view as int),
    {
        let half_view = tan_f(div_int_f(field_of_view, 2));
        let hs_f = scale_int(hsize as i64, SCALE);
        let vs_f = scale_int(vsize as i64, SCALE);
        proof {
            assert(vs_f > 0);
        }
        let aspect = div_f(hs_f, vs_f);
        let half_width = if aspect >= SCALE {
            half_view
        } else {
            mul_f(half_view, aspect)
        };
        let half_height = if aspect >= SCALE {
            div_f(half_view, aspect)
        } else {
            half_view
        };
        let pixel_size = div_int_f(mul_f(half_width, 2 * SCALE), hsize as i64);
        Self {
            hsize,
            vsize,
            field_of_view,
            transform: Matrix::identity(),
            pixel_size,
            half_width,
            half_height,
        }
    }

    /// The world-space ray through the center of pixel `(px, py)`; the
    /// camera's transform must be invertible.
    pub fn ray_for_pixel(&self, px: i32, py: i32) -> (r: Ray)
        requires
            mdet(self.transform) != 0,
        ensures
            r == ray_for_pixel_spec(*self, px as int, py as int),
    {
        let xoffset = mul_f(add_f(scale_int(px as i64, SCALE), 50_000_000), self.pixel_size);
        let yoffset = mul_f(add_f(scale_int(py as i64, SCALE), 50_000_000), self.pixel_size);
        let world_x = sub_f(self.half_width, xoffset);
        let world_y = sub_f(self.half_height, yoffset);
        let inv = self.transform.inverse().unwrap();
        let pixel = inv.mul_tuple(RayTuple::point(world_x, world_y, -100_000_000));
        let origin = inv.mul_tuple(RayTuple::point(0, 0, 0));
        let direction = pixel.sub(origin).normalize();
        Ray::new(origin, direction)
    }

    /// Renders a scene: every pixel holds the color of its primary ray,
    /// traced with the standard recursion budget.
    pub fn render(self, w: World) -> (image: Canvas)
        requires
            world_wf(w),
            mdet(self.transform) != 0,
            0 <= self.hsize,
            0 <= self.vsize,
            self.hsize * self.vsize <= i32::MAX as int,
        ensures
            canvas_wf(image),
            image.width == self.hsize,
            image.height == self.vsize,
            forall|x: int, y: int|
                0 <= x < self.hsize && 0 <= y < self.vsize ==> image.pixels@[y * self.hsize + x]
                    == pixel_color_spec(self, w, x, y),
    {
        let mut image = Canvas::new(self.hsize, self.vsize);
        let camera_vsize = self.vsize;
        let camera_hsize = self.hsize;
        let mut y: i32 = 0;
        while y < camera_vsize
            invariant
                0 <= y <= camera_vsize,
                camera_hsize == self.hsize,
                camera_vsize == self.vsize,
                world_wf(w),
                mdet(self.transform) != 0,
                self.hsize * self.vsize <= i32::MAX as int,
                canvas_wf(image),
                image.width == self.hsize,
                image.height == self.vsize,
                forall|xx: int, yy: int|
                    0 <= xx < self.hsize && 0 <= yy < y ==> image.pixels@[yy * self.hsize + xx]
                        == pixel_color_spec(self, w, xx, yy),
            decreases camera_vsize - y,
        {
            let mut x: i32 = 0;
            while x < camera_hsize
                invariant
                    0 <= y < camera_vsize,
                    0 <= x <= camera_hsize,
                    camera_hsize == self.hsize,
                    camera_vsize == self.vsize,
                    world_wf(w),
                    mdet(self.transform) != 0,
                    self.hsize * self.vsize <= i32::MAX as int,
                    canvas_wf(image),
                    image.width == self.hsize,
                    image.height == self.vsize,
                    forall|xx: int, yy: int|
                        0 <= xx < self.hsize && 0 <= yy < y ==> image.pixels@[yy * self.hsize + xx]
                            == pixel_color_spec(self, w, xx, yy),
                    forall|xx: int|
                        0 <= xx < x ==> image.pixels@[y * self.hsize + xx] == pixel_color_spec(
                            self,
                            w,
                            xx,
                            y as int,
                        ),
                decreases camera_hsize - x,
            {
                let ray = self.ray_for_pixel(x, y);
                let color = w.color_at(ray, RECURSION_DEPTH);
                image.write_pixel(x, y, color);
                proof {
                    lemma_pixel_index_bounds(
                        self.hsize as int,
                        self.vsize as int,
                        x as int,
                        y as int,
                    );
                    assert forall|xx: int, yy: int|
                        0 <= xx < self.hsize && 0 <= yy < y implies image.pixels@[yy * self.hsize
                        + xx] == pixel_color_spec(self, w, xx, yy) by {
                        lemma_pixel_index_bounds(self.hsize as int, self.vsize as int, xx, yy);
                        lemma_pixel_index_distinct(
                            self.hsize as int,
                            xx,
                            yy,
                            x as int,
                            y as int,
                        );
                    }
                    assert forall|xx: int|
                        0 <= xx < x + 1 implies image.pixels@[y * self.hsize + xx]
                        == pixel_color_spec(self, w, xx, y as int) by {
                        lemma_pixel_index_bounds(
                            self.hsize as int,
                            self.vsize as int,
                            xx,
                            y as int,
                        );
                        if xx < x {
                            lemma_pixel_index_distinct(
                                self.hsize as int,
                                xx,
                                y as int,
                                x as int,
                                y as int,
                            );
                        }
                    }
                }
                x = x + 1;
            }
            y = y + 1;
        }
        image
    }
}

/// Renders the three-sphere room scene: flattened spheres for the floor and
/// walls, and three shaded spheres, seen through an 800x600 camera. An empty
/// canvas is returned if the scene or camera were ever malformed.
pub fn chapter_seven_scene() -> (c: Canvas)
    ensures
        canvas_wf(c),
        (c.width == 800 && c.height == 600) || (c.width == 0 && c.height == 0),
{
    let mut floor = Shape::sphere();
    floor.transform = Matrix::scaling(10 * SCALE, 1_000_000, 10 * SCALE);
    floor.material.color = crate::color::Color::new(SCALE, 90_000_000, 90_000_000);
    floor.material.specular = 0;

    let mut left_wall = Shape::sphere();
    left_wall.transform = Matrix::translation(0, 0, 5 * SCALE).multiply(
        &Matrix::rotation_y(-78_539_816),
    ).multiply(&Matrix::rotation_x(157_079_633)).multiply(
        &Matrix::scaling(10 * SCALE, 1_000_000, 10 * SCALE),
    );
    left_wall.material = floor.material;

    let mut right_wall = Shape::sphere();
    right_wall.transform = Matrix::translation(0, 0, 5 * SCALE).multiply(
        &Matrix::rotation_y(78_539_816),
    ).multiply(&Matrix::rotation_x(157_079_633)).multiply(
        &Matrix::scaling(10 * SCALE, 1_000_000, 10 * SCALE),
    );
    right_wall.material = floor.material;

    let mut middle = Shape::sphere();
    middle.transform = Matrix::translation(-50_000_000, SCALE, 50_000_000);
    middle.material.color = crate::color::Color::new(10_000_000, SCALE, 50_000_000);
    middle.material.diffuse = 70_000_000;
    middle.material.specular = 30_000_000;

    let mut right = Shape::sphere();
    right.transform = Matrix::translation(150_000_000, 50_000_000, -50_000_000).multiply(
        &Matrix::scaling(50_000_000, 50_000_000, 50_000_000),
    );
    right.material.color = crate::color::Color::new(50_000_000, SCALE, 10_000_000);
    right.material.diffuse = 70_000_000;
    right.material.specular = 30_000_000;

    let mut left = Shape::sphere();
    left.transform = Matrix::translation(-150_000_000, 33_000_000, -75_000_000).multiply(
        &Matrix::scaling(33_000_000, 33_000_000, 33_000_000),
    );
    left.material.color = crate::color::Color::new(SCALE, 80_000_000, 10_000_000);
    left.material.diffuse = 70_000_000;
    left.material.specular = 30_000_000;

    let mut w = World::new();
    w.objects.push(floor);
    w.objects.push(left_wall);
    w.objects.push(right_wall);
    w.objects.push(middle);
    w.objects.push(left);
    w.objects.push(right);

    let mut cam = Camera::new(800, 600, 104_719_755);
    cam.transform = Matrix::view_transform(
        RayTuple::point(0, 150_000_000, -5 * SCALE),
        RayTuple::point(0, SCALE, 0),
        RayTuple::vector(0, SCALE, 0),
    );

    if !w.is_well_formed() {
        return Canvas::new(0, 0);
    }
    if !cam.transform.invertible() {
        return Canvas::new(0, 0);
    }
    cam.render(w)
}

} // verus!
