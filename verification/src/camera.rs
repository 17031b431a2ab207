//! The camera's settings, and the path of a ray through a scene.

use crate::hittable::Hittable;
use crate::interval::Interval;
use crate::material::Scatter;
use crate::ray::Ray;
use crate::scalar::Scalar;
use crate::vec3::{Color, Point3, Vec3};
use vstd::prelude::*;

verus! {

/// The pattern of 0.001, the least distance at which a hit counts. A ray that
/// leaves a surface would else strike it again at once, by rounding.
pub const SHADOW_ACNE_BITS: u64 = 0x3f50_624d_d2f1_a9fc;

/// Where the light of a path comes from.
#[derive(Clone, Copy, Debug)]
pub enum Source {
    /// From nowhere: the path was absorbed, or ran out of bounces.
    Dark,
    /// From the sky, seen in the direction in which the last ray left.
    Sky(Vec3),
}

/// The light that a ray gathers, as a product that is not yet multiplied
/// out: the light of `source`, times the attenuation of each of `bounces` in
/// turn. A bounce is the attenuation that a material answered with and the
/// ray that it scattered. The bounces stand in the order in which their
/// attenuations are multiplied on: the last bounce of the path first, the
/// bounce of the camera's own ray last.
#[derive(Debug)]
pub struct Radiance {
    pub bounces: Vec<(Color, Ray)>,
    pub source: Source,
}

/// The range of distances at which a ray sees a surface: above 0.001.
pub open spec fn visible() -> Interval {
    Interval { min: Scalar { bits: SHADOW_ACNE_BITS }, max: Scalar::infinity() }
}

/// Whether a ray that may bounce `depth` times can gather `source` through
/// `bounces`.
///
/// With no bounce left there is no light. A ray that strikes nothing sees the
/// sky. A ray that strikes a surface is handed to the material there: where
/// that absorbs it there is no light, and where it scatters, the scattered
/// ray gathers light with one bounce less, of which the material keeps its
/// attenuation.
pub open spec fn traces<W: Hittable>(
    world: W,
    r: Ray,
    depth: nat,
    bounces: Seq<(Color, Ray)>,
    source: Source,
) -> bool where W::Material: Scatter
    decreases depth,
{
    if depth == 0 {
        bounces.len() == 0 && source == Source::Dark
    } else {
        match world.hit_spec(r, visible()) {
            None => bounces.len() == 0 && source == Source::Sky(r.dir),
            Some(rec) => if bounces.len() == 0 {
                source == Source::Dark && rec.mat.may_scatter(r, rec, None)
            } else {
                rec.mat.may_scatter(r, rec, Some(bounces.last())) && traces(
                    world,
                    bounces.last().1,
                    (depth - 1) as nat,
                    bounces.drop_last(),
                    source,
                )
            },
        }
    }
}

/// What the camera needs that takes arithmetic to derive from its settings.
#[derive(Clone, Copy, Debug)]
pub struct Projection {
    /// The image width divided by the aspect ratio, cut to a whole number.
    pub rows: u32,
    /// The center of the pixel in the upper left corner.
    pub pixel00_loc: Point3,
    /// From one pixel to the next in its row.
    pub pixel_delta_u: Vec3,
    /// From one pixel to the next in its column.
    pub pixel_delta_v: Vec3,
    /// 1 divided by the number of samples for a pixel.
    pub pixel_samples_scale: Scalar,
    /// The horizontal radius of the defocus disk.
    pub defocus_disk_u: Vec3,
    /// The vertical radius of the defocus disk.
    pub defocus_disk_v: Vec3,
}

/// The settings of a camera and the projection derived from them.
#[derive(Clone, Copy, Debug)]
pub struct Camera {
    aspect_ratio: Scalar,
    image_width: u32,
    samples_per_pixel: u32,
    image_height: u32,
    center: Point3,
    pixel00_loc: Point3,
    pixel_delta_u: Vec3,
    pixel_delta_v: Vec3,
    pixel_samples_scale: Scalar,
    max_depth: u32,
    vfov: Scalar,
    lookfrom: Point3,
    lookat: Point3,
    vup: Vec3,
    defocus_angle: Scalar,
    focus_dist: Scalar,
    defocus_disk_u: Vec3,
    defocus_disk_v: Vec3,
}

impl Camera {
    /// The height of an image whose width divided by its aspect ratio is
    /// `rows`: an image has at least one row.
    pub open spec fn spec_height_for(rows: u32) -> u32 {
        if rows < 1 {
            1
        } else {
            rows
        }
    }

    pub closed spec fn spec_image_width(&self) -> u32 {
        self.image_width
    }

    pub closed spec fn spec_image_height(&self) -> u32 {
        self.image_height
    }

    pub closed spec fn spec_samples_per_pixel(&self) -> u32 {
        self.samples_per_pixel
    }

    pub closed spec fn spec_max_depth(&self) -> u32 {
        self.max_depth
    }

    pub closed spec fn spec_center(&self) -> Point3 {
        self.center
    }

    pub closed spec fn spec_defocus_angle(&self) -> Scalar {
        self.defocus_angle
    }

    pub closed spec fn spec_aspect_ratio(&self) -> Scalar {
        self.aspect_ratio
    }

    pub closed spec fn spec_vfov(&self) -> Scalar {
        self.vfov
    }

    pub closed spec fn spec_lookfrom(&self) -> Point3 {
        self.lookfrom
    }

    pub closed spec fn spec_lookat(&self) -> Point3 {
        self.lookat
    }

    pub closed spec fn spec_vup(&self) -> Vec3 {
        self.vup
    }

    pub closed spec fn spec_focus_dist(&self) -> Scalar {
        self.focus_dist
    }

    /// The derived values that the camera holds.
    pub closed spec fn spec_projection(&self) -> Projection {
        Projection {
            rows: self.image_height,
            pixel00_loc: self.pixel00_loc,
            pixel_delta_u: self.pixel_delta_u,
            pixel_delta_v: self.pixel_delta_v,
            pixel_samples_scale: self.pixel_samples_scale,
            defocus_disk_u: self.defocus_disk_u,
            defocus_disk_v: self.defocus_disk_v,
        }
    }

    /// Whether rays start on the defocus disk and not at the center: they do
    /// unless the defocus angle is zero or below.
    pub open spec fn spec_is_defocused(&self) -> bool {
        !self.spec_defocus_angle().le(Scalar::zero())
    }

    #[verifier::type_invariant]
    spec fn has_a_row(&self) -> bool {
        self.image_height >= 1
    }

    #[verifier::when_used_as_spec(spec_height_for)]
    pub fn height_for(rows: u32) -> (h: u32)
        ensures
            h == Camera::spec_height_for(rows),
    {
        if rows < 1 {
            1
        } else {
            rows
        }
    }

    /// A camera at `lookfrom`. `projection` holds what the caller derived
    /// from the other arguments; its `rows` are raised to 1 where they are 0.
    pub fn new(
        aspect_ratio: Scalar,
        image_width: u32,
        samples_per_pixel: u32,
        max_depth: u32,
        vfov: Scalar,
        lookfrom: Point3,
        lookat: Point3,
        vup: Vec3,
        defocus_angle: Scalar,
        focus_dist: Scalar,
        projection: Projection,
    ) -> (cam: Camera)
        ensures
            cam.spec_image_width() == image_width,
            cam.spec_image_height() == Camera::spec_height_for(projection.rows),
            cam.spec_samples_per_pixel() == samples_per_pixel,
            cam.spec_max_depth() == max_depth,
            cam.spec_center() == lookfrom,
            cam.spec_defocus_angle() == defocus_angle,
            cam.spec_aspect_ratio() == aspect_ratio,
            cam.spec_vfov() == vfov,
            cam.spec_lookfrom() == lookfrom,
            cam.spec_lookat() == lookat,
            cam.spec_vup() == vup,
            cam.spec_focus_dist() == focus_dist,
            cam.spec_projection() == (Projection {
                rows: Camera::spec_height_for(projection.rows),
                ..projection
            }),
    {
        Camera {
            aspect_ratio,
            image_width,
            image_height: Camera::height_for(projection.rows),
            samples_per_pixel,
            center: lookfrom,
            pixel_delta_u: projection.pixel_delta_u,
            pixel_delta_v: projection.pixel_delta_v,
            pixel00_loc: projection.pixel00_loc,
            pixel_samples_scale: projection.pixel_samples_scale,
            max_depth,
            vfov,
            lookfrom,
            lookat,
            vup,
            defocus_angle,
            focus_dist,
            defocus_disk_u: projection.defocus_disk_u,
            defocus_disk_v: projection.defocus_disk_v,
        }
    }

    #[verifier::when_used_as_spec(spec_image_width)]
    pub fn image_width(&self) -> (w: u32)
        ensures
            w == self.spec_image_width(),
    {
        self.image_width
    }

    /// The number of rows, which is at least 1.
    pub fn image_height(&self) -> (h: u32)
        ensures
            h == self.spec_image_height(),
            h >= 1,
    {
        proof {
            use_type_invariant(self);
        }
        self.image_height
    }

    #[verifier::when_used_as_spec(spec_samples_per_pixel)]
    pub fn samples_per_pixel(&self) -> (n: u32)
        ensures
            n == self.spec_samples_per_pixel(),
    {
        self.samples_per_pixel
    }

    #[verifier::when_used_as_spec(spec_max_depth)]
    pub fn max_depth(&self) -> (n: u32)
        ensures
            n == self.spec_max_depth(),
    {
        self.max_depth
    }

    #[verifier::when_used_as_spec(spec_center)]
    pub fn center(&self) -> (p: Point3)
        ensures
            p == self.spec_center(),
    {
        self.center
    }

    #[verifier::when_used_as_spec(spec_defocus_angle)]
    pub fn defocus_angle(&self) -> (s: Scalar)
        ensures
            s == self.spec_defocus_angle(),
    {
        self.defocus_angle
    }

    #[verifier::when_used_as_spec(spec_aspect_ratio)]
    pub fn aspect_ratio(&self) -> (s: Scalar)
        ensures
            s == self.spec_aspect_ratio(),
    {
        self.aspect_ratio
    }

    #[verifier::when_used_as_spec(spec_vfov)]
    pub fn vfov(&self) -> (s: Scalar)
        ensures
            s == self.spec_vfov(),
    {
        self.vfov
    }

    #[verifier::when_used_as_spec(spec_lookfrom)]
    pub fn lookfrom(&self) -> (p: Point3)
        ensures
            p == self.spec_lookfrom(),
    {
        self.lookfrom
    }

    #[verifier::when_used_as_spec(spec_lookat)]
    pub fn lookat(&self) -> (p: Point3)
        ensures
            p == self.spec_lookat(),
    {
        self.lookat
    }

    #[verifier::when_used_as_spec(spec_vup)]
    pub fn vup(&self) -> (v: Vec3)
        ensures
            v == self.spec_vup(),
    {
        self.vup
    }

    #[verifier::when_used_as_spec(spec_focus_dist)]
    pub fn focus_dist(&self) -> (s: Scalar)
        ensures
            s == self.spec_focus_dist(),
    {
        self.focus_dist
    }

    /// The derived values. Their `rows` are the height of the image.
    #[verifier::when_used_as_spec(spec_projection)]
    pub fn projection(&self) -> (p: Projection)
        ensures
            p == self.spec_projection(),
    {
        Projection {
            rows: self.image_height,
            pixel00_loc: self.pixel00_loc,
            pixel_delta_u: self.pixel_delta_u,
            pixel_delta_v: self.pixel_delta_v,
            pixel_samples_scale: self.pixel_samples_scale,
            defocus_disk_u: self.defocus_disk_u,
            defocus_disk_v: self.defocus_disk_v,
        }
    }

    /// Decides where the rays of the camera start: on the defocus disk, or
    /// all at the center.
    #[verifier::when_used_as_spec(spec_is_defocused)]
    pub fn is_defocused(&self) -> (b: bool)
        ensures
            b == self.spec_is_defocused(),
    {
        !self.defocus_angle.le(Scalar::zero())
    }

    /// Follows a ray through the scene for at most `depth` bounces and
    /// reports the light that it gathers.
    pub fn ray_color<W: Hittable>(r: &Ray, depth: u32, world: &W) -> (res: Radiance) where
        W::Material: Scatter,

        ensures
            traces(*world, *r, depth as nat, res.bounces@, res.source),
            depth == 0 ==> res.bounces@.len() == 0 && res.source == Source::Dark,
            res.bounces@.len() <= depth,
        decreases depth,
    {
        if depth == 0 {
            return Radiance { bounces: Vec::new(), source: Source::Dark };
        }
        let seen = Interval::from_values(Scalar::from_bits(SHADOW_ACNE_BITS), Scalar::infinity());
        match world.hit(r, seen) {
            Some(rec) => {
                match rec.mat.scatter(r, &rec) {
                    Some((attenuation, scattered)) => {
                        let mut res = Camera::ray_color(&scattered, depth - 1, world);
                        let ghost inner = res.bounces@;
                        res.bounces.push((attenuation, scattered));
                        proof {
                            assert(res.bounces@.drop_last() == inner);
                        }
                        res
                    },
                    None => Radiance { bounces: Vec::new(), source: Source::Dark },
                }
            },
            None => Radiance { bounces: Vec::new(), source: Source::Sky(r.direction()) },
        }
    }
}

/// A path has at most as many bounces as it was allowed, and one that used
/// them all gathers no light. With none allowed there is no bounce and no
/// light, whatever the scene and the ray.
pub proof fn lemma_path_is_bounded<W: Hittable>(
    world: W,
    r: Ray,
    depth: nat,
    bounces: Seq<(Color, Ray)>,
    source: Source,
) where W::Material: Scatter
    requires
        traces(world, r, depth, bounces, source),
    ensures
        bounces.len() <= depth,
        bounces.len() == depth ==> source == Source::Dark,
        depth == 0 ==> bounces.len() == 0 && source == Source::Dark,
    decreases depth,
{
    if depth > 0 && bounces.len() > 0 {
        lemma_path_is_bounded(
            world,
            bounces.last().1,
            (depth - 1) as nat,
            bounces.drop_last(),
            source,
        );
    }
}

/// A ray that may bounce once and strikes a surface gathers no light,
/// whatever the material answers: it is absorbed, or its one bounce is used
/// up. No sky enters.
pub proof fn lemma_one_bounce_is_dark<W: Hittable>(
    world: W,
    r: Ray,
    bounces: Seq<(Color, Ray)>,
    source: Source,
) where W::Material: Scatter
    requires
        traces(world, r, 1, bounces, source),
        world.hit_spec(r, visible()) is Some,
    ensures
        source == Source::Dark,
        bounces.len() <= 1,
{
    if bounces.len() > 0 {
        lemma_path_is_bounded(world, bounces.last().1, 0, bounces.drop_last(), source);
    }
}

/// A ray that strikes nothing sees the sky in its own direction, if it may
/// bounce at all.
pub proof fn lemma_miss_sees_sky<W: Hittable>(
    world: W,
    r: Ray,
    depth: nat,
    bounces: Seq<(Color, Ray)>,
    source: Source,
) where W::Material: Scatter
    requires
        depth > 0,
        world.hit_spec(r, visible()) is None,
    ensures
        traces(world, r, depth, bounces, source) <==> bounces.len() == 0 && source == Source::Sky(
            r.dir,
        ),
{
}

} // verus!
