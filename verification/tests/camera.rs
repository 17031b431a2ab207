use raytracer::camera::{Camera, Projection, Radiance, Source, SHADOW_ACNE_BITS};
use raytracer::hittable::{HitRecord, Hittable};
use raytracer::hittable_list::HittableList;
use raytracer::interval::Interval;
use raytracer::material::{Lambertian, Metal, Scatter};
use raytracer::ray::Ray;
use raytracer::scalar::Scalar;
use raytracer::sphere::{Crossing, Sphere};
use raytracer::vec3::{Color, Vec3};

fn num(x: f64) -> Scalar {
    Scalar::from_bits(x.to_bits())
}

fn val(s: Scalar) -> f64 {
    f64::from_bits(s.to_bits())
}

fn vec3(v: [f64; 3]) -> Vec3 {
    Vec3::new(num(v[0]), num(v[1]), num(v[2]))
}

fn xyz(v: Vec3) -> [f64; 3] {
    [val(v.x()), val(v.y()), val(v.z())]
}

fn add(a: [f64; 3], b: [f64; 3]) -> [f64; 3] {
    [a[0] + b[0], a[1] + b[1], a[2] + b[2]]
}

fn sub(a: [f64; 3], b: [f64; 3]) -> [f64; 3] {
    [a[0] - b[0], a[1] - b[1], a[2] - b[2]]
}

fn scale(t: f64, a: [f64; 3]) -> [f64; 3] {
    [t * a[0], t * a[1], t * a[2]]
}

fn over(a: [f64; 3], t: f64) -> [f64; 3] {
    [a[0] / t, a[1] / t, a[2] / t]
}

fn times(a: [f64; 3], b: [f64; 3]) -> [f64; 3] {
    [a[0] * b[0], a[1] * b[1], a[2] * b[2]]
}

fn dot(a: [f64; 3], b: [f64; 3]) -> f64 {
    a[0] * b[0] + a[1] * b[1] + a[2] * b[2]
}

fn cross(a: [f64; 3], b: [f64; 3]) -> [f64; 3] {
    [a[1] * b[2] - a[2] * b[1], a[2] * b[0] - a[0] * b[2], a[0] * b[1] - a[1] * b[0]]
}

fn normalized(a: [f64; 3]) -> [f64; 3] {
    over(a, dot(a, a).sqrt())
}

/// The materials of the tests. In place of a random unit vector each takes
/// the same fixed one.
#[derive(Clone, Copy)]
enum Paint {
    Matte(Lambertian),
    Mirror(Metal),
    Soot,
}

const STEADY: [f64; 3] = [0.0, 0.6, 0.8];

impl Scatter for Paint {
    fn may_scatter(&self, _r_in: Ray, _rec: HitRecord<Paint>, _out: Option<(Color, Ray)>) -> bool {
        true
    }

    fn scatter(&self, r_in: &Ray, rec: &HitRecord<Paint>) -> Option<(Color, Ray)> {
        let normal = xyz(rec.normal);
        match self {
            Paint::Matte(m) => m.scatter(rec, vec3(add(normal, STEADY))),
            Paint::Mirror(m) => {
                let v = xyz(r_in.direction());
                let reflected = sub(v, scale(2.0 * dot(v, normal), normal));
                let fuzzed = add(normalized(reflected), scale(val(m.fuzz()), STEADY));
                m.scatter(rec, vec3(fuzzed), num(dot(fuzzed, normal)))
            }
            Paint::Soot => None,
        }
    }
}

/// A sphere with the arithmetic of the quadratic around it.
struct Ball {
    shape: Sphere<Paint>,
}

impl Ball {
    fn new(center: [f64; 3], radius: f64, paint: Paint) -> Ball {
        Ball { shape: Sphere::new(vec3(center), num(radius), paint) }
    }
}

impl Hittable for Ball {
    type Material = Paint;

    fn hit_spec(&self, r: Ray, ray_t: Interval) -> Option<HitRecord<Paint>> {
        self.hit(&r, ray_t)
    }

    fn hit(&self, r: &Ray, ray_t: Interval) -> Option<HitRecord<Paint>> {
        let center = xyz(self.shape.center());
        let radius = val(self.shape.radius());
        let origin = xyz(r.origin());
        let dir = xyz(r.direction());
        let oc = sub(center, origin);
        let a = dot(dir, dir);
        let h = dot(dir, oc);
        let c = dot(oc, oc) - radius * radius;
        let discriminant = h * h - a * c;
        let sqrtd = discriminant.sqrt();
        let crossing = |t: f64| {
            let p = add(origin, scale(t, dir));
            let outward_normal = over(sub(p, center), radius);
            Crossing {
                t: num(t),
                p: vec3(p),
                outward_normal: vec3(outward_normal),
                facing: num(dot(dir, outward_normal)),
            }
        };
        self.shape.hit(
            num(discriminant),
            crossing((h - sqrtd) / a),
            crossing((h + sqrtd) / a),
            ray_t,
        )
    }
}

/// The color of the sky in a direction: white straight down, blue straight
/// up, and a blend of the two between.
fn sky(dir: [f64; 3]) -> [f64; 3] {
    let unit = normalized(dir);
    let a = 0.5 * (unit[1] + 1.0);
    add(scale(1.0 - a, [1.0, 1.0, 1.0]), scale(a, [0.5, 0.7, 1.0]))
}

/// Multiplies a radiance out.
fn shade(radiance: &Radiance) -> [f64; 3] {
    let mut color = match radiance.source {
        Source::Dark => [0.0, 0.0, 0.0],
        Source::Sky(dir) => sky(xyz(dir)),
    };
    for (attenuation, _) in &radiance.bounces {
        color = times(xyz(*attenuation), color);
    }
    color
}

struct Lens {
    camera: Camera,
}

fn lens(
    aspect_ratio: f64,
    image_width: u32,
    samples_per_pixel: u32,
    max_depth: u32,
    vfov: f64,
    lookfrom: [f64; 3],
    lookat: [f64; 3],
    vup: [f64; 3],
    defocus_angle: f64,
    focus_dist: f64,
) -> Lens {
    let rows = (image_width as f64 / aspect_ratio) as u32;
    let image_height = Camera::height_for(rows);
    let theta = vfov.to_radians();
    let h = (theta / 2.0).tan();
    let viewport_height = 2.0 * h * focus_dist;
    let viewport_width = viewport_height * (image_width as f64 / image_height as f64);
    let w = normalized(sub(lookfrom, lookat));
    let u = normalized(cross(vup, w));
    let v = cross(w, u);
    let viewport_u = scale(viewport_width, u);
    let viewport_v = scale(viewport_height, scale(-1.0, v));
    let upper_left = sub(
        sub(sub(lookfrom, scale(focus_dist, w)), over(viewport_u, 2.0)),
        over(viewport_v, 2.0),
    );
    let pixel_delta_u = over(viewport_u, image_width as f64);
    let pixel_delta_v = over(viewport_v, image_height as f64);
    let pixel00_loc = add(upper_left, scale(0.5, add(pixel_delta_u, pixel_delta_v)));
    let defocus_radius = focus_dist * (defocus_angle / 2.0).to_radians().tan();
    let projection = Projection {
        rows,
        pixel00_loc: vec3(pixel00_loc),
        pixel_delta_u: vec3(pixel_delta_u),
        pixel_delta_v: vec3(pixel_delta_v),
        pixel_samples_scale: num(1.0 / samples_per_pixel as f64),
        defocus_disk_u: vec3(scale(defocus_radius, u)),
        defocus_disk_v: vec3(scale(defocus_radius, v)),
    };
    Lens {
        camera: Camera::new(
            num(aspect_ratio),
            image_width,
            samples_per_pixel,
            max_depth,
            num(vfov),
            vec3(lookfrom),
            vec3(lookat),
            vec3(vup),
            num(defocus_angle),
            num(focus_dist),
            projection,
        ),
    }
}

impl Lens {
    /// The ray through the middle of pixel `i`, `j`, from the center.
    fn ray(&self, i: u32, j: u32) -> Ray {
        let p = self.camera.projection();
        let sample = add(
            add(xyz(p.pixel00_loc), scale(i as f64, xyz(p.pixel_delta_u))),
            scale(j as f64, xyz(p.pixel_delta_v)),
        );
        assert!(!self.camera.is_defocused());
        let origin = xyz(self.camera.center());
        Ray::new(vec3(origin), vec3(sub(sample, origin)))
    }
}

fn matte(albedo: [f64; 3]) -> Paint {
    Paint::Matte(Lambertian::new(vec3(albedo)))
}

fn down_z() -> Ray {
    Ray::new(vec3([0.0, 0.0, 0.0]), vec3([0.0, 0.0, -1.0]))
}

#[test]
fn an_image_has_at_least_one_row() {
    assert_eq!(Camera::height_for(0), 1);
    assert_eq!(Camera::height_for(1), 1);
    assert_eq!(Camera::height_for(225), 225);
    assert_eq!(Camera::height_for(u32::MAX), u32::MAX);
}

#[test]
fn camera_keeps_its_settings() {
    let l = lens(16.0 / 9.0, 400, 10, 50, 90.0, [0.0; 3], [0.0, 0.0, -1.0], [0.0, 1.0, 0.0], 0.0, 1.0);
    assert_eq!(l.camera.image_width(), 400);
    assert_eq!(l.camera.image_height(), 225);
    assert_eq!(l.camera.samples_per_pixel(), 10);
    assert_eq!(l.camera.max_depth(), 50);
    assert_eq!(xyz(l.camera.center()), [0.0, 0.0, 0.0]);
    assert_eq!(l.camera.projection().rows, 225);
    assert_eq!(val(l.camera.projection().pixel_samples_scale), 0.1);
    assert_eq!(val(l.camera.aspect_ratio()), 16.0 / 9.0);
    assert_eq!(val(l.camera.vfov()), 90.0);
    assert_eq!(xyz(l.camera.lookfrom()), [0.0, 0.0, 0.0]);
    assert_eq!(xyz(l.camera.lookat()), [0.0, 0.0, -1.0]);
    assert_eq!(xyz(l.camera.vup()), [0.0, 1.0, 0.0]);
    assert_eq!(val(l.camera.defocus_angle()), 0.0);
    assert_eq!(val(l.camera.focus_dist()), 1.0);
}

#[test]
fn a_flat_image_still_has_a_row() {
    let l = lens(1000.0, 100, 1, 1, 90.0, [0.0; 3], [0.0, 0.0, -1.0], [0.0, 1.0, 0.0], 0.0, 1.0);
    assert_eq!(l.camera.image_height(), 1);
    assert_eq!(l.camera.projection().rows, 1);
}

#[test]
fn defocus_takes_an_angle_above_zero() {
    let with = |angle: f64| {
        lens(1.0, 3, 1, 1, 90.0, [0.0; 3], [0.0, 0.0, -1.0], [0.0, 1.0, 0.0], angle, 1.0)
            .camera
            .is_defocused()
    };
    assert!(!with(0.0));
    assert!(!with(-0.0));
    assert!(!with(-10.0));
    assert!(with(0.6));
    assert!(with(f64::NAN));
}

#[test]
fn no_bounce_left_means_no_light() {
    assert_eq!(SHADOW_ACNE_BITS, 0.001f64.to_bits());
    let mut world = HittableList::new();
    let r = down_z();
    let res = Camera::ray_color(&r, 0, &world);
    assert!(res.bounces.is_empty());
    assert!(matches!(res.source, Source::Dark));
    world.add(Ball::new([0.0, 0.0, -1.0], 0.5, matte([0.1, 0.2, 0.5])));
    world.add(Ball::new([0.0, -100.5, -1.0], 100.0, Paint::Mirror(Metal::new(vec3([0.8; 3]), num(0.3)))));
    for dir in [[0.0, 0.0, -1.0], [0.0, 1.0, 0.0], [0.3, -0.2, -1.0], [0.0, 0.0, 0.0]] {
        let r = Ray::new(vec3([0.0, 0.0, 0.0]), vec3(dir));
        let res = Camera::ray_color(&r, 0, &world);
        assert!(res.bounces.is_empty());
        assert!(matches!(res.source, Source::Dark));
        assert_eq!(shade(&res), [0.0, 0.0, 0.0]);
    }
}

#[test]
fn a_miss_sees_the_sky() {
    let world = HittableList::new_from(Ball::new([0.0, 0.0, -1.0], 0.5, matte([0.1, 0.2, 0.5])));
    let r = Ray::new(vec3([0.0, 0.0, 0.0]), vec3([0.0, 3.0, -4.0]));
    let res = Camera::ray_color(&r, 5, &world);
    assert!(res.bounces.is_empty());
    match res.source {
        Source::Sky(dir) => assert_eq!(xyz(dir), [0.0, 3.0, -4.0]),
        Source::Dark => panic!("the ray misses the sphere"),
    }
    let a = 0.5 * (0.6 + 1.0);
    let want = [(1.0 - a) + a * 0.5, (1.0 - a) + a * 0.7, (1.0 - a) + a];
    let got = shade(&res);
    for k in 0..3 {
        assert!((got[k] - want[k]).abs() < 1.0e-15);
    }
}

#[test]
fn an_absorbed_ray_gathers_no_light() {
    let world = HittableList::new_from(Ball::new([0.0, 0.0, -1.0], 0.5, Paint::Soot));
    let res = Camera::ray_color(&down_z(), 5, &world);
    assert!(res.bounces.is_empty());
    assert!(matches!(res.source, Source::Dark));
}

#[test]
fn one_bounce_then_sky() {
    let world = HittableList::new_from(Ball::new([0.0, 0.0, -1.0], 0.5, matte([0.1, 0.2, 0.5])));
    let res = Camera::ray_color(&down_z(), 5, &world);
    assert_eq!(res.bounces.len(), 1);
    let (attenuation, scattered) = res.bounces[0];
    assert_eq!(xyz(attenuation), [0.1, 0.2, 0.5]);
    assert_eq!(xyz(scattered.origin()), [0.0, 0.0, -0.5]);
    assert_eq!(xyz(scattered.direction()), add([0.0, 0.0, 1.0], STEADY));
    match res.source {
        Source::Sky(dir) => assert_eq!(xyz(dir), xyz(scattered.direction())),
        Source::Dark => panic!("the scattered ray leaves the scene"),
    }
    let got = shade(&res);
    let want = times([0.1, 0.2, 0.5], sky(add([0.0, 0.0, 1.0], STEADY)));
    assert_eq!(got, want);
}

#[test]
fn bounces_stand_innermost_first() {
    let mut world = HittableList::new();
    world.add(Ball::new([0.0, 0.0, -1.0], 0.5, Paint::Mirror(Metal::new(vec3([0.9, 0.8, 0.7]), num(0.0)))));
    world.add(Ball::new([0.0, 0.0, 3.0], 0.5, matte([0.1, 0.2, 0.5])));
    let res = Camera::ray_color(&down_z(), 5, &world);
    assert_eq!(res.bounces.len(), 2);
    assert_eq!(xyz(res.bounces[1].0), [0.9, 0.8, 0.7]);
    assert_eq!(xyz(res.bounces[1].1.origin()), [0.0, 0.0, -0.5]);
    assert_eq!(xyz(res.bounces[1].1.direction()), [0.0, 0.0, 1.0]);
    assert_eq!(xyz(res.bounces[0].0), [0.1, 0.2, 0.5]);
    assert_eq!(xyz(res.bounces[0].1.origin()), [0.0, 0.0, 2.5]);
    assert!(matches!(res.source, Source::Sky(_)));
    let capped = Camera::ray_color(&down_z(), 2, &world);
    assert_eq!(capped.bounces.len(), 2);
    assert!(matches!(capped.source, Source::Dark));
    assert_eq!(shade(&capped), [0.0, 0.0, 0.0]);
    let capped = Camera::ray_color(&down_z(), 1, &world);
    assert_eq!(capped.bounces.len(), 1);
    assert_eq!(xyz(capped.bounces[0].0), [0.9, 0.8, 0.7]);
    assert!(matches!(capped.source, Source::Dark));
}

#[test]
fn the_path_is_never_longer_than_its_budget() {
    let mut world = HittableList::new();
    world.add(Ball::new([0.0, 0.0, -1.0], 0.5, Paint::Mirror(Metal::new(vec3([0.9; 3]), num(0.0)))));
    world.add(Ball::new([0.0, 0.0, 1.0], 0.5, Paint::Mirror(Metal::new(vec3([0.9; 3]), num(0.0)))));
    for depth in 0..20 {
        let res = Camera::ray_color(&down_z(), depth, &world);
        assert_eq!(res.bounces.len(), depth as usize);
        assert!(matches!(res.source, Source::Dark));
    }
}

#[test]
fn a_ray_does_not_strike_the_surface_it_leaves() {
    let world = HittableList::new_from(Ball::new([0.0, 0.0, 0.0], 1.0, Paint::Soot));
    let grazing = Ray::new(vec3([0.0, 0.0, -1.0]), vec3([0.0, 0.0, -1.0]));
    let res = Camera::ray_color(&grazing, 3, &world);
    assert!(res.bounces.is_empty());
    assert!(matches!(res.source, Source::Sky(_)));
}

#[test]
fn single_sphere_seen_from_the_origin() {
    let l = lens(1.0, 3, 1, 1, 90.0, [0.0; 3], [0.0, 0.0, -1.0], [0.0, 1.0, 0.0], 0.0, 1.0);
    assert_eq!(l.camera.image_height(), 3);
    let world = HittableList::new_from(Ball::new([0.0, 0.0, -1.0], 0.5, matte([0.1, 0.2, 0.5])));

    let center = l.ray(1, 1);
    let dir = xyz(center.direction());
    assert!(dir[0].abs() < 1.0e-15 && dir[1].abs() < 1.0e-15 && (dir[2] + 1.0).abs() < 1.0e-15);
    let res = Camera::ray_color(&center, l.camera.max_depth(), &world);
    assert_eq!(res.bounces.len(), 1);
    assert_eq!(xyz(res.bounces[0].0), [0.1, 0.2, 0.5]);
    let leaves = xyz(res.bounces[0].1.origin());
    assert!(leaves[0].abs() < 1.0e-15 && leaves[1].abs() < 1.0e-15 && (leaves[2] + 0.5).abs() < 1.0e-15);
    assert!(matches!(res.source, Source::Dark));
    assert_eq!(shade(&res), [0.0, 0.0, 0.0]);

    let corner = l.ray(0, 0);
    let res = Camera::ray_color(&corner, l.camera.max_depth(), &world);
    assert!(res.bounces.is_empty());
    let dir = xyz(corner.direction());
    match res.source {
        Source::Sky(seen) => assert_eq!(xyz(seen), dir),
        Source::Dark => panic!("the corner ray misses the sphere"),
    }
    let a = 0.5 * (dir[1] / dot(dir, dir).sqrt() + 1.0);
    let want = [(1.0 - a) + a * 0.5, (1.0 - a) + a * 0.7, (1.0 - a) + a];
    let got = shade(&res);
    for k in 0..3 {
        assert!((got[k] - want[k]).abs() < 1.0e-15);
    }
    assert!(got[2] == 1.0 && got[0] < got[1] && got[1] < got[2]);
}

#[test]
fn one_bounce_lets_no_sky_in() {
    let r = down_z();
    for paint in [
        matte([0.1, 0.2, 0.5]),
        Paint::Mirror(Metal::new(vec3([0.8; 3]), num(0.0))),
        Paint::Mirror(Metal::new(vec3([0.8; 3]), num(5.0))),
        Paint::Soot,
    ] {
        let world = HittableList::new_from(Ball::new([0.0, 0.0, -1.0], 0.5, paint));
        let res = Camera::ray_color(&r, 1, &world);
        assert!(res.bounces.len() <= 1);
        assert!(matches!(res.source, Source::Dark));
        assert_eq!(shade(&res), [0.0, 0.0, 0.0]);
    }
}
