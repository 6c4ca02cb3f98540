use image::DynamicImage;
use image::GenericImage;
use image::Rgba;
use raytracer::number::Binary32;
use raytracer::number::Binary64;
use raytracer::point::Point;
use raytracer::raster::Rgba8;
use raytracer::rendering::PlaneTerms;
use raytracer::rendering::Ray;
use raytracer::rendering::SphereTerms;
use raytracer::rendering::TextureCoords;
use raytracer::scene::nearest_hit;
use raytracer::scene::wrap;
use raytracer::scene::Color;
use raytracer::scene::Coloration;
use raytracer::scene::DirectionalLight;
use raytracer::scene::Element;
use raytracer::scene::Intersection;
use raytracer::scene::Light;
use raytracer::scene::Material;
use raytracer::scene::Plane;
use raytracer::scene::Scene;
use raytracer::scene::Sphere;
use raytracer::scene::SphericalLight;
use raytracer::scene::SurfaceType;
use raytracer::vector::Vector3;

fn d(v: f64) -> Binary64 {
    Binary64::from_bits(v.to_bits())
}

fn s(v: f32) -> Binary32 {
    Binary32::from_bits(v.to_bits())
}

fn color(r: f32, g: f32, b: f32) -> Color {
    Color { red: s(r), green: s(g), blue: s(b) }
}

fn channels(c: Color) -> (f32, f32, f32) {
    (
        f32::from_bits(c.red.to_bits()),
        f32::from_bits(c.green.to_bits()),
        f32::from_bits(c.blue.to_bits()),
    )
}

fn point(x: f64, y: f64, z: f64) -> Point {
    Point { x: d(x), y: d(y), z: d(z) }
}

fn vector(x: f64, y: f64, z: f64) -> Vector3 {
    Vector3 { x: d(x), y: d(y), z: d(z) }
}

fn material(surface: SurfaceType) -> Material {
    Material { coloration: Coloration::Color(color(1.0, 1.0, 1.0)), albedo: s(0.18), surface }
}

fn sphere(z: f64, surface: SurfaceType) -> Element {
    Element::Sphere(Sphere { center: point(0.0, 0.0, z), radius: d(1.0), material: material(surface) })
}

fn scene_of(elements: Vec<Element>) -> Scene {
    Scene {
        width: 4,
        height: 3,
        fov: d(90.0),
        elements,
        lights: vec![],
        shadow_bias: d(1e-13),
        max_recursion_depth: 5,
    }
}

fn ray() -> Ray {
    Ray { origin: point(0.0, 0.0, 0.0), direction: vector(0.0, 0.0, -1.0) }
}

fn gamma_decode(channel: u8) -> Binary32 {
    s((channel as f32 / 255.0).powf(2.2))
}

fn gamma_encode(linear: Binary32) -> Binary32 {
    s(f32::from_bits(linear.to_bits()).powf(1.0 / 2.2) * 255.0)
}

#[test]
fn clamp_limits_every_channel() {
    let c = color(2.0, -1.0, 0.5).clamp();
    assert_eq!(channels(c), (1.0, 0.0, 0.5));
}

#[test]
fn clamp_is_idempotent() {
    for c in [color(2.0, -1.0, 0.5), color(0.0, 1.0, 0.25), color(f32::NAN, f32::INFINITY, -0.0)] {
        let once = c.clamp();
        let twice = once.clamp();
        assert_eq!(once.red.to_bits(), twice.red.to_bits());
        assert_eq!(once.green.to_bits(), twice.green.to_bits());
        assert_eq!(once.blue.to_bits(), twice.blue.to_bits());
        let (r, g, b) = channels(once);
        assert!((0.0..=1.0).contains(&r));
        assert!((0.0..=1.0).contains(&g));
        assert!((0.0..=1.0).contains(&b));
    }
}

#[test]
fn clamp_leaves_a_colour_in_gamut_alone() {
    let c = color(0.2, 0.4, 0.6).clamp();
    assert_eq!(channels(c), (0.2, 0.4, 0.6));
}

#[test]
fn black_is_all_zero() {
    assert_eq!(channels(Color::black()), (0.0, 0.0, 0.0));
}

#[test]
fn to_rgba_encodes_and_cuts_off() {
    let pixel = color(1.0, 0.0, 0.5).to_rgba(&gamma_encode);
    assert_eq!(pixel, Rgba8 { red: 255, green: 0, blue: 186, alpha: 255 });
}

#[test]
fn to_rgba_keeps_out_of_range_channels_in_a_byte() {
    let pixel = color(4.0, -1.0, f32::NAN).to_rgba(&gamma_encode);
    assert_eq!(pixel, Rgba8 { red: 255, green: 0, blue: 0, alpha: 255 });
}

#[test]
fn from_rgba_decodes_the_colour_channels() {
    let c = Color::from_rgba(Rgba8 { red: 255, green: 0, blue: 186, alpha: 7 }, &gamma_decode);
    let (r, g, b) = channels(c);
    assert_eq!(r, 1.0);
    assert_eq!(g, 0.0);
    assert!((b - 0.5).abs() < 0.005);
}

#[test]
fn gamma_round_trip_stays_within_a_pixel_step() {
    let mut v: f32 = 0.0;
    while v <= 1.0 {
        let back = Color::from_rgba(color(v, v, v).to_rgba(&gamma_encode), &gamma_decode);
        let (r, g, b) = channels(back);
        assert!((r - v).abs() < 0.01, "{v} came back as {r}");
        assert_eq!(r, g);
        assert_eq!(g, b);
        v += 0.01;
    }
}

#[test]
fn wrap_starts_again_past_the_end() {
    assert_eq!(wrap(s(23.7), 10), 3);
    assert_eq!(wrap(s(10.0), 10), 0);
    assert_eq!(wrap(s(9.99), 10), 9);
    assert_eq!(wrap(s(0.0), 10), 0);
}

#[test]
fn wrap_counts_back_from_the_end_below_zero() {
    assert_eq!(wrap(s(-1.0), 10), 9);
    assert_eq!(wrap(s(-10.0), 10), 0);
    assert_eq!(wrap(s(-11.5), 10), 9);
    assert_eq!(wrap(s(-0.5), 10), 0);
}

#[test]
fn wrap_takes_large_bounds_and_coordinates() {
    assert_eq!(wrap(s(-1.0), u32::MAX), u32::MAX - 1);
    assert_eq!(wrap(s(f32::INFINITY), 1000), (i32::MAX as u32) % 1000);
    assert_eq!(wrap(s(f32::NEG_INFINITY), 7), (i32::MIN as i64).rem_euclid(7) as u32);
    assert_eq!(wrap(s(f32::NAN), 7), 0);
    assert_eq!(wrap(s(5.0), 1), 0);
}

fn texture() -> DynamicImage {
    let mut img = DynamicImage::new_rgba8(3, 2);
    for y in 0..2u32 {
        for x in 0..3u32 {
            img.put_pixel(x, y, Rgba([(x * 100) as u8, (y * 200) as u8, 255, 255]));
        }
    }
    img
}

/// Texture coordinates from the unit square to the pixels of a texture.
fn to_pixels(coords: TextureCoords, width: u32, height: u32) -> TextureCoords {
    let x = f32::from_bits(coords.x.to_bits()) * width as f32;
    let y = f32::from_bits(coords.y.to_bits()) * height as f32;
    TextureCoords { x: s(x), y: s(y) }
}

fn as_stored(channel: u8) -> Binary32 {
    s(channel as f32)
}

fn texel(coloration: &Coloration, x: f32, y: f32) -> (f32, f32, f32) {
    let coords = TextureCoords { x: s(x), y: s(y) };
    channels(coloration.color(&coords, &to_pixels, &as_stored).unwrap())
}

#[test]
fn a_single_colour_is_the_same_everywhere() {
    let coloration = Coloration::Color(color(0.1, 0.2, 0.3));
    assert_eq!(coloration.extent(), None);
    let coords = TextureCoords { x: s(-7.5), y: s(1e9) };
    let found = coloration.color(&coords, &to_pixels, &gamma_decode).unwrap();
    assert_eq!(channels(found), (0.1, 0.2, 0.3));
}

#[test]
fn a_texture_is_looked_up_with_wraparound() {
    let coloration = Coloration::Texture(texture());
    assert_eq!(coloration.extent(), Some((3, 2)));
    assert_eq!(texel(&coloration, 0.0, 0.0), (0.0, 0.0, 255.0));
    assert_eq!(texel(&coloration, 0.9, 0.9), (200.0, 200.0, 255.0));
    assert_eq!(texel(&coloration, 1.0, 1.0), (0.0, 0.0, 255.0));
    assert_eq!(texel(&coloration, 1.4, 1.95), (100.0, 200.0, 255.0));
    assert_eq!(texel(&coloration, -0.3, -0.5), (0.0, 200.0, 255.0));
    assert_eq!(texel(&coloration, -0.4, -0.5), (200.0, 200.0, 255.0));
    assert_eq!(texel(&coloration, -1.0, -1.0), (0.0, 0.0, 255.0));
    assert_eq!(texel(&coloration, 0.5, 0.25), (100.0, 0.0, 255.0));
}

#[test]
fn a_texture_pixel_is_decoded() {
    let coloration = Coloration::Texture(texture());
    let coords = TextureCoords { x: s(0.5), y: s(0.75) };
    let (r, g, b) = channels(coloration.color(&coords, &to_pixels, &gamma_decode).unwrap());
    assert!((r - (100.0f32 / 255.0).powf(2.2)).abs() < 1e-6);
    assert!((g - (200.0f32 / 255.0).powf(2.2)).abs() < 1e-6);
    assert_eq!(b, 1.0);
}

#[test]
fn a_texture_without_pixels_has_no_colour() {
    let coords = TextureCoords { x: s(0.0), y: s(0.0) };
    let empty = Coloration::Texture(DynamicImage::new_rgba8(0, 0));
    assert!(empty.color(&coords, &to_pixels, &gamma_decode).is_none());
    let flat = Coloration::Texture(DynamicImage::new_rgba8(5, 0));
    assert!(flat.color(&coords, &to_pixels, &gamma_decode).is_none());
    assert_eq!(flat.extent(), Some((5, 0)));
}

#[test]
fn a_grey_texture_reads_as_grey() {
    let mut img = DynamicImage::new_luma8(1, 1);
    img.put_pixel(0, 0, Rgba([90, 90, 90, 255]));
    let coloration = Coloration::Texture(img);
    assert_eq!(texel(&coloration, 0.5, 0.5), (90.0, 90.0, 90.0));
}

#[test]
fn nearest_hit_picks_the_smallest_distance() {
    let candidates = vec![Some(d(5.0)), None, Some(d(3.0)), Some(d(4.0))];
    assert_eq!(nearest_hit(&candidates), Some(2));
}

#[test]
fn nearest_hit_lets_the_first_of_equals_win() {
    let candidates = vec![None, Some(d(3.0)), Some(d(3.0)), Some(d(7.0)), Some(d(3.0))];
    assert_eq!(nearest_hit(&candidates), Some(1));
    let zeros = vec![Some(d(-0.0)), Some(d(0.0))];
    assert_eq!(nearest_hit(&zeros), Some(0));
    let zeros = vec![Some(d(0.0)), Some(d(-0.0))];
    assert_eq!(nearest_hit(&zeros), Some(0));
}

#[test]
fn nearest_hit_finds_nothing_among_misses() {
    assert_eq!(nearest_hit(&vec![]), None);
    assert_eq!(nearest_hit(&vec![None, None]), None);
}

#[test]
fn nearest_hit_leaves_out_what_is_not_finite() {
    let candidates = vec![Some(d(f64::NAN)), Some(d(9.0)), Some(d(f64::INFINITY)), Some(d(-f64::NAN))];
    assert_eq!(nearest_hit(&candidates), Some(1));
    assert_eq!(nearest_hit(&vec![Some(d(f64::INFINITY)), Some(d(f64::NAN))]), None);
    assert_eq!(nearest_hit(&vec![Some(d(f64::NEG_INFINITY))]), None);
}

#[test]
fn trace_asks_the_formula_of_each_shape() {
    let plane = Element::Plane(Plane {
        origin: point(0.0, -2.0, 0.0),
        normal: vector(0.0, -1.0, 0.0),
        material: material(SurfaceType::Diffuse),
    });
    let scene = scene_of(vec![sphere(-9.0, SurfaceType::Diffuse), plane]);
    let facing = |_: &Plane, _: &Ray| PlaneTerms { denom: d(0.5), distance: d(3.0) };
    let hit = scene.trace(&ray(), &by_depth, &facing).unwrap();
    assert_eq!(hit.distance().to_bits(), 3.0f64.to_bits());
    assert!(std::ptr::eq(hit.element(), &scene.elements[1]));
    let averted = |_: &Plane, _: &Ray| PlaneTerms { denom: d(-0.5), distance: d(3.0) };
    let hit = scene.trace(&ray(), &by_depth, &averted).unwrap();
    assert_eq!(hit.distance().to_bits(), 8.0f64.to_bits());
    assert!(std::ptr::eq(hit.element(), &scene.elements[0]));
}

#[test]
fn trace_leaves_out_what_is_not_finite() {
    let scene = scene_of(vec![sphere(-9.0, SurfaceType::Diffuse), sphere(-5.0, SurfaceType::Diffuse)]);
    let broken = |sphere: &Sphere, _: &Ray| {
        let z = f64::from_bits(sphere.center.z.to_bits());
        let t = if z == -5.0 { f64::NAN } else { 8.0 };
        SphereTerms { d2: d(0.0), radius2: d(1.0), t0: d(t), t1: d(t) }
    };
    let hit = scene.trace(&ray(), &broken, &no_plane).unwrap();
    assert!(std::ptr::eq(hit.element(), &scene.elements[0]));
}

#[test]
fn nearest_hit_leaves_out_what_lies_behind() {
    let candidates = vec![Some(d(-2.0)), Some(d(9.0)), Some(d(-0.5))];
    assert_eq!(nearest_hit(&candidates), Some(1));
    assert_eq!(nearest_hit(&vec![Some(d(-2.0))]), None);
}

/// A sphere in front of the camera is met at the near side, one behind
/// it is missed, whatever the ray.
fn by_depth(sphere: &Sphere, _ray: &Ray) -> SphereTerms {
    let z = f64::from_bits(sphere.center.z.to_bits());
    SphereTerms { d2: d(0.0), radius2: d(1.0), t0: d(-z - 1.0), t1: d(-z + 1.0) }
}

fn no_plane(_plane: &Plane, _ray: &Ray) -> PlaneTerms {
    PlaneTerms { denom: d(0.0), distance: d(0.0) }
}

#[test]
fn trace_returns_the_nearest_element() {
    let scene = scene_of(vec![
        sphere(-9.0, SurfaceType::Diffuse),
        sphere(3.0, SurfaceType::Diffuse),
        sphere(-5.0, SurfaceType::Reflective { reflectivity: s(0.5) }),
        sphere(-7.0, SurfaceType::Diffuse),
    ]);
    let hit = scene.trace(&ray(), &by_depth, &no_plane).unwrap();
    assert_eq!(hit.distance().to_bits(), 4.0f64.to_bits());
    assert!(std::ptr::eq(hit.element(), &scene.elements[2]));
}

#[test]
fn trace_lets_the_first_of_equals_win() {
    let scene = scene_of(vec![
        sphere(-9.0, SurfaceType::Diffuse),
        sphere(-5.0, SurfaceType::Diffuse),
        sphere(-5.0, SurfaceType::Diffuse),
    ]);
    let hit = scene.trace(&ray(), &by_depth, &no_plane).unwrap();
    assert!(std::ptr::eq(hit.element(), &scene.elements[1]));
}

#[test]
fn trace_finds_nothing_in_an_empty_scene() {
    assert!(scene_of(vec![]).trace(&ray(), &by_depth, &no_plane).is_none());
    assert!(scene_of(vec![sphere(5.0, SurfaceType::Diffuse)]).trace(&ray(), &by_depth, &no_plane).is_none());
}

#[test]
fn intersection_keeps_distance_and_element() {
    let element = sphere(-5.0, SurfaceType::Diffuse);
    let hit = Intersection::new(d(4.0), &element);
    assert_eq!(hit.distance().to_bits(), 4.0f64.to_bits());
    assert!(hit.distance().is_finite());
    assert!(std::ptr::eq(hit.element(), &element));
}

#[test]
fn element_hands_out_its_material() {
    let mut element = sphere(-5.0, SurfaceType::Reflective { reflectivity: s(0.25) });
    assert!(matches!(element.material().surface, SurfaceType::Reflective { .. }));
    element.material_mut().albedo = s(0.75);
    element.material_mut().surface = SurfaceType::Diffuse;
    assert_eq!(element.material().albedo.to_bits(), 0.75f32.to_bits());
    assert!(matches!(element.material().surface, SurfaceType::Diffuse));
    match &element {
        Element::Sphere(sphere) => assert_eq!(sphere.radius.to_bits(), 1.0f64.to_bits()),
        Element::Plane(_) => panic!("the sphere became a plane"),
    }
    let mut plane = Element::Plane(Plane {
        origin: point(0.0, -2.0, 0.0),
        normal: vector(0.0, -1.0, 0.0),
        material: material(SurfaceType::Diffuse),
    });
    plane.material_mut().albedo = s(0.5);
    assert_eq!(plane.material().albedo.to_bits(), 0.5f32.to_bits());
}

fn directional() -> Light {
    Light::Directional(DirectionalLight {
        direction: vector(0.0, -1.0, 0.5),
        color: color(1.0, 0.9, 0.8),
        intensity: s(20.0),
    })
}

fn spherical() -> Light {
    Light::Spherical(SphericalLight {
        position: point(1.0, 2.0, 3.0),
        color: color(0.3, 0.8, 0.3),
        intensity: s(10000.0),
    })
}

#[test]
fn a_light_has_its_colour() {
    assert_eq!(channels(directional().color()), (1.0, 0.9, 0.8));
    assert_eq!(channels(spherical().color()), (0.3, 0.8, 0.3));
}

fn unit_x(_lamp: &SphericalLight, _point: &Point) -> Vector3 {
    vector(1.0, 0.0, 0.0)
}

fn weak(_lamp: &SphericalLight, _point: &Point) -> Binary32 {
    s(3.0)
}

fn twelve(_lamp: &SphericalLight, _point: &Point) -> Binary64 {
    d(12.0)
}

#[test]
fn a_directional_light_is_the_same_everywhere() {
    let light = directional();
    let place = point(4.0, 5.0, 6.0);
    let toward = light.direction_from(&place, &unit_x);
    assert_eq!(f64::from_bits(toward.x.to_bits()).to_bits(), (-0.0f64).to_bits());
    assert_eq!(f64::from_bits(toward.y.to_bits()), 1.0);
    assert_eq!(f64::from_bits(toward.z.to_bits()), -0.5);
    assert_eq!(light.intensity(&place, &weak).to_bits(), 20.0f32.to_bits());
    assert_eq!(light.distance(&place, &twelve).to_bits(), f64::INFINITY.to_bits());
}

#[test]
fn a_spherical_light_depends_on_the_place() {
    let light = spherical();
    let place = point(4.0, 5.0, 6.0);
    let toward = light.direction_from(&place, &unit_x);
    assert_eq!(f64::from_bits(toward.x.to_bits()), 1.0);
    assert_eq!(light.intensity(&place, &weak).to_bits(), 3.0f32.to_bits());
    assert_eq!(light.distance(&place, &twelve).to_bits(), 12.0f64.to_bits());
    let by_place = |lamp: &SphericalLight, at: &Point| {
        d(f64::from_bits(lamp.position.y.to_bits()) - f64::from_bits(at.y.to_bits()))
    };
    assert_eq!(light.distance(&place, &by_place).to_bits(), (-3.0f64).to_bits());
}
