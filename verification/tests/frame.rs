use image::GenericImageView;
use raytracer::builder::scene_add_directional_light;
use raytracer::builder::scene_add_plane;
use raytracer::builder::scene_add_sphere;
use raytracer::builder::scene_add_spherical_light;
use raytracer::builder::scene_new;
use raytracer::builder::scene_render;
use raytracer::number::Binary32;
use raytracer::number::Binary64;
use raytracer::point::Point;
use raytracer::raster::Rgba8;
use raytracer::render;
use raytracer::render_into;
use raytracer::scene::Color;
use raytracer::scene::Coloration;
use raytracer::scene::Element;
use raytracer::scene::Light;
use raytracer::scene::Material;
use raytracer::scene::Scene;
use raytracer::scene::SurfaceType;
use raytracer::vector::Vector3;
use raytracer::RenderError;
use raytracer::ViewBlock;

fn d(v: f64) -> Binary64 {
    Binary64::from_bits(v.to_bits())
}

fn s(v: f32) -> Binary32 {
    Binary32::from_bits(v.to_bits())
}

fn scene(width: u32, height: u32) -> Scene {
    scene_new(width, height, d(90.0), d(1e-13), 5)
}

/// A pixel that tells its place, and is not opaque.
fn place(x: u32, y: u32, scene: &Scene) -> Rgba8 {
    Rgba8 { red: x as u8, green: y as u8, blue: scene.max_recursion_depth as u8, alpha: 9 }
}

fn material() -> Material {
    Material {
        coloration: Coloration::Color(Color { red: s(1.0), green: s(0.5), blue: s(0.25) }),
        albedo: s(0.18),
        surface: SurfaceType::Diffuse,
    }
}

#[test]
fn render_fills_every_pixel_of_the_block() {
    let block = ViewBlock { x: 10, y: 20, width: 4, height: 3 };
    let image = render(&block, &scene(100, 100), place);
    assert_eq!(image.dimensions(), (4, 3));
    for y in 0..3u32 {
        for x in 0..4u32 {
            assert_eq!(image.get_pixel(x, y).0, [(x + 10) as u8, (y + 20) as u8, 5, 255]);
        }
    }
}

#[test]
fn render_puts_row_zero_at_the_top() {
    let block = ViewBlock { x: 0, y: 0, width: 2, height: 2 };
    let image = render(&block, &scene(2, 2), |_, y, _| {
        if y == 0 {
            Rgba8 { red: 255, green: 255, blue: 255, alpha: 255 }
        } else {
            Rgba8 { red: 0, green: 0, blue: 0, alpha: 255 }
        }
    });
    assert_eq!(image.get_pixel(0, 0).0, [255, 255, 255, 255]);
    assert_eq!(image.get_pixel(1, 0).0, [255, 255, 255, 255]);
    assert_eq!(image.get_pixel(0, 1).0, [0, 0, 0, 255]);
}

#[test]
fn render_of_an_empty_block_is_empty() {
    let block = ViewBlock { x: u32::MAX, y: 7, width: 0, height: 5 };
    let image = render(&block, &scene(0, 0), place);
    assert_eq!(image.dimensions(), (0, 5));
}

#[test]
fn render_reaches_the_last_pixel_of_the_picture() {
    let block = ViewBlock { x: u32::MAX, y: u32::MAX - 1, width: 1, height: 2 };
    let image = render(&block, &scene(1, 1), |x, y, _| {
        Rgba8 { red: (x % 251) as u8, green: (y % 251) as u8, blue: 0, alpha: 0 }
    });
    assert_eq!(image.get_pixel(0, 0).0, [(u32::MAX % 251) as u8, ((u32::MAX - 1) % 251) as u8, 0, 255]);
    assert_eq!(image.get_pixel(0, 1).0, [(u32::MAX % 251) as u8, (u32::MAX % 251) as u8, 0, 255]);
}

#[test]
fn render_into_lays_the_rows_out_one_after_the_other() {
    let block = ViewBlock { x: 1, y: 2, width: 3, height: 2 };
    let mut buffer = vec![7u8; 24];
    assert_eq!(render_into(&block, &scene(10, 10), place, &mut buffer), Ok(()));
    assert_eq!(
        buffer,
        vec![
            1, 2, 5, 255, 2, 2, 5, 255, 3, 2, 5, 255, //
            1, 3, 5, 255, 2, 3, 5, 255, 3, 3, 5, 255,
        ]
    );
}

#[test]
fn render_into_refuses_a_buffer_of_another_length() {
    let block = ViewBlock { x: 0, y: 0, width: 3, height: 2 };
    for length in [0usize, 6, 23, 25, 48] {
        let mut buffer = vec![7u8; length];
        assert_eq!(
            render_into(&block, &scene(10, 10), place, &mut buffer),
            Err(RenderError::BufferLength)
        );
        assert_eq!(buffer, vec![7u8; length]);
    }
}

#[test]
fn render_into_takes_an_empty_buffer_for_an_empty_block() {
    let block = ViewBlock { x: 0, y: 0, width: 0, height: 9 };
    let mut buffer: Vec<u8> = vec![];
    assert_eq!(render_into(&block, &scene(10, 10), place, &mut buffer), Ok(()));
    assert!(buffer.is_empty());
    let mut buffer = vec![1u8];
    assert_eq!(render_into(&block, &scene(10, 10), place, &mut buffer), Err(RenderError::BufferLength));
}

#[test]
fn render_into_refuses_what_no_buffer_can_hold() {
    let block = ViewBlock { x: 0, y: 0, width: u32::MAX, height: u32::MAX };
    let mut buffer = vec![7u8; 16];
    assert_eq!(render_into(&block, &scene(10, 10), place, &mut buffer), Err(RenderError::BufferLength));
    assert_eq!(buffer, vec![7u8; 16]);
}

#[test]
fn the_whole_block_covers_the_picture() {
    let block = ViewBlock::whole(&scene(640, 480));
    assert_eq!((block.x, block.y, block.width, block.height), (0, 0, 640, 480));
}

#[test]
fn scene_render_fills_a_buffer_of_the_right_length() {
    let scene = scene(2, 2);
    let mut buffer = vec![0u8; 16];
    assert!(scene_render(&scene, place, &mut buffer));
    assert_eq!(buffer, vec![0, 0, 5, 255, 1, 0, 5, 255, 0, 1, 5, 255, 1, 1, 5, 255]);
}

#[test]
fn scene_render_leaves_a_wrong_buffer_alone() {
    let scene = scene(2, 2);
    let mut buffer = vec![3u8; 15];
    assert!(!scene_render(&scene, place, &mut buffer));
    assert_eq!(buffer, vec![3u8; 15]);
    let mut buffer = vec![3u8; 17];
    assert!(!scene_render(&scene, place, &mut buffer));
    assert_eq!(buffer, vec![3u8; 17]);
}

#[test]
fn a_new_scene_is_empty() {
    let scene = scene_new(640, 480, d(90.0), d(1e-13), 10);
    assert_eq!((scene.width, scene.height), (640, 480));
    assert_eq!(scene.fov.to_bits(), 90.0f64.to_bits());
    assert_eq!(scene.shadow_bias.to_bits(), 1e-13f64.to_bits());
    assert_eq!(scene.max_recursion_depth, 10);
    assert!(scene.elements.is_empty());
    assert!(scene.lights.is_empty());
}

#[test]
fn elements_are_appended_in_order() {
    let mut scene = scene(4, 3);
    let center = Point { x: d(0.0), y: d(0.0), z: d(-5.0) };
    let normal = Vector3 { x: d(0.0), y: d(-1.0), z: d(0.0) };
    scene_add_sphere(&mut scene, Some(&center), d(1.0), Some(material()));
    scene_add_plane(&mut scene, Some(&center), Some(&normal), Some(material()));
    scene_add_sphere(&mut scene, Some(&center), d(2.0), Some(material()));
    assert_eq!(scene.elements.len(), 3);
    assert!(matches!(&scene.elements[0], Element::Sphere(sphere) if sphere.radius.to_bits() == 1.0f64.to_bits()));
    assert!(matches!(&scene.elements[1], Element::Plane(plane) if plane.normal.y.to_bits() == (-1.0f64).to_bits()));
    assert!(matches!(&scene.elements[2], Element::Sphere(sphere) if sphere.radius.to_bits() == 2.0f64.to_bits()));
    assert!(scene.lights.is_empty());
    assert_eq!((scene.width, scene.height, scene.max_recursion_depth), (4, 3, 5));
}

#[test]
fn an_element_with_a_part_missing_is_not_appended() {
    let mut scene = scene(4, 3);
    let center = Point { x: d(0.0), y: d(0.0), z: d(-5.0) };
    let normal = Vector3 { x: d(0.0), y: d(-1.0), z: d(0.0) };
    scene_add_sphere(&mut scene, None, d(1.0), Some(material()));
    scene_add_sphere(&mut scene, Some(&center), d(1.0), None);
    scene_add_plane(&mut scene, None, Some(&normal), Some(material()));
    scene_add_plane(&mut scene, Some(&center), None, Some(material()));
    scene_add_plane(&mut scene, Some(&center), Some(&normal), None);
    assert!(scene.elements.is_empty());
    assert!(scene.lights.is_empty());
}

#[test]
fn lights_are_appended_in_order() {
    let mut scene = scene(4, 3);
    let place = Point { x: d(1.0), y: d(2.0), z: d(3.0) };
    let direction = Vector3 { x: d(0.0), y: d(-1.0), z: d(0.0) };
    let color = Color { red: s(1.0), green: s(1.0), blue: s(1.0) };
    scene_add_spherical_light(&mut scene, Some(&place), Some(&color), s(10000.0));
    scene_add_directional_light(&mut scene, Some(&direction), Some(&color), s(20.0));
    assert_eq!(scene.lights.len(), 2);
    assert!(matches!(scene.lights[0], Light::Spherical(light) if light.intensity.to_bits() == 10000.0f32.to_bits()));
    assert!(matches!(scene.lights[1], Light::Directional(light) if light.intensity.to_bits() == 20.0f32.to_bits()));
    assert!(scene.elements.is_empty());
}

#[test]
fn a_light_with_a_part_missing_is_not_appended() {
    let mut scene = scene(4, 3);
    let place = Point { x: d(1.0), y: d(2.0), z: d(3.0) };
    let direction = Vector3 { x: d(0.0), y: d(-1.0), z: d(0.0) };
    let color = Color { red: s(1.0), green: s(1.0), blue: s(1.0) };
    scene_add_spherical_light(&mut scene, None, Some(&color), s(1.0));
    scene_add_spherical_light(&mut scene, Some(&place), None, s(1.0));
    scene_add_directional_light(&mut scene, None, Some(&color), s(1.0));
    scene_add_directional_light(&mut scene, Some(&direction), None, s(1.0));
    assert!(scene.lights.is_empty());
}
