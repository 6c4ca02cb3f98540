//! Building a scene piece by piece, for callers that hand over parts which
//! may be missing. A part that is missing makes the call do nothing.
use vstd::prelude::*;
use crate::number::Binary32;
use crate::number::Binary64;
use crate::point::Point;
use crate::vector::Vector3;
use crate::raster::Rgba8;
use crate::scene::Color;
use crate::scene::DirectionalLight;
use crate::scene::Element;
use crate::scene::Light;
use crate::scene::Material;
use crate::scene::Plane;
use crate::scene::Scene;
use crate::scene::Sphere;
use crate::scene::SphericalLight;
use crate::ViewBlock;
use crate::pixel_at;
use crate::render_into;
use crate::shaded;

verus! {

/// A scene of the given picture size and shading parameters, with nothing
/// in it yet.
pub fn scene_new(
    width: u32,
    height: u32,
    fov: Binary64,
    shadow_bias: Binary64,
    max_recursion_depth: u32,
) -> (scene: Scene)
    ensures
        scene.width == width,
        scene.height == height,
        scene.fov == fov,
        scene.shadow_bias == shadow_bias,
        scene.max_recursion_depth == max_recursion_depth,
        scene.elements@.len() == 0,
        scene.lights@.len() == 0,
{
    Scene {
        width,
        height,
        fov,
        elements: Vec::new(),
        lights: Vec::new(),
        shadow_bias,
        max_recursion_depth,
    }
}

/// Whether two scenes agree in everything but their elements.
pub open spec fn same_but_elements(a: Scene, b: Scene) -> bool {
    &&& a.width == b.width
    &&& a.height == b.height
    &&& a.fov == b.fov
    &&& a.lights == b.lights
    &&& a.shadow_bias == b.shadow_bias
    &&& a.max_recursion_depth == b.max_recursion_depth
}

/// Whether two scenes agree in everything but their lights.
pub open spec fn same_but_lights(a: Scene, b: Scene) -> bool {
    &&& a.width == b.width
    &&& a.height == b.height
    &&& a.fov == b.fov
    &&& a.elements == b.elements
    &&& a.shadow_bias == b.shadow_bias
    &&& a.max_recursion_depth == b.max_recursion_depth
}

/// Appends a sphere to the scene's elements. Without a centre or a
/// material the scene stays as it is.
pub fn scene_add_sphere(
    scene: &mut Scene,
    center: Option<&Point>,
    radius: Binary64,
    material: Option<Material>,
)
    ensures
        same_but_elements(*old(scene), *final(scene)),
        final(scene).elements@ == match (center, material) {
            (Some(c), Some(m)) => old(scene).elements@.push(
                Element::Sphere(Sphere { center: *c, radius, material: m }),
            ),
            _ => old(scene).elements@,
        },
{
    match (center, material) {
        (Some(c), Some(m)) => {
            scene.elements.push(Element::Sphere(Sphere { center: *c, radius, material: m }));
        },
        _ => {},
    }
}

/// Appends a plane to the scene's elements; `normal` is of unit length.
/// Without an origin, a normal or a material the scene stays as it is.
pub fn scene_add_plane(
    scene: &mut Scene,
    origin: Option<&Point>,
    normal: Option<&Vector3>,
    material: Option<Material>,
)
    ensures
        same_but_elements(*old(scene), *final(scene)),
        final(scene).elements@ == match (origin, normal, material) {
            (Some(o), Some(n), Some(m)) => old(scene).elements@.push(
                Element::Plane(Plane { origin: *o, normal: *n, material: m }),
            ),
            _ => old(scene).elements@,
        },
{
    match (origin, normal, material) {
        (Some(o), Some(n), Some(m)) => {
            scene.elements.push(Element::Plane(Plane { origin: *o, normal: *n, material: m }));
        },
        _ => {},
    }
}

/// Appends a spherical light to the scene's lights. Without a position
/// or a colour the scene stays as it is.
pub fn scene_add_spherical_light(
    scene: &mut Scene,
    position: Option<&Point>,
    color: Option<&Color>,
    intensity: Binary32,
)
    ensures
        same_but_lights(*old(scene), *final(scene)),
        final(scene).lights@ == match (position, color) {
            (Some(p), Some(c)) => old(scene).lights@.push(
                Light::Spherical(SphericalLight { position: *p, color: *c, intensity }),
            ),
            _ => old(scene).lights@,
        },
{
    match (position, color) {
        (Some(p), Some(c)) => {
            scene.lights.push(
                Light::Spherical(SphericalLight { position: *p, color: *c, intensity }),
            );
        },
        _ => {},
    }
}

/// Appends a directional light to the scene's lights; `direction` is of
/// unit length. Without a direction or a colour the scene stays as it is.
pub fn scene_add_directional_light(
    scene: &mut Scene,
    direction: Option<&Vector3>,
    color: Option<&Color>,
    intensity: Binary32,
)
    ensures
        same_but_lights(*old(scene), *final(scene)),
        final(scene).lights@ == match (direction, color) {
            (Some(d), Some(c)) => old(scene).lights@.push(
                Light::Directional(DirectionalLight { direction: *d, color: *c, intensity }),
            ),
            _ => old(scene).lights@,
        },
{
    match (direction, color) {
        (Some(d), Some(c)) => {
            scene.lights.push(
                Light::Directional(DirectionalLight { direction: *d, color: *c, intensity }),
            );
        },
        _ => {},
    }
}

/// Renders the whole picture of a scene into a buffer of the caller's,
/// and says whether it did. A buffer that does not hold exactly four
/// bytes for every pixel of the picture is left as it was.
pub fn scene_render<F: Fn(u32, u32, &Scene) -> Rgba8>(
    scene: &Scene,
    shade: F,
    buffer: &mut Vec<u8>,
) -> (rendered: bool)
    requires
        forall|x: u32, y: u32| x < scene.width && y < scene.height ==> shade.requires((x, y, scene)),
    ensures
        rendered == (old(buffer).len() == 4 * (scene.width * scene.height)),
        !rendered ==> final(buffer)@ == old(buffer)@,
        rendered ==> final(buffer).len() == old(buffer).len() && forall|x: int, y: int|
            0 <= x < scene.width && 0 <= y < scene.height ==> shaded(
                shade,
                scene,
                x,
                y,
                #[trigger] pixel_at(final(buffer)@, scene.width as int, x, y),
            ),
{
    let block = ViewBlock::whole(scene);
    let done = render_into(&block, scene, shade, buffer);
    done.is_ok()
}

} // verus!
