//! Rays, and the casting of them through a scene.
//!
//! The first half holds the decisions of tracing and shading, shape by
//! shape: which crossing of a sphere is the hit, which planes face a ray,
//! which normal and which texture coordinates an element shows, on which
//! side of a refractive surface a ray is and when it is reflected
//! totally. The second half is the renderer itself: from the pixel to the
//! ray, to the nearest hit, to the colour of the hit, with further rays
//! cast for what is mirrored and refracted, down to the recursion limit.
//! The formulas that it needs on the way are handed in as an `Optics`.
use vstd::prelude::*;
use image::DynamicImage;
use crate::number::Binary32;
use crate::number::Binary64;
use crate::point::Point;
use crate::vector::Vector3;
use crate::raster::Rgba8;
use crate::raster::image_height;
use crate::raster::image_is_rgb8;
use crate::raster::image_pixels;
use crate::raster::image_width;
use crate::raster::in_image;
use crate::scene::Color;
use crate::scene::Element;
use crate::scene::Intersection;
use crate::scene::Light;
use crate::scene::Plane;
use crate::scene::Scene;
use crate::scene::SphericalLight;
use crate::scene::Sphere;
use crate::scene::SurfaceType;
use crate::scene::is_hit;
use crate::scene::is_nearest;
use crate::RenderError;
use crate::ViewBlock;
use crate::pixel_at;
use crate::render;
use crate::render_into;

verus! {

/// The pattern of the binary64 value nearest to one millionth: a plane
/// counts as facing a ray only where the ray's direction has more than
/// this much of the plane's normal in it.
pub const PLANE_EPSILON: u64 = 0x3EB0_C6F7_A0B5_ED8D;

#[derive(Clone, Copy, Debug)]
pub struct Ray {
    pub origin: Point,
    pub direction: Vector3,
}

/// A place on a surface, in the surface's own two coordinates.
#[derive(Clone, Copy, Debug)]
pub struct TextureCoords {
    pub x: Binary32,
    pub y: Binary32,
}

/// The two media at a refractive surface as a ray meets it.
#[derive(Clone, Copy, Debug)]
pub struct Media {
    /// Refractive index on the side the ray comes from.
    pub eta_i: Binary64,
    /// Refractive index on the side the ray goes to.
    pub eta_t: Binary64,
}

/// A refractive surface turned to face the ray that meets it.
#[derive(Clone, Copy, Debug)]
pub struct Crossing {
    /// The surface normal, on the side the ray comes from.
    pub normal: Vector3,
    /// The cosine of the angle of incidence, made positive for a ray that
    /// comes from outside.
    pub cosine: Binary64,
    pub media: Media,
}

/// The terms of a ray against a sphere.
#[derive(Clone, Copy, Debug)]
pub struct SphereTerms {
    /// The squared distance from the sphere's centre to the ray's line.
    pub d2: Binary64,
    /// The squared radius.
    pub radius2: Binary64,
    /// The distance along the ray at which its line enters the sphere.
    pub t0: Binary64,
    /// The distance along the ray at which its line leaves the sphere.
    pub t1: Binary64,
}

/// The terms of a ray against a plane.
#[derive(Clone, Copy, Debug)]
pub struct PlaneTerms {
    /// The plane's normal times the ray's direction.
    pub denom: Binary64,
    /// The distance along the ray to the plane.
    pub distance: Binary64,
}

/// The candidates for the first axis of a plane's texture coordinates.
#[derive(Clone, Copy, Debug)]
pub struct PlaneAxes {
    /// The cross product of the plane's normal with the z axis.
    pub first: Vector3,
    /// The length of `first`.
    pub first_length: Binary64,
    /// The cross product of the plane's normal with the y axis.
    pub second: Vector3,
}

/// The terms of the share of light that a refractive surface reflects.
#[derive(Clone, Copy, Debug)]
pub struct FresnelTerms {
    /// The sine of the angle of refraction that Snell's law asks for.
    pub sin_t: Binary64,
    /// The share that the Fresnel equations give for it.
    pub reflectance: Binary64,
}

/// The terms of a refracted ray.
#[derive(Clone, Copy, Debug)]
pub struct Refraction {
    /// One minus the squared sine of the angle of refraction.
    pub k: Binary64,
    /// Where the ray starts: a little off the surface, inside the medium
    /// that it enters.
    pub origin: Point,
    pub direction: Vector3,
}

/// The place where a ray met a surface, and the surface's normal there.
#[derive(Clone, Copy, Debug)]
pub struct Hit {
    pub point: Point,
    pub normal: Vector3,
}

impl Ray {
    /// The ray through a pixel: it starts at the camera, which sits at the
    /// origin, and runs along `direction`, the unit vector from the camera
    /// through the pixel's centre on the sensor. The sensor is as wide as
    /// it is high, or wider.
    pub fn create_prime(scene: &Scene, direction: Vector3) -> (ray: Ray)
        requires
            scene.width >= scene.height,
        ensures
            ray == (Ray { origin: Point::zero_spec(), direction }),
    {
        Ray { origin: Point::zero(), direction }
    }

    /// How a ray with the given incidence crosses a surface of the given
    /// refractive index. `i_dot_n` is the ray's direction times the
    /// surface normal: negative for a ray that arrives from outside. Such
    /// a ray goes from index 1 into the body. Any other ray is inside:
    /// the normal is turned round and the two indices change places.
    pub open spec fn crossing_spec(normal: Vector3, i_dot_n: Binary64, index: Binary64) -> Crossing {
        if i_dot_n.lt_spec(Binary64::zero_spec()) {
            Crossing {
                normal,
                cosine: i_dot_n.neg_spec(),
                media: Media { eta_i: Binary64::one_spec(), eta_t: index },
            }
        } else {
            Crossing {
                normal: normal.neg_spec(),
                cosine: i_dot_n,
                media: Media { eta_i: index, eta_t: Binary64::one_spec() },
            }
        }
    }

    /// Turns a refractive surface to face the ray that meets it.
    pub fn crossing(normal: Vector3, i_dot_n: Binary64, index: Binary64) -> (c: Crossing)
        ensures
            c == Ray::crossing_spec(normal, i_dot_n, index),
    {
        if i_dot_n.lt(Binary64::zero()) {
            Crossing {
                normal,
                cosine: i_dot_n.neg(),
                media: Media { eta_i: Binary64::one(), eta_t: index },
            }
        } else {
            Crossing {
                normal: normal.neg(),
                cosine: i_dot_n,
                media: Media { eta_i: index, eta_t: Binary64::one() },
            }
        }
    }

    /// The refracted ray, if there is one. `k` is one minus the squared
    /// sine of the angle of refraction; where it is negative the light is
    /// reflected totally and no ray passes.
    pub open spec fn transmission_spec(k: Binary64, origin: Point, direction: Vector3) -> Option<Ray> {
        if k.lt_spec(Binary64::zero_spec()) {
            None
        } else {
            Some(Ray { origin, direction })
        }
    }

    /// The refracted ray, if there is one.
    pub fn create_transmission(k: Binary64, origin: Point, direction: Vector3) -> (ray: Option<Ray>)
        ensures
            ray == Ray::transmission_spec(k, origin, direction),
    {
        if k.lt(Binary64::zero()) {
            None
        } else {
            Some(Ray { origin, direction })
        }
    }
}

impl Sphere {
    /// The distance at which a ray meets a sphere. `d2` is the squared
    /// distance from the centre to the ray's line, `radius2` the squared
    /// radius, `t0` and `t1` the distances along the ray at which its line
    /// enters and leaves the sphere. A line that passes farther out than
    /// the radius misses. Of the two crossings those behind the origin are
    /// left out, and the nearer of the rest is the hit.
    pub open spec fn intersect_spec(
        d2: Binary64,
        radius2: Binary64,
        t0: Binary64,
        t1: Binary64,
    ) -> Option<Binary64> {
        let zero = Binary64::zero_spec();
        if radius2.lt_spec(d2) {
            None
        } else if t0.lt_spec(zero) && t1.lt_spec(zero) {
            None
        } else if t0.lt_spec(zero) {
            Some(t1)
        } else if t1.lt_spec(zero) {
            Some(t0)
        } else if t0.lt_spec(t1) {
            Some(t0)
        } else {
            Some(t1)
        }
    }

    /// The distance at which a ray meets a sphere, from the terms of the
    /// ray against the sphere; none where it misses.
    pub fn intersect(d2: Binary64, radius2: Binary64, t0: Binary64, t1: Binary64) -> (distance:
        Option<Binary64>)
        ensures
            distance == Sphere::intersect_spec(d2, radius2, t0, t1),
            distance matches Some(d) ==> !d.lt_spec(Binary64::zero_spec()),
    {
        let zero = Binary64::zero();
        if d2.gt(radius2) {
            return None;
        }
        if t0.lt(zero) && t1.lt(zero) {
            None
        } else if t0.lt(zero) {
            Some(t1)
        } else if t1.lt(zero) {
            Some(t0)
        } else if t0.lt(t1) {
            Some(t0)
        } else {
            Some(t1)
        }
    }

    /// A ray from outside that runs through the sphere hits it where it
    /// enters: at the nearer crossing, not the farther one.
    pub proof fn enters_at_near_crossing(d2: Binary64, radius2: Binary64, t0: Binary64, t1: Binary64)
        requires
            d2.le_spec(radius2),
            Binary64::zero_spec().le_spec(t0),
            t0.le_spec(t1),
        ensures
            Sphere::intersect_spec(d2, radius2, t0, t1) matches Some(d) && d.same_spec(t0),
    {
    }

    /// A ray whose line passes the centre at more than the radius misses.
    pub proof fn misses_beyond_radius(d2: Binary64, radius2: Binary64, t0: Binary64, t1: Binary64)
        requires
            radius2.lt_spec(d2),
        ensures
            Sphere::intersect_spec(d2, radius2, t0, t1) is None,
    {
    }

    /// A ray that starts inside the sphere hits it where it leaves: at the
    /// crossing ahead, never at the one behind.
    pub proof fn leaves_at_far_crossing(d2: Binary64, radius2: Binary64, t0: Binary64, t1: Binary64)
        requires
            d2.le_spec(radius2),
            t0.lt_spec(Binary64::zero_spec()),
            Binary64::zero_spec().le_spec(t1),
        ensures
            Sphere::intersect_spec(d2, radius2, t0, t1) == Some(t1),
    {
    }

    /// A sphere that lies behind the ray's origin altogether is not hit.
    pub proof fn misses_behind(d2: Binary64, radius2: Binary64, t0: Binary64, t1: Binary64)
        requires
            t0.lt_spec(Binary64::zero_spec()),
            t1.lt_spec(Binary64::zero_spec()),
        ensures
            Sphere::intersect_spec(d2, radius2, t0, t1) is None,
    {
    }

    /// No hit lies at a negative distance.
    pub proof fn never_hits_behind(d2: Binary64, radius2: Binary64, t0: Binary64, t1: Binary64)
        ensures
            Sphere::intersect_spec(d2, radius2, t0, t1) matches Some(d) ==> !d.lt_spec(
                Binary64::zero_spec(),
            ),
    {
    }
}

impl Plane {
    /// The distance at which a ray meets a plane. `denom` is the plane's
    /// normal times the ray's direction, `distance` the distance along the
    /// ray to the plane. Only a plane that the ray runs into counts, and
    /// only ahead of the origin.
    pub open spec fn intersect_spec(denom: Binary64, distance: Binary64) -> Option<Binary64> {
        if (Binary64 { bits: PLANE_EPSILON }).lt_spec(denom) && Binary64::zero_spec().le_spec(
            distance,
        ) {
            Some(distance)
        } else {
            None
        }
    }

    /// The distance at which a ray meets a plane, from the terms of the
    /// ray against the plane; none where it misses.
    pub fn intersect(denom: Binary64, distance: Binary64) -> (hit: Option<Binary64>)
        ensures
            hit == Plane::intersect_spec(denom, distance),
    {
        if denom.gt(Binary64::from_bits(PLANE_EPSILON)) && distance.ge(Binary64::zero()) {
            Some(distance)
        } else {
            None
        }
    }

    /// A ray that runs along the plane, or away from it, or that the
    /// plane does not face by more than the threshold, never hits.
    pub proof fn misses_unless_facing(denom: Binary64, distance: Binary64)
        requires
            !(Binary64 { bits: PLANE_EPSILON }).lt_spec(denom),
        ensures
            Plane::intersect_spec(denom, distance) is None,
    {
    }

    /// The normal that the plane shows to the rays that hit it: the
    /// reverse of the one it was given, at every point.
    pub fn surface_normal(&self) -> (n: Vector3)
        ensures
            n == self.normal.neg_spec(),
    {
        self.normal.neg()
    }

    /// The first axis of the plane's texture coordinates: `first`, the
    /// cross product of the normal with the z axis, unless that has no
    /// length, as for a normal along z; then `second`, the cross product
    /// of the normal with the y axis.
    pub open spec fn texture_axis_spec(
        first: Vector3,
        first_length: Binary64,
        second: Vector3,
    ) -> Vector3 {
        if first_length.same_spec(Binary64::zero_spec()) {
            second
        } else {
            first
        }
    }

    /// The first axis of the plane's texture coordinates.
    pub fn texture_axis(first: Vector3, first_length: Binary64, second: Vector3) -> (axis: Vector3)
        ensures
            axis == Plane::texture_axis_spec(first, first_length, second),
    {
        if first_length.same(Binary64::zero()) {
            second
        } else {
            first
        }
    }

    /// Whether `coords` are the texture coordinates of a point of the
    /// plane: what `plane_coords` gives for the point and the first axis,
    /// which is chosen among the candidates that `plane_axes` gives.
    pub open spec fn maps<X: Fn(&Plane) -> PlaneAxes, Y: Fn(&Plane, &Point, Vector3) -> TextureCoords>(
        self,
        hit_point: &Point,
        plane_axes: &X,
        plane_coords: &Y,
        coords: TextureCoords,
    ) -> bool {
        exists|axes: PlaneAxes| #[trigger]
            plane_axes.ensures((&self,), axes) && plane_coords.ensures(
                (
                    &self,
                    hit_point,
                    Plane::texture_axis_spec(axes.first, axes.first_length, axes.second),
                ),
                coords,
            )
    }

    /// The texture coordinates of a point of the plane. `plane_axes`
    /// gives the candidates for the first axis, and `plane_coords` the
    /// coordinates of a point, given the first axis.
    pub fn texture_coords<
        X: Fn(&Plane) -> PlaneAxes,
        Y: Fn(&Plane, &Point, Vector3) -> TextureCoords,
    >(&self, hit_point: &Point, plane_axes: &X, plane_coords: &Y) -> (coords: TextureCoords)
        requires
            forall|plane: &Plane| plane_axes.requires((plane,)),
            forall|plane: &Plane, p: &Point, axis: Vector3| plane_coords.requires((plane, p, axis)),
        ensures
            self.maps(hit_point, plane_axes, plane_coords, coords),
    {
        let axes = (*plane_axes)(self);
        let x_axis = Plane::texture_axis(axes.first, axes.first_length, axes.second);
        (*plane_coords)(self, hit_point, x_axis)
    }
}

impl Element {
    /// Whether `distance` is where a ray meets the element, by the terms
    /// that the formula for the element's shape gives.
    pub open spec fn intersects<
        S: Fn(&Sphere, &Ray) -> SphereTerms,
        P: Fn(&Plane, &Ray) -> PlaneTerms,
    >(self, ray: &Ray, sphere_terms: &S, plane_terms: &P, distance: Option<Binary64>) -> bool {
        match self {
            Element::Sphere(sphere) => exists|terms: SphereTerms| #[trigger]
                sphere_terms.ensures((&sphere, ray), terms) && distance == Sphere::intersect_spec(
                    terms.d2,
                    terms.radius2,
                    terms.t0,
                    terms.t1,
                ),
            Element::Plane(plane) => exists|terms: PlaneTerms| #[trigger]
                plane_terms.ensures((&plane, ray), terms) && distance == Plane::intersect_spec(
                    terms.denom,
                    terms.distance,
                ),
        }
    }

    /// The distance at which a ray meets the element, if it does. The
    /// two formulas give the terms of a ray against a sphere and against
    /// a plane.
    pub fn intersect<S: Fn(&Sphere, &Ray) -> SphereTerms, P: Fn(&Plane, &Ray) -> PlaneTerms>(
        &self,
        ray: &Ray,
        sphere_terms: &S,
        plane_terms: &P,
    ) -> (distance: Option<Binary64>)
        requires
            forall|sphere: &Sphere, r: &Ray| sphere_terms.requires((sphere, r)),
            forall|plane: &Plane, r: &Ray| plane_terms.requires((plane, r)),
        ensures
            self.intersects(ray, sphere_terms, plane_terms, distance),
    {
        match self {
            Element::Sphere(sphere) => {
                let terms = (*sphere_terms)(sphere, ray);
                Sphere::intersect(terms.d2, terms.radius2, terms.t0, terms.t1)
            },
            Element::Plane(plane) => {
                let terms = (*plane_terms)(plane, ray);
                Plane::intersect(terms.denom, terms.distance)
            },
        }
    }

    /// Whether `normal` is the surface normal at a point of the element:
    /// for a sphere what `radial` gives, for a plane the reverse of the
    /// normal it was given.
    pub open spec fn shows_normal<N: Fn(&Sphere, &Point) -> Vector3>(
        self,
        hit_point: &Point,
        radial: &N,
        normal: Vector3,
    ) -> bool {
        match self {
            Element::Sphere(sphere) => radial.ensures((&sphere, hit_point), normal),
            Element::Plane(plane) => normal == plane.normal.neg_spec(),
        }
    }

    /// The surface normal at a point of the element. `radial` gives the
    /// unit vector from the centre of a sphere to a point.
    pub fn surface_normal<N: Fn(&Sphere, &Point) -> Vector3>(&self, hit_point: &Point, radial: &N) -> (normal:
        Vector3)
        requires
            forall|sphere: &Sphere, p: &Point| radial.requires((sphere, p)),
        ensures
            self.shows_normal(hit_point, radial, normal),
    {
        match self {
            Element::Sphere(sphere) => (*radial)(sphere, hit_point),
            Element::Plane(plane) => plane.surface_normal(),
        }
    }

    /// Whether `coords` are the texture coordinates of a point of the
    /// element, by the formulas for the element's shape.
    pub open spec fn maps<
        K: Fn(&Sphere, &Point) -> TextureCoords,
        X: Fn(&Plane) -> PlaneAxes,
        Y: Fn(&Plane, &Point, Vector3) -> TextureCoords,
    >(
        self,
        hit_point: &Point,
        sphere_coords: &K,
        plane_axes: &X,
        plane_coords: &Y,
        coords: TextureCoords,
    ) -> bool {
        match self {
            Element::Sphere(sphere) => sphere_coords.ensures((&sphere, hit_point), coords),
            Element::Plane(plane) => plane.maps(hit_point, plane_axes, plane_coords, coords),
        }
    }

    /// The texture coordinates of a point of the element.
    pub fn texture_coords<
        K: Fn(&Sphere, &Point) -> TextureCoords,
        X: Fn(&Plane) -> PlaneAxes,
        Y: Fn(&Plane, &Point, Vector3) -> TextureCoords,
    >(&self, hit_point: &Point, sphere_coords: &K, plane_axes: &X, plane_coords: &Y) -> (coords:
        TextureCoords)
        requires
            forall|sphere: &Sphere, p: &Point| sphere_coords.requires((sphere, p)),
            forall|plane: &Plane| plane_axes.requires((plane,)),
            forall|plane: &Plane, p: &Point, axis: Vector3| plane_coords.requires((plane, p, axis)),
        ensures
            self.maps(hit_point, sphere_coords, plane_axes, plane_coords, coords),
    {
        match self {
            Element::Sphere(sphere) => (*sphere_coords)(sphere, hit_point),
            Element::Plane(plane) => plane.texture_coords(hit_point, plane_axes, plane_coords),
        }
    }
}

/// The media on the two sides of a refractive surface, for the share of
/// light that it reflects. `i_dot_n` is the ray's direction times the
/// surface normal. A ray that leaves the body, with `i_dot_n` above zero,
/// goes from the body's index to index 1; any other goes from index 1
/// into the body.
pub open spec fn fresnel_media_spec(i_dot_n: Binary64, index: Binary64) -> Media {
    if Binary64::zero_spec().lt_spec(i_dot_n) {
        Media { eta_i: index, eta_t: Binary64::one_spec() }
    } else {
        Media { eta_i: Binary64::one_spec(), eta_t: index }
    }
}

/// The media on the two sides of a refractive surface as a ray meets it.
pub fn fresnel_media(i_dot_n: Binary64, index: Binary64) -> (media: Media)
    ensures
        media == fresnel_media_spec(i_dot_n, index),
{
    if i_dot_n.gt(Binary64::zero()) {
        Media { eta_i: index, eta_t: Binary64::one() }
    } else {
        Media { eta_i: Binary64::one(), eta_t: index }
    }
}

/// The share of light that a refractive surface reflects. `sin_t` is the
/// sine of the angle of refraction that Snell's law asks for, and
/// `reflectance` the share that the Fresnel equations give for it. Where
/// the sine would have to exceed 1 nothing is refracted, and all the light
/// is reflected.
pub open spec fn fresnel_spec(sin_t: Binary64, reflectance: Binary64) -> Binary64 {
    if Binary64::one_spec().lt_spec(sin_t) {
        Binary64::one_spec()
    } else {
        reflectance
    }
}

/// The share of light that a refractive surface reflects.
pub fn fresnel(sin_t: Binary64, reflectance: Binary64) -> (kr: Binary64)
    ensures
        kr == fresnel_spec(sin_t, reflectance),
{
    if sin_t.gt(Binary64::one()) {
        Binary64::one()
    } else {
        reflectance
    }
}

/// Whether a refractive surface lets light through: it does unless it
/// reflects all of it.
pub fn transmits(kr: Binary32) -> (through: bool)
    ensures
        through == kr.lt_spec(Binary32::one_spec()),
{
    kr.lt(Binary32::one())
}

/// The arithmetic of light transport, which the caller brings: each
/// field is one formula, free of decisions. The library casts the rays,
/// makes the decisions, and asks for a formula where it needs a number.
pub struct Optics<S, P, A, N, K, X, Y, Z, D, O, W, V, U, Q, L, R, I, H, F, J, T, M, G, C, E> {
    /// The terms of a ray against a sphere.
    pub sphere_terms: S,
    /// The terms of a ray against a plane.
    pub plane_terms: P,
    /// The point that lies at a distance along a ray.
    pub advance: A,
    /// The unit vector from the centre of a sphere to a point.
    pub radial: N,
    /// The texture coordinates of a point of a sphere.
    pub sphere_coords: K,
    /// The candidates for the first axis of a plane's texture coordinates.
    pub plane_axes: X,
    /// The texture coordinates of a point of a plane, given the first
    /// axis.
    pub plane_coords: Y,
    /// Texture coordinates taken from the unit square to the pixels of a
    /// texture of a width and a height.
    pub scale_coords: Z,
    /// The transfer curve from a stored channel to linear light.
    pub decode: D,
    /// A point moved along a normal by the shadow bias.
    pub offset: O,
    /// The unit vector from a point to the position of a spherical light.
    pub toward: W,
    /// The way from a point to the position of a spherical light.
    pub separate: V,
    /// The strength of a spherical light after its falloff over the way
    /// to a point.
    pub attenuate: U,
    /// The cosine of the angle between the normal at a hit and the
    /// direction to a light.
    pub cosine: Q,
    /// The light gathered at a hit so far, with what one more light adds:
    /// the light's colour, the surface's albedo, how far the surface
    /// faces the light, the strength that arrives, the surface colour,
    /// and the sum so far.
    pub lambert: L,
    /// The mirrored ray at a hit, given the shadow bias.
    pub reflect: R,
    /// The direction of a ray times the normal at a hit.
    pub incidence: I,
    /// A single precision number in double precision.
    pub widen: H,
    /// The terms of the share of light reflected, from the incidence and
    /// the media on the two sides.
    pub fresnel_terms: F,
    /// A double precision number in single precision.
    pub narrow: J,
    /// The terms of the refracted ray at a hit, given how the ray crosses
    /// the surface and the shadow bias.
    pub refraction: T,
    /// The blend of a mirror: the diffuse colour and the reflected one,
    /// by the reflectivity.
    pub mirror: M,
    /// The blend of glass: the reflected and the refracted colour, by
    /// the share reflected, tinted by the transparency and the surface
    /// colour.
    pub glass: G,
    /// The direction from the camera through a pixel of the picture.
    pub camera: C,
    /// The transfer curve from linear light to the scale of stored
    /// pixels.
    pub encode: E,
}

impl<S, P, A, N, K, X, Y, Z, D, O, W, V, U, Q, L, R, I, H, F, J, T, M, G, C, E> Optics<
    S,
    P,
    A,
    N,
    K,
    X,
    Y,
    Z,
    D,
    O,
    W,
    V,
    U,
    Q,
    L,
    R,
    I,
    H,
    F,
    J,
    T,
    M,
    G,
    C,
    E,
> where
    S: Fn(&Sphere, &Ray) -> SphereTerms,
    P: Fn(&Plane, &Ray) -> PlaneTerms,
    A: Fn(&Ray, Binary64) -> Point,
    N: Fn(&Sphere, &Point) -> Vector3,
    K: Fn(&Sphere, &Point) -> TextureCoords,
    X: Fn(&Plane) -> PlaneAxes,
    Y: Fn(&Plane, &Point, Vector3) -> TextureCoords,
    Z: Fn(TextureCoords, u32, u32) -> TextureCoords,
    D: Fn(u8) -> Binary32,
    O: Fn(&Point, &Vector3, Binary64) -> Point,
    W: Fn(&SphericalLight, &Point) -> Vector3,
    V: Fn(&SphericalLight, &Point) -> Binary64,
    U: Fn(&SphericalLight, &Point) -> Binary32,
    Q: Fn(Vector3, Vector3) -> Binary32,
    L: Fn(Color, Binary32, Binary32, Binary32, Color, Color) -> Color,
    R: Fn(&Ray, &Hit, Binary64) -> Ray,
    I: Fn(&Ray, &Hit) -> Binary64,
    H: Fn(Binary32) -> Binary64,
    F: Fn(Binary64, Media) -> FresnelTerms,
    J: Fn(Binary64) -> Binary32,
    T: Fn(&Ray, &Hit, Crossing, Binary64) -> Refraction,
    M: Fn(Color, Color, Binary32) -> Color,
    G: Fn(Color, Color, Binary32, Binary32, Color) -> Color,
    C: Fn(u32, u32, &Scene) -> Vector3,
    E: Fn(Binary32) -> Binary32,
 {
    /// Whether every formula takes every input, and the camera every
    /// pixel of a picture that is as wide as it is high or wider.
    pub open spec fn ready(&self) -> bool {
        &&& forall|sphere: &Sphere, r: &Ray| #[trigger] self.sphere_terms.requires((sphere, r))
        &&& forall|plane: &Plane, r: &Ray| #[trigger] self.plane_terms.requires((plane, r))
        &&& forall|r: &Ray, d: Binary64| #[trigger] self.advance.requires((r, d))
        &&& forall|sphere: &Sphere, p: &Point| #[trigger] self.radial.requires((sphere, p))
        &&& forall|sphere: &Sphere, p: &Point| #[trigger] self.sphere_coords.requires((sphere, p))
        &&& forall|plane: &Plane| #[trigger] self.plane_axes.requires((plane,))
        &&& forall|plane: &Plane, p: &Point, axis: Vector3| #[trigger]
            self.plane_coords.requires((plane, p, axis))
        &&& forall|c: TextureCoords, w: u32, h: u32| #[trigger] self.scale_coords.requires((c, w, h))
        &&& forall|channel: u8| #[trigger] self.decode.requires((channel,))
        &&& forall|p: &Point, n: &Vector3, bias: Binary64| #[trigger]
            self.offset.requires((p, n, bias))
        &&& forall|lamp: &SphericalLight, p: &Point| #[trigger] self.toward.requires((lamp, p))
        &&& forall|lamp: &SphericalLight, p: &Point| #[trigger] self.separate.requires((lamp, p))
        &&& forall|lamp: &SphericalLight, p: &Point| #[trigger] self.attenuate.requires((lamp, p))
        &&& forall|normal: Vector3, direction: Vector3| #[trigger]
            self.cosine.requires((normal, direction))
        &&& forall|
            light: Color,
            albedo: Binary32,
            facing: Binary32,
            received: Binary32,
            surface: Color,
            sum: Color,
        | #[trigger]
            self.lambert.requires((light, albedo, facing, received, surface, sum))
        &&& forall|r: &Ray, h: &Hit, bias: Binary64| #[trigger] self.reflect.requires((r, h, bias))
        &&& forall|r: &Ray, h: &Hit| #[trigger] self.incidence.requires((r, h))
        &&& forall|x: Binary32| #[trigger] self.widen.requires((x,))
        &&& forall|i_dot_n: Binary64, media: Media| #[trigger]
            self.fresnel_terms.requires((i_dot_n, media))
        &&& forall|x: Binary64| #[trigger] self.narrow.requires((x,))
        &&& forall|r: &Ray, h: &Hit, crossing: Crossing, bias: Binary64| #[trigger]
            self.refraction.requires((r, h, crossing, bias))
        &&& forall|base: Color, reflected: Color, reflectivity: Binary32| #[trigger]
            self.mirror.requires((base, reflected, reflectivity))
        &&& forall|
            reflected: Color,
            refracted: Color,
            kr: Binary32,
            transparency: Binary32,
            surface: Color,
        | #[trigger]
            self.glass.requires((reflected, refracted, kr, transparency, surface))
        &&& forall|x: u32, y: u32, s: &Scene|
            s.width >= s.height ==> #[trigger] self.camera.requires((x, y, s))
        &&& forall|channel: Binary32| #[trigger] self.encode.requires((channel,))
    }

    /// Whether `hit` is the place at a distance along a ray where it met
    /// an element, with the element's normal there.
    pub open spec fn locates(&self, ray: &Ray, element: &Element, distance: Binary64, hit: Hit) -> bool {
        self.advance.ensures((ray, distance), hit.point) && element.shows_normal(
            &hit.point,
            &self.radial,
            hit.normal,
        )
    }

    /// Whether `surface` is the surface colour at a hit, where `coords`
    /// are the texture coordinates of the hit and `found` is what the
    /// element's coloration has there: black where it has nothing.
    pub open spec fn tints(
        &self,
        element: &Element,
        hit: &Hit,
        coords: TextureCoords,
        found: Option<Color>,
        surface: Color,
    ) -> bool {
        &&& element.maps(
            &hit.point,
            &self.sphere_coords,
            &self.plane_axes,
            &self.plane_coords,
            coords,
        )
        &&& element.material_spec().coloration.colors_at(
            &coords,
            &self.scale_coords,
            &self.decode,
            found,
        )
        &&& surface == match found {
            Some(c) => c,
            None => Color::black_spec(),
        }
    }

    /// Whether `surface` is the surface colour of an element at a hit.
    pub open spec fn surface_colors(&self, element: &Element, hit: &Hit, surface: Color) -> bool {
        exists|coords: TextureCoords, found: Option<Color>| #[trigger]
            self.tints(element, hit, coords, found, surface)
    }

    /// Whether `received` is the strength with which a light shines on a
    /// hit, where `shadow` is what the ray from the hit toward the light
    /// hits first: the light's strength there, unless that is as near as
    /// the light or nearer, which hides the light.
    pub open spec fn receives(
        &self,
        light: Light,
        hit: &Hit,
        shadow: Option<Intersection>,
        received: Binary32,
    ) -> bool {
        match shadow {
            None => light.shines(&hit.point, &self.attenuate, received),
            Some(found) => exists|reach: Binary64| #[trigger]
                light.lies_at(&hit.point, &self.separate, reach) && if reach.lt_spec(
                    found.distance_spec(),
                ) {
                    light.shines(&hit.point, &self.attenuate, received)
                } else {
                    received == Binary32::zero_spec()
                },
        }
    }

    /// Whether `sum` is `before` with what a light of the scene adds at
    /// a hit: `direction` leads to the light, the ray toward it starts
    /// at `origin` and hits `shadow` first, `received` is the strength
    /// that arrives, and `slant` the cosine of the angle at which it
    /// arrives. A surface that faces away from the light, with a cosine
    /// below zero, counts as facing it not at all.
    pub open spec fn adds_light(
        &self,
        scene: &Scene,
        element: &Element,
        hit: &Hit,
        surface: Color,
        light: Light,
        before: Color,
        direction: Vector3,
        origin: Point,
        shadow: Option<Intersection>,
        received: Binary32,
        slant: Binary32,
        sum: Color,
    ) -> bool {
        &&& light.directs(&hit.point, &self.toward, direction)
        &&& self.offset.ensures((&hit.point, &hit.normal, scene.shadow_bias), origin)
        &&& scene.traces(&Ray { origin, direction }, &self.sphere_terms, &self.plane_terms, shadow)
        &&& self.receives(light, hit, shadow, received)
        &&& self.cosine.ensures((hit.normal, direction), slant)
        &&& self.lambert.ensures(
            (
                light.color_spec(),
                element.material_spec().albedo,
                slant.max_spec(Binary32::zero_spec()),
                received,
                surface,
                before,
            ),
            sum,
        )
    }

    /// Whether `sum` is the light that the first `lights` lights of the
    /// scene leave at a hit: nothing for no light, and for each further
    /// light the sum before with what that light adds.
    pub open spec fn lit_by(
        &self,
        scene: &Scene,
        element: &Element,
        hit: &Hit,
        surface: Color,
        lights: int,
        sum: Color,
    ) -> bool
        decreases lights,
    {
        if lights <= 0 {
            sum == Color::black_spec()
        } else {
            exists|
                before: Color,
                direction: Vector3,
                origin: Point,
                shadow: Option<Intersection>,
                received: Binary32,
                slant: Binary32,
            |
                self.lit_by(scene, element, hit, surface, lights - 1, before)
                    && #[trigger] self.adds_light(
                    scene,
                    element,
                    hit,
                    surface,
                    scene.lights[lights - 1],
                    before,
                    direction,
                    origin,
                    shadow,
                    received,
                    slant,
                    sum,
                )
        }
    }

    /// Whether `sum` is the light that all the lights of the scene leave
    /// at a hit of the surface colour `surface`.
    pub open spec fn gathers(
        &self,
        scene: &Scene,
        element: &Element,
        hit: &Hit,
        surface: Color,
        sum: Color,
    ) -> bool {
        self.surface_colors(element, hit, surface) && self.lit_by(
            scene,
            element,
            hit,
            surface,
            scene.lights.len() as int,
            sum,
        )
    }

    /// Whether `color` is the diffuse shading of a hit: the light that
    /// all the lights of the scene leave there, clamped.
    pub open spec fn shades_diffuse(
        &self,
        scene: &Scene,
        element: &Element,
        hit: &Hit,
        color: Color,
    ) -> bool {
        exists|surface: Color, sum: Color| #[trigger]
            self.gathers(scene, element, hit, surface, sum) && color == sum.clamp_spec()
    }

    /// Whether `kr` is the share of light that a surface of a refractive
    /// index reflects at a hit, where `i_dot_n` is the incidence of the
    /// ray, `wide` the index in double precision, and `terms` the terms
    /// of the Fresnel equations for the media on the two sides.
    pub open spec fn weighs(
        &self,
        ray: &Ray,
        hit: &Hit,
        index: Binary32,
        i_dot_n: Binary64,
        wide: Binary64,
        terms: FresnelTerms,
        kr: Binary32,
    ) -> bool {
        &&& self.incidence.ensures((ray, hit), i_dot_n)
        &&& self.widen.ensures((index,), wide)
        &&& self.fresnel_terms.ensures((i_dot_n, fresnel_media_spec(i_dot_n, wide)), terms)
        &&& self.narrow.ensures((fresnel_spec(terms.sin_t, terms.reflectance),), kr)
    }

    /// Whether `kr` is the share of light that a surface of a refractive
    /// index reflects at a hit.
    pub open spec fn reflects_share(&self, ray: &Ray, hit: &Hit, index: Binary32, kr: Binary32) -> bool {
        exists|i_dot_n: Binary64, wide: Binary64, terms: FresnelTerms| #[trigger]
            self.weighs(ray, hit, index, i_dot_n, wide, terms, kr)
    }

    /// Whether `through` is the refracted ray at a hit of a surface of a
    /// refractive index, if there is one, where `i_dot_n` is the
    /// incidence of the ray, `wide` the index in double precision, and
    /// `parts` the terms of the refracted ray for the surface turned to
    /// face the ray.
    pub open spec fn bends(
        &self,
        scene: &Scene,
        ray: &Ray,
        hit: &Hit,
        index: Binary32,
        i_dot_n: Binary64,
        wide: Binary64,
        parts: Refraction,
        through: Option<Ray>,
    ) -> bool {
        &&& self.incidence.ensures((ray, hit), i_dot_n)
        &&& self.widen.ensures((index,), wide)
        &&& self.refraction.ensures(
            (ray, hit, Ray::crossing_spec(hit.normal, i_dot_n, wide), scene.shadow_bias),
            parts,
        )
        &&& through == Ray::transmission_spec(parts.k, parts.origin, parts.direction)
    }

    /// Whether `color` is what `mirror` blends at a hit of the diffuse
    /// shading `base` and of `reflected`, the light along the mirrored
    /// ray.
    pub open spec fn mirrors(
        &self,
        scene: &Scene,
        ray: &Ray,
        element: &Element,
        hit: &Hit,
        reflectivity: Binary32,
        base: Color,
        mirrored: Ray,
        reflected: Color,
        color: Color,
    ) -> bool {
        &&& self.shades_diffuse(scene, element, hit, base)
        &&& self.reflect.ensures((ray, hit, scene.shadow_bias), mirrored)
        &&& self.mirror.ensures((base, reflected, reflectivity), color)
    }

    /// Whether `color` is what `glass` blends at a hit of `reflected`, the
    /// light along the mirrored ray, and `refracted`, the light that
    /// passes, where `kr` is the share of light reflected and `surface`
    /// the surface colour.
    pub open spec fn glazes(
        &self,
        scene: &Scene,
        ray: &Ray,
        element: &Element,
        hit: &Hit,
        index: Binary32,
        transparency: Binary32,
        kr: Binary32,
        surface: Color,
        refracted: Color,
        mirrored: Ray,
        reflected: Color,
        color: Color,
    ) -> bool {
        &&& self.reflects_share(ray, hit, index, kr)
        &&& self.surface_colors(element, hit, surface)
        &&& self.reflect.ensures((ray, hit, scene.shadow_bias), mirrored)
        &&& self.glass.ensures((reflected, refracted, kr, transparency, surface), color)
    }

    /// Whether `color` is what a ray cast at `depth` brings back. At the
    /// recursion limit that is nothing, and nothing as well where the ray
    /// hits nothing. Else it is the colour of the nearest hit.
    pub open spec fn casts(&self, scene: &Scene, ray: &Ray, depth: u32, color: Color) -> bool
        decreases scene.max_recursion_depth - depth, 2int,
    {
        if depth >= scene.max_recursion_depth {
            color == Color::black_spec()
        } else {
            exists|hit: Option<Intersection>| #[trigger]
                scene.traces(ray, &self.sphere_terms, &self.plane_terms, hit) && match hit {
                    None => color == Color::black_spec(),
                    Some(found) => self.colors(
                        scene,
                        ray,
                        &found.element_spec(),
                        found.distance_spec(),
                        depth,
                        color,
                    ),
                }
        }
    }

    /// Whether `color` is the colour of a hit on an element at a distance
    /// along a ray that was cast at `depth`. A diffuse surface has its
    /// diffuse shading. A reflective one has what `mirror` blends of its
    /// diffuse shading and of what the mirrored ray brings back. A
    /// refractive one has what `glass` blends of what the mirrored and
    /// the refracted ray bring back. Both rays are cast one level deeper.
    pub open spec fn colors(
        &self,
        scene: &Scene,
        ray: &Ray,
        element: &Element,
        distance: Binary64,
        depth: u32,
        color: Color,
    ) -> bool
        decreases scene.max_recursion_depth - depth, 1int,
    {
        depth < scene.max_recursion_depth && exists|hit: Hit| #[trigger]
            self.locates(ray, element, distance, hit) && match element.material_spec().surface {
                SurfaceType::Diffuse => self.shades_diffuse(scene, element, &hit, color),
                SurfaceType::Reflective { reflectivity } => exists|
                    base: Color,
                    mirrored: Ray,
                    reflected: Color,
                |
                    #[trigger] self.mirrors(
                        scene,
                        ray,
                        element,
                        &hit,
                        reflectivity,
                        base,
                        mirrored,
                        reflected,
                        color,
                    ) && self.casts(scene, &mirrored, (depth + 1) as u32, reflected),
                SurfaceType::Refractive { index, transparency } => exists|
                    kr: Binary32,
                    surface: Color,
                    refracted: Color,
                    mirrored: Ray,
                    reflected: Color,
                |
                    #[trigger] self.glazes(
                        scene,
                        ray,
                        element,
                        &hit,
                        index,
                        transparency,
                        kr,
                        surface,
                        refracted,
                        mirrored,
                        reflected,
                        color,
                    ) && self.refracts(scene, ray, &hit, index, kr, depth, refracted) && self.casts(
                        scene,
                        &mirrored,
                        (depth + 1) as u32,
                        reflected,
                    ),
            }
    }

    /// Whether `color` is the light that passes through a refractive
    /// surface of which the share `kr` is reflected: what the refracted
    /// ray brings back, cast one level deeper, and nothing where all is
    /// reflected or no ray passes.
    pub open spec fn refracts(
        &self,
        scene: &Scene,
        ray: &Ray,
        hit: &Hit,
        index: Binary32,
        kr: Binary32,
        depth: u32,
        color: Color,
    ) -> bool
        decreases scene.max_recursion_depth - depth, 0int,
    {
        if depth < scene.max_recursion_depth && kr.lt_spec(Binary32::one_spec()) {
            exists|i_dot_n: Binary64, wide: Binary64, parts: Refraction, through: Option<Ray>| #[trigger]
                self.bends(scene, ray, hit, index, i_dot_n, wide, parts, through) && match through {
                    Some(passed) => self.casts(scene, &passed, (depth + 1) as u32, color),
                    None => color == Color::black_spec(),
                }
        } else {
            color == Color::black_spec()
        }
    }

    /// The surface colour of an element at a hit: what its coloration has
    /// at the texture coordinates of the hit, and black where that is
    /// nothing, as for a texture without pixels.
    pub fn surface_color(&self, element: &Element, hit: &Hit) -> (surface: Color)
        requires
            self.ready(),
        ensures
            self.surface_colors(element, hit, surface),
    {
        let coords = element.texture_coords(
            &hit.point,
            &self.sphere_coords,
            &self.plane_axes,
            &self.plane_coords,
        );
        let found = element.material().coloration.color(&coords, &self.scale_coords, &self.decode);
        let surface = match found {
            Some(c) => c,
            None => Color::black(),
        };
        assert(self.tints(element, hit, coords, found, surface));
        surface
    }

    /// The strength with which a light shines on a hit, given what the
    /// ray from the hit toward the light hits first.
    pub fn received(&self, light: &Light, hit: &Hit, shadow: &Option<Intersection>) -> (received:
        Binary32)
        requires
            self.ready(),
        ensures
            self.receives(*light, hit, *shadow, received),
    {
        let in_light = match shadow {
            None => true,
            Some(found) => found.distance().gt(light.distance(&hit.point, &self.separate)),
        };
        if in_light {
            light.intensity(&hit.point, &self.attenuate)
        } else {
            Binary32::zero()
        }
    }

    /// The diffuse shading of a hit: the light of every light of the
    /// scene that reaches it, summed and clamped.
    pub fn shade_diffuse(&self, scene: &Scene, element: &Element, hit: &Hit) -> (color: Color)
        requires
            self.ready(),
        ensures
            self.shades_diffuse(scene, element, hit, color),
            color.in_gamut(),
    {
        let surface = self.surface_color(element, hit);
        let albedo = element.material().albedo;
        let mut sum = Color::black();
        let mut k: usize = 0;
        while k < scene.lights.len()
            invariant
                0 <= k <= scene.lights.len(),
                self.ready(),
                albedo == element.material_spec().albedo,
                self.lit_by(scene, element, hit, surface, k as int, sum),
            decreases scene.lights.len() - k,
        {
            let light = &scene.lights[k];
            let direction = light.direction_from(&hit.point, &self.toward);
            let origin = (self.offset)(&hit.point, &hit.normal, scene.shadow_bias);
            let shadow_ray = Ray { origin, direction };
            let shadow = scene.trace(&shadow_ray, &self.sphere_terms, &self.plane_terms);
            let received = self.received(light, hit, &shadow);
            let slant = (self.cosine)(hit.normal, direction);
            let facing = slant.max(Binary32::zero());
            let ghost before = sum;
            sum = (self.lambert)(light.color(), albedo, facing, received, surface, sum);
            proof {
                assert(self.adds_light(
                    scene,
                    element,
                    hit,
                    surface,
                    scene.lights[k as int],
                    before,
                    direction,
                    origin,
                    shadow,
                    received,
                    slant,
                    sum,
                ));
                // Light number k is the last of the first k + 1 lights.
                assert(scene.lights[k + 1 - 1] == scene.lights[k as int]);
            }
            k = k + 1;
        }
        assert(self.gathers(scene, element, hit, surface, sum));
        sum.clamp()
    }

    /// The share of light that a surface of a refractive index reflects
    /// at a hit.
    pub fn reflectance(&self, ray: &Ray, hit: &Hit, index: Binary32) -> (kr: Binary32)
        requires
            self.ready(),
        ensures
            self.reflects_share(ray, hit, index, kr),
    {
        let i_dot_n = (self.incidence)(ray, hit);
        let wide = (self.widen)(index);
        let media = fresnel_media(i_dot_n, wide);
        let terms = (self.fresnel_terms)(i_dot_n, media);
        let kr = (self.narrow)(fresnel(terms.sin_t, terms.reflectance));
        assert(self.weighs(ray, hit, index, i_dot_n, wide, terms, kr));
        kr
    }

    /// The colour of the hit of a ray that was cast at `depth`.
    pub fn get_color(&self, scene: &Scene, ray: &Ray, intersection: &Intersection, depth: u32) -> (color:
        Color)
        requires
            self.ready(),
            depth < scene.max_recursion_depth,
        ensures
            self.colors(
                scene,
                ray,
                &intersection.element_spec(),
                intersection.distance_spec(),
                depth,
                color,
            ),
        decreases scene.max_recursion_depth - depth, 0int,
    {
        let element = intersection.element();
        let point = (self.advance)(ray, intersection.distance());
        let normal = element.surface_normal(&point, &self.radial);
        let hit = Hit { point, normal };
        assert(self.locates(ray, element, intersection.distance_spec(), hit));
        match element.material().surface {
            SurfaceType::Diffuse => self.shade_diffuse(scene, element, &hit),
            SurfaceType::Reflective { reflectivity } => {
                let base = self.shade_diffuse(scene, element, &hit);
                let mirrored = (self.reflect)(ray, &hit, scene.shadow_bias);
                let reflected = self.cast_ray(scene, &mirrored, depth + 1);
                let color = (self.mirror)(base, reflected, reflectivity);
                assert(self.mirrors(
                    scene,
                    ray,
                    element,
                    &hit,
                    reflectivity,
                    base,
                    mirrored,
                    reflected,
                    color,
                ));
                color
            },
            SurfaceType::Refractive { index, transparency } => {
                let kr = self.reflectance(ray, &hit, index);
                let surface = self.surface_color(element, &hit);
                let mut refracted = Color::black();
                if transmits(kr) {
                    let i_dot_n = (self.incidence)(ray, &hit);
                    let wide = (self.widen)(index);
                    let crossing = Ray::crossing(hit.normal, i_dot_n, wide);
                    let parts = (self.refraction)(ray, &hit, crossing, scene.shadow_bias);
                    let through = Ray::create_transmission(parts.k, parts.origin, parts.direction);
                    match through {
                        Some(passed) => {
                            refracted = self.cast_ray(scene, &passed, depth + 1);
                        },
                        None => {},
                    }
                    assert(self.bends(scene, ray, &hit, index, i_dot_n, wide, parts, through));
                }
                let mirrored = (self.reflect)(ray, &hit, scene.shadow_bias);
                let reflected = self.cast_ray(scene, &mirrored, depth + 1);
                let color = (self.glass)(reflected, refracted, kr, transparency, surface);
                assert(self.glazes(
                    scene,
                    ray,
                    element,
                    &hit,
                    index,
                    transparency,
                    kr,
                    surface,
                    refracted,
                    mirrored,
                    reflected,
                    color,
                ));
                color
            },
        }
    }

    /// What a ray cast at `depth` brings back: the colour of its nearest
    /// hit, and black where it hits nothing or `depth` has reached the
    /// recursion limit.
    pub fn cast_ray(&self, scene: &Scene, ray: &Ray, depth: u32) -> (color: Color)
        requires
            self.ready(),
        ensures
            self.casts(scene, ray, depth, color),
        decreases scene.max_recursion_depth - depth, 1int,
    {
        if depth >= scene.max_recursion_depth {
            return Color::black();
        }
        let hit = scene.trace(ray, &self.sphere_terms, &self.plane_terms);
        match &hit {
            Some(found) => self.get_color(scene, ray, found, depth),
            None => Color::black(),
        }
    }

    /// Whether `pixel` is the colour `color` as a stored pixel, and
    /// `direction` the direction from the camera through the pixel at
    /// column `x`, row `y`.
    pub open spec fn develops(
        &self,
        scene: &Scene,
        x: u32,
        y: u32,
        direction: Vector3,
        color: Color,
        pixel: Rgba8,
    ) -> bool {
        self.camera.ensures((x, y, scene), direction) && color.encoded(&self.encode, pixel)
    }

    /// Whether `pixel` is the stored pixel at column `x`, row `y` of the
    /// scene's picture: what the ray from the camera through the pixel
    /// brings back, cast at depth 0, encoded and fully opaque.
    pub open spec fn pictures(&self, scene: &Scene, x: u32, y: u32, pixel: Rgba8) -> bool {
        exists|direction: Vector3, color: Color| #[trigger]
            self.develops(scene, x, y, direction, color, pixel) && self.casts(
                scene,
                &Ray { origin: Point::zero_spec(), direction },
                0,
                color,
            )
    }

    /// The stored pixel at column `x`, row `y` of the scene's picture.
    /// The picture is as wide as it is high, or wider.
    pub fn pixel(&self, scene: &Scene, x: u32, y: u32) -> (pixel: Rgba8)
        requires
            self.ready(),
            scene.width >= scene.height,
        ensures
            self.pictures(scene, x, y, pixel),
    {
        let direction = (self.camera)(x, y, scene);
        let ray = Ray::create_prime(scene, direction);
        let color = self.cast_ray(scene, &ray, 0);
        let pixel = color.to_rgba(&self.encode);
        assert(self.develops(scene, x, y, direction, color, pixel));
        pixel
    }

    /// Renders a block of the scene's picture into a new raster of the
    /// block's size, which stores red, green and blue: row 0 is the top
    /// row, and every pixel is the stored pixel of its place in the
    /// picture. The picture is as wide as it is high, or wider.
    pub fn render(&self, block: &ViewBlock, scene: &Scene) -> (image: DynamicImage)
        requires
            self.ready(),
            scene.width >= scene.height,
            block.addressable(),
            3 * block.width * block.height <= isize::MAX,
        ensures
            image_width(image) == block.width,
            image_height(image) == block.height,
            image_is_rgb8(image),
            forall|x: int, y: int|
                in_image(image, x, y) ==> self.pictures(
                    scene,
                    (block.x + x) as u32,
                    (block.y + y) as u32,
                    #[trigger] image_pixels(image)[(x, y)],
                ),
    {
        let shade = |x: u32, y: u32, s: &Scene| -> (p: Rgba8)
            requires
                self.ready(),
                s.width >= s.height,
            ensures
                self.pictures(s, x, y, p),
            { self.pixel(s, x, y) };
        let image = render(block, scene, shade);
        image
    }

    /// Renders a block of the scene's picture into a buffer of the
    /// caller's, four bytes for each pixel, the rows one after the other,
    /// top row first. A buffer of another length than that is refused and
    /// left as it was. The picture is as wide as it is high, or wider.
    pub fn render_into(&self, block: &ViewBlock, scene: &Scene, buffer: &mut Vec<u8>) -> (done:
        Result<(), RenderError>)
        requires
            self.ready(),
            scene.width >= scene.height,
            block.addressable(),
        ensures
            old(buffer).len() != 4 * (block.width * block.height) ==> done == Err::<
                (),
                RenderError,
            >(RenderError::BufferLength) && final(buffer)@ == old(buffer)@,
            old(buffer).len() == 4 * (block.width * block.height) ==> done is Ok
                && final(buffer).len() == old(buffer).len() && forall|x: int, y: int|
                0 <= x < block.width && 0 <= y < block.height ==> self.pictures(
                    scene,
                    (block.x + x) as u32,
                    (block.y + y) as u32,
                    #[trigger] pixel_at(final(buffer)@, block.width as int, x, y),
                ),
    {
        let shade = |x: u32, y: u32, s: &Scene| -> (p: Rgba8)
            requires
                self.ready(),
                s.width >= s.height,
            ensures
                self.pictures(s, x, y, p),
            { self.pixel(s, x, y) };
        let done = render_into(block, scene, shade, buffer);
        done
    }

    /// At the recursion limit, and beyond it, a cast ray brings back
    /// nothing.
    pub proof fn nothing_beyond_the_limit(&self, scene: &Scene, ray: &Ray, depth: u32, color: Color)
        requires
            depth >= scene.max_recursion_depth,
            self.casts(scene, ray, depth, color),
        ensures
            color == Color::black_spec(),
    {
    }

    /// With a recursion limit of zero every cast ray brings back nothing,
    /// whatever lies in its way.
    pub proof fn no_depth_no_light(&self, scene: &Scene, ray: &Ray, depth: u32, color: Color)
        requires
            scene.max_recursion_depth == 0,
            self.casts(scene, ray, depth, color),
        ensures
            color == Color::black_spec(),
    {
    }

    /// A ray that meets no element of the scene brings back nothing.
    pub proof fn a_miss_brings_nothing(&self, scene: &Scene, ray: &Ray, depth: u32, color: Color)
        requires
            self.casts(scene, ray, depth, color),
            forall|i: int, distance: Option<Binary64>|
                0 <= i < scene.elements.len() && #[trigger] scene.elements[i].intersects(
                    ray,
                    &self.sphere_terms,
                    &self.plane_terms,
                    distance,
                ) ==> !is_hit(distance),
        ensures
            color == Color::black_spec(),
    {
        if depth < scene.max_recursion_depth {
            let hit = choose|hit: Option<Intersection>| #[trigger]
                scene.traces(ray, &self.sphere_terms, &self.plane_terms, hit) && match hit {
                    None => color == Color::black_spec(),
                    Some(found) => self.colors(
                        scene,
                        ray,
                        &found.element_spec(),
                        found.distance_spec(),
                        depth,
                        color,
                    ),
                };
            let candidates = choose|candidates: Seq<Option<Binary64>>|
                #[trigger] scene.candidates_of(
                    ray,
                    &self.sphere_terms,
                    &self.plane_terms,
                    candidates,
                ) && scene.nearest_of(candidates, hit);
            assert forall|j: int| 0 <= j < candidates.len() implies !is_hit(
                #[trigger] candidates[j],
            ) by {}
        }
    }

    /// In a scene without lights the diffuse shading of every hit is
    /// black.
    pub proof fn unlit_is_black(&self, scene: &Scene, element: &Element, hit: &Hit, color: Color)
        requires
            scene.lights.len() == 0,
            self.shades_diffuse(scene, element, hit, color),
        ensures
            color == Color::black_spec(),
    {
    }

    /// Anything in the way of a directional light hides it: the light is
    /// farther off than every hit.
    pub proof fn directional_light_is_hidden_by_any_hit(
        &self,
        light: Light,
        hit: &Hit,
        shadow: Intersection,
        received: Binary32,
    )
        requires
            light is Directional,
            shadow.distance_spec().finite(),
            self.receives(light, hit, Some(shadow), received),
        ensures
            received == Binary32::zero_spec(),
    {
    }

    /// Below the recursion limit a hit on a diffuse surface has its
    /// diffuse shading, whatever the level: no further ray is cast for
    /// it, and the colour is in gamut.
    pub proof fn diffuse_is_shaded_directly(
        &self,
        scene: &Scene,
        ray: &Ray,
        element: &Element,
        distance: Binary64,
        depth: u32,
        color: Color,
    )
        requires
            depth < scene.max_recursion_depth,
            element.material_spec().surface is Diffuse,
            self.colors(scene, ray, element, distance, depth, color),
        ensures
            exists|hit: Hit| #[trigger] self.shades_diffuse(scene, element, &hit, color),
            color.in_gamut(),
    {
        let hit = choose|hit: Hit| #[trigger]
            self.locates(ray, element, distance, hit) && self.shades_diffuse(
                scene,
                element,
                &hit,
                color,
            );
        let (surface, sum) = choose|surface: Color, sum: Color| #[trigger]
            self.gathers(scene, element, &hit, surface, sum) && color == sum.clamp_spec();
        Color::clamp_is_idempotent(sum);
    }
}

} // verus!
