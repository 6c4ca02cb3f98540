//! The scene model: colours, materials, shapes, lights, and the choice of
//! the nearest hit along a ray.
use vstd::prelude::*;
use image::DynamicImage;
use crate::number::Binary32;
use crate::number::Binary64;
use crate::point::Point;
use crate::vector::Vector3;
use crate::raster::Rgba8;
use crate::rendering::PlaneTerms;
use crate::rendering::Ray;
use crate::rendering::SphereTerms;
use crate::rendering::TextureCoords;
use crate::raster::get_pixel;
use crate::raster::image_height;
use crate::raster::image_pixels;
use crate::raster::image_width;

verus! {

/// A colour in linear light: red, green and blue.
#[derive(Clone, Copy, Debug)]
pub struct Color {
    pub red: Binary32,
    pub green: Binary32,
    pub blue: Binary32,
}

impl Color {
    /// The colour with every channel limited to the interval from 0 to 1.
    pub open spec fn clamp_spec(self) -> Color {
        Color {
            red: self.red.clamp_unit_spec(),
            green: self.green.clamp_unit_spec(),
            blue: self.blue.clamp_unit_spec(),
        }
    }

    /// Whether every channel is a number between 0 and 1.
    pub open spec fn in_gamut(self) -> bool {
        self.red.in_unit_interval() && self.green.in_unit_interval()
            && self.blue.in_unit_interval()
    }

    pub open spec fn black_spec() -> Color {
        Color {
            red: Binary32::zero_spec(),
            green: Binary32::zero_spec(),
            blue: Binary32::zero_spec(),
        }
    }

    /// No light at all.
    pub fn black() -> (c: Color)
        ensures
            c == Color::black_spec(),
    {
        Color { red: Binary32::zero(), green: Binary32::zero(), blue: Binary32::zero() }
    }

    /// Limits every channel to the interval from 0 to 1.
    pub fn clamp(&self) -> (c: Color)
        ensures
            c == self.clamp_spec(),
            c.in_gamut(),
    {
        Color {
            red: self.red.clamp_unit(),
            green: self.green.clamp_unit(),
            blue: self.blue.clamp_unit(),
        }
    }

    /// Whether `pixel` is the colour with each channel put through
    /// `encode` and cut off to eight bits, fully opaque.
    pub open spec fn encoded<F: Fn(Binary32) -> Binary32>(self, encode: &F, pixel: Rgba8) -> bool {
        exists|r: Binary32, g: Binary32, b: Binary32|
            encode.ensures((self.red,), r) && encode.ensures((self.green,), g) && encode.ensures(
                (self.blue,),
                b,
            ) && pixel == Rgba8::opaque_spec(r.to_u8_spec(), g.to_u8_spec(), b.to_u8_spec())
    }

    /// Whether the colour is `pixel` with each colour channel put through
    /// `decode`.
    pub open spec fn decoded<F: Fn(u8) -> Binary32>(self, decode: &F, pixel: Rgba8) -> bool {
        decode.ensures((pixel.red,), self.red) && decode.ensures((pixel.green,), self.green)
            && decode.ensures((pixel.blue,), self.blue)
    }

    /// The colour as a stored pixel. `encode` is the transfer curve: it
    /// takes a channel from linear light to the scale from 0 to 255 on
    /// which pixels are stored. What it gives is cut off toward zero and
    /// kept within 0 and 255. The pixel is fully opaque.
    pub fn to_rgba<F: Fn(Binary32) -> Binary32>(&self, encode: &F) -> (pixel: Rgba8)
        requires
            encode.requires((self.red,)),
            encode.requires((self.green,)),
            encode.requires((self.blue,)),
        ensures
            self.encoded(encode, pixel),
    {
        let r = (*encode)(self.red);
        let g = (*encode)(self.green);
        let b = (*encode)(self.blue);
        Rgba8::opaque(r.to_u8(), g.to_u8(), b.to_u8())
    }

    /// The colour of a stored pixel. `decode` is the inverse transfer
    /// curve: it takes a stored channel back to linear light. The
    /// pixel's opacity is not looked at.
    pub fn from_rgba<F: Fn(u8) -> Binary32>(rgba: Rgba8, decode: &F) -> (c: Color)
        requires
            forall|channel: u8| decode.requires((channel,)),
        ensures
            c.decoded(decode, rgba),
    {
        Color {
            red: (*decode)(rgba.red),
            green: (*decode)(rgba.green),
            blue: (*decode)(rgba.blue),
        }
    }

    /// Clamping a clamped colour changes nothing.
    pub proof fn clamp_is_idempotent(c: Color)
        ensures
            c.clamp_spec().clamp_spec() == c.clamp_spec(),
            c.clamp_spec().in_gamut(),
    {
    }

    /// A colour that is in gamut already is left as it is.
    pub proof fn clamp_keeps_gamut(c: Color)
        requires
            c.in_gamut(),
        ensures
            c.clamp_spec() == c,
    {
    }
}

/// Wraps a coordinate into `0..bound`: a coordinate past the end starts
/// again at the front, a negative one counts back from the end.
pub open spec fn wrap_spec(coordinate: int, bound: int) -> int {
    coordinate % bound
}

/// Wraps a texture coordinate into the index of a pixel. The coordinate
/// is already scaled to pixels: 0 is the first pixel and `bound` the
/// first one of the next repetition. It is cut off to a whole number and
/// then wrapped.
pub fn wrap(val: Binary32, bound: u32) -> (index: u32)
    requires
        bound > 0,
    ensures
        index == wrap_spec(val.to_i32_spec() as int, bound as int),
        index < bound,
{
    let wide: i64 = val.to_i32() as i64;
    let limit: i64 = bound as i64;
    let rest: i64 = wide % limit;
    let wrapped: i64 = if rest < 0 {
        rest + limit
    } else {
        rest
    };
    proof {
        // The truncating remainder and the wrapped index differ by a
        // multiple of the bound, and the index lies in range.
        if wide >= 0 {
        } else {
            let q = (-(wide as int)) / (limit as int);
            let r = (-(wide as int)) % (limit as int);
            assert(-(wide as int) == q * limit + r) by {
                vstd::arithmetic::div_mod::lemma_fundamental_div_mod(-(wide as int), limit as int);
                vstd::arithmetic::mul::lemma_mul_is_commutative(q, limit as int);
            }
            if r == 0 {
                assert(wide as int == (-q) * limit + 0) by (nonlinear_arith)
                    requires
                        -(wide as int) == q * limit + r,
                        r == 0,
                ;
                vstd::arithmetic::div_mod::lemma_fundamental_div_mod_converse(
                    wide as int,
                    limit as int,
                    -q,
                    0,
                );
            } else {
                assert(wide as int == (-q - 1) * limit + (limit - r)) by (nonlinear_arith)
                    requires
                        -(wide as int) == q * limit + r,
                ;
                vstd::arithmetic::div_mod::lemma_fundamental_div_mod_converse(
                    wide as int,
                    limit as int,
                    -q - 1,
                    limit - r,
                );
            }
        }
    }
    wrapped as u32
}

/// Where a surface takes its colour from.
#[derive(Debug)]
pub enum Coloration {
    /// One colour everywhere.
    Color(Color),
    /// A picture, repeated in both directions.
    Texture(DynamicImage),
}

impl Coloration {
    /// The texture pixel that the given coordinates fall on. They are
    /// scaled to pixels, and the texture repeats in both directions.
    pub open spec fn texel(texture: DynamicImage, coords: TextureCoords) -> Rgba8 {
        image_pixels(texture)[(
            wrap_spec(coords.x.to_i32_spec() as int, image_width(texture) as int),
            wrap_spec(coords.y.to_i32_spec() as int, image_height(texture) as int),
        )]
    }

    /// Whether the coloration has a colour at every place: a texture needs
    /// at least one pixel for that.
    pub open spec fn usable(self) -> bool {
        match self {
            Coloration::Color(_) => true,
            Coloration::Texture(texture) => image_width(texture) > 0 && image_height(texture) > 0,
        }
    }

    /// Whether `found` is the colour at the given texture coordinates. A
    /// single colour is the same everywhere. A texture is looked up where
    /// the coordinates fall once `scale` has taken them from the unit
    /// square to the texture's pixels, with wraparound in both
    /// directions, and the pixel found is taken to linear light by
    /// `decode`. A texture without pixels has no colour.
    pub open spec fn colors_at<
        Z: Fn(TextureCoords, u32, u32) -> TextureCoords,
        D: Fn(u8) -> Binary32,
    >(self, coords: &TextureCoords, scale: &Z, decode: &D, found: Option<Color>) -> bool {
        match self {
            Coloration::Color(c) => found == Some(c),
            Coloration::Texture(texture) => if self.usable() {
                exists|scaled: TextureCoords| #[trigger]
                    scale.ensures(
                        (*coords, image_width(texture), image_height(texture)),
                        scaled,
                    ) && found is Some && found->0.decoded(
                        decode,
                        Coloration::texel(texture, scaled),
                    )
            } else {
                found is None
            },
        }
    }

    /// Width and height of the texture in pixels; `None` for a single
    /// colour.
    pub fn extent(&self) -> (size: Option<(u32, u32)>)
        ensures
            match *self {
                Coloration::Color(_) => size is None,
                Coloration::Texture(texture) => size == Some(
                    (image_width(texture), image_height(texture)),
                ),
            },
    {
        match self {
            Coloration::Color(_) => None,
            Coloration::Texture(texture) => Some((texture.width(), texture.height())),
        }
    }

    /// The colour at the given texture coordinates, if there is one.
    /// `scale` takes coordinates from the unit square to the pixels of a
    /// texture of a width and a height; `decode` takes a stored channel
    /// to linear light.
    pub fn color<Z: Fn(TextureCoords, u32, u32) -> TextureCoords, D: Fn(u8) -> Binary32>(
        &self,
        coords: &TextureCoords,
        scale: &Z,
        decode: &D,
    ) -> (found: Option<Color>)
        requires
            forall|c: TextureCoords, w: u32, h: u32| scale.requires((c, w, h)),
            forall|channel: u8| decode.requires((channel,)),
        ensures
            self.colors_at(coords, scale, decode, found),
            found is Some == self.usable(),
    {
        match self {
            Coloration::Color(c) => Some(*c),
            Coloration::Texture(texture) => {
                let width: u32 = texture.width();
                let height: u32 = texture.height();
                if width == 0 || height == 0 {
                    None
                } else {
                    let scaled = (*scale)(*coords, width, height);
                    let tex_x: u32 = wrap(scaled.x, width);
                    let tex_y: u32 = wrap(scaled.y, height);
                    Some(Color::from_rgba(get_pixel(texture, tex_x, tex_y), decode))
                }
            },
        }
    }
}

/// How a surface answers light.
#[derive(Clone, Copy, Debug)]
pub enum SurfaceType {
    Diffuse,
    Reflective { reflectivity: Binary32 },
    Refractive { index: Binary32, transparency: Binary32 },
}

#[derive(Debug)]
pub struct Material {
    pub coloration: Coloration,
    pub albedo: Binary32,
    pub surface: SurfaceType,
}

#[derive(Debug)]
pub struct Sphere {
    pub center: Point,
    pub radius: Binary64,
    pub material: Material,
}

#[derive(Debug)]
pub struct Plane {
    pub origin: Point,
    pub normal: Vector3,
    pub material: Material,
}

/// A renderable shape.
#[derive(Debug)]
pub enum Element {
    Sphere(Sphere),
    Plane(Plane),
}

impl Element {
    pub open spec fn material_spec(self) -> Material {
        match self {
            Element::Sphere(s) => s.material,
            Element::Plane(p) => p.material,
        }
    }

    /// The element's material.
    pub fn material(&self) -> (m: &Material)
        ensures
            *m == self.material_spec(),
    {
        match self {
            Element::Sphere(s) => &s.material,
            Element::Plane(p) => &p.material,
        }
    }

    /// The element with another material and nothing else changed.
    pub open spec fn with_material(self, material: Material) -> Element {
        match self {
            Element::Sphere(s) => Element::Sphere(
                Sphere { center: s.center, radius: s.radius, material },
            ),
            Element::Plane(p) => Element::Plane(
                Plane { origin: p.origin, normal: p.normal, material },
            ),
        }
    }

    /// The element's material, to be changed in place: what is written
    /// through the reference becomes the element's material, and nothing
    /// else of the element changes.
    pub fn material_mut(&mut self) -> (m: &mut Material)
        ensures
            *m == old(self).material_spec(),
            *final(self) == old(self).with_material(*final(m)),
    {
        match self {
            Element::Sphere(s) => &mut s.material,
            Element::Plane(p) => &mut p.material,
        }
    }
}

/// Light that arrives along one direction from infinitely far away.
#[derive(Clone, Copy, Debug)]
pub struct DirectionalLight {
    /// The direction in which the light travels.
    pub direction: Vector3,
    pub color: Color,
    pub intensity: Binary32,
}

/// Light that spreads from one point and falls off with distance.
#[derive(Clone, Copy, Debug)]
pub struct SphericalLight {
    pub position: Point,
    pub color: Color,
    pub intensity: Binary32,
}

#[derive(Clone, Copy, Debug)]
pub enum Light {
    Directional(DirectionalLight),
    Spherical(SphericalLight),
}

impl Light {
    pub open spec fn color_spec(self) -> Color {
        match self {
            Light::Directional(d) => d.color,
            Light::Spherical(s) => s.color,
        }
    }

    /// The light's colour.
    pub fn color(&self) -> (c: Color)
        ensures
            c == self.color_spec(),
    {
        match self {
            Light::Directional(d) => d.color,
            Light::Spherical(s) => s.color,
        }
    }

    /// Whether `direction` is the direction from a point to the light:
    /// for a directional light the reverse of the light's travel, wherever
    /// the point is, and for a spherical light what `toward` gives.
    pub open spec fn directs<W: Fn(&SphericalLight, &Point) -> Vector3>(
        self,
        hit_point: &Point,
        toward: &W,
        direction: Vector3,
    ) -> bool {
        match self {
            Light::Directional(d) => direction == d.direction.neg_spec(),
            Light::Spherical(s) => toward.ensures((&s, hit_point), direction),
        }
    }

    /// Whether `intensity` is the light's strength at a point: for a
    /// directional light its own everywhere, and for a spherical light
    /// what `attenuate` gives.
    pub open spec fn shines<U: Fn(&SphericalLight, &Point) -> Binary32>(
        self,
        hit_point: &Point,
        attenuate: &U,
        intensity: Binary32,
    ) -> bool {
        match self {
            Light::Directional(d) => intensity == d.intensity,
            Light::Spherical(s) => attenuate.ensures((&s, hit_point), intensity),
        }
    }

    /// Whether `distance` is how far the light is from a point:
    /// infinitely far for a directional light, and for a spherical light
    /// what `separate` gives.
    pub open spec fn lies_at<V: Fn(&SphericalLight, &Point) -> Binary64>(
        self,
        hit_point: &Point,
        separate: &V,
        distance: Binary64,
    ) -> bool {
        match self {
            Light::Directional(_) => distance == Binary64::infinity_spec(),
            Light::Spherical(s) => separate.ensures((&s, hit_point), distance),
        }
    }

    /// The direction from a point to the light. `toward` gives the unit
    /// vector from a point to the position of a spherical light.
    pub fn direction_from<W: Fn(&SphericalLight, &Point) -> Vector3>(
        &self,
        hit_point: &Point,
        toward: &W,
    ) -> (direction: Vector3)
        requires
            forall|s: &SphericalLight, p: &Point| toward.requires((s, p)),
        ensures
            self.directs(hit_point, toward, direction),
    {
        match self {
            Light::Directional(d) => d.direction.neg(),
            Light::Spherical(s) => (*toward)(s, hit_point),
        }
    }

    /// The light's strength at a point. `attenuate` gives the strength of
    /// a spherical light after its falloff over the way to a point.
    pub fn intensity<U: Fn(&SphericalLight, &Point) -> Binary32>(
        &self,
        hit_point: &Point,
        attenuate: &U,
    ) -> (intensity: Binary32)
        requires
            forall|s: &SphericalLight, p: &Point| attenuate.requires((s, p)),
        ensures
            self.shines(hit_point, attenuate, intensity),
    {
        match self {
            Light::Directional(d) => d.intensity,
            Light::Spherical(s) => (*attenuate)(s, hit_point),
        }
    }

    /// How far the light is from a point. `separate` gives the way from a
    /// point to the position of a spherical light.
    pub fn distance<V: Fn(&SphericalLight, &Point) -> Binary64>(
        &self,
        hit_point: &Point,
        separate: &V,
    ) -> (distance: Binary64)
        requires
            forall|s: &SphericalLight, p: &Point| separate.requires((s, p)),
        ensures
            self.lies_at(hit_point, separate, distance),
    {
        match self {
            Light::Directional(_) => Binary64::infinity(),
            Light::Spherical(s) => (*separate)(s, hit_point),
        }
    }
}

#[derive(Debug)]
pub struct Scene {
    pub width: u32,
    pub height: u32,
    /// Field of view, in degrees.
    pub fov: Binary64,
    pub elements: Vec<Element>,
    pub lights: Vec<Light>,
    pub shadow_bias: Binary64,
    pub max_recursion_depth: u32,
}

/// A ray meeting an element at a finite distance. It can only be made by
/// `Intersection::new`, which is what keeps the distance finite.
pub struct Intersection<'a> {
    distance: Binary64,
    element: &'a Element,
}

impl<'a> Intersection<'a> {
    /// Every intersection lies at a finite distance.
    #[verifier::type_invariant]
    spec fn finite_distance(self) -> bool {
        self.distance.finite()
    }

    /// How far along the ray the element is met.
    pub closed spec fn distance_spec(self) -> Binary64 {
        self.distance
    }

    /// The element that is met.
    pub closed spec fn element_spec(self) -> Element {
        *self.element
    }

    /// The meeting of a ray with an element at a distance, which has to
    /// be finite.
    pub fn new<'b>(distance: Binary64, element: &'b Element) -> (hit: Intersection<'b>)
        requires
            distance.finite(),
        ensures
            hit.distance_spec() == distance,
            hit.element_spec() == *element,
    {
        Intersection { distance, element }
    }

    /// How far along the ray the element is met: always a finite distance.
    pub fn distance(&self) -> (d: Binary64)
        ensures
            d == self.distance_spec(),
            d.finite(),
    {
        proof {
            use_type_invariant(self);
        }
        self.distance
    }

    /// The element that is met.
    pub fn element(&self) -> (e: &'a Element)
        ensures
            *e == self.element_spec(),
    {
        self.element
    }
}

/// Whether an element's candidate distance is a hit: there is one, it is
/// finite, and it does not lie behind the ray's origin.
pub open spec fn is_hit(candidate: Option<Binary64>) -> bool {
    candidate matches Some(d) && d.finite() && d.rank() >= 0
}

/// Whether candidate `i` is the nearest hit: no hit is nearer, and of the
/// hits that are just as near it comes first.
pub open spec fn is_nearest(candidates: Seq<Option<Binary64>>, i: int) -> bool {
    &&& 0 <= i < candidates.len()
    &&& is_hit(candidates[i])
    &&& forall|j: int|
        0 <= j < i && is_hit(#[trigger] candidates[j]) ==> candidates[i]->0.rank()
            < candidates[j]->0.rank()
    &&& forall|j: int|
        i < j < candidates.len() && is_hit(#[trigger] candidates[j]) ==> candidates[i]->0.rank()
            <= candidates[j]->0.rank()
}

/// At most one candidate is the nearest hit.
pub proof fn nearest_is_unique(candidates: Seq<Option<Binary64>>, i: int, j: int)
    requires
        is_nearest(candidates, i),
        is_nearest(candidates, j),
    ensures
        i == j,
{
}

/// Picks the nearest hit among the candidate distances, one per element
/// in scene order. A distance that is not finite, or that lies behind the
/// ray's origin, is no hit. Of hits at the same distance the first wins.
pub fn nearest_hit(candidates: &Vec<Option<Binary64>>) -> (found: Option<usize>)
    ensures
        match found {
            Some(i) => is_nearest(candidates@, i as int),
            None => forall|j: int| 0 <= j < candidates.len() ==> !is_hit(#[trigger] candidates[j]),
        },
{
    let mut best: Option<usize> = None;
    let mut k: usize = 0;
    while k < candidates.len()
        invariant
            0 <= k <= candidates.len(),
            match best {
                Some(i) => i < k && is_nearest(candidates@.take(k as int), i as int),
                None => forall|j: int| 0 <= j < k ==> !is_hit(#[trigger] candidates[j]),
            },
        decreases candidates.len() - k,
    {
        match candidates[k] {
            Some(d) => {
                if d.is_finite() && d.ge(Binary64::zero()) {
                    match best {
                        Some(i) => {
                            let held: Binary64 = candidates[i].unwrap();
                            if d.lt(held) {
                                best = Some(k);
                            }
                        },
                        None => {
                            best = Some(k);
                        },
                    }
                }
            },
            None => {},
        }
        k = k + 1;
    }
    assert(candidates@.take(k as int) == candidates@);
    best
}

impl Scene {
    /// Whether `candidates` holds, for every element in scene order, a
    /// distance at which the ray meets it, by the terms that the two
    /// formulas give.
    pub open spec fn candidates_of<
        S: Fn(&Sphere, &Ray) -> SphereTerms,
        P: Fn(&Plane, &Ray) -> PlaneTerms,
    >(self, ray: &Ray, sphere_terms: &S, plane_terms: &P, candidates: Seq<Option<Binary64>>) -> bool {
        &&& candidates.len() == self.elements.len()
        &&& forall|i: int|
            0 <= i < candidates.len() ==> self.elements[i].intersects(
                ray,
                sphere_terms,
                plane_terms,
                #[trigger] candidates[i],
            )
    }

    /// Whether `hit` is the nearest hit among the candidates: the element
    /// whose candidate is nearest, at that distance, or nothing where no
    /// candidate is a hit.
    pub open spec fn nearest_of(self, candidates: Seq<Option<Binary64>>, hit: Option<Intersection>) -> bool {
        match hit {
            Some(found) => exists|i: int|
                #![trigger candidates[i]]
                is_nearest(candidates, i) && found.distance_spec() == candidates[i]->0
                    && found.element_spec() == self.elements[i],
            None => forall|j: int| 0 <= j < candidates.len() ==> !is_hit(#[trigger] candidates[j]),
        }
    }

    /// Whether `hit` is what tracing the ray gives: the nearest hit among
    /// the distances at which the ray meets the elements.
    pub open spec fn traces<S: Fn(&Sphere, &Ray) -> SphereTerms, P: Fn(&Plane, &Ray) -> PlaneTerms>(
        self,
        ray: &Ray,
        sphere_terms: &S,
        plane_terms: &P,
        hit: Option<Intersection>,
    ) -> bool {
        exists|candidates: Seq<Option<Binary64>>|
            #[trigger] self.candidates_of(ray, sphere_terms, plane_terms, candidates)
                && self.nearest_of(candidates, hit)
    }

    /// The nearest element that the ray hits: of the elements that the
    /// ray meets at a finite distance ahead of its origin, the one at the
    /// smallest distance, and of several at that distance the first in
    /// scene order. The two formulas give the terms of a ray against a
    /// sphere and against a plane; they are asked once for every element,
    /// in scene order.
    pub fn trace<S: Fn(&Sphere, &Ray) -> SphereTerms, P: Fn(&Plane, &Ray) -> PlaneTerms>(
        &self,
        ray: &Ray,
        sphere_terms: &S,
        plane_terms: &P,
    ) -> (hit: Option<Intersection>)
        requires
            forall|sphere: &Sphere, r: &Ray| sphere_terms.requires((sphere, r)),
            forall|plane: &Plane, r: &Ray| plane_terms.requires((plane, r)),
        ensures
            self.traces(ray, sphere_terms, plane_terms, hit),
    {
        let mut candidates: Vec<Option<Binary64>> = Vec::new();
        let mut k: usize = 0;
        while k < self.elements.len()
            invariant
                0 <= k <= self.elements.len(),
                candidates.len() == k,
                forall|sphere: &Sphere, r: &Ray| sphere_terms.requires((sphere, r)),
                forall|plane: &Plane, r: &Ray| plane_terms.requires((plane, r)),
                forall|i: int|
                    0 <= i < k ==> self.elements[i].intersects(
                        ray,
                        sphere_terms,
                        plane_terms,
                        #[trigger] candidates[i],
                    ),
            decreases self.elements.len() - k,
        {
            let distance = self.elements[k].intersect(ray, sphere_terms, plane_terms);
            candidates.push(distance);
            k = k + 1;
        }
        assert(self.candidates_of(ray, sphere_terms, plane_terms, candidates@));
        let hit = match nearest_hit(&candidates) {
            Some(i) => {
                let distance: Binary64 = candidates[i].unwrap();
                Some(Intersection::new(distance, &self.elements[i]))
            },
            None => None,
        };
        hit
    }
}

} // verus!
