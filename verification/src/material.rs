//! Surface materials and the Phong-style local illumination formula.
use crate::color::{black_s, col_add_s, col_mul_s, col_scale_s, Color};
use crate::fx::{fx_floor, fx_pow, fx_pow_s, FX_ONE};
use crate::light::PointLight;
use crate::tuple::{dot_s, normalize_s, reflect_s, tup_neg_s, tup_sub_s, Tuple};
use vstd::prelude::*;

verus! {

/// The default ambient reflection, the representation of 0.1.
pub const DEFAULT_AMBIENT: i64 = 429496730;

/// The default diffuse reflection, the representation of 0.9.
pub const DEFAULT_DIFFUSE: i64 = 3865470566;

/// The default specular reflection, the representation of 0.9.
pub const DEFAULT_SPECULAR: i64 = 3865470566;

/// The default shininess, the representation of 200.
pub const DEFAULT_SHININESS: i64 = 858993459200;

/// The appearance parameters of a shape.
#[derive(Debug, Clone, Copy, PartialEq, Eq, Structural)]
pub struct Material {
    pub color: Color,
    pub ambient: i64,
    pub diffuse: i64,
    pub specular: i64,
    pub shininess: i64,
}

/// The default material: white, mostly diffuse, with a sharp highlight.
pub open spec fn default_material_s() -> Material {
    Material {
        color: Color { red: FX_ONE, green: FX_ONE, blue: FX_ONE },
        ambient: DEFAULT_AMBIENT,
        diffuse: DEFAULT_DIFFUSE,
        specular: DEFAULT_SPECULAR,
        shininess: DEFAULT_SHININESS,
    }
}

/// The specular exponent of a material: the integer part of its shininess,
/// zero when the shininess is negative.
pub open spec fn shininess_exp_s(m: Material) -> nat {
    if m.shininess >= 0 {
        (m.shininess as int / (FX_ONE as int)) as nat
    } else {
        0
    }
}

/// The local illumination formula.
///
/// The ambient term always contributes.  In shadow it is the whole result;
/// otherwise the diffuse term scales with the cosine between the light
/// direction and the normal, and the specular term with a power of the
/// cosine between the reflected light direction and the eye.
pub open spec fn lighting_s(
    m: Material,
    light: PointLight,
    point: Tuple,
    eyev: Tuple,
    normalv: Tuple,
    in_shadow: bool,
) -> Color {
    let effective = col_mul_s(m.color, light.intensity);
    let ambient = col_scale_s(effective, m.ambient);
    if in_shadow {
        ambient
    } else {
        let lightv = normalize_s(tup_sub_s(light.position, point));
        let light_dot_normal = dot_s(lightv, normalv);
        if light_dot_normal < 0 {
            col_add_s(col_add_s(ambient, black_s()), black_s())
        } else {
            let diffuse = col_scale_s(col_scale_s(effective, m.diffuse), light_dot_normal);
            let reflectv = reflect_s(tup_neg_s(lightv), normalv);
            let reflect_dot_eye = dot_s(reflectv, eyev);
            if reflect_dot_eye <= 0 {
                col_add_s(col_add_s(ambient, diffuse), black_s())
            } else {
                let factor = fx_pow_s(reflect_dot_eye, shininess_exp_s(m));
                let specular = col_scale_s(col_scale_s(light.intensity, m.specular), factor);
                col_add_s(col_add_s(ambient, diffuse), specular)
            }
        }
    }
}

impl Material {
    /// The default material.
    pub fn new() -> (r: Material)
        ensures
            r == default_material_s(),
    {
        Material {
            color: Color { red: FX_ONE, green: FX_ONE, blue: FX_ONE },
            ambient: DEFAULT_AMBIENT,
            diffuse: DEFAULT_DIFFUSE,
            specular: DEFAULT_SPECULAR,
            shininess: DEFAULT_SHININESS,
        }
    }

    /// The color seen at `point` under `light`, with this material.
    pub fn lighting(
        &self,
        light: PointLight,
        point: Tuple,
        eyev: Tuple,
        normalv: Tuple,
        in_shadow: bool,
    ) -> (r: Color)
        ensures
            r == lighting_s(*self, light, point, eyev, normalv, in_shadow),
    {
        let black = Color::black();
        let effective = self.color.mul(&light.intensity);
        let ambient = effective.scale(self.ambient);
        if in_shadow {
            return ambient;
        }
        let lightv = light.position.sub(&point).normalize();
        let light_dot_normal = lightv.dot(&normalv);
        let (diffuse, specular) = if light_dot_normal < 0 {
            (black, black)
        } else {
            let diffuse = effective.scale(self.diffuse).scale(light_dot_normal);
            let reflectv = lightv.neg().reflect(&normalv);
            let reflect_dot_eye = reflectv.dot(&eyev);
            let specular = if reflect_dot_eye <= 0 {
                black
            } else {
                let exp_int = fx_floor(self.shininess);
                let exp: u32 = if exp_int < 0 {
                    0
                } else {
                    exp_int as u32
                };
                let factor = fx_pow(reflect_dot_eye, exp);
                light.intensity.scale(self.specular).scale(factor)
            };
            (diffuse, specular)
        };
        ambient.add(&diffuse).add(&specular)
    }
}

impl Default for Material {
    /// The default material, as `new` builds it.
    fn default() -> (r: Material)
        ensures
            r == default_material_s(),
    {
        Material::new()
    }
}

} // verus!
