//! Material records, their classification, and the concrete materials
//! shapes end up with.
//!
//! A [`MaterialRecord`] is the loosely-typed parameter bundle an authoring
//! tool exports for one base name. Classification sorts it into exactly one
//! of five BSDF variants by a fixed priority order; [`material_for`] then
//! builds the concrete [`Material`] a shape is assigned, folding in the
//! optional image texture and optional per-triangle color.

use crate::math::{rgb_scale, rgb_scale_spec, rgb_wf, scalar_wf, white, white_spec, Rgb, FP_ONE};
use vstd::prelude::*;

verus! {

/// The raw, name-keyed material parameters produced by ingestion: diffuse,
/// specular and mirror colors, an emission strength, an
/// index-of-refraction-like scalar (`ang`), a mirror-reflectance scalar
/// (`ray_mirror`), and a roughness. Read-only after ingestion.
#[derive(Clone, Copy, Debug, PartialEq, Eq, Structural)]
pub struct MaterialRecord {
    pub diffuse: Rgb,
    pub specular: Rgb,
    pub mirror: Rgb,
    pub emission: i64,
    pub ang: i64,
    pub ray_mirror: i64,
    pub roughness: i64,
}

impl MaterialRecord {
    /// Every scalar field of the record is non-negative and within the
    /// fixed-point range.
    pub open spec fn wf(self) -> bool {
        rgb_wf(self.diffuse) && rgb_wf(self.specular) && rgb_wf(self.mirror)
            && scalar_wf(self.emission) && scalar_wf(self.ang) && scalar_wf(self.ray_mirror)
            && scalar_wf(self.roughness)
    }
}

/// The five classification outcomes, in priority order.
#[derive(Clone, Copy, Debug, PartialEq, Eq, Structural)]
pub enum MaterialClass {
    Emissive,
    Glass,
    Metal,
    Mirror,
    Matte,
}

/// Classifies a material record by the fixed priority order: emissive
/// first (emission strength positive), then glass (`ang` differs from
/// one), then rough metal (`ray_mirror` positive with positive roughness),
/// then smooth mirror (`ray_mirror` positive with zero roughness), and
/// matte as the default.
pub open spec fn classify_spec(m: MaterialRecord) -> MaterialClass {
    if m.emission > 0 {
        MaterialClass::Emissive
    } else if m.ang != FP_ONE {
        MaterialClass::Glass
    } else if m.ray_mirror > 0 && m.roughness > 0 {
        MaterialClass::Metal
    } else if m.ray_mirror > 0 && m.roughness == 0 {
        MaterialClass::Mirror
    } else {
        MaterialClass::Matte
    }
}

/// Exactly one classification applies to any record.
pub fn classify(m: &MaterialRecord) -> (c: MaterialClass)
    ensures
        c == classify_spec(*m),
{
    if m.emission > 0 {
        MaterialClass::Emissive
    } else if m.ang != FP_ONE {
        MaterialClass::Glass
    } else if m.ray_mirror > 0 && m.roughness > 0 {
        MaterialClass::Metal
    } else if m.ray_mirror > 0 && m.roughness == 0 {
        MaterialClass::Mirror
    } else {
        MaterialClass::Matte
    }
}

/// A positive emission strength wins over every other classification
/// trigger: whatever `ang`, `ray_mirror` and `roughness` hold, the record
/// is classified emissive.
pub proof fn lemma_emissive_priority(m: MaterialRecord)
    requires
        m.emission > 0,
    ensures
        classify_spec(m) == MaterialClass::Emissive,
{
}

/// The albedo a matte material shades with: an image texture looked up by
/// the shape's base name, or a flat color.
#[derive(Clone, Debug, PartialEq, Eq)]
pub enum MatteAlbedo {
    /// An image file, repeat-addressed, trilinearly filtered and
    /// gamma-decoded by the texture subsystem outside this crate.
    Image { path: String },
    /// A solid color.
    Flat { color: Rgb },
}

/// A concrete material assigned to one shape. The numerical BSDF behind
/// each variant lives outside this crate; the variant carries exactly the
/// parameters that construction needs.
#[derive(Clone, Debug, PartialEq, Eq)]
pub enum Material {
    /// Pure Lambertian diffuse, zero roughness.
    Matte { albedo: MatteAlbedo },
    /// Dielectric with white reflectance, smooth interfaces and roughness
    /// remapping; transmittance and index of refraction from the record.
    Glass { transmittance: Rgb, ior: i64 },
    /// Rough conductor over the built-in copper spectra, with roughness
    /// remapping; the record's roughness drives the microfacet spread.
    Metal { roughness: i64 },
    /// Perfect specular reflector with the given tint.
    Mirror { tint: Rgb },
}

/// The mathematical image of a [`MatteAlbedo`]: the texture path as a
/// character sequence, or the flat color.
pub enum AlbedoModel {
    Image { path: Seq<char> },
    Flat { color: Rgb },
}

/// The mathematical image of a [`Material`].
pub enum MaterialModel {
    Matte { albedo: AlbedoModel },
    Glass { transmittance: Rgb, ior: i64 },
    Metal { roughness: i64 },
    Mirror { tint: Rgb },
}

impl View for MatteAlbedo {
    type V = AlbedoModel;

    open spec fn view(&self) -> AlbedoModel {
        match self {
            MatteAlbedo::Image { path } => AlbedoModel::Image { path: path@ },
            MatteAlbedo::Flat { color } => AlbedoModel::Flat { color: *color },
        }
    }
}

impl View for Material {
    type V = MaterialModel;

    open spec fn view(&self) -> MaterialModel {
        match self {
            Material::Matte { albedo } => MaterialModel::Matte { albedo: albedo@ },
            Material::Glass { transmittance, ior } => MaterialModel::Glass {
                transmittance: *transmittance,
                ior: *ior,
            },
            Material::Metal { roughness } => MaterialModel::Metal { roughness: *roughness },
            Material::Mirror { tint } => MaterialModel::Mirror { tint: *tint },
        }
    }
}

/// The material a shape receives, given the resolved record (if any), the
/// resolved texture path (if any), and the shape's per-triangle color (only
/// ever present for a mesh triangle whose mesh carries triangle colors).
///
/// A shape with no record at all falls back to white matte. An emissive
/// record also yields the neutral white matte (its emission is carried by
/// the attached area light, not by the surface's direct appearance). For a
/// matte record the albedo is, in priority order: the per-triangle color,
/// the image texture, the record's flat diffuse color.
pub open spec fn material_model_spec(
    rec: Option<MaterialRecord>,
    tex: Option<Seq<char>>,
    tri_color: Option<Rgb>,
) -> MaterialModel {
    match rec {
        None => MaterialModel::Matte { albedo: AlbedoModel::Flat { color: white_spec() } },
        Some(m) => match classify_spec(m) {
            MaterialClass::Emissive => MaterialModel::Matte {
                albedo: AlbedoModel::Flat { color: white_spec() },
            },
            MaterialClass::Glass => MaterialModel::Glass {
                transmittance: m.specular,
                ior: m.ang,
            },
            MaterialClass::Metal => MaterialModel::Metal { roughness: m.roughness },
            MaterialClass::Mirror => MaterialModel::Mirror {
                tint: rgb_scale_spec(m.mirror, m.ray_mirror as int),
            },
            MaterialClass::Matte => match tri_color {
                Some(c) => MaterialModel::Matte { albedo: AlbedoModel::Flat { color: c } },
                None => match tex {
                    Some(path) => MaterialModel::Matte {
                        albedo: AlbedoModel::Image { path },
                    },
                    None => MaterialModel::Matte {
                        albedo: AlbedoModel::Flat { color: m.diffuse },
                    },
                },
            },
        },
    }
}

/// Spec view of an optional texture path.
pub open spec fn opt_path_view(o: Option<String>) -> Option<Seq<char>> {
    match o {
        Some(p) => Some(p@),
        None => None,
    }
}

/// Builds the concrete material for one shape from its resolved record,
/// resolved texture path, and per-triangle color.
pub fn material_for(
    rec: Option<MaterialRecord>,
    tex: Option<String>,
    tri_color: Option<Rgb>,
) -> (r: Material)
    requires
        rec matches Some(m) ==> m.wf(),
    ensures
        r@ == material_model_spec(rec, opt_path_view(tex), tri_color),
{
    match rec {
        None => Material::Matte { albedo: MatteAlbedo::Flat { color: white() } },
        Some(m) => match classify(&m) {
            MaterialClass::Emissive => Material::Matte {
                albedo: MatteAlbedo::Flat { color: white() },
            },
            MaterialClass::Glass => Material::Glass { transmittance: m.specular, ior: m.ang },
            MaterialClass::Metal => Material::Metal { roughness: m.roughness },
            MaterialClass::Mirror => Material::Mirror {
                tint: rgb_scale(m.mirror, m.ray_mirror),
            },
            MaterialClass::Matte => match tri_color {
                Some(c) => Material::Matte { albedo: MatteAlbedo::Flat { color: c } },
                None => match tex {
                    Some(path) => Material::Matte { albedo: MatteAlbedo::Image { path } },
                    None => Material::Matte { albedo: MatteAlbedo::Flat { color: m.diffuse } },
                },
            },
        },
    }
}

/// A record that classifies as matte and comes with a per-triangle color
/// takes exactly that color as flat albedo, overriding any texture that
/// would otherwise apply.
pub proof fn lemma_triangle_color_overrides(
    m: MaterialRecord,
    tex: Option<Seq<char>>,
    color: Rgb,
)
    requires
        classify_spec(m) == MaterialClass::Matte,
    ensures
        material_model_spec(Some(m), tex, Some(color)) == (MaterialModel::Matte {
            albedo: AlbedoModel::Flat { color },
        }),
{
}

} // verus!
