//! Measured-material support: a Fourier BSDF table and the material that
//! instantiates it per surface interaction.
//!
//! The scattering evaluation itself (interpolating the tabulated Fourier
//! coefficients) is numerical work outside this crate; what is verified
//! here is the arena bookkeeping: each call appends exactly one BxDF and
//! one BSDF to the caller's arenas and points the interaction at the new
//! BSDF, leaving every earlier arena entry untouched.

use crate::materials::Material;
use crate::math::{Rgb, Vec3, FP_ONE};
use vstd::prelude::*;

verus! {

/// A texture producing a single scalar per surface point, as used for
/// bump maps: either a constant or an image looked up by file path.
#[derive(Clone, Debug, PartialEq, Eq)]
pub enum FloatTexture {
    Constant { value: i64 },
    Image { path: String },
}

/// A tabulated Fourier BSDF: the relative index of refraction, the
/// maximal Fourier order, the channel count, and the discretized zenith
/// cosines with their coefficient table.
#[derive(Debug, PartialEq, Eq)]
pub struct FourierBSDFTable {
    pub eta: i64,
    pub m_max: i64,
    pub n_channels: i64,
    pub mu: Vec<i64>,
    pub a: Vec<i64>,
}

/// The two tables hold the same data, field for field.
pub open spec fn table_matches(x: FourierBSDFTable, y: FourierBSDFTable) -> bool {
    &&& x.eta == y.eta
    &&& x.m_max == y.m_max
    &&& x.n_channels == y.n_channels
    &&& x.mu@ == y.mu@
    &&& x.a@ == y.a@
}

/// Copies a vector of fixed-point values.
fn clone_vec_i64(v: &Vec<i64>) -> (r: Vec<i64>)
    ensures
        r@ == v@,
{
    let mut r: Vec<i64> = Vec::new();
    let n = v.len();
    let mut i: usize = 0;
    while i < n
        invariant
            i <= n,
            n == v@.len(),
            r@ == v@.take(i as int),
        decreases n - i,
    {
        proof {
            assert(v@.take(i as int + 1) =~= v@.take(i as int).push(v@[i as int]));
        }
        r.push(v[i]);
        i = i + 1;
    }
    proof {
        assert(v@.take(n as int) =~= v@);
    }
    r
}

impl Clone for FourierBSDFTable {
    /// Copies the table, data included.
    fn clone(&self) -> (res: Self)
        ensures
            table_matches(res, *self),
    {
        FourierBSDFTable {
            eta: self.eta,
            m_max: self.m_max,
            n_channels: self.n_channels,
            mu: clone_vec_i64(&self.mu),
            a: clone_vec_i64(&self.a),
        }
    }
}

/// Whether a scattering path carries radiance or importance.
#[derive(Clone, Copy, Debug, PartialEq, Eq, Structural)]
pub enum TransportMode {
    Radiance,
    Importance,
}

/// One BxDF instance over a Fourier table, with its transport mode and an
/// optional per-lobe spectral scale.
#[derive(Debug, PartialEq, Eq)]
pub struct FourierBSDF {
    pub bsdf_table: FourierBSDFTable,
    pub mode: TransportMode,
    pub scale: Option<Rgb>,
}

impl FourierBSDF {
    /// Wraps a table for one interaction.
    pub fn new(bsdf_table: FourierBSDFTable, mode: TransportMode, scale: Option<Rgb>) -> (r:
        FourierBSDF)
        ensures
            r.bsdf_table == bsdf_table,
            r.mode == mode,
            r.scale == scale,
    {
        FourierBSDF { bsdf_table, mode, scale }
    }
}

/// One entry of the caller-owned BxDF arena.
#[derive(Debug, PartialEq, Eq)]
pub enum Bxdf {
    Fourier(FourierBSDF),
}

/// A surface point's scattering state: the relative index of refraction
/// at the boundary and the arena indices of the BxDFs that make it up.
#[derive(Debug, PartialEq, Eq)]
pub struct Bsdf {
    pub eta: i64,
    pub bxdfs: Vec<usize>,
}

impl Bsdf {
    /// Starts an empty BSDF for one interaction. The shading frame that
    /// the interaction would seed is numerical state outside this crate.
    pub fn new(_si: &SurfaceInteraction, eta: i64) -> (r: Bsdf)
        ensures
            r.eta == eta,
            r.bxdfs@ == Seq::<usize>::empty(),
    {
        Bsdf { eta, bxdfs: Vec::new() }
    }

    /// Registers one more BxDF arena index with this BSDF.
    pub fn add(&mut self, b: usize)
        ensures
            final(self).eta == old(self).eta,
            final(self).bxdfs@ == old(self).bxdfs@.push(b),
    {
        self.bxdfs.push(b);
    }
}

/// The per-hit interaction record this crate models: the world-space
/// point and normal, and the BSDF arena index filled in by material
/// evaluation.
#[derive(Clone, Copy, Debug, PartialEq, Eq, Structural)]
pub struct SurfaceInteraction {
    pub p: Vec3,
    pub n: Vec3,
    pub bsdf: Option<usize>,
}

/// A material backed by a measured Fourier BSDF table, with an optional
/// bump map.
#[derive(Debug, PartialEq, Eq)]
pub struct FourierMaterial {
    pub bsdf_table: FourierBSDFTable,
    pub bump_map: Option<FloatTexture>,
}

impl FourierMaterial {
    /// Builds the material from its table and optional bump map.
    pub fn new(bsdf_table: FourierBSDFTable, bump_map: Option<FloatTexture>) -> (r:
        FourierMaterial)
        ensures
            r.bsdf_table == bsdf_table,
            r.bump_map == bump_map,
    {
        FourierMaterial { bump_map, bsdf_table }
    }

    /// Instantiates this material at one interaction: appends one Fourier
    /// BxDF (with the caller's optional spectral scale) to the BxDF
    /// arena, appends one BSDF referencing it to the BSDF arena, and
    /// points the interaction at that BSDF. Earlier arena entries are
    /// untouched. The bump map's displacement of the shading frame is
    /// numerical work outside this crate.
    pub fn compute_scattering_functions(
        &self,
        si: &mut SurfaceInteraction,
        arena_bsdf: &mut Vec<Bsdf>,
        arena_bxdf: &mut Vec<Bxdf>,
        mode: TransportMode,
        _allow_multiple_lobes: bool,
        _material: Option<&Material>,
        scale_opt: Option<Rgb>,
    )
        ensures
            final(arena_bxdf)@.len() == old(arena_bxdf)@.len() + 1,
            forall|i: int|
                0 <= i < old(arena_bxdf)@.len() ==> final(arena_bxdf)@[i] == old(arena_bxdf)@[i],
            final(arena_bxdf)@.last() matches Bxdf::Fourier(f) && f.mode == mode && f.scale
                == scale_opt && table_matches(f.bsdf_table, self.bsdf_table),
            final(arena_bsdf)@.len() == old(arena_bsdf)@.len() + 1,
            forall|i: int|
                0 <= i < old(arena_bsdf)@.len() ==> final(arena_bsdf)@[i] == old(arena_bsdf)@[i],
            final(arena_bsdf)@.last().eta == FP_ONE,
            final(arena_bsdf)@.last().bxdfs@ == seq![old(arena_bxdf)@.len() as usize],
            final(si).bsdf == Some(old(arena_bsdf)@.len() as usize),
            final(si).p == old(si).p,
            final(si).n == old(si).n,
    {
        let mut bsdf = Bsdf::new(si, FP_ONE);
        let table = self.bsdf_table.clone();
        arena_bxdf.push(Bxdf::Fourier(FourierBSDF::new(table, mode, scale_opt)));
        bsdf.add(arena_bxdf.len() - 1);
        arena_bsdf.push(bsdf);
        si.bsdf = Some(arena_bsdf.len() - 1);
        proof {
            assert(final(arena_bsdf)@.last().bxdfs@ =~= seq![old(arena_bxdf)@.len() as usize]);
        }
    }
}

} // verus!
