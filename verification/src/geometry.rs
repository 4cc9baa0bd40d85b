//! Geometric records and light records, as ingested into the scene.
//!
//! Every record carries values already in world space (mesh vertices are
//! pre-transformed; the analytic primitives keep their object-to-world
//! transform pair for the shape subsystem outside this crate).

use crate::math::{Rgb, Transform, Vec3};
use vstd::prelude::*;

verus! {

/// An analytic sphere: radius, z-range cut and angular sweep, with its
/// transform pair.
#[derive(Clone, Copy, Debug, PartialEq)]
pub struct SphereRecord {
    pub transform: Transform,
    pub radius: i64,
    pub z_min: i64,
    pub z_max: i64,
    pub phi_max: i64,
}

/// An analytic cylinder: radius, z-range and angular sweep, with its
/// transform pair.
#[derive(Clone, Copy, Debug, PartialEq)]
pub struct CylinderRecord {
    pub transform: Transform,
    pub radius: i64,
    pub z_min: i64,
    pub z_max: i64,
    pub phi_max: i64,
}

/// An analytic disk: height above the origin, outer and inner radius and
/// angular sweep, with its transform pair.
#[derive(Clone, Copy, Debug, PartialEq)]
pub struct DiskRecord {
    pub transform: Transform,
    pub height: i64,
    pub radius: i64,
    pub inner_radius: i64,
    pub phi_max: i64,
}

/// A triangle mesh: world-space vertex positions, optional per-vertex
/// normals, optional per-triangle colors, and a flat triangle index list
/// (three consecutive indices per triangle).
#[derive(Clone, Debug, PartialEq)]
pub struct MeshRecord {
    pub transform: Transform,
    pub vertices: Vec<Vec3>,
    pub normals: Option<Vec<Vec3>>,
    pub colors: Option<Vec<Rgb>>,
    pub indices: Vec<usize>,
}

impl MeshRecord {
    /// The number of triangles the index list describes.
    pub open spec fn tri_count(self) -> int {
        self.indices@.len() as int / 3
    }

    /// Structural consistency: the index list holds whole triangles, every
    /// index points at a vertex, per-vertex normals (when present) match
    /// the vertex count, and per-triangle colors (when present) match the
    /// triangle count.
    pub open spec fn wf(self) -> bool {
        &&& self.indices@.len() % 3 == 0
        &&& forall|k: int|
            0 <= k < self.indices@.len() ==> (#[trigger] self.indices@[k]) < self.vertices@.len()
        &&& match self.normals {
            Some(ns) => ns@.len() == self.vertices@.len(),
            None => true,
        }
        &&& match self.colors {
            Some(cs) => cs@.len() == self.tri_count(),
            None => true,
        }
    }

    /// The color assigned to triangle `t`: the mesh's per-triangle color
    /// when colors are present, and nothing otherwise.
    pub open spec fn tri_color(self, t: int) -> Option<Rgb> {
        match self.colors {
            Some(cs) => Some(cs@[t]),
            None => None,
        }
    }
}

/// A fully constructed light. Point, distant and infinite lights are
/// ingested as-is; area lights are synthesized during render-options
/// assembly, one per emissive shape, indexed back to that shape.
#[derive(Clone, Copy, Debug, PartialEq, Eq, Structural)]
pub enum LightRecord {
    /// An isotropic point emitter.
    Point { position: Vec3, intensity: Rgb },
    /// A directional emitter infinitely far away.
    Distant { direction: Vec3, radiance: Rgb },
    /// A constant environment emitter surrounding the scene.
    Infinite { radiance: Rgb },
    /// An emitter whose geometry is the shape at `shape_index` in the
    /// assembled shape list.
    Area { shape_index: usize, radiance: Rgb },
}

} // verus!
