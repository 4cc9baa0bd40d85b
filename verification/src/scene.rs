//! Incremental scene accumulation and the frozen scene description.
//!
//! A [`SceneDescriptionBuilder`] accumulates geometry and light records in
//! ordered, name-parallel lists; its terminal [`finalize`] consumes the
//! builder and produces the immutable [`SceneDescription`] that
//! render-options assembly reads. After `finalize` the builder is gone, so
//! the single-assembly-pass, no-further-mutation shape of the pipeline is
//! enforced by construction.
//!
//! [`finalize`]: SceneDescriptionBuilder::finalize

use crate::geometry::{CylinderRecord, DiskRecord, LightRecord, MeshRecord, SphereRecord};
use crate::math::{Rgb, Vec3};
use vstd::prelude::*;

verus! {

/// The immutable aggregate of all geometric records, grouped by kind with
/// a parallel base-name list per group, plus all ingested lights.
pub struct SceneDescription {
    pub mesh_names: Vec<String>,
    pub meshes: Vec<MeshRecord>,
    pub cylinder_names: Vec<String>,
    pub cylinders: Vec<CylinderRecord>,
    pub disk_names: Vec<String>,
    pub disks: Vec<DiskRecord>,
    pub sphere_names: Vec<String>,
    pub spheres: Vec<SphereRecord>,
    pub light_names: Vec<String>,
    pub lights: Vec<LightRecord>,
}

impl SceneDescription {
    /// Every name list is parallel to its record list, and every mesh is
    /// structurally consistent.
    pub open spec fn wf(self) -> bool {
        &&& self.mesh_names@.len() == self.meshes@.len()
        &&& self.cylinder_names@.len() == self.cylinders@.len()
        &&& self.disk_names@.len() == self.disks@.len()
        &&& self.sphere_names@.len() == self.spheres@.len()
        &&& self.light_names@.len() == self.lights@.len()
        &&& forall|i: int| 0 <= i < self.meshes@.len() ==> (#[trigger] self.meshes@[i]).wf()
    }
}

/// Accumulates geometry and light records; consumed by
/// [`SceneDescriptionBuilder::finalize`].
pub struct SceneDescriptionBuilder {
    pub mesh_names: Vec<String>,
    pub meshes: Vec<MeshRecord>,
    pub cylinder_names: Vec<String>,
    pub cylinders: Vec<CylinderRecord>,
    pub disk_names: Vec<String>,
    pub disks: Vec<DiskRecord>,
    pub sphere_names: Vec<String>,
    pub spheres: Vec<SphereRecord>,
    pub light_names: Vec<String>,
    pub lights: Vec<LightRecord>,
}

impl SceneDescriptionBuilder {
    /// Every name list is parallel to its record list, and every mesh is
    /// structurally consistent.
    pub open spec fn wf(self) -> bool {
        &&& self.mesh_names@.len() == self.meshes@.len()
        &&& self.cylinder_names@.len() == self.cylinders@.len()
        &&& self.disk_names@.len() == self.disks@.len()
        &&& self.sphere_names@.len() == self.spheres@.len()
        &&& self.light_names@.len() == self.lights@.len()
        &&& forall|i: int| 0 <= i < self.meshes@.len() ==> (#[trigger] self.meshes@[i]).wf()
    }

    /// Creates an empty builder.
    pub fn new() -> (r: SceneDescriptionBuilder)
        ensures
            r.wf(),
            r.mesh_names@.len() == 0,
            r.cylinders@.len() == 0,
            r.disks@.len() == 0,
            r.spheres@.len() == 0,
            r.lights@.len() == 0,
    {
        SceneDescriptionBuilder {
            mesh_names: Vec::new(),
            meshes: Vec::new(),
            cylinder_names: Vec::new(),
            cylinders: Vec::new(),
            disk_names: Vec::new(),
            disks: Vec::new(),
            sphere_names: Vec::new(),
            spheres: Vec::new(),
            light_names: Vec::new(),
            lights: Vec::new(),
        }
    }

    /// Appends a mesh record under its base name.
    pub fn add_mesh(&mut self, base_name: String, record: MeshRecord) -> (ret:
        &mut SceneDescriptionBuilder)
        requires
            record.wf(),
        ensures
            ret.mesh_names@ == old(self).mesh_names@.push(base_name),
            ret.meshes@ == old(self).meshes@.push(record),
            ret.cylinder_names == old(self).cylinder_names,
            ret.cylinders == old(self).cylinders,
            ret.disk_names == old(self).disk_names,
            ret.disks == old(self).disks,
            ret.sphere_names == old(self).sphere_names,
            ret.spheres == old(self).spheres,
            ret.light_names == old(self).light_names,
            ret.lights == old(self).lights,
            old(self).wf() ==> ret.wf(),
            *final(self) == *final(ret),
    {
        self.mesh_names.push(base_name);
        self.meshes.push(record);
        self
    }

    /// Appends a cylinder record under its base name.
    pub fn add_cylinder(&mut self, base_name: String, record: CylinderRecord) -> (ret:
        &mut SceneDescriptionBuilder)
        ensures
            ret.cylinder_names@ == old(self).cylinder_names@.push(base_name),
            ret.cylinders@ == old(self).cylinders@.push(record),
            ret.mesh_names == old(self).mesh_names,
            ret.meshes == old(self).meshes,
            ret.disk_names == old(self).disk_names,
            ret.disks == old(self).disks,
            ret.sphere_names == old(self).sphere_names,
            ret.spheres == old(self).spheres,
            ret.light_names == old(self).light_names,
            ret.lights == old(self).lights,
            old(self).wf() ==> ret.wf(),
            *final(self) == *final(ret),
    {
        self.cylinder_names.push(base_name);
        self.cylinders.push(record);
        self
    }

    /// Appends a disk record under its base name.
    pub fn add_disk(&mut self, base_name: String, record: DiskRecord) -> (ret:
        &mut SceneDescriptionBuilder)
        ensures
            ret.disk_names@ == old(self).disk_names@.push(base_name),
            ret.disks@ == old(self).disks@.push(record),
            ret.mesh_names == old(self).mesh_names,
            ret.meshes == old(self).meshes,
            ret.cylinder_names == old(self).cylinder_names,
            ret.cylinders == old(self).cylinders,
            ret.sphere_names == old(self).sphere_names,
            ret.spheres == old(self).spheres,
            ret.light_names == old(self).light_names,
            ret.lights == old(self).lights,
            old(self).wf() ==> ret.wf(),
            *final(self) == *final(ret),
    {
        self.disk_names.push(base_name);
        self.disks.push(record);
        self
    }

    /// Appends a sphere record under its base name.
    pub fn add_sphere(&mut self, base_name: String, record: SphereRecord) -> (ret:
        &mut SceneDescriptionBuilder)
        ensures
            ret.sphere_names@ == old(self).sphere_names@.push(base_name),
            ret.spheres@ == old(self).spheres@.push(record),
            ret.mesh_names == old(self).mesh_names,
            ret.meshes == old(self).meshes,
            ret.cylinder_names == old(self).cylinder_names,
            ret.cylinders == old(self).cylinders,
            ret.disk_names == old(self).disk_names,
            ret.disks == old(self).disks,
            ret.light_names == old(self).light_names,
            ret.lights == old(self).lights,
            old(self).wf() ==> ret.wf(),
            *final(self) == *final(ret),
    {
        self.sphere_names.push(base_name);
        self.spheres.push(record);
        self
    }

    /// Appends a point light under its base name.
    pub fn add_point_light(&mut self, base_name: String, position: Vec3, intensity: Rgb) -> (ret:
        &mut SceneDescriptionBuilder)
        ensures
            ret.light_names@ == old(self).light_names@.push(base_name),
            ret.lights@ == old(self).lights@.push(LightRecord::Point { position, intensity }),
            ret.mesh_names == old(self).mesh_names,
            ret.meshes == old(self).meshes,
            ret.cylinder_names == old(self).cylinder_names,
            ret.cylinders == old(self).cylinders,
            ret.disk_names == old(self).disk_names,
            ret.disks == old(self).disks,
            ret.sphere_names == old(self).sphere_names,
            ret.spheres == old(self).spheres,
            old(self).wf() ==> ret.wf(),
            *final(self) == *final(ret),
    {
        self.light_names.push(base_name);
        self.lights.push(LightRecord::Point { position, intensity });
        self
    }

    /// Appends a distant (directional) light under its base name.
    pub fn add_distant_light(&mut self, base_name: String, direction: Vec3, radiance: Rgb) -> (ret:
        &mut SceneDescriptionBuilder)
        ensures
            ret.light_names@ == old(self).light_names@.push(base_name),
            ret.lights@ == old(self).lights@.push(LightRecord::Distant { direction, radiance }),
            ret.mesh_names == old(self).mesh_names,
            ret.meshes == old(self).meshes,
            ret.cylinder_names == old(self).cylinder_names,
            ret.cylinders == old(self).cylinders,
            ret.disk_names == old(self).disk_names,
            ret.disks == old(self).disks,
            ret.sphere_names == old(self).sphere_names,
            ret.spheres == old(self).spheres,
            old(self).wf() ==> ret.wf(),
            *final(self) == *final(ret),
    {
        self.light_names.push(base_name);
        self.lights.push(LightRecord::Distant { direction, radiance });
        self
    }

    /// Appends an infinite (environment) light under its base name.
    pub fn add_infinite_light(&mut self, base_name: String, radiance: Rgb) -> (ret:
        &mut SceneDescriptionBuilder)
        ensures
            ret.light_names@ == old(self).light_names@.push(base_name),
            ret.lights@ == old(self).lights@.push(LightRecord::Infinite { radiance }),
            ret.mesh_names == old(self).mesh_names,
            ret.meshes == old(self).meshes,
            ret.cylinder_names == old(self).cylinder_names,
            ret.cylinders == old(self).cylinders,
            ret.disk_names == old(self).disk_names,
            ret.disks == old(self).disks,
            ret.sphere_names == old(self).sphere_names,
            ret.spheres == old(self).spheres,
            old(self).wf() ==> ret.wf(),
            *final(self) == *final(ret),
    {
        self.light_names.push(base_name);
        self.lights.push(LightRecord::Infinite { radiance });
        self
    }

    /// Consumes the builder and freezes its contents into an immutable
    /// scene description.
    pub fn finalize(self) -> (r: SceneDescription)
        ensures
            r.mesh_names == self.mesh_names,
            r.meshes == self.meshes,
            r.cylinder_names == self.cylinder_names,
            r.cylinders == self.cylinders,
            r.disk_names == self.disk_names,
            r.disks == self.disks,
            r.sphere_names == self.sphere_names,
            r.spheres == self.spheres,
            r.light_names == self.light_names,
            r.lights == self.lights,
            self.wf() ==> r.wf(),
    {
        SceneDescription {
            mesh_names: self.mesh_names,
            meshes: self.meshes,
            cylinder_names: self.cylinder_names,
            cylinders: self.cylinders,
            disk_names: self.disk_names,
            disks: self.disks,
            sphere_names: self.sphere_names,
            spheres: self.spheres,
            light_names: self.light_names,
            lights: self.lights,
        }
    }
}

} // verus!
