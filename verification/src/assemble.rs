//! Render-options assembly: the single pass that turns a frozen scene
//! description plus material/texture stores into the renderable aggregate.
//!
//! Shapes are processed in a fixed order — cylinders, disks, spheres, then
//! meshes, each mesh expanded into its individual triangles — and every
//! shape entry receives exactly one resolved material and an optional area
//! light. The three per-shape lists stay parallel throughout, and an area
//! light exists for a shape exactly when its resolved record classifies as
//! emissive.

use crate::geometry::{CylinderRecord, DiskRecord, LightRecord, MeshRecord, SphereRecord};
use crate::materials::{
    classify_spec, material_for, material_model_spec, Material, MaterialClass, MaterialModel,
    MaterialRecord,
};
use crate::math::{
    area_radiance, area_radiance_spec, scalar_wf, Rgb, Vec3,
};
use crate::resolve::{
    resolve_material, resolve_material_spec, resolve_texture, resolve_texture_spec, MaterialMap,
    TextureMap,
};
use crate::scene::SceneDescription;
use vstd::arithmetic::div_mod::lemma_fundamental_div_mod;
use vstd::prelude::*;

verus! {

/// One entry of the flattened shape list. Analytic primitives carry their
/// record; a mesh is flattened into one `Triangle` entry per triangle,
/// each carrying its world-space corner positions.
#[derive(Clone, Copy, Debug, PartialEq)]
pub enum Shape {
    Cylinder { record: CylinderRecord },
    Disk { record: DiskRecord },
    Sphere { record: SphereRecord },
    Triangle { v0: Vec3, v1: Vec3, v2: Vec3 },
}

/// The shape entry for triangle `t` of a mesh: its three corner positions
/// read through the index list.
pub open spec fn triangle_shape(m: MeshRecord, t: int) -> Shape {
    Shape::Triangle {
        v0: m.vertices@[m.indices@[3 * t] as int],
        v1: m.vertices@[m.indices@[3 * t + 1] as int],
        v2: m.vertices@[m.indices@[3 * t + 2] as int],
    }
}

/// All triangle entries of one mesh, in triangle order.
pub open spec fn mesh_shapes(m: MeshRecord) -> Seq<Shape> {
    Seq::new(m.tri_count() as nat, |t: int| triangle_shape(m, t))
}

/// Triangle entries of the first `k` meshes, concatenated in mesh order.
pub open spec fn mesh_flat_shapes_upto(s: SceneDescription, k: int) -> Seq<Shape>
    decreases k,
{
    if k <= 0 {
        Seq::empty()
    } else {
        mesh_flat_shapes_upto(s, k - 1) + mesh_shapes(s.meshes@[k - 1])
    }
}

/// Base names of the triangle entries of the first `k` meshes: each mesh's
/// name repeated once per triangle.
pub open spec fn mesh_flat_names_upto(s: SceneDescription, k: int) -> Seq<String>
    decreases k,
{
    if k <= 0 {
        Seq::empty()
    } else {
        mesh_flat_names_upto(s, k - 1) + Seq::new(
            s.meshes@[k - 1].tri_count() as nat,
            |t: int| s.mesh_names@[k - 1],
        )
    }
}

/// Per-triangle colors of the triangle entries of the first `k` meshes.
pub open spec fn mesh_flat_colors_upto(s: SceneDescription, k: int) -> Seq<Option<Rgb>>
    decreases k,
{
    if k <= 0 {
        Seq::empty()
    } else {
        mesh_flat_colors_upto(s, k - 1) + Seq::new(
            s.meshes@[k - 1].tri_count() as nat,
            |t: int| s.meshes@[k - 1].tri_color(t),
        )
    }
}

/// A run of `k` absent per-triangle colors (analytic primitives have none).
pub open spec fn none_colors(k: int) -> Seq<Option<Rgb>> {
    Seq::new(k as nat, |j: int| None::<Rgb>)
}

/// The full flattened shape list: cylinders, disks, spheres, then every
/// mesh triangle.
pub open spec fn flat_shapes_spec(s: SceneDescription) -> Seq<Shape> {
    s.cylinders@.map_values(|c: CylinderRecord| Shape::Cylinder { record: c })
        + s.disks@.map_values(|d: DiskRecord| Shape::Disk { record: d })
        + s.spheres@.map_values(|p: SphereRecord| Shape::Sphere { record: p })
        + mesh_flat_shapes_upto(s, s.meshes@.len() as int)
}

/// The base name of each flattened shape entry, in the same order.
pub open spec fn flat_names_spec(s: SceneDescription) -> Seq<String> {
    s.cylinder_names@ + s.disk_names@ + s.sphere_names@ + mesh_flat_names_upto(
        s,
        s.meshes@.len() as int,
    )
}

/// The per-triangle color of each flattened shape entry, in the same
/// order; absent for every analytic primitive.
pub open spec fn flat_colors_spec(s: SceneDescription) -> Seq<Option<Rgb>> {
    none_colors((s.cylinders@.len() + s.disks@.len() + s.spheres@.len()) as int)
        + mesh_flat_colors_upto(s, s.meshes@.len() as int)
}

/// The three per-mesh flattenings have the same length.
proof fn lemma_mesh_upto_lens(s: SceneDescription, k: int)
    requires
        0 <= k <= s.meshes@.len(),
    ensures
        mesh_flat_names_upto(s, k).len() == mesh_flat_shapes_upto(s, k).len(),
        mesh_flat_colors_upto(s, k).len() == mesh_flat_shapes_upto(s, k).len(),
    decreases k,
{
    if k > 0 {
        lemma_mesh_upto_lens(s, k - 1);
    }
}

/// The three flattened lists are parallel: one name and one color slot per
/// shape entry.
pub proof fn lemma_flat_lens(s: SceneDescription)
    requires
        s.wf(),
    ensures
        flat_names_spec(s).len() == flat_shapes_spec(s).len(),
        flat_colors_spec(s).len() == flat_shapes_spec(s).len(),
{
    lemma_mesh_upto_lens(s, s.meshes@.len() as int);
}

/// Taking one more element appends exactly that element.
proof fn lemma_take_push<T>(s: Seq<T>, i: int)
    requires
        0 <= i < s.len(),
    ensures
        s.take(i + 1) == s.take(i).push(s[i]),
{
    assert(s.take(i + 1) =~= s.take(i).push(s[i]));
}

/// Flattens the scene into parallel lists of base names, shape entries,
/// and per-triangle colors, in assembly order.
fn flatten(s: &SceneDescription) -> (r: (Vec<String>, Vec<Shape>, Vec<Option<Rgb>>))
    requires
        s.wf(),
    ensures
        r.0@ == flat_names_spec(*s),
        r.1@ == flat_shapes_spec(*s),
        r.2@ == flat_colors_spec(*s),
{
    let ghost cyl_shapes = s.cylinders@.map_values(
        |c: CylinderRecord| Shape::Cylinder { record: c },
    );
    let ghost disk_shapes = s.disks@.map_values(|d: DiskRecord| Shape::Disk { record: d });
    let ghost sphere_shapes = s.spheres@.map_values(|p: SphereRecord| Shape::Sphere { record: p });

    let mut names: Vec<String> = Vec::new();
    let mut shapes: Vec<Shape> = Vec::new();
    let mut colors: Vec<Option<Rgb>> = Vec::new();

    let n_cyl = s.cylinders.len();
    let mut i: usize = 0;
    while i < n_cyl
        invariant
            i <= n_cyl,
            n_cyl == s.cylinders@.len(),
            s.wf(),
            names@ == s.cylinder_names@.take(i as int),
            shapes@ == cyl_shapes.take(i as int),
            colors@ == none_colors(i as int),
            cyl_shapes == s.cylinders@.map_values(
                |c: CylinderRecord| Shape::Cylinder { record: c },
            ),
        decreases n_cyl - i,
    {
        proof {
            lemma_take_push(s.cylinder_names@, i as int);
            lemma_take_push(cyl_shapes, i as int);
            assert(none_colors(i as int + 1) =~= none_colors(i as int).push(None::<Rgb>));
        }
        names.push(s.cylinder_names[i].clone());
        shapes.push(Shape::Cylinder { record: s.cylinders[i] });
        colors.push(None);
        i = i + 1;
    }
    proof {
        assert(s.cylinder_names@.take(n_cyl as int) =~= s.cylinder_names@);
        assert(cyl_shapes.take(n_cyl as int) =~= cyl_shapes);
    }

    let n_disk = s.disks.len();
    let mut i: usize = 0;
    while i < n_disk
        invariant
            i <= n_disk,
            n_disk == s.disks@.len(),
            s.wf(),
            names@ == s.cylinder_names@ + s.disk_names@.take(i as int),
            shapes@ == cyl_shapes + disk_shapes.take(i as int),
            colors@ == none_colors(s.cylinders@.len() + i as int),
            cyl_shapes == s.cylinders@.map_values(
                |c: CylinderRecord| Shape::Cylinder { record: c },
            ),
            disk_shapes == s.disks@.map_values(|d: DiskRecord| Shape::Disk { record: d }),
        decreases n_disk - i,
    {
        proof {
            lemma_take_push(s.disk_names@, i as int);
            lemma_take_push(disk_shapes, i as int);
            assert(s.cylinder_names@ + s.disk_names@.take(i as int + 1) =~= (s.cylinder_names@
                + s.disk_names@.take(i as int)).push(s.disk_names@[i as int]));
            assert(cyl_shapes + disk_shapes.take(i as int + 1) =~= (cyl_shapes
                + disk_shapes.take(i as int)).push(disk_shapes[i as int]));
            assert(none_colors(s.cylinders@.len() + i as int + 1) =~= none_colors(
                s.cylinders@.len() + i as int,
            ).push(None::<Rgb>));
        }
        names.push(s.disk_names[i].clone());
        shapes.push(Shape::Disk { record: s.disks[i] });
        colors.push(None);
        i = i + 1;
    }
    proof {
        assert(s.disk_names@.take(n_disk as int) =~= s.disk_names@);
        assert(disk_shapes.take(n_disk as int) =~= disk_shapes);
    }

    let n_sph = s.spheres.len();
    let mut i: usize = 0;
    while i < n_sph
        invariant
            i <= n_sph,
            n_sph == s.spheres@.len(),
            s.wf(),
            names@ == s.cylinder_names@ + s.disk_names@ + s.sphere_names@.take(i as int),
            shapes@ == cyl_shapes + disk_shapes + sphere_shapes.take(i as int),
            colors@ == none_colors(s.cylinders@.len() + s.disks@.len() + i as int),
            cyl_shapes == s.cylinders@.map_values(
                |c: CylinderRecord| Shape::Cylinder { record: c },
            ),
            disk_shapes == s.disks@.map_values(|d: DiskRecord| Shape::Disk { record: d }),
            sphere_shapes == s.spheres@.map_values(
                |p: SphereRecord| Shape::Sphere { record: p },
            ),
        decreases n_sph - i,
    {
        proof {
            lemma_take_push(s.sphere_names@, i as int);
            lemma_take_push(sphere_shapes, i as int);
            assert(s.cylinder_names@ + s.disk_names@ + s.sphere_names@.take(i as int + 1) =~= (
            s.cylinder_names@ + s.disk_names@ + s.sphere_names@.take(i as int)).push(
                s.sphere_names@[i as int],
            ));
            assert(cyl_shapes + disk_shapes + sphere_shapes.take(i as int + 1) =~= (cyl_shapes
                + disk_shapes + sphere_shapes.take(i as int)).push(sphere_shapes[i as int]));
            assert(none_colors(s.cylinders@.len() + s.disks@.len() + i as int + 1)
                =~= none_colors(s.cylinders@.len() + s.disks@.len() + i as int).push(
                None::<Rgb>,
            ));
        }
        names.push(s.sphere_names[i].clone());
        shapes.push(Shape::Sphere { record: s.spheres[i] });
        colors.push(None);
        i = i + 1;
    }
    proof {
        assert(s.sphere_names@.take(n_sph as int) =~= s.sphere_names@);
        assert(sphere_shapes.take(n_sph as int) =~= sphere_shapes);
    }

    let ghost name_prefix = s.cylinder_names@ + s.disk_names@ + s.sphere_names@;
    let ghost shape_prefix = cyl_shapes + disk_shapes + sphere_shapes;
    let ghost color_prefix = none_colors(
        (s.cylinders@.len() + s.disks@.len() + s.spheres@.len()) as int,
    );
    proof {
        assert(names@ =~= name_prefix);
        assert(shapes@ =~= shape_prefix);
        assert(colors@ =~= color_prefix);
    }

    let n_mesh = s.meshes.len();
    let mut mi: usize = 0;
    while mi < n_mesh
        invariant
            mi <= n_mesh,
            n_mesh == s.meshes@.len(),
            s.wf(),
            names@ == name_prefix + mesh_flat_names_upto(*s, mi as int),
            shapes@ == shape_prefix + mesh_flat_shapes_upto(*s, mi as int),
            colors@ == color_prefix + mesh_flat_colors_upto(*s, mi as int),
        decreases n_mesh - mi,
    {
        let mesh = &s.meshes[mi];
        let tc = mesh.indices.len() / 3;
        proof {
            assert(s.meshes@[mi as int].wf());
            lemma_fundamental_div_mod(mesh.indices@.len() as int, 3);
            assert(3 * (mesh.indices@.len() as int / 3) == mesh.indices@.len() as int);
        }
        let ghost tri_names = Seq::new(
            s.meshes@[mi as int].tri_count() as nat,
            |t: int| s.mesh_names@[mi as int],
        );
        let ghost tri_shapes = mesh_shapes(s.meshes@[mi as int]);
        let ghost tri_colors = Seq::new(
            s.meshes@[mi as int].tri_count() as nat,
            |t: int| s.meshes@[mi as int].tri_color(t),
        );
        let mut t: usize = 0;
        while t < tc
            invariant
                t <= tc,
                mi < n_mesh,
                n_mesh == s.meshes@.len(),
                s.wf(),
                tc as int == s.meshes@[mi as int].tri_count(),
                3 * (tc as int) == s.meshes@[mi as int].indices@.len(),
                s.meshes@[mi as int].indices@.len() <= usize::MAX,
                mesh == s.meshes@[mi as int],
                tri_names == Seq::new(
                    s.meshes@[mi as int].tri_count() as nat,
                    |tt: int| s.mesh_names@[mi as int],
                ),
                tri_shapes == mesh_shapes(s.meshes@[mi as int]),
                tri_colors == Seq::new(
                    s.meshes@[mi as int].tri_count() as nat,
                    |tt: int| s.meshes@[mi as int].tri_color(tt),
                ),
                names@ == name_prefix + mesh_flat_names_upto(*s, mi as int) + tri_names.take(
                    t as int,
                ),
                shapes@ == shape_prefix + mesh_flat_shapes_upto(*s, mi as int) + tri_shapes.take(
                    t as int,
                ),
                colors@ == color_prefix + mesh_flat_colors_upto(*s, mi as int) + tri_colors.take(
                    t as int,
                ),
            decreases tc - t,
        {
            proof {
                lemma_take_push(tri_names, t as int);
                lemma_take_push(tri_shapes, t as int);
                lemma_take_push(tri_colors, t as int);
                assert(name_prefix + mesh_flat_names_upto(*s, mi as int) + tri_names.take(
                    t as int + 1,
                ) =~= (name_prefix + mesh_flat_names_upto(*s, mi as int) + tri_names.take(
                    t as int,
                )).push(tri_names[t as int]));
                assert(shape_prefix + mesh_flat_shapes_upto(*s, mi as int) + tri_shapes.take(
                    t as int + 1,
                ) =~= (shape_prefix + mesh_flat_shapes_upto(*s, mi as int) + tri_shapes.take(
                    t as int,
                )).push(tri_shapes[t as int]));
                assert(color_prefix + mesh_flat_colors_upto(*s, mi as int) + tri_colors.take(
                    t as int + 1,
                ) =~= (color_prefix + mesh_flat_colors_upto(*s, mi as int) + tri_colors.take(
                    t as int,
                )).push(tri_colors[t as int]));
            }
            proof {
                assert(3 * (t as int) + 2 < 3 * (tc as int));
            }
            let base = 3 * t;
            let i0 = mesh.indices[base];
            let i1 = mesh.indices[base + 1];
            let i2 = mesh.indices[base + 2];
            let v0 = mesh.vertices[i0];
            let v1 = mesh.vertices[i1];
            let v2 = mesh.vertices[i2];
            names.push(s.mesh_names[mi].clone());
            shapes.push(Shape::Triangle { v0, v1, v2 });
            let c = match &mesh.colors {
                Some(cs) => Some(cs[t]),
                None => None,
            };
            colors.push(c);
            t = t + 1;
        }
        proof {
            assert(tri_names.take(tc as int) =~= tri_names);
            assert(tri_shapes.take(tc as int) =~= tri_shapes);
            assert(tri_colors.take(tc as int) =~= tri_colors);
            assert(name_prefix + mesh_flat_names_upto(*s, mi as int) + tri_names =~= name_prefix
                + mesh_flat_names_upto(*s, mi as int + 1));
            assert(shape_prefix + mesh_flat_shapes_upto(*s, mi as int) + tri_shapes
                =~= shape_prefix + mesh_flat_shapes_upto(*s, mi as int + 1));
            assert(color_prefix + mesh_flat_colors_upto(*s, mi as int) + tri_colors
                =~= color_prefix + mesh_flat_colors_upto(*s, mi as int + 1));
        }
        mi = mi + 1;
    }
    (names, shapes, colors)
}

/// The material record that resolution finds for flattened entry `i`.
pub open spec fn record_at(
    names: Seq<String>,
    mats: Map<Seq<char>, MaterialRecord>,
    i: int,
) -> Option<MaterialRecord> {
    resolve_material_spec(mats, names[i]@)
}

/// Entry `i` is emissive: its resolved record exists and classifies as
/// emissive.
pub open spec fn emissive_at(names: Seq<String>, mats: Map<Seq<char>, MaterialRecord>, i: int) -> bool {
    match record_at(names, mats, i) {
        Some(m) => classify_spec(m) == MaterialClass::Emissive,
        None => false,
    }
}

/// The material assigned to flattened entry `i`, from its resolved
/// record, resolved texture, and per-triangle color.
pub open spec fn material_at(
    names: Seq<String>,
    colors: Seq<Option<Rgb>>,
    mats: Map<Seq<char>, MaterialRecord>,
    texs: Map<Seq<char>, Seq<char>>,
    i: int,
) -> MaterialModel {
    material_model_spec(
        record_at(names, mats, i),
        resolve_texture_spec(texs, names[i]@),
        colors[i],
    )
}

/// How many of the first `i` flattened entries are emissive.
pub open spec fn emissive_count_upto(
    names: Seq<String>,
    mats: Map<Seq<char>, MaterialRecord>,
    i: int,
) -> int
    decreases i,
{
    if i <= 0 {
        0
    } else {
        emissive_count_upto(names, mats, i - 1) + if emissive_at(names, mats, i - 1) {
            1int
        } else {
            0int
        }
    }
}

/// The radiance of the area light synthesized for emissive entry `i`.
pub open spec fn area_radiance_at(
    names: Seq<String>,
    mats: Map<Seq<char>, MaterialRecord>,
    light_scale: int,
    i: int,
) -> Rgb {
    match record_at(names, mats, i) {
        Some(m) => area_radiance_spec(m.diffuse, m.emission as int, light_scale),
        None => Rgb { r: 0, g: 0, b: 0 },
    }
}

/// The area lights synthesized for the emissive entries among the first
/// `i` flattened entries, in entry order.
pub open spec fn area_lights_upto(
    names: Seq<String>,
    mats: Map<Seq<char>, MaterialRecord>,
    light_scale: int,
    i: int,
) -> Seq<LightRecord>
    decreases i,
{
    if i <= 0 {
        Seq::empty()
    } else {
        let pre = area_lights_upto(names, mats, light_scale, i - 1);
        if emissive_at(names, mats, i - 1) {
            pre.push(
                LightRecord::Area {
                    shape_index: (i - 1) as usize,
                    radiance: area_radiance_at(names, mats, light_scale, i - 1),
                },
            )
        } else {
            pre
        }
    }
}

/// One synthesized area light per emissive entry.
proof fn lemma_area_lights_len(
    names: Seq<String>,
    mats: Map<Seq<char>, MaterialRecord>,
    light_scale: int,
    i: int,
)
    requires
        i >= 0,
    ensures
        area_lights_upto(names, mats, light_scale, i).len() == emissive_count_upto(names, mats, i),
    decreases i,
{
    if i > 0 {
        lemma_area_lights_len(names, mats, light_scale, i - 1);
    }
}

/// Emissive entries only accumulate: the count never decreases.
proof fn lemma_emissive_count_monotone(
    names: Seq<String>,
    mats: Map<Seq<char>, MaterialRecord>,
    i: int,
    j: int,
)
    requires
        0 <= i <= j,
    ensures
        emissive_count_upto(names, mats, i) <= emissive_count_upto(names, mats, j),
    decreases j,
{
    if j > i {
        lemma_emissive_count_monotone(names, mats, i, j - 1);
    }
}

/// The area-light handle of an emissive entry points at that entry's own
/// area light: within the synthesized lights for the first `n` entries,
/// position `emissive_count_upto(i)` holds the area light whose
/// `shape_index` is `i`. Together with the assembler's contract — handles
/// are `lights.len() + emissive_count_upto(i)` and the light list is the
/// ingested lights followed by the synthesized ones — every stored handle
/// resolves to the area light of its own shape.
pub proof fn lemma_area_light_handle(
    names: Seq<String>,
    mats: Map<Seq<char>, MaterialRecord>,
    light_scale: int,
    i: int,
    n: int,
)
    requires
        0 <= i < n,
        emissive_at(names, mats, i),
    ensures
        0 <= emissive_count_upto(names, mats, i) < area_lights_upto(
            names,
            mats,
            light_scale,
            n,
        ).len(),
        area_lights_upto(names, mats, light_scale, n)[emissive_count_upto(names, mats, i)]
            == (LightRecord::Area {
            shape_index: i as usize,
            radiance: area_radiance_at(names, mats, light_scale, i),
        }),
    decreases n,
{
    lemma_emissive_count_monotone(names, mats, 0, i);
    lemma_area_lights_len(names, mats, light_scale, i);
    lemma_area_lights_len(names, mats, light_scale, n);
    lemma_area_lights_len(names, mats, light_scale, n - 1);
    if n == i + 1 {
    } else {
        lemma_area_light_handle(names, mats, light_scale, i, n - 1);
    }
}

/// The renderable aggregate derived from one scene description: the
/// flattened shape list, a parallel resolved material per shape, a
/// parallel optional area-light handle per shape (an index into `lights`,
/// present exactly for emissive shapes), the full light list (ingested
/// lights first, synthesized area lights after), and a flag telling
/// whether any emissive geometry exists.
pub struct RenderOptions {
    pub has_emitters: bool,
    pub shapes: Vec<Shape>,
    pub shape_materials: Vec<Material>,
    pub shape_lights: Vec<Option<usize>>,
    pub lights: Vec<LightRecord>,
}

impl RenderOptions {
    /// The three per-shape lists are parallel.
    pub open spec fn wf(self) -> bool {
        &&& self.shape_materials@.len() == self.shapes@.len()
        &&& self.shape_lights@.len() == self.shapes@.len()
    }
}

/// Assembles the render options for a frozen scene: walks cylinders,
/// disks, spheres, then mesh triangles; resolves one material per shape
/// entry; synthesizes an area light for every emissive entry and appends
/// it to the ingested lights.
pub fn assemble_render_options(
    scene: &SceneDescription,
    materials: &MaterialMap,
    textures: &TextureMap,
    light_scale: i64,
) -> (r: RenderOptions)
    requires
        scene.wf(),
        materials.wf(),
        scalar_wf(light_scale),
    ensures
        r.wf(),
        r.shapes@ == flat_shapes_spec(*scene),
        forall|i: int|
            0 <= i < r.shapes@.len() ==> (#[trigger] r.shape_materials@[i])@ == material_at(
                flat_names_spec(*scene),
                flat_colors_spec(*scene),
                materials@,
                textures@,
                i,
            ),
        forall|i: int|
            0 <= i < r.shapes@.len() ==> ((#[trigger] r.shape_lights@[i]) is Some
                == emissive_at(flat_names_spec(*scene), materials@, i)),
        forall|i: int|
            0 <= i < r.shapes@.len() && emissive_at(flat_names_spec(*scene), materials@, i)
                ==> (#[trigger] r.shape_lights@[i]) == Some(
                (scene.lights@.len() + emissive_count_upto(
                    flat_names_spec(*scene),
                    materials@,
                    i,
                )) as usize,
            ),
        r.lights@ == scene.lights@ + area_lights_upto(
            flat_names_spec(*scene),
            materials@,
            light_scale as int,
            r.shapes@.len() as int,
        ),
        r.has_emitters == (emissive_count_upto(
            flat_names_spec(*scene),
            materials@,
            r.shapes@.len() as int,
        ) > 0),
{
    let ghost gn = flat_names_spec(*scene);
    let ghost gc = flat_colors_spec(*scene);
    let ghost gm = materials@;
    let ghost gt = textures@;
    let ghost gs = light_scale as int;
    proof {
        lemma_flat_lens(*scene);
    }
    let (names, shapes, colors) = flatten(scene);
    let n = shapes.len();

    let mut lights: Vec<LightRecord> = Vec::new();
    let n_lights = scene.lights.len();
    let mut li: usize = 0;
    while li < n_lights
        invariant
            li <= n_lights,
            n_lights == scene.lights@.len(),
            lights@ == scene.lights@.take(li as int),
        decreases n_lights - li,
    {
        proof {
            lemma_take_push(scene.lights@, li as int);
        }
        lights.push(scene.lights[li]);
        li = li + 1;
    }
    proof {
        assert(scene.lights@.take(n_lights as int) =~= scene.lights@);
        assert(lights@ + area_lights_upto(gn, gm, gs, 0) =~= lights@);
    }

    let mut shape_materials: Vec<Material> = Vec::new();
    let mut shape_lights: Vec<Option<usize>> = Vec::new();
    let mut has_emitters = false;

    let mut i: usize = 0;
    while i < n
        invariant
            i <= n,
            n == shapes@.len(),
            names@ == gn,
            colors@ == gc,
            gn.len() == n,
            gc.len() == n,
            gm == materials@,
            gt == textures@,
            gs == light_scale as int,
            materials.wf(),
            scalar_wf(light_scale),
            n_lights == scene.lights@.len(),
            shape_materials@.len() == i,
            forall|j: int|
                0 <= j < i ==> (#[trigger] shape_materials@[j])@ == material_at(gn, gc, gm, gt, j),
            shape_lights@.len() == i,
            forall|j: int|
                0 <= j < i ==> ((#[trigger] shape_lights@[j]) is Some == emissive_at(gn, gm, j)),
            forall|j: int|
                0 <= j < i && emissive_at(gn, gm, j) ==> (#[trigger] shape_lights@[j]) == Some(
                    (scene.lights@.len() + emissive_count_upto(gn, gm, j)) as usize,
                ),
            lights@ == scene.lights@ + area_lights_upto(gn, gm, gs, i as int),
            has_emitters == (emissive_count_upto(gn, gm, i as int) > 0),
        decreases n - i,
    {
        let name = &names[i];
        let rec = resolve_material(materials, name.as_str());
        let tex = resolve_texture(textures, name.as_str());
        let tri_color = colors[i];
        let mat = material_for(rec, tex, tri_color);
        proof {
            assert(rec == record_at(gn, gm, i as int));
            assert(mat@ == material_at(gn, gc, gm, gt, i as int));
            lemma_area_lights_len(gn, gm, gs, i as int);
        }
        let emissive = match rec {
            Some(m) => m.emission > 0,
            None => false,
        };
        proof {
            assert(emissive == emissive_at(gn, gm, i as int));
        }
        if emissive {
            let m = rec.unwrap();
            let radiance = area_radiance(m.diffuse, m.emission, light_scale);
            lights.push(LightRecord::Area { shape_index: i, radiance });
            shape_lights.push(Some(lights.len() - 1));
            has_emitters = true;
        } else {
            shape_lights.push(None);
        }
        shape_materials.push(mat);
        i = i + 1;
    }

    RenderOptions { has_emitters, shapes, shape_materials, shape_lights, lights }
}

/// The final renderable unit: one shape paired with its resolved material
/// and its optional area-light handle.
pub struct Primitive {
    pub shape: Shape,
    pub material: Material,
    pub area_light: Option<usize>,
}

/// Consumes assembled render options and pairs each shape with its
/// material and optional light handle, keeping entry order; returns the
/// primitives together with the light list.
pub fn build_primitives(opts: RenderOptions) -> (r: (Vec<Primitive>, Vec<LightRecord>))
    requires
        opts.wf(),
    ensures
        r.0@.len() == opts.shapes@.len(),
        forall|i: int|
            0 <= i < r.0@.len() ==> (#[trigger] r.0@[i]).shape == opts.shapes@[i]
                && r.0@[i].material == opts.shape_materials@[i] && r.0@[i].area_light
                == opts.shape_lights@[i],
        r.1@ == opts.lights@,
{
    let ghost g_shapes = opts.shapes@;
    let ghost g_mats = opts.shape_materials@;
    let ghost g_handles = opts.shape_lights@;
    let RenderOptions { has_emitters: _, mut shapes, mut shape_materials, mut shape_lights, lights } =
        opts;
    let n = shapes.len();

    let mut rev: Vec<Primitive> = Vec::new();
    while shapes.len() > 0
        invariant
            shapes@.len() <= n,
            n == g_shapes.len(),
            g_mats.len() == n,
            g_handles.len() == n,
            shapes@ == g_shapes.take(shapes@.len() as int),
            shape_materials@ == g_mats.take(shapes@.len() as int),
            shape_lights@ == g_handles.take(shapes@.len() as int),
            rev@.len() + shapes@.len() == n,
            forall|k: int|
                0 <= k < rev@.len() ==> (#[trigger] rev@[k]).shape == g_shapes[n - 1 - k]
                    && rev@[k].material == g_mats[n - 1 - k] && rev@[k].area_light == g_handles[n
                    - 1 - k],
        decreases shapes@.len(),
    {
        let ghost k = shapes@.len() as int;
        proof {
            assert(g_shapes.take(k).drop_last() =~= g_shapes.take(k - 1));
            assert(g_mats.take(k).drop_last() =~= g_mats.take(k - 1));
            assert(g_handles.take(k).drop_last() =~= g_handles.take(k - 1));
        }
        let shape = shapes.pop().unwrap();
        let material = shape_materials.pop().unwrap();
        let area_light = shape_lights.pop().unwrap();
        rev.push(Primitive { shape, material, area_light });
    }

    let ghost g_rev = rev@;
    let mut prims: Vec<Primitive> = Vec::new();
    while rev.len() > 0
        invariant
            rev@.len() + prims@.len() == n,
            n == g_shapes.len(),
            g_mats.len() == n,
            g_handles.len() == n,
            g_rev.len() == n,
            rev@ == g_rev.take(rev@.len() as int),
            forall|k: int|
                0 <= k < n ==> (#[trigger] g_rev[k]).shape == g_shapes[n - 1 - k]
                    && g_rev[k].material == g_mats[n - 1 - k] && g_rev[k].area_light == g_handles[n
                    - 1 - k],
            forall|j: int|
                0 <= j < prims@.len() ==> (#[trigger] prims@[j]).shape == g_shapes[j]
                    && prims@[j].material == g_mats[j] && prims@[j].area_light == g_handles[j],
        decreases rev@.len(),
    {
        let ghost k = rev@.len() as int;
        proof {
            assert(g_rev.take(k).drop_last() =~= g_rev.take(k - 1));
            assert(g_rev.take(k).last() == g_rev[k - 1]);
        }
        let p = rev.pop().unwrap();
        prims.push(p);
    }
    (prims, lights)
}

/// The flattened index at which mesh `mi`'s triangles begin.
pub open spec fn mesh_tri_base(s: SceneDescription, mi: int) -> int {
    s.cylinders@.len() + s.disks@.len() + s.spheres@.len() + mesh_flat_shapes_upto(s, mi).len()
        as int
}

/// Within the per-mesh flattenings of the first `k` meshes, triangle `t`
/// of mesh `mi` sits at the length of mesh `mi`'s own prefix plus `t`.
proof fn lemma_mesh_upto_index(s: SceneDescription, k: int, mi: int, t: int)
    requires
        0 <= mi < k <= s.meshes@.len(),
        0 <= t < s.meshes@[mi].tri_count(),
    ensures
        mesh_flat_shapes_upto(s, mi).len() + t < mesh_flat_shapes_upto(s, k).len(),
        mesh_flat_names_upto(s, k)[mesh_flat_shapes_upto(s, mi).len() + t]
            == s.mesh_names@[mi],
        mesh_flat_shapes_upto(s, k)[mesh_flat_shapes_upto(s, mi).len() + t]
            == triangle_shape(s.meshes@[mi], t),
        mesh_flat_colors_upto(s, k)[mesh_flat_shapes_upto(s, mi).len() + t]
            == s.meshes@[mi].tri_color(t),
    decreases k,
{
    lemma_mesh_upto_lens(s, mi);
    lemma_mesh_upto_lens(s, k - 1);
    if k - 1 == mi {
    } else {
        lemma_mesh_upto_index(s, k - 1, mi, t);
    }
}

/// Where triangle `t` of mesh `mi` lands in the flattened lists: its
/// entry sits at `mesh_tri_base(s, mi) + t`, carries the mesh's base name
/// and the triangle's color, and is the triangle's shape.
pub proof fn lemma_mesh_triangle_entry(s: SceneDescription, mi: int, t: int)
    requires
        s.wf(),
        0 <= mi < s.meshes@.len(),
        0 <= t < s.meshes@[mi].tri_count(),
    ensures
        0 <= mesh_tri_base(s, mi) + t < flat_shapes_spec(s).len(),
        flat_names_spec(s)[mesh_tri_base(s, mi) + t] == s.mesh_names@[mi],
        flat_shapes_spec(s)[mesh_tri_base(s, mi) + t] == triangle_shape(s.meshes@[mi], t),
        flat_colors_spec(s)[mesh_tri_base(s, mi) + t] == s.meshes@[mi].tri_color(t),
{
    lemma_mesh_upto_index(s, s.meshes@.len() as int, mi, t);
    lemma_mesh_upto_lens(s, mi);
    lemma_mesh_upto_lens(s, s.meshes@.len() as int);
}

/// A mesh with per-triangle colors produces one matte material per
/// triangle: when the mesh's record classifies as matte, the material
/// assembled for triangle `t` is exactly the matte material whose flat
/// albedo is the triangle's own color, whatever texture would otherwise
/// apply.
pub proof fn lemma_mesh_colors_per_triangle(
    s: SceneDescription,
    mats: Map<Seq<char>, MaterialRecord>,
    texs: Map<Seq<char>, Seq<char>>,
    mi: int,
    t: int,
    color: Rgb,
)
    requires
        s.wf(),
        0 <= mi < s.meshes@.len(),
        0 <= t < s.meshes@[mi].tri_count(),
        s.meshes@[mi].tri_color(t) == Some(color),
        resolve_material_spec(mats, s.mesh_names@[mi]@) matches Some(m) && classify_spec(m)
            == MaterialClass::Matte,
    ensures
        material_at(
            flat_names_spec(s),
            flat_colors_spec(s),
            mats,
            texs,
            mesh_tri_base(s, mi) + t,
        ) == (MaterialModel::Matte {
            albedo: crate::materials::AlbedoModel::Flat { color },
        }),
{
    lemma_mesh_triangle_entry(s, mi, t);
    lemma_flat_lens(s);
}

} // verus!
