use scene_pipeline::assemble::{assemble_render_options, build_primitives, Shape};
use scene_pipeline::geometry::{
    CylinderRecord, DiskRecord, LightRecord, MeshRecord, SphereRecord,
};
use scene_pipeline::materials::{Material, MaterialRecord, MatteAlbedo};
use scene_pipeline::math::{Rgb, Transform, Vec3};
use scene_pipeline::resolve::{MaterialMap, TextureMap};
use scene_pipeline::scene::SceneDescriptionBuilder;

fn rgb(r: i64, g: i64, b: i64) -> Rgb {
    Rgb { r, g, b }
}

fn v3(x: i64, y: i64, z: i64) -> Vec3 {
    Vec3 { x, y, z }
}

fn identity() -> Transform {
    let mut m = [0i64; 16];
    m[0] = 1000;
    m[5] = 1000;
    m[10] = 1000;
    m[15] = 1000;
    Transform { m, m_inv: m }
}

fn sphere() -> SphereRecord {
    SphereRecord { transform: identity(), radius: 1000, z_min: -1000, z_max: 1000, phi_max: 360_000 }
}

fn cylinder() -> CylinderRecord {
    CylinderRecord { transform: identity(), radius: 500, z_min: 0, z_max: 2000, phi_max: 360_000 }
}

fn disk() -> DiskRecord {
    DiskRecord { transform: identity(), height: 0, radius: 700, inner_radius: 0, phi_max: 360_000 }
}

fn quad_mesh(colors: Option<Vec<Rgb>>) -> MeshRecord {
    MeshRecord {
        transform: identity(),
        vertices: vec![v3(0, 0, 0), v3(1000, 0, 0), v3(1000, 1000, 0), v3(0, 1000, 0)],
        normals: None,
        colors,
        indices: vec![0, 1, 2, 0, 2, 3],
    }
}

fn matte_record(diffuse: Rgb) -> MaterialRecord {
    MaterialRecord {
        diffuse,
        specular: rgb(0, 0, 0),
        mirror: rgb(0, 0, 0),
        emission: 0,
        ang: 1000,
        ray_mirror: 0,
        roughness: 0,
    }
}

fn emissive_record(diffuse: Rgb, emission: i64) -> MaterialRecord {
    MaterialRecord { emission, ..matte_record(diffuse) }
}

#[test]
fn builder_keeps_parallel_lists_in_order() {
    let mut b = SceneDescriptionBuilder::new();
    b.add_cylinder("Cyl".to_owned(), cylinder())
        .add_sphere("Ball".to_owned(), sphere())
        .add_sphere("Ball2".to_owned(), sphere())
        .add_point_light("Lamp".to_owned(), v3(0, 0, 5000), rgb(1000, 1000, 1000));
    let scene = b.finalize();
    assert_eq!(scene.cylinder_names, vec!["Cyl".to_owned()]);
    assert_eq!(scene.sphere_names, vec!["Ball".to_owned(), "Ball2".to_owned()]);
    assert_eq!(scene.spheres.len(), 2);
    assert_eq!(scene.light_names, vec!["Lamp".to_owned()]);
    assert_eq!(
        scene.lights,
        vec![LightRecord::Point { position: v3(0, 0, 5000), intensity: rgb(1000, 1000, 1000) }]
    );
}

#[test]
fn parallel_lists_and_light_flags_line_up() {
    let mut b = SceneDescriptionBuilder::new();
    b.add_cylinder("Cyl".to_owned(), cylinder())
        .add_disk("Disk".to_owned(), disk())
        .add_sphere("Lamp".to_owned(), sphere())
        .add_mesh("Quad".to_owned(), quad_mesh(None));
    let scene = b.finalize();

    let mut materials = MaterialMap::new();
    materials.insert("Lamp".to_owned(), emissive_record(rgb(1000, 500, 0), 2000));
    materials.insert("Quad".to_owned(), matte_record(rgb(100, 100, 100)));
    let textures = TextureMap::new();

    let opts = assemble_render_options(&scene, &materials, &textures, 1000);
    // Cylinder, disk, sphere, then two mesh triangles.
    assert_eq!(opts.shapes.len(), 5);
    assert_eq!(opts.shape_materials.len(), opts.shapes.len());
    assert_eq!(opts.shape_lights.len(), opts.shapes.len());
    // Only the sphere (index 2) resolved to an emissive record.
    assert!(opts.has_emitters);
    for (i, handle) in opts.shape_lights.iter().enumerate() {
        assert_eq!(handle.is_some(), i == 2, "entry {i}");
    }
}

#[test]
fn assembly_walks_cylinders_disks_spheres_then_triangles() {
    let mut b = SceneDescriptionBuilder::new();
    // Insertion order deliberately differs from assembly order.
    b.add_mesh("Quad".to_owned(), quad_mesh(None))
        .add_sphere("Ball".to_owned(), sphere())
        .add_disk("Disk".to_owned(), disk())
        .add_cylinder("Cyl".to_owned(), cylinder());
    let scene = b.finalize();
    let opts = assemble_render_options(&scene, &MaterialMap::new(), &TextureMap::new(), 1000);
    assert_eq!(opts.shapes.len(), 5);
    assert_eq!(opts.shapes[0], Shape::Cylinder { record: cylinder() });
    assert_eq!(opts.shapes[1], Shape::Disk { record: disk() });
    assert_eq!(opts.shapes[2], Shape::Sphere { record: sphere() });
    assert_eq!(
        opts.shapes[3],
        Shape::Triangle { v0: v3(0, 0, 0), v1: v3(1000, 0, 0), v2: v3(1000, 1000, 0) }
    );
    assert_eq!(
        opts.shapes[4],
        Shape::Triangle { v0: v3(0, 0, 0), v1: v3(1000, 1000, 0), v2: v3(0, 1000, 0) }
    );
}

#[test]
fn mesh_colors_make_one_matte_per_triangle() {
    let c0 = rgb(900, 100, 100);
    let c1 = rgb(100, 900, 100);
    let mut b = SceneDescriptionBuilder::new();
    b.add_mesh("Quad".to_owned(), quad_mesh(Some(vec![c0, c1])));
    let scene = b.finalize();

    let mut materials = MaterialMap::new();
    materials.insert("Quad".to_owned(), matte_record(rgb(500, 500, 500)));
    // A texture that would otherwise apply: the colors override it.
    let mut textures = TextureMap::new();
    textures.insert("Quad".to_owned(), "quad.png".to_owned());

    let opts = assemble_render_options(&scene, &materials, &textures, 1000);
    assert_eq!(opts.shape_materials.len(), 2);
    assert_eq!(
        opts.shape_materials[0],
        Material::Matte { albedo: MatteAlbedo::Flat { color: c0 } }
    );
    assert_eq!(
        opts.shape_materials[1],
        Material::Matte { albedo: MatteAlbedo::Flat { color: c1 } }
    );
}

#[test]
fn mesh_without_colors_takes_texture() {
    let mut b = SceneDescriptionBuilder::new();
    b.add_mesh("Quad".to_owned(), quad_mesh(None));
    let scene = b.finalize();
    let mut materials = MaterialMap::new();
    materials.insert("Quad".to_owned(), matte_record(rgb(500, 500, 500)));
    let mut textures = TextureMap::new();
    textures.insert("Quad".to_owned(), "quad.png".to_owned());
    let opts = assemble_render_options(&scene, &materials, &textures, 1000);
    assert_eq!(
        opts.shape_materials[0],
        Material::Matte { albedo: MatteAlbedo::Image { path: "quad.png".to_owned() } }
    );
    assert_eq!(
        opts.shape_materials[1],
        Material::Matte { albedo: MatteAlbedo::Image { path: "quad.png".to_owned() } }
    );
}

#[test]
fn sphere_resolved_through_fallback_produces_one_untouched_entry() {
    // One sphere named "Sphere1"; the map only knows "Sphere": the
    // digit-stripping fallback finds it.
    let mut b = SceneDescriptionBuilder::new();
    b.add_sphere("Sphere1".to_owned(), sphere());
    let scene = b.finalize();
    let mut materials = MaterialMap::new();
    materials.insert("Sphere".to_owned(), matte_record(rgb(700, 0, 0)));
    let opts = assemble_render_options(&scene, &materials, &TextureMap::new(), 1000);
    assert_eq!(opts.shapes.len(), 1);
    assert_eq!(opts.shape_materials.len(), 1);
    assert_eq!(
        opts.shape_materials[0],
        Material::Matte { albedo: MatteAlbedo::Flat { color: rgb(700, 0, 0) } }
    );
    assert_eq!(opts.shape_lights[0], None);
    assert!(!opts.has_emitters);
}

#[test]
fn unresolved_shape_gets_white_matte_not_dropped() {
    let mut b = SceneDescriptionBuilder::new();
    b.add_sphere("Mystery".to_owned(), sphere());
    let scene = b.finalize();
    let opts = assemble_render_options(&scene, &MaterialMap::new(), &TextureMap::new(), 1000);
    assert_eq!(opts.shapes.len(), 1);
    assert_eq!(
        opts.shape_materials[0],
        Material::Matte { albedo: MatteAlbedo::Flat { color: rgb(1000, 1000, 1000) } }
    );
}

#[test]
fn emissive_shape_synthesizes_area_light_after_scene_lights() {
    let mut b = SceneDescriptionBuilder::new();
    b.add_point_light("Lamp".to_owned(), v3(0, 0, 5000), rgb(1000, 1000, 1000))
        .add_sphere("Glow".to_owned(), sphere());
    let scene = b.finalize();
    let mut materials = MaterialMap::new();
    materials.insert("Glow".to_owned(), emissive_record(rgb(1000, 2000, 500), 2000));
    let opts = assemble_render_options(&scene, &materials, &TextureMap::new(), 3000);
    assert!(opts.has_emitters);
    assert_eq!(opts.lights.len(), 2);
    assert_eq!(
        opts.lights[0],
        LightRecord::Point { position: v3(0, 0, 5000), intensity: rgb(1000, 1000, 1000) }
    );
    // radiance = diffuse * emission * light_scale.
    assert_eq!(
        opts.lights[1],
        LightRecord::Area { shape_index: 0, radiance: rgb(6000, 12000, 3000) }
    );
    assert_eq!(opts.shape_lights[0], Some(1));
    // The emissive shape itself shades as neutral white matte.
    assert_eq!(
        opts.shape_materials[0],
        Material::Matte { albedo: MatteAlbedo::Flat { color: rgb(1000, 1000, 1000) } }
    );
}

#[test]
fn primitives_pair_shapes_materials_and_handles() {
    let mut b = SceneDescriptionBuilder::new();
    b.add_sphere("Glow".to_owned(), sphere()).add_cylinder("Cyl".to_owned(), cylinder());
    let scene = b.finalize();
    let mut materials = MaterialMap::new();
    materials.insert("Glow".to_owned(), emissive_record(rgb(1000, 1000, 1000), 1000));
    materials.insert("Cyl".to_owned(), matte_record(rgb(200, 300, 400)));
    let opts = assemble_render_options(&scene, &materials, &TextureMap::new(), 1000);

    let expected_shapes = opts.shapes.clone();
    let expected_materials = opts.shape_materials.clone();
    let expected_handles = opts.shape_lights.clone();
    let expected_lights = opts.lights.clone();

    let (primitives, lights) = build_primitives(opts);
    assert_eq!(primitives.len(), 2);
    assert_eq!(lights, expected_lights);
    for (i, p) in primitives.iter().enumerate() {
        assert_eq!(p.shape, expected_shapes[i]);
        assert_eq!(p.material, expected_materials[i]);
        assert_eq!(p.area_light, expected_handles[i]);
    }
}
