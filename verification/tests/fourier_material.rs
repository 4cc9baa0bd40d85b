use scene_pipeline::fourier::{
    Bsdf, Bxdf, FloatTexture, FourierBSDFTable, FourierMaterial, SurfaceInteraction,
    TransportMode,
};
use scene_pipeline::math::{Rgb, Vec3};

fn table() -> FourierBSDFTable {
    FourierBSDFTable {
        eta: 1300,
        m_max: 4,
        n_channels: 3,
        mu: vec![0, 250, 500, 1000],
        a: vec![10, 20, 30, 40, 50],
    }
}

fn interaction() -> SurfaceInteraction {
    SurfaceInteraction {
        p: Vec3 { x: 1, y: 2, z: 3 },
        n: Vec3 { x: 0, y: 0, z: 1000 },
        bsdf: None,
    }
}

#[test]
fn new_stores_table_and_bump_map() {
    let material = FourierMaterial::new(
        table(),
        Some(FloatTexture::Constant { value: 77 }),
    );
    assert_eq!(material.bsdf_table, table());
    assert_eq!(material.bump_map, Some(FloatTexture::Constant { value: 77 }));
}

#[test]
fn table_clone_copies_all_data() {
    let t = table();
    let c = t.clone();
    assert_eq!(c, t);
}

#[test]
fn scattering_appends_one_bxdf_and_one_bsdf() {
    let material = FourierMaterial::new(table(), None);
    let mut si = interaction();
    let mut arena_bsdf: Vec<Bsdf> = Vec::new();
    let mut arena_bxdf: Vec<Bxdf> = Vec::new();
    material.compute_scattering_functions(
        &mut si,
        &mut arena_bsdf,
        &mut arena_bxdf,
        TransportMode::Radiance,
        true,
        None,
        None,
    );
    assert_eq!(arena_bxdf.len(), 1);
    assert_eq!(arena_bsdf.len(), 1);
    let Bxdf::Fourier(f) = &arena_bxdf[0];
    assert_eq!(f.bsdf_table, table());
    assert_eq!(f.mode, TransportMode::Radiance);
    assert_eq!(f.scale, None);
    assert_eq!(arena_bsdf[0].eta, 1000);
    assert_eq!(arena_bsdf[0].bxdfs, vec![0]);
    assert_eq!(si.bsdf, Some(0));
    // The interaction's geometry is untouched.
    assert_eq!(si.p, Vec3 { x: 1, y: 2, z: 3 });
}

#[test]
fn scattering_records_spectral_scale_and_arena_offsets() {
    let material = FourierMaterial::new(table(), None);
    let mut si = interaction();
    let mut arena_bsdf: Vec<Bsdf> = Vec::new();
    let mut arena_bxdf: Vec<Bxdf> = Vec::new();
    // Pre-existing arena entries from an earlier interaction.
    material.compute_scattering_functions(
        &mut si,
        &mut arena_bsdf,
        &mut arena_bxdf,
        TransportMode::Radiance,
        false,
        None,
        None,
    );
    let scale = Rgb { r: 500, g: 500, b: 500 };
    material.compute_scattering_functions(
        &mut si,
        &mut arena_bsdf,
        &mut arena_bxdf,
        TransportMode::Importance,
        false,
        None,
        Some(scale),
    );
    assert_eq!(arena_bxdf.len(), 2);
    assert_eq!(arena_bsdf.len(), 2);
    let Bxdf::Fourier(f) = &arena_bxdf[1];
    assert_eq!(f.mode, TransportMode::Importance);
    assert_eq!(f.scale, Some(scale));
    assert_eq!(arena_bsdf[1].bxdfs, vec![1]);
    assert_eq!(si.bsdf, Some(1));
}

#[test]
fn bsdf_add_collects_indices_in_order() {
    let si = interaction();
    let mut bsdf = Bsdf::new(&si, 1500);
    bsdf.add(3);
    bsdf.add(7);
    assert_eq!(bsdf.eta, 1500);
    assert_eq!(bsdf.bxdfs, vec![3, 7]);
}
