use scene_pipeline::materials::{classify, material_for, Material, MaterialClass, MaterialRecord, MatteAlbedo};
use scene_pipeline::math::{area_radiance, fixed_mul, rgb_scale, Rgb};

fn rgb(r: i64, g: i64, b: i64) -> Rgb {
    Rgb { r, g, b }
}

fn record(emission: i64, ang: i64, ray_mirror: i64, roughness: i64) -> MaterialRecord {
    MaterialRecord {
        diffuse: rgb(800, 600, 400),
        specular: rgb(100, 200, 300),
        mirror: rgb(500, 500, 500),
        emission,
        ang,
        ray_mirror,
        roughness,
    }
}

#[test]
fn emission_wins_over_everything() {
    // Emission positive, glass trigger set, mirror trigger set: still emissive.
    let m = record(2000, 1500, 700, 0);
    assert_eq!(classify(&m), MaterialClass::Emissive);
}

#[test]
fn glass_when_ang_differs_from_one() {
    let m = record(0, 1500, 700, 400);
    assert_eq!(classify(&m), MaterialClass::Glass);
}

#[test]
fn metal_when_reflective_and_rough() {
    let m = record(0, 1000, 700, 400);
    assert_eq!(classify(&m), MaterialClass::Metal);
}

#[test]
fn mirror_when_reflective_and_smooth() {
    let m = record(0, 1000, 700, 0);
    assert_eq!(classify(&m), MaterialClass::Mirror);
}

#[test]
fn matte_by_default() {
    let m = record(0, 1000, 0, 0);
    assert_eq!(classify(&m), MaterialClass::Matte);
}

#[test]
fn emissive_shape_gets_neutral_white_matte() {
    let m = record(2000, 1000, 0, 0);
    let mat = material_for(Some(m), None, None);
    assert_eq!(mat, Material::Matte { albedo: MatteAlbedo::Flat { color: rgb(1000, 1000, 1000) } });
}

#[test]
fn glass_takes_specular_as_transmittance_and_ang_as_ior() {
    let m = record(0, 1450, 0, 0);
    let mat = material_for(Some(m), None, None);
    assert_eq!(mat, Material::Glass { transmittance: rgb(100, 200, 300), ior: 1450 });
}

#[test]
fn metal_takes_record_roughness() {
    let m = record(0, 1000, 700, 250);
    let mat = material_for(Some(m), None, None);
    assert_eq!(mat, Material::Metal { roughness: 250 });
}

#[test]
fn mirror_tint_is_mirror_color_times_reflectance() {
    let m = record(0, 1000, 500, 0);
    let mat = material_for(Some(m), None, None);
    // 500 * 500 / 1000 = 250 per channel.
    assert_eq!(mat, Material::Mirror { tint: rgb(250, 250, 250) });
}

#[test]
fn missing_record_falls_back_to_white_matte() {
    let mat = material_for(None, Some("tex.png".to_owned()), None);
    assert_eq!(mat, Material::Matte { albedo: MatteAlbedo::Flat { color: rgb(1000, 1000, 1000) } });
}

#[test]
fn matte_prefers_texture_over_flat_diffuse() {
    let m = record(0, 1000, 0, 0);
    let mat = material_for(Some(m), Some("wood.png".to_owned()), None);
    assert_eq!(mat, Material::Matte { albedo: MatteAlbedo::Image { path: "wood.png".to_owned() } });
}

#[test]
fn triangle_color_overrides_texture() {
    let m = record(0, 1000, 0, 0);
    let mat = material_for(Some(m), Some("wood.png".to_owned()), Some(rgb(10, 20, 30)));
    assert_eq!(mat, Material::Matte { albedo: MatteAlbedo::Flat { color: rgb(10, 20, 30) } });
}

#[test]
fn matte_without_texture_or_colors_uses_flat_diffuse() {
    let m = record(0, 1000, 0, 0);
    let mat = material_for(Some(m), None, None);
    assert_eq!(mat, Material::Matte { albedo: MatteAlbedo::Flat { color: rgb(800, 600, 400) } });
}

#[test]
fn fixed_mul_rescales_by_one_thousand() {
    assert_eq!(fixed_mul(1500, 2000), 3000);
    assert_eq!(fixed_mul(0, 2000), 0);
    assert_eq!(fixed_mul(333, 333), 110);
}

#[test]
fn rgb_scale_scales_each_channel() {
    assert_eq!(rgb_scale(rgb(1000, 2000, 500), 3000), rgb(3000, 6000, 1500));
}

#[test]
fn area_radiance_is_color_times_emission_times_scale() {
    assert_eq!(area_radiance(rgb(1000, 2000, 500), 2000, 3000), rgb(6000, 12000, 3000));
}
