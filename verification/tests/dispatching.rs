use scene_pipeline::dispatch::{
    build_render_setup, default_integrator_name, make_integrator, DispatchError, Integrator,
    LightStrategy,
};
use scene_pipeline::params::{ParamSet, ParamValue};

#[test]
fn whitted_defaults() {
    let ps = ParamSet::new();
    assert_eq!(make_integrator("whitted", &ps), Ok(Integrator::Whitted { max_depth: 5 }));
}

#[test]
fn path_and_volpath_defaults() {
    let ps = ParamSet::new();
    assert_eq!(make_integrator("path", &ps), Ok(Integrator::Path { max_depth: 5 }));
    assert_eq!(make_integrator("volpath", &ps), Ok(Integrator::VolPath { max_depth: 5 }));
}

#[test]
fn bdpt_defaults() {
    let ps = ParamSet::new();
    assert_eq!(make_integrator("bdpt", &ps), Ok(Integrator::Bdpt { max_depth: 5 }));
}

#[test]
fn maxdepth_override_applies() {
    let mut ps = ParamSet::new();
    ps.insert("maxdepth".to_owned(), ParamValue::Int(9));
    assert_eq!(make_integrator("path", &ps), Ok(Integrator::Path { max_depth: 9 }));
}

#[test]
fn direct_lighting_defaults_to_all_strategy() {
    let ps = ParamSet::new();
    assert_eq!(
        make_integrator("directlighting", &ps),
        Ok(Integrator::DirectLighting { max_depth: 5, strategy: LightStrategy::UniformSampleAll })
    );
}

#[test]
fn direct_lighting_one_strategy() {
    let mut ps = ParamSet::new();
    ps.insert("strategy".to_owned(), ParamValue::Str("one".to_owned()));
    assert_eq!(
        make_integrator("directlighting", &ps),
        Ok(Integrator::DirectLighting { max_depth: 5, strategy: LightStrategy::UniformSampleOne })
    );
}

#[test]
fn direct_lighting_unknown_strategy_is_fatal() {
    let mut ps = ParamSet::new();
    ps.insert("strategy".to_owned(), ParamValue::Str("most".to_owned()));
    assert_eq!(make_integrator("directlighting", &ps), Err(DispatchError::UnknownStrategy));
}

#[test]
fn mlt_defaults() {
    let ps = ParamSet::new();
    assert_eq!(
        make_integrator("mlt", &ps),
        Ok(Integrator::Mlt {
            max_depth: 5,
            bootstrap_samples: 100_000,
            chains: 1000,
            mutations_per_pixel: 100,
            large_step_probability: 300,
            sigma: 10,
        })
    );
}

#[test]
fn ao_defaults_under_both_names() {
    let ps = ParamSet::new();
    let expected = Ok(Integrator::Ao { cos_sample: true, n_samples: 64 });
    assert_eq!(make_integrator("ao", &ps), expected);
    assert_eq!(make_integrator("ambientocclusion", &ps), expected);
}

#[test]
fn ao_parameter_overrides() {
    let mut ps = ParamSet::new();
    ps.insert("cossample".to_owned(), ParamValue::Bool(false));
    ps.insert("nsamples".to_owned(), ParamValue::Int(128));
    assert_eq!(
        make_integrator("ao", &ps),
        Ok(Integrator::Ao { cos_sample: false, n_samples: 128 })
    );
}

#[test]
fn sppm_defaults() {
    let ps = ParamSet::new();
    assert_eq!(
        make_integrator("sppm", &ps),
        Ok(Integrator::Sppm {
            num_iterations: 64,
            max_depth: 5,
            photons_per_iteration: -1,
            image_write_frequency: 2_147_483_647,
        })
    );
}

#[test]
fn sppm_numiterations_sets_iteration_count() {
    let mut ps = ParamSet::new();
    ps.insert("numiterations".to_owned(), ParamValue::Int(32));
    let got = make_integrator("sppm", &ps).unwrap();
    assert!(matches!(got, Integrator::Sppm { num_iterations: 32, .. }));
}

#[test]
fn sppm_iterations_overrides_numiterations() {
    let mut ps = ParamSet::new();
    ps.insert("numiterations".to_owned(), ParamValue::Int(32));
    ps.insert("iterations".to_owned(), ParamValue::Int(16));
    let got = make_integrator("sppm", &ps).unwrap();
    assert!(matches!(got, Integrator::Sppm { num_iterations: 16, .. }));
}

#[test]
fn unknown_integrator_name_is_rejected_not_crashed() {
    let ps = ParamSet::new();
    assert_eq!(make_integrator("bogus123", &ps), Err(DispatchError::UnknownIntegrator));
}

#[test]
fn auto_selection_depends_on_emitters() {
    assert_eq!(default_integrator_name(true), "path");
    assert_eq!(default_integrator_name(false), "ao");
}

#[test]
fn dispatch_without_name_selects_ao_for_dark_scene() {
    let ps = ParamSet::new();
    let setup = build_render_setup(None, &ps, false).unwrap();
    assert!(matches!(setup.integrator, Integrator::Ao { .. }));
}

#[test]
fn dispatch_without_name_selects_path_for_emissive_scene() {
    let ps = ParamSet::new();
    let setup = build_render_setup(None, &ps, true).unwrap();
    assert!(matches!(setup.integrator, Integrator::Path { .. }));
}

#[test]
fn dispatch_with_unknown_name_reports_configuration_error() {
    let ps = ParamSet::new();
    assert_eq!(build_render_setup(Some("bogus123"), &ps, true), Err(DispatchError::UnknownIntegrator));
}

#[test]
fn render_setup_camera_film_and_sampler_defaults() {
    let ps = ParamSet::new();
    let setup = build_render_setup(Some("path"), &ps, false).unwrap();
    assert_eq!(setup.camera.fov, 90_000);
    assert_eq!(setup.camera.clip_start, 100);
    assert_eq!(setup.camera.filter_width, 2000);
    assert_eq!(setup.film.x_resolution, 1280);
    assert_eq!(setup.film.y_resolution, 720);
    assert_eq!(setup.sampler.samples_per_pixel, 16);
    assert_eq!(setup.pixel_bounds.x_min, 0);
    assert_eq!(setup.pixel_bounds.y_min, 0);
    assert_eq!(setup.pixel_bounds.x_max, 1280);
    assert_eq!(setup.pixel_bounds.y_max, 720);
}

#[test]
fn render_setup_resolution_flows_into_pixel_bounds() {
    let mut ps = ParamSet::new();
    ps.insert("xresolution".to_owned(), ParamValue::Int(640));
    ps.insert("yresolution".to_owned(), ParamValue::Int(480));
    ps.insert("pixelsamples".to_owned(), ParamValue::Int(4));
    ps.insert("fov".to_owned(), ParamValue::Scalar(45_000));
    let setup = build_render_setup(Some("path"), &ps, false).unwrap();
    assert_eq!(setup.film.x_resolution, 640);
    assert_eq!(setup.film.y_resolution, 480);
    assert_eq!(setup.pixel_bounds.x_max, 640);
    assert_eq!(setup.pixel_bounds.y_max, 480);
    assert_eq!(setup.sampler.samples_per_pixel, 4);
    assert_eq!(setup.camera.fov, 45_000);
}

#[test]
fn find_skips_entries_of_other_types() {
    let mut ps = ParamSet::new();
    // An entry of the wrong type under the right name is skipped.
    ps.insert("maxdepth".to_owned(), ParamValue::Scalar(9000));
    assert_eq!(make_integrator("path", &ps), Ok(Integrator::Path { max_depth: 5 }));
}

#[test]
fn find_takes_first_matching_entry() {
    let mut ps = ParamSet::new();
    ps.insert("maxdepth".to_owned(), ParamValue::Int(7));
    ps.insert("maxdepth".to_owned(), ParamValue::Int(11));
    assert_eq!(make_integrator("path", &ps), Ok(Integrator::Path { max_depth: 7 }));
}
