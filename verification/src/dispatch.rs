//! Integrator selection and dispatch: from an integrator name (or the
//! auto-selected default) and a parameter bag to a fully configured render
//! setup — camera, film, sampler, pixel bounds, and the integrator with
//! validated, defaulted parameters.
//!
//! The dispatcher is a pure request-to-response constructor: it holds no
//! state across calls. An unrecognized integrator name, or an unrecognized
//! direct-lighting strategy, is a fatal configuration error reported to
//! the caller; nothing is silently rendered without an integrator.

use crate::names::str_eq;
use crate::params::{
    find_bool_spec, find_int_spec, find_scalar_spec, find_str_spec, ParamModel, ParamSet,
};
use vstd::prelude::*;

verus! {

/// Default ray-tree depth for the depth-bounded integrators.
pub const DEFAULT_MAX_DEPTH: i64 = 5;

/// Default sample count of the low-discrepancy sampler.
pub const DEFAULT_PIXEL_SAMPLES: i64 = 16;

/// Default image-write-frequency sentinel of the photon mapper: far more
/// iterations than any run performs, so the image is effectively written
/// only at the end.
pub const SPPM_WRITE_FREQUENCY_SENTINEL: i64 = 2_147_483_647;

/// How direct lighting samples the light list: every light per shading
/// point, or one light chosen at random.
#[derive(Clone, Copy, Debug, PartialEq, Eq, Structural)]
pub enum LightStrategy {
    UniformSampleAll,
    UniformSampleOne,
}

/// A fatal configuration error: the run aborts rather than rendering
/// without a valid setup.
#[derive(Clone, Copy, Debug, PartialEq, Eq, Structural)]
pub enum DispatchError {
    /// The integrator name matches no known algorithm.
    UnknownIntegrator,
    /// The direct-lighting strategy string is neither "all" nor "one".
    UnknownStrategy,
}

/// One of the light-transport algorithms, with its validated parameters.
/// Fixed-point fields carry thousandths, like every scalar in the crate.
#[derive(Clone, Copy, Debug, PartialEq, Eq, Structural)]
pub enum Integrator {
    /// Whitted-style ray tracing.
    Whitted { max_depth: i64 },
    /// Direct lighting only, with the chosen light-sampling strategy.
    DirectLighting { max_depth: i64, strategy: LightStrategy },
    /// Unidirectional path tracing.
    Path { max_depth: i64 },
    /// Path tracing with participating media.
    VolPath { max_depth: i64 },
    /// Bidirectional path tracing; its light sampling is fixed to the
    /// power heuristic.
    Bdpt { max_depth: i64 },
    /// Metropolis light transport.
    Mlt {
        max_depth: i64,
        bootstrap_samples: i64,
        chains: i64,
        mutations_per_pixel: i64,
        large_step_probability: i64,
        sigma: i64,
    },
    /// Ambient occlusion.
    Ao { cos_sample: bool, n_samples: i64 },
    /// Stochastic progressive photon mapping. A negative
    /// `photons_per_iteration` means "derive from the pixel count", and is
    /// passed through unchanged.
    Sppm {
        num_iterations: i64,
        max_depth: i64,
        photons_per_iteration: i64,
        image_write_frequency: i64,
    },
}

/// A perspective camera: field of view, clipping-start distance, and the
/// width of its fixed Gaussian reconstruction filter.
#[derive(Clone, Copy, Debug, PartialEq, Eq, Structural)]
pub struct CameraConfig {
    pub fov: i64,
    pub clip_start: i64,
    pub filter_width: i64,
}

/// The film resolution.
#[derive(Clone, Copy, Debug, PartialEq, Eq, Structural)]
pub struct FilmConfig {
    pub x_resolution: i64,
    pub y_resolution: i64,
}

/// The low-discrepancy sampler, parameterized by samples per pixel.
#[derive(Clone, Copy, Debug, PartialEq, Eq, Structural)]
pub struct SamplerConfig {
    pub samples_per_pixel: i64,
}

/// The pixel rectangle the integrator renders.
#[derive(Clone, Copy, Debug, PartialEq, Eq, Structural)]
pub struct Bounds2i {
    pub x_min: i64,
    pub y_min: i64,
    pub x_max: i64,
    pub y_max: i64,
}

/// Everything one render invocation needs: camera, film, sampler, pixel
/// bounds, and the configured integrator.
#[derive(Clone, Copy, Debug, PartialEq, Eq, Structural)]
pub struct RenderSetup {
    pub camera: CameraConfig,
    pub film: FilmConfig,
    pub sampler: SamplerConfig,
    pub pixel_bounds: Bounds2i,
    pub integrator: Integrator,
}

/// The integrator name used when the caller supplies none: path tracing
/// for a scene with emitters, ambient occlusion otherwise (ambient
/// occlusion needs no light source to produce a meaningful image).
pub open spec fn default_integrator_name_spec(has_emitters: bool) -> Seq<char> {
    if has_emitters {
        "path"@
    } else {
        "ao"@
    }
}

/// Returns the auto-selected integrator name for a scene.
pub fn default_integrator_name(has_emitters: bool) -> (r: String)
    ensures
        r@ == default_integrator_name_spec(has_emitters),
{
    if has_emitters {
        "path".to_owned()
    } else {
        "ao".to_owned()
    }
}

/// The integrator built for `name` from the parameter bag, or the
/// configuration error that rejects the request.
pub open spec fn make_integrator_spec(
    name: Seq<char>,
    ps: Seq<(Seq<char>, ParamModel)>,
) -> Result<Integrator, DispatchError> {
    if name == "whitted"@ {
        Ok(Integrator::Whitted { max_depth: find_int_spec(ps, "maxdepth"@, DEFAULT_MAX_DEPTH) })
    } else if name == "directlighting"@ {
        if find_str_spec(ps, "strategy"@, "all"@) == "all"@ {
            Ok(
                Integrator::DirectLighting {
                    max_depth: find_int_spec(ps, "maxdepth"@, DEFAULT_MAX_DEPTH),
                    strategy: LightStrategy::UniformSampleAll,
                },
            )
        } else if find_str_spec(ps, "strategy"@, "all"@) == "one"@ {
            Ok(
                Integrator::DirectLighting {
                    max_depth: find_int_spec(ps, "maxdepth"@, DEFAULT_MAX_DEPTH),
                    strategy: LightStrategy::UniformSampleOne,
                },
            )
        } else {
            Err(DispatchError::UnknownStrategy)
        }
    } else if name == "path"@ {
        Ok(Integrator::Path { max_depth: find_int_spec(ps, "maxdepth"@, DEFAULT_MAX_DEPTH) })
    } else if name == "volpath"@ {
        Ok(Integrator::VolPath { max_depth: find_int_spec(ps, "maxdepth"@, DEFAULT_MAX_DEPTH) })
    } else if name == "bdpt"@ {
        Ok(Integrator::Bdpt { max_depth: find_int_spec(ps, "maxdepth"@, DEFAULT_MAX_DEPTH) })
    } else if name == "mlt"@ {
        Ok(
            Integrator::Mlt {
                max_depth: find_int_spec(ps, "maxdepth"@, DEFAULT_MAX_DEPTH),
                bootstrap_samples: find_int_spec(ps, "bootstrapsamples"@, 100_000),
                chains: find_int_spec(ps, "chains"@, 1000),
                mutations_per_pixel: find_int_spec(ps, "mutationsperpixel"@, 100),
                large_step_probability: find_scalar_spec(ps, "largestepprobability"@, 300),
                sigma: find_scalar_spec(ps, "sigma"@, 10),
            },
        )
    } else if name == "ao"@ || name == "ambientocclusion"@ {
        Ok(
            Integrator::Ao {
                cos_sample: find_bool_spec(ps, "cossample"@, true),
                n_samples: find_int_spec(ps, "nsamples"@, 64),
            },
        )
    } else if name == "sppm"@ {
        Ok(
            Integrator::Sppm {
                num_iterations: find_int_spec(
                    ps,
                    "iterations"@,
                    find_int_spec(ps, "numiterations"@, 64),
                ),
                max_depth: find_int_spec(ps, "maxdepth"@, DEFAULT_MAX_DEPTH),
                photons_per_iteration: find_int_spec(ps, "photonsperiteration"@, -1i64),
                image_write_frequency: find_int_spec(
                    ps,
                    "imagewritefrequency"@,
                    SPPM_WRITE_FREQUENCY_SENTINEL,
                ),
            },
        )
    } else {
        Err(DispatchError::UnknownIntegrator)
    }
}

/// Builds the integrator named `name` from the parameter bag.
pub fn make_integrator(name: &str, params: &ParamSet) -> (r: Result<Integrator, DispatchError>)
    ensures
        r == make_integrator_spec(name@, params@),
{
    if str_eq(name, "whitted") {
        Ok(Integrator::Whitted { max_depth: params.find_int("maxdepth", DEFAULT_MAX_DEPTH) })
    } else if str_eq(name, "directlighting") {
        let strategy = params.find_str("strategy", "all");
        if str_eq(strategy.as_str(), "all") {
            Ok(
                Integrator::DirectLighting {
                    max_depth: params.find_int("maxdepth", DEFAULT_MAX_DEPTH),
                    strategy: LightStrategy::UniformSampleAll,
                },
            )
        } else if str_eq(strategy.as_str(), "one") {
            Ok(
                Integrator::DirectLighting {
                    max_depth: params.find_int("maxdepth", DEFAULT_MAX_DEPTH),
                    strategy: LightStrategy::UniformSampleOne,
                },
            )
        } else {
            Err(DispatchError::UnknownStrategy)
        }
    } else if str_eq(name, "path") {
        Ok(Integrator::Path { max_depth: params.find_int("maxdepth", DEFAULT_MAX_DEPTH) })
    } else if str_eq(name, "volpath") {
        Ok(Integrator::VolPath { max_depth: params.find_int("maxdepth", DEFAULT_MAX_DEPTH) })
    } else if str_eq(name, "bdpt") {
        Ok(Integrator::Bdpt { max_depth: params.find_int("maxdepth", DEFAULT_MAX_DEPTH) })
    } else if str_eq(name, "mlt") {
        Ok(
            Integrator::Mlt {
                max_depth: params.find_int("maxdepth", DEFAULT_MAX_DEPTH),
                bootstrap_samples: params.find_int("bootstrapsamples", 100_000),
                chains: params.find_int("chains", 1000),
                mutations_per_pixel: params.find_int("mutationsperpixel", 100),
                large_step_probability: params.find_scalar("largestepprobability", 300),
                sigma: params.find_scalar("sigma", 10),
            },
        )
    } else if str_eq(name, "ao") || str_eq(name, "ambientocclusion") {
        Ok(
            Integrator::Ao {
                cos_sample: params.find_bool("cossample", true),
                n_samples: params.find_int("nsamples", 64),
            },
        )
    } else if str_eq(name, "sppm") {
        let fallback = params.find_int("numiterations", 64);
        Ok(
            Integrator::Sppm {
                num_iterations: params.find_int("iterations", fallback),
                max_depth: params.find_int("maxdepth", DEFAULT_MAX_DEPTH),
                photons_per_iteration: params.find_int("photonsperiteration", -1),
                image_write_frequency: params.find_int(
                    "imagewritefrequency",
                    SPPM_WRITE_FREQUENCY_SENTINEL,
                ),
            },
        )
    } else {
        Err(DispatchError::UnknownIntegrator)
    }
}

/// The camera built from the parameter bag: field of view (default 90
/// degrees), clipping-start distance (default 0.1), Gaussian filter width
/// (default 2).
pub open spec fn camera_spec(ps: Seq<(Seq<char>, ParamModel)>) -> CameraConfig {
    CameraConfig {
        fov: find_scalar_spec(ps, "fov"@, 90_000),
        clip_start: find_scalar_spec(ps, "clipstart"@, 100),
        filter_width: find_scalar_spec(ps, "filterwidth"@, 2000),
    }
}

/// The film built from the parameter bag (default 1280 by 720).
pub open spec fn film_spec(ps: Seq<(Seq<char>, ParamModel)>) -> FilmConfig {
    FilmConfig {
        x_resolution: find_int_spec(ps, "xresolution"@, 1280),
        y_resolution: find_int_spec(ps, "yresolution"@, 720),
    }
}

/// The sampler built from the parameter bag.
pub open spec fn sampler_spec(ps: Seq<(Seq<char>, ParamModel)>) -> SamplerConfig {
    SamplerConfig { samples_per_pixel: find_int_spec(ps, "pixelsamples"@, DEFAULT_PIXEL_SAMPLES) }
}

/// The render setup for a request: the requested integrator name (or the
/// auto-selected one), the camera, film and sampler from the bag, and the
/// film's full pixel rectangle.
pub open spec fn render_setup_spec(
    name: Option<Seq<char>>,
    ps: Seq<(Seq<char>, ParamModel)>,
    has_emitters: bool,
) -> Result<RenderSetup, DispatchError> {
    let chosen = match name {
        Some(n) => n,
        None => default_integrator_name_spec(has_emitters),
    };
    match make_integrator_spec(chosen, ps) {
        Ok(integrator) => Ok(
            RenderSetup {
                camera: camera_spec(ps),
                film: film_spec(ps),
                sampler: sampler_spec(ps),
                pixel_bounds: Bounds2i {
                    x_min: 0,
                    y_min: 0,
                    x_max: find_int_spec(ps, "xresolution"@, 1280),
                    y_max: find_int_spec(ps, "yresolution"@, 720),
                },
                integrator,
            },
        ),
        Err(e) => Err(e),
    }
}

/// Dispatches one render request: selects the integrator (auto-selecting
/// the name when the caller gives none), then constructs camera, film,
/// sampler and pixel bounds from the bag. Each invocation is independent.
pub fn build_render_setup(
    integrator_name: Option<&str>,
    params: &ParamSet,
    has_emitters: bool,
) -> (r: Result<RenderSetup, DispatchError>)
    ensures
        r == render_setup_spec(
            match integrator_name {
                Some(n) => Some(n@),
                None => None,
            },
            params@,
            has_emitters,
        ),
{
    let chosen: String = match integrator_name {
        Some(n) => n.to_owned(),
        None => default_integrator_name(has_emitters),
    };
    match make_integrator(chosen.as_str(), params) {
        Ok(integrator) => {
            let x_resolution = params.find_int("xresolution", 1280);
            let y_resolution = params.find_int("yresolution", 720);
            Ok(
                RenderSetup {
                    camera: CameraConfig {
                        fov: params.find_scalar("fov", 90_000),
                        clip_start: params.find_scalar("clipstart", 100),
                        filter_width: params.find_scalar("filterwidth", 2000),
                    },
                    film: FilmConfig { x_resolution, y_resolution },
                    sampler: SamplerConfig {
                        samples_per_pixel: params.find_int("pixelsamples", DEFAULT_PIXEL_SAMPLES),
                    },
                    pixel_bounds: Bounds2i {
                        x_min: 0,
                        y_min: 0,
                        x_max: x_resolution,
                        y_max: y_resolution,
                    },
                    integrator,
                },
            )
        },
        Err(e) => Err(e),
    }
}

/// An integrator name outside the recognized set yields no integrator —
/// the request is rejected as a configuration error, never silently
/// accepted.
pub proof fn lemma_unknown_integrator_rejected(name: Seq<char>, ps: Seq<(Seq<char>, ParamModel)>)
    requires
        name != "whitted"@,
        name != "directlighting"@,
        name != "path"@,
        name != "volpath"@,
        name != "bdpt"@,
        name != "mlt"@,
        name != "ao"@,
        name != "ambientocclusion"@,
        name != "sppm"@,
    ensures
        make_integrator_spec(name, ps) == Err::<Integrator, DispatchError>(
            DispatchError::UnknownIntegrator,
        ),
{
}

/// With no requested name, a scene with emitters selects path tracing and
/// a scene without emitters selects ambient occlusion.
pub proof fn lemma_auto_selection()
    ensures
        default_integrator_name_spec(true) == "path"@,
        default_integrator_name_spec(false) == "ao"@,
{
}

} // verus!
