//! Scene-construction and integrator-dispatch pipeline for an offline
//! physically-based renderer.
//!
//! The crate turns loosely-typed, name-keyed scene records (meshes, analytic
//! primitives, material parameter records, texture records) into a
//! strongly-typed renderable scene: it accumulates geometry and lights into an
//! immutable scene description, resolves materials and textures by a
//! fallback name-matching chain, classifies materials into BSDF variants by a
//! fixed priority order, synthesizes area lights for emissive shapes, and
//! finally selects and configures one of several light-transport integrators
//! with defaulted parameters.
//!
//! All real-valued quantities are carried in a fixed-point encoding (see
//! [`math`]); the numerical subsystems that consume them (BSDF evaluation,
//! pixel sampling) are outside this crate.

pub mod assemble;
pub mod dispatch;
pub mod fourier;
pub mod geometry;
pub mod materials;
pub mod math;
pub mod names;
pub mod params;
pub mod resolve;
pub mod scene;
