//! A minimal real-time rendering harness: the GPU resource lifecycle
//! subsystem of a small OpenGL program, verified against an explicit model
//! of the driver.
//!
//! The function table ([`gles::Gles`]) records every driver call it issues
//! and tracks the shader and program objects that are alive, so the
//! contracts of the shader/program lifecycle ([`render_gl`]) and of the
//! frame-level operations ([`support`]) can state exactly which calls are
//! made and that no handle is leaked or released twice.

pub mod gles;
pub mod support;
pub mod render_gl;
pub mod resources;
pub mod text;
