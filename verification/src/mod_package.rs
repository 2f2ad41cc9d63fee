//! The package metadata the build driver works from: the authored package
//! description, and the loader-facing configuration derived from it.
pub mod reloaded2;
pub mod reloaded3;
