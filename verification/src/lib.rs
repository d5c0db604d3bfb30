//! Incremental shader recompilation, planned as verified logic.
//!
//! The library decides, for each shader source discovered under a root
//! directory, whether its compiled artifact is up to date, and lays out the
//! exact sequence of filesystem and process actions a rebuild performs:
//! mirror the source tree under `spv/` and `.cache/` below the output root,
//! key each source by the lowercase hex MD5 of its bytes, write the digest
//! to the cache before the compiler runs, and skip sources whose stored
//! digest matches. The surrounding binary only gathers observations (file
//! contents, cache contents) and carries the planned actions out.
pub mod bytes;
pub mod decide;
pub mod digest;
pub mod effects;
pub mod paths;
pub mod plan;
