//! Batch image-derivative generation: for each source raster, a fixed catalog
//! of resized PNG renditions is produced, each kept under a hard byte ceiling.
//! A rendition that cannot be brought under the ceiling even at the highest
//! compression tier is discarded and recorded instead of kept oversized.

pub mod batch;
pub mod encoder;
pub mod naming;
pub mod profile;
pub mod raster;
