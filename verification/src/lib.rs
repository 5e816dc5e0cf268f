//! Extraction and download-planning logic for bundles of sheet-music
//! resources: each source page yields a title, an accompaniment audio
//! reference, an optional video reference and an ordered list of sheet
//! images, which are then laid out under a per-title directory.

pub mod batch;
pub mod dom;
pub mod errors;
pub mod session;
pub mod sheet;
pub mod text;
pub mod title;
pub mod video;

pub use errors::SheetError;
