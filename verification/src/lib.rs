//! Staged image-conversion pipeline.
//!
//! Raw file bytes are decoded into a raster and enter the `uploaded`
//! collection of an [`store::ImageStore`]; user-selected entities move to
//! `queued` with a stamped target format; a processor step drains `queued`
//! through the conversion engine into `output`; selected outputs are bundled
//! into a single tar archive.

pub mod archive;
pub mod engine;
pub mod format;
pub mod processor;
pub mod raster;
pub mod store;
pub mod text;
pub mod thumb;
