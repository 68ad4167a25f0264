//! Star-trail stacking core: pixel kernels, metadata reconciliation, frame
//! reduction and progress bookkeeping for merging RAW exposures.

pub mod dng;
pub mod errors;
pub mod exif;
pub mod fileinfo;
pub mod frame;
pub mod image;
pub mod mergable;
pub mod pixels;
pub mod preview;
pub mod processing;
pub mod rational;
pub mod status;
