//! Still-image AVIF encoding: alpha analysis, colorspace conversion,
//! speed/quality mapping onto the AV1 encoder, plane feeding and
//! container packaging.

pub mod pixel;
pub mod error;
pub mod scan;
pub mod color;
pub mod quality;
pub mod speed;
pub mod av1;
pub mod planes;
pub mod container;
pub mod encoder;
pub mod utils;
pub mod naming;
pub mod cli;
pub mod exif;
pub mod rav1e_types;
