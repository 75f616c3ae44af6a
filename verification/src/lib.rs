//! Image transforms with machine-checked contracts.
//!
//! The crate turns encoded image bytes into thumbnails and rotated copies:
//!
//! - [`thumbnail::make_thumbnail`] scales an image down within requested
//!   bounds and encodes it as WebP, at a fixed quality or towards a target
//!   size;
//! - [`rotate::rotate_orthogonal`] turns an image by a multiple of ninety
//!   degrees, without loss, and writes it back in its own container;
//! - [`turn::rotate_arbitrary`] turns an image by any angle, with
//!   interpolation, and writes it as JPEG.
//!
//! Every operation works on byte buffers that the caller owns, keeps no
//! state between calls, and reports failure as an [`error::Error`].
//!
//! Geometry, parameter selection and error classification are verified
//! with Verus. The codecs themselves are reached through the small trusted
//! boundary of the [`codec`] module, whose contracts are believed, not
//! proved.

pub mod buffer;
pub mod codec;
pub mod decode;
pub mod encode;
pub mod error;
pub mod format;
pub mod plan;
pub mod resample;
pub mod rotate;
pub mod thumbnail;
pub mod turn;
