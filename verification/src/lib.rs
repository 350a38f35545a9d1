//! Core logic of an image-gallery viewer: lazily decoded thumbnails in a
//! grid, a full-resolution overlay with keyboard navigation, and the
//! time-driven animation bookkeeping that gates re-rendering.
//!
//! Timestamps are plain milliseconds supplied by the caller on every query;
//! interpolated animation values are integers (thousandths of the distance
//! between two endpoints), so that the rendering layer can scale them to
//! whatever unit it draws with.

pub mod anim;
pub mod image_data;
pub mod preview;
pub mod gallery;
pub mod viewer;
