//! Driver for decoding JBIG2 bilevel image streams into owned page rasters.
//!
//! The decoding engine itself lives outside this crate. What is here is
//! everything around it that can go wrong without the engine being at fault:
//!
//! - [`session`]: the order in which the engine is created, fed, asked to
//!   complete the page, drained and disposed, as a function from state and
//!   event to next state and action;
//! - [`runs`]: what holds of every whole decode that a session conducts;
//! - [`diagnostics`]: the slot that keeps the engine's last message;
//! - [`image`]: the packed one-bit-per-pixel raster with its geometry;
//! - [`document`]: the pages handed back to the caller;
//! - [`encode`]: the PNG encoder behind [`Image::to_png`];
//! - [`errors`], [`options`], [`text`]: the small things the others share.

pub mod diagnostics;
pub mod document;
pub mod encode;
pub mod errors;
pub mod image;
pub mod options;
pub mod runs;
pub mod session;
pub mod text;

pub use crate::diagnostics::DiagnosticsSink;
pub use crate::document::Document;
pub use crate::errors::Error;
pub use crate::image::{Image, PageGeometry, Raster};
pub use crate::options::{Jbig2Options, Jbig2Severity, OpenFlag};
pub use crate::session::{Action, Event, Phase, Session, Step};
