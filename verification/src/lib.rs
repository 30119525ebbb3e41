//! Turns a vector document into an opaque JPEG: settings are resolved with
//! defaults for unusable values, the document is drawn over a solid
//! background, the alpha channel is dropped, and the pixels are compressed.
//!
//! The verified modules are [`settings`], [`background`], [`document`],
//! [`canvas`], [`raster`], [`encode`] and [`diagnostics`]. The modules whose
//! names end in `_t` hold what is taken on trust about the crates that parse
//! colors, hold pixels and compress: [`css_t`], [`svg_t`], [`skia_t`] and
//! [`image_t`].
//!
//! Three steps of a run are the caller's. The target size and the scale of
//! the drawing are floating-point arithmetic on the document's own size.
//! Parsing and drawing can panic on some documents, which no precondition
//! over bytes or over a parsed tree rules out. The caller hands the parser's
//! answer to [`document::document_or_error`], draws over the canvas that
//! [`canvas::blank_canvas`] made, and hands the drawn canvas to
//! [`raster::convert_pixmap_to_rgb`].

pub mod background;
pub mod canvas;
pub mod css_t;
pub mod diagnostics;
pub mod document;
pub mod encode;
pub mod image_t;
pub mod raster;
pub mod settings;
pub mod skia_t;
pub mod svg_t;
