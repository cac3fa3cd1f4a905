//! A safety and configuration layer for driving chains of RGB LED matrix
//! panels from a single-board computer.
//!
//! The crate models the three concerns that sit between application code and
//! the native panel driver: a validated configuration record
//! ([`led_matrix_options::Options`]), the owning resource types for the
//! matrix, its canvases and fonts ([`LedMatrix`], [`LedCanvas`], [`LedFont`]),
//! and the vsync-gated double-buffer swap protocol that provides tear-free
//! animation. Every operation carries a contract describing exactly how it
//! changes the pixel buffers and the configuration state.

pub mod canvas;
pub mod font;
pub mod led_matrix_options;
pub mod matrix;

pub use canvas::CanvasView;
pub use canvas::LedCanvas;
pub use canvas::LedColor;
pub use canvas::Pixel;
pub use font::check_path;
pub use font::FontView;
pub use font::LedFont;
pub use font::NewFontError;
pub use font::NewFontErrorKind;
pub use matrix::LedMatrix;
pub use matrix::MatrixView;
pub use matrix::NewMatrixError;
