//! Render a pre-computed QR-code module matrix as a grid of styled cells.
//!
//! The library does not encode QR codes: the bit matrix is produced by an
//! external encoder and handed in fully formed, either as a flat boolean
//! sequence plus a column count, or as the encoder's native object through a
//! fallible adapter. The output is a plain, declarative grid-of-cells value
//! that an embedding application turns into its UI toolkit's element tree.

pub mod adapter;
pub mod encoder;
pub mod grid;
pub mod qr;
pub mod style;

pub use adapter::QrCodeRenderError;
pub use grid::Cell;
pub use grid::Grid;
pub use qr::ModuleColor;
pub use qr::QrCodeComponent;
pub use style::StyleRefinement;
