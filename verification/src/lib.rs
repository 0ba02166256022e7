//! A layout and pagination engine for paginated business documents
//! (invoices, packing slips, shipment notices).
//!
//! Structured business data is laid out into fixed-size pages: headers,
//! weighted-column tables, footers anchored to the page bottom, and totals
//! blocks anchored to the final page.  The result is an ordered stream of
//! draw commands plus embedded resources, ready for an external
//! byte-format encoder.

pub mod color;
pub mod draw;
pub mod error;
pub mod footer;
pub mod geometry;
pub mod header;
pub mod image;
pub mod invoice;
pub mod measure;
pub mod packing_slip;
pub mod paginate;
pub mod render_target;
pub mod shipment;
pub mod style;
pub mod text;
pub mod table;

pub use error::Error;
pub use geometry::PageGeometry;
pub use render_target::DocumentConfiguration;
pub use render_target::FinishedDocument;
pub use render_target::RenderTarget;
