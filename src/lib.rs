//! Configuration loading for a terminal emulator: the document model, the
//! section schema with its platform defaults, the error taxonomy and the
//! two-path discovery policy.
pub mod document;
pub mod error;
pub mod laws;
pub mod loader;
pub mod model;
pub mod schema;

pub use document::Node;
pub use error::{EnvFailure, Error, IoFailure, YamlError};
pub use loader::{Probe, Step};
pub use model::{Config, Dpi, Font, FontOffset, Platform};
pub use schema::{Field, ShapeError};
