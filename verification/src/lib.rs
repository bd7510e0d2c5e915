//! Debug-information ingestion for a binary analysis platform.
//!
//! A parser provider is registered in a [`directory::ParserDirectory`] under a
//! unique name. For a loaded binary the directory asks every provider whether
//! it applies and lets each one that does fill a [`registry::DebugInfo`] with
//! named types and function signatures.

pub mod text;
pub mod types;
pub mod binaryview;
pub mod function;
pub mod registry;
pub mod directory;
pub mod laws;

pub use binaryview::BinaryView;
pub use directory::{CustomDebugInfoParser, DebugInfoParser, ParserDirectory, RegistrationError};
pub use function::DebugFunctionInfo;
pub use registry::DebugInfo;
pub use types::Type;
