//! Persistent configuration for a desktop addon manager, together with the
//! flavor-aware resolution of the managed application's on-disk directories.
//!
//! The crate owns four things: the closed enumerations that appear in the
//! configuration (language, update channel, flavor), the versioned column
//! layout schema with its backward-compatible reader, the configuration
//! aggregate with its default-filling reader, and the directory resolver.
//! Reading and writing the actual file, and the textual encoding of the
//! document, are left to the surrounding application; this crate works on a
//! plain structured document value.

pub mod channel;
pub mod config;
pub mod flavor;
pub mod lang;
pub mod schema;
pub mod strutil;
pub mod value;
