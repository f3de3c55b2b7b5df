//! Backward-compatible snapshot state migrator for a KVM-based microVM
//! monitor.
//!
//! The crate accepts a persisted machine state written by an older monitor
//! release and rewrites it into the current release's in-memory schema.  Three
//! schema versions exist; the oldest and middle versions are converted through
//! a chained pipeline into the current one, and the host-side resource
//! allocators that the old versions did not persist are reconstructed from the
//! device records they did persist.

pub mod alloc_ffi;
pub mod arch;
pub mod codec;
pub mod convert_ab;
pub mod convert_bc;
pub mod instance_info;
pub mod laws;
pub mod meminfo;
pub mod pagemap;
pub mod pipeline;
pub mod request;
pub mod resources;
pub mod schema_a;
pub mod schema_b;
pub mod schema_c;
