//! Capability and memory-requirement model for a backend-agnostic GPU buffer.

pub mod access;
pub mod error;
pub mod index;
pub mod requirements;
pub mod usage;

pub use access::Access;
pub use access::State;
pub use error::CreationError;
pub use error::ViewError;
pub use index::IndexBufferView;
pub use index::IndexType;
pub use requirements::complete_requirements;
pub use requirements::Device;
pub use requirements::Limits;
pub use requirements::Requirements;
pub use requirements::StubDevice;
pub use usage::Usage;
