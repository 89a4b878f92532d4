//! Scope-bounded access sessions for native-memory arrays owned by a managed
//! host runtime.
//!
//! The host hands out a pointer to an array's backing storage — a direct pin
//! or a private copy — and demands exactly one matching release call that
//! names how changes are reconciled. [`AutoByteArray`] is the session that
//! owns such a pointer, lets the release policy be adjusted before the
//! release fires, and guarantees the single release at end of scope.
//! [`HostEnv`] models the host runtime at its interface boundary: managed
//! arrays, the pointers it has handed out, and a record of every release
//! call it has received.

pub mod auto_byte_array;
pub mod errors;
pub mod host_env;
pub mod release_mode;

pub use auto_byte_array::AutoByteArray;
pub use errors::AcquisitionError;
pub use errors::ReleaseError;
pub use errors::SizeError;
pub use host_env::HostEnv;
pub use host_env::ReleaseCall;
pub use release_mode::ReleaseMode;
