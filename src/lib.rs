//! A guard that owns a freshly created file until the caller takes it over.
//!
//! The guard is generic over the open handle `H` and the location `P` it was
//! opened at, so the ownership rules are stated and proved independently of
//! any filesystem. Whoever performs the actual deletion asks the guard for its
//! removal target when the guard is torn down.
pub mod guard;

pub use guard::AutoRemoved;
