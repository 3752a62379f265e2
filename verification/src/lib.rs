//! A model of binding GPU resources across two logical devices.
//!
//! Two logical devices opened from one adapter each own the resources they
//! create. A bind group is built on one device; when an entry of the group
//! references a resource owned by the other device, the validation layer
//! reports a diagnostic to the error callback of the device the group was
//! built on. Destroying a resource that a foreign device's bind group still
//! references provokes a further allocator-ownership diagnostic.
//!
//! This crate models the devices by their numeric identities and a resource
//! by the identity of its owner, states which diagnostics each operation
//! provokes, and proves the laws the reports obey: attribution to the
//! building device, independence of the two checks, and that every
//! diagnostic stands in the run's output.

pub mod checks;
pub mod descriptors;
pub mod diag;
pub mod laws;
pub mod resources;
