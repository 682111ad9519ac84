//! The filesystem layer.
//!
//! - [`text`]: rendering numbers, searching and trimming text.
//! - [`model`]: the abstract model of an instance and of its operations.
//! - [`policy`]: what tells the back-ends apart.
//! - [`consistency`]: every operation keeps an instance well formed.
//! - [`laws`]: what holds of the tree whatever it contains.
//! - [`fs`]: the interface that every back-end offers.
//! - [`lookup`]: searching and walking the ordered maps.
//! - [`svfs`]: the entry model, the root back-end, and the entry points that
//!   work on the registry.
//! - [`procfs`], [`sysfs`]: the synthetic and the hybrid back-end.
//! - [`registry`]: the mounted back-ends and the active one.
//! - [`command`]: the textual command surface.

pub mod command;
pub mod consistency;
pub mod fs;
pub mod laws;
pub mod lookup;
pub mod model;
pub mod policy;
pub mod procfs;
pub mod registry;
pub mod svfs;
pub mod sysfs;
pub mod text;
