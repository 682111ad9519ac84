//! An in-memory virtual filesystem layer for a small kernel: a tree of
//! directories and files addressed by inode numbers, several back-ends that
//! share one interface, a registry that mounts them under one another, and
//! the textual command surface that drives them.
//!
//! Nothing here touches hardware or global state. Whatever a back-end needs
//! from the machine (heap bounds, uptime, the cycle counter, a bus report) is
//! handed in as plain values, and whatever has to reach the outside (text to
//! show, a change of colours) is handed back.
//!
//! Every operation is specified against an abstract model of the instance it
//! works on ([`fs::model`]), and the back-ends differ only in the policy that
//! [`fs::policy`] spells out. What holds of the tree and of the registry
//! whatever they contain is proved in [`fs::laws`] and [`fs::registry`].

pub mod fs;
pub mod pci;
