//! Core of an OCI container runtime: the container creation pipeline and the
//! rootfs mount engine.
//!
//! The mount engine translates OCI mount requests into a sequence of mount
//! syscalls, issued through a syscall adapter whose call log is the observable
//! behaviour that the contracts in this crate pin down. The container builder
//! is a state machine that emits the ordered actions of container creation and
//! cleanup; a driver outside the verified core performs each action and hands
//! the outcome back.

use vstd::prelude::*;

pub mod builder;
pub mod flags;
pub mod host;
pub mod mount;
pub mod options;
pub mod path;
pub mod symlink;
pub mod strutil;
pub mod sys;
pub mod syscall;

verus! {

} // verus!
