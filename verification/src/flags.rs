//! Mount flag and mount-attribute constants, as the kernel ABI defines them.

use vstd::prelude::*;

verus! {

pub const MS_RDONLY: u64 = 0x1;
pub const MS_NOSUID: u64 = 0x2;
pub const MS_NODEV: u64 = 0x4;
pub const MS_NOEXEC: u64 = 0x8;
pub const MS_SYNCHRONOUS: u64 = 0x10;
pub const MS_REMOUNT: u64 = 0x20;
pub const MS_MANDLOCK: u64 = 0x40;
pub const MS_DIRSYNC: u64 = 0x80;
pub const MS_NOSYMFOLLOW: u64 = 0x100;
pub const MS_NOATIME: u64 = 0x400;
pub const MS_NODIRATIME: u64 = 0x800;
pub const MS_BIND: u64 = 0x1000;
pub const MS_MOVE: u64 = 0x2000;
pub const MS_REC: u64 = 0x4000;
pub const MS_SILENT: u64 = 0x8000;
pub const MS_POSIXACL: u64 = 0x10000;
pub const MS_UNBINDABLE: u64 = 0x20000;
pub const MS_PRIVATE: u64 = 0x40000;
pub const MS_SLAVE: u64 = 0x80000;
pub const MS_SHARED: u64 = 0x100000;
pub const MS_RELATIME: u64 = 0x200000;
pub const MS_STRICTATIME: u64 = 0x1000000;
pub const MS_LAZYTIME: u64 = 0x2000000;

pub const MOUNT_ATTR_RDONLY: u64 = 0x1;
pub const MOUNT_ATTR_NOSUID: u64 = 0x2;
pub const MOUNT_ATTR_NODEV: u64 = 0x4;
pub const MOUNT_ATTR_NOEXEC: u64 = 0x8;
pub const MOUNT_ATTR_ATIME_MASK: u64 = 0x70;
pub const MOUNT_ATTR_RELATIME: u64 = 0x0;
pub const MOUNT_ATTR_NOATIME: u64 = 0x10;
pub const MOUNT_ATTR_STRICTATIME: u64 = 0x20;
pub const MOUNT_ATTR_NODIRATIME: u64 = 0x80;
pub const MOUNT_ATTR_NOSYMFOLLOW: u64 = 0x200000;

pub const AT_RECURSIVE: u64 = 0x8000;

/// Mount flags that the kernel honours on the initial bind mount itself; any
/// flag outside this set takes effect only through a follow-up remount.
pub const BIND_TRANSPARENT_FLAGS: u64 = MS_REC | MS_REMOUNT | MS_BIND | MS_PRIVATE | MS_SHARED
    | MS_SLAVE;

/// Attribute record applied recursively through `mount_setattr`.
#[derive(Clone, Copy, PartialEq, Eq, Structural, Debug)]
pub struct MountRecAttr {
    pub attr_set: u64,
    pub attr_clr: u64,
    pub propagation: u64,
    pub userns_fd: u64,
}

impl MountRecAttr {
    pub fn empty() -> (r: MountRecAttr)
        ensures
            r == (MountRecAttr { attr_set: 0, attr_clr: 0, propagation: 0, userns_fd: 0 }),
    {
        MountRecAttr { attr_set: 0, attr_clr: 0, propagation: 0, userns_fd: 0 }
    }
}

} // verus!
