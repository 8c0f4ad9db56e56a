//! The mount option parser: turns the option strings of a mount request into
//! mount flags, residual filesystem data, and an optional recursive
//! mount-attribute record.

use vstd::prelude::*;
use crate::flags::{
    MountRecAttr, MS_RDONLY, MS_NOSUID, MS_NODEV, MS_NOEXEC, MS_SYNCHRONOUS, MS_DIRSYNC,
    MS_REMOUNT, MS_MANDLOCK, MS_NOATIME, MS_NODIRATIME, MS_BIND, MS_REC, MS_UNBINDABLE,
    MS_PRIVATE, MS_SHARED, MS_SLAVE, MS_RELATIME, MS_STRICTATIME, MOUNT_ATTR_RDONLY,
    MOUNT_ATTR_NOSUID, MOUNT_ATTR_NODEV, MOUNT_ATTR_NOEXEC, MOUNT_ATTR_ATIME_MASK,
    MOUNT_ATTR_RELATIME, MOUNT_ATTR_NOATIME, MOUNT_ATTR_STRICTATIME, MOUNT_ATTR_NODIRATIME,
    MOUNT_ATTR_NOSYMFOLLOW,
};
use crate::strutil::{join_chars, join_with, str_eq};

verus! {

/// A single mount request, as the OCI configuration states it.
#[derive(Clone, Debug)]
pub struct MountRequest {
    /// Destination path, rooted inside the container.
    pub destination: String,
    /// Filesystem type, if any.
    pub typ: Option<String>,
    /// Mount source, if any.
    pub source: Option<String>,
    /// Raw option tokens, in input order.
    pub options: Vec<String>,
}

/// Ambient per-setup context for mounting.
#[derive(Clone, Debug)]
pub struct MountOptions {
    /// Host path of the future container rootfs.
    pub root: String,
    /// SELinux context label to apply to mount data, if any.
    pub label: Option<String>,
    /// Whether the container gets its own cgroup namespace.
    pub cgroup_ns: bool,
}

/// Result of parsing the option tokens of one mount request.
#[derive(Clone, Debug)]
pub struct MountOptionConfig {
    /// Mount flags, a union of `MS_*` bits.
    pub flags: u64,
    /// Residual tokens joined with commas, in input order.
    pub data: String,
    /// Recursive mount attributes, when any `r`-prefixed attribute token
    /// occurred.
    pub rec_attr: Option<MountRecAttr>,
}

pub open spec fn opt_view(o: Option<String>) -> Option<Seq<char>> {
    match o {
        Some(s) => Some(s@),
        None => None,
    }
}

/// The flag bit a recognized token toggles; the boolean is true when the
/// token clears the bit instead of setting it.
pub open spec fn flag_token(t: Seq<char>) -> Option<(bool, u64)> {
    if t == "defaults"@ {
        Some((false, 0u64))
    } else if t == "ro"@ {
        Some((false, MS_RDONLY))
    } else if t == "rw"@ {
        Some((true, MS_RDONLY))
    } else if t == "suid"@ {
        Some((true, MS_NOSUID))
    } else if t == "nosuid"@ {
        Some((false, MS_NOSUID))
    } else if t == "dev"@ {
        Some((true, MS_NODEV))
    } else if t == "nodev"@ {
        Some((false, MS_NODEV))
    } else if t == "exec"@ {
        Some((true, MS_NOEXEC))
    } else if t == "noexec"@ {
        Some((false, MS_NOEXEC))
    } else if t == "sync"@ {
        Some((false, MS_SYNCHRONOUS))
    } else if t == "async"@ {
        Some((true, MS_SYNCHRONOUS))
    } else if t == "dirsync"@ {
        Some((false, MS_DIRSYNC))
    } else if t == "remount"@ {
        Some((false, MS_REMOUNT))
    } else if t == "mand"@ {
        Some((false, MS_MANDLOCK))
    } else if t == "nomand"@ {
        Some((true, MS_MANDLOCK))
    } else if t == "atime"@ {
        Some((true, MS_NOATIME))
    } else if t == "noatime"@ {
        Some((false, MS_NOATIME))
    } else if t == "diratime"@ {
        Some((true, MS_NODIRATIME))
    } else if t == "nodiratime"@ {
        Some((false, MS_NODIRATIME))
    } else if t == "bind"@ {
        Some((false, MS_BIND))
    } else if t == "rbind"@ {
        Some((false, MS_BIND | MS_REC))
    } else if t == "unbindable"@ {
        Some((false, MS_UNBINDABLE))
    } else if t == "runbindable"@ {
        Some((false, MS_UNBINDABLE | MS_REC))
    } else if t == "private"@ {
        Some((false, MS_PRIVATE))
    } else if t == "rprivate"@ {
        Some((false, MS_PRIVATE | MS_REC))
    } else if t == "shared"@ {
        Some((false, MS_SHARED))
    } else if t == "rshared"@ {
        Some((false, MS_SHARED | MS_REC))
    } else if t == "slave"@ {
        Some((false, MS_SLAVE))
    } else if t == "rslave"@ {
        Some((false, MS_SLAVE | MS_REC))
    } else if t == "relatime"@ {
        Some((false, MS_RELATIME))
    } else if t == "norelatime"@ {
        Some((true, MS_RELATIME))
    } else if t == "strictatime"@ {
        Some((false, MS_STRICTATIME))
    } else if t == "nostrictatime"@ {
        Some((true, MS_STRICTATIME))
    } else {
        None
    }
}

/// The `(attr_set, attr_clr)` bits a recursive mount-attribute token
/// contributes; the atime modes also clear the whole atime field, as
/// `mount_setattr` demands.
pub open spec fn attr_token(t: Seq<char>) -> Option<(u64, u64)> {
    if t == "rro"@ {
        Some((MOUNT_ATTR_RDONLY, 0u64))
    } else if t == "rrw"@ {
        Some((0u64, MOUNT_ATTR_RDONLY))
    } else if t == "rnosuid"@ {
        Some((MOUNT_ATTR_NOSUID, 0u64))
    } else if t == "rsuid"@ {
        Some((0u64, MOUNT_ATTR_NOSUID))
    } else if t == "rnodev"@ {
        Some((MOUNT_ATTR_NODEV, 0u64))
    } else if t == "rdev"@ {
        Some((0u64, MOUNT_ATTR_NODEV))
    } else if t == "rnoexec"@ {
        Some((MOUNT_ATTR_NOEXEC, 0u64))
    } else if t == "rexec"@ {
        Some((0u64, MOUNT_ATTR_NOEXEC))
    } else if t == "rnodiratime"@ {
        Some((MOUNT_ATTR_NODIRATIME, 0u64))
    } else if t == "rdiratime"@ {
        Some((0u64, MOUNT_ATTR_NODIRATIME))
    } else if t == "rnosymfollow"@ {
        Some((MOUNT_ATTR_NOSYMFOLLOW, 0u64))
    } else if t == "rsymfollow"@ {
        Some((0u64, MOUNT_ATTR_NOSYMFOLLOW))
    } else if t == "rnoatime"@ {
        Some((MOUNT_ATTR_NOATIME, MOUNT_ATTR_ATIME_MASK))
    } else if t == "rrelatime"@ {
        Some((MOUNT_ATTR_RELATIME, MOUNT_ATTR_ATIME_MASK))
    } else if t == "rstrictatime"@ {
        Some((MOUNT_ATTR_STRICTATIME, MOUNT_ATTR_ATIME_MASK))
    } else {
        None
    }
}

/// The mount flags after folding the recognized tokens left to right.
pub open spec fn spec_flags(opts: Seq<Seq<char>>) -> u64
    decreases opts.len(),
{
    if opts.len() == 0 {
        0u64
    } else {
        let f = spec_flags(opts.drop_last());
        match flag_token(opts.last()) {
            Some(t) => if t.0 {
                f & !t.1
            } else {
                f | t.1
            },
            None => f,
        }
    }
}

/// The unrecognized tokens, in input order.
pub open spec fn spec_data(opts: Seq<Seq<char>>) -> Seq<Seq<char>>
    decreases opts.len(),
{
    if opts.len() == 0 {
        Seq::<Seq<char>>::empty()
    } else {
        let d = spec_data(opts.drop_last());
        if flag_token(opts.last()) is None && attr_token(opts.last()) is None {
            d.push(opts.last())
        } else {
            d
        }
    }
}

/// The accumulated recursive mount attributes, or `None` when no attribute
/// token occurred.
pub open spec fn spec_rec_attr(opts: Seq<Seq<char>>) -> Option<MountRecAttr>
    decreases opts.len(),
{
    if opts.len() == 0 {
        None
    } else {
        let a = spec_rec_attr(opts.drop_last());
        if flag_token(opts.last()) is Some {
            a
        } else {
        match attr_token(opts.last()) {
            Some(t) => {
                let prev = match a {
                    Some(p) => p,
                    None => MountRecAttr { attr_set: 0, attr_clr: 0, propagation: 0, userns_fd: 0 },
                };
                Some(
                    MountRecAttr {
                        attr_set: prev.attr_set | t.0,
                        attr_clr: prev.attr_clr | t.1,
                        propagation: prev.propagation,
                        userns_fd: prev.userns_fd,
                    },
                )
            },
            None => a,
        }
        }
    }
}

/// The whole parse of an option list, as `MountOptionConfig` states it.
pub open spec fn parsed_config(c: MountOptionConfig, opts: Seq<Seq<char>>) -> bool {
    &&& c.flags == spec_flags(opts)
    &&& c.data@ == join_chars(spec_data(opts), ","@)
    &&& c.rec_attr == spec_rec_attr(opts)
}

fn flag_token_of(t: &String) -> (r: Option<(bool, u64)>)
    ensures
        r == flag_token(t@),
{
    let s = t.as_str();
    if str_eq(s, "defaults") {
        Some((false, 0u64))
    } else if str_eq(s, "ro") {
        Some((false, MS_RDONLY))
    } else if str_eq(s, "rw") {
        Some((true, MS_RDONLY))
    } else if str_eq(s, "suid") {
        Some((true, MS_NOSUID))
    } else if str_eq(s, "nosuid") {
        Some((false, MS_NOSUID))
    } else if str_eq(s, "dev") {
        Some((true, MS_NODEV))
    } else if str_eq(s, "nodev") {
        Some((false, MS_NODEV))
    } else if str_eq(s, "exec") {
        Some((true, MS_NOEXEC))
    } else if str_eq(s, "noexec") {
        Some((false, MS_NOEXEC))
    } else if str_eq(s, "sync") {
        Some((false, MS_SYNCHRONOUS))
    } else if str_eq(s, "async") {
        Some((true, MS_SYNCHRONOUS))
    } else if str_eq(s, "dirsync") {
        Some((false, MS_DIRSYNC))
    } else if str_eq(s, "remount") {
        Some((false, MS_REMOUNT))
    } else if str_eq(s, "mand") {
        Some((false, MS_MANDLOCK))
    } else if str_eq(s, "nomand") {
        Some((true, MS_MANDLOCK))
    } else if str_eq(s, "atime") {
        Some((true, MS_NOATIME))
    } else if str_eq(s, "noatime") {
        Some((false, MS_NOATIME))
    } else if str_eq(s, "diratime") {
        Some((true, MS_NODIRATIME))
    } else if str_eq(s, "nodiratime") {
        Some((false, MS_NODIRATIME))
    } else if str_eq(s, "bind") {
        Some((false, MS_BIND))
    } else if str_eq(s, "rbind") {
        Some((false, MS_BIND | MS_REC))
    } else if str_eq(s, "unbindable") {
        Some((false, MS_UNBINDABLE))
    } else if str_eq(s, "runbindable") {
        Some((false, MS_UNBINDABLE | MS_REC))
    } else if str_eq(s, "private") {
        Some((false, MS_PRIVATE))
    } else if str_eq(s, "rprivate") {
        Some((false, MS_PRIVATE | MS_REC))
    } else if str_eq(s, "shared") {
        Some((false, MS_SHARED))
    } else if str_eq(s, "rshared") {
        Some((false, MS_SHARED | MS_REC))
    } else if str_eq(s, "slave") {
        Some((false, MS_SLAVE))
    } else if str_eq(s, "rslave") {
        Some((false, MS_SLAVE | MS_REC))
    } else if str_eq(s, "relatime") {
        Some((false, MS_RELATIME))
    } else if str_eq(s, "norelatime") {
        Some((true, MS_RELATIME))
    } else if str_eq(s, "strictatime") {
        Some((false, MS_STRICTATIME))
    } else if str_eq(s, "nostrictatime") {
        Some((true, MS_STRICTATIME))
    } else {
        None
    }
}

fn attr_token_of(t: &String) -> (r: Option<(u64, u64)>)
    ensures
        r == attr_token(t@),
{
    let s = t.as_str();
    if str_eq(s, "rro") {
        Some((MOUNT_ATTR_RDONLY, 0u64))
    } else if str_eq(s, "rrw") {
        Some((0u64, MOUNT_ATTR_RDONLY))
    } else if str_eq(s, "rnosuid") {
        Some((MOUNT_ATTR_NOSUID, 0u64))
    } else if str_eq(s, "rsuid") {
        Some((0u64, MOUNT_ATTR_NOSUID))
    } else if str_eq(s, "rnodev") {
        Some((MOUNT_ATTR_NODEV, 0u64))
    } else if str_eq(s, "rdev") {
        Some((0u64, MOUNT_ATTR_NODEV))
    } else if str_eq(s, "rnoexec") {
        Some((MOUNT_ATTR_NOEXEC, 0u64))
    } else if str_eq(s, "rexec") {
        Some((0u64, MOUNT_ATTR_NOEXEC))
    } else if str_eq(s, "rnodiratime") {
        Some((MOUNT_ATTR_NODIRATIME, 0u64))
    } else if str_eq(s, "rdiratime") {
        Some((0u64, MOUNT_ATTR_NODIRATIME))
    } else if str_eq(s, "rnosymfollow") {
        Some((MOUNT_ATTR_NOSYMFOLLOW, 0u64))
    } else if str_eq(s, "rsymfollow") {
        Some((0u64, MOUNT_ATTR_NOSYMFOLLOW))
    } else if str_eq(s, "rnoatime") {
        Some((MOUNT_ATTR_NOATIME, MOUNT_ATTR_ATIME_MASK))
    } else if str_eq(s, "rrelatime") {
        Some((MOUNT_ATTR_RELATIME, MOUNT_ATTR_ATIME_MASK))
    } else if str_eq(s, "rstrictatime") {
        Some((MOUNT_ATTR_STRICTATIME, MOUNT_ATTR_ATIME_MASK))
    } else {
        None
    }
}

/// The option tokens the engine mounts a cgroup tmpfs with.
pub open spec fn tmpfs_option_tokens() -> Seq<Seq<char>> {
    seq!["noexec"@, "nosuid"@, "nodev"@, "mode=755"@]
}

/// The option tokens of an emulated cgroup hierarchy bind mount.
pub open spec fn emulated_option_tokens() -> Seq<Seq<char>> {
    seq!["rw"@, "rbind"@]
}

/// The concrete characters of every token the parser recognizes; shared by
/// the proofs that evaluate the parse of fixed option lists.
proof fn lemma_option_table()
    ensures
        "defaults"@ == seq!['d', 'e', 'f', 'a', 'u', 'l', 't', 's'],
        "ro"@ == seq!['r', 'o'],
        "rw"@ == seq!['r', 'w'],
        "suid"@ == seq!['s', 'u', 'i', 'd'],
        "nosuid"@ == seq!['n', 'o', 's', 'u', 'i', 'd'],
        "dev"@ == seq!['d', 'e', 'v'],
        "nodev"@ == seq!['n', 'o', 'd', 'e', 'v'],
        "exec"@ == seq!['e', 'x', 'e', 'c'],
        "noexec"@ == seq!['n', 'o', 'e', 'x', 'e', 'c'],
        "sync"@ == seq!['s', 'y', 'n', 'c'],
        "async"@ == seq!['a', 's', 'y', 'n', 'c'],
        "dirsync"@ == seq!['d', 'i', 'r', 's', 'y', 'n', 'c'],
        "remount"@ == seq!['r', 'e', 'm', 'o', 'u', 'n', 't'],
        "mand"@ == seq!['m', 'a', 'n', 'd'],
        "nomand"@ == seq!['n', 'o', 'm', 'a', 'n', 'd'],
        "atime"@ == seq!['a', 't', 'i', 'm', 'e'],
        "noatime"@ == seq!['n', 'o', 'a', 't', 'i', 'm', 'e'],
        "diratime"@ == seq!['d', 'i', 'r', 'a', 't', 'i', 'm', 'e'],
        "nodiratime"@ == seq!['n', 'o', 'd', 'i', 'r', 'a', 't', 'i', 'm', 'e'],
        "bind"@ == seq!['b', 'i', 'n', 'd'],
        "rbind"@ == seq!['r', 'b', 'i', 'n', 'd'],
        "unbindable"@ == seq!['u', 'n', 'b', 'i', 'n', 'd', 'a', 'b', 'l', 'e'],
        "runbindable"@ == seq!['r', 'u', 'n', 'b', 'i', 'n', 'd', 'a', 'b', 'l', 'e'],
        "private"@ == seq!['p', 'r', 'i', 'v', 'a', 't', 'e'],
        "rprivate"@ == seq!['r', 'p', 'r', 'i', 'v', 'a', 't', 'e'],
        "shared"@ == seq!['s', 'h', 'a', 'r', 'e', 'd'],
        "rshared"@ == seq!['r', 's', 'h', 'a', 'r', 'e', 'd'],
        "slave"@ == seq!['s', 'l', 'a', 'v', 'e'],
        "rslave"@ == seq!['r', 's', 'l', 'a', 'v', 'e'],
        "relatime"@ == seq!['r', 'e', 'l', 'a', 't', 'i', 'm', 'e'],
        "norelatime"@ == seq!['n', 'o', 'r', 'e', 'l', 'a', 't', 'i', 'm', 'e'],
        "strictatime"@ == seq!['s', 't', 'r', 'i', 'c', 't', 'a', 't', 'i', 'm', 'e'],
        "nostrictatime"@ == seq!['n', 'o', 's', 't', 'r', 'i', 'c', 't', 'a', 't', 'i', 'm', 'e'],
        "rro"@ == seq!['r', 'r', 'o'],
        "rrw"@ == seq!['r', 'r', 'w'],
        "rsuid"@ == seq!['r', 's', 'u', 'i', 'd'],
        "rnosuid"@ == seq!['r', 'n', 'o', 's', 'u', 'i', 'd'],
        "rdev"@ == seq!['r', 'd', 'e', 'v'],
        "rnodev"@ == seq!['r', 'n', 'o', 'd', 'e', 'v'],
        "rexec"@ == seq!['r', 'e', 'x', 'e', 'c'],
        "rnoexec"@ == seq!['r', 'n', 'o', 'e', 'x', 'e', 'c'],
        "rnodiratime"@ == seq!['r', 'n', 'o', 'd', 'i', 'r', 'a', 't', 'i', 'm', 'e'],
        "rdiratime"@ == seq!['r', 'd', 'i', 'r', 'a', 't', 'i', 'm', 'e'],
        "rnosymfollow"@ == seq!['r', 'n', 'o', 's', 'y', 'm', 'f', 'o', 'l', 'l', 'o', 'w'],
        "rsymfollow"@ == seq!['r', 's', 'y', 'm', 'f', 'o', 'l', 'l', 'o', 'w'],
        "rnoatime"@ == seq!['r', 'n', 'o', 'a', 't', 'i', 'm', 'e'],
        "rrelatime"@ == seq!['r', 'r', 'e', 'l', 'a', 't', 'i', 'm', 'e'],
        "rstrictatime"@ == seq!['r', 's', 't', 'r', 'i', 'c', 't', 'a', 't', 'i', 'm', 'e'],
        "mode=755"@ == seq!['m', 'o', 'd', 'e', '=', '7', '5', '5'],
{
    reveal_strlit("defaults");
    reveal_strlit("ro");
    reveal_strlit("rw");
    reveal_strlit("suid");
    reveal_strlit("nosuid");
    reveal_strlit("dev");
    reveal_strlit("nodev");
    reveal_strlit("exec");
    reveal_strlit("noexec");
    reveal_strlit("sync");
    reveal_strlit("async");
    reveal_strlit("dirsync");
    reveal_strlit("remount");
    reveal_strlit("mand");
    reveal_strlit("nomand");
    reveal_strlit("atime");
    reveal_strlit("noatime");
    reveal_strlit("diratime");
    reveal_strlit("nodiratime");
    reveal_strlit("bind");
    reveal_strlit("rbind");
    reveal_strlit("unbindable");
    reveal_strlit("runbindable");
    reveal_strlit("private");
    reveal_strlit("rprivate");
    reveal_strlit("shared");
    reveal_strlit("rshared");
    reveal_strlit("slave");
    reveal_strlit("rslave");
    reveal_strlit("relatime");
    reveal_strlit("norelatime");
    reveal_strlit("strictatime");
    reveal_strlit("nostrictatime");
    reveal_strlit("rro");
    reveal_strlit("rrw");
    reveal_strlit("rsuid");
    reveal_strlit("rnosuid");
    reveal_strlit("rdev");
    reveal_strlit("rnodev");
    reveal_strlit("rexec");
    reveal_strlit("rnoexec");
    reveal_strlit("rnodiratime");
    reveal_strlit("rdiratime");
    reveal_strlit("rnosymfollow");
    reveal_strlit("rsymfollow");
    reveal_strlit("rnoatime");
    reveal_strlit("rrelatime");
    reveal_strlit("rstrictatime");
    reveal_strlit("mode=755");
    assert("defaults"@ =~= seq!['d', 'e', 'f', 'a', 'u', 'l', 't', 's']);
    assert("ro"@ =~= seq!['r', 'o']);
    assert("rw"@ =~= seq!['r', 'w']);
    assert("suid"@ =~= seq!['s', 'u', 'i', 'd']);
    assert("nosuid"@ =~= seq!['n', 'o', 's', 'u', 'i', 'd']);
    assert("dev"@ =~= seq!['d', 'e', 'v']);
    assert("nodev"@ =~= seq!['n', 'o', 'd', 'e', 'v']);
    assert("exec"@ =~= seq!['e', 'x', 'e', 'c']);
    assert("noexec"@ =~= seq!['n', 'o', 'e', 'x', 'e', 'c']);
    assert("sync"@ =~= seq!['s', 'y', 'n', 'c']);
    assert("async"@ =~= seq!['a', 's', 'y', 'n', 'c']);
    assert("dirsync"@ =~= seq!['d', 'i', 'r', 's', 'y', 'n', 'c']);
    assert("remount"@ =~= seq!['r', 'e', 'm', 'o', 'u', 'n', 't']);
    assert("mand"@ =~= seq!['m', 'a', 'n', 'd']);
    assert("nomand"@ =~= seq!['n', 'o', 'm', 'a', 'n', 'd']);
    assert("atime"@ =~= seq!['a', 't', 'i', 'm', 'e']);
    assert("noatime"@ =~= seq!['n', 'o', 'a', 't', 'i', 'm', 'e']);
    assert("diratime"@ =~= seq!['d', 'i', 'r', 'a', 't', 'i', 'm', 'e']);
    assert("nodiratime"@ =~= seq!['n', 'o', 'd', 'i', 'r', 'a', 't', 'i', 'm', 'e']);
    assert("bind"@ =~= seq!['b', 'i', 'n', 'd']);
    assert("rbind"@ =~= seq!['r', 'b', 'i', 'n', 'd']);
    assert("unbindable"@ =~= seq!['u', 'n', 'b', 'i', 'n', 'd', 'a', 'b', 'l', 'e']);
    assert("runbindable"@ =~= seq!['r', 'u', 'n', 'b', 'i', 'n', 'd', 'a', 'b', 'l', 'e']);
    assert("private"@ =~= seq!['p', 'r', 'i', 'v', 'a', 't', 'e']);
    assert("rprivate"@ =~= seq!['r', 'p', 'r', 'i', 'v', 'a', 't', 'e']);
    assert("shared"@ =~= seq!['s', 'h', 'a', 'r', 'e', 'd']);
    assert("rshared"@ =~= seq!['r', 's', 'h', 'a', 'r', 'e', 'd']);
    assert("slave"@ =~= seq!['s', 'l', 'a', 'v', 'e']);
    assert("rslave"@ =~= seq!['r', 's', 'l', 'a', 'v', 'e']);
    assert("relatime"@ =~= seq!['r', 'e', 'l', 'a', 't', 'i', 'm', 'e']);
    assert("norelatime"@ =~= seq!['n', 'o', 'r', 'e', 'l', 'a', 't', 'i', 'm', 'e']);
    assert("strictatime"@ =~= seq!['s', 't', 'r', 'i', 'c', 't', 'a', 't', 'i', 'm', 'e']);
    assert("nostrictatime"@ =~= seq!['n', 'o', 's', 't', 'r', 'i', 'c', 't', 'a', 't', 'i', 'm', 'e']);
    assert("rro"@ =~= seq!['r', 'r', 'o']);
    assert("rrw"@ =~= seq!['r', 'r', 'w']);
    assert("rsuid"@ =~= seq!['r', 's', 'u', 'i', 'd']);
    assert("rnosuid"@ =~= seq!['r', 'n', 'o', 's', 'u', 'i', 'd']);
    assert("rdev"@ =~= seq!['r', 'd', 'e', 'v']);
    assert("rnodev"@ =~= seq!['r', 'n', 'o', 'd', 'e', 'v']);
    assert("rexec"@ =~= seq!['r', 'e', 'x', 'e', 'c']);
    assert("rnoexec"@ =~= seq!['r', 'n', 'o', 'e', 'x', 'e', 'c']);
    assert("rnodiratime"@ =~= seq!['r', 'n', 'o', 'd', 'i', 'r', 'a', 't', 'i', 'm', 'e']);
    assert("rdiratime"@ =~= seq!['r', 'd', 'i', 'r', 'a', 't', 'i', 'm', 'e']);
    assert("rnosymfollow"@ =~= seq!['r', 'n', 'o', 's', 'y', 'm', 'f', 'o', 'l', 'l', 'o', 'w']);
    assert("rsymfollow"@ =~= seq!['r', 's', 'y', 'm', 'f', 'o', 'l', 'l', 'o', 'w']);
    assert("rnoatime"@ =~= seq!['r', 'n', 'o', 'a', 't', 'i', 'm', 'e']);
    assert("rrelatime"@ =~= seq!['r', 'r', 'e', 'l', 'a', 't', 'i', 'm', 'e']);
    assert("rstrictatime"@ =~= seq!['r', 's', 't', 'r', 'i', 'c', 't', 'a', 't', 'i', 'm', 'e']);
    assert("mode=755"@ =~= seq!['m', 'o', 'd', 'e', '=', '7', '5', '5']);
}

/// What parsing the cgroup tmpfs options yields.
pub proof fn lemma_parse_tmpfs_options()
    ensures
        spec_flags(tmpfs_option_tokens()) == MS_NOEXEC | MS_NOSUID | MS_NODEV,
        spec_data(tmpfs_option_tokens()) =~~= seq!["mode=755"@],
        spec_rec_attr(tmpfs_option_tokens()) == None::<MountRecAttr>,
{
    lemma_option_table();
    let t = tmpfs_option_tokens();
    let t0 = Seq::<Seq<char>>::empty();
    let t1 = seq!["noexec"@];
    let t2 = seq!["noexec"@, "nosuid"@];
    let t3 = seq!["noexec"@, "nosuid"@, "nodev"@];
    assert(spec_flags(t0) == 0u64);
    assert(spec_data(t0) =~~= Seq::<Seq<char>>::empty());
    assert(spec_rec_attr(t0) is None);
    assert(t1.drop_last() =~= t0 && t1.last() == "noexec"@);
    assert(t2.drop_last() =~= t1 && t2.last() == "nosuid"@);
    assert(t3.drop_last() =~= t2 && t3.last() == "nodev"@);
    assert(t.drop_last() =~= t3 && t.last() == "mode=755"@);
    assert(flag_token("noexec"@) == Some((false, MS_NOEXEC)));
    assert(flag_token("nosuid"@) == Some((false, MS_NOSUID)));
    assert(flag_token("nodev"@) == Some((false, MS_NODEV)));
    assert(flag_token("mode=755"@) is None);
    assert(attr_token("mode=755"@) is None);
    assert(spec_flags(t1) == 0u64 | MS_NOEXEC);
    assert(spec_flags(t2) == (0u64 | MS_NOEXEC) | MS_NOSUID);
    assert(spec_flags(t3) == ((0u64 | MS_NOEXEC) | MS_NOSUID) | MS_NODEV);
    assert(spec_flags(t) == ((0u64 | MS_NOEXEC) | MS_NOSUID) | MS_NODEV);
    assert(((0u64 | 0x8u64) | 0x2u64) | 0x4u64 == 0x8u64 | 0x2u64 | 0x4u64) by (bit_vector);
    assert(spec_data(t1) =~~= Seq::<Seq<char>>::empty());
    assert(spec_data(t2) =~~= Seq::<Seq<char>>::empty());
    assert(spec_data(t3) =~~= Seq::<Seq<char>>::empty());
    assert(spec_data(t) =~~= seq!["mode=755"@]);
    assert(spec_rec_attr(t1) is None);
    assert(spec_rec_attr(t2) is None);
    assert(spec_rec_attr(t3) is None);
    assert(spec_rec_attr(t) is None);
}

/// What parsing the emulated bind options yields.
pub proof fn lemma_parse_emulated_options()
    ensures
        spec_flags(emulated_option_tokens()) == MS_BIND | MS_REC,
        spec_data(emulated_option_tokens()) =~~= Seq::<Seq<char>>::empty(),
        spec_rec_attr(emulated_option_tokens()) == None::<MountRecAttr>,
{
    lemma_option_table();
    let t = emulated_option_tokens();
    let t0 = Seq::<Seq<char>>::empty();
    let t1 = seq!["rw"@];
    assert(spec_flags(t0) == 0u64);
    assert(spec_data(t0) =~~= Seq::<Seq<char>>::empty());
    assert(spec_rec_attr(t0) is None);
    assert(t1.drop_last() =~= t0 && t1.last() == "rw"@);
    assert(t.drop_last() =~= t1 && t.last() == "rbind"@);
    assert(flag_token("rw"@) == Some((true, MS_RDONLY)));
    assert(flag_token("rbind"@) == Some((false, MS_BIND | MS_REC)));
    assert(spec_flags(t1) == 0u64 & !MS_RDONLY);
    assert(spec_flags(t) == (0u64 & !MS_RDONLY) | (MS_BIND | MS_REC));
    assert((0u64 & !0x1u64) | (0x1000u64 | 0x4000u64) == 0x1000u64 | 0x4000u64) by (bit_vector);
    assert(spec_data(t1) =~~= Seq::<Seq<char>>::empty());
    assert(spec_data(t) =~~= Seq::<Seq<char>>::empty());
    assert(spec_rec_attr(t1) is None);
    assert(spec_rec_attr(t) is None);
}

/// Parse the option tokens of a mount request. Parsing never fails: every
/// unrecognized token passes through into `data`, in input order.
pub fn parse_mount(m: &MountRequest) -> (r: MountOptionConfig)
    ensures
        parsed_config(r, m.options.deep_view()),
{
    let mut flags: u64 = 0;
    let mut data: Vec<String> = Vec::new();
    let mut rec_attr: Option<MountRecAttr> = None;
    let mut i: usize = 0;
    while i < m.options.len()
        invariant
            i <= m.options.len(),
            flags == spec_flags(m.options.deep_view().take(i as int)),
            data.deep_view() =~~= spec_data(m.options.deep_view().take(i as int)),
            rec_attr == spec_rec_attr(m.options.deep_view().take(i as int)),
        decreases m.options.len() - i,
    {
        let o = &m.options[i];
        proof {
            let ov = m.options.deep_view();
            assert(ov.take(i + 1 as int).drop_last() =~= ov.take(i as int));
            assert(ov.take(i + 1 as int).last() == ov[i as int]);
            assert(ov[i as int] == o@);
        }
        match flag_token_of(o) {
            Some(t) => {
                if t.0 {
                    flags = flags & !t.1;
                } else {
                    flags = flags | t.1;
                }
            },
            None => {
                match attr_token_of(o) {
                    Some(t) => {
                        let prev = match rec_attr {
                            Some(p) => p,
                            None => MountRecAttr::empty(),
                        };
                        rec_attr = Some(
                            MountRecAttr {
                                attr_set: prev.attr_set | t.0,
                                attr_clr: prev.attr_clr | t.1,
                                propagation: prev.propagation,
                                userns_fd: prev.userns_fd,
                            },
                        );
                    },
                    None => {
                        data.push(o.clone());
                    },
                }
            },
        }
        i = i + 1;
    }
    proof {
        assert(m.options.deep_view().take(m.options.len() as int) =~= m.options.deep_view());
    }
    let data_str = join_with(&data, ",");
    MountOptionConfig { flags, data: data_str, rec_attr }
}

} // verus!
