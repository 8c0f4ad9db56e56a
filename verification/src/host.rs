//! What the engine needs to know about the host: the mount table and the
//! process's cgroup memberships. The two probes are trusted reads of /proc;
//! everything derived from them is verified against the read values.

use vstd::prelude::*;
use crate::strutil::{join_chars, join_with, str_eq, string_eq};

verus! {

/// The canonical root of the host cgroup filesystem.
pub const DEFAULT_CGROUP_ROOT: &'static str = "/sys/fs/cgroup";

/// An optional field of a mountinfo entry.
#[derive(Clone, Copy, Debug, PartialEq, Eq, Structural)]
pub enum MountOptField {
    /// The mount is shared in the peer group with this id.
    Shared(u32),
    /// The mount is a slave of the peer group with this id.
    Master(u32),
    /// The mount receives propagation from the peer group with this id.
    PropagateFrom(u32),
    /// The mount is unbindable.
    Unbindable,
}

/// One entry of the process's mount table.
#[derive(Clone, Debug)]
pub struct MountEntry {
    /// Where the mount is attached, relative to the process root.
    pub mount_point: String,
    /// The filesystem type.
    pub fs_type: String,
    /// The optional propagation fields.
    pub opt_fields: Vec<MountOptField>,
}

/// One entry of the process's cgroup membership file.
#[derive(Clone, Debug)]
pub struct ProcessCgroup {
    /// Hierarchy id; `0` for the unified (v2) hierarchy.
    pub hierarchy: u32,
    /// The controllers bound to the hierarchy.
    pub controllers: Vec<String>,
    /// The process's path inside the hierarchy.
    pub pathname: String,
}

/// The optional-field type of procfs, declared so its values can pass
/// through a wrapper.
#[verifier::external_type_specification]
#[verifier::external_body]
pub struct ExMountOptFields(procfs::process::MountOptFields);

/// Relies on procfs's mount option fields: each variant carries over as it
/// stands.
#[verifier::external_body]
fn opt_field_of(f: procfs::process::MountOptFields) -> MountOptField {
    match f {
        procfs::process::MountOptFields::Shared(x) => MountOptField::Shared(x),
        procfs::process::MountOptFields::Master(x) => MountOptField::Master(x),
        procfs::process::MountOptFields::PropagateFrom(x) => MountOptField::PropagateFrom(x),
        procfs::process::MountOptFields::Unbindable => MountOptField::Unbindable,
    }
}

/// Relies on `procfs::process::Process::myself` and `Process::mountinfo`:
/// the entries of `/proc/self/mountinfo`, one record per mount.
#[verifier::external_body]
pub fn read_self_mountinfo() -> Result<Vec<MountEntry>, String> {
    let infos = procfs::process::Process::myself()
        .and_then(|p| p.mountinfo())
        .map_err(|e| format!("{e}"))?;
    Ok(infos.0.into_iter().map(|mi| MountEntry {
        mount_point: mi.mount_point.to_string_lossy().into_owned(),
        fs_type: mi.fs_type,
        opt_fields: mi.opt_fields.into_iter().map(opt_field_of).collect(),
    }).collect())
}

/// Relies on `procfs::process::Process::myself` and `Process::cgroups`: the
/// entries of `/proc/self/cgroup`, one record per hierarchy.
#[verifier::external_body]
pub fn read_self_cgroups() -> Result<Vec<ProcessCgroup>, String> {
    let groups = procfs::process::Process::myself()
        .and_then(|p| p.cgroups())
        .map_err(|e| format!("{e}"))?;
    Ok(groups.0.into_iter().map(|c| ProcessCgroup {
        hierarchy: c.hierarchy,
        controllers: c.controllers,
        pathname: c.pathname,
    }).collect())
}

impl MountEntry {
    /// A field-wise copy.
    pub fn dup(&self) -> (r: MountEntry)
        ensures
            r.mount_point@ == self.mount_point@,
            r.fs_type@ == self.fs_type@,
            r.opt_fields@ == self.opt_fields@,
    {
        let of = self.opt_fields.clone();
        proof {
            assert forall|i: int| 0 <= i < of@.len() implies of@[i] == self.opt_fields@[i] by {
                assert(vstd::pervasive::cloned::<MountOptField>(self.opt_fields@[i], of@[i]));
            }
            assert(of@ =~= self.opt_fields@);
        }
        MountEntry {
            mount_point: self.mount_point.clone(),
            fs_type: self.fs_type.clone(),
            opt_fields: of,
        }
    }
}

/// How the host mounts its cgroup hierarchies.
#[derive(Clone, Copy, Debug, PartialEq, Eq, Structural)]
pub enum CgroupSetup {
    /// Only v1 controller hierarchies.
    Legacy,
    /// v1 controller hierarchies beside a v2 unified hierarchy.
    Hybrid,
    /// Only the v2 unified hierarchy.
    Unified,
}

pub open spec fn has_fs_type(mounts: Seq<MountEntry>, t: Seq<char>) -> bool {
    exists|i: int| 0 <= i < mounts.len() && #[trigger] mounts[i].fs_type@ == t
}

/// The cgroup setup the mount table shows, or `None` when no cgroup
/// filesystem is mounted at all and the setup cannot be determined.
pub open spec fn spec_cgroup_setup(mounts: Seq<MountEntry>) -> Option<CgroupSetup> {
    if has_fs_type(mounts, "cgroup"@) {
        if has_fs_type(mounts, "cgroup2"@) {
            Some(CgroupSetup::Hybrid)
        } else {
            Some(CgroupSetup::Legacy)
        }
    } else if has_fs_type(mounts, "cgroup2"@) {
        Some(CgroupSetup::Unified)
    } else {
        None
    }
}

/// Probe the cgroup setup from the mount table.
pub fn cgroup_setup_of(mounts: &Vec<MountEntry>) -> (r: Option<CgroupSetup>)
    ensures
        r == spec_cgroup_setup(mounts@),
{
    let mut has_v1 = false;
    let mut has_v2 = false;
    let mut i: usize = 0;
    while i < mounts.len()
        invariant
            i <= mounts.len(),
            has_v1 == exists|j: int|
                0 <= j < i && #[trigger] mounts@[j].fs_type@ == "cgroup"@,
            has_v2 == exists|j: int|
                0 <= j < i && #[trigger] mounts@[j].fs_type@ == "cgroup2"@,
        decreases mounts.len() - i,
    {
        if string_eq(&mounts[i].fs_type, "cgroup") {
            has_v1 = true;
        }
        if string_eq(&mounts[i].fs_type, "cgroup2") {
            has_v2 = true;
        }
        i = i + 1;
    }
    proof {
        assert(has_v1 == has_fs_type(mounts@, "cgroup"@));
        assert(has_v2 == has_fs_type(mounts@, "cgroup2"@));
    }
    if has_v1 {
        if has_v2 {
            Some(CgroupSetup::Hybrid)
        } else {
            Some(CgroupSetup::Legacy)
        }
    } else if has_v2 {
        Some(CgroupSetup::Unified)
    } else {
        None
    }
}

/// The mount points of the v1 cgroup controller hierarchies, in table order.
pub open spec fn spec_subsystem_mounts(mounts: Seq<MountEntry>) -> Seq<Seq<char>>
    decreases mounts.len(),
{
    if mounts.len() == 0 {
        Seq::<Seq<char>>::empty()
    } else {
        let r = spec_subsystem_mounts(mounts.drop_last());
        if mounts.last().fs_type@ == "cgroup"@ {
            r.push(mounts.last().mount_point@)
        } else {
            r
        }
    }
}

/// List the mount points of all v1 cgroup hierarchies.
pub fn list_subsystem_mount_points(mounts: &Vec<MountEntry>) -> (r: Vec<String>)
    ensures
        r.deep_view() == spec_subsystem_mounts(mounts@),
{
    let mut r: Vec<String> = Vec::new();
    let mut i: usize = 0;
    while i < mounts.len()
        invariant
            i <= mounts.len(),
            r.deep_view() =~~= spec_subsystem_mounts(mounts@.take(i as int)),
        decreases mounts.len() - i,
    {
        proof {
            assert(mounts@.take(i + 1 as int).drop_last() =~= mounts@.take(i as int));
            assert(mounts@.take(i + 1 as int).last() == mounts@[i as int]);
        }
        if string_eq(&mounts[i].fs_type, "cgroup") {
            r.push(mounts[i].mount_point.clone());
        }
        i = i + 1;
    }
    proof {
        assert(mounts@.take(mounts.len() as int) =~= mounts@);
    }
    r
}

/// The comma-joined controller list, the key a hierarchy is looked up by.
pub open spec fn controllers_key(c: ProcessCgroup) -> Seq<char> {
    join_chars(c.controllers.deep_view(), ","@)
}

/// The process path of the first hierarchy whose controller key matches.
pub open spec fn spec_lookup_cgroup(cs: Seq<ProcessCgroup>, key: Seq<char>) -> Option<Seq<char>>
    decreases cs.len(),
{
    if cs.len() == 0 {
        None
    } else if controllers_key(cs[0]) == key {
        Some(cs[0].pathname@)
    } else {
        spec_lookup_cgroup(cs.skip(1), key)
    }
}

/// Look up the process's path inside the hierarchy named by `key`.
pub fn lookup_process_cgroup(cs: &Vec<ProcessCgroup>, key: &String) -> (r: Option<String>)
    ensures
        (match r {
            Some(p) => Some(p@),
            None => None,
        }) == spec_lookup_cgroup(cs@, key@),
{
    let mut i: usize = 0;
    proof {
        assert(cs@.skip(0) =~= cs@);
    }
    while i < cs.len()
        invariant
            i <= cs.len(),
            spec_lookup_cgroup(cs@, key@) == spec_lookup_cgroup(cs@.skip(i as int), key@),
        decreases cs.len() - i,
    {
        let k = join_with(&cs[i].controllers, ",");
        proof {
            assert(cs@.skip(i as int)[0] == cs@[i as int]);
            assert(cs@.skip(i as int).skip(1) =~= cs@.skip(i + 1 as int));
        }
        if str_eq(k.as_str(), key.as_str()) {
            return Some(cs[i].pathname.clone());
        }
        i = i + 1;
    }
    proof {
        assert(cs@.skip(cs.len() as int) =~= Seq::<ProcessCgroup>::empty());
    }
    None
}

/// The process path inside the unified hierarchy: the entry with hierarchy 0.
pub open spec fn spec_unified_path(cs: Seq<ProcessCgroup>) -> Option<Seq<char>>
    decreases cs.len(),
{
    if cs.len() == 0 {
        None
    } else if cs[0].hierarchy == 0 {
        Some(cs[0].pathname@)
    } else {
        spec_unified_path(cs.skip(1))
    }
}

/// The process's path inside the unified (v2) hierarchy, if it has one.
pub fn unified_process_cgroup(cs: &Vec<ProcessCgroup>) -> (r: Option<String>)
    ensures
        (match r {
            Some(p) => Some(p@),
            None => None,
        }) == spec_unified_path(cs@),
{
    let mut i: usize = 0;
    proof {
        assert(cs@.skip(0) =~= cs@);
    }
    while i < cs.len()
        invariant
            i <= cs.len(),
            spec_unified_path(cs@) == spec_unified_path(cs@.skip(i as int)),
        decreases cs.len() - i,
    {
        proof {
            assert(cs@.skip(i as int)[0] == cs@[i as int]);
            assert(cs@.skip(i as int).skip(1) =~= cs@.skip(i + 1 as int));
        }
        if cs[i].hierarchy == 0 {
            return Some(cs[i].pathname.clone());
        }
        i = i + 1;
    }
    None
}

/// The first mount point of a v2 unified hierarchy in the table.
pub open spec fn spec_unified_mount_point(mounts: Seq<MountEntry>) -> Option<Seq<char>>
    decreases mounts.len(),
{
    if mounts.len() == 0 {
        None
    } else if mounts[0].fs_type@ == "cgroup2"@ {
        Some(mounts[0].mount_point@)
    } else {
        spec_unified_mount_point(mounts.skip(1))
    }
}

/// The host mount point of the unified (v2) hierarchy, if there is one.
pub fn unified_mount_point(mounts: &Vec<MountEntry>) -> (r: Option<String>)
    ensures
        (match r {
            Some(p) => Some(p@),
            None => None,
        }) == spec_unified_mount_point(mounts@),
{
    let mut i: usize = 0;
    proof {
        assert(mounts@.skip(0) =~= mounts@);
    }
    while i < mounts.len()
        invariant
            i <= mounts.len(),
            spec_unified_mount_point(mounts@) == spec_unified_mount_point(
                mounts@.skip(i as int),
            ),
        decreases mounts.len() - i,
    {
        proof {
            assert(mounts@.skip(i as int)[0] == mounts@[i as int]);
            assert(mounts@.skip(i as int).skip(1) =~= mounts@.skip(i + 1 as int));
        }
        if string_eq(&mounts[i].fs_type, "cgroup2") {
            return Some(mounts[i].mount_point.clone());
        }
        i = i + 1;
    }
    None
}

/// Whether the optional fields mark the mount as shared.
pub open spec fn spec_has_shared(fields: Seq<MountOptField>) -> bool {
    exists|i: int| 0 <= i < fields.len() && (#[trigger] fields[i]) matches MountOptField::Shared(
        _,
    )
}

/// Whether a mount with these optional fields has `shared` propagation.
pub fn has_shared_field(fields: &Vec<MountOptField>) -> (r: bool)
    ensures
        r == spec_has_shared(fields@),
{
    let mut i: usize = 0;
    while i < fields.len()
        invariant
            i <= fields.len(),
            forall|j: int| 0 <= j < i ==> !((#[trigger] fields@[j]) matches MountOptField::Shared(
                _,
            )),
        decreases fields.len() - i,
    {
        if let MountOptField::Shared(_) = fields[i] {
            return true;
        }
        i = i + 1;
    }
    false
}

/// `p` equals `root` or lies below it, component-wise; a root that itself
/// ends in a separator needs no further separator after it.
pub open spec fn spec_path_has_prefix(p: Seq<char>, root: Seq<char>) -> bool {
    ||| p == root
    ||| (root.len() > 0 && root.last() == '/' && p.len() > root.len() && p.take(
        root.len() as int,
    ) == root)
    ||| (p.len() > root.len() && p.take(root.len() as int) == root && p[root.len() as int] == '/')
}

/// Whether the path `p` is `root` or lies below it.
pub fn path_has_prefix(p: &str, root: &str) -> (r: bool)
    ensures
        r == spec_path_has_prefix(p@, root@),
{
    let np = p.unicode_len();
    let nr = root.unicode_len();
    if np < nr {
        proof {
            assert(p@.len() < root@.len());
        }
        return false;
    }
    let mut i: usize = 0;
    while i < nr
        invariant
            i <= nr,
            nr == root@.len(),
            np == p@.len(),
            np >= nr,
            forall|j: int| 0 <= j < i ==> p@[j] == root@[j],
        decreases nr - i,
    {
        if p.get_char(i) != root.get_char(i) {
            proof {
                assert(p@ != root@);
                assert(p@.take(root@.len() as int)[i as int] != root@[i as int]);
            }
            return false;
        }
        i = i + 1;
    }
    if np == nr {
        proof {
            assert(p@ =~= root@);
        }
        return true;
    }
    proof {
        assert(p@.take(root@.len() as int) =~= root@);
        if p@ == root@ {
            assert(p@.len() == root@.len());
        }
    }
    if nr > 0 && root.get_char(nr - 1) == '/' {
        return true;
    }
    let sep = p.get_char(nr);
    proof {
        if nr > 0 {
            assert(root@.last() == root@[nr - 1int]);
        }
    }
    sep == '/'
}

/// The entry whose mount point is the nearest ancestor of `path`: it is a
/// prefix of `path` and no other prefix entry is longer.
pub fn find_parent_mount(path: &String, mounts: &Vec<MountEntry>) -> (r: Option<MountEntry>)
    ensures
        (match r {
            Some(e) => {
                &&& exists|i: int|
                    0 <= i < mounts@.len() && #[trigger] mounts@[i].mount_point@
                        == e.mount_point@ && mounts@[i].fs_type@ == e.fs_type@
                        && mounts@[i].opt_fields@ == e.opt_fields@
                &&& spec_path_has_prefix(path@, e.mount_point@)
                &&& forall|i: int|
                    0 <= i < mounts@.len() && spec_path_has_prefix(
                        path@,
                        #[trigger] mounts@[i].mount_point@,
                    ) ==> mounts@[i].mount_point@.len() <= e.mount_point@.len()
            },
            None => forall|i: int|
                0 <= i < mounts@.len() ==> !spec_path_has_prefix(
                    path@,
                    #[trigger] mounts@[i].mount_point@,
                ),
        }),
{
    let mut best: Option<MountEntry> = None;
    let mut i: usize = 0;
    while i < mounts.len()
        invariant
            i <= mounts.len(),
            (match best {
                Some(e) => {
                    &&& exists|k: int|
                        0 <= k < mounts@.len() && #[trigger] mounts@[k].mount_point@
                            == e.mount_point@ && mounts@[k].fs_type@ == e.fs_type@
                            && mounts@[k].opt_fields@ == e.opt_fields@
                    &&& spec_path_has_prefix(path@, e.mount_point@)
                    &&& forall|k: int|
                        0 <= k < i && spec_path_has_prefix(
                            path@,
                            #[trigger] mounts@[k].mount_point@,
                        ) ==> mounts@[k].mount_point@.len() <= e.mount_point@.len()
                },
                None => forall|k: int|
                    0 <= k < i ==> !spec_path_has_prefix(
                        path@,
                        #[trigger] mounts@[k].mount_point@,
                    ),
            }),
        decreases mounts.len() - i,
    {
        if path_has_prefix(path.as_str(), mounts[i].mount_point.as_str()) {
            let better = match &best {
                Some(e) => mounts[i].mount_point.as_str().unicode_len()
                    > e.mount_point.as_str().unicode_len(),
                None => true,
            };
            if better {
                best = Some(mounts[i].dup());
                proof {
                    assert(mounts@[i as int].mount_point@ == best->Some_0.mount_point@);
                }
            }
        }
        i = i + 1;
    }
    best
}

} // verus!
