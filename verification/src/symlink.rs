//! The symlink comounter: compatibility symlinks for comounted cgroup v1
//! controllers, so that a comounted hierarchy such as `cpu,cpuacct` is also
//! reachable under each single alias. The links go through the syscall
//! adapter, whose symlink log is the observable behaviour.

use vstd::prelude::*;
use vstd::string::StrSliceExecFns;
use crate::mount::MountError;
use crate::path::{join_path, spec_join_path};
use crate::strutil::{split_chars, split_on};
use crate::syscall::{SymlinkCallV, Syscall};

verus! {

/// The links owed for the aliases of one comounted name: one per nonempty
/// alias, placed under `root` and pointing at the full name.
pub open spec fn alias_calls(
    root: Seq<char>,
    name: Seq<char>,
    aliases: Seq<Seq<char>>,
) -> Seq<SymlinkCallV>
    decreases aliases.len(),
{
    if aliases.len() == 0 {
        Seq::<SymlinkCallV>::empty()
    } else {
        let r = alias_calls(root, name, aliases.drop_last());
        if aliases.last().len() > 0 {
            r.push(SymlinkCallV { original: name, link: spec_join_path(root, aliases.last()) })
        } else {
            r
        }
    }
}

/// The symlink creations the comounter owes for one subsystem name: none
/// for a plain name, and one link per comma-separated alias otherwise.
pub open spec fn comount_calls(root: Seq<char>, name: Seq<char>) -> Seq<SymlinkCallV> {
    if !name.contains(',') {
        Seq::<SymlinkCallV>::empty()
    } else {
        alias_calls(root, name, split_chars(name, ','))
    }
}

/// Creates the comount compatibility symlinks.
pub struct Symlink {}

impl Symlink {
    pub fn new() -> Symlink {
        Symlink {  }
    }

    /// When the host subsystem directory name is a comma-joined alias, place
    /// one symlink per alias beside it, each pointing at the comounted name.
    /// A name without a comma needs no links and always succeeds.
    pub fn setup_comount_symlinks<S: Syscall>(
        &self,
        syscall: &mut S,
        cgroup_root: &String,
        subsystem_name: &String,
    ) -> (r: Result<(), MountError>)
        ensures
            final(syscall).mount_log() == old(syscall).mount_log(),
            final(syscall).setattr_log() == old(syscall).setattr_log(),
            final(syscall).scripted() == old(syscall).scripted(),
            (old(syscall).scripted() && old(syscall).planned().len() == 0) ==> ({
                final(syscall).planned().len() == 0
            }),
            old(syscall).symlink_log() =~= final(syscall).symlink_log().take(
                old(syscall).symlink_log().len() as int,
            ),
            final(syscall).symlink_log().len() >= old(syscall).symlink_log().len(),
            r is Ok ==> final(syscall).symlink_log() == old(syscall).symlink_log()
                + comount_calls(cgroup_root@, subsystem_name@),
            r is Err ==> subsystem_name@.contains(',') && r matches Err(
                MountError::Symlink { .. },
            ),
            !subsystem_name@.contains(',') ==> r is Ok && final(syscall).symlink_log() == old(
                syscall,
            ).symlink_log(),
            (old(syscall).scripted() && old(syscall).planned().len() == 0) ==> r is Ok,
    {
        let n = subsystem_name.as_str().unicode_len();
        let mut has_comma = false;
        let mut i: usize = 0;
        while i < n
            invariant
                i <= n,
                n == subsystem_name@.len(),
                has_comma ==> subsystem_name@.contains(','),
                !has_comma ==> forall|j: int| 0 <= j < i ==> subsystem_name@[j] != ',',
            decreases n - i,
        {
            if subsystem_name.as_str().get_char(i) == ',' {
                has_comma = true;
            }
            i = i + 1;
        }
        if !has_comma {
            proof {
                if subsystem_name@.contains(',') {
                    let j = choose|j: int|
                        0 <= j < subsystem_name@.len() && subsystem_name@[j] == ',';
                    assert(false);
                }
            }
            return Ok(());
        }
        let aliases = split_on(subsystem_name.as_str(), ',');
        let ghost base = syscall.symlink_log();
        let ghost av = aliases.deep_view();
        let mut k: usize = 0;
        proof {
            assert(alias_calls(cgroup_root@, subsystem_name@, av.take(0)) =~= Seq::<
                SymlinkCallV,
            >::empty());
            assert(syscall.symlink_log() =~= base + alias_calls(
                cgroup_root@,
                subsystem_name@,
                av.take(0),
            ));
        }
        while k < aliases.len()
            invariant
                k <= aliases.len(),
                av == aliases.deep_view(),
                subsystem_name@.contains(','),
                syscall.mount_log() == old(syscall).mount_log(),
                syscall.setattr_log() == old(syscall).setattr_log(),
                syscall.scripted() == old(syscall).scripted(),
                (old(syscall).scripted() && old(syscall).planned().len() == 0)
                    ==> syscall.planned().len() == 0,
                base == old(syscall).symlink_log(),
                syscall.symlink_log() =~= base + alias_calls(
                    cgroup_root@,
                    subsystem_name@,
                    av.take(k as int),
                ),
            decreases aliases.len() - k,
        {
            let alias = &aliases[k];
            proof {
                assert(av.take(k + 1 as int).drop_last() =~= av.take(k as int));
                assert(av.take(k + 1 as int).last() == av[k as int]);
                assert(av[k as int] == alias@);
            }
            if alias.as_str().unicode_len() > 0 {
                let link = join_path(cgroup_root, alias);
                let res = syscall.symlink(subsystem_name.as_str(), link.as_str());
                proof {
                    assert(syscall.symlink_log() =~= base + alias_calls(
                        cgroup_root@,
                        subsystem_name@,
                        av.take(k + 1 as int),
                    ));
                }
                if let Err(e) = res {
                    return Err(MountError::Symlink { path: link, errno: e });
                }
            }
            k = k + 1;
        }
        proof {
            assert(av.take(aliases.len() as int) =~= av);
            assert(syscall.symlink_log() =~= base + comount_calls(cgroup_root@, subsystem_name@));
        }
        Ok(())
    }
}

} // verus!
