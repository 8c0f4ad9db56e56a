//! The syscall adapter: a capability over `mount(2)`, `mount_setattr(2)` and
//! symlink creation.
//!
//! Every adapter keeps one log per operation; the mount engine's contracts
//! are stated over those logs. An adapter may also be *scripted*: it then
//! answers each call from a planned queue of results, an empty queue
//! answering success. `TraceSyscall`, the test double the engine is
//! exercised under, only records and is scripted; an implementation that
//! performs the calls lives with the unverified driver, because
//! `mount_setattr` can only be reached through a raw system call.

use vstd::prelude::*;
use crate::flags::MountRecAttr;

verus! {

/// One recorded `mount(2)` invocation.
#[derive(Clone, Debug, PartialEq, Eq)]
pub struct MountCall {
    pub source: Option<String>,
    pub target: String,
    pub fstype: Option<String>,
    pub flags: u64,
    pub data: Option<String>,
}

/// The mathematical image of a `mount(2)` invocation.
pub ghost struct MountCallV {
    pub source: Option<Seq<char>>,
    pub target: Seq<char>,
    pub fstype: Option<Seq<char>>,
    pub flags: u64,
    pub data: Option<Seq<char>>,
}

/// One recorded `mount_setattr(2)` invocation; the attributes are applied
/// recursively below `pathname`.
#[derive(Clone, Debug, PartialEq, Eq)]
pub struct SetattrCall {
    pub pathname: String,
    pub flags: u64,
    pub attr: MountRecAttr,
}

/// The mathematical image of a `mount_setattr(2)` invocation.
pub ghost struct SetattrCallV {
    pub pathname: Seq<char>,
    pub flags: u64,
    pub attr: MountRecAttr,
}

/// One recorded symlink creation: a link at `link` pointing at `original`.
#[derive(Clone, Debug, PartialEq, Eq)]
pub struct SymlinkCall {
    pub original: String,
    pub link: String,
}

/// The mathematical image of a symlink creation.
pub ghost struct SymlinkCallV {
    pub original: Seq<char>,
    pub link: Seq<char>,
}

pub open spec fn opt_str_view(o: Option<&str>) -> Option<Seq<char>> {
    match o {
        Some(s) => Some(s@),
        None => None,
    }
}

impl View for MountCall {
    type V = MountCallV;

    open spec fn view(&self) -> MountCallV {
        MountCallV {
            source: match self.source {
                Some(s) => Some(s@),
                None => None,
            },
            target: self.target@,
            fstype: match self.fstype {
                Some(s) => Some(s@),
                None => None,
            },
            flags: self.flags,
            data: match self.data {
                Some(s) => Some(s@),
                None => None,
            },
        }
    }
}

impl View for SetattrCall {
    type V = SetattrCallV;

    open spec fn view(&self) -> SetattrCallV {
        SetattrCallV { pathname: self.pathname@, flags: self.flags, attr: self.attr }
    }
}

impl View for SymlinkCall {
    type V = SymlinkCallV;

    open spec fn view(&self) -> SymlinkCallV {
        SymlinkCallV { original: self.original@, link: self.link@ }
    }
}

pub open spec fn mount_call_views(v: Seq<MountCall>) -> Seq<MountCallV> {
    Seq::new(v.len(), |i: int| v[i]@)
}

pub open spec fn setattr_call_views(v: Seq<SetattrCall>) -> Seq<SetattrCallV> {
    Seq::new(v.len(), |i: int| v[i]@)
}

pub open spec fn symlink_call_views(v: Seq<SymlinkCall>) -> Seq<SymlinkCallV> {
    Seq::new(v.len(), |i: int| v[i]@)
}

/// How a scripted adapter answers one call: the head of the plan decides
/// and is consumed (`0` answers success, anything else that errno), and an
/// empty plan answers success.
pub open spec fn scripted_answer(pre: Seq<i32>, post: Seq<i32>, r: Result<(), i32>) -> bool {
    if pre.len() == 0 {
        r is Ok && post == pre
    } else {
        post == pre.skip(1) && (if pre[0] == 0 {
            r is Ok
        } else {
            r == Err::<(), i32>(pre[0])
        })
    }
}

/// Capability over the mount syscalls and symlink creation. Errors carry
/// the originating errno. The logs are the observable behaviour: every call
/// appends exactly one record to its own log, in invocation order, and
/// leaves the other logs untouched. A scripted adapter additionally answers
/// each call from its planned results.
pub trait Syscall: Sized {
    /// The `mount` calls issued so far; an adapter that keeps no record
    /// shows an empty log.
    open spec fn mount_log(&self) -> Seq<MountCallV> {
        Seq::<MountCallV>::empty()
    }

    /// The `mount_setattr` calls issued so far.
    open spec fn setattr_log(&self) -> Seq<SetattrCallV> {
        Seq::<SetattrCallV>::empty()
    }

    /// The symlink creations issued so far.
    open spec fn symlink_log(&self) -> Seq<SymlinkCallV> {
        Seq::<SymlinkCallV>::empty()
    }

    /// Whether the adapter's answers are scripted; an adapter that really
    /// performs the calls answers from the machine and is not.
    open spec fn scripted(&self) -> bool {
        false
    }

    /// The planned answers of a scripted adapter.
    open spec fn planned(&self) -> Seq<i32> {
        Seq::<i32>::empty()
    }

    /// Issue `mount(source, target, fstype, flags, data)`.
    fn mount(
        &mut self,
        source: Option<&str>,
        target: &str,
        fstype: Option<&str>,
        flags: u64,
        data: Option<&str>,
    ) -> (r: Result<(), i32>)
        ensures
            final(self).mount_log() == old(self).mount_log().push(
                MountCallV {
                    source: opt_str_view(source),
                    target: target@,
                    fstype: opt_str_view(fstype),
                    flags: flags,
                    data: opt_str_view(data),
                },
            ),
            final(self).setattr_log() == old(self).setattr_log(),
            final(self).symlink_log() == old(self).symlink_log(),
            final(self).scripted() == old(self).scripted(),
            old(self).scripted() ==> scripted_answer(old(self).planned(), final(self).planned(), r),
    ;

    /// Issue `mount_setattr(-1, pathname, flags, attr)`.
    fn mount_setattr(&mut self, pathname: &str, flags: u64, attr: &MountRecAttr) -> (r: Result<
        (),
        i32,
    >)
        ensures
            final(self).setattr_log() == old(self).setattr_log().push(
                SetattrCallV { pathname: pathname@, flags: flags, attr: *attr },
            ),
            final(self).mount_log() == old(self).mount_log(),
            final(self).symlink_log() == old(self).symlink_log(),
            final(self).scripted() == old(self).scripted(),
            old(self).scripted() ==> scripted_answer(old(self).planned(), final(self).planned(), r),
    ;

    /// Create a symbolic link at `link` pointing at `original`.
    fn symlink(&mut self, original: &str, link: &str) -> (r: Result<(), i32>)
        ensures
            final(self).symlink_log() == old(self).symlink_log().push(
                SymlinkCallV { original: original@, link: link@ },
            ),
            final(self).mount_log() == old(self).mount_log(),
            final(self).setattr_log() == old(self).setattr_log(),
            final(self).scripted() == old(self).scripted(),
            old(self).scripted() ==> scripted_answer(old(self).planned(), final(self).planned(), r),
    ;
}

/// The recording test double. It performs nothing: each call is logged and
/// answered from the planned results, or with success once they run out.
pub struct TraceSyscall {
    mounts: Vec<MountCall>,
    setattrs: Vec<SetattrCall>,
    symlinks: Vec<SymlinkCall>,
    plan: Vec<i32>,
}

impl TraceSyscall {
    pub fn new() -> (r: TraceSyscall)
        ensures
            r.mount_log() == Seq::<MountCallV>::empty(),
            r.setattr_log() == Seq::<SetattrCallV>::empty(),
            r.symlink_log() == Seq::<SymlinkCallV>::empty(),
            r.scripted(),
            r.planned() == Seq::<i32>::empty(),
    {
        let r = TraceSyscall {
            mounts: Vec::new(),
            setattrs: Vec::new(),
            symlinks: Vec::new(),
            plan: Vec::new(),
        };
        proof {
            assert(r.mount_log() =~= Seq::<MountCallV>::empty());
            assert(r.setattr_log() =~= Seq::<SetattrCallV>::empty());
            assert(r.symlink_log() =~= Seq::<SymlinkCallV>::empty());
        }
        r
    }

    /// Plan the results of the next calls: each entry answers one call, `0`
    /// with success and any other value as that errno.
    pub fn plan_results(&mut self, results: Vec<i32>)
        ensures
            final(self).mount_log() == old(self).mount_log(),
            final(self).setattr_log() == old(self).setattr_log(),
            final(self).symlink_log() == old(self).symlink_log(),
            final(self).scripted(),
            final(self).planned() == results@,
    {
        self.plan = results;
    }

    /// The recorded `mount` calls, in invocation order.
    pub fn get_mount_args(&self) -> (r: &Vec<MountCall>)
        ensures
            mount_call_views(r@) == self.mount_log(),
    {
        &self.mounts
    }

    /// The recorded `mount_setattr` calls, in invocation order.
    pub fn get_setattr_args(&self) -> (r: &Vec<SetattrCall>)
        ensures
            setattr_call_views(r@) == self.setattr_log(),
    {
        &self.setattrs
    }

    /// The recorded symlink creations, in invocation order.
    pub fn get_symlink_args(&self) -> (r: &Vec<SymlinkCall>)
        ensures
            symlink_call_views(r@) == self.symlink_log(),
    {
        &self.symlinks
    }

    fn answer(&mut self) -> (r: Result<(), i32>)
        ensures
            final(self).mounts == old(self).mounts,
            final(self).setattrs == old(self).setattrs,
            final(self).symlinks == old(self).symlinks,
            scripted_answer(old(self).plan@, final(self).plan@, r),
    {
        if self.plan.len() > 0 {
            let e = self.plan.remove(0);
            proof {
                assert(self.plan@ =~= old(self).plan@.skip(1));
            }
            if e != 0 {
                return Err(e);
            }
            Ok(())
        } else {
            Ok(())
        }
    }
}

fn opt_str_owned(o: Option<&str>) -> (r: Option<String>)
    ensures
        (match r {
            Some(s) => Some(s@),
            None => None,
        }) == opt_str_view(o),
{
    match o {
        Some(s) => Some(s.to_owned()),
        None => None,
    }
}

impl Syscall for TraceSyscall {
    closed spec fn mount_log(&self) -> Seq<MountCallV> {
        mount_call_views(self.mounts@)
    }

    closed spec fn setattr_log(&self) -> Seq<SetattrCallV> {
        setattr_call_views(self.setattrs@)
    }

    closed spec fn symlink_log(&self) -> Seq<SymlinkCallV> {
        symlink_call_views(self.symlinks@)
    }

    closed spec fn scripted(&self) -> bool {
        true
    }

    closed spec fn planned(&self) -> Seq<i32> {
        self.plan@
    }

    fn mount(
        &mut self,
        source: Option<&str>,
        target: &str,
        fstype: Option<&str>,
        flags: u64,
        data: Option<&str>,
    ) -> (r: Result<(), i32>) {
        let rec = MountCall {
            source: opt_str_owned(source),
            target: target.to_owned(),
            fstype: opt_str_owned(fstype),
            flags,
            data: opt_str_owned(data),
        };
        self.mounts.push(rec);
        proof {
            assert(mount_call_views(self.mounts@) =~= mount_call_views(old(self).mounts@).push(
                MountCallV {
                    source: opt_str_view(source),
                    target: target@,
                    fstype: opt_str_view(fstype),
                    flags: flags,
                    data: opt_str_view(data),
                },
            ));
        }
        self.answer()
    }

    fn mount_setattr(&mut self, pathname: &str, flags: u64, attr: &MountRecAttr) -> (r: Result<
        (),
        i32,
    >) {
        let rec = SetattrCall { pathname: pathname.to_owned(), flags, attr: *attr };
        self.setattrs.push(rec);
        proof {
            assert(setattr_call_views(self.setattrs@) =~= setattr_call_views(old(self).setattrs@)
                .push(SetattrCallV { pathname: pathname@, flags: flags, attr: *attr }));
        }
        self.answer()
    }

    fn symlink(&mut self, original: &str, link: &str) -> (r: Result<(), i32>) {
        let rec = SymlinkCall { original: original.to_owned(), link: link.to_owned() };
        self.symlinks.push(rec);
        proof {
            assert(symlink_call_views(self.symlinks@) =~= symlink_call_views(old(self).symlinks@)
                .push(SymlinkCallV { original: original@, link: link@ }));
        }
        self.answer()
    }
}

} // verus!
