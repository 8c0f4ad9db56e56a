//! The mount engine: translates a mount request into mount syscalls inside
//! the container's future root. The contracts pin down the exact call
//! sequence that reaches the syscall adapter.

use vstd::prelude::*;
use crate::flags::{
    MountRecAttr, MS_RDONLY, MS_REMOUNT, MS_NOEXEC, MS_NOSUID, MS_NODEV, MS_BIND, MS_REC,
    MS_PRIVATE, AT_RECURSIVE, BIND_TRANSPARENT_FLAGS,
};
use crate::host::{
    cgroup_setup_of, find_parent_mount, has_shared_field, list_subsystem_mount_points,
    lookup_process_cgroup, path_has_prefix, read_self_cgroups, read_self_mountinfo,
    spec_has_shared, spec_lookup_cgroup, spec_path_has_prefix, spec_unified_path,
    unified_mount_point, unified_process_cgroup, CgroupSetup, MountEntry, ProcessCgroup,
    DEFAULT_CGROUP_ROOT,
};
use crate::options::{
    emulated_option_tokens, lemma_parse_emulated_options, lemma_parse_tmpfs_options, opt_view,
    parse_mount, spec_data, spec_flags, spec_rec_attr, tmpfs_option_tokens,
    MountOptionConfig, MountOptions, MountRequest,
};
use crate::path::{basename, base_name, join_path, spec_join_path};
use crate::strutil::join_chars;
use crate::path::{parent_path, path_under, secure_join, PathError};
use crate::strutil::string_eq;
use crate::sys;
use crate::syscall::{MountCallV, SetattrCallV, SymlinkCallV, Syscall, TraceSyscall};

verus! {

/// `EINVAL`: the one mount errno that is recovered locally, by retrying
/// without the SELinux context in the data.
pub const EINVAL_ERRNO: i32 = 22;

/// `EEXIST`: an already existing directory is no failure when building the
/// destination path.
pub const EEXIST_ERRNO: i32 = 17;

/// Why a mount could not be carried out.
#[derive(Debug)]
pub enum MountError {
    /// The request named no source.
    NoSource,
    /// The secure join followed too many chained symbolic links.
    LinkLoop { destination: String },
    /// The bind source could not be canonicalized.
    Canonicalize { source: String, errno: i32 },
    /// A directory on the destination path could not be created.
    CreateDir { path: String, errno: i32 },
    /// The destination file for a file bind mount could not be created.
    CreateFile { path: String, errno: i32 },
    /// The mount call failed with an errno other than `EINVAL`.
    Mount { destination: String, errno: i32 },
    /// The retry without the SELinux context failed too.
    MountWithoutLabel { destination: String, errno: i32 },
    /// The follow-up remount enforcing per-mount flags failed.
    Remount { destination: String, errno: i32 },
    /// Applying recursive mount attributes failed.
    SetAttr { destination: String, errno: i32 },
    /// The host cgroup setup could not be determined.
    UndeterminedCgroupSetup,
    /// The process has no unified cgroup entry, so the fallback bind mount
    /// for cgroup v2 has no source.
    NoUnifiedCgroup,
    /// A comount compatibility symlink could not be created.
    Symlink { path: String, errno: i32 },
    /// A probe of /proc failed.
    HostProbe { message: String },
    /// No unified cgroup hierarchy is mounted on the host.
    NoUnifiedMount,
    /// No mount table entry is a prefix of the rootfs path.
    NoParentMount { path: String },
}

pub open spec fn opt_ref_view(o: Option<&String>) -> Option<Seq<char>> {
    match o {
        Some(s) => Some(s@),
        None => None,
    }
}

/// The data string actually handed to the mount call: the SELinux context is
/// appended to the parsed data unless the filesystem is proc or sysfs.
pub open spec fn labeled_data(
    data: Seq<char>,
    label: Option<Seq<char>>,
    typ: Option<Seq<char>>,
) -> Seq<char> {
    match label {
        Some(l) => if typ != Some("proc"@) && typ != Some("sysfs"@) {
            if data.len() == 0 {
                "context=\""@ + l + "\""@
            } else {
                data + ",context=\""@ + l + "\""@
            }
        } else {
            data
        },
        None => data,
    }
}

/// The initial mount call of `mount_into_container`.
pub open spec fn primary_call(
    src: Seq<char>,
    dest: Seq<char>,
    typ: Option<Seq<char>>,
    flags: u64,
    data: Seq<char>,
) -> MountCallV {
    MountCallV { source: Some(src), target: dest, fstype: typ, flags: flags, data: Some(data) }
}

/// Whether the per-mount flags of a bind mount exceed what the initial
/// `mount` honours, so that a follow-up remount is owed.
pub open spec fn needs_flag_remount(typ: Option<Seq<char>>, flags: u64) -> bool {
    typ == Some("bind"@) && flags & !BIND_TRANSPARENT_FLAGS != 0
}

/// The follow-up remount call: `mount(dest, dest, null, flags|MS_REMOUNT,
/// null)`.
pub open spec fn remount_call(dest: Seq<char>, flags: u64) -> MountCallV {
    MountCallV {
        source: Some(dest),
        target: dest,
        fstype: None,
        flags: flags | MS_REMOUNT,
        data: None,
    }
}

/// The one call `make_parent_mount_private` may issue: remounting a mount
/// point private, with no source, type or data.
pub open spec fn private_remount_call(target: Seq<char>) -> MountCallV {
    MountCallV {
        source: None,
        target: target,
        fstype: None,
        flags: MS_PRIVATE,
        data: None,
    }
}

/// Shape of a flag-enforcing remount entry, distinguishable from every
/// initial mount call by its null fstype and null data.
pub open spec fn is_flag_remount(c: MountCallV, flags: u64) -> bool {
    c.fstype is None && c.data is None && c.source == Some(c.target) && c.flags == flags
        | MS_REMOUNT
}

/// The calls one successful `mount_into_container` appends for source `src`,
/// destination `dest` and configuration `cfg`: the initial mount (twice when
/// the first answer was `EINVAL` and the data was retried without the
/// label), the flag remount when one is owed, and the recursive attribute
/// call when the request carried attributes.
pub open spec fn into_container_calls(
    mounts: Seq<MountCallV>,
    setattrs: Seq<SetattrCallV>,
    src: Seq<char>,
    dest: Seq<char>,
    typ: Option<Seq<char>>,
    flags: u64,
    data: Seq<char>,
    rec_attr: Option<MountRecAttr>,
    label: Option<Seq<char>>,
) -> bool {
    let d = labeled_data(data, label, typ);
    let first = primary_call(src, dest, typ, flags, d);
    let second = primary_call(src, dest, typ, flags, data);
    let rem: Seq<MountCallV> = if needs_flag_remount(typ, flags) {
        seq![remount_call(dest, flags)]
    } else {
        Seq::empty()
    };
    &&& (mounts == seq![first] + rem || mounts == seq![first, second] + rem)
    &&& setattrs == (match rec_attr {
        Some(a) => seq![SetattrCallV { pathname: dest, flags: AT_RECURSIVE, attr: a }],
        None => Seq::<SetattrCallV>::empty(),
    })
}

/// The mount engine; it owns only its syscall adapter.
pub struct Mount<S: Syscall> {
    pub syscall: S,
}

impl Default for Mount<TraceSyscall> {
    fn default() -> (m: Mount<TraceSyscall>)
        ensures
            m.syscall.mount_log() == Seq::<MountCallV>::empty(),
            m.syscall.setattr_log() == Seq::<SetattrCallV>::empty(),
    {
        Mount::new()
    }
}

impl Mount<TraceSyscall> {
    /// An engine over the recording adapter.
    pub fn new() -> (m: Mount<TraceSyscall>)
        ensures
            m.syscall.mount_log() == Seq::<MountCallV>::empty(),
            m.syscall.setattr_log() == Seq::<SetattrCallV>::empty(),
    {
        Mount { syscall: TraceSyscall::new() }
    }
}

impl<S: Syscall> Mount<S> {
    /// An engine over the given syscall adapter.
    pub fn with_syscall(syscall: S) -> (m: Mount<S>)
        ensures
            m.syscall == syscall,
    {
        Mount { syscall }
    }

    /// The body of `mount_into_container`; it hands back the canonicalized
    /// source and the securely joined destination, which pin down the call
    /// trace exactly.
    fn mount_into_container_core(
        &mut self,
        m: &MountRequest,
        rootfs: &String,
        cfg: &MountOptionConfig,
        label: Option<&String>,
    ) -> (r: Result<(String, String), MountError>)
        ensures
            r matches Ok(sd) ==> ({
                &&& path_under(rootfs@, sd.1@)
                &&& (opt_view(m.typ) != Some("bind"@) ==> Some(sd.0@) == opt_view(m.source))
                &&& into_container_calls(
                    final(self).syscall.mount_log().skip(
                        old(self).syscall.mount_log().len() as int,
                    ),
                    final(self).syscall.setattr_log().skip(
                        old(self).syscall.setattr_log().len() as int,
                    ),
                    sd.0@,
                    sd.1@,
                    opt_view(m.typ),
                    cfg.flags,
                    cfg.data@,
                    cfg.rec_attr,
                    opt_ref_view(label),
                )
            }),
            r is Ok ==> final(self).syscall.mount_log().len() > old(
                self,
            ).syscall.mount_log().len(),
            r is Ok ==> (needs_flag_remount(opt_view(m.typ), cfg.flags) <==> is_flag_remount(
                final(self).syscall.mount_log().last(),
                cfg.flags,
            )),
            old(self).syscall.mount_log() =~= final(self).syscall.mount_log().take(
                old(self).syscall.mount_log().len() as int,
            ),
            old(self).syscall.setattr_log() =~= final(self).syscall.setattr_log().take(
                old(self).syscall.setattr_log().len() as int,
            ),
            final(self).syscall.mount_log().len() <= old(self).syscall.mount_log().len() + 3,
            final(self).syscall.setattr_log().len() <= old(self).syscall.setattr_log().len()
                + 1,
            final(self).syscall.mount_log().len() >= old(self).syscall.mount_log().len(),
            final(self).syscall.setattr_log().len() >= old(self).syscall.setattr_log().len(),
            r matches Err(MountError::NoSource) ==> m.source is None,
            r is Err ==> (r matches Err(MountError::NoSource) || r matches Err(
                MountError::LinkLoop { .. },
            ) || r matches Err(MountError::Canonicalize { .. }) || r matches Err(
                MountError::CreateDir { .. },
            ) || r matches Err(MountError::CreateFile { .. }) || r matches Err(
                MountError::Mount { .. },
            ) || r matches Err(MountError::MountWithoutLabel { .. }) || r matches Err(
                MountError::Remount { .. },
            ) || r matches Err(MountError::SetAttr { .. })),
            (r matches Err(MountError::NoSource) || r matches Err(MountError::LinkLoop { .. })
                || r matches Err(MountError::Canonicalize { .. }) || r matches Err(
                MountError::CreateDir { .. },
            ) || r matches Err(MountError::CreateFile { .. })) ==> final(self).syscall.mount_log()
                == old(self).syscall.mount_log() && final(self).syscall.setattr_log() == old(
                self,
            ).syscall.setattr_log(),
            cfg.rec_attr is None ==> final(self).syscall.setattr_log() == old(self).syscall.setattr_log(),
            final(self).syscall.symlink_log() == old(self).syscall.symlink_log(),
            final(self).syscall.scripted() == old(self).syscall.scripted(),
            (old(self).syscall.scripted() && old(self).syscall.planned().len() == 0) ==> ({
                final(self).syscall.planned().len() == 0
            }),
            m.source is None ==> ({
                &&& !(r is Ok)
                &&& (r matches Err(MountError::NoSource) || r matches Err(MountError::LinkLoop { .. }))
            }),
            r matches Err(MountError::Mount { destination, errno }) ==> ({
                &&& errno != EINVAL_ERRNO
                &&& destination@ == m.destination@
                &&& final(self).syscall.mount_log().len() == old(self).syscall.mount_log().len() + 1
                &&& final(self).syscall.setattr_log() == old(self).syscall.setattr_log()
            }),
            r matches Err(MountError::MountWithoutLabel { .. }) ==> ({
                &&& final(self).syscall.mount_log().len() == old(self).syscall.mount_log().len() + 2
                &&& final(self).syscall.setattr_log() == old(self).syscall.setattr_log()
            }),
            r matches Err(MountError::Remount { .. }) ==> ({
                &&& final(self).syscall.mount_log().len() >= old(self).syscall.mount_log().len() + 2
                &&& final(self).syscall.setattr_log() == old(self).syscall.setattr_log()
            }),
            r matches Err(MountError::SetAttr { .. }) ==> ({
                final(self).syscall.setattr_log().len() == old(self).syscall.setattr_log().len() + 1
            }),
            (old(self).syscall.scripted() && old(self).syscall.planned().len() == 0) ==> ({
                &&& !(r matches Err(MountError::Mount { .. }))
                &&& !(r matches Err(MountError::MountWithoutLabel { .. }))
                &&& !(r matches Err(MountError::Remount { .. }))
                &&& !(r matches Err(MountError::SetAttr { .. }))
            }),
            (old(self).syscall.scripted() && old(self).syscall.planned().len() == 0 && r is Ok) ==> ({
                &&& final(self).syscall.mount_log().len() == old(self).syscall.mount_log().len() + 1
                    + (if needs_flag_remount(opt_view(m.typ), cfg.flags) { 1int } else { 0int })
                &&& final(self).syscall.setattr_log().len() == old(self).syscall.setattr_log().len()
                    + (if cfg.rec_attr is Some { 1int } else { 0int })
            }),
            (old(self).syscall.scripted() && old(self).syscall.planned().len() >= 1 && old(
                self,
            ).syscall.planned()[0] != 0 && old(self).syscall.planned()[0] != EINVAL_ERRNO) ==> ({
                ||| (r matches Err(MountError::Mount { errno, .. }) && errno == old(
                    self,
                ).syscall.planned()[0])
                ||| r matches Err(MountError::NoSource)
                ||| r matches Err(MountError::LinkLoop { .. })
                ||| r matches Err(MountError::Canonicalize { .. })
                ||| r matches Err(MountError::CreateDir { .. })
                ||| r matches Err(MountError::CreateFile { .. })
            }),
            (old(self).syscall.scripted() && old(self).syscall.planned().len() >= 1 && old(
                self,
            ).syscall.planned()[0] == EINVAL_ERRNO) ==> !(r matches Err(MountError::Mount {
                ..
            })),
    {
        let typ_is_bind = match &m.typ {
            Some(t) => string_eq(t, "bind"),
            None => false,
        };
        let keeps_label = match &m.typ {
            Some(t) => !string_eq(t, "proc") && !string_eq(t, "sysfs"),
            None => true,
        };

        let mut d = cfg.data.clone();
        if let Some(l) = label {
            if keeps_label {
                if cfg.data.as_str().unicode_len() == 0 {
                    let mut s = String::new();
                    s.append("context=\"");
                    s.append(l.as_str());
                    s.append("\"");
                    d = s;
                } else {
                    let mut s = cfg.data.clone();
                    s.append(",context=\"");
                    s.append(l.as_str());
                    s.append("\"");
                    d = s;
                }
            }
        }
        proof {
            assert(d@ =~= labeled_data(cfg.data@, opt_ref_view(label), opt_view(m.typ)));
        }

        let dest = match secure_join(rootfs, &m.destination) {
            Ok(p) => p,
            Err(PathError::LinkLoop) => {
                return Err(MountError::LinkLoop { destination: m.destination.clone() });
            },
        };

        let source = match &m.source {
            Some(s) => s,
            None => {
                return Err(MountError::NoSource);
            },
        };

        let src: String = if typ_is_bind {
            let canon = match sys::canonicalize_path(source) {
                Ok(c) => c,
                Err(e) => {
                    return Err(MountError::Canonicalize { source: source.clone(), errno: e });
                },
            };
            if sys::path_is_file(&canon) {
                let parent = parent_path(&dest);
                if let Err(e) = ensure_dir_all(&parent) {
                    return Err(MountError::CreateDir { path: parent, errno: e });
                }
                if let Err(e) = sys::sys_create_file(&dest, 0o644) {
                    return Err(MountError::CreateFile { path: dest.clone(), errno: e });
                }
            } else {
                if let Err(e) = ensure_dir_all(&dest) {
                    return Err(MountError::CreateDir { path: dest.clone(), errno: e });
                }
            }
            canon
        } else {
            if let Err(e) = ensure_dir_all(&dest) {
                return Err(MountError::CreateDir { path: dest.clone(), errno: e });
            }
            source.clone()
        };

        let ghost mounts0 = self.syscall.mount_log();
        let ghost setattrs0 = self.syscall.setattr_log();
        let typ_str: Option<&str> = match &m.typ {
            Some(t) => Some(t.as_str()),
            None => None,
        };

        let first_result = self.syscall.mount(
            Some(src.as_str()),
            dest.as_str(),
            typ_str,
            cfg.flags,
            Some(d.as_str()),
        );
        let ghost two_attempts = match first_result {
            Ok(_) => false,
            Err(_) => true,
        };
        if let Err(e) = first_result {
            if e != EINVAL_ERRNO {
                return Err(MountError::Mount { destination: m.destination.clone(), errno: e });
            }
            if let Err(e2) = self.syscall.mount(
                Some(src.as_str()),
                dest.as_str(),
                typ_str,
                cfg.flags,
                Some(cfg.data.as_str()),
            ) {
                return Err(
                    MountError::MountWithoutLabel { destination: dest.clone(), errno: e2 },
                );
            }
        }

        let needs_remount = typ_is_bind && (cfg.flags & !BIND_TRANSPARENT_FLAGS) != 0;
        if needs_remount {
            if let Err(e) = self.syscall.mount(
                Some(dest.as_str()),
                dest.as_str(),
                None,
                cfg.flags | MS_REMOUNT,
                None,
            ) {
                return Err(MountError::Remount { destination: dest.clone(), errno: e });
            }
        }

        if let Some(attr) = &cfg.rec_attr {
            if let Err(e) = self.syscall.mount_setattr(dest.as_str(), AT_RECURSIVE, attr) {
                return Err(MountError::SetAttr { destination: dest.clone(), errno: e });
            }
        }

        proof {
            let newm = self.syscall.mount_log().skip(mounts0.len() as int);
            let newa = self.syscall.setattr_log().skip(setattrs0.len() as int);
            let typ = opt_view(m.typ);
            let dd = labeled_data(cfg.data@, opt_ref_view(label), typ);
            let first = primary_call(src@, dest@, typ, cfg.flags, dd);
            let second = primary_call(src@, dest@, typ, cfg.flags, cfg.data@);
            let rem: Seq<MountCallV> = if needs_flag_remount(typ, cfg.flags) {
                seq![remount_call(dest@, cfg.flags)]
            } else {
                Seq::<MountCallV>::empty()
            };
            assert(needs_remount == needs_flag_remount(typ, cfg.flags));
            if two_attempts {
                assert(newm =~= seq![first, second] + rem);
            } else {
                assert(newm =~= seq![first] + rem);
            }
            match cfg.rec_attr {
                Some(a) => {
                    assert(newa =~= seq![
                        SetattrCallV { pathname: dest@, flags: AT_RECURSIVE, attr: a },
                    ]);
                },
                None => {
                    assert(newa =~= Seq::<SetattrCallV>::empty());
                },
            }
            assert(into_container_calls(newm, newa, src@, dest@, typ, cfg.flags, cfg.data@, cfg.rec_attr, opt_ref_view(label)));
            assert(self.syscall.mount_log() =~= mounts0 + newm);
            assert(self.syscall.mount_log().take(mounts0.len() as int) =~= mounts0);
            assert(self.syscall.setattr_log().take(setattrs0.len() as int) =~= setattrs0);
        }
        Ok((src, dest))
    }

    /// Mount `source` at `rootfs/destination`, constructing missing targets,
    /// retrying once without the label on `EINVAL`, and applying a
    /// flag-enforcing remount exactly when the request is a bind mount whose
    /// flags exceed what the initial call honours.
    pub fn mount_into_container(
        &mut self,
        m: &MountRequest,
        rootfs: &String,
        cfg: &MountOptionConfig,
        label: Option<&String>,
    ) -> (r: Result<(), MountError>)
        ensures
            r is Ok ==> exists|src: Seq<char>, dest: Seq<char>|
                {
                    &&& path_under(rootfs@, dest)
                    &&& (opt_view(m.typ) != Some("bind"@) ==> Some(src) == opt_view(m.source))
                    &&& #[trigger] into_container_calls(
                        final(self).syscall.mount_log().skip(
                            old(self).syscall.mount_log().len() as int,
                        ),
                        final(self).syscall.setattr_log().skip(
                            old(self).syscall.setattr_log().len() as int,
                        ),
                        src,
                        dest,
                        opt_view(m.typ),
                        cfg.flags,
                        cfg.data@,
                        cfg.rec_attr,
                        opt_ref_view(label),
                    )
                },
            r is Ok ==> final(self).syscall.mount_log().len() > old(
                self,
            ).syscall.mount_log().len(),
            r is Ok ==> (needs_flag_remount(opt_view(m.typ), cfg.flags) <==> is_flag_remount(
                final(self).syscall.mount_log().last(),
                cfg.flags,
            )),
            old(self).syscall.mount_log() =~= final(self).syscall.mount_log().take(
                old(self).syscall.mount_log().len() as int,
            ),
            old(self).syscall.setattr_log() =~= final(self).syscall.setattr_log().take(
                old(self).syscall.setattr_log().len() as int,
            ),
            r matches Err(MountError::NoSource) ==> m.source is None,
            (r matches Err(MountError::NoSource) || r matches Err(MountError::LinkLoop { .. })
                || r matches Err(MountError::Canonicalize { .. }) || r matches Err(
                MountError::CreateDir { .. },
            ) || r matches Err(MountError::CreateFile { .. })) ==> final(self).syscall.mount_log()
                == old(self).syscall.mount_log() && final(self).syscall.setattr_log() == old(
                self,
            ).syscall.setattr_log(),
            cfg.rec_attr is None ==> final(self).syscall.setattr_log() == old(self).syscall.setattr_log(),
            final(self).syscall.symlink_log() == old(self).syscall.symlink_log(),
            final(self).syscall.scripted() == old(self).syscall.scripted(),
            (old(self).syscall.scripted() && old(self).syscall.planned().len() == 0) ==> ({
                final(self).syscall.planned().len() == 0
            }),
            m.source is None ==> ({
                &&& !(r is Ok)
                &&& (r matches Err(MountError::NoSource) || r matches Err(MountError::LinkLoop { .. }))
            }),
            r matches Err(MountError::Mount { destination, errno }) ==> ({
                &&& errno != EINVAL_ERRNO
                &&& destination@ == m.destination@
                &&& final(self).syscall.mount_log().len() == old(self).syscall.mount_log().len() + 1
                &&& final(self).syscall.setattr_log() == old(self).syscall.setattr_log()
            }),
            r matches Err(MountError::MountWithoutLabel { .. }) ==> ({
                &&& final(self).syscall.mount_log().len() == old(self).syscall.mount_log().len() + 2
                &&& final(self).syscall.setattr_log() == old(self).syscall.setattr_log()
            }),
            r matches Err(MountError::Remount { .. }) ==> ({
                &&& final(self).syscall.mount_log().len() >= old(self).syscall.mount_log().len() + 2
                &&& final(self).syscall.setattr_log() == old(self).syscall.setattr_log()
            }),
            r matches Err(MountError::SetAttr { .. }) ==> ({
                final(self).syscall.setattr_log().len() == old(self).syscall.setattr_log().len() + 1
            }),
            (old(self).syscall.scripted() && old(self).syscall.planned().len() == 0) ==> ({
                &&& !(r matches Err(MountError::Mount { .. }))
                &&& !(r matches Err(MountError::MountWithoutLabel { .. }))
                &&& !(r matches Err(MountError::Remount { .. }))
                &&& !(r matches Err(MountError::SetAttr { .. }))
            }),
            (old(self).syscall.scripted() && old(self).syscall.planned().len() == 0 && r is Ok) ==> ({
                &&& final(self).syscall.mount_log().len() == old(self).syscall.mount_log().len() + 1
                    + (if needs_flag_remount(opt_view(m.typ), cfg.flags) { 1int } else { 0int })
                &&& final(self).syscall.setattr_log().len() == old(self).syscall.setattr_log().len()
                    + (if cfg.rec_attr is Some { 1int } else { 0int })
            }),
            (old(self).syscall.scripted() && old(self).syscall.planned().len() >= 1 && old(
                self,
            ).syscall.planned()[0] != 0 && old(self).syscall.planned()[0] != EINVAL_ERRNO) ==> ({
                ||| (r matches Err(MountError::Mount { errno, .. }) && errno == old(
                    self,
                ).syscall.planned()[0])
                ||| r matches Err(MountError::NoSource)
                ||| r matches Err(MountError::LinkLoop { .. })
                ||| r matches Err(MountError::Canonicalize { .. })
                ||| r matches Err(MountError::CreateDir { .. })
                ||| r matches Err(MountError::CreateFile { .. })
            }),
            (old(self).syscall.scripted() && old(self).syscall.planned().len() >= 1 && old(
                self,
            ).syscall.planned()[0] == EINVAL_ERRNO) ==> !(r matches Err(MountError::Mount {
                ..
            })),
    {
        match self.mount_into_container_core(m, rootfs, cfg, label) {
            Ok(sd) => Ok(()),
            Err(e) => Err(e),
        }
    }
}

/// Create the directory `p` and every missing ancestor; a step that fails
/// with `EEXIST` is no failure.
fn ensure_dir_all(p: &String) -> (r: Result<(), i32>) {
    let n = p.as_str().unicode_len();
    let mut i: usize = 0;
    while i < n
        invariant
            i <= n,
            n == p@.len(),
        decreases n - i,
    {
        if p.as_str().get_char(i) == '/' && i > 0 {
            let prefix = p.as_str().substring_char(0, i).to_owned();
            match sys::sys_mkdir(&prefix, 0o755) {
                Ok(()) => (),
                Err(e) => {
                    if e != EEXIST_ERRNO {
                        return Err(e);
                    }
                },
            }
        }
        i = i + 1;
    }
    match sys::sys_mkdir(p, 0o755) {
        Ok(()) => Ok(()),
        Err(e) => {
            if e != EEXIST_ERRNO {
                Err(e)
            } else {
                Ok(())
            }
        },
    }
}

/// Flags every cgroup subsystem mount carries.
pub const CGROUP_SUBSYSTEM_FLAGS: u64 = MS_NOEXEC | MS_NOSUID | MS_NODEV;

/// The data of a subsystem mount: the subsystem name, or `name=<name>` for a
/// named hierarchy.
pub open spec fn subsystem_data(name: Seq<char>, named: bool) -> Seq<char> {
    if named {
        "name="@ + name
    } else {
        name
    }
}

/// The flags a request is mounted with: a mount whose destination is exactly
/// `/dev` loses the read-only bit, so device population can write into it.
pub open spec fn dev_adjusted_flags(flags: u64, destination: Seq<char>) -> u64 {
    if destination == "/dev"@ {
        flags & !MS_RDONLY
    } else {
        flags
    }
}

/// The mount calls one cgroup v1 subsystem contributes: nothing when the
/// host mount has no final component, a namespaced `cgroup` mount under its
/// own namespace, or a recursive bind of the host hierarchy in emulated
/// mode; in emulated mode a subsystem without a process cgroup entry is
/// skipped.
pub open spec fn v1_subsystem_calls(
    t: Seq<MountCallV>,
    root: Seq<char>,
    cgroup_ns: bool,
    pcs: Seq<ProcessCgroup>,
    hm: Seq<char>,
    label: Option<Seq<char>>,
) -> bool {
    let name = basename(hm);
    if name.len() == 0 {
        t.len() == 0
    } else if cgroup_ns {
        let data = subsystem_data(name, name == "systemd"@);
        exists|dest: Seq<char>|
            path_under(root, dest) && #[trigger] into_container_calls(
                t,
                Seq::<SetattrCallV>::empty(),
                "cgroup"@,
                dest,
                Some("cgroup"@),
                CGROUP_SUBSYSTEM_FLAGS,
                data,
                None,
                label,
            )
    } else {
        match spec_lookup_cgroup(pcs, subsystem_data(name, name == "systemd"@)) {
            None => t.len() == 0,
            Some(ppath) => exists|src: Seq<char>, dest: Seq<char>|
                path_under(root, dest) && #[trigger] into_container_calls(
                    t,
                    Seq::<SetattrCallV>::empty(),
                    src,
                    dest,
                    Some("bind"@),
                    MS_BIND | MS_REC,
                    Seq::<char>::empty(),
                    None,
                    label,
                ),
        }
    }
}

/// The mount calls of the cgroup v1 strategy over a list of host subsystem
/// mounts: a concatenation of one contribution per subsystem, in order.
pub open spec fn v1_calls(
    t: Seq<MountCallV>,
    hms: Seq<Seq<char>>,
    root: Seq<char>,
    cgroup_ns: bool,
    pcs: Seq<ProcessCgroup>,
    label: Option<Seq<char>>,
) -> bool
    decreases hms.len(),
{
    if hms.len() == 0 {
        t.len() == 0
    } else {
        exists|k: int|
            0 <= k <= t.len() && #[trigger] v1_subsystem_calls(
                t.take(k),
                root,
                cgroup_ns,
                pcs,
                hms[0],
                label,
            ) && v1_calls(t.skip(k), hms.skip(1), root, cgroup_ns, pcs, label)
    }
}

/// Contributions concatenate: traces of two subsystem lists joined end to
/// end satisfy the joined list.
pub proof fn lemma_v1_calls_append(
    t1: Seq<MountCallV>,
    t2: Seq<MountCallV>,
    h1: Seq<Seq<char>>,
    h2: Seq<Seq<char>>,
    root: Seq<char>,
    cgroup_ns: bool,
    pcs: Seq<ProcessCgroup>,
    label: Option<Seq<char>>,
)
    requires
        v1_calls(t1, h1, root, cgroup_ns, pcs, label),
        v1_calls(t2, h2, root, cgroup_ns, pcs, label),
    ensures
        v1_calls(t1 + t2, h1 + h2, root, cgroup_ns, pcs, label),
    decreases h1.len(),
{
    if h1.len() == 0 {
        assert(t1.len() == 0);
        assert(t1 + t2 =~= t2);
        assert(h1 + h2 =~= h2);
    } else {
        let k = choose|k: int|
            0 <= k <= t1.len() && #[trigger] v1_subsystem_calls(
                t1.take(k),
                root,
                cgroup_ns,
                pcs,
                h1[0],
                label,
            ) && v1_calls(t1.skip(k), h1.skip(1), root, cgroup_ns, pcs, label);
        lemma_v1_calls_append(t1.skip(k), t2, h1.skip(1), h2, root, cgroup_ns, pcs, label);
        assert((t1 + t2).take(k) =~= t1.take(k));
        assert((t1 + t2).skip(k) =~= t1.skip(k) + t2);
        assert((h1 + h2).skip(1) =~= h1.skip(1) + h2);
        assert((h1 + h2)[0] == h1[0]);
        assert(0 <= k <= (t1 + t2).len() && v1_subsystem_calls(
            (t1 + t2).take(k),
            root,
            cgroup_ns,
            pcs,
            (h1 + h2)[0],
            label,
        ) && v1_calls((t1 + t2).skip(k), (h1 + h2).skip(1), root, cgroup_ns, pcs, label));
    }
}

/// The host subsystem mounts that live under the canonical cgroup root, in
/// order.
pub open spec fn cgroup_root_mounts(hms: Seq<Seq<char>>) -> Seq<Seq<char>>
    decreases hms.len(),
{
    if hms.len() == 0 {
        Seq::<Seq<char>>::empty()
    } else {
        let r = cgroup_root_mounts(hms.drop_last());
        if spec_path_has_prefix(hms.last(), "/sys/fs/cgroup"@) {
            r.push(hms.last())
        } else {
            r
        }
    }
}

/// The symlink creations the v1 strategy owes: the comount links of every
/// host mount under the canonical cgroup root whose final component is
/// nonempty, in table order.
pub open spec fn v1_symlink_calls(hms: Seq<Seq<char>>, croot: Seq<char>) -> Seq<SymlinkCallV>
    decreases hms.len(),
{
    if hms.len() == 0 {
        Seq::<SymlinkCallV>::empty()
    } else {
        let r = v1_symlink_calls(hms.drop_last(), croot);
        let hm = hms.last();
        if spec_path_has_prefix(hm, "/sys/fs/cgroup"@) && basename(hm).len() > 0 {
            r + crate::symlink::comount_calls(croot, basename(hm))
        } else {
            r
        }
    }
}

/// How many subsystem mounts the v1 strategy makes when every syscall
/// answers success: one per applicable host mount.
pub open spec fn v1_mount_count(hms: Seq<Seq<char>>, cgroup_ns: bool, pcs: Seq<ProcessCgroup>) -> int
    decreases hms.len(),
{
    if hms.len() == 0 {
        0int
    } else {
        let r = v1_mount_count(hms.drop_last(), cgroup_ns, pcs);
        let hm = hms.last();
        let name = basename(hm);
        if spec_path_has_prefix(hm, "/sys/fs/cgroup"@) && name.len() > 0 && (cgroup_ns
            || spec_lookup_cgroup(pcs, subsystem_data(name, name == "systemd"@)) is Some) {
            r + 1
        } else {
            r
        }
    }
}

/// What a successful cgroup mount appends, for some host state: either the
/// v1 strategy (a tmpfs, the per-subsystem contributions of some host
/// subsystem list, and their comount links) or the v2 strategy (a `cgroup2`
/// mount, or a bind of some unified hierarchy after the primary attempt
/// failed), with the request's own parsed options.
pub open spec fn cgroup_strategy_calls(
    dm: Seq<MountCallV>,
    da: Seq<SetattrCallV>,
    ds: Seq<SymlinkCallV>,
    cdest: Seq<char>,
    opts: Seq<Seq<char>>,
    root: Seq<char>,
    cgroup_ns: bool,
    label: Option<Seq<char>>,
) -> bool {
    ||| (exists|
        t0: Seq<MountCallV>,
        t1: Seq<MountCallV>,
        hms: Seq<Seq<char>>,
        pcs: Seq<ProcessCgroup>,
    |
        #![auto]
        {
            &&& dm == t0 + t1
            &&& da == Seq::<SetattrCallV>::empty()
            &&& ds == v1_symlink_calls(hms, spec_join_path(root, cdest))
            &&& (exists|dest: Seq<char>|
                path_under(root, dest) && #[trigger] into_container_calls(
                    t0,
                    Seq::<SetattrCallV>::empty(),
                    "tmpfs"@,
                    dest,
                    Some("tmpfs"@),
                    CGROUP_SUBSYSTEM_FLAGS,
                    "mode=755"@,
                    None,
                    label,
                ))
            &&& v1_calls(t1, cgroup_root_mounts(hms), root, cgroup_ns, pcs, label)
        })
    ||| (exists|
        t1: Seq<MountCallV>,
        t2: Seq<MountCallV>,
        a1: Seq<SetattrCallV>,
        a2: Seq<SetattrCallV>,
    |
        #![auto]
        {
            &&& dm == t1 + t2
            &&& da == a1 + a2
            &&& ds == Seq::<SymlinkCallV>::empty()
            &&& ((t2.len() == 0 && a1.len() == 0 && exists|dest: Seq<char>|
                path_under(root, dest) && #[trigger] into_container_calls(
                    t1,
                    a2,
                    "cgroup"@,
                    dest,
                    Some("cgroup2"@),
                    spec_flags(opts),
                    join_chars(spec_data(opts), ","@),
                    spec_rec_attr(opts),
                    label,
                )) || (t1.len() <= 3 && a1.len() <= 1 && exists|src: Seq<char>, dest: Seq<char>|
                path_under(root, dest) && #[trigger] into_container_calls(
                    t2,
                    a2,
                    src,
                    dest,
                    Some("bind"@),
                    spec_flags(opts) | MS_BIND,
                    join_chars(spec_data(opts), ","@),
                    spec_rec_attr(opts),
                    label,
                )))
        })
}

proof fn lemma_fs_literals()
    ensures
        "cgroup"@ != "bind"@,
        "tmpfs"@ != "bind"@,
        "cgroup2"@ != "bind"@,
{
    reveal_strlit("cgroup");
    reveal_strlit("bind");
    reveal_strlit("tmpfs");
    reveal_strlit("cgroup2");
    assert("cgroup"@ =~= seq!['c', 'g', 'r', 'o', 'u', 'p']);
    assert("bind"@ =~= seq!['b', 'i', 'n', 'd']);
    assert("tmpfs"@ =~= seq!['t', 'm', 'p', 'f', 's']);
    assert("cgroup2"@ =~= seq!['c', 'g', 'r', 'o', 'u', 'p', '2']);
}

impl<S: Syscall> Mount<S> {
    /// Mount one cgroup v1 subsystem inside the container's own cgroup
    /// namespace: type `cgroup` at `destination/<subsystem>`, with the
    /// subsystem (or `name=<subsystem>`) as data.
    pub fn setup_namespaced_subsystem(
        &mut self,
        cgroup_mount: &MountRequest,
        options: &MountOptions,
        subsystem_name: &String,
        named: bool,
    ) -> (r: Result<(), MountError>)
        ensures
            r is Ok ==> exists|dest: Seq<char>|
                path_under(options.root@, dest) && #[trigger] into_container_calls(
                    final(self).syscall.mount_log().skip(
                        old(self).syscall.mount_log().len() as int,
                    ),
                    final(self).syscall.setattr_log().skip(
                        old(self).syscall.setattr_log().len() as int,
                    ),
                    "cgroup"@,
                    dest,
                    Some("cgroup"@),
                    CGROUP_SUBSYSTEM_FLAGS,
                    subsystem_data(subsystem_name@, named),
                    None,
                    opt_view(options.label),
                ),
            old(self).syscall.mount_log() =~= final(self).syscall.mount_log().take(
                old(self).syscall.mount_log().len() as int,
            ),
            final(self).syscall.mount_log().len() >= old(self).syscall.mount_log().len(),
            final(self).syscall.setattr_log() == old(self).syscall.setattr_log(),
            final(self).syscall.symlink_log() == old(self).syscall.symlink_log(),
            final(self).syscall.scripted() == old(self).syscall.scripted(),
            (old(self).syscall.scripted() && old(self).syscall.planned().len() == 0) ==> ({
                final(self).syscall.planned().len() == 0
            }),
            (old(self).syscall.scripted() && old(self).syscall.planned().len() == 0) ==> ({
                &&& !(r matches Err(MountError::Mount { .. }))
                &&& !(r matches Err(MountError::MountWithoutLabel { .. }))
                &&& !(r matches Err(MountError::Remount { .. }))
                &&& !(r matches Err(MountError::SetAttr { .. }))
            }),
            r is Err ==> (r matches Err(MountError::NoSource) || r matches Err(
                MountError::LinkLoop { .. },
            ) || r matches Err(MountError::Canonicalize { .. }) || r matches Err(
                MountError::CreateDir { .. },
            ) || r matches Err(MountError::CreateFile { .. }) || r matches Err(
                MountError::Mount { .. },
            ) || r matches Err(MountError::MountWithoutLabel { .. }) || r matches Err(
                MountError::Remount { .. },
            ) || r matches Err(MountError::SetAttr { .. })),
            (old(self).syscall.scripted() && old(self).syscall.planned().len() == 0 && r is Ok)
                ==> ({
                final(self).syscall.mount_log().len() == old(self).syscall.mount_log().len() + 1
            }),
    {
        let dest = join_path(&cgroup_mount.destination, subsystem_name);
        let data: String = if named {
            let mut d = String::new();
            d.append("name=");
            d.append(subsystem_name.as_str());
            d
        } else {
            subsystem_name.clone()
        };
        let req = MountRequest {
            destination: dest,
            typ: Some("cgroup".to_owned()),
            source: Some("cgroup".to_owned()),
            options: Vec::new(),
        };
        let cfg = MountOptionConfig {
            flags: CGROUP_SUBSYSTEM_FLAGS,
            data,
            rec_attr: None,
        };
        let labelref: Option<&String> = match &options.label {
            Some(l) => Some(l),
            None => None,
        };
        match self.mount_into_container_core(&req, &options.root, &cfg, labelref) {
            Ok(sd) => {
                proof {
                    lemma_fs_literals();
                    assert(cfg.data@ =~= subsystem_data(subsystem_name@, named));
                    assert(opt_ref_view(labelref) == opt_view(options.label));
                    assert(opt_view(req.typ) == Some("cgroup"@));
                    assert(Some(sd.0@) == opt_view(req.source));
                    assert(sd.0@ == "cgroup"@);
                    assert(into_container_calls(
                        self.syscall.mount_log().skip(old(self).syscall.mount_log().len() as int),
                        self.syscall.setattr_log().skip(
                            old(self).syscall.setattr_log().len() as int,
                        ),
                        "cgroup"@,
                        sd.1@,
                        Some("cgroup"@),
                        CGROUP_SUBSYSTEM_FLAGS,
                        subsystem_data(subsystem_name@, named),
                        None,
                        opt_view(options.label),
                    ));
                    assert(self.syscall.setattr_log() =~= self.syscall.setattr_log().take(
                        old(self).syscall.setattr_log().len() as int,
                    ) + self.syscall.setattr_log().skip(
                        old(self).syscall.setattr_log().len() as int,
                    ));
                    assert(self.syscall.setattr_log() =~= old(self).syscall.setattr_log());
                    assert(!needs_flag_remount(Some("cgroup"@), CGROUP_SUBSYSTEM_FLAGS));
                }
                Ok(())
            },
            Err(e) => Err(e),
        }
    }

    /// Bind the host's hierarchy of one cgroup v1 subsystem into the
    /// container, emulating the subsystem without a cgroup namespace. A
    /// subsystem the process has no cgroup entry for is skipped.
    pub fn setup_emulated_subsystem(
        &mut self,
        cgroup_mount: &MountRequest,
        options: &MountOptions,
        subsystem_name: &String,
        named: bool,
        host_mount: &String,
        process_cgroups: &Vec<ProcessCgroup>,
    ) -> (r: Result<(), MountError>)
        ensures
            r is Ok ==> match spec_lookup_cgroup(
                process_cgroups@,
                subsystem_data(subsystem_name@, named),
            ) {
                None => (final(self).syscall.mount_log() == old(self).syscall.mount_log()
                    && final(self).syscall.setattr_log() == old(self).syscall.setattr_log()),
                Some(ppath) => exists|src: Seq<char>, dest: Seq<char>|
                    path_under(options.root@, dest) && #[trigger] into_container_calls(
                        final(self).syscall.mount_log().skip(
                            old(self).syscall.mount_log().len() as int,
                        ),
                        final(self).syscall.setattr_log().skip(
                            old(self).syscall.setattr_log().len() as int,
                        ),
                        src,
                        dest,
                        Some("bind"@),
                        MS_BIND | MS_REC,
                        Seq::<char>::empty(),
                        None,
                        opt_view(options.label),
                    ),
            },
            old(self).syscall.mount_log() =~= final(self).syscall.mount_log().take(
                old(self).syscall.mount_log().len() as int,
            ),
            final(self).syscall.mount_log().len() >= old(self).syscall.mount_log().len(),
            final(self).syscall.setattr_log() == old(self).syscall.setattr_log(),
            final(self).syscall.symlink_log() == old(self).syscall.symlink_log(),
            final(self).syscall.scripted() == old(self).syscall.scripted(),
            (old(self).syscall.scripted() && old(self).syscall.planned().len() == 0) ==> ({
                final(self).syscall.planned().len() == 0
            }),
            (old(self).syscall.scripted() && old(self).syscall.planned().len() == 0) ==> ({
                &&& !(r matches Err(MountError::Mount { .. }))
                &&& !(r matches Err(MountError::MountWithoutLabel { .. }))
                &&& !(r matches Err(MountError::Remount { .. }))
                &&& !(r matches Err(MountError::SetAttr { .. }))
            }),
            r is Err ==> (r matches Err(MountError::NoSource) || r matches Err(
                MountError::LinkLoop { .. },
            ) || r matches Err(MountError::Canonicalize { .. }) || r matches Err(
                MountError::CreateDir { .. },
            ) || r matches Err(MountError::CreateFile { .. }) || r matches Err(
                MountError::Mount { .. },
            ) || r matches Err(MountError::MountWithoutLabel { .. }) || r matches Err(
                MountError::Remount { .. },
            ) || r matches Err(MountError::SetAttr { .. })),
            spec_lookup_cgroup(process_cgroups@, subsystem_data(subsystem_name@, named)) is None
                ==> r is Ok && final(self).syscall.mount_log() == old(self).syscall.mount_log(),
            (old(self).syscall.scripted() && old(self).syscall.planned().len() == 0 && r is Ok)
                ==> ({
                final(self).syscall.mount_log().len() == old(self).syscall.mount_log().len() + (
                if spec_lookup_cgroup(process_cgroups@, subsystem_data(subsystem_name@, named))
                    is Some {
                    1int
                } else {
                    0int
                })
            }),
    {
        let key: String = if named {
            let mut d = String::new();
            d.append("name=");
            d.append(subsystem_name.as_str());
            d
        } else {
            subsystem_name.clone()
        };
        proof {
            assert(key@ =~= subsystem_data(subsystem_name@, named));
        }
        let looked = lookup_process_cgroup(process_cgroups, &key);
        match looked {
            Some(proc_path) => {
                let mut eopts: Vec<String> = Vec::new();
                eopts.push("rw".to_owned());
                eopts.push("rbind".to_owned());
                let req = MountRequest {
                    destination: join_path(&cgroup_mount.destination, subsystem_name),
                    typ: Some("bind".to_owned()),
                    source: Some(join_path(host_mount, &proc_path)),
                    options: eopts,
                };
                let cfg = parse_mount(&req);
                proof {
                    lemma_parse_emulated_options();
                    assert(req.options.deep_view() =~~= emulated_option_tokens());
                    assert(cfg.flags == MS_BIND | MS_REC);
                    assert(cfg.data@ =~= join_chars(
                        spec_data(emulated_option_tokens()),
                        ","@,
                    ));
                    assert(join_chars(Seq::<Seq<char>>::empty(), ","@) == Seq::<char>::empty());
                    assert(cfg.data@ =~= Seq::<char>::empty());
                }
                let labelref: Option<&String> = match &options.label {
                    Some(l) => Some(l),
                    None => None,
                };
                match self.mount_into_container_core(&req, &options.root, &cfg, labelref) {
                    Ok(sd) => {
                        proof {
                            assert(opt_ref_view(labelref) == opt_view(options.label));
                            assert(opt_view(req.typ) == Some("bind"@));
                            assert(into_container_calls(
                                self.syscall.mount_log().skip(
                                    old(self).syscall.mount_log().len() as int,
                                ),
                                self.syscall.setattr_log().skip(
                                    old(self).syscall.setattr_log().len() as int,
                                ),
                                sd.0@,
                                sd.1@,
                                Some("bind"@),
                                MS_BIND | MS_REC,
                                Seq::<char>::empty(),
                                None,
                                opt_view(options.label),
                            ));
                            assert(self.syscall.setattr_log() =~= self.syscall.setattr_log()
                                .take(old(self).syscall.setattr_log().len() as int)
                                + self.syscall.setattr_log().skip(
                                old(self).syscall.setattr_log().len() as int,
                            ));
                            assert(self.syscall.setattr_log() =~= old(
                                self,
                            ).syscall.setattr_log());
                            assert((MS_BIND | MS_REC) & !BIND_TRANSPARENT_FLAGS == 0u64) by {
                                assert((0x1000u64 | 0x4000u64) & !(0x4000u64 | 0x20u64
                                    | 0x1000u64 | 0x40000u64 | 0x100000u64 | 0x80000u64)
                                    == 0u64) by (bit_vector);
                            }
                            assert(!needs_flag_remount(Some("bind"@), MS_BIND | MS_REC));
                        }
                        Ok(())
                    },
                    Err(e) => Err(e),
                }
            },
            None => Ok(()),
        }
    }

    /// The cgroup v1 strategy: a tmpfs at the destination, one subsystem
    /// mount for each host hierarchy under the canonical cgroup root, and a
    /// compatibility symlink for every comounted controller alias.
    pub fn mount_cgroup_v1(
        &mut self,
        cgroup_mount: &MountRequest,
        options: &MountOptions,
        host_mounts: &Vec<String>,
        process_cgroups: &Vec<ProcessCgroup>,
    ) -> (r: Result<(), MountError>)
        ensures
            r is Ok ==> exists|t0: Seq<MountCallV>, t1: Seq<MountCallV>|
                #![auto]
                {
                    &&& final(self).syscall.mount_log() == old(self).syscall.mount_log() + t0
                        + t1
                    &&& exists|dest: Seq<char>|
                        path_under(options.root@, dest) && #[trigger] into_container_calls(
                            t0,
                            Seq::<SetattrCallV>::empty(),
                            "tmpfs"@,
                            dest,
                            Some("tmpfs"@),
                            CGROUP_SUBSYSTEM_FLAGS,
                            "mode=755"@,
                            None,
                            opt_view(options.label),
                        )
                    &&& v1_calls(
                        t1,
                        cgroup_root_mounts(host_mounts.deep_view()),
                        options.root@,
                        options.cgroup_ns,
                        process_cgroups@,
                        opt_view(options.label),
                    )
                },
            final(self).syscall.setattr_log() == old(self).syscall.setattr_log(),
            r is Ok ==> final(self).syscall.symlink_log() == old(self).syscall.symlink_log()
                + v1_symlink_calls(
                host_mounts.deep_view(),
                spec_join_path(options.root@, cgroup_mount.destination@),
            ),
            old(self).syscall.mount_log() =~= final(self).syscall.mount_log().take(
                old(self).syscall.mount_log().len() as int,
            ),
            final(self).syscall.mount_log().len() >= old(self).syscall.mount_log().len(),
            old(self).syscall.symlink_log() =~= final(self).syscall.symlink_log().take(
                old(self).syscall.symlink_log().len() as int,
            ),
            final(self).syscall.symlink_log().len() >= old(self).syscall.symlink_log().len(),
            final(self).syscall.scripted() == old(self).syscall.scripted(),
            (old(self).syscall.scripted() && old(self).syscall.planned().len() == 0) ==> ({
                final(self).syscall.planned().len() == 0
            }),
            r is Err ==> (r matches Err(MountError::NoSource) || r matches Err(
                MountError::LinkLoop { .. },
            ) || r matches Err(MountError::Canonicalize { .. }) || r matches Err(
                MountError::CreateDir { .. },
            ) || r matches Err(MountError::CreateFile { .. }) || r matches Err(
                MountError::Mount { .. },
            ) || r matches Err(MountError::MountWithoutLabel { .. }) || r matches Err(
                MountError::Remount { .. },
            ) || r matches Err(MountError::SetAttr { .. }) || r matches Err(
                MountError::Symlink { .. },
            )),
            (old(self).syscall.scripted() && old(self).syscall.planned().len() == 0) ==> ({
                &&& !(r matches Err(MountError::Mount { .. }))
                &&& !(r matches Err(MountError::MountWithoutLabel { .. }))
                &&& !(r matches Err(MountError::Remount { .. }))
                &&& !(r matches Err(MountError::SetAttr { .. }))
                &&& !(r matches Err(MountError::Symlink { .. }))
            }),
            (old(self).syscall.scripted() && old(self).syscall.planned().len() == 0 && r is Ok)
                ==> ({
                final(self).syscall.mount_log().len() == old(self).syscall.mount_log().len() + 1
                    + v1_mount_count(
                    host_mounts.deep_view(),
                    options.cgroup_ns,
                    process_cgroups@,
                )
            }),
    {
        let mut topts: Vec<String> = Vec::new();
        topts.push("noexec".to_owned());
        topts.push("nosuid".to_owned());
        topts.push("nodev".to_owned());
        topts.push("mode=755".to_owned());
        let tmpfs = MountRequest {
            destination: cgroup_mount.destination.clone(),
            typ: Some("tmpfs".to_owned()),
            source: Some("tmpfs".to_owned()),
            options: topts,
        };
        let cfg = parse_mount(&tmpfs);
        proof {
            lemma_parse_tmpfs_options();
            assert(tmpfs.options.deep_view() =~~= tmpfs_option_tokens());
            assert(cfg.flags == CGROUP_SUBSYSTEM_FLAGS);
            assert(cfg.data@ =~= join_chars(spec_data(tmpfs_option_tokens()), ","@));
            assert(join_chars(seq!["mode=755"@], ","@) == "mode=755"@);
            assert(cfg.data@ =~= "mode=755"@);
            assert(cfg.rec_attr is None);
        }
        let labelref: Option<&String> = match &options.label {
            Some(l) => Some(l),
            None => None,
        };
        let res0 = self.mount_into_container_core(&tmpfs, &options.root, &cfg, labelref);
        proof {
            lemma_fs_literals();
            assert(opt_ref_view(labelref) == opt_view(options.label));
        }
        let sd0 = match res0 {
            Ok(sd) => sd,
            Err(e) => {
                return Err(e);
            },
        };
        proof {
            if old(self).syscall.scripted() && old(self).syscall.planned().len() == 0 {
                assert(!needs_flag_remount(opt_view(tmpfs.typ), cfg.flags));
                assert(self.syscall.mount_log().len() == old(self).syscall.mount_log().len()
                    + 1);
            }
        }
        let ghost base_m = self.syscall.mount_log();
        let ghost base_a = self.syscall.setattr_log();
        let ghost t0 = base_m.skip(old(self).syscall.mount_log().len() as int);
        proof {
            assert(Some(sd0.0@) == opt_view(tmpfs.source));
            assert(into_container_calls(
                t0,
                base_a.skip(old(self).syscall.setattr_log().len() as int),
                "tmpfs"@,
                sd0.1@,
                Some("tmpfs"@),
                CGROUP_SUBSYSTEM_FLAGS,
                "mode=755"@,
                None,
                opt_view(options.label),
            ));
            assert(base_a.skip(old(self).syscall.setattr_log().len() as int)
                =~= Seq::<SetattrCallV>::empty());
            assert(base_a =~= base_a.take(old(self).syscall.setattr_log().len() as int)
                + base_a.skip(old(self).syscall.setattr_log().len() as int));
            assert(base_a =~= old(self).syscall.setattr_log());
            assert(into_container_calls(
                t0,
                Seq::<SetattrCallV>::empty(),
                "tmpfs"@,
                sd0.1@,
                Some("tmpfs"@),
                CGROUP_SUBSYSTEM_FLAGS,
                "mode=755"@,
                None,
                opt_view(options.label),
            ));
            assert(base_m =~= base_m.take(old(self).syscall.mount_log().len() as int) + t0);
            assert(base_m =~= old(self).syscall.mount_log() + t0);
            assert(!needs_flag_remount(Some("tmpfs"@), CGROUP_SUBSYSTEM_FLAGS));
        }

        let cgroup_root = join_path(&options.root, &cgroup_mount.destination);
        let symlink = crate::symlink::Symlink::new();
        let ghost crootv = spec_join_path(options.root@, cgroup_mount.destination@);

        let ghost mut t_acc = Seq::<MountCallV>::empty();
        let ghost base_s = self.syscall.symlink_log();
        let ghost hmv = host_mounts.deep_view();
        proof {
            assert(base_m + t_acc =~= base_m);
            assert(cgroup_root_mounts(hmv.take(0)) =~= Seq::<Seq<char>>::empty());
            assert(v1_symlink_calls(hmv.take(0), crootv) =~= Seq::<SymlinkCallV>::empty());
            assert(base_s + v1_symlink_calls(hmv.take(0), crootv) =~= base_s);
            assert(base_s =~= old(self).syscall.symlink_log());
            assert(v1_mount_count(hmv.take(0), options.cgroup_ns, process_cgroups@) == 0);
        }
        let mut i: usize = 0;
        while i < host_mounts.len()
            invariant
                i <= host_mounts.len(),
                hmv == host_mounts.deep_view(),
                crootv == spec_join_path(options.root@, cgroup_mount.destination@),
                cgroup_root@ == crootv,
                self.syscall.setattr_log() == base_a,
                self.syscall.mount_log() == base_m + t_acc,
                base_m =~= old(self).syscall.mount_log() + t0,
                base_a == old(self).syscall.setattr_log(),
                base_s == old(self).syscall.symlink_log(),
                self.syscall.symlink_log() == base_s + v1_symlink_calls(
                    hmv.take(i as int),
                    crootv,
                ),
                self.syscall.scripted() == old(self).syscall.scripted(),
                (old(self).syscall.scripted() && old(self).syscall.planned().len() == 0)
                    ==> self.syscall.planned().len() == 0,
                (old(self).syscall.scripted() && old(self).syscall.planned().len() == 0)
                    ==> base_m.len() == old(self).syscall.mount_log().len() + 1,
                (old(self).syscall.scripted() && old(self).syscall.planned().len() == 0)
                    ==> self.syscall.mount_log().len() == base_m.len() + v1_mount_count(
                    hmv.take(i as int),
                    options.cgroup_ns,
                    process_cgroups@,
                ),
                v1_calls(
                    t_acc,
                    cgroup_root_mounts(hmv.take(i as int)),
                    options.root@,
                    options.cgroup_ns,
                    process_cgroups@,
                    opt_view(options.label),
                ),
            decreases host_mounts.len() - i,
        {
            let hm = &host_mounts[i];
            proof {
                assert(hmv.take(i + 1 as int).drop_last() =~= hmv.take(i as int));
                assert(hmv.take(i + 1 as int).last() == hmv[i as int]);
                assert(hmv[i as int] == hm@);
            }
            if path_has_prefix(hm.as_str(), DEFAULT_CGROUP_ROOT) {
                let name = base_name(hm);
                if name.as_str().unicode_len() > 0 {
                    let named = crate::strutil::string_eq(&name, "systemd");
                    let ghost pre = self.syscall.mount_log();
                    let res = if options.cgroup_ns {
                        self.setup_namespaced_subsystem(cgroup_mount, options, &name, named)
                    } else {
                        self.setup_emulated_subsystem(
                            cgroup_mount,
                            options,
                            &name,
                            named,
                            hm,
                            process_cgroups,
                        )
                    };
                    if let Err(e) = res {
                        proof {
                            assert(self.syscall.mount_log().take(
                                old(self).syscall.mount_log().len() as int,
                            ) =~= old(self).syscall.mount_log());
                            assert(self.syscall.symlink_log().take(
                                old(self).syscall.symlink_log().len() as int,
                            ) =~= old(self).syscall.symlink_log());
                        }
                        return Err(e);
                    }
                    let ghost pre_s = self.syscall.symlink_log();
                    if let Err(e) = symlink.setup_comount_symlinks(
                        &mut self.syscall,
                        &cgroup_root,
                        &name,
                    ) {
                        proof {
                            assert(self.syscall.mount_log().take(
                                old(self).syscall.mount_log().len() as int,
                            ) =~= old(self).syscall.mount_log());
                            assert(self.syscall.symlink_log().take(
                                old(self).syscall.symlink_log().len() as int,
                            ) =~= old(self).syscall.symlink_log());
                        }
                        return Err(e);
                    }
                    proof {
                        assert(self.syscall.symlink_log() =~= base_s + v1_symlink_calls(
                            hmv.take(i + 1 as int),
                            crootv,
                        ));
                        let dt = self.syscall.mount_log().skip(pre.len() as int);
                        assert(self.syscall.mount_log() =~= self.syscall.mount_log().take(
                            pre.len() as int,
                        ) + dt);
                        assert(self.syscall.mount_log() =~= pre + dt);
                        assert(v1_subsystem_calls(
                            dt,
                            options.root@,
                            options.cgroup_ns,
                            process_cgroups@,
                            hmv[i as int],
                            opt_view(options.label),
                        )) by {
                            assert(name@ == basename(hmv[i as int]));
                            assert(dt.take(dt.len() as int) =~= dt);
                        }
                        assert(v1_calls(
                            dt,
                            seq![hmv[i as int]],
                            options.root@,
                            options.cgroup_ns,
                            process_cgroups@,
                            opt_view(options.label),
                        )) by {
                            assert(dt.take(dt.len() as int) =~= dt);
                            assert(dt.skip(dt.len() as int) =~= Seq::<MountCallV>::empty());
                            assert(seq![hmv[i as int]].skip(1) =~= Seq::<Seq<char>>::empty());
                            assert(seq![hmv[i as int]][0] == hmv[i as int]);
                            assert(v1_calls(
                                Seq::<MountCallV>::empty(),
                                Seq::<Seq<char>>::empty(),
                                options.root@,
                                options.cgroup_ns,
                                process_cgroups@,
                                opt_view(options.label),
                            ));
                            assert(v1_calls(
                                dt.skip(dt.len() as int),
                                seq![hmv[i as int]].skip(1),
                                options.root@,
                                options.cgroup_ns,
                                process_cgroups@,
                                opt_view(options.label),
                            ));
                            assert(v1_subsystem_calls(
                                dt.take(dt.len() as int),
                                options.root@,
                                options.cgroup_ns,
                                process_cgroups@,
                                seq![hmv[i as int]][0],
                                opt_view(options.label),
                            ));
                        }
                        lemma_v1_calls_append(
                            t_acc,
                            dt,
                            cgroup_root_mounts(hmv.take(i as int)),
                            seq![hmv[i as int]],
                            options.root@,
                            options.cgroup_ns,
                            process_cgroups@,
                            opt_view(options.label),
                        );
                        assert(cgroup_root_mounts(hmv.take(i as int)) + seq![hmv[i as int]] =~=
                            cgroup_root_mounts(hmv.take(i + 1 as int)));
                        t_acc = t_acc + dt;
                        assert(self.syscall.mount_log() =~= base_m + t_acc);
                        if old(self).syscall.scripted() && old(self).syscall.planned().len()
                            == 0 {
                            assert(v1_mount_count(
                                hmv.take(i + 1 as int),
                                options.cgroup_ns,
                                process_cgroups@,
                            ) == v1_mount_count(
                                hmv.take(i as int),
                                options.cgroup_ns,
                                process_cgroups@,
                            ) + (if options.cgroup_ns || spec_lookup_cgroup(
                                process_cgroups@,
                                subsystem_data(name@, name@ == "systemd"@),
                            ) is Some {
                                1int
                            } else {
                                0int
                            }));
                        }
                    }
                } else {
                    proof {
                        assert(basename(hmv[i as int]).len() == 0);
                        assert(v1_subsystem_calls(
                            Seq::<MountCallV>::empty(),
                            options.root@,
                            options.cgroup_ns,
                            process_cgroups@,
                            hmv[i as int],
                            opt_view(options.label),
                        ));
                        assert(v1_calls(
                            Seq::<MountCallV>::empty(),
                            seq![hmv[i as int]],
                            options.root@,
                            options.cgroup_ns,
                            process_cgroups@,
                            opt_view(options.label),
                        )) by {
                            let e = Seq::<MountCallV>::empty();
                            assert(e.take(0) =~= e);
                            assert(e.skip(0) =~= e);
                            assert(seq![hmv[i as int]].skip(1) =~= Seq::<Seq<char>>::empty());
                            assert(seq![hmv[i as int]][0] == hmv[i as int]);
                            assert(v1_calls(
                                e.skip(0),
                                seq![hmv[i as int]].skip(1),
                                options.root@,
                                options.cgroup_ns,
                                process_cgroups@,
                                opt_view(options.label),
                            ));
                            assert(v1_subsystem_calls(
                                e.take(0),
                                options.root@,
                                options.cgroup_ns,
                                process_cgroups@,
                                seq![hmv[i as int]][0],
                                opt_view(options.label),
                            ));
                        }
                        lemma_v1_calls_append(
                            t_acc,
                            Seq::<MountCallV>::empty(),
                            cgroup_root_mounts(hmv.take(i as int)),
                            seq![hmv[i as int]],
                            options.root@,
                            options.cgroup_ns,
                            process_cgroups@,
                            opt_view(options.label),
                        );
                        assert(t_acc + Seq::<MountCallV>::empty() =~= t_acc);
                        assert(cgroup_root_mounts(hmv.take(i as int)) + seq![hmv[i as int]] =~=
                            cgroup_root_mounts(hmv.take(i + 1 as int)));
                        assert(v1_symlink_calls(hmv.take(i + 1 as int), crootv)
                            =~= v1_symlink_calls(hmv.take(i as int), crootv));
                        assert(v1_mount_count(
                            hmv.take(i + 1 as int),
                            options.cgroup_ns,
                            process_cgroups@,
                        ) == v1_mount_count(
                            hmv.take(i as int),
                            options.cgroup_ns,
                            process_cgroups@,
                        ));
                    }
                }
            } else {
                proof {
                    assert(cgroup_root_mounts(hmv.take(i + 1 as int)) =~= cgroup_root_mounts(
                        hmv.take(i as int),
                    ));
                    assert(v1_symlink_calls(hmv.take(i + 1 as int), crootv) =~= v1_symlink_calls(
                        hmv.take(i as int),
                        crootv,
                    ));
                    assert(v1_mount_count(
                        hmv.take(i + 1 as int),
                        options.cgroup_ns,
                        process_cgroups@,
                    ) == v1_mount_count(hmv.take(i as int), options.cgroup_ns, process_cgroups@));
                }
            }
            i = i + 1;
        }
        proof {
            assert(hmv.take(host_mounts.len() as int) =~= hmv);
            assert(self.syscall.mount_log() =~= old(self).syscall.mount_log() + t0 + t_acc);
            assert(self.syscall.symlink_log() =~= old(self).syscall.symlink_log()
                + v1_symlink_calls(hmv, crootv));
            assert(self.syscall.mount_log().take(old(self).syscall.mount_log().len() as int)
                =~= old(self).syscall.mount_log());
            assert(self.syscall.symlink_log().take(
                old(self).syscall.symlink_log().len() as int,
            ) =~= old(self).syscall.symlink_log());
        }
        Ok(())
    }

    /// The cgroup v2 strategy: mount `cgroup2` at the destination; should
    /// that fail, bind the host's unified hierarchy at the process's own v2
    /// cgroup path instead, which requires a unified mount and a v2 entry in
    /// the process's cgroup file.
    pub fn mount_cgroup_v2(
        &mut self,
        cgroup_mount: &MountRequest,
        options: &MountOptions,
        cfg: &MountOptionConfig,
        unified_mount: Option<&String>,
        process_cgroups: &Vec<ProcessCgroup>,
    ) -> (r: Result<(), MountError>)
        ensures
            r is Ok ==> exists|t1: Seq<MountCallV>, t2: Seq<MountCallV>, a1: Seq<SetattrCallV>, a2: Seq<SetattrCallV>|
                #![auto]
                {
                    &&& final(self).syscall.mount_log() == old(self).syscall.mount_log() + t1
                        + t2
                    &&& final(self).syscall.setattr_log() == old(self).syscall.setattr_log()
                        + a1 + a2
                    &&& ((t2.len() == 0 && a1.len() == 0 && exists|dest: Seq<char>|
                        path_under(options.root@, dest) && #[trigger] into_container_calls(
                            t1,
                            a2,
                            "cgroup"@,
                            dest,
                            Some("cgroup2"@),
                            cfg.flags,
                            cfg.data@,
                            cfg.rec_attr,
                            opt_view(options.label),
                        )) || (t1.len() <= 3 && a1.len() <= 1 && exists|
                        src: Seq<char>,
                        dest: Seq<char>,
                    |
                        path_under(options.root@, dest) && #[trigger] into_container_calls(
                            t2,
                            a2,
                            src,
                            dest,
                            Some("bind"@),
                            cfg.flags | MS_BIND,
                            cfg.data@,
                            cfg.rec_attr,
                            opt_view(options.label),
                        )))
                },
            r matches Err(MountError::NoUnifiedCgroup) ==> spec_unified_path(process_cgroups@)
                is None,
            final(self).syscall.symlink_log() == old(self).syscall.symlink_log(),
            old(self).syscall.mount_log() =~= final(self).syscall.mount_log().take(
                old(self).syscall.mount_log().len() as int,
            ),
            final(self).syscall.mount_log().len() >= old(self).syscall.mount_log().len(),
            old(self).syscall.setattr_log() =~= final(self).syscall.setattr_log().take(
                old(self).syscall.setattr_log().len() as int,
            ),
            final(self).syscall.setattr_log().len() >= old(self).syscall.setattr_log().len(),
            cfg.rec_attr is None ==> final(self).syscall.setattr_log() == old(
                self,
            ).syscall.setattr_log(),
            final(self).syscall.scripted() == old(self).syscall.scripted(),
            (old(self).syscall.scripted() && old(self).syscall.planned().len() == 0) ==> ({
                final(self).syscall.planned().len() == 0
            }),
            r is Err ==> (r matches Err(MountError::NoSource) || r matches Err(
                MountError::LinkLoop { .. },
            ) || r matches Err(MountError::Canonicalize { .. }) || r matches Err(
                MountError::CreateDir { .. },
            ) || r matches Err(MountError::CreateFile { .. }) || r matches Err(
                MountError::Mount { .. },
            ) || r matches Err(MountError::MountWithoutLabel { .. }) || r matches Err(
                MountError::Remount { .. },
            ) || r matches Err(MountError::SetAttr { .. }) || r matches Err(
                MountError::NoUnifiedMount,
            ) || r matches Err(MountError::NoUnifiedCgroup)),
            (old(self).syscall.scripted() && old(self).syscall.planned().len() == 0) ==> ({
                &&& !(r matches Err(MountError::Mount { .. }))
                &&& !(r matches Err(MountError::MountWithoutLabel { .. }))
                &&& !(r matches Err(MountError::Remount { .. }))
                &&& !(r matches Err(MountError::SetAttr { .. }))
            }),
    {
        let v2req = MountRequest {
            destination: cgroup_mount.destination.clone(),
            typ: Some("cgroup2".to_owned()),
            source: Some("cgroup".to_owned()),
            options: Vec::new(),
        };
        let labelref: Option<&String> = match &options.label {
            Some(l) => Some(l),
            None => None,
        };
        let res1 = self.mount_into_container_core(&v2req, &options.root, cfg, labelref);
        proof {
            lemma_fs_literals();
            assert(opt_ref_view(labelref) == opt_view(options.label));
        }
        if let Ok(sd) = res1 {
            proof {
                let t1 = self.syscall.mount_log().skip(old(self).syscall.mount_log().len() as int);
                let a2 = self.syscall.setattr_log().skip(
                    old(self).syscall.setattr_log().len() as int,
                );
                assert(self.syscall.mount_log() =~= self.syscall.mount_log().take(
                    old(self).syscall.mount_log().len() as int,
                ) + t1);
                assert(self.syscall.setattr_log() =~= self.syscall.setattr_log().take(
                    old(self).syscall.setattr_log().len() as int,
                ) + a2);
                assert(t1 + Seq::<MountCallV>::empty() =~= t1);
                assert(self.syscall.mount_log() =~= old(self).syscall.mount_log() + t1
                    + Seq::<MountCallV>::empty());
                assert(self.syscall.setattr_log() =~= old(self).syscall.setattr_log()
                    + Seq::<SetattrCallV>::empty() + a2);
                assert(Some(sd.0@) == opt_view(v2req.source));
                assert(into_container_calls(
                    t1,
                    a2,
                    "cgroup"@,
                    sd.1@,
                    Some("cgroup2"@),
                    cfg.flags,
                    cfg.data@,
                    cfg.rec_attr,
                    opt_view(options.label),
                ));
            }
            return Ok(());
        }
        let ghost mid_m = self.syscall.mount_log();
        let ghost mid_a = self.syscall.setattr_log();

        let host_mount = match unified_mount {
            Some(h) => h,
            None => {
                return Err(MountError::NoUnifiedMount);
            },
        };
        let proc_path = match unified_process_cgroup(process_cgroups) {
            Some(p) => p,
            None => {
                return Err(MountError::NoUnifiedCgroup);
            },
        };
        let bindreq = MountRequest {
            destination: cgroup_mount.destination.clone(),
            typ: Some("bind".to_owned()),
            source: Some(join_path(host_mount, &proc_path)),
            options: Vec::new(),
        };
        let cfg2 = MountOptionConfig {
            flags: cfg.flags | MS_BIND,
            data: cfg.data.clone(),
            rec_attr: cfg.rec_attr,
        };
        let res2 = self.mount_into_container_core(&bindreq, &options.root, &cfg2, labelref);
        match res2 {
            Ok(sd) => {
                proof {
                    let t1 = mid_m.skip(old(self).syscall.mount_log().len() as int);
                    let a1 = mid_a.skip(old(self).syscall.setattr_log().len() as int);
                    let t2 = self.syscall.mount_log().skip(mid_m.len() as int);
                    let a2 = self.syscall.setattr_log().skip(mid_a.len() as int);
                    assert(mid_m =~= mid_m.take(old(self).syscall.mount_log().len() as int) + t1);
                    assert(mid_m =~= old(self).syscall.mount_log() + t1);
                    assert(mid_a =~= mid_a.take(old(self).syscall.setattr_log().len() as int)
                        + a1);
                    assert(mid_a =~= old(self).syscall.setattr_log() + a1);
                    assert(self.syscall.mount_log() =~= self.syscall.mount_log().take(
                        mid_m.len() as int,
                    ) + t2);
                    assert(self.syscall.mount_log() =~= old(self).syscall.mount_log() + t1 + t2);
                    assert(self.syscall.setattr_log() =~= self.syscall.setattr_log().take(
                        mid_a.len() as int,
                    ) + a2);
                    assert(self.syscall.setattr_log() =~= old(self).syscall.setattr_log() + a1
                        + a2);
                    assert(into_container_calls(
                        t2,
                        a2,
                        sd.0@,
                        sd.1@,
                        Some("bind"@),
                        cfg.flags | MS_BIND,
                        cfg.data@,
                        cfg.rec_attr,
                        opt_view(options.label),
                    ));
                    assert(self.syscall.mount_log().take(
                        old(self).syscall.mount_log().len() as int,
                    ) =~= old(self).syscall.mount_log());
                    assert(self.syscall.setattr_log().take(
                        old(self).syscall.setattr_log().len() as int,
                    ) =~= old(self).syscall.setattr_log());
                }
                Ok(())
            },
            Err(e) => {
                proof {
                    assert(self.syscall.mount_log().take(
                        old(self).syscall.mount_log().len() as int,
                    ) =~= old(self).syscall.mount_log());
                    assert(self.syscall.setattr_log().take(
                        old(self).syscall.setattr_log().len() as int,
                    ) =~= old(self).syscall.setattr_log());
                }
                Err(e)
            },
        }
    }

    /// Read the mount table and, when the nearest ancestor mount of `rootfs`
    /// is shared, remount it private, so that a later `pivot_root` cannot
    /// fail and bind mounts cannot propagate out. Returns the ancestor entry
    /// when it had to act, so a caller may restore propagation later.
    pub fn make_parent_mount_private(&mut self, rootfs: &String) -> (r: Result<
        Option<MountEntry>,
        MountError,
    >)
        ensures
            r matches Ok(Some(e)) ==> ({
                &&& spec_has_shared(e.opt_fields@)
                &&& final(self).syscall.mount_log() == old(self).syscall.mount_log().push(
                    (MountCallV {
                        source: None,
                        target: e.mount_point@,
                        fstype: None,
                        flags: MS_PRIVATE,
                        data: None,
                    }),
                )
                &&& final(self).syscall.setattr_log() == old(self).syscall.setattr_log()
            }),
            r matches Ok(None) ==> ({
                &&& final(self).syscall.mount_log() == old(self).syscall.mount_log()
                &&& final(self).syscall.setattr_log() == old(self).syscall.setattr_log()
            }),
            final(self).syscall.setattr_log() == old(self).syscall.setattr_log(),
            final(self).syscall.symlink_log() == old(self).syscall.symlink_log(),
            final(self).syscall.scripted() == old(self).syscall.scripted(),
            (old(self).syscall.scripted() && old(self).syscall.planned().len() == 0) ==> ({
                final(self).syscall.planned().len() == 0
            }),
            final(self).syscall.mount_log() == old(self).syscall.mount_log() || exists|
                t: Seq<char>,
            |
                final(self).syscall.mount_log() == old(self).syscall.mount_log().push(
                    #[trigger] private_remount_call(t),
                ),
            (old(self).syscall.scripted() && old(self).syscall.planned().len() == 0) ==> !(r
                matches Err(MountError::Mount { .. })),
            r is Err ==> (r matches Err(MountError::HostProbe { .. }) || r matches Err(
                MountError::NoParentMount { .. },
            ) || r matches Err(MountError::Mount { .. })),
            (r matches Err(MountError::HostProbe { .. }) || r matches Err(
                MountError::NoParentMount { .. },
            )) ==> final(self).syscall.mount_log() == old(self).syscall.mount_log(),
    {
        let entries = match read_self_mountinfo() {
            Ok(v) => v,
            Err(message) => {
                return Err(MountError::HostProbe { message });
            },
        };
        let parent = match find_parent_mount(rootfs, &entries) {
            Some(e) => e,
            None => {
                return Err(MountError::NoParentMount { path: rootfs.clone() });
            },
        };
        if has_shared_field(&parent.opt_fields) {
            let res = self.syscall.mount(
                None,
                parent.mount_point.as_str(),
                None,
                MS_PRIVATE,
                None,
            );
            proof {
                assert(self.syscall.mount_log() == old(self).syscall.mount_log().push(
                    private_remount_call(parent.mount_point@),
                ));
            }
            match res {
                Ok(()) => Ok(Some(parent)),
                Err(e) => Err(
                    MountError::Mount { destination: parent.mount_point.clone(), errno: e },
                ),
            }
        } else {
            Ok(None)
        }
    }

    /// Dispatch one mount request: probe the host and choose a cgroup
    /// strategy for a `cgroup` request, clear the read-only bit for a mount
    /// directly on `/dev`, and hand everything to `mount_into_container`.
    pub fn setup_mount(&mut self, m: &MountRequest, options: &MountOptions) -> (r: Result<
        (),
        MountError,
    >)
        ensures
            (r is Ok && opt_view(m.typ) != Some("cgroup"@)) ==> exists|
                src: Seq<char>,
                dest: Seq<char>,
            |
                {
                    &&& path_under(options.root@, dest)
                    &&& (opt_view(m.typ) != Some("bind"@) ==> Some(src) == opt_view(m.source))
                    &&& #[trigger] into_container_calls(
                        final(self).syscall.mount_log().skip(
                            old(self).syscall.mount_log().len() as int,
                        ),
                        final(self).syscall.setattr_log().skip(
                            old(self).syscall.setattr_log().len() as int,
                        ),
                        src,
                        dest,
                        opt_view(m.typ),
                        dev_adjusted_flags(
                            spec_flags(m.options.deep_view()),
                            m.destination@,
                        ),
                        join_chars(spec_data(m.options.deep_view()), ","@),
                        spec_rec_attr(m.options.deep_view()),
                        opt_view(options.label),
                    )
                },
            r matches Err(MountError::UndeterminedCgroupSetup) ==> opt_view(m.typ) == Some(
                "cgroup"@,
            ),
            (r is Ok && opt_view(m.typ) == Some("cgroup"@)) ==> cgroup_strategy_calls(
                final(self).syscall.mount_log().skip(old(self).syscall.mount_log().len() as int),
                final(self).syscall.setattr_log().skip(
                    old(self).syscall.setattr_log().len() as int,
                ),
                final(self).syscall.symlink_log().skip(
                    old(self).syscall.symlink_log().len() as int,
                ),
                m.destination@,
                m.options.deep_view(),
                options.root@,
                options.cgroup_ns,
                opt_view(options.label),
            ),
            old(self).syscall.mount_log() =~= final(self).syscall.mount_log().take(
                old(self).syscall.mount_log().len() as int,
            ),
            final(self).syscall.mount_log().len() >= old(self).syscall.mount_log().len(),
            old(self).syscall.setattr_log() =~= final(self).syscall.setattr_log().take(
                old(self).syscall.setattr_log().len() as int,
            ),
            final(self).syscall.setattr_log().len() >= old(self).syscall.setattr_log().len(),
            old(self).syscall.symlink_log() =~= final(self).syscall.symlink_log().take(
                old(self).syscall.symlink_log().len() as int,
            ),
            final(self).syscall.symlink_log().len() >= old(self).syscall.symlink_log().len(),
            final(self).syscall.scripted() == old(self).syscall.scripted(),
            (old(self).syscall.scripted() && old(self).syscall.planned().len() == 0) ==> ({
                final(self).syscall.planned().len() == 0
            }),
            (r matches Err(MountError::HostProbe { .. }) || r matches Err(
                MountError::UndeterminedCgroupSetup,
            )) ==> ({
                &&& final(self).syscall.mount_log() == old(self).syscall.mount_log()
                &&& final(self).syscall.setattr_log() == old(self).syscall.setattr_log()
                &&& final(self).syscall.symlink_log() == old(self).syscall.symlink_log()
            }),
    {
        let mut cfg = parse_mount(m);
        let is_cgroup = match &m.typ {
            Some(t) => crate::strutil::string_eq(t, "cgroup"),
            None => false,
        };
        if is_cgroup {
            let entries = match read_self_mountinfo() {
                Ok(v) => v,
                Err(message) => {
                    return Err(MountError::HostProbe { message });
                },
            };
            match cgroup_setup_of(&entries) {
                None => Err(MountError::UndeterminedCgroupSetup),
                Some(CgroupSetup::Legacy) | Some(CgroupSetup::Hybrid) => {
                    let subs = list_subsystem_mount_points(&entries);
                    let pcs = match read_self_cgroups() {
                        Ok(v) => v,
                        Err(message) => {
                            return Err(MountError::HostProbe { message });
                        },
                    };
                    let res = self.mount_cgroup_v1(m, options, &subs, &pcs);
                    proof {
                        if res is Ok {
                            let dm = self.syscall.mount_log().skip(
                                old(self).syscall.mount_log().len() as int,
                            );
                            let da = self.syscall.setattr_log().skip(
                                old(self).syscall.setattr_log().len() as int,
                            );
                            let ds = self.syscall.symlink_log().skip(
                                old(self).syscall.symlink_log().len() as int,
                            );
                            let (t0x, t1x): (Seq<MountCallV>, Seq<MountCallV>) = choose|
                                t0x: Seq<MountCallV>,
                                t1x: Seq<MountCallV>,
                            |
                                #![auto]
                                {
                                    &&& self.syscall.mount_log() == old(
                                        self,
                                    ).syscall.mount_log() + t0x + t1x
                                    &&& exists|dest: Seq<char>|
                                        path_under(options.root@, dest)
                                            && #[trigger] into_container_calls(
                                            t0x,
                                            Seq::<SetattrCallV>::empty(),
                                            "tmpfs"@,
                                            dest,
                                            Some("tmpfs"@),
                                            CGROUP_SUBSYSTEM_FLAGS,
                                            "mode=755"@,
                                            None,
                                            opt_view(options.label),
                                        )
                                    &&& v1_calls(
                                        t1x,
                                        cgroup_root_mounts(subs.deep_view()),
                                        options.root@,
                                        options.cgroup_ns,
                                        pcs@,
                                        opt_view(options.label),
                                    )
                                };
                            assert(dm =~= t0x + t1x);
                            assert(da =~= Seq::<SetattrCallV>::empty());
                            assert(ds =~= v1_symlink_calls(
                                subs.deep_view(),
                                spec_join_path(options.root@, m.destination@),
                            ));
                            assert(cgroup_strategy_calls(
                                dm,
                                da,
                                ds,
                                m.destination@,
                                m.options.deep_view(),
                                options.root@,
                                options.cgroup_ns,
                                opt_view(options.label),
                            ));
                        }
                    }
                    res
                },
                Some(CgroupSetup::Unified) => {
                    let ump = unified_mount_point(&entries);
                    let pcs = match read_self_cgroups() {
                        Ok(v) => v,
                        Err(message) => {
                            return Err(MountError::HostProbe { message });
                        },
                    };
                    let umpref: Option<&String> = match &ump {
                        Some(u) => Some(u),
                        None => None,
                    };
                    let res = self.mount_cgroup_v2(m, options, &cfg, umpref, &pcs);
                    proof {
                        if res is Ok {
                            let dm = self.syscall.mount_log().skip(
                                old(self).syscall.mount_log().len() as int,
                            );
                            let da = self.syscall.setattr_log().skip(
                                old(self).syscall.setattr_log().len() as int,
                            );
                            let ds = self.syscall.symlink_log().skip(
                                old(self).syscall.symlink_log().len() as int,
                            );
                            let (t1x, t2x, a1x, a2x): (
                                Seq<MountCallV>,
                                Seq<MountCallV>,
                                Seq<SetattrCallV>,
                                Seq<SetattrCallV>,
                            ) = choose|
                                t1x: Seq<MountCallV>,
                                t2x: Seq<MountCallV>,
                                a1x: Seq<SetattrCallV>,
                                a2x: Seq<SetattrCallV>,
                            |
                                #![auto]
                                {
                                    &&& self.syscall.mount_log() == old(
                                        self,
                                    ).syscall.mount_log() + t1x + t2x
                                    &&& self.syscall.setattr_log() == old(
                                        self,
                                    ).syscall.setattr_log() + a1x + a2x
                                    &&& ((t2x.len() == 0 && a1x.len() == 0 && exists|
                                        dest: Seq<char>,
                                    |
                                        path_under(options.root@, dest)
                                            && #[trigger] into_container_calls(
                                            t1x,
                                            a2x,
                                            "cgroup"@,
                                            dest,
                                            Some("cgroup2"@),
                                            cfg.flags,
                                            cfg.data@,
                                            cfg.rec_attr,
                                            opt_view(options.label),
                                        )) || (t1x.len() <= 3 && a1x.len() <= 1 && exists|
                                        src: Seq<char>,
                                        dest: Seq<char>,
                                    |
                                        path_under(options.root@, dest)
                                            && #[trigger] into_container_calls(
                                            t2x,
                                            a2x,
                                            src,
                                            dest,
                                            Some("bind"@),
                                            cfg.flags | MS_BIND,
                                            cfg.data@,
                                            cfg.rec_attr,
                                            opt_view(options.label),
                                        )))
                                };
                            assert(dm =~= t1x + t2x);
                            assert(da =~= a1x + a2x);
                            assert(ds =~= Seq::<SymlinkCallV>::empty());
                            assert(cfg.flags == spec_flags(m.options.deep_view()));
                            assert(cfg.data@ == join_chars(
                                spec_data(m.options.deep_view()),
                                ","@,
                            ));
                            assert(cfg.rec_attr == spec_rec_attr(m.options.deep_view()));
                            assert(cgroup_strategy_calls(
                                dm,
                                da,
                                ds,
                                m.destination@,
                                m.options.deep_view(),
                                options.root@,
                                options.cgroup_ns,
                                opt_view(options.label),
                            ));
                        }
                    }
                    res
                },
            }
        } else {
            if crate::strutil::string_eq(&m.destination, "/dev") {
                cfg.flags = cfg.flags & !MS_RDONLY;
            }
            let labelref: Option<&String> = match &options.label {
                Some(l) => Some(l),
                None => None,
            };
            match self.mount_into_container_core(m, &options.root, &cfg, labelref) {
                Ok(sd) => {
                    proof {
                        assert(opt_ref_view(labelref) == opt_view(options.label));
                        assert(cfg.flags == dev_adjusted_flags(
                            spec_flags(m.options.deep_view()),
                            m.destination@,
                        ));
                        assert(into_container_calls(
                            self.syscall.mount_log().skip(
                                old(self).syscall.mount_log().len() as int,
                            ),
                            self.syscall.setattr_log().skip(
                                old(self).syscall.setattr_log().len() as int,
                            ),
                            sd.0@,
                            sd.1@,
                            opt_view(m.typ),
                            dev_adjusted_flags(
                                spec_flags(m.options.deep_view()),
                                m.destination@,
                            ),
                            join_chars(spec_data(m.options.deep_view()), ","@),
                            spec_rec_attr(m.options.deep_view()),
                            opt_view(options.label),
                        ));
                    }
                    Ok(())
                },
                Err(e) => Err(e),
            }
        }
    }
}

} // verus!
