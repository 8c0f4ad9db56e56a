//! The container builder: the create/cleanup state machine. The machine
//! decides; a driver performs each emitted action against the outside world
//! and hands the outcome back. The sequence of emitted actions is the
//! machine's observable behaviour, and the laws about ordering, cleanup and
//! error aggregation are stated over it.

use vstd::prelude::*;
use vstd::string::StringExecFns;
use crate::strutil::{join_chars, join_with};

verus! {

/// Whether a fresh container is created or an existing one joined.
#[derive(Clone, Copy, Debug, PartialEq, Eq, Structural)]
pub enum ContainerType {
    /// The first process of a freshly created container.
    InitContainer,
    /// An additional process joining an already running container.
    TenantContainer,
}

/// The lifecycle status of a container record.
#[derive(Clone, Copy, Debug, PartialEq, Eq, Structural)]
pub enum ContainerStatus {
    Creating,
    Created,
    Running,
    Stopped,
    Paused,
}

/// The persistent record of one container.
#[derive(Clone, Debug)]
pub struct ContainerRecord {
    /// Opaque id, unique within a state root.
    pub id: String,
    pub status: ContainerStatus,
    /// Process id of the init process.
    pub pid: i32,
    /// Effective uid of the creating process.
    pub creator: u32,
    /// Set when the init process created a resctrl subdirectory.
    pub clean_up_intel_rdt_subdirectory: Option<bool>,
    /// Filesystem path of the state directory.
    pub root: String,
}

/// Once a record reaches `Created`, it names a real process.
pub open spec fn record_wf(r: ContainerRecord) -> bool {
    r.status is Created ==> r.pid != 0
}

/// Everything the builder decides from; plain values drawn from the OCI
/// spec and the caller's flags.
#[derive(Clone, Debug)]
pub struct BuilderConfig {
    pub container_type: ContainerType,
    /// Manage cgroups through systemd.
    pub use_systemd: bool,
    pub container_id: String,
    /// The spec carries a linux section.
    pub has_linux: bool,
    /// `linux.cgroupsPath`, when given.
    pub cgroups_path: Option<String>,
    /// The spec carries a process section.
    pub has_process: bool,
    /// `process.oomScoreAdj`, when given.
    pub oom_score_adj: Option<i32>,
    /// The spec declares linux namespaces.
    pub has_namespaces: bool,
    /// The spec carries hooks to run at create-runtime time.
    pub has_create_runtime_hooks: bool,
    /// A rootless container; forces systemd cgroups and the user slice.
    pub rootless: bool,
    /// Where the notify listener is bound.
    pub notify_path: String,
    /// Where to write the init pid, when given.
    pub pid_file: Option<String>,
    /// Effective uid of the runtime process.
    pub creator_uid: u32,
}

pub open spec fn opt_string_view(o: Option<String>) -> Option<Seq<char>> {
    match o {
        Some(s) => Some(s@),
        None => None,
    }
}

/// The cgroups path: the configured one, else the container id, forced into
/// a dedicated user slice for rootless containers.
pub open spec fn spec_cgroups_path(
    configured: Option<Seq<char>>,
    id: Seq<char>,
    rootless: bool,
) -> Seq<char> {
    match configured {
        Some(p) => p,
        None => if rootless {
            ":libcontainer:"@ + id
        } else {
            id
        },
    }
}

/// Compute the cgroups path for a container.
pub fn cgroups_path_for(configured: &Option<String>, id: &String, rootless: bool) -> (r: String)
    ensures
        r@ == spec_cgroups_path(opt_string_view(*configured), id@, rootless),
{
    match configured {
        Some(p) => p.clone(),
        None => {
            if rootless {
                let mut s = ":libcontainer:".to_owned();
                s.append(id.as_str());
                s
            } else {
                id.clone()
            }
        },
    }
}

/// One outside action the driver must perform for the builder.
#[derive(Clone, Debug)]
pub enum BuilderAction {
    /// Construct the cgroup manager.
    CreateCgroupManager { cgroups_path: String, use_systemd: bool, container_id: String },
    /// Run the `createRuntime` hooks.
    RunCreateRuntimeHooks,
    /// Bind the notify listener; it must exist before any namespace entry.
    CreateNotifyListener { path: String },
    /// Write the score to the process's oom score file.
    WriteOomScoreAdj { score: i32 },
    /// Mark the process non-dumpable.
    SetNonDumpable,
    /// Spawn the init process and wait for its readiness.
    SpawnInitProcess,
    /// Write the decimal init pid to the pid file.
    WritePidFile { path: String, pid: i32 },
    /// Persist the updated container record.
    SaveContainerRecord { record: ContainerRecord },
    /// Remove the container's cgroup.
    RemoveCgroup { cgroups_path: String, use_systemd: bool, container_id: String },
    /// Delete the resctrl subdirectory of the container.
    DeleteResctrl { container_id: String },
    /// Ask whether the state directory exists.
    CheckStateDir { root: String },
    /// Remove the state directory recursively.
    DeleteStateDir { root: String },
}

/// The driver's report on one performed action.
#[derive(Clone, Debug)]
pub enum BuilderEvent {
    /// The action succeeded.
    Succeeded,
    /// The action failed; the message describes the cause.
    Failed { message: String },
    /// The init process is up; only in reply to `SpawnInitProcess`.
    InitSpawned { pid: i32, needs_rdt_cleanup: bool },
    /// Whether the state directory exists; only in reply to
    /// `CheckStateDir`.
    StateDirStatus { exists: bool },
}

/// A failed create: the creation error, and the cleanup error when cleaning
/// up failed too.
#[derive(Clone, Debug)]
pub struct CreateFailure {
    pub error: String,
    pub cleanup_error: Option<String>,
}

/// What the driver is told to do next.
#[derive(Clone, Debug)]
pub enum BuilderStep {
    /// Perform this action and report back.
    Perform(BuilderAction),
    /// Creation finished; the container's init pid.
    Complete { pid: i32 },
    /// Creation failed; cleanup, if any was owed, has finished.
    Abort(CreateFailure),
}

/// Where the machine stands: which action it awaits a reply for.
#[derive(Clone, Copy, Debug, PartialEq, Eq, Structural)]
pub enum BuilderPhase {
    AwaitCgroupManager,
    AwaitHooks,
    AwaitNotify,
    AwaitOom,
    AwaitDumpable,
    AwaitSpawn,
    AwaitPidFile,
    AwaitSave,
    AwaitCleanupCgroup,
    AwaitCleanupResctrl,
    AwaitCleanupCheckDir,
    AwaitCleanupRmDir,
    Finished,
}

pub open spec fn phase_index(p: BuilderPhase) -> int {
    match p {
        BuilderPhase::AwaitCgroupManager => 0,
        BuilderPhase::AwaitHooks => 1,
        BuilderPhase::AwaitNotify => 2,
        BuilderPhase::AwaitOom => 3,
        BuilderPhase::AwaitDumpable => 4,
        BuilderPhase::AwaitSpawn => 5,
        BuilderPhase::AwaitPidFile => 6,
        BuilderPhase::AwaitSave => 7,
        BuilderPhase::AwaitCleanupCgroup => 8,
        BuilderPhase::AwaitCleanupResctrl => 9,
        BuilderPhase::AwaitCleanupCheckDir => 10,
        BuilderPhase::AwaitCleanupRmDir => 11,
        BuilderPhase::Finished => 12,
    }
}

pub open spec fn is_oom_action(a: BuilderAction) -> bool {
    a matches BuilderAction::WriteOomScoreAdj { .. }
}

pub open spec fn is_dumpable_action(a: BuilderAction) -> bool {
    a is SetNonDumpable
}

pub open spec fn is_remove_cgroup(a: BuilderAction) -> bool {
    a matches BuilderAction::RemoveCgroup { .. }
}

pub open spec fn is_delete_resctrl(a: BuilderAction) -> bool {
    a matches BuilderAction::DeleteResctrl { .. }
}

pub open spec fn is_delete_state_dir(a: BuilderAction) -> bool {
    a matches BuilderAction::DeleteStateDir { .. }
}

pub open spec fn has_oom(h: Seq<BuilderAction>) -> bool {
    exists|i: int| 0 <= i < h.len() && #[trigger] is_oom_action(h[i])
}

pub open spec fn has_dumpable(h: Seq<BuilderAction>) -> bool {
    exists|i: int| 0 <= i < h.len() && #[trigger] is_dumpable_action(h[i])
}

pub open spec fn has_remove_cgroup(h: Seq<BuilderAction>) -> bool {
    exists|i: int| 0 <= i < h.len() && #[trigger] is_remove_cgroup(h[i])
}

pub open spec fn has_delete_resctrl(h: Seq<BuilderAction>) -> bool {
    exists|i: int| 0 <= i < h.len() && #[trigger] is_delete_resctrl(h[i])
}

pub open spec fn has_delete_state_dir(h: Seq<BuilderAction>) -> bool {
    exists|i: int| 0 <= i < h.len() && #[trigger] is_delete_state_dir(h[i])
}

/// How the five marker predicates move across a push.
pub proof fn lemma_history_push(h: Seq<BuilderAction>, a: BuilderAction)
    ensures
        has_oom(h.push(a)) == (has_oom(h) || is_oom_action(a)),
        has_dumpable(h.push(a)) == (has_dumpable(h) || is_dumpable_action(a)),
        has_remove_cgroup(h.push(a)) == (has_remove_cgroup(h) || is_remove_cgroup(a)),
        has_delete_resctrl(h.push(a)) == (has_delete_resctrl(h) || is_delete_resctrl(a)),
        has_delete_state_dir(h.push(a)) == (has_delete_state_dir(h) || is_delete_state_dir(a)),
{
    let hp = h.push(a);
    assert(hp[h.len() as int] == a);
    assert forall|i: int| 0 <= i < h.len() implies hp[i] == h[i] by {}
    if has_oom(hp) {
        let i = choose|i: int| 0 <= i < hp.len() && #[trigger] is_oom_action(hp[i]);
        if i < h.len() {
            assert(is_oom_action(h[i]));
        }
    }
    if has_dumpable(hp) {
        let i = choose|i: int| 0 <= i < hp.len() && #[trigger] is_dumpable_action(hp[i]);
        if i < h.len() {
            assert(is_dumpable_action(h[i]));
        }
    }
    if has_remove_cgroup(hp) {
        let i = choose|i: int| 0 <= i < hp.len() && #[trigger] is_remove_cgroup(hp[i]);
        if i < h.len() {
            assert(is_remove_cgroup(h[i]));
        }
    }
    if has_delete_resctrl(hp) {
        let i = choose|i: int| 0 <= i < hp.len() && #[trigger] is_delete_resctrl(hp[i]);
        if i < h.len() {
            assert(is_delete_resctrl(h[i]));
        }
    }
    if has_delete_state_dir(hp) {
        let i = choose|i: int| 0 <= i < hp.len() && #[trigger] is_delete_state_dir(hp[i]);
        if i < h.len() {
            assert(is_delete_state_dir(h[i]));
        }
    }
    if has_oom(h) {
        let i = choose|i: int| 0 <= i < h.len() && #[trigger] is_oom_action(h[i]);
        assert(is_oom_action(hp[i]));
    }
    if has_dumpable(h) {
        let i = choose|i: int| 0 <= i < h.len() && #[trigger] is_dumpable_action(h[i]);
        assert(is_dumpable_action(hp[i]));
    }
    if has_remove_cgroup(h) {
        let i = choose|i: int| 0 <= i < h.len() && #[trigger] is_remove_cgroup(h[i]);
        assert(is_remove_cgroup(hp[i]));
    }
    if has_delete_resctrl(h) {
        let i = choose|i: int| 0 <= i < h.len() && #[trigger] is_delete_resctrl(h[i]);
        assert(is_delete_resctrl(hp[i]));
    }
    if has_delete_state_dir(h) {
        let i = choose|i: int| 0 <= i < h.len() && #[trigger] is_delete_state_dir(h[i]);
        assert(is_delete_state_dir(hp[i]));
    }
    if is_oom_action(a) {
        assert(is_oom_action(hp[h.len() as int]));
    }
    if is_dumpable_action(a) {
        assert(is_dumpable_action(hp[h.len() as int]));
    }
    if is_remove_cgroup(a) {
        assert(is_remove_cgroup(hp[h.len() as int]));
    }
    if is_delete_resctrl(a) {
        assert(is_delete_resctrl(hp[h.len() as int]));
    }
    if is_delete_state_dir(a) {
        assert(is_delete_state_dir(hp[h.len() as int]));
    }
}

/// Appending an action keeps the trace laws, as long as it respects what
/// the history already holds.
pub proof fn lemma_trace_wf_push(h: Seq<BuilderAction>, a: BuilderAction)
    requires
        trace_wf(h),
        is_oom_action(a) ==> !has_dumpable(h),
        is_remove_cgroup(a) ==> !has_remove_cgroup(h) && !has_delete_resctrl(h)
            && !has_delete_state_dir(h),
        is_delete_resctrl(a) ==> !has_delete_state_dir(h),
    ensures
        trace_wf(h.push(a)),
{
    let hp = h.push(a);
    let n = h.len() as int;
    assert(hp[n] == a);
    assert forall|i: int| 0 <= i < n implies hp[i] == h[i] by {}
    assert forall|i: int, j: int|
        0 <= i < hp.len() && 0 <= j < hp.len() && is_oom_action(#[trigger] hp[i])
            && is_dumpable_action(#[trigger] hp[j]) implies i < j by {
        if i == n {
            assert(is_oom_action(a));
            if j < n {
                assert(is_dumpable_action(h[j]));
            }
        }
        if j == n && i == n {
            assert(false);
        }
    }
    assert forall|i: int, j: int|
        0 <= i < hp.len() && 0 <= j < hp.len() && is_remove_cgroup(#[trigger] hp[i])
            && is_delete_resctrl(#[trigger] hp[j]) implies i < j by {
        if i == n {
            if j < n {
                assert(is_delete_resctrl(h[j]));
            }
        }
    }
    assert forall|i: int, j: int|
        0 <= i < hp.len() && 0 <= j < hp.len() && is_remove_cgroup(#[trigger] hp[i])
            && is_delete_state_dir(#[trigger] hp[j]) implies i < j by {
        if i == n {
            if j < n {
                assert(is_delete_state_dir(h[j]));
            }
        }
    }
    assert forall|i: int, j: int|
        0 <= i < hp.len() && 0 <= j < hp.len() && is_delete_resctrl(#[trigger] hp[i])
            && is_delete_state_dir(#[trigger] hp[j]) implies i < j by {
        if i == n {
            if j < n {
                assert(is_delete_state_dir(h[j]));
            }
        }
    }
    assert forall|i: int, j: int|
        0 <= i < hp.len() && 0 <= j < hp.len() && is_remove_cgroup(#[trigger] hp[i])
            && is_remove_cgroup(#[trigger] hp[j]) implies i == j by {
        if i == n && j < n {
            assert(is_remove_cgroup(h[j]));
        }
        if j == n && i < n {
            assert(is_remove_cgroup(h[i]));
        }
    }
}

/// The ordering laws over an action history: the oom score is written
/// before the process turns non-dumpable, the cleanup actions keep their
/// fixed order, and the cgroup is removed at most once.
pub open spec fn trace_wf(h: Seq<BuilderAction>) -> bool {
    &&& (forall|i: int, j: int|
        0 <= i < h.len() && 0 <= j < h.len() && is_oom_action(#[trigger] h[i])
            && is_dumpable_action(#[trigger] h[j]) ==> i < j)
    &&& (forall|i: int, j: int|
        0 <= i < h.len() && 0 <= j < h.len() && is_remove_cgroup(#[trigger] h[i])
            && is_delete_resctrl(#[trigger] h[j]) ==> i < j)
    &&& (forall|i: int, j: int|
        0 <= i < h.len() && 0 <= j < h.len() && is_remove_cgroup(#[trigger] h[i])
            && is_delete_state_dir(#[trigger] h[j]) ==> i < j)
    &&& (forall|i: int, j: int|
        0 <= i < h.len() && 0 <= j < h.len() && is_delete_resctrl(#[trigger] h[i])
            && is_delete_state_dir(#[trigger] h[j]) ==> i < j)
    &&& (forall|i: int, j: int|
        0 <= i < h.len() && 0 <= j < h.len() && is_remove_cgroup(#[trigger] h[i])
            && is_remove_cgroup(#[trigger] h[j]) ==> i == j)
}

pub open spec fn hooks_applicable(c: BuilderConfig) -> bool {
    c.container_type is InitContainer && c.has_create_runtime_hooks
}

pub open spec fn rdt_applicable(record: Option<ContainerRecord>) -> bool {
    match record {
        Some(r) => r.clean_up_intel_rdt_subdirectory == Some(true),
        None => false,
    }
}

/// The builder state machine.
pub struct ContainerBuilder {
    pub config: BuilderConfig,
    pub record: Option<ContainerRecord>,
    pub phase: BuilderPhase,
    pub init_pid: i32,
    pub needs_rdt_cleanup: bool,
    pub run_error: Option<String>,
    pub cleanup_errors: Vec<String>,
    pub history: Ghost<Seq<BuilderAction>>,
}

impl ContainerBuilder {
    /// The machine invariant: the emitted history obeys the trace laws, an
    /// action is never emitted before its phase, cleanup happens only for a
    /// failed init container, and each awaited phase is applicable.
    pub open spec fn inv(self) -> bool {
        let h = self.history@;
        &&& trace_wf(h)
        &&& (has_oom(h) ==> phase_index(self.phase) >= 3)
        &&& (has_dumpable(h) ==> phase_index(self.phase) >= 4)
        &&& (has_remove_cgroup(h) ==> phase_index(self.phase) >= 8)
        &&& (has_delete_resctrl(h) ==> phase_index(self.phase) >= 9)
        &&& (has_delete_state_dir(h) ==> phase_index(self.phase) >= 11)
        &&& (self.config.container_type is TenantContainer ==> !has_remove_cgroup(h))
        &&& (self.run_error is None ==> !has_remove_cgroup(h))
        &&& (8 <= phase_index(self.phase) < 12 ==> self.run_error is Some
            && self.config.container_type is InitContainer && self.config.has_linux
            && has_remove_cgroup(h))
        &&& (self.phase is Finished && self.run_error is Some
            && self.config.container_type is InitContainer && self.config.has_linux
            ==> has_remove_cgroup(h))
        &&& (phase_index(self.phase) < 8 ==> self.run_error is None)
        &&& (self.phase is AwaitHooks ==> hooks_applicable(self.config))
        &&& (self.phase is AwaitOom ==> self.config.oom_score_adj is Some)
        &&& (self.phase is AwaitDumpable ==> self.config.has_namespaces)
        &&& (self.phase is AwaitPidFile ==> self.config.pid_file is Some)
        &&& (self.phase is AwaitSave ==> self.record is Some)
        &&& (self.phase is AwaitCleanupResctrl ==> rdt_applicable(self.record))
        &&& (self.phase is AwaitCleanupCheckDir ==> self.record is Some)
        &&& (self.phase is AwaitCleanupRmDir ==> self.record is Some)
        &&& (self.phase is AwaitPidFile || self.phase is AwaitSave ==> self.init_pid > 0)
        &&& (match self.record {
            Some(r) => record_wf(r),
            None => true,
        })
        &&& (phase_index(self.phase) < 8 ==> self.cleanup_errors@.len() == 0)
    }

    /// Which events a phase accepts.
    pub open spec fn expects(self, ev: BuilderEvent) -> bool {
        match self.phase {
            BuilderPhase::AwaitSpawn => (ev matches BuilderEvent::InitSpawned { pid, .. } && pid
                > 0) || ev matches BuilderEvent::Failed { .. },
            BuilderPhase::AwaitCleanupCheckDir => ev matches BuilderEvent::StateDirStatus { .. },
            BuilderPhase::Finished => false,
            _ => ev is Succeeded || ev matches BuilderEvent::Failed { .. },
        }
    }
}

/// The actions a directive emits: one for `Perform`, none otherwise.
pub open spec fn directive_actions(d: BuilderStep) -> Seq<BuilderAction> {
    match d {
        BuilderStep::Perform(a) => seq![a],
        _ => Seq::<BuilderAction>::empty(),
    }
}

/// The run phase that follows once every step before `from` is done or
/// inapplicable; `Finished` when nothing is left.
pub open spec fn next_run_phase(c: BuilderConfig, has_record: bool, from: int) -> BuilderPhase {
    if from <= 1 && hooks_applicable(c) {
        BuilderPhase::AwaitHooks
    } else if from <= 2 {
        BuilderPhase::AwaitNotify
    } else if from <= 3 && c.oom_score_adj is Some {
        BuilderPhase::AwaitOom
    } else if from <= 4 && c.has_namespaces {
        BuilderPhase::AwaitDumpable
    } else if from <= 5 {
        BuilderPhase::AwaitSpawn
    } else if from <= 6 && c.pid_file is Some {
        BuilderPhase::AwaitPidFile
    } else if from <= 7 && has_record {
        BuilderPhase::AwaitSave
    } else {
        BuilderPhase::Finished
    }
}

/// The cleanup phase that follows from `from` on.
pub open spec fn next_cleanup_phase(record: Option<ContainerRecord>, from: int) -> BuilderPhase {
    if from <= 9 && rdt_applicable(record) {
        BuilderPhase::AwaitCleanupResctrl
    } else if from <= 10 && record is Some {
        BuilderPhase::AwaitCleanupCheckDir
    } else {
        BuilderPhase::Finished
    }
}

/// The action the machine owes while awaiting the given phase.
pub open spec fn action_matches_phase(a: BuilderAction, m: ContainerBuilder) -> bool {
    match m.phase {
        BuilderPhase::AwaitCgroupManager => a matches BuilderAction::CreateCgroupManager {
            cgroups_path,
            use_systemd,
            container_id,
        } && cgroups_path@ == spec_cgroups_path(
            opt_string_view(m.config.cgroups_path),
            m.config.container_id@,
            m.config.rootless,
        ) && use_systemd == (m.config.use_systemd || m.config.rootless) && container_id@
            == m.config.container_id@,
        BuilderPhase::AwaitHooks => a is RunCreateRuntimeHooks,
        BuilderPhase::AwaitNotify => a matches BuilderAction::CreateNotifyListener { path }
            && path@ == m.config.notify_path@,
        BuilderPhase::AwaitOom => a matches BuilderAction::WriteOomScoreAdj { score } && Some(
            score,
        ) == m.config.oom_score_adj,
        BuilderPhase::AwaitDumpable => a is SetNonDumpable,
        BuilderPhase::AwaitSpawn => a is SpawnInitProcess,
        BuilderPhase::AwaitPidFile => a matches BuilderAction::WritePidFile { path, pid } && Some(
            path@,
        ) == opt_string_view(m.config.pid_file) && pid == m.init_pid,
        BuilderPhase::AwaitSave => a matches BuilderAction::SaveContainerRecord { record }
            && (match m.record {
            Some(r) => record.id@ == r.id@ && record.root@ == r.root@,
            None => false,
        }) && record.status is Created && record.pid == m.init_pid && record.creator
            == m.config.creator_uid && record.clean_up_intel_rdt_subdirectory == Some(
            m.needs_rdt_cleanup,
        ),
        BuilderPhase::AwaitCleanupCgroup => a matches BuilderAction::RemoveCgroup {
            cgroups_path,
            use_systemd,
            container_id,
        } && cgroups_path@ == spec_cgroups_path(
            opt_string_view(m.config.cgroups_path),
            m.config.container_id@,
            m.config.rootless,
        ) && use_systemd == (m.config.use_systemd || m.config.rootless) && container_id@
            == m.config.container_id@,
        BuilderPhase::AwaitCleanupResctrl => a matches BuilderAction::DeleteResctrl {
            container_id,
        } && container_id@ == m.config.container_id@,
        BuilderPhase::AwaitCleanupCheckDir => a matches BuilderAction::CheckStateDir { root }
            && (match m.record {
            Some(r) => root@ == r.root@,
            None => false,
        }),
        BuilderPhase::AwaitCleanupRmDir => a matches BuilderAction::DeleteStateDir { root }
            && (match m.record {
            Some(r) => root@ == r.root@,
            None => false,
        }),
        BuilderPhase::Finished => false,
    }
}

/// The cleanup error message a failed cleanup step contributes; the driver's
/// own message stays with the driver, as the record keeps the step's name.
pub open spec fn cleanup_step_message(p: BuilderPhase, m: ContainerBuilder) -> Seq<char> {
    match p {
        BuilderPhase::AwaitCleanupCgroup => "failed to remove cgroup"@,
        BuilderPhase::AwaitCleanupResctrl => "failed to delete resctrl subdirectory: \""@
            + m.config.container_id@ + "\""@,
        BuilderPhase::AwaitCleanupRmDir => "could not delete \""@ + (match m.record {
            Some(r) => r.root@,
            None => Seq::<char>::empty(),
        }) + "\""@,
        _ => Seq::<char>::empty(),
    }
}

/// What a finished failure hands out: the creation error, and the
/// aggregated cleanup error exactly when cleanup steps failed.
pub open spec fn abort_ok(m: ContainerBuilder, f: CreateFailure) -> bool {
    &&& (match m.run_error {
        Some(e) => f.error@ == e@,
        None => false,
    })
    &&& (m.config.container_type is TenantContainer ==> f.cleanup_error is None)
    &&& (m.config.container_type is InitContainer && !m.config.has_linux ==> (
    match f.cleanup_error {
        Some(c) => c@ == "no linux in spec"@,
        None => false,
    }))
    &&& (m.config.container_type is InitContainer && m.config.has_linux
        && m.cleanup_errors@.len() == 0 ==> f.cleanup_error is None)
    &&& (m.config.container_type is InitContainer && m.config.has_linux
        && m.cleanup_errors@.len() > 0 ==> (match f.cleanup_error {
        Some(c) => c@ == "failed to cleanup container: "@ + join_chars(
            m.cleanup_errors.deep_view(),
            ";"@,
        ),
        None => false,
    }))
}

/// One failure transition out of a run phase: the creation error is fixed,
/// a tenant aborts without cleanup, an init container without a linux
/// section aborts with the cleanup refusal, and otherwise cleanup starts
/// with the cgroup removal.
pub open spec fn failure_transition(
    pre: ContainerBuilder,
    post: ContainerBuilder,
    d: BuilderStep,
    cause: Seq<char>,
) -> bool {
    &&& (match post.run_error {
        Some(e) => e@ == "failed to create container: "@ + cause,
        None => false,
    })
    &&& (pre.config.container_type is TenantContainer ==> post.phase is Finished && (
    match d {
        BuilderStep::Abort(f) => abort_ok(post, f),
        _ => false,
    }))
    &&& (pre.config.container_type is InitContainer && !pre.config.has_linux ==> post.phase
        is Finished && (match d {
        BuilderStep::Abort(f) => abort_ok(post, f),
        _ => false,
    }))
    &&& (pre.config.container_type is InitContainer && pre.config.has_linux ==> post.phase
        is AwaitCleanupCgroup && (match d {
        BuilderStep::Perform(a) => action_matches_phase(a, post),
        _ => false,
    }))
}

/// One successful advance through the run phases, starting the search for
/// the next applicable step at `from`.
pub open spec fn run_advance(
    pre: ContainerBuilder,
    post: ContainerBuilder,
    d: BuilderStep,
    from: int,
) -> bool {
    let p = next_run_phase(pre.config, pre.record is Some, from);
    &&& post.phase == p
    &&& post.run_error is None
    &&& (p is Finished ==> (match d {
        BuilderStep::Complete { pid } => pid == post.init_pid,
        _ => false,
    }))
    &&& (!(p is Finished) ==> (match d {
        BuilderStep::Perform(a) => action_matches_phase(a, post),
        _ => false,
    }))
}

/// One advance through the cleanup phases, starting at `from`.
pub open spec fn cleanup_advance(
    pre: ContainerBuilder,
    post: ContainerBuilder,
    d: BuilderStep,
    from: int,
) -> bool {
    let p = next_cleanup_phase(pre.record, from);
    &&& post.phase == p
    &&& (p is Finished ==> (match d {
        BuilderStep::Abort(f) => abort_ok(post, f),
        _ => false,
    }))
    &&& (!(p is Finished) ==> (match d {
        BuilderStep::Perform(a) => action_matches_phase(a, post),
        _ => false,
    }))
}

impl ContainerBuilder {
    /// Begin a create: validate the spec's linux section and hand out the
    /// first action, the cgroup manager construction.
    pub fn start(config: BuilderConfig, record: Option<ContainerRecord>) -> (r: (
        ContainerBuilder,
        BuilderStep,
    ))
        requires
            (record matches Some(rec) ==> record_wf(rec)),
        ensures
            r.0.inv(),
            r.0.config == config,
            r.0.record == record,
            r.0.init_pid == 0,
            r.0.history@ == directive_actions(r.1),
            !config.has_linux ==> r.0.phase is Finished && (match r.1 {
                BuilderStep::Abort(f) => abort_ok(r.0, f) && (match r.0.run_error {
                    Some(e) => e@ == "failed to create container: "@ + "no linux in spec"@,
                    None => false,
                }),
                _ => false,
            }),
            config.has_linux ==> r.0.phase is AwaitCgroupManager && r.0.run_error is None && (
            match r.1 {
                BuilderStep::Perform(a) => action_matches_phase(a, r.0),
                _ => false,
            }),
    {
        let mut m = ContainerBuilder {
            config,
            record,
            phase: BuilderPhase::AwaitCgroupManager,
            init_pid: 0,
            needs_rdt_cleanup: false,
            run_error: None,
            cleanup_errors: Vec::new(),
            history: Ghost(Seq::empty()),
        };
        if !m.config.has_linux {
            let mut e = "failed to create container: ".to_owned();
            e.append("no linux in spec");
            m.run_error = Some(e.clone());
            m.phase = BuilderPhase::Finished;
            let cleanup_error: Option<String> = match m.config.container_type {
                ContainerType::InitContainer => Some("no linux in spec".to_owned()),
                ContainerType::TenantContainer => None,
            };
            let d = BuilderStep::Abort(CreateFailure { error: e, cleanup_error });
            return (m, d);
        }
        let path = cgroups_path_for(&m.config.cgroups_path, &m.config.container_id, m.config.rootless);
        let a = BuilderAction::CreateCgroupManager {
            cgroups_path: path,
            use_systemd: m.config.use_systemd || m.config.rootless,
            container_id: m.config.container_id.clone(),
        };
        proof {
            let h0 = m.history@;
            m.history@ = h0.push(a);
            assert(h0.push(a) =~= h0 + seq![a]);
            assert(m.history@ =~= seq![a]);
        }
        let d = BuilderStep::Perform(a);
        (m, d)
    }
}

impl ContainerBuilder {
    /// Emit the next applicable run action at or after step `from`, or
    /// complete the creation.
    fn advance_run(&mut self, from: u8) -> (d: BuilderStep)
        requires
            old(self).inv(),
            old(self).run_error is None,
            1 <= from <= 8,
            phase_index(old(self).phase) < from as int,
            from >= 6 ==> old(self).init_pid > 0,
        ensures
            final(self).inv(),
            final(self).config == old(self).config,
            final(self).init_pid == old(self).init_pid,
            final(self).needs_rdt_cleanup == old(self).needs_rdt_cleanup,
            final(self).run_error == old(self).run_error,
            final(self).cleanup_errors == old(self).cleanup_errors,
            final(self).history@ == old(self).history@ + directive_actions(d),
            phase_index(final(self).phase) > phase_index(old(self).phase),
            run_advance(*old(self), *final(self), d, from as int),
            (final(self).record is Some) == (old(self).record is Some),
            (match (old(self).record, final(self).record) {
                (Some(a), Some(b)) => a.id@ == b.id@ && a.root@ == b.root@,
                (None, None) => true,
                _ => false,
            }),
    {
        let ghost h0 = self.history@;
        if from <= 1 && (match self.config.container_type {
            ContainerType::InitContainer => true,
            ContainerType::TenantContainer => false,
        }) && self.config.has_create_runtime_hooks {
            let a = BuilderAction::RunCreateRuntimeHooks;
            self.phase = BuilderPhase::AwaitHooks;
            proof {
                lemma_history_push(h0, a);
                lemma_trace_wf_push(h0, a);
                self.history@ = h0.push(a);
                assert(h0.push(a) =~= h0 + seq![a]);
            }
            BuilderStep::Perform(a)
        } else if from <= 2 {
            let a = BuilderAction::CreateNotifyListener { path: self.config.notify_path.clone() };
            self.phase = BuilderPhase::AwaitNotify;
            proof {
                lemma_history_push(h0, a);
                lemma_trace_wf_push(h0, a);
                self.history@ = h0.push(a);
                assert(h0.push(a) =~= h0 + seq![a]);
            }
            BuilderStep::Perform(a)
        } else if from <= 3 && (match self.config.oom_score_adj {
            Some(_) => true,
            None => false,
        }) {
            let score = match self.config.oom_score_adj {
                Some(v) => v,
                None => 0,
            };
            let a = BuilderAction::WriteOomScoreAdj { score };
            self.phase = BuilderPhase::AwaitOom;
            proof {
                lemma_history_push(h0, a);
                lemma_trace_wf_push(h0, a);
                self.history@ = h0.push(a);
                assert(h0.push(a) =~= h0 + seq![a]);
            }
            BuilderStep::Perform(a)
        } else if from <= 4 && self.config.has_namespaces {
            let a = BuilderAction::SetNonDumpable;
            self.phase = BuilderPhase::AwaitDumpable;
            proof {
                lemma_history_push(h0, a);
                lemma_trace_wf_push(h0, a);
                self.history@ = h0.push(a);
                assert(h0.push(a) =~= h0 + seq![a]);
            }
            BuilderStep::Perform(a)
        } else if from <= 5 {
            let a = BuilderAction::SpawnInitProcess;
            self.phase = BuilderPhase::AwaitSpawn;
            proof {
                lemma_history_push(h0, a);
                lemma_trace_wf_push(h0, a);
                self.history@ = h0.push(a);
                assert(h0.push(a) =~= h0 + seq![a]);
            }
            BuilderStep::Perform(a)
        } else if from <= 6 && (match self.config.pid_file {
            Some(_) => true,
            None => false,
        }) {
            let path = match &self.config.pid_file {
                Some(p) => p.clone(),
                None => String::new(),
            };
            let a = BuilderAction::WritePidFile { path, pid: self.init_pid };
            self.phase = BuilderPhase::AwaitPidFile;
            proof {
                lemma_history_push(h0, a);
                lemma_trace_wf_push(h0, a);
                self.history@ = h0.push(a);
                assert(h0.push(a) =~= h0 + seq![a]);
            }
            BuilderStep::Perform(a)
        } else if from <= 7 && (match self.record {
            Some(_) => true,
            None => false,
        }) {
            let (id, root) = match &self.record {
                Some(r) => (r.id.clone(), r.root.clone()),
                None => (String::new(), String::new()),
            };
            let updated = ContainerRecord {
                id: id.clone(),
                status: ContainerStatus::Created,
                pid: self.init_pid,
                creator: self.config.creator_uid,
                clean_up_intel_rdt_subdirectory: Some(self.needs_rdt_cleanup),
                root: root.clone(),
            };
            self.record = Some(
                ContainerRecord {
                    id,
                    status: ContainerStatus::Created,
                    pid: self.init_pid,
                    creator: self.config.creator_uid,
                    clean_up_intel_rdt_subdirectory: Some(self.needs_rdt_cleanup),
                    root,
                },
            );
            let a = BuilderAction::SaveContainerRecord { record: updated };
            self.phase = BuilderPhase::AwaitSave;
            proof {
                lemma_history_push(h0, a);
                lemma_trace_wf_push(h0, a);
                self.history@ = h0.push(a);
                assert(h0.push(a) =~= h0 + seq![a]);
            }
            BuilderStep::Perform(a)
        } else {
            self.phase = BuilderPhase::Finished;
            proof {
                assert(self.history@ =~= h0 + Seq::<BuilderAction>::empty());
            }
            BuilderStep::Complete { pid: self.init_pid }
        }
    }

    /// Record the run failure and either abort (tenant, or no linux section
    /// to clean up under) or begin cleanup with the cgroup removal.
    fn enter_failure(&mut self, cause: String) -> (d: BuilderStep)
        requires
            old(self).inv(),
            phase_index(old(self).phase) < 8,
        ensures
            final(self).inv(),
            final(self).config == old(self).config,
            final(self).record == old(self).record,
            final(self).cleanup_errors == old(self).cleanup_errors,
            final(self).history@ == old(self).history@ + directive_actions(d),
            phase_index(final(self).phase) > phase_index(old(self).phase),
            failure_transition(*old(self), *final(self), d, cause@),
            final(self).init_pid == old(self).init_pid,
    {
        let ghost h0 = self.history@;
        let mut e = "failed to create container: ".to_owned();
        e.append(cause.as_str());
        self.run_error = Some(e.clone());
        match self.config.container_type {
            ContainerType::TenantContainer => {
                self.phase = BuilderPhase::Finished;
                proof {
                    assert(self.history@ =~= h0 + Seq::<BuilderAction>::empty());
                }
                BuilderStep::Abort(CreateFailure { error: e, cleanup_error: None })
            },
            ContainerType::InitContainer => {
                if !self.config.has_linux {
                    self.phase = BuilderPhase::Finished;
                    proof {
                        assert(self.history@ =~= h0 + Seq::<BuilderAction>::empty());
                    }
                    BuilderStep::Abort(
                        CreateFailure {
                            error: e,
                            cleanup_error: Some("no linux in spec".to_owned()),
                        },
                    )
                } else {
                    let path = cgroups_path_for(
                        &self.config.cgroups_path,
                        &self.config.container_id,
                        self.config.rootless,
                    );
                    let a = BuilderAction::RemoveCgroup {
                        cgroups_path: path,
                        use_systemd: self.config.use_systemd || self.config.rootless,
                        container_id: self.config.container_id.clone(),
                    };
                    self.phase = BuilderPhase::AwaitCleanupCgroup;
                    proof {
                        lemma_history_push(h0, a);
                        lemma_trace_wf_push(h0, a);
                        self.history@ = h0.push(a);
                        assert(h0.push(a) =~= h0 + seq![a]);
                    }
                    BuilderStep::Perform(a)
                }
            },
        }
    }

    /// Close a failed creation: hand out the creation error and the
    /// aggregated cleanup error, if any step of the cleanup failed.
    fn finish_abort(&mut self) -> (d: BuilderStep)
        requires
            old(self).inv(),
            8 <= phase_index(old(self).phase) < 12,
        ensures
            final(self).inv(),
            final(self).config == old(self).config,
            final(self).record == old(self).record,
            final(self).cleanup_errors == old(self).cleanup_errors,
            final(self).run_error == old(self).run_error,
            final(self).history@ == old(self).history@ + directive_actions(d),
            phase_index(final(self).phase) > phase_index(old(self).phase),
            final(self).phase is Finished,
            (match d {
                BuilderStep::Abort(f) => abort_ok(*final(self), f),
                _ => false,
            }),
            final(self).init_pid == old(self).init_pid,
    {
        let ghost h0 = self.history@;
        self.phase = BuilderPhase::Finished;
        let error = match &self.run_error {
            Some(e) => e.clone(),
            None => String::new(),
        };
        let cleanup_error: Option<String> = if self.cleanup_errors.len() > 0 {
            let joined = join_with(&self.cleanup_errors, ";");
            let mut c = "failed to cleanup container: ".to_owned();
            c.append(joined.as_str());
            Some(c)
        } else {
            None
        };
        proof {
            assert(self.history@ =~= h0 + Seq::<BuilderAction>::empty());
        }
        BuilderStep::Abort(CreateFailure { error, cleanup_error })
    }

    /// Emit the next applicable cleanup action at or after step `from`, or
    /// close the failed creation.
    fn advance_cleanup(&mut self, from: u8) -> (d: BuilderStep)
        requires
            old(self).inv(),
            9 <= from <= 11,
            8 <= phase_index(old(self).phase) < from as int,
        ensures
            final(self).inv(),
            final(self).config == old(self).config,
            final(self).record == old(self).record,
            final(self).cleanup_errors == old(self).cleanup_errors,
            final(self).run_error == old(self).run_error,
            final(self).history@ == old(self).history@ + directive_actions(d),
            phase_index(final(self).phase) > phase_index(old(self).phase),
            cleanup_advance(*old(self), *final(self), d, from as int),
            final(self).init_pid == old(self).init_pid,
    {
        let ghost h0 = self.history@;
        if from <= 9 && (match &self.record {
            Some(r) => (match r.clean_up_intel_rdt_subdirectory {
                Some(b) => b,
                None => false,
            }),
            None => false,
        }) {
            let a = BuilderAction::DeleteResctrl {
                container_id: self.config.container_id.clone(),
            };
            self.phase = BuilderPhase::AwaitCleanupResctrl;
            proof {
                lemma_history_push(h0, a);
                lemma_trace_wf_push(h0, a);
                self.history@ = h0.push(a);
                assert(h0.push(a) =~= h0 + seq![a]);
            }
            BuilderStep::Perform(a)
        } else if from <= 10 && (match self.record {
            Some(_) => true,
            None => false,
        }) {
            let root = match &self.record {
                Some(r) => r.root.clone(),
                None => String::new(),
            };
            let a = BuilderAction::CheckStateDir { root };
            self.phase = BuilderPhase::AwaitCleanupCheckDir;
            proof {
                lemma_history_push(h0, a);
                lemma_trace_wf_push(h0, a);
                self.history@ = h0.push(a);
                assert(h0.push(a) =~= h0 + seq![a]);
            }
            BuilderStep::Perform(a)
        } else {
            self.finish_abort()
        }
    }

    /// Collect the fixed per-step message when a cleanup step failed.
    fn collect_cleanup_error(&mut self, failed: bool)
        requires
            old(self).inv(),
            old(self).phase is AwaitCleanupCgroup || old(self).phase is AwaitCleanupResctrl
                || old(self).phase is AwaitCleanupRmDir,
        ensures
            final(self).inv(),
            final(self).config == old(self).config,
            final(self).record == old(self).record,
            final(self).run_error == old(self).run_error,
            final(self).phase == old(self).phase,
            final(self).history@ == old(self).history@,
            final(self).init_pid == old(self).init_pid,
            failed ==> final(self).cleanup_errors.deep_view() == old(
                self,
            ).cleanup_errors.deep_view().push(
                cleanup_step_message(old(self).phase, *old(self)),
            ),
            !failed ==> final(self).cleanup_errors == old(self).cleanup_errors,
    {
        if !failed {
            return ;
        }
        let ghost dv0 = self.cleanup_errors.deep_view();
        let msg: String = match self.phase {
            BuilderPhase::AwaitCleanupCgroup => "failed to remove cgroup".to_owned(),
            BuilderPhase::AwaitCleanupResctrl => {
                let mut m = "failed to delete resctrl subdirectory: \"".to_owned();
                m.append(self.config.container_id.as_str());
                m.append("\"");
                m
            },
            _ => {
                let root = match &self.record {
                    Some(r) => r.root.clone(),
                    None => String::new(),
                };
                let mut m = "could not delete \"".to_owned();
                m.append(root.as_str());
                m.append("\"");
                m
            },
        };
        proof {
            assert(msg@ == cleanup_step_message(self.phase, *self));
        }
        self.cleanup_errors.push(msg);
        proof {
            assert(self.cleanup_errors.deep_view() =~~= dv0.push(
                cleanup_step_message(old(self).phase, *old(self)),
            ));
        }
    }

    /// Feed one event to the machine and get the next directive. The event
    /// must answer the awaited action.
    pub fn step(&mut self, ev: BuilderEvent) -> (d: BuilderStep)
        requires
            old(self).inv(),
            old(self).expects(ev),
        ensures
            final(self).inv(),
            final(self).config == old(self).config,
            final(self).history@ == old(self).history@ + directive_actions(d),
            phase_index(final(self).phase) > phase_index(old(self).phase),
            (final(self).record is Some) == (old(self).record is Some),
            (match (old(self).record, final(self).record) {
                (Some(a), Some(b)) => a.id@ == b.id@ && a.root@ == b.root@,
                (None, None) => true,
                _ => false,
            }),
            !(old(self).phase is AwaitSpawn) ==> final(self).init_pid == old(self).init_pid,
            ({
                let pre = *old(self);
                let post = *final(self);
                &&& (pre.phase is AwaitCgroupManager && ev is Succeeded && pre.config.has_process
                    ==> run_advance(pre, post, d, 1))
                &&& (pre.phase is AwaitCgroupManager && ev is Succeeded
                    && !pre.config.has_process ==> failure_transition(
                    pre,
                    post,
                    d,
                    "No process in spec"@,
                ))
                &&& (pre.phase is AwaitHooks && ev is Succeeded ==> run_advance(pre, post, d, 2))
                &&& (pre.phase is AwaitNotify && ev is Succeeded ==> run_advance(pre, post, d, 3))
                &&& (pre.phase is AwaitOom && ev is Succeeded ==> run_advance(pre, post, d, 4))
                &&& (pre.phase is AwaitDumpable && ev is Succeeded ==> run_advance(
                    pre,
                    post,
                    d,
                    5,
                ))
                &&& (pre.phase is AwaitSpawn ==> (ev matches BuilderEvent::InitSpawned {
                    pid,
                    needs_rdt_cleanup,
                } ==> post.init_pid == pid && post.needs_rdt_cleanup == needs_rdt_cleanup
                    && run_advance(pre, post, d, 6)))
                &&& (pre.phase is AwaitPidFile && ev is Succeeded ==> run_advance(
                    pre,
                    post,
                    d,
                    7,
                ))
                &&& (pre.phase is AwaitSave && ev is Succeeded ==> run_advance(pre, post, d, 8))
                &&& (phase_index(pre.phase) < 8 ==> (ev matches BuilderEvent::Failed { message }
                    ==> failure_transition(pre, post, d, message@)))
                &&& (pre.phase is AwaitCleanupCgroup && (ev is Succeeded || ev matches
                    BuilderEvent::Failed { .. }) ==> cleanup_advance(pre, post, d, 9)
                    && cleanup_collected(pre, ev, post))
                &&& (pre.phase is AwaitCleanupResctrl && (ev is Succeeded || ev matches
                    BuilderEvent::Failed { .. }) ==> cleanup_advance(pre, post, d, 10)
                    && cleanup_collected(pre, ev, post))
                &&& (pre.phase is AwaitCleanupCheckDir ==> (ev matches
                    BuilderEvent::StateDirStatus { exists } ==> ({
                    &&& post.cleanup_errors == pre.cleanup_errors
                    &&& (exists ==> post.phase is AwaitCleanupRmDir && (match d {
                        BuilderStep::Perform(a) => action_matches_phase(a, post),
                        _ => false,
                    }))
                    &&& (!exists ==> post.phase is Finished && (match d {
                        BuilderStep::Abort(f) => abort_ok(post, f),
                        _ => false,
                    }))
                })))
                &&& (pre.phase is AwaitCleanupRmDir && (ev is Succeeded || ev matches
                    BuilderEvent::Failed { .. }) ==> post.phase is Finished
                    && cleanup_collected(pre, ev, post) && (match d {
                    BuilderStep::Abort(f) => abort_ok(post, f),
                    _ => false,
                }))
            }),
    {
        let failed = match &ev {
            BuilderEvent::Failed { .. } => true,
            _ => false,
        };
        match self.phase {
            BuilderPhase::AwaitCgroupManager => match ev {
                BuilderEvent::Succeeded => {
                    if self.config.has_process {
                        self.advance_run(1)
                    } else {
                        self.enter_failure("No process in spec".to_owned())
                    }
                },
                BuilderEvent::Failed { message } => self.enter_failure(message),
                _ => {
                    proof {
                        assert(false);
                    }
                    BuilderStep::Complete { pid: 0 }
                },
            },
            BuilderPhase::AwaitHooks => match ev {
                BuilderEvent::Succeeded => self.advance_run(2),
                BuilderEvent::Failed { message } => self.enter_failure(message),
                _ => {
                    proof {
                        assert(false);
                    }
                    BuilderStep::Complete { pid: 0 }
                },
            },
            BuilderPhase::AwaitNotify => match ev {
                BuilderEvent::Succeeded => self.advance_run(3),
                BuilderEvent::Failed { message } => self.enter_failure(message),
                _ => {
                    proof {
                        assert(false);
                    }
                    BuilderStep::Complete { pid: 0 }
                },
            },
            BuilderPhase::AwaitOom => match ev {
                BuilderEvent::Succeeded => self.advance_run(4),
                BuilderEvent::Failed { message } => self.enter_failure(message),
                _ => {
                    proof {
                        assert(false);
                    }
                    BuilderStep::Complete { pid: 0 }
                },
            },
            BuilderPhase::AwaitDumpable => match ev {
                BuilderEvent::Succeeded => self.advance_run(5),
                BuilderEvent::Failed { message } => self.enter_failure(message),
                _ => {
                    proof {
                        assert(false);
                    }
                    BuilderStep::Complete { pid: 0 }
                },
            },
            BuilderPhase::AwaitSpawn => match ev {
                BuilderEvent::InitSpawned { pid, needs_rdt_cleanup } => {
                    self.init_pid = pid;
                    self.needs_rdt_cleanup = needs_rdt_cleanup;
                    self.advance_run(6)
                },
                BuilderEvent::Failed { message } => self.enter_failure(message),
                _ => {
                    proof {
                        assert(false);
                    }
                    BuilderStep::Complete { pid: 0 }
                },
            },
            BuilderPhase::AwaitPidFile => match ev {
                BuilderEvent::Succeeded => self.advance_run(7),
                BuilderEvent::Failed { message } => self.enter_failure(message),
                _ => {
                    proof {
                        assert(false);
                    }
                    BuilderStep::Complete { pid: 0 }
                },
            },
            BuilderPhase::AwaitSave => match ev {
                BuilderEvent::Succeeded => self.advance_run(8),
                BuilderEvent::Failed { message } => self.enter_failure(message),
                _ => {
                    proof {
                        assert(false);
                    }
                    BuilderStep::Complete { pid: 0 }
                },
            },
            BuilderPhase::AwaitCleanupCgroup => {
                self.collect_cleanup_error(failed);
                self.advance_cleanup(9)
            },
            BuilderPhase::AwaitCleanupResctrl => {
                self.collect_cleanup_error(failed);
                self.advance_cleanup(10)
            },
            BuilderPhase::AwaitCleanupCheckDir => match ev {
                BuilderEvent::StateDirStatus { exists } => {
                    if exists {
                        let ghost h0 = self.history@;
                        let root = match &self.record {
                            Some(r) => r.root.clone(),
                            None => String::new(),
                        };
                        let a = BuilderAction::DeleteStateDir { root };
                        self.phase = BuilderPhase::AwaitCleanupRmDir;
                        proof {
                            lemma_history_push(h0, a);
                            lemma_trace_wf_push(h0, a);
                            self.history@ = h0.push(a);
                            assert(h0.push(a) =~= h0 + seq![a]);
                        }
                        BuilderStep::Perform(a)
                    } else {
                        self.finish_abort()
                    }
                },
                _ => {
                    proof {
                        assert(false);
                    }
                    BuilderStep::Complete { pid: 0 }
                },
            },
            BuilderPhase::AwaitCleanupRmDir => {
                self.collect_cleanup_error(failed);
                self.finish_abort()
            },
            BuilderPhase::Finished => {
                proof {
                    assert(false);
                }
                BuilderStep::Complete { pid: 0 }
            },
        }
    }
}

/// The collected cleanup messages grow by the failed step's message.
pub open spec fn cleanup_collected(
    pre: ContainerBuilder,
    ev: BuilderEvent,
    post: ContainerBuilder,
) -> bool {
    match ev {
        BuilderEvent::Failed { .. } => post.cleanup_errors.deep_view()
            == pre.cleanup_errors.deep_view().push(cleanup_step_message(pre.phase, pre)),
        _ => post.cleanup_errors.deep_view() == pre.cleanup_errors.deep_view(),
    }
}

/// Law: whenever both appear in one history, the oom score write precedes
/// setting the process non-dumpable.
pub proof fn lemma_oom_write_precedes_nondumpable(m: ContainerBuilder, i: int, j: int)
    requires
        m.inv(),
        0 <= i < m.history@.len(),
        0 <= j < m.history@.len(),
        is_oom_action(m.history@[i]),
        is_dumpable_action(m.history@[j]),
    ensures
        i < j,
{
}

/// Law: cleanup is order-preserving. The cgroup removal precedes the
/// resctrl deletion, and both precede the state-directory removal.
pub proof fn lemma_cleanup_order(m: ContainerBuilder, i: int, j: int)
    requires
        m.inv(),
        0 <= i < m.history@.len(),
        0 <= j < m.history@.len(),
        (is_remove_cgroup(m.history@[i]) && is_delete_resctrl(m.history@[j]))
            || (is_remove_cgroup(m.history@[i]) && is_delete_state_dir(m.history@[j]))
            || (is_delete_resctrl(m.history@[i]) && is_delete_state_dir(m.history@[j])),
    ensures
        i < j,
{
}

/// Law: an init-container failure triggers cleanup exactly once, and a
/// tenant-container failure, or a success, never does. The one init failure
/// that starts no cleanup action is a spec without a linux section, where
/// cleanup refuses before touching anything.
pub proof fn lemma_cleanup_exactly_once(m: ContainerBuilder)
    requires
        m.inv(),
        m.phase is Finished,
    ensures
        m.config.container_type is TenantContainer ==> !has_remove_cgroup(m.history@),
        m.run_error is None ==> !has_remove_cgroup(m.history@),
        m.config.container_type is InitContainer && m.config.has_linux && m.run_error is Some
            ==> has_remove_cgroup(m.history@),
        forall|i: int, j: int|
            0 <= i < m.history@.len() && 0 <= j < m.history@.len() && is_remove_cgroup(
                #[trigger] m.history@[i],
            ) && is_remove_cgroup(#[trigger] m.history@[j]) ==> i == j,
{
}

} // verus!
