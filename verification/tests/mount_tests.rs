use libcontainer::flags::{
    MS_BIND, MS_NODEV, MS_NOEXEC, MS_NOSUID, MS_PRIVATE, MS_RDONLY, MS_REC, MS_REMOUNT,
};
use libcontainer::mount::{Mount, MountError};
use libcontainer::options::{parse_mount, MountOptions, MountRequest};
use libcontainer::syscall::{MountCall, TraceSyscall};

fn tmpdir_path(t: &tempfile::TempDir) -> String {
    t.path().to_string_lossy().into_owned()
}

fn create_file(path: &str) {
    let fd = nix::fcntl::open(
        std::path::Path::new(path),
        nix::fcntl::OFlag::O_CREAT | nix::fcntl::OFlag::O_WRONLY,
        nix::sys::stat::Mode::from_bits_truncate(0o644),
    )
    .unwrap();
    drop(fd);
}

fn create_dir_all(path: &str) {
    let mut so_far = String::new();
    for part in path.split('/') {
        if part.is_empty() {
            so_far.push('/');
            continue;
        }
        if !so_far.is_empty() && !so_far.ends_with('/') {
            so_far.push('/');
        }
        so_far.push_str(part);
        let _ = nix::unistd::mkdir(
            std::path::Path::new(so_far.as_str()),
            nix::sys::stat::Mode::from_bits_truncate(0o755),
        );
    }
}

#[test]
fn test_mount_to_container() {
    let tmp_dir = tempfile::tempdir().unwrap();
    {
        let mut m = Mount::new();
        let mount = MountRequest {
            destination: "/dev/pts".to_string(),
            typ: Some("devpts".to_string()),
            source: Some("devpts".to_string()),
            options: vec![
                "nosuid".to_string(),
                "noexec".to_string(),
                "newinstance".to_string(),
                "ptmxmode=0666".to_string(),
                "mode=0620".to_string(),
                "gid=5".to_string(),
            ],
        };
        let mount_option_config = parse_mount(&mount);
        let root = tmpdir_path(&tmp_dir);
        let label = "defaults".to_string();
        assert!(m
            .mount_into_container(&mount, &root, &mount_option_config, Some(&label))
            .is_ok());

        let want = vec![MountCall {
            source: Some("devpts".to_string()),
            target: format!("{}/dev/pts", root),
            fstype: Some("devpts".to_string()),
            flags: MS_NOSUID | MS_NOEXEC,
            data: Some("newinstance,ptmxmode=0666,mode=0620,gid=5,context=\"defaults\"".to_string()),
        }];
        let got = m.syscall.get_mount_args();
        assert_eq!(want, *got);
        assert_eq!(got.len(), 1);
    }
    {
        let mut m = Mount::new();
        let root = tmpdir_path(&tmp_dir);
        let source = format!("{}/null", root);
        create_file(&source);
        let mount = MountRequest {
            destination: "/dev/null".to_string(),
            typ: Some("bind".to_string()),
            source: Some(source.clone()),
            options: vec!["ro".to_string()],
        };
        let mount_option_config = parse_mount(&mount);
        assert!(m
            .mount_into_container(&mount, &root, &mount_option_config, None)
            .is_ok());

        let want = vec![
            MountCall {
                source: Some(source),
                target: format!("{}/dev/null", root),
                fstype: Some("bind".to_string()),
                flags: MS_RDONLY,
                data: Some("".to_string()),
            },
            MountCall {
                source: Some(format!("{}/dev/null", root)),
                target: format!("{}/dev/null", root),
                fstype: None,
                flags: MS_RDONLY | MS_REMOUNT,
                data: None,
            },
        ];
        let got = m.syscall.get_mount_args();
        assert_eq!(want, *got);
        assert_eq!(got.len(), 2);

        // The destination exists as a writable regular file, so the bind
        // mount would find its target ready.
        let dest = format!("{}/dev/null", root);
        let st = nix::sys::stat::stat(std::path::Path::new(dest.as_str())).unwrap();
        assert_eq!(st.st_mode & libc::S_IFMT, libc::S_IFREG);
        assert!(nix::unistd::access(
            std::path::Path::new(dest.as_str()),
            nix::unistd::AccessFlags::W_OK
        )
        .is_ok());
    }
}

#[test]
fn test_make_parent_mount_private() {
    let tmp_dir = tempfile::tempdir().unwrap();
    let mut m = Mount::new();
    let root = tmpdir_path(&tmp_dir);
    let result = m.make_parent_mount_private(&root);
    assert!(result.is_ok());

    if let Ok(Some(entry)) = result {
        let set = m.syscall.get_mount_args();
        assert_eq!(set.len(), 1);
        let got = &set[0];
        assert_eq!(got.source, None);
        assert_eq!(got.fstype, None);
        assert_eq!(got.flags, MS_PRIVATE);
        assert_eq!(got.data, None);
        // The remounted mount point is an ancestor of the rootfs path.
        assert_eq!(got.target, entry.mount_point);
        assert!(entry.mount_point == "/" || root.starts_with(entry.mount_point.as_str()));
    }
}

#[test]
fn test_namespaced_subsystem_success() {
    let tmp = tempfile::tempdir().unwrap();
    let root = tmpdir_path(&tmp);

    let mut mounter = Mount::new();

    let spec_cgroup_mount = MountRequest {
        destination: "/container_cgroup".to_string(),
        typ: Some("cgroup".to_string()),
        source: Some("cgroup".to_string()),
        options: vec![],
    };

    let mount_opts = MountOptions { root: root.clone(), label: None, cgroup_ns: true };

    let subsystem_name = "cpu".to_string();

    mounter
        .setup_namespaced_subsystem(&spec_cgroup_mount, &mount_opts, &subsystem_name, false)
        .expect("failed to setup namespaced subsystem");

    let expected = MountCall {
        source: Some("cgroup".to_string()),
        target: format!("{}/container_cgroup/cpu", root),
        fstype: Some("cgroup".to_string()),
        flags: MS_NOEXEC | MS_NOSUID | MS_NODEV,
        data: Some("cpu".to_string()),
    };

    let got = mounter.syscall.get_mount_args();
    assert_eq!(got.len(), 1);
    assert_eq!(expected, got[0]);
}

#[test]
fn test_emulated_subsystem_success() {
    // arrange
    let tmp = tempfile::tempdir().unwrap();
    let root = tmpdir_path(&tmp);
    let host_cgroup_mount = format!("{}/host_cgroup", root);
    let host_cgroup = format!("{}/cpu/container1", host_cgroup_mount);
    create_dir_all(&host_cgroup);

    let mut mounter = Mount::new();

    let spec_cgroup_mount = MountRequest {
        destination: "/container_cgroup".to_string(),
        typ: Some("cgroup".to_string()),
        source: Some("cgroup".to_string()),
        options: vec![],
    };

    let mount_opts = MountOptions { root: root.clone(), label: None, cgroup_ns: false };

    let subsystem_name = "cpu".to_string();
    let process_cgroups = vec![libcontainer::host::ProcessCgroup {
        hierarchy: 2,
        controllers: vec!["cpu".to_string()],
        pathname: "container1".to_string(),
    }];

    // act
    mounter
        .setup_emulated_subsystem(
            &spec_cgroup_mount,
            &mount_opts,
            &subsystem_name,
            false,
            &format!("{}/cpu", host_cgroup_mount),
            &process_cgroups,
        )
        .expect("failed to setup emulated subsystem");

    // assert
    let expected = MountCall {
        source: Some(host_cgroup),
        target: format!("{}/container_cgroup/cpu", root),
        fstype: Some("bind".to_string()),
        flags: MS_BIND | MS_REC,
        data: Some("".to_string()),
    };

    let got = mounter.syscall.get_mount_args();
    assert_eq!(got.len(), 1);
    assert_eq!(expected, got[0]);
}

#[test]
fn test_emulated_subsystem_without_process_entry_is_skipped() {
    let tmp = tempfile::tempdir().unwrap();
    let root = tmpdir_path(&tmp);
    let mut mounter = Mount::new();
    let spec_cgroup_mount = MountRequest {
        destination: "/container_cgroup".to_string(),
        typ: Some("cgroup".to_string()),
        source: Some("cgroup".to_string()),
        options: vec![],
    };
    let mount_opts = MountOptions { root, label: None, cgroup_ns: false };
    mounter
        .setup_emulated_subsystem(
            &spec_cgroup_mount,
            &mount_opts,
            &"cpu".to_string(),
            false,
            &"/sys/fs/cgroup/cpu".to_string(),
            &vec![],
        )
        .expect("skipped subsystem must succeed");
    assert_eq!(mounter.syscall.get_mount_args().len(), 0);
}

#[test]
fn test_mount_cgroup_v1() {
    // arrange
    let tmp = tempfile::tempdir().unwrap();
    let root = tmpdir_path(&tmp);

    let spec_cgroup_mount = MountRequest {
        destination: "/sys/fs/cgroup".to_string(),
        typ: Some("cgroup".to_string()),
        source: Some("cgroup".to_string()),
        options: vec![],
    };

    let mount_opts = MountOptions { root: root.clone(), label: None, cgroup_ns: true };

    let host_mounts = vec![
        "/sys/fs/cgroup/cpu".to_string(),
        "/sys/fs/cgroup/systemd".to_string(),
    ];

    let mut mounter = Mount::new();

    // act
    mounter
        .mount_cgroup_v1(&spec_cgroup_mount, &mount_opts, &host_mounts, &vec![])
        .expect("failed to mount cgroup v1");

    // assert
    let got = mounter.syscall.get_mount_args();
    assert_eq!(got.len(), host_mounts.len() + 1);

    let expected = MountCall {
        source: Some("tmpfs".to_string()),
        target: format!("{}/sys/fs/cgroup", root),
        fstype: Some("tmpfs".to_string()),
        flags: MS_NOEXEC | MS_NOSUID | MS_NODEV,
        data: Some("mode=755".to_string()),
    };
    assert_eq!(expected, got[0]);

    for (host_mount, act) in host_mounts.iter().zip(got.iter().skip(1)) {
        let subsystem_name = host_mount.rsplit('/').next().unwrap();
        let expected = MountCall {
            source: Some("cgroup".to_string()),
            target: format!("{}/sys/fs/cgroup/{}", root, subsystem_name),
            fstype: Some("cgroup".to_string()),
            flags: MS_NOEXEC | MS_NOSUID | MS_NODEV,
            data: Some(if subsystem_name == "systemd" {
                format!("name={subsystem_name}")
            } else {
                subsystem_name.to_string()
            }),
        };
        assert_eq!(expected, *act);
    }
}

#[test]
fn test_mount_cgroup_v2() {
    // arrange
    let tmp = tempfile::tempdir().unwrap();
    let root = tmpdir_path(&tmp);

    let spec_cgroup_mount = MountRequest {
        destination: "/sys/fs/cgroup".to_string(),
        typ: Some("cgroup".to_string()),
        source: Some("cgroup".to_string()),
        options: vec![],
    };

    let mount_opts = MountOptions { root: root.clone(), label: None, cgroup_ns: true };

    let mut mounter = Mount::new();
    let flags = MS_NOEXEC | MS_NOSUID | MS_NODEV;

    // act
    let mount_option_config = libcontainer::options::MountOptionConfig {
        flags,
        data: String::new(),
        rec_attr: None,
    };
    mounter
        .mount_cgroup_v2(&spec_cgroup_mount, &mount_opts, &mount_option_config, None, &vec![])
        .expect("failed to mount cgroup v2");

    // assert
    let expected = MountCall {
        source: Some("cgroup".to_string()),
        target: format!("{}/sys/fs/cgroup", root),
        fstype: Some("cgroup2".to_string()),
        flags: MS_NOEXEC | MS_NOSUID | MS_NODEV,
        data: Some("".to_string()),
    };

    let got = mounter.syscall.get_mount_args();
    assert_eq!(got.len(), 1);
    assert_eq!(expected, got[0]);
}

#[test]
fn test_mount_cgroup_v2_falls_back_to_bind() {
    let tmp = tempfile::tempdir().unwrap();
    let root = tmpdir_path(&tmp);
    let mut ts = TraceSyscall::new();
    // the primary cgroup2 mount fails, the fallback bind succeeds
    ts.plan_results(vec![5, 0]);
    let mut mounter = Mount::with_syscall(ts);

    let spec_cgroup_mount = MountRequest {
        destination: "/sys/fs/cgroup".to_string(),
        typ: Some("cgroup".to_string()),
        source: Some("cgroup".to_string()),
        options: vec![],
    };
    let mount_opts = MountOptions { root: root.clone(), label: None, cgroup_ns: true };
    let cfg = libcontainer::options::MountOptionConfig {
        flags: 0,
        data: String::new(),
        rec_attr: None,
    };
    let unified = format!("{}/host_unified", root);
    create_dir_all(&format!("{}/kube/pod1", unified));
    let process_cgroups = vec![libcontainer::host::ProcessCgroup {
        hierarchy: 0,
        controllers: vec![],
        pathname: "/kube/pod1".to_string(),
    }];
    mounter
        .mount_cgroup_v2(&spec_cgroup_mount, &mount_opts, &cfg, Some(&unified), &process_cgroups)
        .expect("fallback must succeed");

    let got = mounter.syscall.get_mount_args();
    assert_eq!(got.len(), 2);
    assert_eq!(got[1].fstype, Some("bind".to_string()));
    assert_eq!(got[1].source, Some(format!("{}/kube/pod1", unified)));
    assert_eq!(got[1].flags, MS_BIND);
}

#[test]
fn test_mount_einval_retries_without_label() {
    let tmp = tempfile::tempdir().unwrap();
    let root = tmpdir_path(&tmp);
    let mut ts = TraceSyscall::new();
    ts.plan_results(vec![22, 0]);
    let mut m = Mount::with_syscall(ts);
    let mount = MountRequest {
        destination: "/data".to_string(),
        typ: Some("ext4".to_string()),
        source: Some("/dev/sda1".to_string()),
        options: vec!["noexec".to_string(), "fsopt=1".to_string()],
    };
    let cfg = parse_mount(&mount);
    let label = "system_u".to_string();
    m.mount_into_container(&mount, &root, &cfg, Some(&label))
        .expect("retry without label must succeed");
    let got = m.syscall.get_mount_args();
    assert_eq!(got.len(), 2);
    assert_eq!(got[0].data, Some("fsopt=1,context=\"system_u\"".to_string()));
    assert_eq!(got[1].data, Some("fsopt=1".to_string()));
}

#[test]
fn test_mount_other_errno_is_fatal() {
    let tmp = tempfile::tempdir().unwrap();
    let root = tmpdir_path(&tmp);
    let mut ts = TraceSyscall::new();
    ts.plan_results(vec![13]);
    let mut m = Mount::with_syscall(ts);
    let mount = MountRequest {
        destination: "/data".to_string(),
        typ: Some("ext4".to_string()),
        source: Some("/dev/sda1".to_string()),
        options: vec![],
    };
    let cfg = parse_mount(&mount);
    let r = m.mount_into_container(&mount, &root, &cfg, None);
    match r {
        Err(MountError::Mount { errno, .. }) => assert_eq!(errno, 13),
        other => panic!("expected a fatal mount error, got {:?}", other),
    }
    assert_eq!(m.syscall.get_mount_args().len(), 1);
}

#[test]
fn test_mount_without_source_is_rejected() {
    let tmp = tempfile::tempdir().unwrap();
    let root = tmpdir_path(&tmp);
    let mut m = Mount::new();
    let mount = MountRequest {
        destination: "/data".to_string(),
        typ: Some("tmpfs".to_string()),
        source: None,
        options: vec![],
    };
    let cfg = parse_mount(&mount);
    let r = m.mount_into_container(&mount, &root, &cfg, None);
    assert!(matches!(r, Err(MountError::NoSource)));
    assert_eq!(m.syscall.get_mount_args().len(), 0);
}

#[test]
fn test_setup_mount_clears_rdonly_on_dev() {
    let tmp = tempfile::tempdir().unwrap();
    let root = tmpdir_path(&tmp);
    let mut m = Mount::new();
    let mount = MountRequest {
        destination: "/dev".to_string(),
        typ: Some("tmpfs".to_string()),
        source: Some("tmpfs".to_string()),
        options: vec!["ro".to_string(), "nosuid".to_string()],
    };
    let options = MountOptions { root, label: None, cgroup_ns: false };
    m.setup_mount(&mount, &options).unwrap();
    let got = m.syscall.get_mount_args();
    assert_eq!(got.len(), 1);
    assert_eq!(got[0].flags, MS_NOSUID);
}

#[test]
fn test_remount_follows_exactly_for_bind_with_extra_flags() {
    // The syscall log ends with a remount entry exactly when the request is
    // a bind mount whose flags exceed what the initial call honours.
    let tmp = tempfile::tempdir().unwrap();
    let root = tmpdir_path(&tmp);
    let dir = format!("{}/src_dir", root);
    create_dir_all(&dir);
    {
        // plain rbind: no extra flags, no remount
        let mut m = Mount::new();
        let mount = MountRequest {
            destination: "/mnt".to_string(),
            typ: Some("bind".to_string()),
            source: Some(dir.clone()),
            options: vec!["rbind".to_string()],
        };
        let cfg = parse_mount(&mount);
        m.mount_into_container(&mount, &root, &cfg, None).unwrap();
        assert_eq!(m.syscall.get_mount_args().len(), 1);
    }
    {
        // rbind + nodev: one follow-up remount with the flags or'd in
        let mut m = Mount::new();
        let mount = MountRequest {
            destination: "/mnt".to_string(),
            typ: Some("bind".to_string()),
            source: Some(dir.clone()),
            options: vec!["rbind".to_string(), "nodev".to_string()],
        };
        let cfg = parse_mount(&mount);
        m.mount_into_container(&mount, &root, &cfg, None).unwrap();
        let got = m.syscall.get_mount_args();
        assert_eq!(got.len(), 2);
        let last = &got[1];
        assert_eq!(last.fstype, None);
        assert_eq!(last.data, None);
        assert_eq!(last.flags, MS_BIND | MS_REC | MS_NODEV | MS_REMOUNT);
        assert_eq!(last.source.as_deref(), Some(last.target.as_str()));
    }
}

#[test]
fn test_rec_attr_triggers_mount_setattr() {
    let tmp = tempfile::tempdir().unwrap();
    let root = tmpdir_path(&tmp);
    let mut m = Mount::new();
    let mount = MountRequest {
        destination: "/proc".to_string(),
        typ: Some("proc".to_string()),
        source: Some("proc".to_string()),
        options: vec!["rro".to_string()],
    };
    let cfg = parse_mount(&mount);
    m.mount_into_container(&mount, &root, &cfg, None).unwrap();
    let attrs = m.syscall.get_setattr_args();
    assert_eq!(attrs.len(), 1);
    assert_eq!(attrs[0].pathname, format!("{}/proc", root));
    assert_eq!(attrs[0].flags, libcontainer::flags::AT_RECURSIVE);
    assert_eq!(attrs[0].attr.attr_set, libcontainer::flags::MOUNT_ATTR_RDONLY);
}

#[test]
fn test_symlink_cycle_is_refused() {
    let tmp = tempfile::tempdir().unwrap();
    let root = tmpdir_path(&tmp);
    nix::unistd::symlinkat(
        std::path::Path::new("b"),
        nix::fcntl::AT_FDCWD,
        std::path::Path::new(format!("{}/a", root).as_str()),
    )
    .unwrap();
    nix::unistd::symlinkat(
        std::path::Path::new("a"),
        nix::fcntl::AT_FDCWD,
        std::path::Path::new(format!("{}/b", root).as_str()),
    )
    .unwrap();
    let mut m = Mount::new();
    let mount = MountRequest {
        destination: "/a".to_string(),
        typ: Some("tmpfs".to_string()),
        source: Some("tmpfs".to_string()),
        options: vec![],
    };
    let cfg = parse_mount(&mount);
    let r = m.mount_into_container(&mount, &root, &cfg, None);
    assert!(matches!(r, Err(MountError::LinkLoop { .. })));
    assert_eq!(m.syscall.get_mount_args().len(), 0);
}

#[test]
fn test_cgroup_v2_fallback_without_unified_entry_is_fatal() {
    let tmp = tempfile::tempdir().unwrap();
    let root = tmpdir_path(&tmp);
    let mut ts = TraceSyscall::new();
    ts.plan_results(vec![5]);
    let mut mounter = Mount::with_syscall(ts);
    let spec_cgroup_mount = MountRequest {
        destination: "/sys/fs/cgroup".to_string(),
        typ: Some("cgroup".to_string()),
        source: Some("cgroup".to_string()),
        options: vec![],
    };
    let mount_opts = MountOptions { root: root.clone(), label: None, cgroup_ns: true };
    let cfg = libcontainer::options::MountOptionConfig {
        flags: 0,
        data: String::new(),
        rec_attr: None,
    };
    let unified = format!("{}/host_unified", root);
    // the process has no hierarchy-0 entry at all
    let r = mounter.mount_cgroup_v2(&spec_cgroup_mount, &mount_opts, &cfg, Some(&unified), &vec![]);
    assert!(matches!(r, Err(MountError::NoUnifiedCgroup)));
}

#[test]
fn test_failing_remount_is_reported() {
    let tmp = tempfile::tempdir().unwrap();
    let root = tmpdir_path(&tmp);
    let dir = format!("{}/src_dir2", root);
    create_dir_all(&dir);
    let mut ts = TraceSyscall::new();
    ts.plan_results(vec![0, 7]);
    let mut m = Mount::with_syscall(ts);
    let mount = MountRequest {
        destination: "/mnt".to_string(),
        typ: Some("bind".to_string()),
        source: Some(dir),
        options: vec!["rbind".to_string(), "ro".to_string()],
    };
    let cfg = parse_mount(&mount);
    let r = m.mount_into_container(&mount, &root, &cfg, None);
    match r {
        Err(MountError::Remount { errno, .. }) => assert_eq!(errno, 7),
        other => panic!("expected a remount failure, got {:?}", other),
    }
    assert_eq!(m.syscall.get_mount_args().len(), 2);
}
