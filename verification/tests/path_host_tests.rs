use libcontainer::host::{
    cgroup_setup_of, find_parent_mount, has_shared_field, list_subsystem_mount_points,
    lookup_process_cgroup, unified_mount_point, unified_process_cgroup, CgroupSetup, MountEntry,
    MountOptField, ProcessCgroup,
};
use libcontainer::path::{base_name, join_path, parent_path, secure_join};

fn entry(mount_point: &str, fs_type: &str, opt_fields: Vec<MountOptField>) -> MountEntry {
    MountEntry {
        mount_point: mount_point.to_string(),
        fs_type: fs_type.to_string(),
        opt_fields,
    }
}

#[test]
fn secure_join_resolves_dots_and_keeps_rootfs_prefix() {
    let root = "/var/lib/c1/rootfs".to_string();
    let joined = secure_join(&root, &"/a/./b/../c".to_string()).unwrap();
    assert_eq!(joined, "/var/lib/c1/rootfs/a/c");
    // `..` cannot climb above the rootfs
    let joined = secure_join(&root, &"/../../../etc/passwd".to_string()).unwrap();
    assert_eq!(joined, "/var/lib/c1/rootfs/etc/passwd");
}

#[test]
fn secure_join_is_idempotent_on_clean_paths() {
    let root = "/var/lib/c1/rootfs".to_string();
    let once = secure_join(&root, &"/dev/pts".to_string()).unwrap();
    let suffix = once.strip_prefix(root.as_str()).unwrap().to_string();
    let twice = secure_join(&root, &suffix).unwrap();
    assert_eq!(once, twice);
}

#[test]
fn secure_join_follows_symlinks_inside_the_rootfs_only() {
    let tmp = tempfile::tempdir().unwrap();
    let root = tmp.path().to_string_lossy().into_owned();
    // a link pointing at the host root must not escape the rootfs
    nix::unistd::symlinkat(
        std::path::Path::new("/"),
        nix::fcntl::AT_FDCWD,
        std::path::Path::new(format!("{}/escape", root).as_str()),
    )
    .unwrap();
    let joined = secure_join(&root, &"/escape/etc/passwd".to_string()).unwrap();
    assert_eq!(joined, format!("{}/etc/passwd", root));
    assert!(joined.starts_with(root.as_str()));
}

#[test]
fn path_helpers_split_and_join() {
    assert_eq!(parent_path(&"/a/b/c".to_string()), "/a/b");
    assert_eq!(parent_path(&"abc".to_string()), "");
    assert_eq!(base_name(&"/sys/fs/cgroup/cpu,cpuacct".to_string()), "cpu,cpuacct");
    assert_eq!(base_name(&"cpu".to_string()), "cpu");
    assert_eq!(join_path(&"/a".to_string(), &"/b/c".to_string()), "/a/b/c");
    assert_eq!(join_path(&"/a".to_string(), &"b".to_string()), "/a/b");
    assert_eq!(join_path(&"/a".to_string(), &"/".to_string()), "/a");
}

#[test]
fn cgroup_setup_follows_the_mount_table() {
    let legacy = vec![entry("/sys/fs/cgroup/cpu", "cgroup", vec![])];
    assert_eq!(cgroup_setup_of(&legacy), Some(CgroupSetup::Legacy));
    let hybrid = vec![
        entry("/sys/fs/cgroup/cpu", "cgroup", vec![]),
        entry("/sys/fs/cgroup/unified", "cgroup2", vec![]),
    ];
    assert_eq!(cgroup_setup_of(&hybrid), Some(CgroupSetup::Hybrid));
    let unified = vec![entry("/sys/fs/cgroup", "cgroup2", vec![])];
    assert_eq!(cgroup_setup_of(&unified), Some(CgroupSetup::Unified));
    let none = vec![entry("/", "ext4", vec![])];
    assert_eq!(cgroup_setup_of(&none), None);
}

#[test]
fn subsystem_mounts_and_unified_mount_are_listed() {
    let table = vec![
        entry("/", "ext4", vec![]),
        entry("/sys/fs/cgroup/cpu", "cgroup", vec![]),
        entry("/sys/fs/cgroup/memory", "cgroup", vec![]),
        entry("/sys/fs/cgroup/unified", "cgroup2", vec![]),
    ];
    let subs = list_subsystem_mount_points(&table);
    assert_eq!(subs, vec!["/sys/fs/cgroup/cpu".to_string(), "/sys/fs/cgroup/memory".to_string()]);
    assert_eq!(unified_mount_point(&table), Some("/sys/fs/cgroup/unified".to_string()));
}

#[test]
fn process_cgroup_lookup_uses_the_joined_controller_key() {
    let groups = vec![
        ProcessCgroup {
            hierarchy: 4,
            controllers: vec!["cpu".to_string(), "cpuacct".to_string()],
            pathname: "/slice/c1".to_string(),
        },
        ProcessCgroup { hierarchy: 0, controllers: vec![], pathname: "/unified/c1".to_string() },
    ];
    assert_eq!(
        lookup_process_cgroup(&groups, &"cpu,cpuacct".to_string()),
        Some("/slice/c1".to_string())
    );
    assert_eq!(lookup_process_cgroup(&groups, &"memory".to_string()), None);
    assert_eq!(unified_process_cgroup(&groups), Some("/unified/c1".to_string()));
}

#[test]
fn parent_mount_is_the_longest_prefix_entry() {
    let table = vec![
        entry("/", "ext4", vec![MountOptField::Shared(1)]),
        entry("/home", "ext4", vec![]),
        entry("/home/user", "ext4", vec![MountOptField::Shared(7)]),
        entry("/var", "ext4", vec![]),
    ];
    let parent = find_parent_mount(&"/home/user/c1/rootfs".to_string(), &table).unwrap();
    assert_eq!(parent.mount_point, "/home/user");
    assert!(has_shared_field(&parent.opt_fields));
    let parent = find_parent_mount(&"/srv/data".to_string(), &table).unwrap();
    assert_eq!(parent.mount_point, "/");
    assert!(find_parent_mount(&"relative/path".to_string(), &table).is_none());
}

#[test]
fn comount_symlinks_are_created_for_each_alias() {
    let root = "/var/lib/c1/rootfs/sys/fs/cgroup".to_string();
    let sym = libcontainer::symlink::Symlink::new();
    let mut syscall = libcontainer::syscall::TraceSyscall::new();
    // no comma: nothing to do
    sym.setup_comount_symlinks(&mut syscall, &root, &"cpu".to_string()).unwrap();
    assert_eq!(syscall.get_symlink_args().len(), 0);
    // a comounted name: one link per alias, pointing at the comounted name
    sym.setup_comount_symlinks(&mut syscall, &root, &"cpu,cpuacct".to_string()).unwrap();
    let links = syscall.get_symlink_args();
    assert_eq!(links.len(), 2);
    for (alias, link) in ["cpu", "cpuacct"].iter().zip(links.iter()) {
        assert_eq!(link.original, "cpu,cpuacct");
        assert_eq!(link.link, format!("{}/{}", root, alias));
    }
}

#[test]
fn cgroup_v1_with_comounted_controllers_links_the_aliases() {
    let tmp = tempfile::tempdir().unwrap();
    let root = tmp.path().to_string_lossy().into_owned();
    let mut mounter = libcontainer::mount::Mount::new();
    let spec_cgroup_mount = libcontainer::options::MountRequest {
        destination: "/container_cgroup".to_string(),
        typ: Some("cgroup".to_string()),
        source: Some("cgroup".to_string()),
        options: vec![],
    };
    let mount_opts = libcontainer::options::MountOptions {
        root: root.clone(),
        label: None,
        cgroup_ns: true,
    };
    mounter
        .mount_cgroup_v1(
            &spec_cgroup_mount,
            &mount_opts,
            &vec!["/sys/fs/cgroup/net_cls,net_prio".to_string()],
            &vec![],
        )
        .unwrap();
    // the tmpfs and the comounted subsystem were mounted
    assert_eq!(mounter.syscall.get_mount_args().len(), 2);
    assert_eq!(
        mounter.syscall.get_mount_args()[1].data,
        Some("net_cls,net_prio".to_string())
    );
    // and one link per alias points at the comounted directory name
    let links = mounter.syscall.get_symlink_args();
    assert_eq!(links.len(), 2);
    for (alias, link) in ["net_cls", "net_prio"].iter().zip(links.iter()) {
        assert_eq!(link.original, "net_cls,net_prio");
        assert_eq!(link.link, format!("{}/container_cgroup/{}", root, alias));
    }
}
