use libcontainer::flags::{
    MOUNT_ATTR_ATIME_MASK, MOUNT_ATTR_NOATIME, MOUNT_ATTR_NOSUID, MOUNT_ATTR_RDONLY, MS_BIND,
    MS_NODEV, MS_NOEXEC, MS_NOSUID, MS_RDONLY, MS_REC, MS_SYNCHRONOUS,
};
use libcontainer::options::{parse_mount, MountRequest};

fn req(options: Vec<&str>) -> MountRequest {
    MountRequest {
        destination: "/data".to_string(),
        typ: Some("ext4".to_string()),
        source: Some("/dev/sda1".to_string()),
        options: options.into_iter().map(|o| o.to_string()).collect(),
    }
}

#[test]
fn recognized_tokens_toggle_flags() {
    let cfg = parse_mount(&req(vec!["ro", "nosuid", "nodev", "noexec", "sync"]));
    assert_eq!(cfg.flags, MS_RDONLY | MS_NOSUID | MS_NODEV | MS_NOEXEC | MS_SYNCHRONOUS);
    assert_eq!(cfg.data, "");
    assert!(cfg.rec_attr.is_none());
}

#[test]
fn clearing_counterparts_remove_bits() {
    let cfg = parse_mount(&req(vec!["ro", "nosuid", "rw", "suid"]));
    assert_eq!(cfg.flags, 0);
}

#[test]
fn order_decides_between_set_and_clear() {
    let set_last = parse_mount(&req(vec!["rw", "ro"]));
    assert_eq!(set_last.flags, MS_RDONLY);
    let clear_last = parse_mount(&req(vec!["ro", "rw"]));
    assert_eq!(clear_last.flags, 0);
}

#[test]
fn rbind_sets_bind_and_rec() {
    let cfg = parse_mount(&req(vec!["rbind"]));
    assert_eq!(cfg.flags, MS_BIND | MS_REC);
}

#[test]
fn unknown_tokens_pass_through_in_input_order() {
    let cfg = parse_mount(&req(vec![
        "newinstance",
        "nosuid",
        "ptmxmode=0666",
        "mode=0620",
        "gid=5",
    ]));
    assert_eq!(cfg.flags, MS_NOSUID);
    assert_eq!(cfg.data, "newinstance,ptmxmode=0666,mode=0620,gid=5");
}

#[test]
fn parsing_never_fails_and_defaults_are_empty() {
    let cfg = parse_mount(&req(vec![]));
    assert_eq!(cfg.flags, 0);
    assert_eq!(cfg.data, "");
    assert!(cfg.rec_attr.is_none());
}

#[test]
fn recursive_attribute_tokens_accumulate() {
    let cfg = parse_mount(&req(vec!["rro", "rnosuid", "rnoatime", "data=1"]));
    let attr = cfg.rec_attr.expect("attribute tokens must yield a record");
    assert_eq!(attr.attr_set, MOUNT_ATTR_RDONLY | MOUNT_ATTR_NOSUID | MOUNT_ATTR_NOATIME);
    assert_eq!(attr.attr_clr, MOUNT_ATTR_ATIME_MASK);
    assert_eq!(attr.propagation, 0);
    assert_eq!(attr.userns_fd, 0);
    // attribute tokens do not leak into flags or data
    assert_eq!(cfg.flags, 0);
    assert_eq!(cfg.data, "data=1");
}

#[test]
fn clearing_attribute_tokens_fill_attr_clr() {
    let cfg = parse_mount(&req(vec!["rrw", "rsuid"]));
    let attr = cfg.rec_attr.unwrap();
    assert_eq!(attr.attr_set, 0);
    assert_eq!(attr.attr_clr, MOUNT_ATTR_RDONLY | MOUNT_ATTR_NOSUID);
}
