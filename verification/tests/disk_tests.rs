use simadmin::disk::{disk_usage, select_mounts, sort_disks, DiskUsage, MountChoice};

fn chars(s: &str) -> Vec<char> {
    s.chars().collect()
}

#[test]
fn one_mount_point_per_device_preferring_rank() {
    let text = "/dev/root / ext4 rw 0 0\nproc /proc proc rw 0 0\n/dev/sda1 /mnt/data ext4 rw 0 0\n/dev/sda1 /home ext4 rw 0 0\n/dev/sda1 /var/log ext4 rw 0 0\ntmpfs /dev tmpfs rw 0 0\nshort line\n";
    let chosen = select_mounts(text);
    assert_eq!(chosen.len(), 2);
    assert_eq!(chosen[0].device, chars("/dev/root"));
    assert_eq!(chosen[0].mount_point, chars("/"));
    assert_eq!(chosen[0].priority, 0);
    assert_eq!(chosen[1].device, chars("/dev/sda1"));
    assert_eq!(chosen[1].mount_point, chars("/home"));
    assert_eq!(chosen[1].priority, 1);
    assert_eq!(chosen[1].fs_type, chars("ext4"));
}

#[test]
fn equal_rank_keeps_first_mount() {
    let chosen = select_mounts("/dev/b /srv/a xfs rw\n/dev/b /srv/b xfs rw\n");
    assert_eq!(chosen.len(), 1);
    assert_eq!(chosen[0].mount_point, chars("/srv/a"));
    assert_eq!(chosen[0].priority, 20);
}

fn choice(mount: &str) -> MountChoice {
    MountChoice {
        device: chars("/dev/x"),
        mount_point: chars(mount),
        fs_type: chars("ext4"),
        priority: 0,
    }
}

#[test]
fn usage_from_block_counts() {
    let d = disk_usage(&choice("/"), 4096, 1000, 300, 400).unwrap();
    assert_eq!(d.total_bytes, 4096 * 1000);
    assert_eq!(d.used_bytes, 4096 * 600);
    assert_eq!(d.available_bytes, 4096 * 300);
    assert_eq!(d.mount_point, "/");
    assert!(disk_usage(&choice("/boot"), 1024, 1023, 0, 0).is_none());
}

#[test]
fn used_space_never_negative() {
    let d = disk_usage(&choice("/"), 1024, 2048, 0, 4096).unwrap();
    assert_eq!(d.used_bytes, 0);
}

fn usage(mount: &str) -> DiskUsage {
    DiskUsage {
        mount_point: mount.to_string(),
        fs_type: "ext4".to_string(),
        total_bytes: 1 << 30,
        used_bytes: 0,
        available_bytes: 0,
    }
}

#[test]
fn root_first_then_by_rank_and_name() {
    let sorted = sort_disks(vec![
        usage("/srv"),
        usage("/mnt/b"),
        usage("/home"),
        usage("/mnt/a"),
        usage("/"),
        usage("/var/lib"),
        usage("/data"),
    ]);
    let names: Vec<&str> = sorted.iter().map(|d| d.mount_point.as_str()).collect();
    assert_eq!(names, vec!["/", "/home", "/mnt/a", "/mnt/b", "/var/lib", "/data", "/srv"]);
}
