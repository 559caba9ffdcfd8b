//! Disk usage: which mounted filesystems to report, one mount point per
//! device, their usage figures, and the order they are listed in.

use crate::text::{
    chars_eq, chars_eq_str, chars_of, lemma_text_lt_asymmetric, lemma_text_lt_transitive,
    lines, split_lines, split_words, starts_with_str, string_from_chars, text_less, text_lt,
    views, words,
};
use vstd::prelude::*;

verus! {

broadcast use vstd::seq_lib::group_to_multiset_ensures;

/// The rank of a mount point when one device is mounted in several places
/// and in the listing: the lower, the earlier.
pub open spec fn mount_rank(mount: Seq<char>) -> u8 {
    if mount == "/"@ {
        0
    } else if mount == "/home"@ {
        1
    } else if mount == "/mnt/userdata"@ {
        2
    } else if mount == "/var"@ {
        3
    } else if mount == "/run"@ {
        4
    } else if mount == "/tmp"@ {
        5
    } else if mount.len() >= 5 && mount.take(5) == "/mnt/"@ {
        10
    } else if mount.len() >= 5 && mount.take(5) == "/var/"@ {
        15
    } else {
        20
    }
}

pub fn mount_priority(mount: &Vec<char>) -> (res: u8)
    ensures
        res == mount_rank(mount@),
{
    proof {
        reveal_strlit("/mnt/");
        reveal_strlit("/var/");
    }
    if chars_eq_str(mount, "/") {
        0
    } else if chars_eq_str(mount, "/home") {
        1
    } else if chars_eq_str(mount, "/mnt/userdata") {
        2
    } else if chars_eq_str(mount, "/var") {
        3
    } else if chars_eq_str(mount, "/run") {
        4
    } else if chars_eq_str(mount, "/tmp") {
        5
    } else if starts_with_str(mount, "/mnt/") {
        10
    } else if starts_with_str(mount, "/var/") {
        15
    } else {
        20
    }
}

/// Virtual filesystems that hold no disk space.
pub open spec fn skipped_fs(fs: Seq<char>) -> bool {
    ||| fs == "proc"@
    ||| fs == "sysfs"@
    ||| fs == "devtmpfs"@
    ||| fs == "devpts"@
    ||| fs == "cgroup"@
    ||| fs == "cgroup2"@
    ||| fs == "pstore"@
    ||| fs == "bpf"@
    ||| fs == "tracefs"@
    ||| fs == "debugfs"@
    ||| fs == "securityfs"@
    ||| fs == "configfs"@
    ||| fs == "fusectl"@
    ||| fs == "hugetlbfs"@
    ||| fs == "mqueue"@
    ||| fs == "rpc_pipefs"@
    ||| fs == "autofs"@
    ||| fs == "functionfs"@
}

/// Mount points of the kernel's own trees.
pub open spec fn skipped_mount(m: Seq<char>) -> bool {
    ||| m == "/dev"@
    ||| m == "/dev/pts"@
    ||| m == "/sys"@
    ||| m == "/proc"@
    ||| m == "/sys/kernel/config"@
    ||| m == "/dev/usb-ffs/adb"@
}

fn is_skipped_fs(fs: &Vec<char>) -> (res: bool)
    ensures
        res == skipped_fs(fs@),
{
    chars_eq_str(fs, "proc") || chars_eq_str(fs, "sysfs") || chars_eq_str(fs, "devtmpfs")
        || chars_eq_str(fs, "devpts") || chars_eq_str(fs, "cgroup") || chars_eq_str(fs, "cgroup2")
        || chars_eq_str(fs, "pstore") || chars_eq_str(fs, "bpf") || chars_eq_str(fs, "tracefs")
        || chars_eq_str(fs, "debugfs") || chars_eq_str(fs, "securityfs") || chars_eq_str(
        fs,
        "configfs",
    ) || chars_eq_str(fs, "fusectl") || chars_eq_str(fs, "hugetlbfs") || chars_eq_str(
        fs,
        "mqueue",
    ) || chars_eq_str(fs, "rpc_pipefs") || chars_eq_str(fs, "autofs") || chars_eq_str(
        fs,
        "functionfs",
    )
}

fn is_skipped_mount(m: &Vec<char>) -> (res: bool)
    ensures
        res == skipped_mount(m@),
{
    chars_eq_str(m, "/dev") || chars_eq_str(m, "/dev/pts") || chars_eq_str(m, "/sys")
        || chars_eq_str(m, "/proc") || chars_eq_str(m, "/sys/kernel/config") || chars_eq_str(
        m,
        "/dev/usb-ffs/adb",
    )
}

/// The mount point chosen for a device.
#[derive(Debug)]
pub struct MountChoice {
    pub device: Vec<char>,
    pub mount_point: Vec<char>,
    pub fs_type: Vec<char>,
    pub priority: u8,
}

/// What a mount choice holds.
pub struct MountModel {
    pub device: Seq<char>,
    pub mount_point: Seq<char>,
    pub fs_type: Seq<char>,
    pub priority: u8,
}

impl View for MountChoice {
    type V = MountModel;

    open spec fn view(&self) -> MountModel {
        MountModel {
            device: self.device@,
            mount_point: self.mount_point@,
            fs_type: self.fs_type@,
            priority: self.priority,
        }
    }
}

pub open spec fn mount_views(v: Seq<MountChoice>) -> Seq<MountModel> {
    v.map_values(|m: MountChoice| m@)
}

/// The position of a device in the table.
pub open spec fn device_index(table: Seq<MountModel>, device: Seq<char>) -> Option<int>
    decreases table.len(),
{
    if table.len() == 0 {
        None
    } else {
        match device_index(table.drop_last(), device) {
            Some(k) => Some(k),
            None => if table.last().device == device {
                Some(table.len() - 1)
            } else {
                None
            },
        }
    }
}

/// One line of the mount table applied: lines with fewer than three
/// fields, virtual filesystems and kernel mount points are passed over; a
/// new device is added; a known device takes the new mount point only
/// where it ranks strictly better.
pub open spec fn mount_step(table: Seq<MountModel>, line: Seq<char>) -> Seq<MountModel> {
    let ws = words(line);
    if ws.len() < 3 || skipped_fs(ws[2]) || skipped_mount(ws[1]) {
        table
    } else {
        let entry = MountModel {
            device: ws[0],
            mount_point: ws[1],
            fs_type: ws[2],
            priority: mount_rank(ws[1]),
        };
        match device_index(table, ws[0]) {
            Some(k) => if entry.priority >= table[k].priority {
                table
            } else {
                table.update(k, entry)
            },
            None => table.push(entry),
        }
    }
}

pub open spec fn mount_table(ls: Seq<Seq<char>>) -> Seq<MountModel>
    decreases ls.len(),
{
    if ls.len() == 0 {
        Seq::empty()
    } else {
        mount_step(mount_table(ls.drop_last()), ls.last())
    }
}

proof fn lemma_device_index(table: Seq<MountModel>, device: Seq<char>)
    ensures
        match device_index(table, device) {
            Some(k) => 0 <= k < table.len() && table[k].device == device && forall|j: int|
                0 <= j < k ==> table[j].device != device,
            None => forall|j: int| 0 <= j < table.len() ==> table[j].device != device,
        },
    decreases table.len(),
{
    if table.len() > 0 {
        let t = table.drop_last();
        lemma_device_index(t, device);
        assert(forall|j: int| 0 <= j < t.len() ==> t[j] == table[j]);
    }
}

fn find_device(table: &Vec<MountChoice>, device: &Vec<char>) -> (res: Option<usize>)
    ensures
        match (res, device_index(mount_views(table@), device@)) {
            (Some(k), Some(j)) => k == j && k < table.len(),
            (None, None) => true,
            _ => false,
        },
{
    proof {
        lemma_device_index(mount_views(table@), device@);
    }
    let mut i: usize = 0;
    while i < table.len()
        invariant
            i <= table.len(),
            forall|j: int| 0 <= j < i ==> table@[j].device@ != device@,
            match device_index(mount_views(table@), device@) {
                Some(k) => 0 <= k < table.len() && mount_views(table@)[k].device == device@
                    && forall|j: int| 0 <= j < k ==> mount_views(table@)[j].device != device@,
                None => forall|j: int|
                    0 <= j < table.len() ==> mount_views(table@)[j].device != device@,
            },
        decreases table.len() - i,
    {
        if chars_eq(&table[i].device, device) {
            assert(mount_views(table@)[i as int].device == device@);
            assert(forall|j: int|
                0 <= j < i ==> mount_views(table@)[j].device == table@[j].device@);
            return Some(i);
        }
        i = i + 1;
    }
    None
}

/// Picks, from the text of `/proc/mounts`, one mount point for each device
/// that holds a real filesystem.
pub fn select_mounts(mounts: &str) -> (res: Vec<MountChoice>)
    ensures
        mount_views(res@) == mount_table(lines(mounts@)),
{
    let text = chars_of(mounts);
    let ls = split_lines(&text);
    let mut table: Vec<MountChoice> = Vec::new();
    let mut i: usize = 0;
    while i < ls.len()
        invariant
            i <= ls.len(),
            views(ls@) == lines(mounts@),
            mount_views(table@) == mount_table(views(ls@).take(i as int)),
        decreases ls.len() - i,
    {
        assert(views(ls@).take(i + 1).drop_last() == views(ls@).take(i as int));
        assert(views(ls@).take(i + 1).last() == ls@[i as int]@);
        let ws = split_words(&ls[i]);
        if ws.len() >= 3 && !is_skipped_fs(&ws[2]) && !is_skipped_mount(&ws[1]) {
            let priority = mount_priority(&ws[1]);
            let entry = MountChoice {
                device: ws[0].clone(),
                mount_point: ws[1].clone(),
                fs_type: ws[2].clone(),
                priority,
            };
            let ghost before = mount_views(table@);
            let ghost em = entry@;
            match find_device(&table, &ws[0]) {
                Some(k) => {
                    if priority < table[k].priority {
                        table.set(k, entry);
                        assert(mount_views(table@) =~= before.update(k as int, em));
                    }
                },
                None => {
                    table.push(entry);
                    assert(mount_views(table@) =~= before.push(em));
                },
            }
        }
        i = i + 1;
    }
    assert(views(ls@).take(ls.len() as int) == views(ls@));
    table
}

/// Space on one mounted filesystem.
#[derive(Debug)]
pub struct DiskUsage {
    pub mount_point: String,
    pub fs_type: String,
    pub total_bytes: u64,
    pub used_bytes: u64,
    pub available_bytes: u64,
}

/// Filesystems smaller than this are not listed.
pub const MIN_LISTED_BYTES: u64 = 1024 * 1024;

/// The space on a mount point from its block counts, each scaled by the
/// block size with wraparound; `None` for a filesystem under 1 MiB.
pub fn disk_usage(
    choice: &MountChoice,
    block_size: u64,
    blocks: u64,
    blocks_available: u64,
    blocks_free: u64,
) -> (res: Option<DiskUsage>)
    ensures
        ({
            let total = blocks.wrapping_mul(block_size);
            let free = blocks_free.wrapping_mul(block_size);
            if total < MIN_LISTED_BYTES {
                res is None
            } else {
                res matches Some(d) && d.mount_point@ == choice.mount_point@ && d.fs_type@
                    == choice.fs_type@ && d.total_bytes == total && d.available_bytes
                    == blocks_available.wrapping_mul(block_size) && d.used_bytes == (if total
                    >= free {
                    (total - free) as u64
                } else {
                    0u64
                })
            }
        }),
{
    let total = blocks.wrapping_mul(block_size);
    let available = blocks_available.wrapping_mul(block_size);
    let free = blocks_free.wrapping_mul(block_size);
    let used = total.saturating_sub(free);
    if total < MIN_LISTED_BYTES {
        return None;
    }
    Some(
        DiskUsage {
            mount_point: string_from_chars(&choice.mount_point),
            fs_type: string_from_chars(&choice.fs_type),
            total_bytes: total,
            used_bytes: used,
            available_bytes: available,
        },
    )
}

/// Whether `a` is listed before `b`: by the rank of its mount point, then
/// by the mount point's text.
pub open spec fn disk_before(a: DiskUsage, b: DiskUsage) -> bool {
    let ra = mount_rank(a.mount_point@);
    let rb = mount_rank(b.mount_point@);
    ra < rb || (ra == rb && text_lt(a.mount_point@, b.mount_point@))
}

proof fn lemma_disk_before_transitive(a: DiskUsage, b: DiskUsage, c: DiskUsage)
    requires
        disk_before(a, b),
        disk_before(b, c),
    ensures
        disk_before(a, c),
{
    if mount_rank(a.mount_point@) == mount_rank(b.mount_point@) && mount_rank(b.mount_point@)
        == mount_rank(c.mount_point@) {
        lemma_text_lt_transitive(a.mount_point@, b.mount_point@, c.mount_point@);
    }
}

proof fn lemma_disk_before_asymmetric(a: DiskUsage, b: DiskUsage)
    requires
        disk_before(a, b),
    ensures
        !disk_before(b, a),
{
    if mount_rank(a.mount_point@) == mount_rank(b.mount_point@) {
        lemma_text_lt_asymmetric(a.mount_point@, b.mount_point@);
    }
}

/// No disk is listed after one that should come after it.
pub open spec fn disks_sorted(s: Seq<DiskUsage>) -> bool {
    forall|i: int, j: int| 0 <= i < j < s.len() ==> !disk_before(#[trigger] s[j], #[trigger] s[i])
}

fn disk_less(a: &DiskUsage, b: &DiskUsage) -> (res: bool)
    ensures
        res == disk_before(*a, *b),
{
    let am = chars_of(a.mount_point.as_str());
    let bm = chars_of(b.mount_point.as_str());
    let ra = mount_priority(&am);
    let rb = mount_priority(&bm);
    ra < rb || (ra == rb && text_less(&am, &bm))
}

/// Orders disks by the rank of their mount point, then by mount point.
pub fn sort_disks(disks: Vec<DiskUsage>) -> (res: Vec<DiskUsage>)
    ensures
        res@.to_multiset() == disks@.to_multiset(),
        disks_sorted(res@),
{
    let mut rest = disks;
    let mut out: Vec<DiskUsage> = Vec::new();
    while rest.len() > 0
        invariant
            out@.to_multiset().add(rest@.to_multiset()) == disks@.to_multiset(),
            disks_sorted(out@),
        decreases rest.len(),
    {
        let ghost before_rest = rest@;
        let x = rest.pop().unwrap();
        assert(before_rest == rest@.push(x));
        let mut p: usize = 0;
        while p < out.len() && !disk_less(&x, &out[p])
            invariant
                p <= out.len(),
                forall|k: int| 0 <= k < p ==> !disk_before(x, out@[k]),
            decreases out.len() - p,
        {
            p = p + 1;
        }
        let ghost old_out = out@;
        out.insert(p, x);
        proof {
            assert(out@ == old_out.insert(p as int, x));
            assert forall|i: int, j: int| 0 <= i < j < out@.len() implies !disk_before(
                #[trigger] out@[j],
                #[trigger] out@[i],
            ) by {
                if j < p {
                    assert(out@[i] == old_out[i] && out@[j] == old_out[j]);
                } else if j == p {
                    assert(out@[j] == x && out@[i] == old_out[i]);
                } else if i < p {
                    assert(out@[i] == old_out[i] && out@[j] == old_out[j - 1]);
                } else if i == p {
                    assert(out@[i] == x && out@[j] == old_out[j - 1]);
                    assert(disk_before(x, old_out[p as int]));
                    if disk_before(old_out[j - 1], x) {
                        if j - 1 == p {
                            lemma_disk_before_asymmetric(x, old_out[p as int]);
                        } else {
                            lemma_disk_before_transitive(old_out[j - 1], x, old_out[p as int]);
                            assert(!disk_before(old_out[j - 1], old_out[p as int]));
                        }
                    }
                } else {
                    assert(out@[i] == old_out[i - 1] && out@[j] == old_out[j - 1]);
                }
            }
        }
    }
    out
}

/// No device appears twice in a table.
pub open spec fn devices_unique(table: Seq<MountModel>) -> bool {
    forall|i: int, j: int|
        0 <= i < j < table.len() ==> #[trigger] table[i].device != #[trigger] table[j].device
}

/// The mount points chosen from any mount table name each device once.
pub proof fn lemma_one_mount_per_device(ls: Seq<Seq<char>>)
    ensures
        devices_unique(mount_table(ls)),
    decreases ls.len(),
{
    if ls.len() > 0 {
        let prev = mount_table(ls.drop_last());
        lemma_one_mount_per_device(ls.drop_last());
        let ws = words(ls.last());
        if !(ws.len() < 3 || skipped_fs(ws[2]) || skipped_mount(ws[1])) {
            lemma_device_index(prev, ws[0]);
            let next = mount_table(ls);
            match device_index(prev, ws[0]) {
                Some(k) => {
                    assert forall|i: int, j: int|
                        0 <= i < j < next.len() implies #[trigger] next[i].device
                        != #[trigger] next[j].device by {
                        assert(next[i].device == prev[i].device);
                        assert(next[j].device == prev[j].device);
                    }
                },
                None => {
                    assert forall|i: int, j: int|
                        0 <= i < j < next.len() implies #[trigger] next[i].device
                        != #[trigger] next[j].device by {
                        if j == prev.len() {
                            assert(next[i] == prev[i]);
                        } else {
                            assert(next[i] == prev[i] && next[j] == prev[j]);
                        }
                    }
                },
            }
        }
    }
}

/// Whether a line of the mount table offers `device` at a mount point of
/// the given rank.
pub open spec fn offers(line: Seq<char>, device: Seq<char>, rank: u8) -> bool {
    let ws = words(line);
    &&& ws.len() >= 3
    &&& !skipped_fs(ws[2])
    &&& !skipped_mount(ws[1])
    &&& ws[0] == device
    &&& mount_rank(ws[1]) == rank
}

/// The mount point chosen for a device ranks no worse than any that the
/// table offers for it, and every offered device is listed.
pub proof fn lemma_best_mount_chosen(ls: Seq<Seq<char>>, k: int, device: Seq<char>, rank: u8)
    requires
        0 <= k < ls.len(),
        offers(ls[k], device, rank),
    ensures
        device_index(mount_table(ls), device) matches Some(d) && mount_table(ls)[d].priority
            <= rank,
    decreases ls.len(),
{
    let prev = mount_table(ls.drop_last());
    let next = mount_table(ls);
    let ws = words(ls.last());
    lemma_device_index(prev, device);
    lemma_device_index(next, device);
    let skipped = ws.len() < 3 || skipped_fs(ws[2]) || skipped_mount(ws[1]);
    if k < ls.len() - 1 {
        assert(ls.drop_last()[k] == ls[k]);
        lemma_best_mount_chosen(ls.drop_last(), k, device, rank);
        let d = device_index(prev, device)->0;
        if !skipped {
            lemma_device_index(prev, ws[0]);
            match device_index(prev, ws[0]) {
                Some(e) => {
                    assert(next[d].device == device);
                    assert(next[d].priority <= rank);
                    assert(forall|j: int| 0 <= j < d ==> next[j].device == prev[j].device);
                },
                None => {
                    assert(next[d] == prev[d]);
                    assert(forall|j: int| 0 <= j < d ==> next[j] == prev[j]);
                },
            }
            let x = device_index(next, device)->0;
            assert(x == d) by {
                if x < d {
                    assert(next[x].device == prev[x].device);
                } else if x > d {
                }
            }
        }
    } else {
        assert(ls.last() == ls[k]);
        assert(!skipped && ws[0] == device && mount_rank(ws[1]) == rank);
        match device_index(prev, device) {
            Some(e) => {
                assert(next[e].device == device);
                assert(next[e].priority <= rank);
                assert(forall|j: int| 0 <= j < e ==> next[j].device == prev[j].device);
                let x = device_index(next, device)->0;
                assert(x == e) by {
                    if x < e {
                        assert(next[x].device == prev[x].device);
                    }
                }
            },
            None => {
                assert(forall|j: int| 0 <= j < prev.len() ==> next[j] == prev[j]);
                assert(next[prev.len() as int].device == device);
                let x = device_index(next, device)->0;
                assert(x == prev.len()) by {
                    if x < prev.len() {
                        assert(next[x] == prev[x]);
                    }
                }
            },
        }
    }
}

/// The named mount points rank `/` first, then `/home`, `/mnt/userdata`,
/// `/var`, `/run` and `/tmp`; any other mount point under `/mnt/` ranks
/// 10, any other under `/var/` 15, and anything else 20.
pub proof fn lemma_mount_ranks(m: Seq<char>)
    ensures
        mount_rank("/"@) == 0,
        mount_rank("/home"@) == 1,
        mount_rank("/mnt/userdata"@) == 2,
        mount_rank("/var"@) == 3,
        mount_rank("/run"@) == 4,
        mount_rank("/tmp"@) == 5,
        m.len() >= 5 && m.take(5) == "/mnt/"@ && m != "/mnt/userdata"@ ==> mount_rank(m) == 10,
        m.len() >= 5 && m.take(5) == "/var/"@ ==> mount_rank(m) == 15,
        !(m.len() >= 5 && (m.take(5) == "/mnt/"@ || m.take(5) == "/var/"@)) && m != "/"@ && m
            != "/home"@ && m != "/var"@ && m != "/run"@ && m != "/tmp"@ ==> mount_rank(m) == 20,
{
    reveal_strlit("/");
    reveal_strlit("/home");
    reveal_strlit("/mnt/userdata");
    reveal_strlit("/var");
    reveal_strlit("/run");
    reveal_strlit("/tmp");
    reveal_strlit("/mnt/");
    reveal_strlit("/var/");
    assert("/"@.len() == 1);
    assert("/home"@.len() == 5);
    assert("/mnt/userdata"@.len() == 13);
    assert("/var"@.len() == 4);
    assert("/run"@.len() == 4);
    assert("/tmp"@.len() == 4);
    assert("/mnt/"@.len() == 5);
    assert("/var/"@.len() == 5);
    assert("/mnt/userdata"@.take(5) =~= "/mnt/"@);
    assert("/home"@ != "/"@);
    assert("/mnt/userdata"@ != "/"@ && "/mnt/userdata"@ != "/home"@);
    assert("/var"@ != "/"@ && "/var"@ != "/home"@ && "/var"@ != "/mnt/userdata"@);
    assert("/run"@[1] != "/var"@[1]);
    assert("/run"@ != "/"@ && "/run"@ != "/home"@ && "/run"@ != "/mnt/userdata"@ && "/run"@
        != "/var"@);
    assert("/tmp"@[1] != "/var"@[1] && "/tmp"@[1] != "/run"@[1]);
    assert("/tmp"@ != "/"@ && "/tmp"@ != "/home"@ && "/tmp"@ != "/mnt/userdata"@ && "/tmp"@
        != "/var"@ && "/tmp"@ != "/run"@);
    if m.len() >= 5 && m.take(5) == "/var/"@ {
        assert(m.take(5)[1] == m[1]);
        assert(m[1] == 'v');
        assert(m != "/"@ && m != "/home"@ && m != "/var"@ && m != "/run"@ && m != "/tmp"@);
        assert(m != "/mnt/userdata"@) by {
            if m == "/mnt/userdata"@ {
                assert(m[1] == 'm');
            }
        }
        assert(m.take(5) != "/mnt/"@) by {
            assert("/mnt/"@[1] == 'm');
        }
    }
    if m.len() >= 5 && m.take(5) == "/mnt/"@ && m != "/mnt/userdata"@ {
        assert(m.take(5)[1] == m[1]);
        assert(m[1] == 'm');
        assert(m != "/"@ && m != "/home"@ && m != "/var"@ && m != "/run"@ && m != "/tmp"@);
    }
}

/// Every entry of the chosen table carries the rank of its mount point.
pub proof fn lemma_priority_is_rank(ls: Seq<Seq<char>>)
    ensures
        forall|i: int|
            0 <= i < mount_table(ls).len() ==> #[trigger] mount_table(ls)[i].priority
                == mount_rank(mount_table(ls)[i].mount_point),
    decreases ls.len(),
{
    if ls.len() > 0 {
        lemma_priority_is_rank(ls.drop_last());
        let prev = mount_table(ls.drop_last());
        let ws = words(ls.last());
        if !(ws.len() < 3 || skipped_fs(ws[2]) || skipped_mount(ws[1])) {
            lemma_device_index(prev, ws[0]);
        }
        let next = mount_table(ls);
        assert forall|i: int| 0 <= i < next.len() implies #[trigger] next[i].priority
            == mount_rank(next[i].mount_point) by {
            if i < prev.len() {
                assert(prev[i].priority == mount_rank(prev[i].mount_point));
            }
        }
    }
}

/// A device offered at `/run` is never listed at `/tmp`: the mount point
/// chosen for it ranks at least as well as `/run`.
pub proof fn lemma_run_kept_over_tmp(ls: Seq<Seq<char>>, k: int, device: Seq<char>)
    requires
        0 <= k < ls.len(),
        offers(ls[k], device, mount_rank("/run"@)),
    ensures
        device_index(mount_table(ls), device) matches Some(d) && mount_table(ls)[d].mount_point
            != "/tmp"@ && mount_rank(mount_table(ls)[d].mount_point) <= mount_rank("/run"@),
{
    lemma_mount_ranks(Seq::empty());
    lemma_best_mount_chosen(ls, k, device, mount_rank("/run"@));
    lemma_priority_is_rank(ls);
    lemma_device_index(mount_table(ls), device);
    let d = device_index(mount_table(ls), device)->0;
    assert(mount_table(ls)[d].priority == mount_rank(mount_table(ls)[d].mount_point));
}

/// Disks are listed by the rank of their mount point, and at equal rank
/// by the mount point's text: a disk mounted at `/run` comes before one at
/// `/tmp`, and one at `/` before any other.
pub proof fn lemma_listing_order(a: DiskUsage, b: DiskUsage)
    ensures
        a.mount_point@ == "/run"@ && b.mount_point@ == "/tmp"@ ==> disk_before(a, b),
        a.mount_point@ == "/"@ && b.mount_point@ != "/"@ ==> disk_before(a, b),
        mount_rank(a.mount_point@) < mount_rank(b.mount_point@) ==> disk_before(a, b)
            && !disk_before(b, a),
        mount_rank(a.mount_point@) == mount_rank(b.mount_point@) && text_lt(
            a.mount_point@,
            b.mount_point@,
        ) ==> disk_before(a, b) && !disk_before(b, a),
{
    if mount_rank(a.mount_point@) == mount_rank(b.mount_point@) && text_lt(
        a.mount_point@,
        b.mount_point@,
    ) {
        lemma_text_lt_asymmetric(a.mount_point@, b.mount_point@);
    }
    lemma_mount_ranks(b.mount_point@);
    reveal_strlit("/");
    reveal_strlit("/home");
    reveal_strlit("/mnt/userdata");
    reveal_strlit("/var");
    reveal_strlit("/run");
    reveal_strlit("/tmp");
    reveal_strlit("/mnt/");
    reveal_strlit("/var/");
}

/// A line for one of the virtual filesystems (proc, sysfs, devtmpfs,
/// devpts, cgroup, cgroup2, pstore, bpf, tracefs, debugfs, securityfs,
/// configfs, fusectl, hugetlbfs, mqueue, rpc_pipefs, autofs, functionfs) or
/// for one of the kernel's mount points (/dev, /dev/pts, /sys, /proc,
/// /sys/kernel/config, /dev/usb-ffs/adb) changes nothing.
pub proof fn lemma_virtual_mounts_skipped(ls: Seq<Seq<char>>, line: Seq<char>)
    requires
        words(line).len() >= 3,
        ({
            let fs = words(line)[2];
            let m = words(line)[1];
            ||| fs == "proc"@
            ||| fs == "sysfs"@
            ||| fs == "devtmpfs"@
            ||| fs == "devpts"@
            ||| fs == "cgroup"@
            ||| fs == "cgroup2"@
            ||| fs == "pstore"@
            ||| fs == "bpf"@
            ||| fs == "tracefs"@
            ||| fs == "debugfs"@
            ||| fs == "securityfs"@
            ||| fs == "configfs"@
            ||| fs == "fusectl"@
            ||| fs == "hugetlbfs"@
            ||| fs == "mqueue"@
            ||| fs == "rpc_pipefs"@
            ||| fs == "autofs"@
            ||| fs == "functionfs"@
            ||| m == "/dev"@
            ||| m == "/dev/pts"@
            ||| m == "/sys"@
            ||| m == "/proc"@
            ||| m == "/sys/kernel/config"@
            ||| m == "/dev/usb-ffs/adb"@
        }),
    ensures
        mount_table(ls.push(line)) == mount_table(ls),
{
    assert(ls.push(line).drop_last() =~= ls);
}

/// A later line for a device already listed replaces its mount point only
/// where the new one ranks strictly better; at an equal or worse rank the
/// first mount point read stays.
pub proof fn lemma_first_of_equal_rank_stays(ls: Seq<Seq<char>>, line: Seq<char>, rank: u8)
    requires
        offers(line, words(line)[0], rank),
        device_index(mount_table(ls), words(line)[0]) is Some,
    ensures
        ({
            let d = device_index(mount_table(ls), words(line)[0])->0;
            let before = mount_table(ls);
            let after = mount_table(ls.push(line));
            &&& rank >= before[d].priority ==> after == before
            &&& rank < before[d].priority ==> after == before.update(
                d,
                MountModel {
                    device: words(line)[0],
                    mount_point: words(line)[1],
                    fs_type: words(line)[2],
                    priority: rank,
                },
            )
        }),
{
    assert(ls.push(line).drop_last() =~= ls);
}

} // verus!
