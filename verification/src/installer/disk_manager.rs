use crate::installer::commands::{append_steps, args1, args2, args3, attempt, attempt_step, cmd, command, plan_view, push_step, run, run_step, push_str, CommandModel, CommandSpec, PlanStep, PlanStepModel};
use crate::installer::storage_plan::{AutoPartitionPlan, AutoPartitionPlanModel, FilesystemType, FormatAction, FormatActionModel, LayoutModel, ManualCreatePartition, ManualPartitionRole, MountAction, MountActionModel, PartitionSpecModel, ResolvedInstallLayout, SwapAction, SwapActionModel};
use crate::text::{decimal, ends_with_ascii_digit, is_ascii_digit, lemma_filter_push, opt_view, owned, parse_unsigned, parse_unsigned_exec, split_newlines, split_newlines_exec, split_whitespace, starts_with, str_eq, u64_to_string, views, words};
use vstd::prelude::*;
use vstd::utf8::encode_utf8;

verus! {

// ---------------------------------------------------------------------------
// Block devices as `lsblk` reports them

/// The `RM` column of `lsblk`, which is a boolean or a number depending on
/// the version.
#[derive(Clone, Copy, Debug, PartialEq, Eq, Structural)]
pub enum RmFlag {
    Bool(bool),
    Int(u8),
}

impl RmFlag {
    pub open spec fn is_removable_spec(self) -> bool {
        match self {
            RmFlag::Bool(v) => v,
            RmFlag::Int(v) => v != 0,
        }
    }

    pub fn is_removable(&self) -> (r: bool)
        ensures
            r == self.is_removable_spec(),
    {
        match self {
            RmFlag::Bool(value) => *value,
            RmFlag::Int(value) => *value != 0,
        }
    }
}

#[derive(Debug)]
pub struct BlockDevice {
    pub name: String,
    pub size_bytes: u64,
    pub model: Option<String>,
    pub tran: Option<String>,
    pub rm: Option<RmFlag>,
    pub device_type: String,
}

#[derive(Clone, Debug, PartialEq, Eq)]
pub struct PartitionInfo {
    pub path: String,
    pub parent_disk: String,
    pub partition_number: u8,
    pub size_bytes: u64,
    pub fstype: Option<String>,
}

/// An internal drive: a whole disk, not flagged removable, not on USB.
pub open spec fn is_internal_spec(d: BlockDevice) -> bool {
    &&& d.device_type@ == "disk"@
    &&& !(d.rm matches Some(f) && f.is_removable_spec())
    &&& opt_view(d.tran) != Some("usb"@)
}

pub fn is_internal_device(device: &BlockDevice) -> (r: bool)
    ensures
        r == is_internal_spec(*device),
{
    if !str_eq(device.device_type.as_str(), "disk") {
        return false;
    }
    match &device.rm {
        Some(rm) => {
            if rm.is_removable() {
                return false;
            }
        },
        None => {},
    }
    match &device.tran {
        Some(t) => !str_eq(t.as_str(), "usb"),
        None => true,
    }
}

/// The whole disks among the devices `lsblk` listed.
pub fn get_block_devices(devices: Vec<BlockDevice>) -> (r: Vec<BlockDevice>)
    ensures
        r@ == devices@.filter(|d: BlockDevice| d.device_type@ == "disk"@),
{
    let ghost pred = |d: BlockDevice| d.device_type@ == "disk"@;
    let ghost all = devices@;
    let mut kept: Vec<BlockDevice> = Vec::new();
    for d in it: devices
        invariant
            it.seq() == all,
            pred == (|d: BlockDevice| d.device_type@ == "disk"@),
            kept@ == all.take(it.index() as int).filter(pred),
    {
        proof {
            assert(all.take(it.index() + 1) =~= all.take(it.index() as int).push(d));
            lemma_filter_push(all.take(it.index() as int), pred, d);
        }
        if str_eq(d.device_type.as_str(), "disk") {
            kept.push(d);
        }
    }
    assert(all.take(all.len() as int) =~= all);
    kept
}

/// The internal drives among the devices `lsblk` listed.
pub fn get_internal_block_devices(devices: Vec<BlockDevice>) -> (r: Vec<BlockDevice>)
    ensures
        r@ == devices@.filter(|d: BlockDevice| is_internal_spec(d)),
{
    let ghost pred = |d: BlockDevice| is_internal_spec(d);
    let ghost all = devices@;
    let mut kept: Vec<BlockDevice> = Vec::new();
    for d in it: devices
        invariant
            it.seq() == all,
            pred == (|d: BlockDevice| is_internal_spec(d)),
            kept@ == all.take(it.index() as int).filter(pred),
    {
        proof {
            assert(all.take(it.index() + 1) =~= all.take(it.index() as int).push(d));
            lemma_filter_push(all.take(it.index() as int), pred, d);
        }
        if is_internal_device(&d) {
            kept.push(d);
        }
    }
    assert(all.take(all.len() as int) =~= all);
    kept
}

// ---------------------------------------------------------------------------
// Partitions as `lsblk` reports them

pub struct PartitionInfoModel {
    pub path: Seq<char>,
    pub parent_disk: Seq<char>,
    pub partition_number: u8,
    pub size_bytes: u64,
    pub fstype: Option<Seq<char>>,
}

impl View for PartitionInfo {
    type V = PartitionInfoModel;

    open spec fn view(&self) -> PartitionInfoModel {
        PartitionInfoModel {
            path: self.path@,
            parent_disk: self.parent_disk@,
            partition_number: self.partition_number,
            size_bytes: self.size_bytes,
            fstype: opt_view(self.fstype),
        }
    }
}

pub open spec fn partition_views(v: Seq<PartitionInfo>) -> Seq<PartitionInfoModel> {
    v.map_values(|p: PartitionInfo| p@)
}

pub open spec fn unwrap_or_zero(o: Option<nat>) -> nat {
    match o {
        Some(v) => v,
        None => 0,
    }
}

/// The partition a line of `lsblk -b -r -o NAME,TYPE,PKNAME,PARTN,SIZE,FSTYPE`
/// describes, if it describes one: at least five fields, the second `part`.
/// A number that does not parse counts as 0.
pub open spec fn partition_from_words(w: Seq<Seq<char>>) -> Option<PartitionInfoModel> {
    if w.len() >= 5 && w[1] == "part"@ {
        Some(PartitionInfoModel {
            path: "/dev/"@ + w[0],
            parent_disk: "/dev/"@ + w[2],
            partition_number: unwrap_or_zero(parse_unsigned(w[3], 255)) as u8,
            size_bytes: unwrap_or_zero(parse_unsigned(w[4], u64::MAX as nat)) as u64,
            fstype: if w.len() >= 6 { Some(w[5]) } else { None },
        })
    } else {
        None
    }
}

pub open spec fn partitions_from_lines(lines: Seq<Seq<char>>) -> Seq<PartitionInfoModel>
    decreases lines.len(),
{
    if lines.len() == 0 {
        Seq::empty()
    } else {
        let rest = partitions_from_lines(lines.drop_last());
        match partition_from_words(words(lines.last())) {
            Some(p) => rest.push(p),
            None => rest,
        }
    }
}

/// The partitions listed in the raw output of
/// `lsblk -b -r -o NAME,TYPE,PKNAME,PARTN,SIZE,FSTYPE`.
pub open spec fn parse_partition_devices_spec(out: Seq<char>) -> Seq<PartitionInfoModel> {
    partitions_from_lines(split_newlines(out))
}

fn partition_from_line(line: &str) -> (r: Option<PartitionInfo>)
    ensures
        match r {
            Some(p) => partition_from_words(words(line@)) == Some(p@),
            None => partition_from_words(words(line@)) is None,
        },
{
    let fields = split_whitespace(line);
    if fields.len() < 5 || !str_eq(fields[1].as_str(), "part") {
        return None;
    }
    let number = match parse_unsigned_exec(fields[3].as_str(), 255) {
        Some(v) => v,
        None => 0,
    };
    let size = match parse_unsigned_exec(fields[4].as_str(), u64::MAX) {
        Some(v) => v,
        None => 0,
    };
    let fstype = if fields.len() >= 6 { Some(fields[5].clone()) } else { None };
    Some(PartitionInfo {
        path: "/dev/".to_string().concat(fields[0].as_str()),
        parent_disk: "/dev/".to_string().concat(fields[2].as_str()),
        partition_number: number as u8,
        size_bytes: size,
        fstype,
    })
}

/// Reads the partitions out of the raw output of
/// `lsblk -b -r -o NAME,TYPE,PKNAME,PARTN,SIZE,FSTYPE`.
pub fn parse_partition_devices(output: &str) -> (r: Vec<PartitionInfo>)
    ensures
        partition_views(r@) == parse_partition_devices_spec(output@),
{
    let lines = split_newlines_exec(output);
    let ghost lv = views(lines@);
    let mut parts: Vec<PartitionInfo> = Vec::new();
    let n = lines.len();
    let mut i: usize = 0;
    while i < n
        invariant
            n == lines@.len(),
            lv == views(lines@),
            i <= n,
            partition_views(parts@) == partitions_from_lines(lv.take(i as int)),
        decreases n - i,
    {
        assert(lv.take(i + 1).drop_last() =~= lv.take(i as int));
        assert(lv[i as int] == lines@[i as int]@);
        match partition_from_line(lines[i].as_str()) {
            Some(p) => {
                let ghost prev = parts@;
                parts.push(p);
                assert(parts@ =~= prev.push(p));
                assert(partition_views(parts@) =~= partition_views(prev).push(p@));
            },
            None => {},
        }
        i = i + 1;
    }
    assert(lv.take(n as int) =~= lv);
    parts
}

/// The partitions whose parent disk is `disk_path`.
pub fn get_partitions_for_disk(partitions: Vec<PartitionInfo>, disk_path: &str) -> (r: Vec<PartitionInfo>)
    ensures
        r@ == partitions@.filter(|p: PartitionInfo| p.parent_disk@ == disk_path@),
{
    let ghost pred = |p: PartitionInfo| p.parent_disk@ == disk_path@;
    let ghost all = partitions@;
    let mut kept: Vec<PartitionInfo> = Vec::new();
    for p in it: partitions
        invariant
            it.seq() == all,
            pred == (|p: PartitionInfo| p.parent_disk@ == disk_path@),
            kept@ == all.take(it.index() as int).filter(pred),
    {
        proof {
            assert(all.take(it.index() + 1) =~= all.take(it.index() as int).push(p));
            lemma_filter_push(all.take(it.index() as int), pred, p);
        }
        if str_eq(p.parent_disk.as_str(), disk_path) {
            kept.push(p);
        }
    }
    assert(all.take(all.len() as int) =~= all);
    kept
}

/// The partitions whose parent disk is one of `allowed_disks`.
pub fn get_partitions_for_managed_disks(partitions: Vec<PartitionInfo>, allowed_disks: &[String]) -> (r: Vec<PartitionInfo>)
    ensures
        r@ == partitions@.filter(|p: PartitionInfo| views(allowed_disks@).contains(p.parent_disk@)),
{
    let ghost pred = |p: PartitionInfo| views(allowed_disks@).contains(p.parent_disk@);
    let ghost all = partitions@;
    let mut kept: Vec<PartitionInfo> = Vec::new();
    for p in it: partitions
        invariant
            it.seq() == all,
            pred == (|p: PartitionInfo| views(allowed_disks@).contains(p.parent_disk@)),
            kept@ == all.take(it.index() as int).filter(pred),
    {
        proof {
            assert(all.take(it.index() + 1) =~= all.take(it.index() as int).push(p));
            lemma_filter_push(all.take(it.index() as int), pred, p);
        }
        if slice_contains_string(allowed_disks, &p.parent_disk) {
            kept.push(p);
        }
    }
    assert(all.take(all.len() as int) =~= all);
    kept
}

fn slice_contains_string(v: &[String], s: &String) -> (r: bool)
    ensures
        r == views(v@).contains(s@),
{
    let n = v.len();
    let mut i: usize = 0;
    while i < n
        invariant
            n == v@.len(),
            i <= n,
            forall|j: int| 0 <= j < i ==> v@[j]@ != s@,
        decreases n - i,
    {
        if v[i] == *s {
            assert(views(v@)[i as int] == s@);
            return true;
        }
        i = i + 1;
    }
    assert forall|j: int| 0 <= j < views(v@).len() implies views(v@)[j] != s@ by {
        assert(views(v@)[j] == v@[j]@);
    }
    false
}

// ---------------------------------------------------------------------------
// Sizes and names

pub open spec fn gib(bytes: nat) -> nat {
    bytes / (1024 * 1024 * 1024)
}

/// Whole GiB (2^30 bytes) in `bytes`, rounded down.
pub fn bytes_to_gib(bytes: u64) -> (r: u64)
    ensures
        r as nat == gib(bytes as nat),
{
    bytes / (1024 * 1024 * 1024)
}

/// A size shown as whole GiB, such as `128 GiB`.
pub fn human_gib_label(bytes: u64) -> (r: String)
    ensures
        r@ == decimal(gib(bytes as nat)) + " GiB"@,
{
    u64_to_string(bytes_to_gib(bytes)).concat(" GiB")
}

/// The device path of partition `n` of `drive`: a `p` separates the number
/// when the drive name itself ends in a digit (`/dev/nvme0n1p1`, `/dev/sda1`).
pub open spec fn partition_path(drive: Seq<char>, n: nat) -> Seq<char> {
    if drive.len() > 0 && is_ascii_digit(drive.last()) {
        drive + seq!['p'] + decimal(n)
    } else {
        drive + decimal(n)
    }
}

pub fn partition_device_path(drive: &str, partition: u8) -> (r: String)
    ensures
        r@ == partition_path(drive@, partition as nat),
{
    let suffix = u64_to_string(partition as u64);
    proof {
        reveal_strlit("p");
    }
    if ends_with_ascii_digit(drive) {
        owned(drive).concat("p").concat(suffix.as_str())
    } else {
        owned(drive).concat(suffix.as_str())
    }
}

/// Whether `path` is the device path of one of the partitions of `disk`:
/// partition `n` of it for some number `n` from 1 to 255. A path that merely
/// starts with the disk's path (`/dev/sdab1` beside `/dev/sda`) is not.
pub open spec fn is_partition_of(path: Seq<char>, disk: Seq<char>) -> bool {
    exists|n: u8| n >= 1 && path == #[trigger] partition_path(disk, n as nat)
}

/// Whether a partition path is one of the partitions of a disk.
pub fn partition_belongs_to_disk(partition_path: &str, disk_path: &str) -> (r: bool)
    ensures
        r == is_partition_of(partition_path@, disk_path@),
{
    let mut n: u8 = 1;
    loop
        invariant
            1 <= n,
            forall|k: u8| 1 <= k < n ==> partition_path@ != #[trigger] crate::installer::disk_manager::partition_path(disk_path@, k as nat),
        decreases 255 - n,
    {
        let candidate = partition_device_path(disk_path, n);
        if str_eq(candidate.as_str(), partition_path) {
            return true;
        }
        if n == 255 {
            assert forall|k: u8| k >= 1 implies partition_path@ != #[trigger] crate::installer::disk_manager::partition_path(disk_path@, k as nat) by {
                if k == 255 {
                } else {
                    assert(k < n);
                }
            }
            return false;
        }
        n = n + 1;
    }
}

/// Whether a partition path is one of the partitions of the managed disks.
pub fn partition_belongs_to_managed_disks(partition_path: &str, allowed_disks: &[String]) -> (r: bool)
    ensures
        r == exists|i: int| 0 <= i < allowed_disks@.len() && #[trigger] is_partition_of(partition_path@, allowed_disks@[i]@),
{
    let n = allowed_disks.len();
    let mut i: usize = 0;
    while i < n
        invariant
            n == allowed_disks@.len(),
            i <= n,
            forall|j: int| 0 <= j < i ==> !#[trigger] is_partition_of(partition_path@, allowed_disks@[j]@),
        decreases n - i,
    {
        if partition_belongs_to_disk(partition_path, allowed_disks[i].as_str()) {
            return true;
        }
        i = i + 1;
    }
    false
}

// ---------------------------------------------------------------------------
// Choosing a partition number

/// Whether partition number `n` is taken on `disk`: by an existing partition
/// that is not pending deletion (numbers of 0 are unknown and ignored), or by
/// a pending create.
pub open spec fn number_used(
    disk: Seq<char>,
    existing: Seq<PartitionInfo>,
    pending_creates: Seq<ManualCreatePartition>,
    pending_deletes: Seq<String>,
    n: u8,
) -> bool {
    ||| exists|i: int| 0 <= i < existing.len() && #[trigger] existing[i].partition_number == n
        && existing[i].parent_disk@ == disk && !views(pending_deletes).contains(existing[i].path@)
        && existing[i].partition_number > 0
    ||| exists|j: int| 0 <= j < pending_creates.len() && #[trigger] pending_creates[j].partition_number == n
        && pending_creates[j].disk@ == disk
}

/// The smallest free GPT partition number (1 to 127) on `disk`.
pub fn next_available_partition_number(
    disk: &str,
    existing: &[PartitionInfo],
    pending_creates: &[ManualCreatePartition],
    pending_deletes: &[String],
) -> (r: Result<u8, String>)
    ensures
        match r {
            Ok(n) => {
                &&& 1 <= n <= 127
                &&& !number_used(disk@, existing@, pending_creates@, pending_deletes@, n)
                &&& forall|k: u8| 1 <= k < n ==> number_used(disk@, existing@, pending_creates@, pending_deletes@, k)
            },
            Err(e) => {
                &&& forall|k: u8| 1 <= k <= 127 ==> number_used(disk@, existing@, pending_creates@, pending_deletes@, k)
                &&& e@ == "No free GPT partition numbers remain on "@ + disk@
            },
        },
{
    let mut taken: Vec<u8> = Vec::new();
    let n = existing.len();
    let mut i: usize = 0;
    while i < n
        invariant
            n == existing@.len(),
            i <= n,
            forall|k: u8| #[trigger] taken@.contains(k) <==> exists|j: int| 0 <= j < i && #[trigger] existing@[j].partition_number == k
                && existing@[j].parent_disk@ == disk@ && !views(pending_deletes@).contains(existing@[j].path@)
                && existing@[j].partition_number > 0,
        decreases n - i,
    {
        let part = &existing[i];
        let ghost prev = taken@;
        if str_eq(part.parent_disk.as_str(), disk) && !slice_contains_string(pending_deletes, &part.path)
            && part.partition_number > 0 {
            taken.push(part.partition_number);
            assert(taken@ == prev.push(part.partition_number));
            assert(taken@[prev.len() as int] == part.partition_number);
        }
        assert forall|k: u8| #[trigger] taken@.contains(k) <==> exists|j: int| 0 <= j < i + 1 && #[trigger] existing@[j].partition_number == k
            && existing@[j].parent_disk@ == disk@ && !views(pending_deletes@).contains(existing@[j].path@)
            && existing@[j].partition_number > 0 by {
            if taken@.contains(k) {
                let t = choose|t: int| 0 <= t < taken@.len() && taken@[t] == k;
                if t < prev.len() {
                    assert(prev[t] == k);
                    assert(prev.contains(k));
                }
            }
            if prev.contains(k) {
                let t = choose|t: int| 0 <= t < prev.len() && prev[t] == k;
                assert(taken@[t] == k);
            }
        }
        i = i + 1;
    }
    let ghost from_existing = taken@;
    let m = pending_creates.len();
    let mut j: usize = 0;
    while j < m
        invariant
            m == pending_creates@.len(),
            j <= m,
            forall|k: u8| #[trigger] taken@.contains(k) <==> (from_existing.contains(k) || exists|t: int| 0 <= t < j
                && #[trigger] pending_creates@[t].partition_number == k && pending_creates@[t].disk@ == disk@),
        decreases m - j,
    {
        let action = &pending_creates[j];
        let ghost prev = taken@;
        if str_eq(action.disk.as_str(), disk) {
            taken.push(action.partition_number);
            assert(taken@[prev.len() as int] == action.partition_number);
        }
        assert forall|k: u8| #[trigger] taken@.contains(k) <==> (from_existing.contains(k) || exists|t: int| 0 <= t < j + 1
            && #[trigger] pending_creates@[t].partition_number == k && pending_creates@[t].disk@ == disk@) by {
            if taken@.contains(k) {
                let t = choose|t: int| 0 <= t < taken@.len() && taken@[t] == k;
                if t < prev.len() {
                    assert(prev[t] == k);
                    assert(prev.contains(k));
                }
            }
            if prev.contains(k) {
                let t = choose|t: int| 0 <= t < prev.len() && prev[t] == k;
                assert(taken@[t] == k);
            }
        }
        j = j + 1;
    }
    let mut number: u8 = 1;
    while number <= 127
        invariant
            1 <= number <= 128,
            forall|k: u8| #[trigger] taken@.contains(k) <==> number_used(disk@, existing@, pending_creates@, pending_deletes@, k),
            forall|k: u8| 1 <= k < number ==> #[trigger] number_used(disk@, existing@, pending_creates@, pending_deletes@, k),
        decreases 128 - number,
    {
        if !u8_vec_contains(&taken, number) {
            return Ok(number);
        }
        number = number + 1;
    }
    Err("No free GPT partition numbers remain on ".to_string().concat(disk))
}

fn u8_vec_contains(v: &Vec<u8>, x: u8) -> (r: bool)
    ensures
        r == v@.contains(x),
{
    let n = v.len();
    let mut i: usize = 0;
    while i < n
        invariant
            n == v@.len(),
            i <= n,
            forall|j: int| 0 <= j < i ==> v@[j] != x,
        decreases n - i,
    {
        if v[i] == x {
            return true;
        }
        i = i + 1;
    }
    false
}

// ---------------------------------------------------------------------------
// Manual partition commands

pub open spec fn role_gpt_label(role: ManualPartitionRole) -> Seq<char> {
    match role {
        ManualPartitionRole::Efi => "efi"@,
        ManualPartitionRole::Root => "root"@,
        ManualPartitionRole::Home => "home"@,
        ManualPartitionRole::Swap => "swap"@,
    }
}

/// The `sgdisk` command that creates a planned partition: its number, its
/// size (`0`, the rest of the disk, or `+<n>G`), its type code and its
/// lowercase role name as label.
pub open spec fn create_partition_spec(a: ManualCreatePartition) -> CommandModel {
    let number = decimal(a.partition_number as nat);
    let size = if a.use_remaining {
        "0"@
    } else {
        "+"@ + decimal(unwrap_or_zero(match a.size_gib { Some(v) => Some(v as nat), None => None })) + "G"@
    };
    cmd(
        "sgdisk"@,
        seq![
            "-n"@,
            number + ":0:"@ + size,
            "-t"@,
            number + ":"@ + a.role.gpt_type_spec(),
            "-c"@,
            number + ":"@ + role_gpt_label(a.role),
            a.disk@,
        ],
        "Failed to create "@ + a.role.label_spec() + " partition on "@ + a.disk@,
    )
}

fn role_gpt_label_exec(role: &ManualPartitionRole) -> (r: &'static str)
    ensures
        r@ == role_gpt_label(*role),
{
    match role {
        ManualPartitionRole::Efi => "efi",
        ManualPartitionRole::Root => "root",
        ManualPartitionRole::Home => "home",
        ManualPartitionRole::Swap => "swap",
    }
}

pub fn create_manual_partition(action: &ManualCreatePartition) -> (r: CommandSpec)
    ensures
        r@ == create_partition_spec(*action),
{
    let number = u64_to_string(action.partition_number as u64);
    let size = if action.use_remaining {
        "0".to_string()
    } else {
        let gib = match action.size_gib {
            Some(v) => v,
            None => 0,
        };
        "+".to_string().concat(u64_to_string(gib).as_str()).concat("G")
    };
    let mut args: Vec<String> = Vec::new();
    args.push("-n".to_string());
    args.push(number.clone().concat(":0:").concat(size.as_str()));
    args.push("-t".to_string());
    args.push(number.clone().concat(":").concat(action.role.gpt_type()));
    args.push("-c".to_string());
    args.push(number.concat(":").concat(role_gpt_label_exec(&action.role)));
    args.push(action.disk.clone());
    assert(views(args@) =~= create_partition_spec(*action).args);
    command(
        "sgdisk",
        args,
        "Failed to create ".to_string().concat(action.role.label()).concat(" partition on ").concat(
            action.disk.as_str(),
        ),
    )
}

/// The index of the first partition whose path is `path`, or -1.
pub open spec fn index_of_path(parts: Seq<PartitionInfo>, path: Seq<char>) -> int
    decreases parts.len(),
{
    if parts.len() == 0 {
        -1
    } else {
        let k = index_of_path(parts.drop_last(), path);
        if k >= 0 {
            k
        } else if parts.last().path@ == path {
            parts.len() - 1
        } else {
            -1
        }
    }
}

pub open spec fn delete_partition_spec(
    partition_path: Seq<char>,
    allowed_disks: Seq<String>,
    partitions: Seq<PartitionInfo>,
) -> Result<CommandModel, Seq<char>> {
    if !(exists|i: int| 0 <= i < allowed_disks.len() && #[trigger] is_partition_of(partition_path, allowed_disks[i]@)) {
        Err("Partition "@ + partition_path + " is outside the selected install/home disks."@)
    } else if index_of_path(partitions, partition_path) < 0 {
        Err("Partition "@ + partition_path + " was not found."@)
    } else {
        let p = partitions[index_of_path(partitions, partition_path)];
        Ok(cmd(
            "sgdisk"@,
            seq!["--delete"@, decimal(p.partition_number as nat), p.parent_disk@],
            "Failed to delete "@ + partition_path,
        ))
    }
}

/// The `sgdisk` command that deletes a partition, which must be one of the
/// partitions of the managed disks and be among the listed partitions.
pub fn delete_partition(partition_path: &str, allowed_disks: &[String], partitions: &[PartitionInfo]) -> (r: Result<CommandSpec, String>)
    ensures
        match r {
            Ok(c) => delete_partition_spec(partition_path@, allowed_disks@, partitions@) == Ok::<CommandModel, Seq<char>>(c@),
            Err(e) => delete_partition_spec(partition_path@, allowed_disks@, partitions@) == Err::<CommandModel, Seq<char>>(e@),
        },
{
    if !partition_belongs_to_managed_disks(partition_path, allowed_disks) {
        return Err(
            "Partition ".to_string().concat(partition_path).concat(" is outside the selected install/home disks."),
        );
    }
    let n = partitions.len();
    let mut i: usize = 0;
    while i < n
        invariant
            n == partitions@.len(),
            i <= n,
            index_of_path(partitions@.take(i as int), partition_path@) == -1,
            exists|k: int| 0 <= k < allowed_disks@.len() && #[trigger] is_partition_of(partition_path@, allowed_disks@[k]@),
        decreases n - i,
    {
        assert(partitions@.take(i + 1).drop_last() =~= partitions@.take(i as int));
        if str_eq(partitions[i].path.as_str(), partition_path) {
            proof {
                lemma_index_of_path_prefix(partitions@, partition_path@, i as int);
            }
            let part = &partitions[i];
            let mut args: Vec<String> = Vec::new();
            args.push("--delete".to_string());
            args.push(u64_to_string(part.partition_number as u64));
            args.push(part.parent_disk.clone());
            assert(views(args@) =~= seq!["--delete"@, decimal(part.partition_number as nat), part.parent_disk@]);
            assert(index_of_path(partitions@, partition_path@) == i);
            assert(exists|k: int| 0 <= k < allowed_disks@.len() && #[trigger] is_partition_of(partition_path@, allowed_disks@[k]@));
            return Ok(command("sgdisk", args, "Failed to delete ".to_string().concat(partition_path)));
        }
        i = i + 1;
    }
    assert(partitions@.take(n as int) =~= partitions@);
    Err("Partition ".to_string().concat(partition_path).concat(" was not found."))
}

proof fn lemma_index_of_path_prefix(parts: Seq<PartitionInfo>, path: Seq<char>, i: int)
    requires
        0 <= i < parts.len(),
        index_of_path(parts.take(i), path) == -1,
        parts[i].path@ == path,
    ensures
        index_of_path(parts, path) == i,
    decreases parts.len(),
{
    if i < parts.len() - 1 {
        assert(parts.drop_last().take(i) =~= parts.take(i));
        lemma_index_of_path_prefix(parts.drop_last(), path, i);
    } else {
        assert(parts.drop_last() =~= parts.take(i));
    }
}

// ---------------------------------------------------------------------------
// The fixed three-partition scheme

#[derive(Debug)]
pub struct PartitionPlan {
    pub drive: String,
    pub efi_gb: u64,
    pub swap_gb: u64,
    pub fs_type: String,
}

impl PartitionPlan {
    /// A plan with a 1 GB EFI partition.
    pub fn new(drive: String, swap_gb: u64, fs_type: String) -> (r: Self)
        ensures
            r.drive == drive,
            r.efi_gb == 1,
            r.swap_gb == swap_gb,
            r.fs_type == fs_type,
    {
        PartitionPlan { drive, efi_gb: 1, swap_gb, fs_type }
    }
}

pub open spec fn execute_partitioning_spec(drive: Seq<char>, swap_gb: u64, fs_type: Seq<char>) -> Result<Seq<PlanStepModel>, Seq<char>> {
    if fs_type != "xfs"@ && fs_type != "ext4"@ {
        Err("Unsupported filesystem '"@ + fs_type + "'. Supported values: xfs, ext4."@)
    } else {
        let p1 = partition_path(drive, 1);
        let p2 = partition_path(drive, 2);
        let p3 = partition_path(drive, 3);
        Ok(seq![
            run("sgdisk"@, seq!["--zap-all"@, drive], "Failed to wipe disk table"@),
            run("sgdisk"@, seq![
                "-n"@, "1:0:+1G"@, "-t"@, "1:ef00"@, "-c"@, "1:boot"@,
                "-n"@, "2:0:+"@ + decimal(swap_gb as nat) + "G"@, "-t"@, "2:8200"@, "-c"@, "2:swap"@,
                "-n"@, "3:0:0"@, "-t"@, "3:8300"@, "-c"@, "3:root"@,
                drive,
            ], "Failed to create GPT partitions with sgdisk"@),
            run("mkfs.fat"@, seq!["-F"@, "32"@, p1], "Failed to format EFI partition"@),
            run("mkswap"@, seq![p2], "Failed to initialize swap partition"@),
            run("swapon"@, seq![p2], "Failed to activate swap partition"@),
            if fs_type == "xfs"@ {
                run("mkfs.xfs"@, seq!["-f"@, p3], "Failed to format root partition as XFS"@)
            } else {
                run("mkfs.ext4"@, seq!["-F"@, p3], "Failed to format root partition as EXT4"@)
            },
        ])
    }
}

/// The commands that wipe `drive` and give it a 1 GiB EFI partition, a swap
/// partition of `swap_gb` GiB and a root partition on the rest, formatted:
/// only `xfs` and `ext4` roots are accepted.
pub fn execute_partitioning(drive: &str, swap_gb: u64, fs_type: &str) -> (r: Result<Vec<PlanStep>, String>)
    ensures
        match r {
            Ok(p) => execute_partitioning_spec(drive@, swap_gb, fs_type@) == Ok::<Seq<PlanStepModel>, Seq<char>>(plan_view(p@)),
            Err(e) => execute_partitioning_spec(drive@, swap_gb, fs_type@) == Err::<Seq<PlanStepModel>, Seq<char>>(e@),
        },
{
    let xfs = str_eq(fs_type, "xfs");
    if !xfs && !str_eq(fs_type, "ext4") {
        return Err(
            "Unsupported filesystem '".to_string().concat(fs_type).concat("'. Supported values: xfs, ext4."),
        );
    }
    let mut plan: Vec<PlanStep> = Vec::new();
    push_step(&mut plan, run_step("sgdisk", args2("--zap-all", drive), "Failed to wipe disk table".to_string()));
    let swap_spec = "2:0:+".to_string().concat(u64_to_string(swap_gb).as_str()).concat("G");
    let mut args: Vec<String> = Vec::new();
    push_str(&mut args, "-n");
    push_str(&mut args, "1:0:+1G");
    push_str(&mut args, "-t");
    push_str(&mut args, "1:ef00");
    push_str(&mut args, "-c");
    push_str(&mut args, "1:boot");
    push_str(&mut args, "-n");
    push_str(&mut args, swap_spec.as_str());
    push_str(&mut args, "-t");
    push_str(&mut args, "2:8200");
    push_str(&mut args, "-c");
    push_str(&mut args, "2:swap");
    push_str(&mut args, "-n");
    push_str(&mut args, "3:0:0");
    push_str(&mut args, "-t");
    push_str(&mut args, "3:8300");
    push_str(&mut args, "-c");
    push_str(&mut args, "3:root");
    push_str(&mut args, drive);
    assert(views(args@) =~= seq![
        "-n"@, "1:0:+1G"@, "-t"@, "1:ef00"@, "-c"@, "1:boot"@,
        "-n"@, "2:0:+"@ + decimal(swap_gb as nat) + "G"@, "-t"@, "2:8200"@, "-c"@, "2:swap"@,
        "-n"@, "3:0:0"@, "-t"@, "3:8300"@, "-c"@, "3:root"@,
        drive@,
    ]);
    push_step(&mut plan, run_step("sgdisk", args, "Failed to create GPT partitions with sgdisk".to_string()));
    let p1 = partition_device_path(drive, 1);
    let p2 = partition_device_path(drive, 2);
    let p3 = partition_device_path(drive, 3);
    push_step(&mut plan, run_step("mkfs.fat", args3("-F", "32", p1.as_str()), "Failed to format EFI partition".to_string()));
    push_step(&mut plan, run_step("mkswap", args1(p2.as_str()), "Failed to initialize swap partition".to_string()));
    push_step(&mut plan, run_step("swapon", args1(p2.as_str()), "Failed to activate swap partition".to_string()));
    if xfs {
        push_step(&mut plan, run_step("mkfs.xfs", args2("-f", p3.as_str()), "Failed to format root partition as XFS".to_string()));
    } else {
        push_step(&mut plan, run_step("mkfs.ext4", args2("-F", p3.as_str()), "Failed to format root partition as EXT4".to_string()));
    }
    assert(plan_view(plan@) =~= execute_partitioning_spec(drive@, swap_gb, fs_type@)->Ok_0);
    Ok(plan)
}

// ---------------------------------------------------------------------------
// Carrying out a resolved layout

pub open spec fn size_end(size: Option<u64>) -> Seq<char> {
    match size {
        Some(g) => "+"@ + decimal(g as nat) + "G"@,
        None => "0"@,
    }
}

/// The `sgdisk` arguments that create one partition of an automatic plan.
pub open spec fn partition_args(p: PartitionSpecModel) -> Seq<Seq<char>> {
    let i = decimal(p.index as nat);
    seq!["-n"@, i + ":0:"@ + size_end(p.size_gib), "-t"@, i + ":"@ + p.partition_type, "-c"@, i + ":"@ + p.label]
}

pub open spec fn all_partition_args(ps: Seq<PartitionSpecModel>) -> Seq<Seq<char>>
    decreases ps.len(),
{
    if ps.len() == 0 {
        Seq::empty()
    } else {
        all_partition_args(ps.drop_last()) + partition_args(ps.last())
    }
}

/// Wipe the disk's partition table, then create all planned partitions in
/// one `sgdisk` call.
pub open spec fn auto_partition_steps(plan: AutoPartitionPlanModel) -> Seq<PlanStepModel> {
    seq![
        run("sgdisk"@, seq!["--zap-all"@, plan.disk], "Failed to wipe disk table on "@ + plan.disk),
        run("sgdisk"@, all_partition_args(plan.partitions).push(plan.disk), "Failed to partition "@ + plan.disk),
    ]
}

pub fn apply_auto_partition(plan: &AutoPartitionPlan) -> (r: Vec<PlanStep>)
    ensures
        plan_view(r@) == auto_partition_steps(plan@),
{
    let ghost pv = plan@;
    let mut steps: Vec<PlanStep> = Vec::new();
    push_step(
        &mut steps,
        run_step("sgdisk", args2("--zap-all", plan.disk.as_str()), "Failed to wipe disk table on ".to_string().concat(plan.disk.as_str())),
    );
    let mut args: Vec<String> = Vec::new();
    let n = plan.partitions.len();
    let mut i: usize = 0;
    while i < n
        invariant
            n == plan.partitions@.len(),
            pv == plan@,
            i <= n,
            views(args@) == all_partition_args(pv.partitions.take(i as int)),
        decreases n - i,
    {
        let part = &plan.partitions[i];
        let index = u64_to_string(part.index as u64);
        let end = match part.size_gib {
            Some(size) => "+".to_string().concat(u64_to_string(size).as_str()).concat("G"),
            None => "0".to_string(),
        };
        push_str(&mut args, "-n");
        push_str(&mut args, index.clone().concat(":0:").concat(end.as_str()).as_str());
        push_str(&mut args, "-t");
        push_str(&mut args, index.clone().concat(":").concat(part.partition_type).as_str());
        push_str(&mut args, "-c");
        push_str(&mut args, index.concat(":").concat(part.label).as_str());
        assert(pv.partitions.take(i + 1).drop_last() =~= pv.partitions.take(i as int));
        assert(pv.partitions[i as int] == part@);
        assert(views(args@) =~= all_partition_args(pv.partitions.take(i + 1)));
        i = i + 1;
    }
    assert(pv.partitions.take(n as int) =~= pv.partitions);
    push_str(&mut args, plan.disk.as_str());
    push_step(&mut steps, run_step("sgdisk", args, "Failed to partition ".to_string().concat(plan.disk.as_str())));
    assert(plan_view(steps@) =~= auto_partition_steps(pv));
    steps
}

/// The commands that put filesystem `fs` on `device` (a swap partition is
/// also activated).
pub open spec fn format_steps(device: Seq<char>, fs: FilesystemType) -> Seq<PlanStepModel> {
    match fs {
        FilesystemType::Fat32 => seq![run("mkfs.fat"@, seq!["-F"@, "32"@, device], "Failed to format "@ + device + " as FAT32"@)],
        FilesystemType::Ext4 => seq![run("mkfs.ext4"@, seq!["-F"@, device], "Failed to format "@ + device + " as EXT4"@)],
        FilesystemType::Xfs => seq![run("mkfs.xfs"@, seq!["-f"@, device], "Failed to format "@ + device + " as XFS"@)],
        FilesystemType::Swap => seq![
            run("mkswap"@, seq![device], "Failed to create swap signature on "@ + device),
            run("swapon"@, seq![device], "Failed to activate swap on "@ + device),
        ],
    }
}

pub fn format_partition(device: &str, fs: &FilesystemType) -> (r: Vec<PlanStep>)
    ensures
        plan_view(r@) == format_steps(device@, *fs),
{
    let mut steps: Vec<PlanStep> = Vec::new();
    match fs {
        FilesystemType::Fat32 => {
            push_step(&mut steps, run_step("mkfs.fat", args3("-F", "32", device), "Failed to format ".to_string().concat(device).concat(" as FAT32")));
        },
        FilesystemType::Ext4 => {
            push_step(&mut steps, run_step("mkfs.ext4", args2("-F", device), "Failed to format ".to_string().concat(device).concat(" as EXT4")));
        },
        FilesystemType::Xfs => {
            push_step(&mut steps, run_step("mkfs.xfs", args2("-f", device), "Failed to format ".to_string().concat(device).concat(" as XFS")));
        },
        FilesystemType::Swap => {
            push_step(&mut steps, run_step("mkswap", args1(device), "Failed to create swap signature on ".to_string().concat(device)));
            push_step(&mut steps, run_step("swapon", args1(device), "Failed to activate swap on ".to_string().concat(device)));
        },
    }
    assert(plan_view(steps@) =~= format_steps(device@, *fs));
    steps
}

/// `mkdir -p` of a mount target.
pub open spec fn mount_target_step(target: Seq<char>) -> PlanStepModel {
    run(
        "mkdir"@,
        seq!["-p"@, target],
        if target == "/mnt"@ { "Failed to create /mnt"@ } else { "Failed to create mount target "@ + target },
    )
}

pub fn ensure_mount_target(target: &str) -> (r: PlanStep)
    ensures
        r@ == mount_target_step(target@),
{
    if str_eq(target, "/mnt") {
        return run_step("mkdir", args2("-p", "/mnt"), "Failed to create /mnt".to_string());
    }
    run_step("mkdir", args2("-p", target), "Failed to create mount target ".to_string().concat(target))
}

pub open spec fn clear_steps() -> Seq<PlanStepModel> {
    seq![
        PlanStepModel::Progress("Clearing previous mounts and swap state"@),
        attempt("swapoff"@, seq!["/mnt/swapfile"@], "Swapoff /mnt/swapfile"@),
        attempt("umount"@, seq!["/mnt/home"@], "Unmount /mnt/home"@),
        attempt("umount"@, seq!["/mnt/boot"@], "Unmount /mnt/boot"@),
        attempt("umount"@, seq!["/mnt"@], "Unmount /mnt"@),
    ]
}

pub open spec fn partitioning_steps(plans: Seq<AutoPartitionPlanModel>) -> Seq<PlanStepModel>
    decreases plans.len(),
{
    if plans.len() == 0 {
        Seq::empty()
    } else {
        partitioning_steps(plans.drop_last()) + seq![PlanStepModel::Progress("Partitioning disk "@ + plans.last().disk)]
            + auto_partition_steps(plans.last())
    }
}

pub open spec fn formatting_steps(actions: Seq<FormatActionModel>) -> Seq<PlanStepModel>
    decreases actions.len(),
{
    if actions.len() == 0 {
        Seq::empty()
    } else {
        let a = actions.last();
        formatting_steps(actions.drop_last()) + seq![
            PlanStepModel::Progress("Formatting "@ + a.device + " as "@ + a.fs.label_spec()),
        ] + format_steps(a.device, a.fs)
    }
}

/// Whether the format steps already create and activate swap on `device`.
pub open spec fn swap_formatted(actions: Seq<FormatActionModel>, device: Seq<char>) -> bool {
    exists|i: int| 0 <= i < actions.len() && #[trigger] actions[i].device == device && actions[i].fs == FilesystemType::Swap
}

/// An existing swap partition that is not formatted is activated as it is.
pub open spec fn swap_activation_steps(l: LayoutModel) -> Seq<PlanStepModel> {
    match l.swap_action {
        Some(SwapActionModel::Partition { device }) => if swap_formatted(l.format_actions, device) {
            Seq::empty()
        } else {
            seq![
                PlanStepModel::Progress("Activating swap on "@ + device),
                run("swapon"@, seq![device], "Failed to activate existing swap partition "@ + device),
            ]
        },
        _ => Seq::empty(),
    }
}

/// The byte length of a mount target, by which mounts are ordered.
pub open spec fn target_len(m: MountActionModel) -> nat {
    (encode_utf8(m.target).len() as usize) as nat
}

/// `s` with `x` inserted after every element whose target is no longer.
pub open spec fn insert_by_target_len(s: Seq<MountActionModel>, x: MountActionModel) -> Seq<MountActionModel>
    decreases s.len(),
{
    if s.len() == 0 {
        seq![x]
    } else if target_len(s.last()) <= target_len(x) {
        s.push(x)
    } else {
        insert_by_target_len(s.drop_last(), x).push(s.last())
    }
}

/// The mounts stably sorted by target length, so that a mount point is
/// mounted before the mount points inside it.
pub open spec fn sort_by_target_len(s: Seq<MountActionModel>) -> Seq<MountActionModel>
    decreases s.len(),
{
    if s.len() == 0 {
        Seq::empty()
    } else {
        insert_by_target_len(sort_by_target_len(s.drop_last()), s.last())
    }
}

pub open spec fn mounting_steps(mounts: Seq<MountActionModel>) -> Seq<PlanStepModel>
    decreases mounts.len(),
{
    if mounts.len() == 0 {
        Seq::empty()
    } else {
        let m = mounts.last();
        mounting_steps(mounts.drop_last()) + seq![
            PlanStepModel::Progress("Mounting "@ + m.device + " at "@ + m.target),
            mount_target_step(m.target),
            run("mount"@, seq![m.device, m.target], "Failed to mount "@ + m.device + " at "@ + m.target),
        ]
    }
}

/// Everything that carrying out a layout does, in order: clear earlier
/// mounts and swap, repartition the wiped disks, format, activate an
/// existing swap partition, and mount, shortest target first.
pub open spec fn execute_layout_spec(l: LayoutModel) -> Seq<PlanStepModel> {
    clear_steps() + partitioning_steps(l.auto_partition) + formatting_steps(l.format_actions)
        + swap_activation_steps(l) + mounting_steps(sort_by_target_len(l.mount_actions))
}

pub open spec fn mount_views(v: Seq<MountAction>) -> Seq<MountActionModel> {
    v.map_values(|m: MountAction| m@)
}

proof fn lemma_insert_position(s: Seq<MountActionModel>, x: MountActionModel, p: int)
    requires
        0 <= p <= s.len(),
        forall|j: int| p <= j < s.len() ==> target_len(#[trigger] s[j]) > target_len(x),
        p == 0 || target_len(s[p - 1]) <= target_len(x),
    ensures
        insert_by_target_len(s, x) == s.insert(p, x),
    decreases s.len(),
{
    if s.len() == 0 {
        assert(s.insert(p, x) =~= seq![x]);
    } else if p == s.len() {
        assert(s.insert(p, x) =~= s.push(x));
    } else {
        let t = s.drop_last();
        assert(target_len(s[s.len() - 1]) > target_len(x));
        assert forall|j: int| p <= j < t.len() implies target_len(#[trigger] t[j]) > target_len(x) by {
            assert(t[j] == s[j]);
        }
        if p > 0 {
            assert(t[p - 1] == s[p - 1]);
        }
        lemma_insert_position(t, x, p);
        assert(t.insert(p, x).push(s.last()) =~= s.insert(p, x));
    }
}

fn target_byte_len(m: &MountAction) -> (r: usize)
    ensures
        r as nat == target_len(m@),
{
    m.target.as_str().len()
}

fn copy_mount(m: &MountAction) -> (r: MountAction)
    ensures
        r@ == m@,
{
    MountAction { device: m.device.clone(), target: m.target.clone() }
}

fn sort_mounts(mounts: &Vec<MountAction>) -> (r: Vec<MountAction>)
    ensures
        mount_views(r@) == sort_by_target_len(mount_views(mounts@)),
{
    let ghost mv = mount_views(mounts@);
    let mut sorted: Vec<MountAction> = Vec::new();
    let n = mounts.len();
    let mut i: usize = 0;
    while i < n
        invariant
            n == mounts@.len(),
            mv == mount_views(mounts@),
            i <= n,
            mount_views(sorted@) == sort_by_target_len(mv.take(i as int)),
        decreases n - i,
    {
        let m = copy_mount(&mounts[i]);
        let key = target_byte_len(&m);
        let mut p = sorted.len();
        while p > 0 && target_byte_len(&sorted[p - 1]) > key
            invariant
                p <= sorted@.len(),
                key as nat == target_len(m@),
                forall|j: int| p <= j < sorted@.len() ==> target_len(#[trigger] mount_views(sorted@)[j]) > target_len(m@),
            decreases p,
        {
            assert(mount_views(sorted@)[p - 1] == sorted@[p - 1]@);
            p = p - 1;
        }
        proof {
            if p > 0 {
                assert(mount_views(sorted@)[p - 1] == sorted@[p - 1]@);
            }
            lemma_insert_position(mount_views(sorted@), m@, p as int);
            assert(mv.take(i + 1).drop_last() =~= mv.take(i as int));
            assert(mv[i as int] == m@);
        }
        let ghost prev = sorted@;
        sorted.insert(p, m);
        assert(mount_views(sorted@) =~= mount_views(prev).insert(p as int, m@));
        i = i + 1;
    }
    assert(mv.take(n as int) =~= mv);
    sorted
}

fn swap_already_formatted(actions: &Vec<FormatAction>, device: &String) -> (r: bool)
    ensures
        r == swap_formatted(actions@.map_values(|a: FormatAction| a@), device@),
{
    let ghost av = actions@.map_values(|a: FormatAction| a@);
    let n = actions.len();
    let mut i: usize = 0;
    while i < n
        invariant
            n == actions@.len(),
            av == actions@.map_values(|a: FormatAction| a@),
            i <= n,
            forall|j: int| 0 <= j < i ==> !(#[trigger] av[j].device == device@ && av[j].fs == FilesystemType::Swap),
        decreases n - i,
    {
        if actions[i].device == *device && actions[i].fs == FilesystemType::Swap {
            assert(av[i as int].device == device@);
            return true;
        }
        i = i + 1;
    }
    false
}

/// The first part of carrying out a layout: clear earlier mounts and swap,
/// then repartition the wiped disks.
fn clear_and_partition(layout: &ResolvedInstallLayout) -> (r: Vec<PlanStep>)
    ensures
        plan_view(r@) == clear_steps() + partitioning_steps(layout@.auto_partition),
{
    let ghost l = layout@;
    let mut steps: Vec<PlanStep> = Vec::new();
    push_step(&mut steps, PlanStep::Progress("Clearing previous mounts and swap state".to_string()));
    push_step(&mut steps, attempt_step("swapoff", args1("/mnt/swapfile"), "Swapoff /mnt/swapfile".to_string()));
    push_step(&mut steps, attempt_step("umount", args1("/mnt/home"), "Unmount /mnt/home".to_string()));
    push_step(&mut steps, attempt_step("umount", args1("/mnt/boot"), "Unmount /mnt/boot".to_string()));
    push_step(&mut steps, attempt_step("umount", args1("/mnt"), "Unmount /mnt".to_string()));
    assert(plan_view(steps@) =~= clear_steps());

    let n = layout.auto_partition.len();
    let mut i: usize = 0;
    while i < n
        invariant
            n == layout.auto_partition@.len(),
            l == layout@,
            i <= n,
            plan_view(steps@) == clear_steps() + partitioning_steps(l.auto_partition.take(i as int)),
        decreases n - i,
    {
        let plan = &layout.auto_partition[i];
        push_step(&mut steps, PlanStep::Progress("Partitioning disk ".to_string().concat(plan.disk.as_str())));
        append_steps(&mut steps, apply_auto_partition(plan));
        assert(l.auto_partition.take(i + 1).drop_last() =~= l.auto_partition.take(i as int));
        assert(l.auto_partition[i as int] == plan@);
        assert(plan_view(steps@) =~= clear_steps() + partitioning_steps(l.auto_partition.take(i + 1)));
        i = i + 1;
    }
    assert(l.auto_partition.take(n as int) =~= l.auto_partition);
    steps
}

/// The rest of carrying out a layout: format, activate an existing swap
/// partition, and mount, shortest target first.
fn format_swap_mount(layout: &ResolvedInstallLayout) -> (r: Vec<PlanStep>)
    ensures
        plan_view(r@) == formatting_steps(layout@.format_actions) + swap_activation_steps(layout@)
            + mounting_steps(sort_by_target_len(layout@.mount_actions)),
{
    let ghost l = layout@;
    let mut steps: Vec<PlanStep> = Vec::new();
    let ghost after_partitioning = plan_view(steps@);

    let m = layout.format_actions.len();
    let mut j: usize = 0;
    while j < m
        invariant
            m == layout.format_actions@.len(),
            l == layout@,
            j <= m,
            plan_view(steps@) == after_partitioning + formatting_steps(l.format_actions.take(j as int)),
        decreases m - j,
    {
        let action = &layout.format_actions[j];
        push_step(
            &mut steps,
            PlanStep::Progress("Formatting ".to_string().concat(action.device.as_str()).concat(" as ").concat(action.fs.label())),
        );
        append_steps(&mut steps, format_partition(action.device.as_str(), &action.fs));
        assert(l.format_actions.take(j + 1).drop_last() =~= l.format_actions.take(j as int));
        assert(l.format_actions[j as int] == action@);
        assert(plan_view(steps@) =~= after_partitioning + formatting_steps(l.format_actions.take(j + 1)));
        j = j + 1;
    }
    assert(l.format_actions.take(m as int) =~= l.format_actions);
    let ghost after_formatting = plan_view(steps@);

    match &layout.swap_action {
        Some(SwapAction::Partition { device }) => {
            if !swap_already_formatted(&layout.format_actions, device) {
                push_step(&mut steps, PlanStep::Progress("Activating swap on ".to_string().concat(device.as_str())));
                push_step(
                    &mut steps,
                    run_step("swapon", args1(device.as_str()), "Failed to activate existing swap partition ".to_string().concat(device.as_str())),
                );
            }
        },
        _ => {},
    }
    assert(plan_view(steps@) =~= after_formatting + swap_activation_steps(l));
    let ghost after_swap = plan_view(steps@);

    let mounts = sort_mounts(&layout.mount_actions);
    let ghost sv = mount_views(mounts@);
    let k = mounts.len();
    let mut t: usize = 0;
    while t < k
        invariant
            k == mounts@.len(),
            sv == mount_views(mounts@),
            t <= k,
            plan_view(steps@) == after_swap + mounting_steps(sv.take(t as int)),
        decreases k - t,
    {
        let mount = &mounts[t];
        push_step(
            &mut steps,
            PlanStep::Progress("Mounting ".to_string().concat(mount.device.as_str()).concat(" at ").concat(mount.target.as_str())),
        );
        push_step(&mut steps, ensure_mount_target(mount.target.as_str()));
        push_step(
            &mut steps,
            run_step(
                "mount",
                args2(mount.device.as_str(), mount.target.as_str()),
                "Failed to mount ".to_string().concat(mount.device.as_str()).concat(" at ").concat(mount.target.as_str()),
            ),
        );
        assert(sv.take(t + 1).drop_last() =~= sv.take(t as int));
        assert(sv[t as int] == mount@);
        assert(plan_view(steps@) =~= after_swap + mounting_steps(sv.take(t + 1)));
        t = t + 1;
    }
    assert(sv.take(k as int) =~= sv);
    assert(plan_view(steps@) =~= formatting_steps(l.format_actions) + swap_activation_steps(l)
        + mounting_steps(sort_by_target_len(l.mount_actions)));
    steps
}

/// The steps that carry out a resolved layout on the machine.
pub fn execute_layout(layout: &ResolvedInstallLayout) -> (r: Vec<PlanStep>)
    ensures
        plan_view(r@) == execute_layout_spec(layout@),
{
    let mut steps = clear_and_partition(layout);
    append_steps(&mut steps, format_swap_mount(layout));
    assert(plan_view(steps@) =~= execute_layout_spec(layout@));
    steps
}

/// The swap file steps of a layout: recreate the file at its size, restrict
/// its permissions, then format and activate it. Nothing when swap is not
/// a file.
pub open spec fn swap_file_steps(l: LayoutModel) -> Seq<PlanStepModel> {
    match l.swap_action {
        Some(SwapActionModel::File { path, size_mb }) => seq![
            PlanStepModel::Progress("Preparing swap file "@ + path),
            attempt("swapoff"@, seq![path], "Swapoff "@ + path),
            attempt("rm"@, seq!["-f"@, path], "Remove old "@ + path),
            PlanStepModel::Progress("Allocating "@ + decimal(size_mb as nat) + " MB swap file"@),
            run("fallocate"@, seq!["-l"@, decimal(size_mb as nat) + "M"@, path], "Failed to allocate swap file "@ + path),
            PlanStepModel::Progress("Setting permissions on "@ + path),
            run("chmod"@, seq!["600"@, path], "Failed to chmod swap file "@ + path),
            PlanStepModel::Progress("Activating swap file "@ + path),
            run("mkswap"@, seq![path], "Failed to initialize "@ + path),
            run("swapon"@, seq![path], "Failed to activate "@ + path),
        ],
        _ => Seq::empty(),
    }
}

pub fn setup_swap_file(layout: &ResolvedInstallLayout) -> (r: Vec<PlanStep>)
    ensures
        plan_view(r@) == swap_file_steps(layout@),
{
    let mut steps: Vec<PlanStep> = Vec::new();
    match &layout.swap_action {
        Some(SwapAction::File { path, size_mb }) => {
            let p = path.as_str();
            let size = u64_to_string(*size_mb);
            push_step(&mut steps, PlanStep::Progress("Preparing swap file ".to_string().concat(p)));
            push_step(&mut steps, attempt_step("swapoff", args1(p), "Swapoff ".to_string().concat(p)));
            push_step(&mut steps, attempt_step("rm", args2("-f", p), "Remove old ".to_string().concat(p)));
            push_step(&mut steps, PlanStep::Progress("Allocating ".to_string().concat(size.as_str()).concat(" MB swap file")));
            push_step(
                &mut steps,
                run_step("fallocate", args3("-l", size.clone().concat("M").as_str(), p), "Failed to allocate swap file ".to_string().concat(p)),
            );
            push_step(&mut steps, PlanStep::Progress("Setting permissions on ".to_string().concat(p)));
            push_step(&mut steps, run_step("chmod", args2("600", p), "Failed to chmod swap file ".to_string().concat(p)));
            push_step(&mut steps, PlanStep::Progress("Activating swap file ".to_string().concat(p)));
            push_step(&mut steps, run_step("mkswap", args1(p), "Failed to initialize ".to_string().concat(p)));
            push_step(&mut steps, run_step("swapon", args1(p), "Failed to activate ".to_string().concat(p)));
        },
        _ => {},
    }
    assert(plan_view(steps@) =~= swap_file_steps(layout@));
    steps
}

} // verus!
verus! {

/// The steps that delete the partitions marked for deletion, in order, each
/// announced and checked against the managed disks when it is reached.
pub open spec fn delete_steps(deletes: Seq<Seq<char>>, managed: Seq<String>) -> Seq<PlanStepModel>
    decreases deletes.len(),
{
    if deletes.len() == 0 {
        Seq::empty()
    } else {
        delete_steps(deletes.drop_last(), managed) + seq![
            PlanStepModel::Progress("Deleting partition "@ + deletes.last()),
            PlanStepModel::DeletePartition { path: deletes.last(), managed_disks: managed },
        ]
    }
}

/// The steps that create the planned partitions, in order.
pub open spec fn create_steps(creates: Seq<ManualCreatePartition>) -> Seq<PlanStepModel>
    decreases creates.len(),
{
    if creates.len() == 0 {
        Seq::empty()
    } else {
        let a = creates.last();
        create_steps(creates.drop_last()) + seq![
            PlanStepModel::Progress("Creating "@ + a.role.label_spec() + " partition on "@ + a.disk@),
            PlanStepModel::Run(create_partition_spec(a)),
        ]
    }
}

/// Carrying out a manual layout with partitions to delete and to create:
/// after clearing and repartitioning, the deletes, then the creates, then
/// formatting, swap and mounting as for any layout. A delete that fails ends
/// the plan there, after the steps before it have run.
pub open spec fn execute_manual_layout_spec(
    l: LayoutModel,
    deletes: Seq<Seq<char>>,
    creates: Seq<ManualCreatePartition>,
    managed: Seq<String>,
) -> Seq<PlanStepModel> {
    clear_steps() + partitioning_steps(l.auto_partition) + delete_steps(deletes, managed) + create_steps(creates)
        + formatting_steps(l.format_actions) + swap_activation_steps(l)
        + mounting_steps(sort_by_target_len(l.mount_actions))
}

fn copy_strings(v: &[String]) -> (r: Vec<String>)
    ensures
        r@ == v@,
{
    let mut out: Vec<String> = Vec::new();
    let n = v.len();
    let mut i: usize = 0;
    while i < n
        invariant
            n == v@.len(),
            i <= n,
            out@ == v@.take(i as int),
        decreases n - i,
    {
        out.push(v[i].clone());
        assert(v@.take(i + 1) =~= v@.take(i as int).push(v@[i as int]));
        i = i + 1;
    }
    assert(v@.take(n as int) =~= v@);
    out
}

/// The steps that carry out `layout` together with the partitions to delete
/// (each one of the partitions of the managed disks) and to create.
pub fn execute_manual_layout(
    layout: &ResolvedInstallLayout,
    deletes: &Vec<String>,
    creates: &Vec<ManualCreatePartition>,
    managed: &[String],
) -> (r: Vec<PlanStep>)
    ensures
        plan_view(r@) == execute_manual_layout_spec(layout@, views(deletes@), creates@, managed@),
{
    let ghost dv = views(deletes@);
    let mut middle: Vec<PlanStep> = Vec::new();
    assert(plan_view(middle@) =~= Seq::<PlanStepModel>::empty());
    let n = deletes.len();
    let mut i: usize = 0;
    while i < n
        invariant
            n == deletes@.len(),
            dv == views(deletes@),
            i <= n,
            plan_view(middle@) == delete_steps(dv.take(i as int), managed@),
        decreases n - i,
    {
        assert(dv.take(i + 1).drop_last() =~= dv.take(i as int));
        assert(dv[i as int] == deletes@[i as int]@);
        let path = deletes[i].as_str();
        let ghost prev = plan_view(middle@);
        push_step(&mut middle, PlanStep::Progress("Deleting partition ".to_string().concat(path)));
        push_step(&mut middle, PlanStep::DeletePartition { path: owned(path), managed_disks: copy_strings(managed) });
        assert(plan_view(middle@) =~= prev + seq![
            PlanStepModel::Progress("Deleting partition "@ + dv[i as int]),
            PlanStepModel::DeletePartition { path: dv[i as int], managed_disks: managed@ },
        ]);
        i = i + 1;
    }
    assert(dv.take(n as int) =~= dv);
    let ghost after_deletes = plan_view(middle@);
    let m = creates.len();
    let mut j: usize = 0;
    while j < m
        invariant
            m == creates@.len(),
            j <= m,
            plan_view(middle@) == after_deletes + create_steps(creates@.take(j as int)),
        decreases m - j,
    {
        let action = &creates[j];
        push_step(
            &mut middle,
            PlanStep::Progress("Creating ".to_string().concat(action.role.label()).concat(" partition on ").concat(action.disk.as_str())),
        );
        push_step(&mut middle, PlanStep::Run(create_manual_partition(action)));
        assert(creates@.take(j + 1).drop_last() =~= creates@.take(j as int));
        assert(plan_view(middle@) =~= after_deletes + create_steps(creates@.take(j + 1)));
        j = j + 1;
    }
    assert(creates@.take(m as int) =~= creates@);
    let mut steps = clear_and_partition(layout);
    append_steps(&mut steps, middle);
    append_steps(&mut steps, format_swap_mount(layout));
    assert(plan_view(steps@) =~= execute_manual_layout_spec(layout@, views(deletes@), creates@, managed@));
    steps
}

/// `s` is in nondecreasing order of target length.
pub open spec fn by_target_len(s: Seq<MountActionModel>) -> bool {
    forall|i: int, j: int| 0 <= i < j < s.len() ==> target_len(#[trigger] s[i]) <= target_len(#[trigger] s[j])
}

proof fn lemma_insert_by_target_len(s: Seq<MountActionModel>, x: MountActionModel)
    requires
        by_target_len(s),
    ensures
        by_target_len(insert_by_target_len(s, x)),
        insert_by_target_len(s, x).to_multiset() == s.to_multiset().insert(x),
        insert_by_target_len(s, x).len() == s.len() + 1,
        forall|i: int| 0 <= i < insert_by_target_len(s, x).len() ==>
            (#[trigger] insert_by_target_len(s, x)[i] == x || s.contains(insert_by_target_len(s, x)[i])),
    decreases s.len(),
{
    broadcast use vstd::seq_lib::group_to_multiset_ensures;
    let r = insert_by_target_len(s, x);
    if s.len() == 0 {
        assert(seq![x] =~= Seq::<MountActionModel>::empty().push(x));
    } else if target_len(s.last()) <= target_len(x) {
        assert forall|i: int| 0 <= i < r.len() implies (#[trigger] r[i] == x || s.contains(r[i])) by {
            if i < s.len() {
                assert(r[i] == s[i]);
            }
        }
    } else {
        let t = s.drop_last();
        assert(by_target_len(t)) by {
            assert forall|i: int, j: int| 0 <= i < j < t.len() implies target_len(#[trigger] t[i]) <= target_len(#[trigger] t[j]) by {
                assert(t[i] == s[i] && t[j] == s[j]);
            }
        }
        lemma_insert_by_target_len(t, x);
        let it = insert_by_target_len(t, x);
        assert(s =~= t.push(s.last()));
        assert forall|i: int| 0 <= i < r.len() implies (#[trigger] r[i] == x || s.contains(r[i])) by {
            if i < it.len() {
                assert(r[i] == it[i]);
                if it[i] != x {
                    let k = choose|k: int| 0 <= k < t.len() && t[k] == it[i];
                    assert(s[k] == t[k]);
                }
            } else {
                assert(r[i] == s[s.len() - 1]);
            }
        }
        assert forall|i: int, j: int| 0 <= i < j < r.len() implies target_len(#[trigger] r[i]) <= target_len(#[trigger] r[j]) by {
            if j < it.len() {
                assert(r[i] == it[i] && r[j] == it[j]);
            } else {
                assert(r[j] == s.last());
                assert(r[i] == it[i]);
                if it[i] != x {
                    let k = choose|k: int| 0 <= k < t.len() && t[k] == it[i];
                    assert(s[k] == t[k]);
                    assert(target_len(s[k]) <= target_len(s[s.len() - 1]));
                }
            }
        }
        assert(r.to_multiset() =~= it.to_multiset().insert(s.last()));
        assert(s.to_multiset() =~= t.to_multiset().insert(s.last()));
        assert(r.to_multiset() =~= s.to_multiset().insert(x));
    }
}

proof fn lemma_sort_by_target_len(s: Seq<MountActionModel>)
    ensures
        by_target_len(sort_by_target_len(s)),
        sort_by_target_len(s).to_multiset() == s.to_multiset(),
        sort_by_target_len(s).len() == s.len(),
        forall|i: int| 0 <= i < sort_by_target_len(s).len() ==> s.contains(#[trigger] sort_by_target_len(s)[i]),
    decreases s.len(),
{
    broadcast use vstd::seq_lib::group_to_multiset_ensures;
    if s.len() > 0 {
        let t = s.drop_last();
        lemma_sort_by_target_len(t);
        let st = sort_by_target_len(t);
        lemma_insert_by_target_len(st, s.last());
        assert(s =~= t.push(s.last()));
        let r = sort_by_target_len(s);
        assert forall|i: int| 0 <= i < r.len() implies s.contains(#[trigger] r[i]) by {
            if r[i] == s.last() {
                assert(s[s.len() - 1] == r[i]);
            } else {
                assert(st.contains(r[i]));
                let k = choose|k: int| 0 <= k < st.len() && st[k] == r[i];
                assert(t.contains(st[k]));
                let m = choose|m: int| 0 <= m < t.len() && t[m] == st[k];
                assert(s[m] == t[m]);
            }
        }
    } else {
        assert(sort_by_target_len(s) =~= Seq::<MountActionModel>::empty());
        assert(s =~= Seq::<MountActionModel>::empty());
    }
}

proof fn lemma_mounting_steps(ms: Seq<MountActionModel>)
    ensures
        mounting_steps(ms).len() == 3 * ms.len(),
        forall|k: int| 0 <= k < ms.len() ==> #[trigger] mounting_steps(ms)[3 * k + 2] == run(
            "mount"@,
            seq![ms[k].device, ms[k].target],
            "Failed to mount "@ + ms[k].device + " at "@ + ms[k].target,
        ),
    decreases ms.len(),
{
    if ms.len() > 0 {
        let t = ms.drop_last();
        lemma_mounting_steps(t);
        assert forall|k: int| 0 <= k < ms.len() implies #[trigger] mounting_steps(ms)[3 * k + 2] == run(
            "mount"@,
            seq![ms[k].device, ms[k].target],
            "Failed to mount "@ + ms[k].device + " at "@ + ms[k].target,
        ) by {
            if k < t.len() {
                assert(ms[k] == t[k]);
                assert(mounting_steps(ms)[3 * k + 2] == mounting_steps(t)[3 * k + 2]);
            }
        }
    }
}

/// Mounts happen shortest target first, measured in bytes, so that a mount
/// point is mounted before any mount point inside it (`/mnt` before
/// `/mnt/boot`): the plan ends with one mount command for each of the
/// layout's mounts, every mount exactly once, in nondecreasing order of the
/// byte length of their targets.
pub proof fn law_mounts_shortest_target_first(l: LayoutModel)
    requires
        forall|i: int| 0 <= i < l.mount_actions.len() ==> encode_utf8(#[trigger] l.mount_actions[i].target).len() <= usize::MAX,
    ensures
        ({
            let plan = execute_layout_spec(l);
            let order = sort_by_target_len(l.mount_actions);
            &&& order.to_multiset() == l.mount_actions.to_multiset()
            &&& forall|i: int, j: int| 0 <= i < j < order.len() ==>
                encode_utf8(#[trigger] order[i].target).len() <= encode_utf8(#[trigger] order[j].target).len()
            &&& plan.len() >= 3 * order.len()
            &&& forall|k: int| 0 <= k < order.len() ==> #[trigger] plan[plan.len() - 3 * order.len() + 3 * k + 2] == run(
                "mount"@,
                seq![order[k].device, order[k].target],
                "Failed to mount "@ + order[k].device + " at "@ + order[k].target,
            )
        }),
{
    let ms = l.mount_actions;
    let order = sort_by_target_len(ms);
    lemma_sort_by_target_len(ms);
    lemma_mounting_steps(order);
    assert forall|i: int, j: int| 0 <= i < j < order.len() implies
        encode_utf8(#[trigger] order[i].target).len() <= encode_utf8(#[trigger] order[j].target).len() by {
        assert(ms.contains(order[i]));
        assert(ms.contains(order[j]));
        let a = choose|a: int| 0 <= a < ms.len() && ms[a] == order[i];
        let b = choose|b: int| 0 <= b < ms.len() && ms[b] == order[j];
        assert(encode_utf8(ms[a].target).len() <= usize::MAX);
        assert(encode_utf8(ms[b].target).len() <= usize::MAX);
        assert(target_len(order[i]) <= target_len(order[j]));
    }
    let front = clear_steps() + partitioning_steps(l.auto_partition) + formatting_steps(l.format_actions)
        + swap_activation_steps(l);
    let plan = execute_layout_spec(l);
    assert(plan == front + mounting_steps(order));
    assert forall|k: int| 0 <= k < order.len() implies #[trigger] plan[plan.len() - 3 * order.len() + 3 * k + 2] == run(
        "mount"@,
        seq![order[k].device, order[k].target],
        "Failed to mount "@ + order[k].device + " at "@ + order[k].target,
    ) by {
        assert(plan[plan.len() - 3 * order.len() + 3 * k + 2] == mounting_steps(order)[3 * k + 2]);
    }
}

} // verus!
