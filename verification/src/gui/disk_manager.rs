use crate::installer::commands::{plan_view, PlanStep, PlanStepModel};
use crate::installer::disk_manager::{execute_layout_spec, swap_file_steps, unwrap_or_zero};
use crate::installer::storage_plan::ResolvedInstallLayout;
use crate::text::{
    lemma_filter_push, opt_view, parse_unsigned, parse_unsigned_exec, split_newlines,
    split_newlines_exec, split_whitespace, str_eq, views, words,
};
use vstd::prelude::*;

pub use crate::installer::disk_manager::{
    bytes_to_gib, execute_partitioning, human_gib_label, partition_device_path, PartitionPlan,
};

verus! {

/// A block device as `lsblk -b -J -o NAME,SIZE,MODEL,TRAN,TYPE,RM` reports
/// it, with `RM` as a number.
#[derive(Debug)]
pub struct BlockDevice {
    pub name: String,
    pub size_bytes: u64,
    pub model: Option<String>,
    pub tran: Option<String>,
    pub rm: Option<u8>,
    pub device_type: String,
}

#[derive(Clone, Debug, PartialEq, Eq)]
pub struct PartitionInfo {
    pub path: String,
    pub parent_disk: String,
    pub size_bytes: u64,
    pub fstype: Option<String>,
}

pub struct PartitionInfoModel {
    pub path: Seq<char>,
    pub parent_disk: Seq<char>,
    pub size_bytes: u64,
    pub fstype: Option<Seq<char>>,
}

impl View for PartitionInfo {
    type V = PartitionInfoModel;

    open spec fn view(&self) -> PartitionInfoModel {
        PartitionInfoModel {
            path: self.path@,
            parent_disk: self.parent_disk@,
            size_bytes: self.size_bytes,
            fstype: opt_view(self.fstype),
        }
    }
}

pub open spec fn partition_views(v: Seq<PartitionInfo>) -> Seq<PartitionInfoModel> {
    v.map_values(|p: PartitionInfo| p@)
}

/// An internal drive: a whole disk, `RM` not 1, not on USB.
pub open spec fn is_internal_spec(d: BlockDevice) -> bool {
    &&& d.device_type@ == "disk"@
    &&& d.rm != Some(1u8)
    &&& opt_view(d.tran) != Some("usb"@)
}

pub fn is_internal_device(device: &BlockDevice) -> (r: bool)
    ensures
        r == is_internal_spec(*device),
{
    if !str_eq(device.device_type.as_str(), "disk") {
        return false;
    }
    if device.rm == Some(1u8) {
        return false;
    }
    match &device.tran {
        Some(t) => !str_eq(t.as_str(), "usb"),
        None => true,
    }
}

/// The whole disks among the devices `lsblk` listed.
pub fn get_block_devices(devices: Vec<BlockDevice>) -> (r: Vec<BlockDevice>)
    ensures
        r@ == devices@.filter(|d: BlockDevice| d.device_type@ == "disk"@),
{
    let ghost pred = |d: BlockDevice| d.device_type@ == "disk"@;
    let ghost all = devices@;
    let mut kept: Vec<BlockDevice> = Vec::new();
    for d in it: devices
        invariant
            it.seq() == all,
            pred == (|d: BlockDevice| d.device_type@ == "disk"@),
            kept@ == all.take(it.index() as int).filter(pred),
    {
        proof {
            assert(all.take(it.index() + 1) =~= all.take(it.index() as int).push(d));
            lemma_filter_push(all.take(it.index() as int), pred, d);
        }
        if str_eq(d.device_type.as_str(), "disk") {
            kept.push(d);
        }
    }
    assert(all.take(all.len() as int) =~= all);
    kept
}

/// The internal drives among the devices `lsblk` listed.
pub fn get_internal_block_devices(devices: Vec<BlockDevice>) -> (r: Vec<BlockDevice>)
    ensures
        r@ == devices@.filter(|d: BlockDevice| is_internal_spec(d)),
{
    let ghost pred = |d: BlockDevice| is_internal_spec(d);
    let ghost all = devices@;
    let mut kept: Vec<BlockDevice> = Vec::new();
    for d in it: devices
        invariant
            it.seq() == all,
            pred == (|d: BlockDevice| is_internal_spec(d)),
            kept@ == all.take(it.index() as int).filter(pred),
    {
        proof {
            assert(all.take(it.index() + 1) =~= all.take(it.index() as int).push(d));
            lemma_filter_push(all.take(it.index() as int), pred, d);
        }
        if is_internal_device(&d) {
            kept.push(d);
        }
    }
    assert(all.take(all.len() as int) =~= all);
    kept
}

/// The partition a line of `lsblk -b -r -o NAME,TYPE,PKNAME,SIZE,FSTYPE`
/// describes, if it describes one: at least four fields, the second `part`.
/// A size that does not parse counts as 0.
pub open spec fn partition_from_words(w: Seq<Seq<char>>) -> Option<PartitionInfoModel> {
    if w.len() >= 4 && w[1] == "part"@ {
        Some(PartitionInfoModel {
            path: "/dev/"@ + w[0],
            parent_disk: "/dev/"@ + w[2],
            size_bytes: unwrap_or_zero(parse_unsigned(w[3], u64::MAX as nat)) as u64,
            fstype: if w.len() >= 5 { Some(w[4]) } else { None },
        })
    } else {
        None
    }
}

pub open spec fn partitions_from_lines(lines: Seq<Seq<char>>) -> Seq<PartitionInfoModel>
    decreases lines.len(),
{
    if lines.len() == 0 {
        Seq::empty()
    } else {
        let rest = partitions_from_lines(lines.drop_last());
        match partition_from_words(words(lines.last())) {
            Some(p) => rest.push(p),
            None => rest,
        }
    }
}

fn partition_from_line(line: &str) -> (r: Option<PartitionInfo>)
    ensures
        match r {
            Some(p) => partition_from_words(words(line@)) == Some(p@),
            None => partition_from_words(words(line@)) is None,
        },
{
    let fields = split_whitespace(line);
    if fields.len() < 4 || !str_eq(fields[1].as_str(), "part") {
        return None;
    }
    let size = match parse_unsigned_exec(fields[3].as_str(), u64::MAX) {
        Some(v) => v,
        None => 0,
    };
    let fstype = if fields.len() >= 5 { Some(fields[4].clone()) } else { None };
    Some(PartitionInfo {
        path: "/dev/".to_string().concat(fields[0].as_str()),
        parent_disk: "/dev/".to_string().concat(fields[2].as_str()),
        size_bytes: size,
        fstype,
    })
}

/// Reads the partitions out of the raw output of
/// `lsblk -b -r -o NAME,TYPE,PKNAME,SIZE,FSTYPE`.
pub fn parse_partition_devices(output: &str) -> (r: Vec<PartitionInfo>)
    ensures
        partition_views(r@) == partitions_from_lines(split_newlines(output@)),
{
    let lines = split_newlines_exec(output);
    let ghost lv = views(lines@);
    let mut parts: Vec<PartitionInfo> = Vec::new();
    let n = lines.len();
    let mut i: usize = 0;
    while i < n
        invariant
            n == lines@.len(),
            lv == views(lines@),
            i <= n,
            partition_views(parts@) == partitions_from_lines(lv.take(i as int)),
        decreases n - i,
    {
        assert(lv.take(i + 1).drop_last() =~= lv.take(i as int));
        assert(lv[i as int] == lines@[i as int]@);
        match partition_from_line(lines[i].as_str()) {
            Some(p) => {
                let ghost prev = parts@;
                parts.push(p);
                assert(parts@ =~= prev.push(p));
                assert(partition_views(parts@) =~= partition_views(prev).push(p@));
            },
            None => {},
        }
        i = i + 1;
    }
    assert(lv.take(n as int) =~= lv);
    parts
}

/// The partitions whose parent disk is `disk_path`.
pub fn get_partitions_for_disk(partitions: Vec<PartitionInfo>, disk_path: &str) -> (r: Vec<PartitionInfo>)
    ensures
        r@ == partitions@.filter(|p: PartitionInfo| p.parent_disk@ == disk_path@),
{
    let ghost pred = |p: PartitionInfo| p.parent_disk@ == disk_path@;
    let ghost all = partitions@;
    let mut kept: Vec<PartitionInfo> = Vec::new();
    for p in it: partitions
        invariant
            it.seq() == all,
            pred == (|p: PartitionInfo| p.parent_disk@ == disk_path@),
            kept@ == all.take(it.index() as int).filter(pred),
    {
        proof {
            assert(all.take(it.index() + 1) =~= all.take(it.index() as int).push(p));
            lemma_filter_push(all.take(it.index() as int), pred, p);
        }
        if str_eq(p.parent_disk.as_str(), disk_path) {
            kept.push(p);
        }
    }
    assert(all.take(all.len() as int) =~= all);
    kept
}

pub open spec fn is_command_step(s: PlanStepModel) -> bool {
    !(s is Progress)
}

/// A plan's commands, without its progress messages.
pub fn without_progress(steps: Vec<PlanStep>) -> (r: Vec<PlanStep>)
    ensures
        plan_view(r@) == plan_view(steps@).filter(|s: PlanStepModel| is_command_step(s)),
{
    let ghost pred = |s: PlanStepModel| is_command_step(s);
    let ghost all = plan_view(steps@);
    let mut kept: Vec<PlanStep> = Vec::new();
    for s in it: steps
        invariant
            all == plan_view(it.seq()),
            pred == (|s: PlanStepModel| is_command_step(s)),
            plan_view(kept@) == all.take(it.index() as int).filter(pred),
    {
        proof {
            assert(all.take(it.index() + 1) =~= all.take(it.index() as int).push(s@));
            lemma_filter_push(all.take(it.index() as int), pred, s@);
        }
        match s {
            PlanStep::Progress(_) => {},
            _ => {
                let ghost prev = kept@;
                kept.push(s);
                assert(plan_view(kept@) =~= plan_view(prev).push(s@));
            },
        }
    }
    assert(all.take(all.len() as int) =~= all);
    kept
}

/// The commands that carry out a resolved layout.
pub fn execute_layout(layout: &ResolvedInstallLayout) -> (r: Vec<PlanStep>)
    ensures
        plan_view(r@) == execute_layout_spec(layout@).filter(|s: PlanStepModel| is_command_step(s)),
{
    without_progress(crate::installer::disk_manager::execute_layout(layout))
}

/// The commands that create and activate a layout's swap file.
pub fn setup_swap_file(layout: &ResolvedInstallLayout) -> (r: Vec<PlanStep>)
    ensures
        plan_view(r@) == swap_file_steps(layout@).filter(|s: PlanStepModel| is_command_step(s)),
{
    without_progress(crate::installer::disk_manager::setup_swap_file(layout))
}

} // verus!
