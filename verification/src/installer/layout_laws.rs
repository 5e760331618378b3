use crate::installer::storage_plan::{destructive_plan_lines, fmt, HomeMode, home_other_disk, resolve_layout_spec, FilesystemType, FormatActionModel, LayoutModel, SetupMode, StorageSelection, SwapActionModel, SwapMode};
use crate::installer::disk_manager::partition_path;
use crate::text::{decimal, digit_char};
use vstd::prelude::*;

verus! {

/// The device that a layout's swap lives on, if it is a partition.
pub open spec fn swap_device(l: LayoutModel) -> Option<Seq<char>> {
    match l.swap_action {
        Some(SwapActionModel::Partition { device }) => Some(device),
        _ => None,
    }
}

/// Whether `dev` is one of the partitions the layout gives a role to.
pub open spec fn has_role(l: LayoutModel, dev: Seq<char>) -> bool {
    ||| dev == l.efi_partition
    ||| dev == l.root_partition
    ||| l.home_partition == Some(dev)
    ||| swap_device(l) == Some(dev)
}

proof fn lemma_small_partition_paths_differ(d: Seq<char>, a: nat, b: nat)
    requires
        a < 10,
        b < 10,
        a != b,
    ensures
        partition_path(d, a) != partition_path(d, b),
{
    let pa = partition_path(d, a);
    let pb = partition_path(d, b);
    assert(decimal(a) == seq![digit_char(a)]);
    assert(decimal(b) == seq![digit_char(b)]);
    assert(pa.len() == pb.len());
    assert(pa.last() == digit_char(a));
    assert(pb.last() == digit_char(b));
}

/// A manual setup never wipes a disk, repartitions one, or plans new
/// partitions: it only formats and mounts partitions that already exist.
pub proof fn law_manual_setup_never_wipes(sel: StorageSelection)
    requires
        sel.setup_mode == SetupMode::Manual,
        resolve_layout_spec(sel) is Ok,
    ensures
        resolve_layout_spec(sel)->Ok_0.disks_to_wipe.len() == 0,
        resolve_layout_spec(sel)->Ok_0.auto_partition.len() == 0,
        resolve_layout_spec(sel)->Ok_0.partitions_to_create.len() == 0,
        resolve_layout_spec(sel)->Ok_0.setup_mode == SetupMode::Manual,
{
}

/// An automatic setup wipes the install disk, and a second disk exactly when
/// `/home` goes on another disk; that disk is never the install disk.
pub proof fn law_automatic_wipes_install_disk(sel: StorageSelection)
    requires
        sel.setup_mode == SetupMode::Automatic,
        resolve_layout_spec(sel) is Ok,
    ensures
        home_other_disk(sel) ==> resolve_layout_spec(sel)->Ok_0.disks_to_wipe == seq![
            sel.install_disk@,
            sel.home_disk.unwrap()@,
        ] && sel.home_disk.unwrap()@ != sel.install_disk@,
        !home_other_disk(sel) ==> resolve_layout_spec(sel)->Ok_0.disks_to_wipe == seq![sel.install_disk@],
        resolve_layout_spec(sel)->Ok_0.setup_mode == SetupMode::Automatic,
{
}

/// The EFI partition and the root partition of a resolved layout are never
/// the same partition.
pub proof fn law_efi_and_root_differ(sel: StorageSelection)
    requires
        resolve_layout_spec(sel) is Ok,
    ensures
        resolve_layout_spec(sel)->Ok_0.efi_partition != resolve_layout_spec(sel)->Ok_0.root_partition,
{
    if sel.setup_mode == SetupMode::Automatic {
        let root_index: nat = if sel.swap_mode == SwapMode::Partition { 3 } else { 2 };
        lemma_small_partition_paths_differ(sel.install_disk@, 1, root_index);
    }
}

/// In a manual setup, the partitions given the EFI, root, `/home` and swap
/// roles are pairwise distinct.
pub proof fn law_manual_roles_distinct(sel: StorageSelection)
    requires
        sel.setup_mode == SetupMode::Manual,
        resolve_layout_spec(sel) is Ok,
    ensures
        ({
            let l = resolve_layout_spec(sel)->Ok_0;
            &&& l.efi_partition != l.root_partition
            &&& l.home_partition matches Some(h) ==> h != l.efi_partition && h != l.root_partition
            &&& swap_device(l) matches Some(s) ==> s != l.efi_partition && s != l.root_partition
            &&& (swap_device(l) is Some && l.home_partition is Some) ==> swap_device(l)->Some_0 != l.home_partition->Some_0
        }),
{
}

/// Every resolved layout mounts root at `/mnt` first and EFI at `/mnt/boot`
/// second, and `/home` third exactly when there is a separate home partition.
pub proof fn law_mount_plan_order(sel: StorageSelection)
    requires
        resolve_layout_spec(sel) is Ok,
    ensures
        ({
            let l = resolve_layout_spec(sel)->Ok_0;
            &&& l.mount_actions.len() == if l.home_partition is Some { 3nat } else { 2nat }
            &&& l.mount_actions[0].device == l.root_partition
            &&& l.mount_actions[0].target == "/mnt"@
            &&& l.mount_actions[1].device == l.efi_partition
            &&& l.mount_actions[1].target == "/mnt/boot"@
            &&& l.home_partition matches Some(h) ==> l.mount_actions[2].device == h
                && l.mount_actions[2].target == "/mnt/home"@
        }),
{
}

/// A swap-file layout always uses `/mnt/swapfile` of at least 512 MB.
pub proof fn law_swap_file_at_least_512_mb(sel: StorageSelection)
    requires
        sel.swap_mode == SwapMode::File,
        resolve_layout_spec(sel) is Ok,
    ensures
        ({
            let l = resolve_layout_spec(sel)->Ok_0;
            &&& l.swap_action is Some
            &&& l.swap_action->Some_0 is File
            &&& l.swap_action->Some_0->File_path == "/mnt/swapfile"@
            &&& l.swap_action->Some_0->File_size_mb >= 512
        }),
{
}

/// A layout only formats partitions that it gives a role to.
pub proof fn law_formats_only_role_partitions(sel: StorageSelection)
    requires
        resolve_layout_spec(sel) is Ok,
    ensures
        ({
            let l = resolve_layout_spec(sel)->Ok_0;
            forall|i: int| 0 <= i < l.format_actions.len() ==> has_role(l, #[trigger] l.format_actions[i].device)
        }),
{
    let l = resolve_layout_spec(sel)->Ok_0;
    assert forall|i: int| 0 <= i < l.format_actions.len() implies has_role(l, #[trigger] l.format_actions[i].device) by {
        if sel.setup_mode == SetupMode::Manual {
            let fe: Seq<FormatActionModel> = l.format_actions;
        }
    }
}

/// The destructive summary opens with the disks that will be wiped: one
/// `- <disk>` line for each, in order, and `- none` exactly when no disk is
/// wiped; then come the partitions to create.
pub proof fn law_summary_lists_wiped_disks(l: LayoutModel)
    ensures
        ({
            let lines = destructive_plan_lines(l);
            let w = l.disks_to_wipe;
            &&& lines[0] == "Disks to wipe:"@
            &&& w.len() == 0 ==> lines.len() > 2 && lines[1] == "- none"@ && lines[2] == "Partitions to create:"@
            &&& w.len() > 0 ==> lines.len() > w.len() + 1
                && (forall|i: int| 0 <= i < w.len() ==> #[trigger] lines[i + 1] == "- "@ + w[i])
                && lines[w.len() as int + 1] == "Partitions to create:"@
        }),
{
    let lines = destructive_plan_lines(l);
    let w = l.disks_to_wipe;
    if w.len() > 0 {
        assert forall|i: int| 0 <= i < w.len() implies #[trigger] lines[i + 1] == "- "@ + w[i] by {
            assert(lines[i + 1] == w.map_values(|x: Seq<char>| "- "@ + x)[i]);
        }
    }
}

proof fn lemma_partition_numbers_differ(d1: Seq<char>, d2: Seq<char>, a: nat, b: nat)
    requires
        a < 10,
        b < 10,
        a != b,
    ensures
        partition_path(d1, a) != partition_path(d2, b),
{
    let pa = partition_path(d1, a);
    let pb = partition_path(d2, b);
    assert(decimal(a) == seq![digit_char(a)]);
    assert(decimal(b) == seq![digit_char(b)]);
    assert(pa.last() == digit_char(a));
    assert(pb.last() == digit_char(b));
}

/// Root is formatted with the filesystem that was chosen: the layout's
/// filesystem is the selection's `xfs` or `ext4`, every format of the root
/// partition uses it, and an automatic setup always formats root.
pub proof fn law_root_formatted_with_chosen_fs(sel: StorageSelection)
    requires
        resolve_layout_spec(sel) is Ok,
    ensures
        sel.fs_type@ == "xfs"@ ==> resolve_layout_spec(sel)->Ok_0.fs_type == FilesystemType::Xfs,
        sel.fs_type@ == "ext4"@ ==> resolve_layout_spec(sel)->Ok_0.fs_type == FilesystemType::Ext4,
        resolve_layout_spec(sel)->Ok_0.fs_type == FilesystemType::Xfs
            || resolve_layout_spec(sel)->Ok_0.fs_type == FilesystemType::Ext4,
        forall|i: int| 0 <= i < resolve_layout_spec(sel)->Ok_0.format_actions.len()
            && #[trigger] resolve_layout_spec(sel)->Ok_0.format_actions[i].device == resolve_layout_spec(sel)->Ok_0.root_partition
            ==> resolve_layout_spec(sel)->Ok_0.format_actions[i].fs == resolve_layout_spec(sel)->Ok_0.fs_type,
        sel.setup_mode == SetupMode::Automatic ==> exists|i: int| 0 <= i < resolve_layout_spec(sel)->Ok_0.format_actions.len()
            && #[trigger] resolve_layout_spec(sel)->Ok_0.format_actions[i].device == resolve_layout_spec(sel)->Ok_0.root_partition
            && resolve_layout_spec(sel)->Ok_0.format_actions[i].fs == resolve_layout_spec(sel)->Ok_0.fs_type,
{
    let l = resolve_layout_spec(sel)->Ok_0;
    let f = l.format_actions;
    assert("ext4"@ != "xfs"@) by {
        broadcast use vstd::string::group_string_axioms;
        reveal_strlit("xfs");
        reveal_strlit("ext4");
        assert("ext4"@.len() == 4 && "xfs"@.len() == 3);
    }
    if sel.setup_mode == SetupMode::Automatic {
        let disk = sel.install_disk@;
        let root_index: nat = if sel.swap_mode == SwapMode::Partition { 3 } else { 2 };
        lemma_partition_numbers_differ(disk, disk, 1, root_index);
        lemma_partition_numbers_differ(disk, disk, 2, 3);
        if home_other_disk(sel) {
            lemma_partition_numbers_differ(sel.home_disk.unwrap()@, disk, 1, root_index);
        }
        assert(f[1].device == l.root_partition);
        assert forall|i: int| 0 <= i < f.len() && #[trigger] f[i].device == l.root_partition implies f[i].fs == l.fs_type by {
            if i >= 2 {
                if home_other_disk(sel) && i == 2 {
                } else {
                    assert(f[i].device == partition_path(disk, 2));
                }
            }
        }
    } else {
        let efi = sel.manual_efi_partition.unwrap()@;
        let root = sel.manual_root_partition.unwrap()@;
        let separate = sel.home_mode == HomeMode::Separate;
        let home = sel.manual_home_partition.unwrap()@;
        let swap = sel.manual_swap_partition.unwrap()@;
        let a: Seq<FormatActionModel> = if sel.format_efi { seq![fmt(efi, FilesystemType::Fat32)] } else { Seq::empty() };
        let b: Seq<FormatActionModel> = if sel.format_root { seq![fmt(root, l.fs_type)] } else { Seq::empty() };
        let c: Seq<FormatActionModel> = if sel.format_home && separate { seq![fmt(home, FilesystemType::Ext4)] } else { Seq::empty() };
        let d: Seq<FormatActionModel> = if sel.swap_mode == SwapMode::Partition && sel.format_swap {
            seq![fmt(swap, FilesystemType::Swap)]
        } else {
            Seq::empty()
        };
        assert(f == a + b + c + d);
        assert forall|i: int| 0 <= i < f.len() && #[trigger] f[i].device == l.root_partition implies f[i].fs == l.fs_type by {
            if i < a.len() {
                assert(f[i] == a[i]);
            } else if i < a.len() + b.len() {
                assert(f[i] == b[i - a.len()]);
            } else if i < a.len() + b.len() + c.len() {
                assert(f[i] == c[i - a.len() - b.len()]);
            } else {
                assert(f[i] == d[i - a.len() - b.len() - c.len()]);
            }
        }
    }
}

} // verus!
