use crate::installer::disk_manager::{partition_device_path, partition_path};
use crate::text::{
    decimal, is_blank, is_whitespace, opt_view, owned,
    seq_join, str_eq, u64_to_string, views, join,
};
use vstd::prelude::*;

verus! {

#[derive(Clone, Copy, Debug, PartialEq, Eq, Structural)]
pub enum SetupMode {
    Automatic,
    Manual,
}

#[derive(Clone, Copy, Debug, PartialEq, Eq, Structural)]
pub enum SwapMode {
    Partition,
    File,
}

#[derive(Clone, Copy, Debug, PartialEq, Eq, Structural)]
pub enum HomeMode {
    OnRoot,
    Separate,
}

#[derive(Clone, Copy, Debug, PartialEq, Eq, Structural)]
pub enum HomeLocation {
    SameDisk,
    OtherDisk,
}

#[derive(Clone, Copy, Debug, PartialEq, Eq, Structural)]
pub enum FilesystemType {
    Fat32,
    Ext4,
    Xfs,
    Swap,
}

impl FilesystemType {
    /// The name of the filesystem as `mkfs`/`mount` know it.
    pub open spec fn label_spec(self) -> Seq<char> {
        match self {
            FilesystemType::Fat32 => "vfat"@,
            FilesystemType::Ext4 => "ext4"@,
            FilesystemType::Xfs => "xfs"@,
            FilesystemType::Swap => "swap"@,
        }
    }

    pub fn label(&self) -> (r: &'static str)
        ensures
            r@ == self.label_spec(),
    {
        match self {
            FilesystemType::Fat32 => "vfat",
            FilesystemType::Ext4 => "ext4",
            FilesystemType::Xfs => "xfs",
            FilesystemType::Swap => "swap",
        }
    }
}

#[derive(Clone, Debug, PartialEq, Eq)]
pub struct PartitionSpec {
    pub index: u8,
    pub size_gib: Option<u64>,
    pub partition_type: &'static str,
    pub label: &'static str,
}

pub struct PartitionSpecModel {
    pub index: u8,
    pub size_gib: Option<u64>,
    pub partition_type: Seq<char>,
    pub label: Seq<char>,
}

impl View for PartitionSpec {
    type V = PartitionSpecModel;

    open spec fn view(&self) -> PartitionSpecModel {
        PartitionSpecModel {
            index: self.index,
            size_gib: self.size_gib,
            partition_type: self.partition_type@,
            label: self.label@,
        }
    }
}

#[derive(Clone, Debug, PartialEq, Eq)]
pub struct AutoPartitionPlan {
    pub disk: String,
    pub partitions: Vec<PartitionSpec>,
}

pub struct AutoPartitionPlanModel {
    pub disk: Seq<char>,
    pub partitions: Seq<PartitionSpecModel>,
}

impl View for AutoPartitionPlan {
    type V = AutoPartitionPlanModel;

    open spec fn view(&self) -> AutoPartitionPlanModel {
        AutoPartitionPlanModel {
            disk: self.disk@,
            partitions: self.partitions@.map_values(|p: PartitionSpec| p@),
        }
    }
}

#[derive(Clone, Debug, PartialEq, Eq)]
pub struct FormatAction {
    pub device: String,
    pub fs: FilesystemType,
}

pub struct FormatActionModel {
    pub device: Seq<char>,
    pub fs: FilesystemType,
}

impl View for FormatAction {
    type V = FormatActionModel;

    open spec fn view(&self) -> FormatActionModel {
        FormatActionModel { device: self.device@, fs: self.fs }
    }
}

#[derive(Clone, Debug, PartialEq, Eq)]
pub struct MountAction {
    pub device: String,
    pub target: String,
}

pub struct MountActionModel {
    pub device: Seq<char>,
    pub target: Seq<char>,
}

impl View for MountAction {
    type V = MountActionModel;

    open spec fn view(&self) -> MountActionModel {
        MountActionModel { device: self.device@, target: self.target@ }
    }
}

#[derive(Clone, Debug, PartialEq, Eq)]
pub enum SwapAction {
    Partition { device: String },
    File { path: String, size_mb: u64 },
}

pub enum SwapActionModel {
    Partition { device: Seq<char> },
    File { path: Seq<char>, size_mb: u64 },
}

impl View for SwapAction {
    type V = SwapActionModel;

    open spec fn view(&self) -> SwapActionModel {
        match self {
            SwapAction::Partition { device } => SwapActionModel::Partition { device: device@ },
            SwapAction::File { path, size_mb } => SwapActionModel::File { path: path@, size_mb: *size_mb },
        }
    }
}

pub open spec fn swap_view(o: Option<SwapAction>) -> Option<SwapActionModel> {
    match o {
        Some(a) => Some(a@),
        None => None,
    }
}

#[derive(Clone, Debug, PartialEq, Eq)]
pub struct ResolvedInstallLayout {
    pub setup_mode: SetupMode,
    pub fs_type: FilesystemType,
    pub root_partition: String,
    pub efi_partition: String,
    pub home_partition: Option<String>,
    pub auto_partition: Vec<AutoPartitionPlan>,
    pub format_actions: Vec<FormatAction>,
    pub mount_actions: Vec<MountAction>,
    pub swap_action: Option<SwapAction>,
    pub disks_to_wipe: Vec<String>,
    pub partitions_to_create: Vec<String>,
}

pub struct LayoutModel {
    pub setup_mode: SetupMode,
    pub fs_type: FilesystemType,
    pub root_partition: Seq<char>,
    pub efi_partition: Seq<char>,
    pub home_partition: Option<Seq<char>>,
    pub auto_partition: Seq<AutoPartitionPlanModel>,
    pub format_actions: Seq<FormatActionModel>,
    pub mount_actions: Seq<MountActionModel>,
    pub swap_action: Option<SwapActionModel>,
    pub disks_to_wipe: Seq<Seq<char>>,
    pub partitions_to_create: Seq<Seq<char>>,
}

impl View for ResolvedInstallLayout {
    type V = LayoutModel;

    open spec fn view(&self) -> LayoutModel {
        LayoutModel {
            setup_mode: self.setup_mode,
            fs_type: self.fs_type,
            root_partition: self.root_partition@,
            efi_partition: self.efi_partition@,
            home_partition: opt_view(self.home_partition),
            auto_partition: self.auto_partition@.map_values(|p: AutoPartitionPlan| p@),
            format_actions: self.format_actions@.map_values(|a: FormatAction| a@),
            mount_actions: self.mount_actions@.map_values(|m: MountAction| m@),
            swap_action: swap_view(self.swap_action),
            disks_to_wipe: views(self.disks_to_wipe@),
            partitions_to_create: views(self.partitions_to_create@),
        }
    }
}

#[derive(Clone, Debug, PartialEq, Eq)]
pub struct StorageSelection {
    pub install_disk: String,
    pub setup_mode: SetupMode,
    pub fs_type: String,
    pub swap_mode: SwapMode,
    pub swap_size_gib: u64,
    pub swap_file_size_mb: Option<u64>,
    pub home_mode: HomeMode,
    pub home_location: HomeLocation,
    pub home_disk: Option<String>,
    pub manual_efi_partition: Option<String>,
    pub manual_root_partition: Option<String>,
    pub manual_home_partition: Option<String>,
    pub manual_swap_partition: Option<String>,
    pub format_efi: bool,
    pub format_root: bool,
    pub format_home: bool,
    pub format_swap: bool,
    pub removable_media: bool,
}

// ---------------------------------------------------------------------------
// Manual partitioning roles

#[derive(Clone, Copy, Debug, PartialEq, Eq, Structural)]
pub enum ManualPartitionRole {
    Efi,
    Root,
    Home,
    Swap,
}

impl ManualPartitionRole {
    pub open spec fn label_spec(self) -> Seq<char> {
        match self {
            ManualPartitionRole::Efi => "EFI"@,
            ManualPartitionRole::Root => "root"@,
            ManualPartitionRole::Home => "home"@,
            ManualPartitionRole::Swap => "swap"@,
        }
    }

    /// The role's name as the installer shows it.
    pub fn label(&self) -> (r: &'static str)
        ensures
            r@ == self.label_spec(),
    {
        match self {
            ManualPartitionRole::Efi => "EFI",
            ManualPartitionRole::Root => "root",
            ManualPartitionRole::Home => "home",
            ManualPartitionRole::Swap => "swap",
        }
    }

    pub open spec fn gpt_type_spec(self) -> Seq<char> {
        match self {
            ManualPartitionRole::Efi => "ef00"@,
            ManualPartitionRole::Root => "8300"@,
            ManualPartitionRole::Home => "8300"@,
            ManualPartitionRole::Swap => "8200"@,
        }
    }

    /// The GPT partition type code `sgdisk` is given for the role.
    pub fn gpt_type(&self) -> (r: &'static str)
        ensures
            r@ == self.gpt_type_spec(),
    {
        match self {
            ManualPartitionRole::Efi => "ef00",
            ManualPartitionRole::Root => "8300",
            ManualPartitionRole::Home => "8300",
            ManualPartitionRole::Swap => "8200",
        }
    }

    pub open spec fn default_fs_spec(self, root_fs: FilesystemType) -> FilesystemType {
        match self {
            ManualPartitionRole::Efi => FilesystemType::Fat32,
            ManualPartitionRole::Root => root_fs,
            ManualPartitionRole::Home => FilesystemType::Ext4,
            ManualPartitionRole::Swap => FilesystemType::Swap,
        }
    }

    /// The filesystem a new partition of this role is formatted with.
    pub fn default_fs(&self, root_fs: &FilesystemType) -> (r: FilesystemType)
        ensures
            r == self.default_fs_spec(*root_fs),
    {
        match self {
            ManualPartitionRole::Efi => FilesystemType::Fat32,
            ManualPartitionRole::Root => *root_fs,
            ManualPartitionRole::Home => FilesystemType::Ext4,
            ManualPartitionRole::Swap => FilesystemType::Swap,
        }
    }
}

/// A partition the user asked to create by hand.
#[derive(Clone, Debug, PartialEq, Eq)]
pub struct ManualCreatePartition {
    pub disk: String,
    pub partition_number: u8,
    pub role: ManualPartitionRole,
    pub size_gib: Option<u64>,
    pub use_remaining: bool,
    pub path: String,
}

// ---------------------------------------------------------------------------
// The plan, as a function of the selection

pub open spec fn is_blank_spec(s: Seq<char>) -> bool {
    forall|j: int| 0 <= j < s.len() ==> is_whitespace(#[trigger] s[j])
}

pub open spec fn msg_unsupported_fs(fs: Seq<char>) -> Seq<char> {
    "Unsupported filesystem '"@ + fs + "'. Supported values: xfs, ext4."@
}

/// The error `validate_common` reports, if any.
pub open spec fn validate_common_spec(sel: StorageSelection) -> Option<Seq<char>> {
    if is_blank_spec(sel.install_disk@) {
        Some("No install disk selected."@)
    } else if sel.swap_mode == SwapMode::File && sel.swap_file_size_mb is None {
        Some("Swap file mode requires a size in MB."@)
    } else if sel.swap_mode == SwapMode::File && sel.swap_file_size_mb.unwrap() < 512 {
        Some("Swap file size must be at least 512 MB."@)
    } else if sel.setup_mode == SetupMode::Automatic && sel.home_mode == HomeMode::Separate
        && sel.home_location == HomeLocation::OtherDisk && sel.home_disk is None {
        Some("Select a second disk for /home."@)
    } else if sel.setup_mode == SetupMode::Automatic && sel.home_mode == HomeMode::Separate
        && sel.home_location == HomeLocation::OtherDisk && sel.home_disk.unwrap()@
        == sel.install_disk@ {
        Some("Home disk must be different from install disk."@)
    } else {
        None
    }
}

pub open spec fn parse_root_fs_spec(fs: Seq<char>) -> Result<FilesystemType, Seq<char>> {
    if fs == "xfs"@ {
        Ok(FilesystemType::Xfs)
    } else if fs == "ext4"@ {
        Ok(FilesystemType::Ext4)
    } else {
        Err(msg_unsupported_fs(fs))
    }
}

pub open spec fn pspec(index: u8, size: Option<u64>, ty: Seq<char>, label: Seq<char>) -> PartitionSpecModel {
    PartitionSpecModel { index, size_gib: size, partition_type: ty, label }
}

pub open spec fn fmt(device: Seq<char>, fs: FilesystemType) -> FormatActionModel {
    FormatActionModel { device, fs }
}

pub open spec fn mnt(device: Seq<char>, target: Seq<char>) -> MountActionModel {
    MountActionModel { device, target }
}

/// The mount plan: root at `/mnt`, EFI at `/mnt/boot`, and `/home` if separate.
pub open spec fn mounts_spec(root: Seq<char>, efi: Seq<char>, home: Option<Seq<char>>) -> Seq<MountActionModel> {
    seq![mnt(root, "/mnt"@), mnt(efi, "/mnt/boot"@)] + match home {
        Some(h) => seq![mnt(h, "/mnt/home"@)],
        None => Seq::empty(),
    }
}

pub open spec fn swap_file_spec(size_mb: u64) -> SwapActionModel {
    SwapActionModel::File { path: "/mnt/swapfile"@, size_mb }
}

pub open spec fn home_other_disk(sel: StorageSelection) -> bool {
    sel.home_mode == HomeMode::Separate && sel.home_location == HomeLocation::OtherDisk
}

/// The layout of an automatic setup, for a selection that passed validation.
pub open spec fn automatic_spec(sel: StorageSelection, root_fs: FilesystemType) -> Result<LayoutModel, Seq<char>> {
    if sel.home_mode == HomeMode::Separate && sel.home_location == HomeLocation::SameDisk {
        Err("Automatic setup does not support a separate /home on the same disk. Use Manual mode or choose another disk."@)
    } else {
        let disk = sel.install_disk@;
        let swap_part = sel.swap_mode == SwapMode::Partition;
        let root_index: u8 = if swap_part { 3 } else { 2 };
        let install_parts = seq![pspec(1, Some(1), "ef00"@, "boot"@)]
            + (if swap_part { seq![pspec(2, Some(sel.swap_size_gib), "8200"@, "swap"@)] } else { Seq::empty() })
            + seq![pspec(root_index, None, "8300"@, "root"@)];
        let efi = partition_path(disk, 1);
        let root = partition_path(disk, root_index as nat);
        let other = home_other_disk(sel);
        let home_disk = sel.home_disk.unwrap()@;
        let home: Option<Seq<char>> = if other { Some(partition_path(home_disk, 1)) } else { None };
        let auto = seq![AutoPartitionPlanModel { disk, partitions: install_parts }]
            + (if other { seq![AutoPartitionPlanModel { disk: home_disk, partitions: seq![pspec(1, None, "8300"@, "home"@)] }] } else { Seq::empty() });
        let wipe = seq![disk] + (if other { seq![home_disk] } else { Seq::empty() });
        let create = seq![disk + ": EFI 1 GiB"@, disk + ": root ("@ + root_fs.label_spec() + ")"@]
            + (if other { seq![home_disk + ": home (ext4)"@] } else { Seq::empty() })
            + (if swap_part { seq![disk + ": swap "@ + decimal(sel.swap_size_gib as nat) + " GiB"@] } else { Seq::empty() });
        let swap = if swap_part {
            SwapActionModel::Partition { device: partition_path(disk, 2) }
        } else {
            swap_file_spec(sel.swap_file_size_mb.unwrap())
        };
        let formats = seq![fmt(efi, FilesystemType::Fat32), fmt(root, root_fs)]
            + (if other { seq![fmt(partition_path(home_disk, 1), FilesystemType::Ext4)] } else { Seq::empty() })
            + (if swap_part { seq![fmt(partition_path(disk, 2), FilesystemType::Swap)] } else { Seq::empty() });
        Ok(LayoutModel {
            setup_mode: SetupMode::Automatic,
            fs_type: root_fs,
            root_partition: root,
            efi_partition: efi,
            home_partition: home,
            auto_partition: auto,
            format_actions: formats,
            mount_actions: mounts_spec(root, efi, home),
            swap_action: Some(swap),
            disks_to_wipe: wipe,
            partitions_to_create: create,
        })
    }
}

/// The layout of a manual setup, for a selection that passed validation.
pub open spec fn manual_spec(sel: StorageSelection, root_fs: FilesystemType) -> Result<LayoutModel, Seq<char>> {
    if sel.manual_efi_partition is None {
        Err("Select an EFI partition for manual setup."@)
    } else if sel.manual_root_partition is None {
        Err("Select a root partition for manual setup."@)
    } else {
        let efi = sel.manual_efi_partition.unwrap()@;
        let root = sel.manual_root_partition.unwrap()@;
        let separate = sel.home_mode == HomeMode::Separate;
        let home = sel.manual_home_partition.unwrap()@;
        let swap = sel.manual_swap_partition.unwrap()@;
        let home_opt: Option<Seq<char>> = if separate { Some(home) } else { None };
        if efi == root {
            Err("EFI and root partitions must be different."@)
        } else if separate && sel.manual_home_partition is None {
            Err("Select a /home partition for manual setup."@)
        } else if separate && (home == efi || home == root) {
            Err("/home partition must differ from EFI and root."@)
        } else if sel.swap_mode == SwapMode::Partition && sel.manual_swap_partition is None {
            Err("Select a swap partition for manual setup."@)
        } else if sel.swap_mode == SwapMode::Partition && (swap == efi || swap == root) {
            Err("Swap partition must differ from EFI and root."@)
        } else if sel.swap_mode == SwapMode::Partition && separate && swap == home {
            Err("Swap partition must differ from /home."@)
        } else {
            let formats = (if sel.format_efi { seq![fmt(efi, FilesystemType::Fat32)] } else { Seq::empty() })
                + (if sel.format_root { seq![fmt(root, root_fs)] } else { Seq::empty() })
                + (if sel.format_home && separate { seq![fmt(home, FilesystemType::Ext4)] } else { Seq::empty() })
                + (if sel.swap_mode == SwapMode::Partition && sel.format_swap { seq![fmt(swap, FilesystemType::Swap)] } else { Seq::empty() });
            let swap_action = if sel.swap_mode == SwapMode::Partition {
                SwapActionModel::Partition { device: swap }
            } else {
                swap_file_spec(sel.swap_file_size_mb.unwrap())
            };
            Ok(LayoutModel {
                setup_mode: SetupMode::Manual,
                fs_type: root_fs,
                root_partition: root,
                efi_partition: efi,
                home_partition: home_opt,
                auto_partition: Seq::empty(),
                format_actions: formats,
                mount_actions: mounts_spec(root, efi, home_opt),
                swap_action: Some(swap_action),
                disks_to_wipe: Seq::empty(),
                partitions_to_create: Seq::empty(),
            })
        }
    }
}

/// The install layout that a selection resolves to, or the message that
/// rejects it.
pub open spec fn resolve_layout_spec(sel: StorageSelection) -> Result<LayoutModel, Seq<char>> {
    match validate_common_spec(sel) {
        Some(e) => Err(e),
        None => match parse_root_fs_spec(sel.fs_type@) {
            Err(e) => Err(e),
            Ok(fs) => match sel.setup_mode {
                SetupMode::Automatic => automatic_spec(sel, fs),
                SetupMode::Manual => manual_spec(sel, fs),
            },
        },
    }
}

pub open spec fn layout_result_view(r: Result<ResolvedInstallLayout, String>) -> Result<LayoutModel, Seq<char>> {
    match r {
        Ok(l) => Ok(l@),
        Err(e) => Err(e@),
    }
}

fn validate_common(selection: &StorageSelection) -> (r: Result<(), String>)
    ensures
        match r {
            Ok(()) => validate_common_spec(*selection) is None,
            Err(e) => validate_common_spec(*selection) == Some(e@),
        },
{
    if is_blank(selection.install_disk.as_str()) {
        return Err("No install disk selected.".to_string());
    }
    if selection.swap_mode == SwapMode::File {
        match selection.swap_file_size_mb {
            None => {
                return Err("Swap file mode requires a size in MB.".to_string());
            },
            Some(size) => {
                if size < 512 {
                    return Err("Swap file size must be at least 512 MB.".to_string());
                }
            },
        }
    }
    if selection.setup_mode == SetupMode::Automatic && selection.home_mode == HomeMode::Separate
        && selection.home_location == HomeLocation::OtherDisk {
        match &selection.home_disk {
            None => {
                return Err("Select a second disk for /home.".to_string());
            },
            Some(home_disk) => {
                if *home_disk == selection.install_disk {
                    return Err("Home disk must be different from install disk.".to_string());
                }
            },
        }
    }
    Ok(())
}

fn parse_root_fs(fs_type: &str) -> (r: Result<FilesystemType, String>)
    ensures
        match r {
            Ok(fs) => parse_root_fs_spec(fs_type@) == Ok::<FilesystemType, Seq<char>>(fs),
            Err(e) => parse_root_fs_spec(fs_type@) == Err::<FilesystemType, Seq<char>>(e@),
        },
{
    if str_eq(fs_type, "xfs") {
        Ok(FilesystemType::Xfs)
    } else if str_eq(fs_type, "ext4") {
        Ok(FilesystemType::Ext4)
    } else {
        Err(owned("Unsupported filesystem '").concat(fs_type).concat("'. Supported values: xfs, ext4."))
    }
}

/// Resolves what a storage selection will do to the disks: which disks are
/// wiped and repartitioned, which partitions are formatted and how, where
/// each is mounted, and how swap is provided. Every rejected selection gets
/// the message that `resolve_layout_spec` names.
pub fn resolve_layout(selection: &StorageSelection) -> (r: Result<ResolvedInstallLayout, String>)
    ensures
        layout_result_view(r) == resolve_layout_spec(*selection),
{
    match validate_common(selection) {
        Err(e) => { return Err(e); },
        Ok(()) => {},
    }
    let root_fs = match parse_root_fs(selection.fs_type.as_str()) {
        Err(e) => { return Err(e); },
        Ok(fs) => fs,
    };
    match selection.setup_mode {
        SetupMode::Automatic => resolve_automatic(selection, root_fs),
        SetupMode::Manual => resolve_manual(selection, root_fs),
    }
}

fn resolve_automatic(selection: &StorageSelection, root_fs: FilesystemType) -> (r: Result<ResolvedInstallLayout, String>)
    requires
        validate_common_spec(*selection) is None,
        selection.setup_mode == SetupMode::Automatic,
    ensures
        layout_result_view(r) == automatic_spec(*selection, root_fs),
{
    if selection.home_mode == HomeMode::Separate && selection.home_location == HomeLocation::SameDisk {
        return Err(
            "Automatic setup does not support a separate /home on the same disk. Use Manual mode or choose another disk.".to_string(),
        );
    }
    let ghost sel = *selection;
    let install_disk = selection.install_disk.clone();
    let swap_part = selection.swap_mode == SwapMode::Partition;
    let mut install_parts: Vec<PartitionSpec> = Vec::new();
    install_parts.push(PartitionSpec { index: 1, size_gib: Some(1), partition_type: "ef00", label: "boot" });
    let root_index: u8 = if swap_part {
        install_parts.push(PartitionSpec {
            index: 2,
            size_gib: Some(selection.swap_size_gib),
            partition_type: "8200",
            label: "swap",
        });
        3
    } else {
        2
    };
    install_parts.push(PartitionSpec { index: root_index, size_gib: None, partition_type: "8300", label: "root" });

    let efi_partition = partition_device_path(install_disk.as_str(), 1);
    let root_partition = partition_device_path(install_disk.as_str(), root_index);
    let other = selection.home_mode == HomeMode::Separate && selection.home_location == HomeLocation::OtherDisk;

    let mut auto_partition: Vec<AutoPartitionPlan> = Vec::new();
    auto_partition.push(AutoPartitionPlan { disk: install_disk.clone(), partitions: install_parts });
    let mut disks_to_wipe: Vec<String> = Vec::new();
    disks_to_wipe.push(install_disk.clone());
    let mut partitions_to_create: Vec<String> = Vec::new();
    partitions_to_create.push(install_disk.clone().concat(": EFI 1 GiB"));
    partitions_to_create.push(install_disk.clone().concat(": root (").concat(root_fs.label()).concat(")"));

    let mut home_partition: Option<String> = None;
    if other {
        let home_disk = match &selection.home_disk {
            Some(d) => d.clone(),
            None => { return Err("Select a second disk for /home.".to_string()); },
        };
        let mut home_parts: Vec<PartitionSpec> = Vec::new();
        home_parts.push(PartitionSpec { index: 1, size_gib: None, partition_type: "8300", label: "home" });
        auto_partition.push(AutoPartitionPlan { disk: home_disk.clone(), partitions: home_parts });
        disks_to_wipe.push(home_disk.clone());
        home_partition = Some(partition_device_path(home_disk.as_str(), 1));
        partitions_to_create.push(home_disk.concat(": home (ext4)"));
    }

    let swap_action = if swap_part {
        partitions_to_create.push(
            install_disk.clone().concat(": swap ").concat(u64_to_string(selection.swap_size_gib).as_str()).concat(" GiB"),
        );
        SwapAction::Partition { device: partition_device_path(install_disk.as_str(), 2) }
    } else {
        let size_mb = match selection.swap_file_size_mb {
            Some(v) => v,
            None => { return Err("Swap file mode requires a size in MB.".to_string()); },
        };
        SwapAction::File { path: "/mnt/swapfile".to_string(), size_mb }
    };

    let mut format_actions: Vec<FormatAction> = Vec::new();
    format_actions.push(FormatAction { device: efi_partition.clone(), fs: FilesystemType::Fat32 });
    format_actions.push(FormatAction { device: root_partition.clone(), fs: root_fs });
    match &home_partition {
        Some(home) => {
            format_actions.push(FormatAction { device: home.clone(), fs: FilesystemType::Ext4 });
        },
        None => {},
    }
    if swap_part {
        format_actions.push(FormatAction {
            device: partition_device_path(install_disk.as_str(), 2),
            fs: FilesystemType::Swap,
        });
    }
    let mount_actions = mount_plan(&root_partition, &efi_partition, &home_partition);

    let layout = ResolvedInstallLayout {
        setup_mode: SetupMode::Automatic,
        fs_type: root_fs,
        root_partition,
        efi_partition,
        home_partition,
        auto_partition,
        format_actions,
        mount_actions,
        swap_action: Some(swap_action),
        disks_to_wipe,
        partitions_to_create,
    };
    proof {
        let m = automatic_spec(sel, root_fs)->Ok_0;
        assert(layout@.auto_partition[0].partitions =~= m.auto_partition[0].partitions);
        if other {
            assert(layout@.auto_partition[1].partitions =~= m.auto_partition[1].partitions);
        }
        assert(layout@.auto_partition =~= m.auto_partition);
        assert(layout@.disks_to_wipe =~= m.disks_to_wipe);
        assert(layout@.partitions_to_create =~= m.partitions_to_create);
        assert(layout@.format_actions =~= m.format_actions);
    }
    Ok(layout)
}

fn mount_plan(root: &String, efi: &String, home: &Option<String>) -> (r: Vec<MountAction>)
    ensures
        r@.map_values(|m: MountAction| m@) == mounts_spec(root@, efi@, opt_view(*home)),
{
    let mut mounts: Vec<MountAction> = Vec::new();
    mounts.push(MountAction { device: root.clone(), target: "/mnt".to_string() });
    mounts.push(MountAction { device: efi.clone(), target: "/mnt/boot".to_string() });
    match home {
        Some(h) => {
            mounts.push(MountAction { device: h.clone(), target: "/mnt/home".to_string() });
        },
        None => {},
    }
    assert(mounts@.map_values(|m: MountAction| m@) =~= mounts_spec(root@, efi@, opt_view(*home)));
    mounts
}

fn resolve_manual(selection: &StorageSelection, root_fs: FilesystemType) -> (r: Result<ResolvedInstallLayout, String>)
    requires
        validate_common_spec(*selection) is None,
        selection.setup_mode == SetupMode::Manual,
    ensures
        layout_result_view(r) == manual_spec(*selection, root_fs),
{
    let ghost sel = *selection;
    let efi_partition = match &selection.manual_efi_partition {
        Some(p) => p.clone(),
        None => { return Err("Select an EFI partition for manual setup.".to_string()); },
    };
    let root_partition = match &selection.manual_root_partition {
        Some(p) => p.clone(),
        None => { return Err("Select a root partition for manual setup.".to_string()); },
    };
    if efi_partition == root_partition {
        return Err("EFI and root partitions must be different.".to_string());
    }
    let separate = selection.home_mode == HomeMode::Separate;
    let home_partition: Option<String> = if separate {
        let home = match &selection.manual_home_partition {
            Some(p) => p.clone(),
            None => { return Err("Select a /home partition for manual setup.".to_string()); },
        };
        if home == efi_partition || home == root_partition {
            return Err("/home partition must differ from EFI and root.".to_string());
        }
        Some(home)
    } else {
        None
    };

    let mut format_actions: Vec<FormatAction> = Vec::new();
    if selection.format_efi {
        format_actions.push(FormatAction { device: efi_partition.clone(), fs: FilesystemType::Fat32 });
    }
    if selection.format_root {
        format_actions.push(FormatAction { device: root_partition.clone(), fs: root_fs });
    }
    if selection.format_home {
        match &home_partition {
            Some(home) => {
                format_actions.push(FormatAction { device: home.clone(), fs: FilesystemType::Ext4 });
            },
            None => {},
        }
    }
    let ghost before_swap = format_actions@;

    let swap_action = match selection.swap_mode {
        SwapMode::Partition => {
            let swap_partition = match &selection.manual_swap_partition {
                Some(p) => p.clone(),
                None => { return Err("Select a swap partition for manual setup.".to_string()); },
            };
            if swap_partition == efi_partition || swap_partition == root_partition {
                return Err("Swap partition must differ from EFI and root.".to_string());
            }
            match &home_partition {
                Some(home) => {
                    if swap_partition == *home {
                        return Err("Swap partition must differ from /home.".to_string());
                    }
                },
                None => {},
            }
            if selection.format_swap {
                format_actions.push(FormatAction { device: swap_partition.clone(), fs: FilesystemType::Swap });
            }
            SwapAction::Partition { device: swap_partition }
        },
        SwapMode::File => {
            let size_mb = match selection.swap_file_size_mb {
                Some(v) => v,
                None => { return Err("Swap file mode requires a size in MB.".to_string()); },
            };
            SwapAction::File { path: "/mnt/swapfile".to_string(), size_mb }
        },
    };
    let mount_actions = mount_plan(&root_partition, &efi_partition, &home_partition);
    let layout = ResolvedInstallLayout {
        setup_mode: SetupMode::Manual,
        fs_type: root_fs,
        root_partition,
        efi_partition,
        home_partition,
        auto_partition: Vec::new(),
        format_actions,
        mount_actions,
        swap_action: Some(swap_action),
        disks_to_wipe: Vec::new(),
        partitions_to_create: Vec::new(),
    };
    proof {
        let m = manual_spec(sel, root_fs)->Ok_0;
        assert(layout@.auto_partition =~= m.auto_partition);
        assert(layout@.disks_to_wipe =~= m.disks_to_wipe);
        assert(layout@.partitions_to_create =~= m.partitions_to_create);
        assert(layout@.format_actions =~= m.format_actions);
    }
    Ok(layout)
}

// ---------------------------------------------------------------------------
// The destructive summary shown before installing

/// One `- item` line per item, or a single `- none` line when there are none.
pub open spec fn bullet_lines(items: Seq<Seq<char>>) -> Seq<Seq<char>> {
    if items.len() == 0 {
        seq!["- none"@]
    } else {
        items.map_values(|x: Seq<char>| "- "@ + x)
    }
}

pub open spec fn format_line(a: FormatActionModel) -> Seq<char> {
    a.device + " as "@ + a.fs.label_spec()
}

pub open spec fn mount_line(m: MountActionModel) -> Seq<char> {
    "- "@ + m.device + " -> "@ + m.target
}

pub open spec fn swap_lines(s: Option<SwapActionModel>) -> Seq<Seq<char>> {
    match s {
        Some(SwapActionModel::Partition { device }) => seq!["Swap: partition "@ + device],
        Some(SwapActionModel::File { path, size_mb }) => seq![
            "Swap: file "@ + path + " ("@ + decimal(size_mb as nat) + " MB)"@,
        ],
        None => Seq::empty(),
    }
}

/// The lines of the destructive summary of a layout.
pub open spec fn destructive_plan_lines(l: LayoutModel) -> Seq<Seq<char>> {
    seq!["Disks to wipe:"@] + bullet_lines(l.disks_to_wipe) + seq!["Partitions to create:"@]
        + bullet_lines(l.partitions_to_create) + seq!["Partitions to format:"@] + bullet_lines(
        l.format_actions.map_values(|a: FormatActionModel| format_line(a)),
    ) + seq!["Mount plan:"@] + l.mount_actions.map_values(|m: MountActionModel| mount_line(m))
        + swap_lines(l.swap_action)
}

fn push_line(lines: &mut Vec<String>, line: String)
    ensures
        views(final(lines)@) == views(old(lines)@).push(line@),
{
    let ghost prev = lines@;
    lines.push(line);
    assert(lines@ =~= prev.push(line));
    assert(views(lines@) =~= views(prev).push(line@));
}

fn push_bullets(lines: &mut Vec<String>, items: &Vec<String>)
    ensures
        views(final(lines)@) == views(old(lines)@) + bullet_lines(views(items@)),
{
    let ghost start = views(lines@);
    if items.len() == 0 {
        push_line(lines, "- none".to_string());
        assert(views(lines@) =~= start + bullet_lines(views(items@)));
        return;
    }
    let n = items.len();
    let mut i: usize = 0;
    while i < n
        invariant
            n == items@.len(),
            n > 0,
            i <= n,
            views(lines@) == start + views(items@).take(i as int).map_values(|x: Seq<char>| "- "@ + x),
        decreases n - i,
    {
        push_line(lines, "- ".to_string().concat(items[i].as_str()));
        assert(views(items@).take(i + 1) =~= views(items@).take(i as int).push(items@[i as int]@));
        assert(views(lines@) =~= start + views(items@).take(i + 1).map_values(|x: Seq<char>| "- "@ + x));
        i = i + 1;
    }
    assert(views(items@).take(n as int) =~= views(items@));
}

/// The human-readable summary of what a layout wipes, creates, formats and
/// mounts, one item per line.
pub fn format_destructive_plan(layout: &ResolvedInstallLayout) -> (r: String)
    ensures
        r@ == seq_join(destructive_plan_lines(layout@), "\n"@),
{
    let ghost l = layout@;
    let mut lines: Vec<String> = Vec::new();
    assert(views(lines@) =~= Seq::<Seq<char>>::empty());
    push_line(&mut lines, "Disks to wipe:".to_string());
    push_bullets(&mut lines, &layout.disks_to_wipe);
    push_line(&mut lines, "Partitions to create:".to_string());
    push_bullets(&mut lines, &layout.partitions_to_create);
    push_line(&mut lines, "Partitions to format:".to_string());
    let ghost s1 = views(lines@);
    assert(s1 =~= seq!["Disks to wipe:"@] + bullet_lines(l.disks_to_wipe) + seq!["Partitions to create:"@]
        + bullet_lines(l.partitions_to_create) + seq!["Partitions to format:"@]);

    let mut formats: Vec<String> = Vec::new();
    let n = layout.format_actions.len();
    let mut i: usize = 0;
    while i < n
        invariant
            n == layout.format_actions@.len(),
            l == layout@,
            i <= n,
            views(formats@) == l.format_actions.take(i as int).map_values(|a: FormatActionModel| format_line(a)),
        decreases n - i,
    {
        let action = &layout.format_actions[i];
        push_line(&mut formats, action.device.clone().concat(" as ").concat(action.fs.label()));
        assert(l.format_actions.take(i + 1) =~= l.format_actions.take(i as int).push(l.format_actions[i as int]));
        assert(views(formats@) =~= l.format_actions.take(i + 1).map_values(|a: FormatActionModel| format_line(a)));
        i = i + 1;
    }
    assert(l.format_actions.take(n as int) =~= l.format_actions);
    push_bullets(&mut lines, &formats);
    push_line(&mut lines, "Mount plan:".to_string());
    let ghost before_mounts = views(lines@);
    let m = layout.mount_actions.len();
    let mut j: usize = 0;
    while j < m
        invariant
            m == layout.mount_actions@.len(),
            l == layout@,
            j <= m,
            views(lines@) == before_mounts + l.mount_actions.take(j as int).map_values(|x: MountActionModel| mount_line(x)),
        decreases m - j,
    {
        let mount = &layout.mount_actions[j];
        push_line(&mut lines, "- ".to_string().concat(mount.device.as_str()).concat(" -> ").concat(mount.target.as_str()));
        assert(l.mount_actions.take(j + 1) =~= l.mount_actions.take(j as int).push(l.mount_actions[j as int]));
        assert(views(lines@) =~= before_mounts + l.mount_actions.take(j + 1).map_values(|x: MountActionModel| mount_line(x)));
        j = j + 1;
    }
    assert(l.mount_actions.take(m as int) =~= l.mount_actions);
    let ghost before_swap = views(lines@);
    match &layout.swap_action {
        Some(SwapAction::Partition { device }) => {
            push_line(&mut lines, "Swap: partition ".to_string().concat(device.as_str()));
        },
        Some(SwapAction::File { path, size_mb }) => {
            push_line(
                &mut lines,
                "Swap: file ".to_string().concat(path.as_str()).concat(" (").concat(
                    u64_to_string(*size_mb).as_str(),
                ).concat(" MB)"),
            );
        },
        None => {},
    }
    assert(views(lines@) =~= before_swap + swap_lines(l.swap_action));
    assert(views(lines@) =~= destructive_plan_lines(l));
    join(&lines, "\n")
}

} // verus!
