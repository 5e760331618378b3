use access_os_installer::installer::storage_plan::{
    format_destructive_plan, resolve_layout, FilesystemType, HomeLocation, HomeMode, SetupMode,
    StorageSelection, SwapMode,
};

fn base_selection() -> StorageSelection {
    StorageSelection {
        install_disk: "/dev/nvme0n1".to_string(),
        setup_mode: SetupMode::Automatic,
        fs_type: "xfs".to_string(),
        swap_mode: SwapMode::Partition,
        swap_size_gib: 8,
        swap_file_size_mb: Some(8192),
        home_mode: HomeMode::OnRoot,
        home_location: HomeLocation::SameDisk,
        home_disk: None,
        manual_efi_partition: None,
        manual_root_partition: None,
        manual_home_partition: None,
        manual_swap_partition: None,
        format_efi: true,
        format_root: true,
        format_home: true,
        format_swap: true,
        removable_media: false,
    }
}

#[test]
fn auto_home_other_disk_requires_distinct_disk() {
    let mut selection = base_selection();
    selection.home_mode = HomeMode::Separate;
    selection.home_location = HomeLocation::OtherDisk;
    selection.home_disk = Some("/dev/nvme0n1".to_string());

    let err = resolve_layout(&selection).unwrap_err();
    assert!(err.contains("different from install disk"));
}

#[test]
fn auto_with_other_disk_home_emits_two_disk_actions() {
    let mut selection = base_selection();
    selection.swap_mode = SwapMode::File;
    selection.home_mode = HomeMode::Separate;
    selection.home_location = HomeLocation::OtherDisk;
    selection.home_disk = Some("/dev/sdb".to_string());

    let layout = resolve_layout(&selection).unwrap();
    assert_eq!(layout.auto_partition.len(), 2);
    assert!(layout.mount_actions.iter().any(|mount| mount.target == "/mnt/home"));
}

#[test]
fn manual_requires_efi_and_root() {
    let mut selection = base_selection();
    selection.setup_mode = SetupMode::Manual;
    selection.swap_mode = SwapMode::File;

    let err = resolve_layout(&selection).unwrap_err();
    assert!(err.contains("EFI partition"));
}

#[test]
fn manual_allows_swap_partition_mode() {
    let mut selection = base_selection();
    selection.setup_mode = SetupMode::Manual;
    selection.swap_mode = SwapMode::Partition;
    selection.manual_efi_partition = Some("/dev/nvme0n1p1".to_string());
    selection.manual_root_partition = Some("/dev/nvme0n1p2".to_string());
    selection.manual_swap_partition = Some("/dev/nvme0n1p3".to_string());

    let layout = resolve_layout(&selection).unwrap();
    assert!(layout
        .format_actions
        .iter()
        .any(|action| action.device == "/dev/nvme0n1p3" && action.fs == FilesystemType::Swap));
}

#[test]
fn manual_swap_partition_must_not_overlap_root() {
    let mut selection = base_selection();
    selection.setup_mode = SetupMode::Manual;
    selection.swap_mode = SwapMode::Partition;
    selection.manual_efi_partition = Some("/dev/nvme0n1p1".to_string());
    selection.manual_root_partition = Some("/dev/nvme0n1p2".to_string());
    selection.manual_swap_partition = Some("/dev/nvme0n1p2".to_string());

    let err = resolve_layout(&selection).unwrap_err();
    assert!(err.contains("Swap partition must differ"));
}

#[test]
fn destructive_summary_lists_wipes_and_formats() {
    let layout = resolve_layout(&base_selection()).unwrap();
    let summary = format_destructive_plan(&layout);
    assert!(summary.contains("Disks to wipe"));
    assert!(summary.contains("Partitions to format"));
    assert!(summary.contains("/mnt"));
}
