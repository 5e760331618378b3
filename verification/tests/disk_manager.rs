use access_os_installer::gui::disk_manager as gui_disk;
use access_os_installer::installer::disk_manager::{
    bytes_to_gib, get_internal_block_devices, get_partitions_for_managed_disks, human_gib_label,
    is_internal_device, next_available_partition_number, parse_partition_devices,
    partition_belongs_to_managed_disks, partition_device_path, BlockDevice, PartitionInfo, RmFlag,
};
use access_os_installer::installer::storage_plan::{ManualCreatePartition, ManualPartitionRole};

fn fixture_device(name: &str, device_type: &str, tran: Option<&str>, rm: Option<RmFlag>) -> BlockDevice {
    BlockDevice {
        name: name.to_string(),
        size_bytes: 100 * 1024 * 1024 * 1024,
        model: Some("Fixture".to_string()),
        tran: tran.map(|value| value.to_string()),
        rm,
        device_type: device_type.to_string(),
    }
}

fn gui_fixture_device(name: &str, device_type: &str, tran: Option<&str>, rm: Option<u8>) -> gui_disk::BlockDevice {
    gui_disk::BlockDevice {
        name: name.to_string(),
        size_bytes: 100 * 1024 * 1024 * 1024,
        model: Some("Fixture".to_string()),
        tran: tran.map(|value| value.to_string()),
        rm,
        device_type: device_type.to_string(),
    }
}

fn fixture_partition(path: &str, parent_disk: &str, partition_number: u8) -> PartitionInfo {
    PartitionInfo {
        path: path.to_string(),
        parent_disk: parent_disk.to_string(),
        partition_number,
        size_bytes: 10 * 1024 * 1024 * 1024,
        fstype: None,
    }
}

#[test]
fn disk_manager_internal_filter_excludes_usb_or_removable_disks() {
    let sata = fixture_device("sda", "disk", Some("sata"), Some(RmFlag::Int(0)));
    let usb = fixture_device("sdb", "disk", Some("usb"), Some(RmFlag::Int(1)));
    let partition = fixture_device("sda1", "part", Some("sata"), Some(RmFlag::Int(0)));
    assert!(is_internal_device(&sata));
    assert!(!is_internal_device(&usb));
    assert!(!is_internal_device(&partition));

    let sata = gui_fixture_device("sda", "disk", Some("sata"), Some(0));
    let usb = gui_fixture_device("sdb", "disk", Some("usb"), Some(1));
    let partition = gui_fixture_device("sda1", "part", Some("sata"), Some(0));
    assert!(gui_disk::is_internal_device(&sata));
    assert!(!gui_disk::is_internal_device(&usb));
    assert!(!gui_disk::is_internal_device(&partition));
}

#[test]
fn disk_manager_internal_filter_allows_unknown_transport_non_removable_disks() {
    let nvme = fixture_device("nvme0n1", "disk", None, Some(RmFlag::Int(0)));
    let unknown_rm = fixture_device("vda", "disk", None, None);
    assert!(is_internal_device(&nvme));
    assert!(is_internal_device(&unknown_rm));

    let nvme = gui_fixture_device("nvme0n1", "disk", None, Some(0));
    let unknown_rm = gui_fixture_device("vda", "disk", None, None);
    assert!(gui_disk::is_internal_device(&nvme));
    assert!(gui_disk::is_internal_device(&unknown_rm));
}

#[test]
fn disk_manager_internal_device_query_function_is_available() {
    let _ = get_internal_block_devices;
    let _ = gui_disk::get_internal_block_devices;
}

#[test]
fn disk_manager_partition_device_path_supports_nvme_and_sd_drives() {
    assert_eq!(partition_device_path("/dev/sda", 1), "/dev/sda1");
    assert_eq!(partition_device_path("/dev/nvme0n1", 1), "/dev/nvme0n1p1");
}

#[test]
fn disk_manager_bytes_to_gib_uses_binary_units() {
    assert_eq!(bytes_to_gib(128 * 1024 * 1024 * 1024), 128);
}

#[test]
fn disk_manager_partition_path_supports_selected_partition_refs() {
    assert_eq!(partition_device_path("/dev/nvme0n1", 4), "/dev/nvme0n1p4");
    assert_eq!(partition_device_path("/dev/sda", 2), "/dev/sda2");
}

#[test]
fn managed_disk_filter_function_is_available() {
    let _ = get_partitions_for_managed_disks;
}

#[test]
fn next_partition_number_reuses_deleted_slot() {
    let existing = vec![
        fixture_partition("/dev/nvme0n1p1", "/dev/nvme0n1", 1),
        fixture_partition("/dev/nvme0n1p2", "/dev/nvme0n1", 2),
        fixture_partition("/dev/nvme0n1p3", "/dev/nvme0n1", 3),
    ];
    let pending_creates = vec![ManualCreatePartition {
        disk: "/dev/nvme0n1".to_string(),
        partition_number: 4,
        role: ManualPartitionRole::Root,
        size_gib: None,
        use_remaining: true,
        path: "/dev/nvme0n1p4".to_string(),
    }];
    let pending_deletes = vec!["/dev/nvme0n1p2".to_string()];

    let next = next_available_partition_number("/dev/nvme0n1", &existing, &pending_creates, &pending_deletes).unwrap();

    assert_eq!(next, 2);
}

#[test]
fn managed_disk_check_handles_nvme_and_sata() {
    let allowed = vec!["/dev/nvme0n1".to_string(), "/dev/sda".to_string()];
    assert!(partition_belongs_to_managed_disks("/dev/nvme0n1p4", &allowed));
    assert!(partition_belongs_to_managed_disks("/dev/sda2", &allowed));
    assert!(!partition_belongs_to_managed_disks("/dev/sdb1", &allowed));
}

#[test]
fn next_partition_number_ignores_other_disks_and_reports_full_disk() {
    let existing = vec![
        fixture_partition("/dev/sda1", "/dev/sda", 1),
        fixture_partition("/dev/sdb2", "/dev/sdb", 2),
    ];
    assert_eq!(next_available_partition_number("/dev/sdb", &existing, &[], &[]).unwrap(), 1);
    assert_eq!(next_available_partition_number("/dev/sda", &existing, &[], &[]).unwrap(), 2);

    let full: Vec<PartitionInfo> = (1..=127u8)
        .map(|n| fixture_partition(&format!("/dev/sda{}", n), "/dev/sda", n))
        .collect();
    assert_eq!(
        next_available_partition_number("/dev/sda", &full, &[], &[]).unwrap_err(),
        "No free GPT partition numbers remain on /dev/sda"
    );
}

#[test]
fn partition_listing_is_parsed_and_filtered() {
    let output = "nvme0n1 disk  0 512110190592\nnvme0n1p1 part nvme0n1 1 1073741824 vfat\nnvme0n1p2 part nvme0n1 2 8589934592\nsda1 part sda x 99999999999999999999999 ext4\n";
    let parts = parse_partition_devices(output);
    assert_eq!(parts.len(), 3);
    assert_eq!(parts[0].path, "/dev/nvme0n1p1");
    assert_eq!(parts[0].parent_disk, "/dev/nvme0n1");
    assert_eq!(parts[0].partition_number, 1);
    assert_eq!(parts[0].size_bytes, 1073741824);
    assert_eq!(parts[0].fstype.as_deref(), Some("vfat"));
    assert_eq!(parts[1].fstype, None);
    assert_eq!(parts[2].partition_number, 0);
    assert_eq!(parts[2].size_bytes, 0);

    let managed = get_partitions_for_managed_disks(parts, &["/dev/sda".to_string()]);
    assert_eq!(managed.len(), 1);
    assert_eq!(managed[0].path, "/dev/sda1");

    let gui_parts = gui_disk::parse_partition_devices("sdb1 part sdb 2048 swap\nsdb disk 0 4096\n");
    assert_eq!(gui_parts.len(), 1);
    assert_eq!(gui_parts[0].path, "/dev/sdb1");
    assert_eq!(gui_parts[0].size_bytes, 2048);
}

#[test]
fn human_gib_label_rounds_down() {
    assert_eq!(human_gib_label(3 * 1024 * 1024 * 1024 - 1), "2 GiB");
    assert_eq!(human_gib_label(0), "0 GiB");
}
