use access_os_installer::installer::commands::{CommandSpec, PlanStep};
use access_os_installer::installer::disk_manager::{
    create_manual_partition, delete_partition, execute_layout, execute_manual_layout, execute_partitioning,
    partition_belongs_to_disk, partition_belongs_to_managed_disks, setup_swap_file, PartitionInfo,
};
use access_os_installer::installer::storage_plan::{
    resolve_layout, HomeLocation, HomeMode, ManualCreatePartition, ManualPartitionRole, SetupMode, StorageSelection,
    SwapMode,
};

fn selection(setup_mode: SetupMode, swap_mode: SwapMode) -> StorageSelection {
    StorageSelection {
        install_disk: "/dev/sda".to_string(),
        setup_mode,
        fs_type: "ext4".to_string(),
        swap_mode,
        swap_size_gib: 4,
        swap_file_size_mb: Some(2048),
        home_mode: HomeMode::OnRoot,
        home_location: HomeLocation::SameDisk,
        home_disk: None,
        manual_efi_partition: Some("/dev/sda1".to_string()),
        manual_root_partition: Some("/dev/sda2".to_string()),
        manual_home_partition: None,
        manual_swap_partition: None,
        format_efi: true,
        format_root: true,
        format_home: true,
        format_swap: true,
        removable_media: false,
    }
}

fn partition(path: &str, parent_disk: &str, partition_number: u8) -> PartitionInfo {
    PartitionInfo {
        path: path.to_string(),
        parent_disk: parent_disk.to_string(),
        partition_number,
        size_bytes: 10 * 1024 * 1024 * 1024,
        fstype: None,
    }
}

fn cmd(program: &str, args: &[&str], context: &str) -> CommandSpec {
    CommandSpec {
        program: program.to_string(),
        args: args.iter().map(|a| a.to_string()).collect(),
        context: context.to_string(),
    }
}

fn home_create() -> ManualCreatePartition {
    ManualCreatePartition {
        disk: "/dev/sda".to_string(),
        partition_number: 4,
        role: ManualPartitionRole::Home,
        size_gib: Some(20),
        use_remaining: false,
        path: "/dev/sda4".to_string(),
    }
}

#[test]
fn layout_plan_starts_by_clearing_then_partitions_the_install_disk() {
    let layout = resolve_layout(&selection(SetupMode::Automatic, SwapMode::Partition)).unwrap();
    let steps = execute_layout(&layout);
    assert_eq!(steps[0], PlanStep::Progress("Clearing previous mounts and swap state".to_string()));
    assert_eq!(steps[1], PlanStep::Attempt(cmd("swapoff", &["/mnt/swapfile"], "Swapoff /mnt/swapfile")));
    assert_eq!(steps[4], PlanStep::Attempt(cmd("umount", &["/mnt"], "Unmount /mnt")));
    assert_eq!(steps[5], PlanStep::Progress("Partitioning disk /dev/sda".to_string()));
    let last = steps.last().unwrap();
    assert!(matches!(last, PlanStep::Run(c) if c.program == "mount"));
}

#[test]
fn manual_layout_plan_deletes_then_creates_before_formatting() {
    let layout = resolve_layout(&selection(SetupMode::Manual, SwapMode::File)).unwrap();
    let managed = vec!["/dev/sda".to_string()];
    let steps = execute_manual_layout(&layout, &vec!["/dev/sda3".to_string()], &vec![home_create()], &managed);
    assert_eq!(steps[0], PlanStep::Progress("Clearing previous mounts and swap state".to_string()));
    assert_eq!(steps[5], PlanStep::Progress("Deleting partition /dev/sda3".to_string()));
    assert_eq!(
        steps[6],
        PlanStep::DeletePartition { path: "/dev/sda3".to_string(), managed_disks: managed.clone() }
    );
    assert_eq!(steps[7], PlanStep::Progress("Creating home partition on /dev/sda".to_string()));
    assert_eq!(
        steps[8],
        PlanStep::Run(cmd(
            "sgdisk",
            &["-n", "4:0:+20G", "-t", "4:8300", "-c", "4:home", "/dev/sda"],
            "Failed to create home partition on /dev/sda"
        ))
    );
    assert!(matches!(&steps[9], PlanStep::Progress(p) if p.starts_with("Formatting ")));
}

#[test]
fn deleting_checks_the_managed_disks_and_the_listing() {
    let managed = vec!["/dev/sda".to_string()];
    let partitions = vec![partition("/dev/sdb1", "/dev/sdb", 1), partition("/dev/sdab1", "/dev/sdab", 1)];
    assert_eq!(
        delete_partition("/dev/sdb1", &managed, &partitions).unwrap_err(),
        "Partition /dev/sdb1 is outside the selected install/home disks."
    );
    assert_eq!(
        delete_partition("/dev/sdab1", &managed, &partitions).unwrap_err(),
        "Partition /dev/sdab1 is outside the selected install/home disks."
    );
    assert_eq!(delete_partition("/dev/sda9", &managed, &partitions).unwrap_err(), "Partition /dev/sda9 was not found.");
}

#[test]
fn partitions_belong_only_to_their_own_disk() {
    assert!(partition_belongs_to_disk("/dev/sda2", "/dev/sda"));
    assert!(partition_belongs_to_disk("/dev/nvme0n1p4", "/dev/nvme0n1"));
    assert!(partition_belongs_to_disk("/dev/sda255", "/dev/sda"));
    assert!(!partition_belongs_to_disk("/dev/sdb1", "/dev/sda"));
    assert!(!partition_belongs_to_disk("/dev/sdab1", "/dev/sda"));
    assert!(!partition_belongs_to_disk("/dev/sda", "/dev/sda"));
    assert!(!partition_belongs_to_disk("/dev/sda0", "/dev/sda"));
    assert!(!partition_belongs_to_disk("/dev/sda01", "/dev/sda"));
    assert!(!partition_belongs_to_disk("/dev/sda256", "/dev/sda"));
    assert!(!partition_belongs_to_disk("/dev/nvme0n14", "/dev/nvme0n1"));
    let managed = vec!["/dev/sda".to_string(), "/dev/nvme0n1".to_string()];
    assert!(partition_belongs_to_managed_disks("/dev/nvme0n1p1", &managed));
    assert!(!partition_belongs_to_managed_disks("/dev/sdab1", &managed));
}

#[test]
fn automatic_partitioning_gives_swap_its_size_in_one_argument() {
    let steps = execute_partitioning("/dev/sda", 8, "ext4").unwrap();
    assert_eq!(
        steps[1],
        PlanStep::Run(cmd(
            "sgdisk",
            &[
                "-n", "1:0:+1G", "-t", "1:ef00", "-c", "1:boot", "-n", "2:0:+8G", "-t", "2:8200", "-c", "2:swap", "-n",
                "3:0:0", "-t", "3:8300", "-c", "3:root", "/dev/sda"
            ],
            "Failed to create GPT partitions with sgdisk"
        ))
    );
    assert_eq!(steps[5], PlanStep::Run(cmd("mkfs.ext4", &["-F", "/dev/sda3"], "Failed to format root partition as EXT4")));
    assert_eq!(
        execute_partitioning("/dev/sda", 8, "btrfs").unwrap_err(),
        "Unsupported filesystem 'btrfs'. Supported values: xfs, ext4."
    );
}

#[test]
fn manual_layout_without_changes_matches_plain_layout_plan() {
    let layout = resolve_layout(&selection(SetupMode::Manual, SwapMode::File)).unwrap();
    let managed = vec!["/dev/sda".to_string()];
    let steps = execute_manual_layout(&layout, &vec![], &vec![], &managed);
    assert_eq!(steps, execute_layout(&layout));
}

#[test]
fn partition_commands_name_number_size_type_and_disk() {
    let mut action = home_create();
    action.use_remaining = true;
    assert_eq!(
        create_manual_partition(&action),
        cmd("sgdisk", &["-n", "4:0:0", "-t", "4:8300", "-c", "4:home", "/dev/sda"], "Failed to create home partition on /dev/sda")
    );
    let managed = vec!["/dev/sda".to_string()];
    let partitions = vec![partition("/dev/sda3", "/dev/sda", 3)];
    assert_eq!(
        delete_partition("/dev/sda3", &managed, &partitions),
        Ok(cmd("sgdisk", &["--delete", "3", "/dev/sda"], "Failed to delete /dev/sda3"))
    );
}

#[test]
fn swap_file_plan_allocates_the_configured_size() {
    let layout = resolve_layout(&selection(SetupMode::Manual, SwapMode::File)).unwrap();
    let steps = setup_swap_file(&layout);
    assert!(steps.contains(&PlanStep::Progress("Allocating 2048 MB swap file".to_string())));
    let mut with_partition = selection(SetupMode::Manual, SwapMode::Partition);
    with_partition.manual_swap_partition = Some("/dev/sda3".to_string());
    let no_file = resolve_layout(&with_partition).unwrap();
    assert!(setup_swap_file(&no_file).is_empty());
}
