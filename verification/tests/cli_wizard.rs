use access_os_installer::cli::disk::{disk_listing_problem, disk_row};
use access_os_installer::cli::manual::{
    delete_token, managed_disks, root_size_choice, size_entry, size_prompt, sort_manual_entries,
    text_less_exec, valid_manual_roles, ManualPartitionEntry, RootSizeChoice,
};
use access_os_installer::cli::menus::{
    available_desktops, list_choice, pick_entry, two_way, wifi_networks_found, ListChoice, TwoWay,
};
use access_os_installer::cli::partition_menu::{manual_entry_lines, pick_index, CreateTarget};
use access_os_installer::cli::review::{cli_install_tasks, meminfo_ram_gib, mirror_warning, preflight_report};
use access_os_installer::cli::wizard::{
    desktop_env_label, empty_as, join_or_none, yes_no, Menu, NetworkStatus, Reply, Request, Step, Wizard,
};
use access_os_installer::gui::install::InstallTask;
use access_os_installer::gui::preflight::{evaluate_checks, PreflightContext};
use access_os_installer::installer::config_engine::{DesktopEnv, KernelVariant};
use access_os_installer::installer::disk_manager::{BlockDevice, PartitionInfo};
use access_os_installer::installer::storage_plan::{
    HomeLocation, HomeMode, ManualPartitionRole, SetupMode, SwapMode,
};

fn wizard() -> Wizard {
    Wizard::with_suggested_swap(false, 8)
}

fn say(s: &str) -> Reply {
    Reply::Say(s.to_string())
}

fn device(name: &str, gib: u64) -> BlockDevice {
    BlockDevice {
        name: name.to_string(),
        size_bytes: gib * 1024 * 1024 * 1024,
        model: None,
        tran: Some("nvme".to_string()),
        rm: None,
        device_type: "disk".to_string(),
    }
}

fn part(path: &str, disk: &str, n: u8) -> PartitionInfo {
    PartitionInfo {
        path: path.to_string(),
        parent_disk: disk.to_string(),
        partition_number: n,
        size_bytes: 1024 * 1024 * 1024,
        fstype: Some("ext4".to_string()),
    }
}

/// A wizard on a manual setup of `/dev/sda` with a separate `/home`.
fn manual_wizard() -> Wizard {
    let mut w = wizard();
    w.state.storage.install_disk = "/dev/sda".to_string();
    w.state.storage.setup_mode = SetupMode::Manual;
    w.state.storage.home_mode = HomeMode::Separate;
    w
}

#[test]
fn new_wizard_starts_at_welcome() {
    let w = wizard();
    assert_eq!(w.step, Step::Welcome);
    assert_eq!(w.state.storage.swap_size_gib, 8);
    assert_eq!(w.state.storage.swap_file_size_mb, Some(8192));
    assert_eq!(w.state.mirror_region, "Worldwide");
    assert_eq!(w.network_status, NetworkStatus::Checking);
    assert_eq!(w.network_status_label(), "checking...");
    let w = Wizard::new(true);
    assert!(w.dry_run);
    assert_eq!(w.state.storage.swap_file_size_mb, Some(w.state.storage.swap_size_gib * 1024));
}

#[test]
fn welcome_next_checks_root_then_network() {
    let mut w = wizard();
    assert!(w.clear_screen_once());
    assert!(!w.clear_screen_once());
    assert_eq!(w.welcome_input("next"), Reply::Ask(Request::CheckRoot));
    assert_eq!(w.welcome_root_checked(false), say("ERROR: You must run this installer as root."));
    assert_eq!(w.welcome_root_checked(true), Reply::Ask(Request::CheckNetworkToContinue));
    assert_eq!(w.welcome_network_checked(false), Reply::Leave);
    assert_eq!(w.step, Step::WiFiSetup);
    assert_eq!(w.welcome_input("dance"), say("Unknown command: dance"));
    assert_eq!(w.welcome_input("back"), say("Already at the first step."));
}

#[test]
fn wifi_screen_needs_network_to_go_on() {
    let mut w = wizard();
    w.step = Step::WiFiSetup;
    assert_eq!(w.wifi_input("1"), Reply::Open(Menu::WifiConnect));
    assert_eq!(w.wifi_input("next"), Reply::Ask(Request::CheckNetworkToContinue));
    assert_eq!(w.wifi_input("2"), Reply::Ask(Request::CheckNetwork));
    assert_eq!(w.continue_if_online(false), say("ERROR: Internet is still not connected."));
    assert_eq!(w.step, Step::WiFiSetup);
    assert_eq!(w.continue_if_online(true), Reply::Leave);
    assert_eq!(w.step, Step::InstallOptions);
}

#[test]
fn install_options_toggle_and_require_desktop() {
    let mut w = wizard();
    assert_eq!(w.options_input("next"), say("ERROR: Select a desktop environment."));
    assert_eq!(w.options_input("3"), Reply::Again);
    assert!(w.state.nvidia);
    assert_eq!(w.options_input("4"), Reply::Again);
    assert!(w.state.removable_media && w.state.storage.removable_media);
    assert_eq!(w.options_input("1"), Reply::Open(Menu::DesktopEnv));
    assert_eq!(w.choose_desktop_env("9"), say("Invalid selection."));
    assert_eq!(w.choose_desktop_env("x"), say("Invalid input."));
    assert_eq!(w.choose_desktop_env("3"), Reply::Leave);
    assert_eq!(w.state.desktop_env, Some(DesktopEnv::Server));
    assert_eq!(w.choose_kernel("2"), Reply::Leave);
    assert_eq!(w.state.kernel, KernelVariant::Lts);
    assert_eq!(w.options_input("next"), Reply::Leave);
    assert_eq!(w.step, Step::DiskSelection);
}

#[test]
fn disk_selection_picks_a_listed_drive() {
    let mut w = wizard();
    w.step = Step::DiskSelection;
    let devices = vec![device("nvme0n1", 512), device("sda", 64)];
    assert_eq!(disk_row(0, &devices[0]), "1) /dev/nvme0n1 | 512 GiB | Unknown model | nvme");
    assert_eq!(w.disk_selection_input("next", &devices), say("ERROR: Select a disk."));
    assert_eq!(w.disk_selection_input("3", &devices), say("ERROR: Invalid selection."));
    assert_eq!(w.disk_selection_input("2", &devices), Reply::Again);
    assert_eq!(w.state.storage.install_disk, "/dev/sda");
    assert_eq!(w.cached_disk_gib, Some(64));
    assert_eq!(w.selected_disk_label(), "/dev/sda");
    assert_eq!(w.disk_selection_input("next", &devices), Reply::Leave);
    assert_eq!(w.step, Step::DiskSetup);
    assert_eq!(
        disk_listing_problem(&Ok(vec![])),
        Some(Reply::Fail("No internal disks detected. Add a disk and retry.".to_string()))
    );
    assert_eq!(w.disk_error_input("foo"), say("Type `back` or `quit`."));
}

#[test]
fn disk_setup_resolves_or_reports() {
    let mut w = wizard();
    w.step = Step::DiskSetup;
    assert_eq!(w.disk_setup_input("next"), say("ERROR: No install disk selected."));
    w.state.storage.install_disk = "/dev/sda".to_string();
    assert_eq!(w.disk_setup_input("6"), say("Home is not set to separate."));
    assert_eq!(w.disk_setup_input("8"), say("Manual partition manager is only available in manual setup mode."));
    assert_eq!(w.disk_setup_input("next"), Reply::Leave);
    assert_eq!(w.step, Step::Regional);
    assert!(w.cached_layout.is_some());
    let menu = w.disk_setup_menu();
    assert_eq!(menu[0], "1) Setup mode: Automatic");
    assert_eq!(menu[3], "4) Swap size (GiB): 8");
    assert_eq!(menu[6], "7) Home disk: n/a");
}

#[test]
fn disk_setup_menus_change_the_selection() {
    let mut w = wizard();
    assert_eq!(w.choose_setup_mode("2"), Reply::Leave);
    assert_eq!(w.state.storage.setup_mode, SetupMode::Manual);
    assert_eq!(w.choose_root_fs("2"), Reply::Leave);
    assert_eq!(w.state.storage.fs_type, "ext4");
    assert_eq!(w.choose_swap_mode("7"), say("Invalid input."));
    assert_eq!(w.set_swap_size("0"), say("ERROR: swap size must be > 0."));
    assert_eq!(w.set_swap_size("4"), Reply::Leave);
    assert_eq!(w.state.storage.swap_file_size_mb, Some(4096));
    w.state.storage.manual_swap_partition = Some("/dev/sda3".to_string());
    assert_eq!(w.choose_swap_mode("2"), Reply::Leave);
    assert_eq!(w.state.storage.swap_mode, SwapMode::File);
    assert_eq!(w.state.storage.manual_swap_partition, None);
    assert_eq!(w.swap_size_prompt(), "Enter swap file size in MB: ");
    assert_eq!(w.set_swap_size("100"), say("ERROR: swap file size must be at least 512 MB."));
    assert_eq!(w.set_swap_size("1024"), Reply::Leave);
    assert_eq!(w.state.storage.swap_file_size_mb, Some(1024));
    assert_eq!(w.choose_home_mode("2"), Reply::Leave);
    assert_eq!(w.open_home_location(), Reply::Open(Menu::HomeLocation));
    assert_eq!(w.choose_home_location("2"), Reply::Open(Menu::HomeDisk));
    assert_eq!(w.state.storage.home_location, HomeLocation::OtherDisk);
}

#[test]
fn home_disk_choices_skip_the_install_disk() {
    let mut w = wizard();
    w.state.storage.install_disk = "/dev/sda".to_string();
    let choices = w.home_disk_choices(Ok(vec![device("sda", 1), device("sdb", 2)])).unwrap();
    assert_eq!(choices, vec!["/dev/sdb"]);
    assert_eq!(
        w.home_disk_choices(Ok(vec![device("sda", 1)])).unwrap_err(),
        say("No second internal disk is available for /home.")
    );
    assert_eq!(
        w.home_disk_choices(Err("lsblk".to_string())).unwrap_err(),
        Reply::Fail("Failed to list internal drives: lsblk".to_string())
    );
    assert_eq!(w.choose_home_disk("1", &choices), Reply::Leave);
    assert_eq!(w.state.storage.home_disk, Some("/dev/sdb".to_string()));
}

#[test]
fn regional_and_user_settings() {
    let mut w = wizard();
    let items = vec!["Europe/Paris".to_string(), "Asia/Tokyo".to_string()];
    assert_eq!(w.choose_regional(Menu::Timezone, "2", &items), Reply::Leave);
    assert_eq!(w.state.timezone, "Asia/Tokyo");
    assert_eq!(w.choose_regional(Menu::Keymap, "0", &items), say("Invalid selection."));
    w.step = Step::UserSettings;
    assert_eq!(w.settings_input("next"), say("ERROR: Hostname is required."));
    w.set_hostname("  my-pc  extra");
    assert_eq!(w.state.hostname, "my-pc");
    w.set_username("ana");
    assert_eq!(w.settings_input("next"), say("ERROR: Password is required."));
    assert_eq!(w.set_password("", ""), say("ERROR: Password cannot be empty."));
    assert_eq!(w.set_password("a", "b"), say("ERROR: Passwords do not match."));
    assert_eq!(w.set_password("pw", "pw"), Reply::Leave);
    assert_eq!(w.settings_input("next"), Reply::Leave);
    assert_eq!(w.step, Step::Review);
}

#[test]
fn review_install_and_dry_run() {
    let mut w = Wizard::with_suggested_swap(true, 8);
    w.step = Step::Review;
    assert_eq!(w.begin_review(), Err("Desktop environment missing in state.".to_string()));
    w.state.desktop_env = Some(DesktopEnv::Gnome);
    w.state.storage.install_disk = "/dev/sda".to_string();
    assert_eq!(w.begin_review(), Ok(DesktopEnv::Gnome));
    assert!(w.cached_layout.is_some());
    let layout = w.cached_layout.take().unwrap();
    let lines = w.review_lines(DesktopEnv::Gnome, &layout);
    assert_eq!(lines[0], "Target disk: /dev/sda");
    assert_eq!(lines[1], "Disk setup: Automatic (xfs)");
    assert_eq!(w.review_prompt().len(), 2);
    assert_eq!(w.review_input("next"), say("Type `install` to start, not `next`."));
    assert_eq!(w.review_input("install"), Reply::Leave);
    assert_eq!(w.step, Step::Complete);
    let mut w = wizard();
    w.step = Step::Review;
    assert_eq!(w.review_input("install"), Reply::Leave);
    assert_eq!(w.step, Step::Install);
}

#[test]
fn install_settings_and_finish() {
    let mut w = wizard();
    w.state.desktop_env = Some(DesktopEnv::Kde);
    assert_eq!(
        w.install_config().err().unwrap(),
        "Internal error: missing cached layout. Return to Review."
    );
    w.state.storage.install_disk = "/dev/sda".to_string();
    w.begin_review().unwrap();
    w.state.password = "pw".to_string();
    let c = w.install_config().ok().unwrap();
    assert_eq!(c.password, "pw");
    assert_eq!(c.desktop_env, DesktopEnv::Kde);
    assert_eq!(cli_install_tasks()[3], InstallTask::ApplyMirror);
    w.state.mirror_region = "Germany".to_string();
    assert_eq!(
        w.stage_heading(InstallTask::ApplyMirror),
        Some("3/7 Applying mirror region (Germany)...".to_string())
    );
    assert_eq!(w.stage_heading(InstallTask::OverlayConfig), None);
    assert_eq!(mirror_warning("x"), "WARN: mirror apply failed (non-fatal): x");
    w.finish_install();
    assert_eq!(w.step, Step::Complete);
    assert_eq!(w.state.password, "");
}

#[test]
fn completion_commands() {
    let mut w = wizard();
    w.step = Step::Complete;
    assert_eq!(w.complete_input("unmount"), Reply::Ask(Request::Unmount));
    assert_eq!(w.unmount_done(&Ok(())), "Unmounted /mnt targets.");
    assert_eq!(w.complete_input("reboot"), Reply::Ask(Request::Reboot));
    assert_eq!(w.power_done(&Err("no".to_string())), say("ERROR: no"));
    assert!(!w.done);
    assert_eq!(w.power_done(&Ok(())), Reply::Leave);
    assert!(w.done);
}

#[test]
fn quit_from_any_screen_ends_the_wizard() {
    let mut w = wizard();
    assert_eq!(w.regional_input("exit"), Reply::Leave);
    assert!(w.done);
    let mut w = wizard();
    assert_eq!(w.disk_setup_input("quit"), Reply::Leave);
    assert!(w.done);
    assert_eq!(w.step, Step::Welcome);
}

#[test]
fn back_goes_to_the_previous_screen() {
    let mut w = wizard();
    w.regional_input("back");
    assert_eq!(w.step, Step::DiskSetup);
    w.settings_input("back");
    assert_eq!(w.step, Step::Regional);
    w.review_input("back");
    assert_eq!(w.step, Step::UserSettings);
    w.options_input("back");
    assert_eq!(w.step, Step::Welcome);
}

#[test]
fn labels_and_lists() {
    assert_eq!(yes_no(true), "Yes");
    assert_eq!(empty_as("  ", "(not set)"), "(not set)");
    assert_eq!(empty_as("x", "(not set)"), "x");
    assert_eq!(desktop_env_label(None), "(not selected)");
    assert_eq!(join_or_none(&vec![]), "(none)");
    assert_eq!(join_or_none(&vec!["a".to_string(), "b".to_string()]), "a, b");
    assert_eq!(list_choice("back", 3), ListChoice::Back);
    assert_eq!(list_choice("+2", 3), ListChoice::Chosen(1));
    assert_eq!(list_choice("0", 3), ListChoice::OutOfRange);
    assert_eq!(list_choice("two", 3), ListChoice::NotANumber);
    assert_eq!(two_way("2"), TwoWay::Second);
    assert_eq!(available_desktops(), vec![DesktopEnv::Gnome, DesktopEnv::Kde, DesktopEnv::Server]);
    assert_eq!(pick_entry("1", &vec!["net".to_string()]), Ok(Some("net".to_string())));
    assert_eq!(pick_entry("back", &vec![]), Ok(None));
    assert_eq!(wifi_networks_found(&vec![]), Err("No Wi-Fi networks found.".to_string()));
    assert_eq!(pick_index("5", 2), Err(say("Invalid selection.")));
}

#[test]
fn manual_roles_and_managed_disks() {
    let mut w = manual_wizard();
    w.state.storage.home_location = HomeLocation::OtherDisk;
    w.state.storage.home_disk = Some("/dev/sdb".to_string());
    assert_eq!(managed_disks(&w.state.storage), vec!["/dev/sda", "/dev/sdb"]);
    assert_eq!(
        valid_manual_roles(&w.state.storage),
        vec![ManualPartitionRole::Efi, ManualPartitionRole::Root, ManualPartitionRole::Home, ManualPartitionRole::Swap]
    );
    assert_eq!(w.manual_role_target_disks(ManualPartitionRole::Home), vec!["/dev/sda", "/dev/sdb"]);
    assert_eq!(w.manual_role_target_disks(ManualPartitionRole::Efi), vec!["/dev/sda"]);
    assert_eq!(w.manual_role_label(ManualPartitionRole::Root), "(not set)");
    match w.create_target(ManualPartitionRole::Home) {
        CreateTarget::Choose(v) => assert_eq!(v.len(), 2),
        _ => panic!("expected a choice of disks"),
    }
    assert_eq!(w.pick_manual_role("3"), Ok(Some(ManualPartitionRole::Home)));
}

#[test]
fn planning_a_partition_takes_the_next_free_number() {
    let mut w = manual_wizard();
    let parts = vec![part("/dev/sda1", "/dev/sda", 1), part("/dev/sda2", "/dev/sda", 2), part("/dev/sdb1", "/dev/sdb", 1)];
    let msg = w.plan_manual_partition(ManualPartitionRole::Root, "/dev/sda", parts.clone(), None, true).unwrap();
    assert_eq!(msg, "Planned /dev/sda3 on /dev/sda as root.");
    assert_eq!(w.state.storage.manual_root_partition, Some("/dev/sda3".to_string()));
    assert_eq!(w.state.manual_create_actions.len(), 1);
    let msg = w.plan_manual_partition(ManualPartitionRole::Home, "/dev/sda", parts.clone(), Some(20), false).unwrap();
    assert_eq!(msg, "Planned /dev/sda4 on /dev/sda as home.");

    let entries = w.manual_partition_entries(parts);
    let paths: Vec<&str> = entries.iter().map(|e| e.path.as_str()).collect();
    assert_eq!(paths, vec!["/dev/sda1", "/dev/sda2", "/dev/sda3", "/dev/sda4"]);
    assert_eq!(entries[2].size_label, "remaining space");
    assert_eq!(entries[2].fstype, "xfs");
    assert_eq!(entries[2].status_label, "pending root");
    assert_eq!(entries[3].size_label, "20 GiB");
    assert_eq!(entries[0].status_label, "existing");
    let lines = manual_entry_lines(&entries);
    assert_eq!(lines[0], "1) /dev/sda1 | 1 GiB | ext4 | existing");
    assert_eq!(manual_entry_lines(&vec![]), vec!["- none"]);
}

#[test]
fn deleting_needs_the_confirmation_token() {
    let mut w = manual_wizard();
    w.state.storage.manual_efi_partition = Some("/dev/sda1".to_string());
    let parts = vec![part("/dev/sda1", "/dev/sda", 1)];
    let entries = w.manual_partition_entries(parts.clone());
    assert_eq!(delete_token("/dev/sda1"), "delete /dev/sda1");
    assert_eq!(w.confirm_delete(&entries[0], "yes"), "Delete cancelled.");
    assert_eq!(w.state.manual_delete_partitions.len(), 0);
    assert_eq!(w.confirm_delete(&entries[0], "delete /dev/sda1"), "Marked /dev/sda1 for deletion.");
    assert_eq!(w.state.manual_delete_partitions, vec!["/dev/sda1"]);
    assert_eq!(w.state.storage.manual_efi_partition, None);
    assert!(w.manual_partition_entries(parts.clone()).is_empty());
    // A deleted slot is free again.
    let msg = w.plan_manual_partition(ManualPartitionRole::Efi, "/dev/sda", parts, Some(1), false).unwrap();
    assert_eq!(msg, "Planned /dev/sda1 on /dev/sda as EFI.");
}

#[test]
fn deleting_a_planned_partition_drops_it() {
    let mut w = manual_wizard();
    w.plan_manual_partition(ManualPartitionRole::Efi, "/dev/sda", vec![], Some(1), false).unwrap();
    let entries = w.manual_partition_entries(vec![]);
    assert!(entries[0].pending_create);
    assert_eq!(w.confirm_delete(&entries[0], "delete /dev/sda1"), "Marked /dev/sda1 for deletion.");
    assert!(w.state.manual_create_actions.is_empty());
    assert!(w.state.manual_delete_partitions.is_empty());
    assert_eq!(w.state.storage.manual_efi_partition, None);
}

#[test]
fn normalizing_drops_what_no_longer_applies() {
    let mut w = manual_wizard();
    w.plan_manual_partition(ManualPartitionRole::Home, "/dev/sda", vec![], Some(5), false).unwrap();
    w.state.storage.home_mode = HomeMode::OnRoot;
    w.state.storage.swap_mode = SwapMode::File;
    w.state.storage.manual_swap_partition = Some("/dev/sda9".to_string());
    w.normalize_manual_storage_state();
    assert!(w.state.manual_create_actions.is_empty());
    assert_eq!(w.state.storage.manual_home_partition, None);
    assert_eq!(w.state.storage.manual_swap_partition, None);
}

#[test]
fn assigning_roles_from_the_list() {
    let mut w = manual_wizard();
    let parts = vec![part("/dev/sda1", "/dev/sda", 1), part("/dev/sdb1", "/dev/sdb", 1)];
    let entries = w.manual_partition_entries(parts);
    let entries = w.assignable_entries(ManualPartitionRole::Root, entries);
    assert_eq!(entries.len(), 1);
    assert_eq!(w.assign_choice(ManualPartitionRole::Root, "1", &entries), Reply::Leave);
    assert_eq!(w.state.storage.manual_root_partition, Some("/dev/sda1".to_string()));
    assert_eq!(w.assign_choice(ManualPartitionRole::Root, "clear", &entries), Reply::Leave);
    assert_eq!(w.state.storage.manual_root_partition, None);
    assert_eq!(w.assign_choice(ManualPartitionRole::Root, "4", &entries), say("Invalid selection."));
}

#[test]
fn format_flags_and_manual_menu() {
    let mut w = manual_wizard();
    assert_eq!(w.toggle_format_flag("1"), Reply::Again);
    assert!(!w.state.storage.format_efi);
    assert_eq!(w.toggle_format_flag("3"), Reply::Again);
    assert!(!w.state.storage.format_home);
    w.state.storage.swap_mode = SwapMode::File;
    assert_eq!(w.toggle_format_flag("4"), say("Swap mode is not a partition."));
    assert_eq!(w.manual_menu_input("5"), Reply::Leave);
    assert_eq!(w.manual_menu_input("2"), Reply::Open(Menu::ManualDelete));
    let head = w.manual_screen();
    assert_eq!(head[0], "Managed disks: /dev/sda");
    assert_eq!(head[3], "home: (not set)");
    assert_eq!(head[4], "Format flags: EFI No | root Yes | home No");
}

#[test]
fn partition_sizes_and_sorting() {
    assert_eq!(root_size_choice("1"), RootSizeChoice::Remaining);
    assert_eq!(root_size_choice("2"), RootSizeChoice::AskSize);
    assert_eq!(size_entry("0"), Err("Size must be greater than zero.".to_string()));
    assert_eq!(size_entry("12"), Ok(12));
    assert_eq!(size_prompt(ManualPartitionRole::Swap), "swap size in GiB: ");
    assert!(text_less_exec("/dev/sda", "/dev/sdb"));
    assert!(text_less_exec("/dev/sd", "/dev/sda"));
    assert!(!text_less_exec("/dev/sdb", "/dev/sdb"));
    let entry = |disk: &str, n: u8| ManualPartitionEntry {
        path: format!("{}{}", disk, n),
        parent_disk: disk.to_string(),
        partition_number: n,
        size_label: String::new(),
        fstype: String::new(),
        status_label: String::new(),
        pending_create: false,
    };
    let sorted = sort_manual_entries(vec![entry("/dev/sdb", 1), entry("/dev/sda", 2), entry("/dev/sda", 1)]);
    let paths: Vec<&str> = sorted.iter().map(|e| e.path.as_str()).collect();
    assert_eq!(paths, vec!["/dev/sda1", "/dev/sda2", "/dev/sdb1"]);
}

#[test]
fn review_preflight_and_meminfo() {
    let w = wizard();
    let ctx = w.review_preflight_context(false, true, 16);
    assert!(!ctx.has_disk);
    let report = preflight_report(&evaluate_checks(&ctx));
    assert_eq!(report[0], "Preflight: HARD FAIL");
    assert_eq!(report[3], "Fix hard failures before installing. Type `back` to review settings.");
    let ok = PreflightContext { is_uefi: true, has_disk: true, online: true, ram_gib: 4, disk_gib: Some(512) };
    let report = preflight_report(&evaluate_checks(&ok));
    assert_eq!(report[0], "Preflight warnings:");
    assert_eq!(report[1], "- Detected 4 GiB RAM (< 8 GiB recommended).");
    assert_eq!(meminfo_ram_gib("MemFree: 1 kB\nMemTotal:       16318412 kB\n"), 15);
    assert_eq!(meminfo_ram_gib("nothing here"), 0);
}
