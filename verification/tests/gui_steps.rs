use access_os_installer::gui::disk_manager::PartitionInfo;
use access_os_installer::gui::disk_setup::{
    assign_manual_partition, clear_manual_role, close_manual_dialog, disk_setup_visibility,
    manual_assignment_summary, manual_snapshot, partition_row_label, pick_partition, submit_disk_setup,
    DiskSetupForm,
};
use access_os_installer::gui::install::{
    after_failure, begin_attempt, begin_full_install, begin_retry, failure_is_fatal, failure_lines,
    finish_install, initial_controls, install_tasks, progress_text, InstallAttempt, InstallTask,
};
use access_os_installer::gui::pages::{
    choose_desktop, choose_mirror_region, desktop_details, drive_list_status, drive_option, drive_row_label,
    extra_packages_command, extra_packages_failure, initial_region_index, initial_state, pick_network,
    power_message, select_drive, unmount_failed_message, wifi_connect_outcome, wifi_scan_status,
};
use access_os_installer::gui::preflight::{CheckResult, CheckStatus};
use access_os_installer::gui::review::{
    countdown_label, countdown_tick, has_warnings, refresh_review, review_continue_allowed, CountdownTick,
    REVIEW_COUNTDOWN_SECONDS,
};
use access_os_installer::gui::services::{
    append_log_line, connect_wifi_command, connectivity_command, mirror_failure, mirror_region_command,
    parse_ssids, power_command, power_failure, unmount_outcome, unmount_problem, unmount_targets, PowerAction,
};
use access_os_installer::gui::settings::{nvidia_toggle, submit_settings, SettingsForm};
use access_os_installer::gui::state::{AppState, DriveOption};
use access_os_installer::installer::config_engine::{DesktopEnv, KernelVariant};
use access_os_installer::gui::disk_manager::BlockDevice;
use access_os_installer::installer::storage_plan::{
    HomeLocation, HomeMode, ManualPartitionRole, SetupMode, SwapMode,
};

fn ready_state() -> AppState {
    let mut s = initial_state(8);
    s.drive = "/dev/sda".to_string();
    s.selected_disk_gib = Some(256);
    s.desktop_env = Some(DesktopEnv::Gnome);
    s.hostname = "box".to_string();
    s.username = "ana".to_string();
    s.password = "secret".to_string();
    s
}

fn form() -> DiskSetupForm {
    DiskSetupForm {
        manual: false,
        separate_home: false,
        home_other_disk: false,
        swap_file: false,
        swap_file_text: String::new(),
        removable: false,
        selected_home_disk: String::new(),
        format_efi: true,
        format_root: true,
        format_home: true,
        format_swap: true,
    }
}

#[test]
fn initial_state_uses_suggested_swap() {
    let s = initial_state(8);
    assert_eq!(s.swap_gb, 8);
    assert_eq!(s.swap_file_mb, 8192);
    assert_eq!(s.fs_type, "xfs");
    assert_eq!(s.timezone, "America/Chicago");
    assert_eq!(s.mirror_region, "Worldwide");
    assert!(s.desktop_env.is_none());
}

#[test]
fn visibility_follows_setup_choices() {
    let v = disk_setup_visibility(false, true, true, false, true);
    assert!(v.home_location && v.home_disk && !v.manual_partitions && !v.format_efi);
    let m = disk_setup_visibility(true, true, false, true, false);
    assert!(!m.home_location && !m.home_disk && m.swap_file && m.manual_partitions);
    assert!(m.format_efi && m.format_root && m.format_home && !m.format_swap);
}

#[test]
fn manual_summary_lists_roles_in_use() {
    let mut s = initial_state(4);
    s.manual_efi_partition = "/dev/sda1".to_string();
    assert_eq!(manual_assignment_summary(&s, false, false), "EFI: /dev/sda1\nRoot: (not set)");
    assert_eq!(
        manual_assignment_summary(&s, true, true),
        "EFI: /dev/sda1\nRoot: (not set)\n/home: (not set)\nSwap: (not set)"
    );
}

#[test]
fn disk_setup_submit_resolves_layout() {
    let mut s = ready_state();
    let mut f = form();
    f.swap_file = true;
    f.swap_file_text = " 2048 ".to_string();
    assert_eq!(submit_disk_setup(&mut s, &f), Ok(()));
    assert_eq!(s.swap_mode, SwapMode::File);
    assert_eq!(s.swap_file_mb, 2048);
    assert!(s.resolved_layout.is_some());
}

#[test]
fn disk_setup_keeps_old_swap_size_for_bad_text() {
    let mut s = ready_state();
    let mut f = form();
    f.swap_file_text = "lots".to_string();
    submit_disk_setup(&mut s, &f).unwrap();
    assert_eq!(s.swap_file_mb, 8192);
}

#[test]
fn disk_setup_reports_invalid_layout() {
    let mut s = ready_state();
    let mut f = form();
    f.separate_home = true;
    let err = submit_disk_setup(&mut s, &f).unwrap_err();
    assert!(err.starts_with("Disk setup invalid: Automatic setup does not support a separate /home on the same disk."));
    assert!(s.resolved_layout.is_none());
}

#[test]
fn automatic_setup_clears_manual_roles_and_other_disk_home() {
    let mut s = ready_state();
    s.manual_root_partition = "/dev/sda2".to_string();
    s.home_disk = "/dev/sdb".to_string();
    let mut f = form();
    f.separate_home = true;
    f.home_other_disk = true;
    f.selected_home_disk = "/dev/sdc".to_string();
    submit_disk_setup(&mut s, &f).unwrap();
    assert_eq!(s.manual_root_partition, "");
    assert_eq!(s.home_disk, "/dev/sdc");
    assert_eq!(s.home_location, HomeLocation::OtherDisk);
}

#[test]
fn manual_dialog_refuses_partition_held_by_another_role() {
    let mut s = initial_state(4);
    s.setup_mode = SetupMode::Manual;
    assert_eq!(assign_manual_partition(&mut s, ManualPartitionRole::Efi, "/dev/sda1", false, true), Ok(()));
    assert_eq!(
        assign_manual_partition(&mut s, ManualPartitionRole::Root, "/dev/sda1", false, true),
        Err("That partition is already assigned to another role.".to_string())
    );
    assert_eq!(s.manual_root_partition, "");
    assert_eq!(
        assign_manual_partition(&mut s, ManualPartitionRole::Home, "/dev/sda3", false, true),
        Err("/home is not enabled for this setup.".to_string())
    );
    assert_eq!(
        assign_manual_partition(&mut s, ManualPartitionRole::Swap, "/dev/sda4", true, false),
        Err("Swap partition is not enabled (swap file selected).".to_string())
    );
    // The same role can take its own partition again.
    assert_eq!(assign_manual_partition(&mut s, ManualPartitionRole::Efi, "/dev/sda1", false, true), Ok(()));
}

#[test]
fn manual_dialog_cancel_restores_snapshot() {
    let mut s = initial_state(4);
    s.manual_root_partition = "/dev/sda2".to_string();
    let snap = manual_snapshot(&s);
    assign_manual_partition(&mut s, ManualPartitionRole::Efi, "/dev/sda1", true, true).unwrap();
    clear_manual_role(&mut s, ManualPartitionRole::Root);
    close_manual_dialog(&mut s, snap, false);
    assert_eq!(s.manual_efi_partition, "");
    assert_eq!(s.manual_root_partition, "/dev/sda2");

    let snap = manual_snapshot(&s);
    assign_manual_partition(&mut s, ManualPartitionRole::Efi, "/dev/sda1", true, true).unwrap();
    close_manual_dialog(&mut s, snap, true);
    assert_eq!(s.manual_efi_partition, "/dev/sda1");
}

#[test]
fn partition_rows_and_picks() {
    let p = PartitionInfo {
        path: "/dev/sda1".to_string(),
        parent_disk: "/dev/sda".to_string(),
        size_bytes: 3 * 1024 * 1024 * 1024,
        fstype: None,
    };
    assert_eq!(partition_row_label(&p), "/dev/sda1 | 3 GiB | /dev/sda | unknown");
    let paths = vec!["/dev/sda1".to_string()];
    assert_eq!(pick_partition(&paths, None), Err("Select a partition first.".to_string()));
    assert_eq!(pick_partition(&paths, Some(1)), Err("Invalid partition selection.".to_string()));
    assert_eq!(pick_partition(&paths, Some(0)), Ok("/dev/sda1".to_string()));
}

#[test]
fn install_tasks_per_attempt() {
    assert_eq!(install_tasks(InstallAttempt::Full, DesktopEnv::Gnome).len(), 9);
    assert_eq!(
        install_tasks(InstallAttempt::RetryConfig, DesktopEnv::Kde),
        vec![InstallTask::Fstab, InstallTask::ConfigureSystem]
    );
    let retry = install_tasks(InstallAttempt::RetryPacstrap, DesktopEnv::Gnome);
    assert_eq!(retry[0], InstallTask::StageConfig);
    assert_eq!(*retry.last().unwrap(), InstallTask::ConfigureGnome);
}

#[test]
fn failures_offer_the_matching_retry() {
    let c = begin_attempt(InstallAttempt::Full, initial_controls());
    assert!(!c.start_enabled);
    let after = after_failure(InstallAttempt::Full, InstallTask::Pacstrap, c);
    assert!(after.start_enabled && after.retry_pacstrap_shown && !after.retry_config_shown);
    let after = after_failure(InstallAttempt::Full, InstallTask::Fstab, c);
    assert!(after.retry_config_shown && !after.retry_pacstrap_shown);
    // A pacstrap retry hides the configuration retry while it runs.
    let shown = after_failure(InstallAttempt::Full, InstallTask::Fstab, c);
    let running = begin_attempt(InstallAttempt::RetryPacstrap, shown);
    assert!(!running.retry_config_shown);
    assert!(!failure_is_fatal(InstallTask::ApplyMirror));
    assert!(failure_is_fatal(InstallTask::SwapFile));
}

#[test]
fn failure_lines_and_progress() {
    assert_eq!(
        failure_lines(InstallTask::Pacstrap, "boom"),
        (Some("Installation failed: boom".to_string()), "FAIL: boom".to_string())
    );
    assert_eq!(
        failure_lines(InstallTask::ApplyMirror, "x"),
        (None, "WARN: mirror region apply failed (non-fatal): x. Continuing.".to_string())
    );
    assert_eq!(progress_text(InstallAttempt::RetryConfig, InstallTask::Fstab), Some("Retrying fstab generation..."));
    assert_eq!(progress_text(InstallAttempt::Full, InstallTask::OverlayConfig), None);
}

#[test]
fn full_install_checks_password_and_keeps_layout() {
    let mut s = ready_state();
    s.password.clear();
    let stop = begin_full_install(&mut s).err().unwrap();
    assert_eq!(stop.progress, "Installation failed: password is empty. Go back and re-enter it.");
    let mut s = ready_state();
    let config = begin_full_install(&mut s).ok().unwrap();
    assert_eq!(config.password, "secret");
    assert_eq!(config.desktop_env, DesktopEnv::Gnome);
    assert!(s.resolved_layout.is_some());
    assert_eq!(finish_install(&mut s, InstallAttempt::Full), "SUCCESS: installation finished.");
    assert_eq!(s.password, "");
}

#[test]
fn retry_needs_layout_and_cached_password() {
    let mut s = ready_state();
    let stop = begin_retry(InstallAttempt::RetryConfig, &s, &Some("pw".to_string())).err().unwrap();
    assert_eq!(stop.log, Some("FAIL: config retry requested without resolved storage layout.".to_string()));
    begin_full_install(&mut s).ok().unwrap();
    let stop = begin_retry(InstallAttempt::RetryPacstrap, &s, &None).err().unwrap();
    assert_eq!(stop.progress, "Installation failed: password is unavailable. Return to user settings.");
    let config = begin_retry(InstallAttempt::RetryPacstrap, &s, &Some("pw".to_string())).ok().unwrap();
    assert_eq!(config.password, "pw");
}

#[test]
fn review_countdown_runs_five_seconds() {
    assert_eq!(REVIEW_COUNTDOWN_SECONDS, 5);
    assert_eq!(countdown_label(5), "Confirm enabled in 5 seconds...");
    let mut left = REVIEW_COUNTDOWN_SECONDS;
    let mut ticks = 0;
    loop {
        ticks += 1;
        match countdown_tick(left) {
            CountdownTick::Unlocked => break,
            CountdownTick::Remaining(s) => left = s,
        }
    }
    assert_eq!(ticks, 5);
    assert!(!review_continue_allowed(true, true, true, false));
    assert!(review_continue_allowed(true, true, true, true));
    assert!(!review_continue_allowed(false, true, false, false));
}

#[test]
fn review_refresh_keeps_or_drops_layout() {
    let mut s = ready_state();
    s.preflight_results.push(CheckResult {
        id: "ram_capacity",
        label: "RAM capacity",
        status: CheckStatus::Warn,
        message: "low".to_string(),
        is_hard: false,
    });
    assert!(has_warnings(&s.preflight_results));
    let view = refresh_review(&mut s);
    assert!(view.layout_valid && view.show_acknowledge);
    assert!(view.destructive.contains("Disks to wipe"));
    assert!(s.resolved_layout.is_some());
    s.drive.clear();
    let view = refresh_review(&mut s);
    assert!(!view.layout_valid);
    assert_eq!(view.destructive, "Storage plan error: No install disk selected.");
    assert_eq!(view.countdown, "Fix storage plan errors to continue.");
    assert!(s.resolved_layout.is_none());
}

fn settings_form() -> SettingsForm {
    SettingsForm {
        hostname: "  host ".to_string(),
        username: " ana ".to_string(),
        password: " pw ".to_string(),
        timezone: "Europe/Paris".to_string(),
        locale: "fr_FR.UTF-8".to_string(),
        keymap: "fr".to_string(),
        kernel_index: Some(1),
        nvidia_checked: true,
    }
}

#[test]
fn settings_are_trimmed_and_checked() {
    let mut s = ready_state();
    let out = submit_settings(&mut s, &settings_form());
    assert_eq!(out.result, Ok(()));
    assert_eq!(s.hostname, "host");
    assert_eq!(s.password, " pw ");
    assert_eq!(s.kernel, KernelVariant::Lts);
    assert!(s.nvidia);
    let mut f = settings_form();
    f.locale = "  ".to_string();
    let out = submit_settings(&mut s, &f);
    assert_eq!(out.result, Err("Enter a locale.".to_string()));
    assert!(out.clear_password_field);
    let mut f = settings_form();
    f.hostname = String::new();
    let out = submit_settings(&mut s, &f);
    assert_eq!(out.result, Err("Enter a hostname.".to_string()));
    assert!(!out.clear_password_field);
}

#[test]
fn server_profile_never_keeps_nvidia() {
    let mut s = ready_state();
    s.desktop_env = Some(DesktopEnv::Server);
    submit_settings(&mut s, &settings_form());
    assert!(!s.nvidia);
    let t = nvidia_toggle(Some(DesktopEnv::Server));
    assert!(!t.sensitive && t.force_off);
    assert!(nvidia_toggle(Some(DesktopEnv::Kde)).sensitive);
}

#[test]
fn services_mirror_and_logs() {
    assert!(mirror_region_command("Worldwide").is_none());
    let c = mirror_region_command("Germany").unwrap();
    assert_eq!(c.program, "reflector");
    assert_eq!(c.args, vec!["-c", "Germany", "--save", "/etc/pacman.d/mirrorlist"]);
    assert_eq!(mirror_failure("Germany", "  bad  ", "1"), "bad");
    assert_eq!(mirror_failure("Germany", "", "exit status: 1"), "reflector failed for region 'Germany' with status exit status: 1");
    assert_eq!(append_log_line("", "a"), "a");
    assert_eq!(append_log_line("a", "b"), "a\nb");
}

#[test]
fn services_unmount_and_power() {
    assert_eq!(unmount_targets(), &["/mnt/home", "/mnt/boot", "/mnt"]);
    assert_eq!(unmount_problem("/mnt/home", "umount: /mnt/home: not mounted.\n", "32"), None);
    assert_eq!(unmount_problem("/mnt", "", "32"), Some("/mnt: umount returned status 32".to_string()));
    assert_eq!(unmount_problem("/mnt", " busy ", "32"), Some("/mnt: busy".to_string()));
    assert_eq!(unmount_outcome(&vec![]), Ok(()));
    assert_eq!(unmount_outcome(&vec!["a".to_string(), "b".to_string()]), Err("a; b".to_string()));
    assert_eq!(power_command(PowerAction::Shutdown).args, vec!["now"]);
    assert_eq!(power_failure(PowerAction::Reboot, "", "1"), "Reboot command failed with status 1");
    assert_eq!(power_message(PowerAction::Reboot, true, &Ok(())), "Force reboot command issued.");
    assert_eq!(power_message(PowerAction::Shutdown, false, &Err("x".to_string())), "Failed to shut down: x");
}

#[test]
fn services_network_commands_and_ssids() {
    assert_eq!(parse_ssids("home\n \nwork\nhome\r\n  cafe  \n"), vec!["home", "work", "cafe"]);
    assert_eq!(connectivity_command().args, vec!["-c", "1", "-W", "2", "1.1.1.1"]);
    assert_eq!(
        connect_wifi_command("net", "pw").args,
        vec!["dev", "wifi", "connect", "net", "password", "pw"]
    );
    assert_eq!(wifi_scan_status(&vec![]).1, false);
    assert_eq!(pick_network(&vec!["a".to_string()], Some(0)), Ok("a".to_string()));
    assert_eq!(pick_network(&vec![], None), Err("Please select a network.".to_string()));
    assert_eq!(wifi_connect_outcome(&Ok(()), true), None);
    assert_eq!(
        wifi_connect_outcome(&Ok(()), false),
        Some("Connected to Wi-Fi but no internet. Check password or network.".to_string())
    );
    assert_eq!(wifi_connect_outcome(&Err("e".to_string()), true), Some("Failed: e".to_string()));
}

fn device() -> BlockDevice {
    BlockDevice {
        name: "sda".to_string(),
        size_bytes: 500 * 1024 * 1024 * 1024,
        model: Some(" Disk X ".to_string()),
        tran: None,
        rm: None,
        device_type: "disk".to_string(),
    }
}

#[test]
fn drive_page_rows_and_selection() {
    assert_eq!(drive_row_label(&device()), "/dev/sda | 500 GiB | Disk X | internal");
    let opt = drive_option(&device());
    assert_eq!(opt.path, "/dev/sda");
    assert_eq!(opt.disk_gib, 500);
    assert_eq!(drive_list_status(&Ok(vec![])), "No internal drives detected. Add an internal drive and restart the installer.");
    assert_eq!(drive_list_status(&Err("x".to_string())), "Failed to read internal drives: x");
    let mut s = ready_state();
    let options = vec![DriveOption { path: "/dev/nvme0n1".to_string(), disk_gib: 1000 }];
    assert_eq!(select_drive(&mut s, &options, Some(3)), Err("Invalid drive selection.".to_string()));
    select_drive(&mut s, &options, Some(0)).unwrap();
    assert_eq!(s.drive, "/dev/nvme0n1");
    assert_eq!(s.selected_disk_gib, Some(1000));
}

#[test]
fn desktop_and_mirror_pages() {
    assert_eq!(
        desktop_details(&DesktopEnv::Server),
        "Headless server profile with Docker, Docker Compose, Tailscale, and SSH\nDisplay manager: None (headless)\nPackages: docker, docker-compose, tailscale, openssh"
    );
    let mut s = initial_state(2);
    assert!(!choose_desktop(&mut s, 3));
    assert!(choose_desktop(&mut s, 1));
    assert_eq!(s.desktop_env, Some(DesktopEnv::Kde));
    let regions = vec!["Worldwide".to_string(), "Germany".to_string()];
    assert_eq!(initial_region_index(&regions, "Germany"), 1);
    assert_eq!(initial_region_index(&regions, "Mars"), 0);
    choose_mirror_region(&mut s, &regions, Some(7)).unwrap();
    assert_eq!(s.mirror_region, "Worldwide");
    choose_mirror_region(&mut s, &regions, Some(1)).unwrap();
    assert_eq!(s.mirror_region, "Germany");
}

#[test]
fn completion_page_packages() {
    assert_eq!(extra_packages_command("   ").unwrap_err(), "Enter at least one package name.");
    let c = extra_packages_command(" vim  git ").unwrap();
    assert_eq!(c.program, "arch-chroot");
    assert_eq!(c.args, vec!["/mnt", "pacman", "-S", "--noconfirm", "--needed", "vim", "git"]);
    assert_eq!(extra_packages_failure(" nope ", "1"), "Failed to install packages: nope");
    assert_eq!(extra_packages_failure("", "exit status: 1"), "Failed to install packages. pacman exited with exit status: 1");
    assert_eq!(
        unmount_failed_message("busy"),
        "Unmount failed: busy. Choose Force Reboot, Force Shutdown, or Force Exit."
    );
}

#[test]
fn manual_roles_stay_distinct_after_assignments() {
    let mut s = initial_state(4);
    for (role, path) in [
        (ManualPartitionRole::Efi, "/dev/sda1"),
        (ManualPartitionRole::Root, "/dev/sda2"),
        (ManualPartitionRole::Home, "/dev/sda2"),
        (ManualPartitionRole::Swap, "/dev/sda3"),
        (ManualPartitionRole::Root, "/dev/sda3"),
    ] {
        let _ = assign_manual_partition(&mut s, role, path, true, true);
    }
    let values = [
        &s.manual_efi_partition,
        &s.manual_root_partition,
        &s.manual_home_partition,
        &s.manual_swap_partition,
    ];
    for (i, a) in values.iter().enumerate() {
        for b in values.iter().skip(i + 1) {
            assert!(a.is_empty() || a != b);
        }
    }
    assert_eq!(s.manual_home_partition, "");
    assert_eq!(s.home_mode, HomeMode::OnRoot);
}
