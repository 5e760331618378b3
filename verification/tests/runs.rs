use access_os_installer::cli::regional::{first_column_exec, regional_choices};
use access_os_installer::cli::wizard::Menu;
use access_os_installer::gui::install::{next_install_task, next_task_in, InstallAttempt, InstallTask};
use access_os_installer::installer::commands::{CommandSpec, FeedSpec, PlanStep};
use access_os_installer::installer::config_engine::DesktopEnv;
use access_os_installer::installer::disk_manager::PartitionInfo;
use access_os_installer::installer::outcome::{step_failure, CommandOutcome, StepOutcome};

fn cmd(program: &str, args: &[&str], context: &str) -> CommandSpec {
    CommandSpec {
        program: program.to_string(),
        args: args.iter().map(|a| a.to_string()).collect(),
        context: context.to_string(),
    }
}

fn exited(status: &str, stderr: &str) -> StepOutcome {
    StepOutcome::Command(CommandOutcome::Exited { status: status.to_string(), stderr: stderr.to_string() })
}

#[test]
fn run_steps_fail_with_their_context() {
    let step = PlanStep::Run(cmd("mkfs.ext4", &["-F", "/dev/sda3"], "Failed to format"));
    assert_eq!(step_failure(&step, &StepOutcome::Command(CommandOutcome::Succeeded)), None);
    assert_eq!(step_failure(&step, &exited("exit status: 1", "  bad superblock\n")), Some("Failed to format: bad superblock".to_string()));
    assert_eq!(
        step_failure(&step, &exited("exit status: 1", " \n")),
        Some("Failed to format: command exited with exit status: 1".to_string())
    );
    assert_eq!(
        step_failure(&step, &StepOutcome::Command(CommandOutcome::NotStarted("No such file".to_string()))),
        Some("Failed to format: No such file".to_string())
    );
}

#[test]
fn attempts_and_progress_never_end_a_plan() {
    let attempt = PlanStep::Attempt(cmd("umount", &["/mnt"], "Unmount /mnt"));
    assert_eq!(step_failure(&attempt, &exited("exit status: 32", "not mounted")), None);
    assert_eq!(step_failure(&PlanStep::Progress("Working".to_string()), &StepOutcome::WriteFailed("x".to_string())), None);
}

#[test]
fn file_and_capture_steps_name_their_contexts() {
    let write = PlanStep::WriteFile { path: "/mnt/etc/hostname".to_string(), contents: "box\n".to_string(), context: "Failed to write hostname".to_string() };
    assert_eq!(step_failure(&write, &StepOutcome::WriteFailed("Permission denied".to_string())), Some("Failed to write hostname: Permission denied".to_string()));
    let capture = PlanStep::CaptureToFile {
        command: cmd("genfstab", &["-U", "/mnt"], "genfstab failed"),
        path: "/mnt/etc/fstab".to_string(),
        write_context: "Failed to write fstab".to_string(),
    };
    assert_eq!(step_failure(&capture, &exited("exit status: 1", "oops")), Some("genfstab failed: oops".to_string()));
    assert_eq!(step_failure(&capture, &StepOutcome::WriteFailed("disk full".to_string())), Some("Failed to write fstab: disk full".to_string()));
    let trimmed = PlanStep::RunTrimmedStderr { command: cmd("git", &["clone"], "Clone failed"), spawn_context: "git missing".to_string() };
    assert_eq!(step_failure(&trimmed, &exited("exit status: 128", "  fatal: no repo \n")), Some("Clone failed: fatal: no repo".to_string()));
}

#[test]
fn feed_steps_report_each_stage() {
    let feed = FeedSpec {
        program: "arch-chroot".to_string(),
        args: vec!["/mnt".to_string(), "chpasswd".to_string()],
        input: "user:pw\n".to_string(),
        spawn_context: "Failed to start chpasswd".to_string(),
        stdin_error: "No stdin for chpasswd".to_string(),
        write_context: "Failed to write password".to_string(),
        wait_context: "Failed to wait for chpasswd".to_string(),
        failure_prefix: "chpasswd failed".to_string(),
        empty_failure: Some("chpasswd failed without output".to_string()),
    };
    let step = PlanStep::Feed(feed);
    assert_eq!(step_failure(&step, &StepOutcome::NoInput), Some("No stdin for chpasswd".to_string()));
    assert_eq!(step_failure(&step, &exited("exit status: 1", "  ")), Some("chpasswd failed without output".to_string()));
    assert_eq!(step_failure(&step, &exited("exit status: 1", "bad line\n")), Some("chpasswd failed: bad line".to_string()));
    assert_eq!(step_failure(&step, &StepOutcome::WaitFailed("gone".to_string())), Some("Failed to wait for chpasswd: gone".to_string()));
}

#[test]
fn delete_steps_check_disks_listing_and_command() {
    let managed = vec!["/dev/sda".to_string()];
    let step = PlanStep::DeletePartition { path: "/dev/sda3".to_string(), managed_disks: managed.clone() };
    let listed = vec![PartitionInfo {
        path: "/dev/sda3".to_string(),
        parent_disk: "/dev/sda".to_string(),
        partition_number: 3,
        size_bytes: 1024,
        fstype: None,
    }];
    let ok = StepOutcome::Deletion { listing: Ok(listed), command: CommandOutcome::Succeeded };
    assert_eq!(step_failure(&step, &ok), None);
    let unread = StepOutcome::Deletion { listing: Err("lsblk failed".to_string()), command: CommandOutcome::Succeeded };
    assert_eq!(step_failure(&step, &unread), Some("lsblk failed".to_string()));
    let missing = StepOutcome::Deletion { listing: Ok(Vec::new()), command: CommandOutcome::Succeeded };
    assert_eq!(step_failure(&step, &missing), Some("Partition /dev/sda3 was not found.".to_string()));
    let outside = PlanStep::DeletePartition { path: "/dev/sdab1".to_string(), managed_disks: managed };
    assert_eq!(
        step_failure(&outside, &StepOutcome::Deletion { listing: Ok(Vec::new()), command: CommandOutcome::Succeeded }),
        Some("Partition /dev/sdab1 is outside the selected install/home disks.".to_string())
    );
}

#[test]
fn install_runs_on_after_mirror_failure_and_stops_at_fatal_ones() {
    assert_eq!(next_install_task(InstallAttempt::Full, DesktopEnv::Kde, 0, false), Some(InstallTask::StageConfig));
    assert_eq!(next_install_task(InstallAttempt::Full, DesktopEnv::Kde, 3, true), Some(InstallTask::Pacstrap));
    assert_eq!(next_install_task(InstallAttempt::Full, DesktopEnv::Kde, 4, true), None);
    assert_eq!(next_install_task(InstallAttempt::Full, DesktopEnv::Kde, 7, false), None);
    assert_eq!(next_install_task(InstallAttempt::Full, DesktopEnv::Gnome, 7, false), Some(InstallTask::ConfigureGnome));
    assert_eq!(next_install_task(InstallAttempt::RetryConfig, DesktopEnv::Server, 0, false), Some(InstallTask::ConfigureSystem));
    assert_eq!(next_task_in(&vec![InstallTask::Fstab], 0, false), None);
}

#[test]
fn regional_choices_come_from_the_listings() {
    assert_eq!(
        regional_choices(Menu::Timezone, "Europe/Berlin\n\n  UTC \n", "UTC"),
        vec!["Europe/Berlin", "UTC"]
    );
    assert_eq!(regional_choices(Menu::Keymap, "de\nus\n", "fr"), vec!["fr", "de", "us"]);
    assert_eq!(
        regional_choices(Menu::Locale, "en_US.UTF-8 UTF-8\n\nde_DE ISO-8859-1\n", "en_US.UTF-8"),
        vec!["en_US.UTF-8", "de_DE"]
    );
    let table = "Country                Code  Count\n---------------------------------\nGermany                DE      150\nUnited States          US      300\n";
    assert_eq!(
        regional_choices(Menu::MirrorRegion, table, "Worldwide"),
        vec!["Worldwide", "Germany", "United States"]
    );
    assert_eq!(regional_choices(Menu::MirrorRegion, "", "Germany"), vec!["Germany", "Worldwide"]);
    assert_eq!(first_column_exec("New Zealand   NZ  3"), "New Zealand");
}
