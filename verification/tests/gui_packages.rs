use access_os_installer::gui::config_engine::{base_packages, full_package_list};
use access_os_installer::gui::mappers::format_review_summary;
use access_os_installer::gui::pages::initial_state;
use access_os_installer::installer::config_engine::{DesktopEnv, KernelVariant};

fn has_repeats(v: &[&str]) -> bool {
    v.iter().enumerate().any(|(i, p)| v[..i].contains(p))
}

#[test]
fn base_packages_are_distinct_and_end_with_the_kernel() {
    for kernel in [KernelVariant::Standard, KernelVariant::Lts, KernelVariant::Zen, KernelVariant::Hardened] {
        let packages = base_packages(&kernel);
        assert_eq!(packages.len(), 57);
        assert_eq!(packages[0], "base");
        assert!(!has_repeats(&packages));
        assert_eq!(&packages[55..], kernel.packages());
        assert_eq!(&packages[..55], &base_packages(&KernelVariant::Standard)[..55]);
    }
}

#[test]
fn server_package_list_keeps_first_listing_once() {
    let packages = full_package_list(&DesktopEnv::Server, &KernelVariant::Standard, false);
    assert_eq!(packages.len(), 60);
    assert_eq!(packages.iter().filter(|p| **p == "openssh").count(), 1);
    assert!(!packages.contains(&"nvidia-dkms"));
    assert!(!has_repeats(&packages));
    assert_eq!(&packages[..57], &base_packages(&KernelVariant::Standard)[..]);
    assert_eq!(&packages[57..], &["docker", "docker-compose", "tailscale"]);
}

#[test]
fn gnome_with_nvidia_lists_drivers_last() {
    let packages = full_package_list(&DesktopEnv::Gnome, &KernelVariant::Zen, true);
    assert_eq!(packages.len(), 57 + 4 + 3);
    assert_eq!(&packages[packages.len() - 3..], &["nvidia-dkms", "nvidia-utils", "lib32-nvidia-utils"]);
}

#[test]
fn review_summary_never_shows_the_password() {
    let mut state = initial_state(8);
    state.password = "hunter2".to_string();
    let summary = format_review_summary(&state);
    assert!(!summary.contains("hunter2"));
    let mut other = initial_state(8);
    other.password = "different".to_string();
    assert_eq!(format_review_summary(&other), summary);
    let lines: Vec<&str> = summary.lines().collect();
    assert_eq!(lines.len(), 16);
    assert_eq!(lines[0], "Target disk: (not selected)");
    assert_eq!(lines[15], "Dotfiles: https://github.com/Boo15mario/access-os-config");
    state.drive = "/dev/sda".to_string();
    state.selected_disk_gib = Some(256);
    assert!(format_review_summary(&state).starts_with("Target disk: /dev/sda (256 GiB)\n"));
}
