use access_os_installer::installer::config_engine::{
    full_package_list, merge_packages, parse_package_list, profile_files, DesktopEnv,
    KernelVariant,
};

#[test]
fn parser_ignores_comments_and_blank_lines() {
    let packages = parse_package_list("\n# comment\nbase\n\nnetworkmanager\n  # indented comment\nvim\n");
    assert_eq!(packages, vec!["base", "networkmanager", "vim"]);
}

#[test]
fn merge_keeps_first_seen_order() {
    let merged = merge_packages(&[
        vec!["base".to_string(), "vim".to_string()],
        vec!["vim".to_string(), "gdm".to_string()],
        vec!["gdm".to_string(), "linux".to_string()],
    ]);
    assert_eq!(merged, vec!["base", "vim", "gdm", "linux"]);
}

#[test]
fn desktop_and_kernel_map_to_expected_files() {
    assert_eq!(DesktopEnv::Gnome.profile_filename(), "gnome.txt");
    assert_eq!(DesktopEnv::Server.profile_filename(), "server.txt");
    assert_eq!(KernelVariant::Standard.profile_filename(), "kernel-standard.txt");
    assert_eq!(KernelVariant::Hardened.profile_filename(), "kernel-hardened.txt");
}

#[test]
fn parser_trims_lines_and_crlf() {
    let packages = parse_package_list("  base  \r\n\tvim\r\n#x\r\n");
    assert_eq!(packages, vec!["base", "vim"]);
    assert!(parse_package_list("").is_empty());
    assert!(parse_package_list("\n\n   \n# only comments\n").is_empty());
    assert_eq!(parse_package_list("last-line-without-newline"), vec!["last-line-without-newline"]);
}

#[test]
fn profile_files_follow_selection() {
    assert_eq!(
        profile_files(&DesktopEnv::Kde, &KernelVariant::Zen, true),
        vec!["base.txt", "kde.txt", "kernel-zen.txt", "nvidia.txt"]
    );
    assert_eq!(
        profile_files(&DesktopEnv::Server, &KernelVariant::Lts, false),
        vec!["base.txt", "server.txt", "kernel-lts.txt"]
    );
}

#[test]
fn full_package_list_parses_and_merges_profile_texts() {
    let texts = vec![
        "base\nvim\n".to_string(),
        "# desktop\ngnome\ngdm\nvim\n".to_string(),
        "linux\nlinux-headers\n".to_string(),
        "nvidia-dkms\ngdm\n".to_string(),
    ];
    let packages = full_package_list(&texts);
    assert_eq!(packages, vec!["base", "vim", "gnome", "gdm", "linux", "linux-headers", "nvidia-dkms"]);
    assert_eq!(packages.iter().filter(|p| p.as_str() == "gdm").count(), 1);
}

#[test]
fn merge_has_no_duplicates_and_keeps_everything() {
    let groups = vec![
        vec!["a".to_string(), "b".to_string(), "a".to_string()],
        vec![],
        vec!["c".to_string(), "b".to_string()],
    ];
    let merged = merge_packages(&groups);
    assert_eq!(merged, vec!["a", "b", "c"]);
    for group in &groups {
        for pkg in group {
            assert!(merged.contains(pkg));
        }
    }
}

#[test]
fn desktop_and_kernel_lookups() {
    assert_eq!(DesktopEnv::all().len(), 4);
    assert_eq!(DesktopEnv::from_index(1), Some(&DesktopEnv::Kde));
    assert_eq!(DesktopEnv::from_index(4), None);
    assert_eq!(KernelVariant::from_index(3), Some(&KernelVariant::Hardened));
    assert_eq!(KernelVariant::from_index(9), None);
    assert!(!DesktopEnv::Niri.is_available());
    assert!(DesktopEnv::Server.is_available());
    assert_eq!(DesktopEnv::Server.display_manager(), None);
    assert_eq!(DesktopEnv::Niri.display_manager(), Some("gdm"));
    assert_eq!(DesktopEnv::Kde.display_manager(), Some("sddm"));
    assert_eq!(DesktopEnv::Server.extra_services(), &["docker", "tailscaled", "sshd"]);
    assert!(DesktopEnv::Gnome.extra_services().is_empty());
    assert_eq!(KernelVariant::Lts.vmlinuz(), "/vmlinuz-linux-lts");
    assert_eq!(KernelVariant::Zen.initramfs(), "/initramfs-linux-zen.img");
    assert_eq!(KernelVariant::Standard.label(), "Linux (Standard)");
    assert_eq!(DesktopEnv::Gnome.label(), "GNOME (Custom)");
}

/// Profile texts of the shape the installer ships, keyed by file name.
fn profile_text(name: &str) -> String {
    match name {
        "base.txt" => "# base system\nbase\nlinux-firmware\nnetworkmanager\nvim\n",
        "kde.txt" => "plasma-meta\nkde-applications-meta\nsddm\n",
        "gnome.txt" => "gnome\ngnome-extra\ngdm\n",
        "kernel-standard.txt" => "linux\nlinux-headers\n",
        "nvidia.txt" => "nvidia-dkms\nnvidia-utils\n# display manager integration\ngdm\n",
        _ => "",
    }
    .to_string()
}

fn packages_for(de: &DesktopEnv, kernel: &KernelVariant, nvidia: bool) -> Vec<String> {
    let texts: Vec<String> = profile_files(de, kernel, nvidia).iter().map(|name| profile_text(name)).collect();
    full_package_list(&texts)
}

#[test]
fn desktop_profile_packages_load_from_text_file() {
    let file = profile_files(&DesktopEnv::Kde, &KernelVariant::Standard, false)[1];
    assert_eq!(file, DesktopEnv::Kde.profile_filename());
    let packages = parse_package_list(&profile_text(file));
    assert_eq!(packages, vec!["plasma-meta", "kde-applications-meta", "sddm"]);
}

#[test]
fn full_package_list_merges_base_desktop_kernel_and_nvidia() {
    let packages = packages_for(&DesktopEnv::Gnome, &KernelVariant::Standard, true);
    assert!(packages.contains(&"base".to_string()));
    assert!(packages.contains(&"gnome".to_string()));
    assert!(packages.contains(&"linux".to_string()));
    assert!(packages.contains(&"nvidia-dkms".to_string()));
    assert_eq!(
        packages.iter().filter(|pkg| pkg.as_str() == "gdm").count(),
        1
    );
}
