use crate::gui::preflight::{check_views, CheckResult, CheckResultModel, CheckStatus, PreflightContext};
use crate::gui::state::AppState;
use crate::installer::storage_plan::{HomeLocation, HomeMode, SetupMode, StorageSelection, SwapMode};
use crate::system::system_ram_gib;
use crate::installer::config_engine::DesktopEnv;
use crate::text::{
    decimal, join, lemma_decimal_one_line, lemma_one_line_concat, lemma_split_newlines_after, lemma_split_newlines_one_line,
    one_line, opt_view, seq_join, split_newlines, u64_to_string, views,
};
use vstd::prelude::*;

verus! {

/// The repository of Access OS configuration files.
pub open spec fn dotfiles_repo_url() -> Seq<char> {
    "https://github.com/Boo15mario/access-os-config"@
}

pub fn dotfiles_repo_url_str() -> (r: &'static str)
    ensures
        r@ == dotfiles_repo_url(),
{
    "https://github.com/Boo15mario/access-os-config"
}

/// The preflight context for the selected disk, given what was found about
/// the firmware, the network and the RAM.
pub open spec fn context_spec(state: &AppState, is_uefi: bool, online: bool, ram_gib: u64) -> PreflightContext {
    PreflightContext {
        is_uefi,
        has_disk: state.drive@.len() > 0,
        online,
        ram_gib,
        disk_gib: state.selected_disk_gib,
    }
}

pub fn preflight_context_with_ram(state: &AppState, is_uefi: bool, online: bool, ram_gib: u64) -> (r: PreflightContext)
    ensures
        r == context_spec(state, is_uefi, online, ram_gib),
{
    PreflightContext {
        is_uefi,
        has_disk: state.drive.as_str().unicode_len() > 0,
        online,
        ram_gib,
        disk_gib: state.selected_disk_gib,
    }
}

/// The preflight context for the selected disk, with this machine's RAM.
pub fn preflight_context_from_state(state: &AppState, is_uefi: bool, online: bool) -> (r: PreflightContext)
    ensures
        exists|ram: u64| r == context_spec(state, is_uefi, online, ram),
{
    let ram = system_ram_gib();
    preflight_context_with_ram(state, is_uefi, online, ram)
}

pub open spec fn check_line(c: CheckResultModel) -> Seq<char> {
    "["@ + c.status.label_spec() + "] "@ + c.label + ": "@ + c.message
}

pub open spec fn check_group_lines(results: Seq<CheckResultModel>, hard_only: bool) -> Seq<Seq<char>> {
    results.filter(|c: CheckResultModel| c.is_hard == hard_only).map_values(|c: CheckResultModel| check_line(c))
}

/// The hard (or soft) checks, one `[STATUS] label: message` line each.
pub open spec fn format_check_group_spec(results: Seq<CheckResultModel>, hard_only: bool) -> Seq<char> {
    let lines = check_group_lines(results, hard_only);
    if lines.len() == 0 {
        "No checks in this group."@
    } else {
        seq_join(lines, "\n"@)
    }
}

pub fn format_check_group(results: &[CheckResult], hard_only: bool) -> (r: String)
    ensures
        r@ == format_check_group_spec(check_views(results@), hard_only),
{
    let ghost all = check_views(results@);
    let ghost pred = |c: CheckResultModel| c.is_hard == hard_only;
    let mut lines: Vec<String> = Vec::new();
    let n = results.len();
    let mut i: usize = 0;
    while i < n
        invariant
            n == results@.len(),
            all == check_views(results@),
            pred == (|c: CheckResultModel| c.is_hard == hard_only),
            i <= n,
            views(lines@) == all.take(i as int).filter(pred).map_values(|c: CheckResultModel| check_line(c)),
        decreases n - i,
    {
        let check = &results[i];
        proof {
            assert(all.take(i + 1) =~= all.take(i as int).push(check@));
            crate::text::lemma_filter_push(all.take(i as int), pred, check@);
        }
        if check.is_hard == hard_only {
            let line = "[".to_string().concat(check.status.label()).concat("] ").concat(check.label).concat(": ").concat(
                check.message.as_str(),
            );
            let ghost prev = lines@;
            lines.push(line);
            assert(views(lines@) =~= views(prev).push(line@));
            assert(views(lines@) =~= all.take(i + 1).filter(pred).map_values(|c: CheckResultModel| check_line(c)));
        }
        i = i + 1;
    }
    assert(all.take(n as int) =~= all);
    if lines.len() == 0 {
        "No checks in this group.".to_string()
    } else {
        join(&lines, "\n")
    }
}

pub open spec fn warning_lines(results: Seq<CheckResultModel>) -> Seq<Seq<char>> {
    results.filter(|c: CheckResultModel| c.status == CheckStatus::Warn).map_values(|c: CheckResultModel| "- "@ + c.message)
}

/// The warning messages, one `- message` line each.
pub open spec fn format_warning_lines_spec(results: Seq<CheckResultModel>) -> Seq<char> {
    let lines = warning_lines(results);
    if lines.len() == 0 {
        "No warnings detected."@
    } else {
        seq_join(lines, "\n"@)
    }
}

pub fn format_warning_lines(results: &[CheckResult]) -> (r: String)
    ensures
        r@ == format_warning_lines_spec(check_views(results@)),
{
    let ghost all = check_views(results@);
    let ghost pred = |c: CheckResultModel| c.status == CheckStatus::Warn;
    let mut lines: Vec<String> = Vec::new();
    let n = results.len();
    let mut i: usize = 0;
    while i < n
        invariant
            n == results@.len(),
            all == check_views(results@),
            pred == (|c: CheckResultModel| c.status == CheckStatus::Warn),
            i <= n,
            views(lines@) == all.take(i as int).filter(pred).map_values(|c: CheckResultModel| "- "@ + c.message),
        decreases n - i,
    {
        let check = &results[i];
        proof {
            assert(all.take(i + 1) =~= all.take(i as int).push(check@));
            crate::text::lemma_filter_push(all.take(i as int), pred, check@);
        }
        if check.status == CheckStatus::Warn {
            let line = "- ".to_string().concat(check.message.as_str());
            let ghost prev = lines@;
            lines.push(line);
            assert(views(lines@) =~= views(prev).push(line@));
            assert(views(lines@) =~= all.take(i + 1).filter(pred).map_values(|c: CheckResultModel| "- "@ + c.message));
        }
        i = i + 1;
    }
    assert(all.take(n as int) =~= all);
    if lines.len() == 0 {
        "No warnings detected.".to_string()
    } else {
        join(&lines, "\n")
    }
}

pub open spec fn nonempty_opt(s: Seq<char>) -> Option<Seq<char>> {
    if s.len() == 0 { None } else { Some(s) }
}

fn nonempty_string(s: &String) -> (r: Option<String>)
    ensures
        opt_view(r) == nonempty_opt(s@),
{
    if s.as_str().unicode_len() == 0 {
        None
    } else {
        Some(s.clone())
    }
}

/// The storage selection the graphical installer's state describes: an
/// empty text field means "not chosen".
pub open spec fn selection_matches_state(sel: StorageSelection, state: &AppState) -> bool {
    &&& sel.install_disk@ == state.drive@
    &&& sel.setup_mode == state.setup_mode
    &&& sel.fs_type@ == state.fs_type@
    &&& sel.swap_mode == state.swap_mode
    &&& sel.swap_size_gib == state.swap_gb
    &&& sel.swap_file_size_mb == Some(state.swap_file_mb)
    &&& sel.home_mode == state.home_mode
    &&& sel.home_location == state.home_location
    &&& opt_view(sel.home_disk) == nonempty_opt(state.home_disk@)
    &&& opt_view(sel.manual_efi_partition) == nonempty_opt(state.manual_efi_partition@)
    &&& opt_view(sel.manual_root_partition) == nonempty_opt(state.manual_root_partition@)
    &&& opt_view(sel.manual_home_partition) == nonempty_opt(state.manual_home_partition@)
    &&& opt_view(sel.manual_swap_partition) == nonempty_opt(state.manual_swap_partition@)
    &&& sel.format_efi == state.format_efi
    &&& sel.format_root == state.format_root
    &&& sel.format_home == state.format_home
    &&& sel.format_swap == state.format_swap
    &&& sel.removable_media == state.removable_media
}

pub fn storage_selection_from_state(state: &AppState) -> (r: StorageSelection)
    ensures
        selection_matches_state(r, state),
{
    StorageSelection {
        install_disk: state.drive.clone(),
        setup_mode: state.setup_mode,
        fs_type: state.fs_type.clone(),
        swap_mode: state.swap_mode,
        swap_size_gib: state.swap_gb,
        swap_file_size_mb: Some(state.swap_file_mb),
        home_mode: state.home_mode,
        home_location: state.home_location,
        home_disk: nonempty_string(&state.home_disk),
        manual_efi_partition: nonempty_string(&state.manual_efi_partition),
        manual_root_partition: nonempty_string(&state.manual_root_partition),
        manual_home_partition: nonempty_string(&state.manual_home_partition),
        manual_swap_partition: nonempty_string(&state.manual_swap_partition),
        format_efi: state.format_efi,
        format_root: state.format_root,
        format_home: state.format_home,
        format_swap: state.format_swap,
        removable_media: state.removable_media,
    }
}

pub open spec fn or_placeholder(s: Seq<char>, placeholder: Seq<char>) -> Seq<char> {
    if s.len() == 0 { placeholder } else { s }
}

pub open spec fn yes_no_spec(b: bool) -> Seq<char> {
    if b { "Yes"@ } else { "No"@ }
}

pub open spec fn target_disk_label(state: &AppState) -> Seq<char> {
    if state.drive@.len() == 0 {
        "(not selected)"@
    } else {
        match state.selected_disk_gib {
            Some(g) => state.drive@ + " ("@ + decimal(g as nat) + " GiB)"@,
            None => state.drive@,
        }
    }
}

pub open spec fn home_label_spec(state: &AppState) -> Seq<char> {
    match state.home_mode {
        HomeMode::OnRoot => "Home on root filesystem"@,
        HomeMode::Separate => match state.home_location {
            HomeLocation::SameDisk => "Separate /home on same disk"@,
            HomeLocation::OtherDisk => if state.home_disk@.len() == 0 {
                "Separate /home on another disk (not selected)"@
            } else {
                "Separate /home on another disk ("@ + state.home_disk@ + ")"@
            },
        },
    }
}

pub open spec fn swap_label_spec(state: &AppState) -> Seq<char> {
    match state.swap_mode {
        SwapMode::Partition => "Swap partition ("@ + decimal(state.swap_gb as nat) + " GiB)"@,
        SwapMode::File => "Swap file ("@ + decimal(state.swap_file_mb as nat) + " MB)"@,
    }
}

/// The review screen's summary of every choice, one `Name: value` line each.
pub open spec fn review_summary_spec(state: &AppState) -> Seq<char> {
    "Target disk: "@ + target_disk_label(state)
        + "\nDisk setup: "@ + (match state.setup_mode { SetupMode::Automatic => "Automatic"@, SetupMode::Manual => "Manual"@ })
        + "\nHome mode: "@ + home_label_spec(state)
        + "\nSwap: "@ + swap_label_spec(state)
        + "\nRoot filesystem: "@ + state.fs_type@
        + "\nRemovable media: "@ + yes_no_spec(state.removable_media)
        + "\nMirror region: "@ + state.mirror_region@
        + "\nKernel: "@ + state.kernel.label_spec()
        + "\nDesktop environment: "@ + (match state.desktop_env { Some(de) => de.label_spec(), None => "(not selected)"@ })
        + "\nNvidia drivers: "@ + yes_no_spec(state.nvidia)
        + "\nHostname: "@ + or_placeholder(state.hostname@, "(not set)"@)
        + "\nUsername: "@ + or_placeholder(state.username@, "(not set)"@)
        + "\nTimezone: "@ + state.timezone@
        + "\nLocale: "@ + state.locale@
        + "\nKeymap: "@ + state.keymap@
        + "\nDotfiles: "@ + dotfiles_repo_url()
}

fn yes_no(b: bool) -> (r: &'static str)
    ensures
        r@ == yes_no_spec(b),
{
    if b { "Yes" } else { "No" }
}

fn or_not_set(s: &String) -> (r: &str)
    ensures
        r@ == or_placeholder(s@, "(not set)"@),
{
    if s.as_str().unicode_len() == 0 { "(not set)" } else { s.as_str() }
}

pub fn format_review_summary(state: &AppState) -> (r: String)
    ensures
        r@ == review_summary_spec(state),
{
    let target_disk = if state.drive.as_str().unicode_len() == 0 {
        "(not selected)".to_string()
    } else {
        match state.selected_disk_gib {
            Some(g) => state.drive.clone().concat(" (").concat(u64_to_string(g).as_str()).concat(" GiB)"),
            None => state.drive.clone(),
        }
    };
    let de_label = match &state.desktop_env {
        Some(de) => de.label(),
        None => "(not selected)",
    };
    let setup_mode_label = match state.setup_mode {
        SetupMode::Automatic => "Automatic",
        SetupMode::Manual => "Manual",
    };
    let swap_label = match state.swap_mode {
        SwapMode::Partition => "Swap partition (".to_string().concat(u64_to_string(state.swap_gb).as_str()).concat(" GiB)"),
        SwapMode::File => "Swap file (".to_string().concat(u64_to_string(state.swap_file_mb).as_str()).concat(" MB)"),
    };
    let home_label = match state.home_mode {
        HomeMode::OnRoot => "Home on root filesystem".to_string(),
        HomeMode::Separate => match state.home_location {
            HomeLocation::SameDisk => "Separate /home on same disk".to_string(),
            HomeLocation::OtherDisk => {
                if state.home_disk.as_str().unicode_len() == 0 {
                    "Separate /home on another disk (not selected)".to_string()
                } else {
                    "Separate /home on another disk (".to_string().concat(state.home_disk.as_str()).concat(")")
                }
            },
        },
    };
    "Target disk: ".to_string().concat(target_disk.as_str())
        .concat("\nDisk setup: ").concat(setup_mode_label)
        .concat("\nHome mode: ").concat(home_label.as_str())
        .concat("\nSwap: ").concat(swap_label.as_str())
        .concat("\nRoot filesystem: ").concat(state.fs_type.as_str())
        .concat("\nRemovable media: ").concat(yes_no(state.removable_media))
        .concat("\nMirror region: ").concat(state.mirror_region.as_str())
        .concat("\nKernel: ").concat(state.kernel.label())
        .concat("\nDesktop environment: ").concat(de_label)
        .concat("\nNvidia drivers: ").concat(yes_no(state.nvidia))
        .concat("\nHostname: ").concat(or_not_set(&state.hostname))
        .concat("\nUsername: ").concat(or_not_set(&state.username))
        .concat("\nTimezone: ").concat(state.timezone.as_str())
        .concat("\nLocale: ").concat(state.locale.as_str())
        .concat("\nKeymap: ").concat(state.keymap.as_str())
        .concat("\nDotfiles: ").concat(dotfiles_repo_url_str())
}

/// The name of a setup mode as the summary shows it.
pub open spec fn setup_label(m: SetupMode) -> Seq<char> {
    match m {
        SetupMode::Automatic => "Automatic"@,
        SetupMode::Manual => "Manual"@,
    }
}

/// The desktop as the summary shows it.
pub open spec fn desktop_label(de: Option<DesktopEnv>) -> Seq<char> {
    match de {
        Some(d) => d.label_spec(),
        None => "(not selected)"@,
    }
}

/// The lines of the review summary, in order.
pub open spec fn review_summary_lines(state: &AppState) -> Seq<Seq<char>> {
    seq![
        "Target disk: "@ + target_disk_label(state),
        "Disk setup: "@ + setup_label(state.setup_mode),
        "Home mode: "@ + home_label_spec(state),
        "Swap: "@ + swap_label_spec(state),
        "Root filesystem: "@ + state.fs_type@,
        "Removable media: "@ + yes_no_spec(state.removable_media),
        "Mirror region: "@ + state.mirror_region@,
        "Kernel: "@ + state.kernel.label_spec(),
        "Desktop environment: "@ + desktop_label(state.desktop_env),
        "Nvidia drivers: "@ + yes_no_spec(state.nvidia),
        "Hostname: "@ + or_placeholder(state.hostname@, "(not set)"@),
        "Username: "@ + or_placeholder(state.username@, "(not set)"@),
        "Timezone: "@ + state.timezone@,
        "Locale: "@ + state.locale@,
        "Keymap: "@ + state.keymap@,
        "Dotfiles: "@ + dotfiles_repo_url(),
    ]
}

/// The fields that the summary shows as they were typed or chosen hold no
/// newline.
pub open spec fn shown_fields_one_line(state: &AppState) -> bool {
    &&& one_line(state.drive@)
    &&& one_line(state.home_disk@)
    &&& one_line(state.fs_type@)
    &&& one_line(state.mirror_region@)
    &&& one_line(state.hostname@)
    &&& one_line(state.username@)
    &&& one_line(state.timezone@)
    &&& one_line(state.locale@)
    &&& one_line(state.keymap@)
}

proof fn lemma_next_line(p: Seq<char>, b: Seq<char>, c: Seq<char>, v: Seq<char>)
    requires
        b =~= seq!['\n'] + c,
        one_line(c),
        one_line(v),
    ensures
        split_newlines(p + b + v) == split_newlines(p).push(c + v),
{
    lemma_one_line_concat(c, v);
    assert(p + b + v =~= p.push('\n') + (c + v));
    lemma_split_newlines_after(p, c + v);
}

proof fn lemma_summary_values_one_line(state: &AppState)
    requires
        shown_fields_one_line(state),
    ensures
        one_line(target_disk_label(state)),
        one_line(setup_label(state.setup_mode)),
        one_line(home_label_spec(state)),
        one_line(swap_label_spec(state)),
        one_line(yes_no_spec(state.removable_media)),
        one_line(yes_no_spec(state.nvidia)),
        one_line(state.kernel.label_spec()),
        one_line(desktop_label(state.desktop_env)),
        one_line(or_placeholder(state.hostname@, "(not set)"@)),
        one_line(or_placeholder(state.username@, "(not set)"@)),
        one_line(dotfiles_repo_url()),
{
    reveal_strlit("(not selected)");
    reveal_strlit(" (");
    reveal_strlit(" GiB)");
    reveal_strlit("Automatic");
    reveal_strlit("Manual");
    reveal_strlit("Home on root filesystem");
    reveal_strlit("Separate /home on same disk");
    reveal_strlit("Separate /home on another disk (not selected)");
    reveal_strlit("Separate /home on another disk (");
    reveal_strlit(")");
    reveal_strlit("Swap partition (");
    reveal_strlit("Swap file (");
    reveal_strlit(" MB)");
    reveal_strlit("Yes");
    reveal_strlit("No");
    reveal_strlit("Linux (Standard)");
    reveal_strlit("Linux LTS");
    reveal_strlit("Linux Zen");
    reveal_strlit("Linux Hardened");
    reveal_strlit("GNOME (Custom)");
    reveal_strlit("KDE Plasma");
    reveal_strlit("Server (Headless)");
    reveal_strlit("Niri (Coming Soon)");
    reveal_strlit("(not set)");
    reveal_strlit("https://github.com/Boo15mario/access-os-config");
    assert(one_line("(not selected)"@));
    assert(one_line(" ("@));
    assert(one_line(" GiB)"@));
    assert(one_line("Automatic"@));
    assert(one_line("Manual"@));
    assert(one_line("Home on root filesystem"@));
    assert(one_line("Separate /home on same disk"@));
    assert(one_line("Separate /home on another disk (not selected)"@));
    assert(one_line("Separate /home on another disk ("@));
    assert(one_line(")"@));
    assert(one_line("Swap partition ("@));
    assert(one_line("Swap file ("@));
    assert(one_line(" MB)"@));
    assert(one_line("Yes"@));
    assert(one_line("No"@));
    assert(one_line("Linux (Standard)"@));
    assert(one_line("Linux LTS"@));
    assert(one_line("Linux Zen"@));
    assert(one_line("Linux Hardened"@));
    assert(one_line("GNOME (Custom)"@));
    assert(one_line("KDE Plasma"@));
    assert(one_line("Server (Headless)"@));
    assert(one_line("Niri (Coming Soon)"@));
    assert(one_line("(not set)"@));
    assert(one_line("https://github.com/Boo15mario/access-os-config"@));
    lemma_decimal_one_line(state.swap_gb as nat);
    lemma_decimal_one_line(state.swap_file_mb as nat);
    if state.drive@.len() > 0 {
        if let Some(g) = state.selected_disk_gib {
            lemma_decimal_one_line(g as nat);
            lemma_one_line_concat(state.drive@, " ("@);
            lemma_one_line_concat(state.drive@ + " ("@, decimal(g as nat));
            lemma_one_line_concat(state.drive@ + " ("@ + decimal(g as nat), " GiB)"@);
        }
    }
    lemma_one_line_concat("Separate /home on another disk ("@, state.home_disk@);
    lemma_one_line_concat("Separate /home on another disk ("@ + state.home_disk@, ")"@);
    lemma_one_line_concat("Swap partition ("@, decimal(state.swap_gb as nat));
    lemma_one_line_concat("Swap partition ("@ + decimal(state.swap_gb as nat), " GiB)"@);
    lemma_one_line_concat("Swap file ("@, decimal(state.swap_file_mb as nat));
    lemma_one_line_concat("Swap file ("@ + decimal(state.swap_file_mb as nat), " MB)"@);
}

/// The review summary is exactly its sixteen lines, one for each choice
/// from the target disk to the configuration repository, when no field it
/// shows holds a newline.
pub proof fn law_review_summary_lines(state: AppState)
    requires
        shown_fields_one_line(&state),
    ensures
        split_newlines(review_summary_spec(&state)) == review_summary_lines(&state),
        review_summary_lines(&state).len() == 16,
        review_summary_lines(&state)[0] == "Target disk: "@ + target_disk_label(&state),
        review_summary_lines(&state)[15] == "Dotfiles: "@ + dotfiles_repo_url(),
{
    lemma_summary_values_one_line(&state);
    reveal_strlit("Target disk: ");
    reveal_strlit("Disk setup: ");
    reveal_strlit("\nDisk setup: ");
    reveal_strlit("Home mode: ");
    reveal_strlit("\nHome mode: ");
    reveal_strlit("Swap: ");
    reveal_strlit("\nSwap: ");
    reveal_strlit("Root filesystem: ");
    reveal_strlit("\nRoot filesystem: ");
    reveal_strlit("Removable media: ");
    reveal_strlit("\nRemovable media: ");
    reveal_strlit("Mirror region: ");
    reveal_strlit("\nMirror region: ");
    reveal_strlit("Kernel: ");
    reveal_strlit("\nKernel: ");
    reveal_strlit("Desktop environment: ");
    reveal_strlit("\nDesktop environment: ");
    reveal_strlit("Nvidia drivers: ");
    reveal_strlit("\nNvidia drivers: ");
    reveal_strlit("Hostname: ");
    reveal_strlit("\nHostname: ");
    reveal_strlit("Username: ");
    reveal_strlit("\nUsername: ");
    reveal_strlit("Timezone: ");
    reveal_strlit("\nTimezone: ");
    reveal_strlit("Locale: ");
    reveal_strlit("\nLocale: ");
    reveal_strlit("Keymap: ");
    reveal_strlit("\nKeymap: ");
    reveal_strlit("Dotfiles: ");
    reveal_strlit("\nDotfiles: ");
    assert(one_line("Target disk: "@));
    assert(one_line("Disk setup: "@));
    assert(one_line("Home mode: "@));
    assert(one_line("Swap: "@));
    assert(one_line("Root filesystem: "@));
    assert(one_line("Removable media: "@));
    assert(one_line("Mirror region: "@));
    assert(one_line("Kernel: "@));
    assert(one_line("Desktop environment: "@));
    assert(one_line("Nvidia drivers: "@));
    assert(one_line("Hostname: "@));
    assert(one_line("Username: "@));
    assert(one_line("Timezone: "@));
    assert(one_line("Locale: "@));
    assert(one_line("Keymap: "@));
    assert(one_line("Dotfiles: "@));
    let p0 = "Target disk: "@ + target_disk_label(&state);
    lemma_one_line_concat("Target disk: "@, target_disk_label(&state));
    lemma_split_newlines_one_line(p0);
    assert("\nDisk setup: "@ =~= seq!['\n'] + "Disk setup: "@);
    lemma_next_line(p0, "\nDisk setup: "@, "Disk setup: "@, setup_label(state.setup_mode));
    let p1 = p0 + "\nDisk setup: "@ + setup_label(state.setup_mode);
    assert("\nHome mode: "@ =~= seq!['\n'] + "Home mode: "@);
    lemma_next_line(p1, "\nHome mode: "@, "Home mode: "@, home_label_spec(&state));
    let p2 = p1 + "\nHome mode: "@ + home_label_spec(&state);
    assert("\nSwap: "@ =~= seq!['\n'] + "Swap: "@);
    lemma_next_line(p2, "\nSwap: "@, "Swap: "@, swap_label_spec(&state));
    let p3 = p2 + "\nSwap: "@ + swap_label_spec(&state);
    assert("\nRoot filesystem: "@ =~= seq!['\n'] + "Root filesystem: "@);
    lemma_next_line(p3, "\nRoot filesystem: "@, "Root filesystem: "@, state.fs_type@);
    let p4 = p3 + "\nRoot filesystem: "@ + state.fs_type@;
    assert("\nRemovable media: "@ =~= seq!['\n'] + "Removable media: "@);
    lemma_next_line(p4, "\nRemovable media: "@, "Removable media: "@, yes_no_spec(state.removable_media));
    let p5 = p4 + "\nRemovable media: "@ + yes_no_spec(state.removable_media);
    assert("\nMirror region: "@ =~= seq!['\n'] + "Mirror region: "@);
    lemma_next_line(p5, "\nMirror region: "@, "Mirror region: "@, state.mirror_region@);
    let p6 = p5 + "\nMirror region: "@ + state.mirror_region@;
    assert("\nKernel: "@ =~= seq!['\n'] + "Kernel: "@);
    lemma_next_line(p6, "\nKernel: "@, "Kernel: "@, state.kernel.label_spec());
    let p7 = p6 + "\nKernel: "@ + state.kernel.label_spec();
    assert("\nDesktop environment: "@ =~= seq!['\n'] + "Desktop environment: "@);
    lemma_next_line(p7, "\nDesktop environment: "@, "Desktop environment: "@, desktop_label(state.desktop_env));
    let p8 = p7 + "\nDesktop environment: "@ + desktop_label(state.desktop_env);
    assert("\nNvidia drivers: "@ =~= seq!['\n'] + "Nvidia drivers: "@);
    lemma_next_line(p8, "\nNvidia drivers: "@, "Nvidia drivers: "@, yes_no_spec(state.nvidia));
    let p9 = p8 + "\nNvidia drivers: "@ + yes_no_spec(state.nvidia);
    assert("\nHostname: "@ =~= seq!['\n'] + "Hostname: "@);
    lemma_next_line(p9, "\nHostname: "@, "Hostname: "@, or_placeholder(state.hostname@, "(not set)"@));
    let p10 = p9 + "\nHostname: "@ + or_placeholder(state.hostname@, "(not set)"@);
    assert("\nUsername: "@ =~= seq!['\n'] + "Username: "@);
    lemma_next_line(p10, "\nUsername: "@, "Username: "@, or_placeholder(state.username@, "(not set)"@));
    let p11 = p10 + "\nUsername: "@ + or_placeholder(state.username@, "(not set)"@);
    assert("\nTimezone: "@ =~= seq!['\n'] + "Timezone: "@);
    lemma_next_line(p11, "\nTimezone: "@, "Timezone: "@, state.timezone@);
    let p12 = p11 + "\nTimezone: "@ + state.timezone@;
    assert("\nLocale: "@ =~= seq!['\n'] + "Locale: "@);
    lemma_next_line(p12, "\nLocale: "@, "Locale: "@, state.locale@);
    let p13 = p12 + "\nLocale: "@ + state.locale@;
    assert("\nKeymap: "@ =~= seq!['\n'] + "Keymap: "@);
    lemma_next_line(p13, "\nKeymap: "@, "Keymap: "@, state.keymap@);
    let p14 = p13 + "\nKeymap: "@ + state.keymap@;
    assert("\nDotfiles: "@ =~= seq!['\n'] + "Dotfiles: "@);
    lemma_next_line(p14, "\nDotfiles: "@, "Dotfiles: "@, dotfiles_repo_url());
    let p15 = p14 + "\nDotfiles: "@ + dotfiles_repo_url();
    assert(review_summary_spec(&state) == p15);
    assert(split_newlines(p15) =~= review_summary_lines(&state));
}

/// The review summary never shows the password: two states that differ in
/// nothing else give the same summary.
pub proof fn law_review_summary_hides_password(s1: AppState, s2: AppState)
    requires
        s2 == (AppState { password: s2.password, ..s1 }),
    ensures
        review_summary_spec(&s1) == review_summary_spec(&s2),
{
}

} // verus!
