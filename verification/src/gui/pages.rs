use crate::gui::config_engine::str_views;
use crate::gui::disk_manager::{bytes_to_gib, human_gib_label, BlockDevice};
use crate::gui::state::{AppState, DriveOption};
use crate::installer::commands::{args3, cmd, command, push_str, CommandModel, CommandSpec};
use crate::installer::config_engine::{all_desktops, DesktopEnv, KernelVariant};
use crate::installer::disk_manager::gib;
use crate::installer::storage_plan::{HomeLocation, HomeMode, SetupMode, SwapMode};
use crate::text::{decimal, owned, seq_join, split_whitespace, trim, trimmed, views, words};
use vstd::prelude::*;

verus! {

// ---------------------------------------------------------------------------
// The first state

/// What the graphical installer starts from, given the suggested swap size:
/// an automatic setup on XFS with a swap partition of that size, `/home` on
/// root, every format flag set, and the default region settings.
pub open spec fn initial_state_spec(s: &AppState, suggested_swap_gb: u64) -> bool {
    &&& s.drive@.len() == 0
    &&& s.selected_disk_gib is None
    &&& s.swap_gb == suggested_swap_gb
    &&& s.swap_mode == SwapMode::Partition
    &&& s.swap_file_mb == suggested_swap_gb * 1024
    &&& s.fs_type@ == "xfs"@
    &&& s.setup_mode == SetupMode::Automatic
    &&& s.home_mode == HomeMode::OnRoot
    &&& s.home_location == HomeLocation::SameDisk
    &&& s.home_disk@.len() == 0
    &&& s.manual_efi_partition@.len() == 0
    &&& s.manual_root_partition@.len() == 0
    &&& s.manual_home_partition@.len() == 0
    &&& s.manual_swap_partition@.len() == 0
    &&& s.format_efi && s.format_root && s.format_home && s.format_swap
    &&& !s.removable_media
    &&& s.desktop_env is None
    &&& s.kernel == KernelVariant::Standard
    &&& !s.nvidia
    &&& s.hostname@.len() == 0
    &&& s.username@.len() == 0
    &&& s.password@.len() == 0
    &&& s.timezone@ == "America/Chicago"@
    &&& s.locale@ == "en_US.UTF-8"@
    &&& s.keymap@ == "us"@
    &&& s.mirror_region@ == "Worldwide"@
    &&& s.preflight_results@.len() == 0
    &&& s.resolved_layout is None
}

pub fn initial_state(suggested_swap_gb: u64) -> (r: AppState)
    requires
        suggested_swap_gb * 1024 <= u64::MAX,
    ensures
        initial_state_spec(&r, suggested_swap_gb),
{
    AppState {
        drive: String::new(),
        selected_disk_gib: None,
        swap_gb: suggested_swap_gb,
        swap_mode: SwapMode::Partition,
        swap_file_mb: suggested_swap_gb * 1024,
        fs_type: owned("xfs"),
        setup_mode: SetupMode::Automatic,
        home_mode: HomeMode::OnRoot,
        home_location: HomeLocation::SameDisk,
        home_disk: String::new(),
        manual_efi_partition: String::new(),
        manual_root_partition: String::new(),
        manual_home_partition: String::new(),
        manual_swap_partition: String::new(),
        format_efi: true,
        format_root: true,
        format_home: true,
        format_swap: true,
        removable_media: false,
        desktop_env: None,
        kernel: KernelVariant::Standard,
        nvidia: false,
        hostname: String::new(),
        username: String::new(),
        password: String::new(),
        timezone: owned("America/Chicago"),
        locale: owned("en_US.UTF-8"),
        keymap: owned("us"),
        mirror_region: owned("Worldwide"),
        preflight_results: Vec::new(),
        resolved_layout: None,
    }
}

// ---------------------------------------------------------------------------
// The drive page

pub open spec fn device_path(name: Seq<char>) -> Seq<char> {
    "/dev/"@ + name
}

pub open spec fn drive_row_spec(d: BlockDevice) -> Seq<char> {
    let model = match d.model { Some(m) => m@, None => "Unknown model"@ };
    let transport = match d.tran { Some(t) => t@, None => "internal"@ };
    device_path(d.name@) + " | "@ + decimal(gib(d.size_bytes as nat)) + " GiB"@ + " | "@ + trim(model)
        + " | "@ + transport
}

/// A drive as the drive list shows it: `path | size | model | transport`.
pub fn drive_row_label(device: &BlockDevice) -> (r: String)
    ensures
        r@ == drive_row_spec(*device),
{
    let model = match &device.model {
        Some(m) => trimmed(m.as_str()),
        None => trimmed("Unknown model"),
    };
    let transport = match &device.tran {
        Some(t) => t.clone(),
        None => owned("internal"),
    };
    owned("/dev/").concat(device.name.as_str()).concat(" | ").concat(human_gib_label(device.size_bytes).as_str())
        .concat(" | ").concat(model.as_str()).concat(" | ").concat(transport.as_str())
}

/// The drive the list entry stands for: its path and size in GiB.
pub fn drive_option(device: &BlockDevice) -> (r: DriveOption)
    ensures
        r.path@ == device_path(device.name@),
        r.disk_gib as nat == gib(device.size_bytes as nat),
{
    DriveOption { path: owned("/dev/").concat(device.name.as_str()), disk_gib: bytes_to_gib(device.size_bytes) }
}

/// The drive page's status line for what listing the drives gave.
pub fn drive_list_status(listed: &Result<Vec<BlockDevice>, String>) -> (r: String)
    ensures
        match listed {
            Ok(v) => if v@.len() == 0 {
                r@ == "No internal drives detected. Add an internal drive and restart the installer."@
            } else {
                r@ == "Select the internal drive to install access-OS."@
            },
            Err(e) => r@ == "Failed to read internal drives: "@ + e@,
        },
{
    match listed {
        Ok(v) => if v.len() == 0 {
            owned("No internal drives detected. Add an internal drive and restart the installer.")
        } else {
            owned("Select the internal drive to install access-OS.")
        },
        Err(e) => owned("Failed to read internal drives: ").concat(e.as_str()),
    }
}

/// Picks the drive at the list's row `index`: the state takes its path and
/// size, and any layout resolved for another drive is dropped.
pub fn select_drive(state: &mut AppState, options: &Vec<DriveOption>, index: Option<usize>) -> (r: Result<(), String>)
    ensures
        match index {
            None => r is Err && r->Err_0@ == "Select a target drive."@ && *final(state) == *old(state),
            Some(i) => if i < options@.len() {
                &&& r is Ok
                &&& *final(state) == (AppState {
                    drive: final(state).drive,
                    selected_disk_gib: Some(options@[i as int].disk_gib),
                    resolved_layout: None,
                    ..*old(state)
                })
                &&& final(state).drive@ == options@[i as int].path@
            } else {
                r is Err && r->Err_0@ == "Invalid drive selection."@ && *final(state) == *old(state)
            },
        },
{
    let i = match index {
        None => return Err(owned("Select a target drive.")),
        Some(i) => i,
    };
    if i >= options.len() {
        return Err(owned("Invalid drive selection."));
    }
    let option = &options[i];
    state.drive = option.path.clone();
    state.selected_disk_gib = Some(option.disk_gib);
    state.resolved_layout = None;
    Ok(())
}

// ---------------------------------------------------------------------------
// The desktop page

fn join_strs(list: &[&str], sep: &str) -> (r: String)
    ensures
        r@ == seq_join(str_views(list@), sep@),
{
    let ghost v = str_views(list@);
    let mut r = String::new();
    let n = list.len();
    let mut i: usize = 0;
    while i < n
        invariant
            n == list@.len(),
            v == str_views(list@),
            i <= n,
            r@ == seq_join(v.take(i as int), sep@),
        decreases n - i,
    {
        assert(v.take(i + 1).drop_last() =~= v.take(i as int));
        if i != 0 {
            r.append(sep);
        }
        r.append(list[i]);
        i = i + 1;
    }
    assert(v.take(n as int) =~= v);
    r
}

pub open spec fn desktop_details_spec(de: DesktopEnv) -> Seq<char> {
    let dm = match de.display_manager_spec() { Some(d) => d, None => "None (headless)"@ };
    let packages = if de.packages_spec().len() == 0 { "(none)"@ } else { seq_join(de.packages_spec(), ", "@) };
    de.description_spec() + "\nDisplay manager: "@ + dm + "\nPackages: "@ + packages
}

/// What the desktop page says of a desktop: its description, display
/// manager and packages.
pub fn desktop_details(de: &DesktopEnv) -> (r: String)
    ensures
        r@ == desktop_details_spec(*de),
{
    let dm = match de.display_manager() {
        Some(d) => d,
        None => "None (headless)",
    };
    let list = de.packages();
    let packages = if list.len() == 0 { owned("(none)") } else { join_strs(list, ", ") };
    owned(de.description()).concat("\nDisplay manager: ").concat(dm).concat("\nPackages: ").concat(packages.as_str())
}

/// Takes the desktop at the list's row `index`, if it is one that can be
/// installed; the state is left as it was otherwise.
pub fn choose_desktop(state: &mut AppState, index: usize) -> (r: bool)
    ensures
        r == (index < 4 && all_desktops()[index as int] != DesktopEnv::Niri),
        r ==> *final(state) == (AppState { desktop_env: Some(all_desktops()[index as int]), ..*old(state) }),
        !r ==> *final(state) == *old(state),
{
    match DesktopEnv::from_index(index) {
        Some(de) => {
            if !de.is_available() {
                return false;
            }
            state.desktop_env = Some(*de);
            true
        },
        None => false,
    }
}

// ---------------------------------------------------------------------------
// The mirror page

/// The row to preselect: the first that holds the state's region, or the
/// first row when none does.
pub fn initial_region_index(regions: &Vec<String>, current: &str) -> (r: usize)
    ensures
        (exists|j: int| 0 <= j < regions@.len() && #[trigger] regions@[j]@ == current@) ==> {
            &&& r < regions@.len()
            &&& regions@[r as int]@ == current@
            &&& forall|j: int| 0 <= j < r ==> #[trigger] regions@[j]@ != current@
        },
        !(exists|j: int| 0 <= j < regions@.len() && #[trigger] regions@[j]@ == current@) ==> r == 0,
{
    let n = regions.len();
    let mut i: usize = 0;
    while i < n
        invariant
            n == regions@.len(),
            i <= n,
            forall|j: int| 0 <= j < i ==> #[trigger] regions@[j]@ != current@,
        decreases n - i,
    {
        if crate::text::str_eq(regions[i].as_str(), current) {
            return i;
        }
        i = i + 1;
    }
    0
}

/// Takes the region at the list's row `index`, or `Worldwide` for a row
/// past the list.
pub fn choose_mirror_region(state: &mut AppState, regions: &Vec<String>, index: Option<usize>) -> (r: Result<(), String>)
    ensures
        match index {
            None => r is Err && r->Err_0@ == "Select a mirror region."@ && *final(state) == *old(state),
            Some(i) => {
                &&& r is Ok
                &&& *final(state) == (AppState { mirror_region: final(state).mirror_region, ..*old(state) })
                &&& final(state).mirror_region@ == (if i < regions@.len() { regions@[i as int]@ } else { "Worldwide"@ })
            },
        },
{
    let i = match index {
        None => return Err(owned("Select a mirror region.")),
        Some(i) => i,
    };
    state.mirror_region = if i < regions.len() { regions[i].clone() } else { owned("Worldwide") };
    Ok(())
}

// ---------------------------------------------------------------------------
// The Wi-Fi page

/// The Wi-Fi page's status line after a scan, and whether "Connect" can be
/// pressed.
pub fn wifi_scan_status(ssids: &Vec<String>) -> (r: (&'static str, bool))
    ensures
        ssids@.len() == 0 ==> r.0@ == "No Wi-Fi networks found. Click Refresh Networks."@ && !r.1,
        ssids@.len() > 0 ==> r.0@ == "Select a Wi-Fi network."@ && r.1,
{
    if ssids.len() == 0 {
        ("No Wi-Fi networks found. Click Refresh Networks.", false)
    } else {
        ("Select a Wi-Fi network.", true)
    }
}

/// The network picked at the list's row `index`.
pub fn pick_network(ssids: &Vec<String>, index: Option<usize>) -> (r: Result<String, String>)
    ensures
        match index {
            None => r is Err && r->Err_0@ == "Please select a network."@,
            Some(i) => if i < ssids@.len() {
                r is Ok && r->Ok_0@ == ssids@[i as int]@
            } else {
                r is Err && r->Err_0@ == "Invalid network selection."@
            },
        },
{
    match index {
        None => Err(owned("Please select a network.")),
        Some(i) => if i < ssids.len() { Ok(ssids[i].clone()) } else { Err(owned("Invalid network selection.")) },
    }
}

/// After trying to join a network: go on when the machine is online, or the
/// line that says what went wrong.
pub fn wifi_connect_outcome(joined: &Result<(), String>, online: bool) -> (r: Option<String>)
    ensures
        match joined {
            Ok(()) => if online { r is None } else {
                r is Some && r->Some_0@ == "Connected to Wi-Fi but no internet. Check password or network."@
            },
            Err(e) => r is Some && r->Some_0@ == "Failed: "@ + e@,
        },
{
    match joined {
        Ok(()) => if online { None } else { Some(owned("Connected to Wi-Fi but no internet. Check password or network.")) },
        Err(e) => Some(owned("Failed: ").concat(e.as_str())),
    }
}

// ---------------------------------------------------------------------------
// The completion page

pub open spec fn extra_packages_spec(text: Seq<char>) -> Result<CommandModel, Seq<char>> {
    if trim(text).len() == 0 {
        Err("Enter at least one package name."@)
    } else {
        Ok(cmd("arch-chroot"@, seq!["/mnt"@, "pacman"@, "-S"@, "--noconfirm"@, "--needed"@] + words(trim(text)),
            "Failed to run package install"@))
    }
}

/// The pacman run that adds the packages named in `text` (separated by
/// whitespace) to the installed system.
pub fn extra_packages_command(text: &str) -> (r: Result<CommandSpec, String>)
    ensures
        match r {
            Ok(c) => extra_packages_spec(text@) == Ok::<CommandModel, Seq<char>>(c@),
            Err(e) => extra_packages_spec(text@) == Err::<CommandModel, Seq<char>>(e@),
        },
{
    let raw = trimmed(text);
    if raw.as_str().unicode_len() == 0 {
        return Err(owned("Enter at least one package name."));
    }
    let names = split_whitespace(raw.as_str());
    let mut args = args3("/mnt", "pacman", "-S");
    push_str(&mut args, "--noconfirm");
    push_str(&mut args, "--needed");
    let ghost head = views(args@);
    let n = names.len();
    let mut i: usize = 0;
    while i < n
        invariant
            n == names@.len(),
            i <= n,
            head == seq!["/mnt"@, "pacman"@, "-S"@, "--noconfirm"@, "--needed"@],
            views(args@) == head + views(names@).take(i as int),
        decreases n - i,
    {
        push_str(&mut args, names[i].as_str());
        assert(views(names@).take(i + 1) =~= views(names@).take(i as int).push(names@[i as int]@));
        assert(views(args@) =~= head + views(names@).take(i + 1));
        i = i + 1;
    }
    assert(views(names@).take(n as int) =~= views(names@));
    Ok(command("arch-chroot", args, owned("Failed to run package install")))
}

pub open spec fn extra_packages_failure_spec(stderr: Seq<char>, status: Seq<char>) -> Seq<char> {
    if trim(stderr).len() == 0 {
        "Failed to install packages. pacman exited with "@ + status
    } else {
        "Failed to install packages: "@ + trim(stderr)
    }
}

/// The completion page's line when pacman failed.
pub fn extra_packages_failure(stderr: &str, status: &str) -> (r: String)
    ensures
        r@ == extra_packages_failure_spec(stderr@, status@),
{
    let t = trimmed(stderr);
    if t.as_str().unicode_len() == 0 {
        owned("Failed to install packages. pacman exited with ").concat(status)
    } else {
        owned("Failed to install packages: ").concat(t.as_str())
    }
}

/// What the completion page says when the install targets could not be
/// unmounted; the forced actions are then offered.
pub fn unmount_failed_message(err: &str) -> (r: String)
    ensures
        r@ == "Unmount failed: "@ + err@ + ". Choose Force Reboot, Force Shutdown, or Force Exit."@,
{
    owned("Unmount failed: ").concat(err).concat(". Choose Force Reboot, Force Shutdown, or Force Exit.")
}

pub open spec fn power_message_spec(action: crate::gui::services::PowerAction, forced: bool, result: Result<(), Seq<char>>) -> Seq<char> {
    match (action, result) {
        (crate::gui::services::PowerAction::Reboot, Ok(())) =>
            if forced { "Force reboot command issued."@ } else { "Reboot command issued."@ },
        (crate::gui::services::PowerAction::Shutdown, Ok(())) =>
            if forced { "Force shutdown command issued."@ } else { "Shutdown command issued."@ },
        (crate::gui::services::PowerAction::Reboot, Err(e)) => "Failed to reboot: "@ + e,
        (crate::gui::services::PowerAction::Shutdown, Err(e)) => "Failed to shut down: "@ + e,
    }
}

/// The completion page's line after a power command (forced or not) ran.
pub fn power_message(action: crate::gui::services::PowerAction, forced: bool, result: &Result<(), String>) -> (r: String)
    ensures
        r@ == power_message_spec(action, forced, match result { Ok(()) => Ok(()), Err(e) => Err(e@) }),
{
    match (action, result) {
        (crate::gui::services::PowerAction::Reboot, Ok(())) =>
            if forced { owned("Force reboot command issued.") } else { owned("Reboot command issued.") },
        (crate::gui::services::PowerAction::Shutdown, Ok(())) =>
            if forced { owned("Force shutdown command issued.") } else { owned("Shutdown command issued.") },
        (crate::gui::services::PowerAction::Reboot, Err(e)) => owned("Failed to reboot: ").concat(e.as_str()),
        (crate::gui::services::PowerAction::Shutdown, Err(e)) => owned("Failed to shut down: ").concat(e.as_str()),
    }
}

} // verus!
