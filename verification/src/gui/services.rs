use crate::installer::commands::{args1, cmd, command, push_str, CommandModel, CommandSpec};
use crate::text::{
    contains_seq, contains_str, contains_string, owned, seq_join, split_newlines, split_newlines_exec,
    str_eq, trim, trimmed, views, join,
};
use vstd::prelude::*;

verus! {

// ---------------------------------------------------------------------------
// The activity log

pub open spec fn appended_log(current: Seq<char>, line: Seq<char>) -> Seq<char> {
    if current.len() == 0 { line } else { current + "\n"@ + line }
}

/// The log text with `line` added as its last line.
pub fn append_log_line(current: &str, line: &str) -> (r: String)
    ensures
        r@ == appended_log(current@, line@),
{
    if current.unicode_len() == 0 {
        owned(line)
    } else {
        owned(current).concat("\n").concat(line)
    }
}

// ---------------------------------------------------------------------------
// Mirror region

/// The region whose mirrors are left as they are.
pub open spec fn default_region() -> Seq<char> {
    "Worldwide"@
}

pub open spec fn mirror_command_spec(region: Seq<char>) -> Option<CommandModel> {
    if region == default_region() {
        None
    } else {
        Some(cmd("reflector"@, seq!["-c"@, region, "--save"@, "/etc/pacman.d/mirrorlist"@], "Failed to execute reflector"@))
    }
}

/// The `reflector` run that ranks the region's mirrors into pacman's mirror
/// list; nothing for the worldwide default.
pub fn mirror_region_command(region: &str) -> (r: Option<CommandSpec>)
    ensures
        match r {
            Some(c) => mirror_command_spec(region@) == Some(c@),
            None => mirror_command_spec(region@) is None,
        },
{
    proof {
        reveal_strlit("Worldwide");
    }
    if str_eq(region, "Worldwide") {
        return None;
    }
    let mut args = args1("-c");
    push_str(&mut args, region);
    push_str(&mut args, "--save");
    push_str(&mut args, "/etc/pacman.d/mirrorlist");
    proof {
        assert(views(args@) =~= seq!["-c"@, region@, "--save"@, "/etc/pacman.d/mirrorlist"@]);
    }
    Some(command("reflector", args, owned("Failed to execute reflector")))
}

pub open spec fn mirror_failure_spec(region: Seq<char>, stderr: Seq<char>, status: Seq<char>) -> Seq<char> {
    if trim(stderr).len() == 0 {
        "reflector failed for region '"@ + region + "' with status "@ + status
    } else {
        trim(stderr)
    }
}

/// The error of a `reflector` run that failed: what it printed, trimmed, or
/// the region and exit status when it printed nothing.
pub fn mirror_failure(region: &str, stderr: &str, status: &str) -> (r: String)
    ensures
        r@ == mirror_failure_spec(region@, stderr@, status@),
{
    let t = trimmed(stderr);
    if t.as_str().unicode_len() == 0 {
        owned("reflector failed for region '").concat(region).concat("' with status ").concat(status)
    } else {
        t
    }
}

// ---------------------------------------------------------------------------
// Unmounting the install targets

/// The mount points taken down after installing, innermost first.
pub fn unmount_targets() -> (r: &'static [&'static str])
    ensures
        r@.len() == 3,
        r@[0]@ == "/mnt/home"@,
        r@[1]@ == "/mnt/boot"@,
        r@[2]@ == "/mnt"@,
{
    proof {
        reveal_strlit("/mnt/home");
        reveal_strlit("/mnt/boot");
        reveal_strlit("/mnt");
    }
    let r: &'static [&'static str] = &["/mnt/home", "/mnt/boot", "/mnt"];
    assert(r@.len() == 3);
    r
}

pub open spec fn unmount_problem_spec(mount_point: Seq<char>, stderr: Seq<char>, status: Seq<char>) -> Option<Seq<char>> {
    let t = trim(stderr);
    if contains_seq(t, "not mounted"@) || contains_seq(t, "no mount point specified"@) {
        None
    } else {
        Some(mount_point + ": "@ + (if t.len() == 0 { "umount returned status "@ + status } else { t }))
    }
}

/// What a failed `umount` of `mount_point` reports: nothing when the target
/// was not mounted, otherwise the mount point and the error.
pub fn unmount_problem(mount_point: &str, stderr: &str, status: &str) -> (r: Option<String>)
    ensures
        match r {
            Some(p) => unmount_problem_spec(mount_point@, stderr@, status@) == Some(p@),
            None => unmount_problem_spec(mount_point@, stderr@, status@) is None,
        },
{
    let t = trimmed(stderr);
    if contains_str(t.as_str(), "not mounted") || contains_str(t.as_str(), "no mount point specified") {
        return None;
    }
    let detail = if t.as_str().unicode_len() == 0 {
        owned("umount returned status ").concat(status)
    } else {
        t
    };
    Some(owned(mount_point).concat(": ").concat(detail.as_str()))
}

/// All targets came down, or the problems joined by `; `.
pub fn unmount_outcome(problems: &Vec<String>) -> (r: Result<(), String>)
    ensures
        problems@.len() == 0 ==> r is Ok,
        problems@.len() > 0 ==> r is Err && r->Err_0@ == seq_join(views(problems@), "; "@),
{
    if problems.len() == 0 {
        Ok(())
    } else {
        Err(join(problems, "; "))
    }
}

// ---------------------------------------------------------------------------
// Network

pub open spec fn connectivity_command_spec() -> CommandModel {
    cmd("ping"@, seq!["-c"@, "1"@, "-W"@, "2"@, "1.1.1.1"@], "Failed to run ping"@)
}

/// One ping to `1.1.1.1`, waiting two seconds at most: the machine is online
/// when it succeeds.
pub fn connectivity_command() -> (r: CommandSpec)
    ensures
        r@ == connectivity_command_spec(),
{
    let mut args = args1("-c");
    push_str(&mut args, "1");
    push_str(&mut args, "-W");
    push_str(&mut args, "2");
    push_str(&mut args, "1.1.1.1");
    proof {
        assert(views(args@) =~= seq!["-c"@, "1"@, "-W"@, "2"@, "1.1.1.1"@]);
    }
    command("ping", args, owned("Failed to run ping"))
}

/// The names a Wi-Fi scan lists, after the lines seen so far: each line
/// trimmed, empty lines dropped, and a name kept only the first time.
pub open spec fn ssid_lines(lines: Seq<Seq<char>>) -> Seq<Seq<char>>
    decreases lines.len(),
{
    if lines.len() == 0 {
        Seq::empty()
    } else {
        let prev = ssid_lines(lines.drop_last());
        let t = trim(lines.last());
        if t.len() > 0 && !prev.contains(t) { prev.push(t) } else { prev }
    }
}

/// The network names in the output of `nmcli -t -f SSID dev wifi list`.
pub fn parse_ssids(output: &str) -> (r: Vec<String>)
    ensures
        views(r@) == ssid_lines(split_newlines(output@)),
{
    let lines = split_newlines_exec(output);
    let ghost all = views(lines@);
    let mut out: Vec<String> = Vec::new();
    let n = lines.len();
    let mut i: usize = 0;
    while i < n
        invariant
            n == lines@.len(),
            all == views(lines@),
            i <= n,
            views(out@) == ssid_lines(all.take(i as int)),
        decreases n - i,
    {
        assert(all.take(i + 1).drop_last() =~= all.take(i as int));
        assert(all[i as int] == lines@[i as int]@);
        let t = trimmed(lines[i].as_str());
        if t.as_str().unicode_len() > 0 && !contains_string(&out, &t) {
            let ghost prev = out@;
            out.push(t);
            assert(views(out@) =~= views(prev).push(t@));
        }
        i = i + 1;
    }
    assert(all.take(n as int) =~= all);
    out
}

/// Asks the Wi-Fi device to scan again before the list is read (a device
/// that is not Wi-Fi fails it, which is ignored).
pub fn wifi_rescan_command() -> (r: CommandSpec)
    ensures
        r@ == cmd("nmcli"@, seq!["dev"@, "wifi"@, "rescan"@], "Failed to run nmcli"@),
{
    let mut args = args1("dev");
    push_str(&mut args, "wifi");
    push_str(&mut args, "rescan");
    proof {
        assert(views(args@) =~= seq!["dev"@, "wifi"@, "rescan"@]);
    }
    command("nmcli", args, owned("Failed to run nmcli"))
}

/// The command whose output `parse_ssids` reads.
pub fn wifi_list_command() -> (r: CommandSpec)
    ensures
        r@ == cmd("nmcli"@, seq!["-t"@, "-f"@, "SSID"@, "dev"@, "wifi"@, "list"@], "Failed to run nmcli"@),
{
    let mut args = args1("-t");
    push_str(&mut args, "-f");
    push_str(&mut args, "SSID");
    push_str(&mut args, "dev");
    push_str(&mut args, "wifi");
    push_str(&mut args, "list");
    proof {
        assert(views(args@) =~= seq!["-t"@, "-f"@, "SSID"@, "dev"@, "wifi"@, "list"@]);
    }
    command("nmcli", args, owned("Failed to run nmcli"))
}

/// Joins the network `ssid` with `password`.
pub fn connect_wifi_command(ssid: &str, password: &str) -> (r: CommandSpec)
    ensures
        r@ == cmd("nmcli"@, seq!["dev"@, "wifi"@, "connect"@, ssid@, "password"@, password@], "Failed to run nmcli"@),
{
    let mut args = args1("dev");
    push_str(&mut args, "wifi");
    push_str(&mut args, "connect");
    push_str(&mut args, ssid);
    push_str(&mut args, "password");
    push_str(&mut args, password);
    proof {
        assert(views(args@) =~= seq!["dev"@, "wifi"@, "connect"@, ssid@, "password"@, password@]);
    }
    command("nmcli", args, owned("Failed to run nmcli"))
}

// ---------------------------------------------------------------------------
// Power

#[derive(Clone, Copy, Debug, PartialEq, Eq, Structural)]
pub enum PowerAction {
    Reboot,
    Shutdown,
}

pub open spec fn power_command_spec(action: PowerAction) -> CommandModel {
    match action {
        PowerAction::Reboot => cmd("reboot"@, Seq::empty(), "Failed to execute reboot"@),
        PowerAction::Shutdown => cmd("shutdown"@, seq!["now"@], "Failed to execute shutdown"@),
    }
}

/// `reboot`, or `shutdown now`.
pub fn power_command(action: PowerAction) -> (r: CommandSpec)
    ensures
        r@ == power_command_spec(action),
{
    match action {
        PowerAction::Reboot => {
            let args: Vec<String> = Vec::new();
            proof {
                assert(views(args@) =~= Seq::<Seq<char>>::empty());
            }
            command("reboot", args, owned("Failed to execute reboot"))
        },
        PowerAction::Shutdown => command("shutdown", args1("now"), owned("Failed to execute shutdown")),
    }
}

pub open spec fn power_failure_spec(action: PowerAction, stderr: Seq<char>, status: Seq<char>) -> Seq<char> {
    if trim(stderr).len() == 0 {
        match action {
            PowerAction::Reboot => "Reboot command failed with status "@ + status,
            PowerAction::Shutdown => "Shutdown command failed with status "@ + status,
        }
    } else {
        trim(stderr)
    }
}

/// The error of a power command that failed: what it printed, trimmed, or
/// its exit status when it printed nothing.
pub fn power_failure(action: PowerAction, stderr: &str, status: &str) -> (r: String)
    ensures
        r@ == power_failure_spec(action, stderr@, status@),
{
    let t = trimmed(stderr);
    if t.as_str().unicode_len() == 0 {
        match action {
            PowerAction::Reboot => owned("Reboot command failed with status ").concat(status),
            PowerAction::Shutdown => owned("Shutdown command failed with status ").concat(status),
        }
    } else {
        t
    }
}

} // verus!
verus! {

/// Partitions, formats and mounts the install targets of `layout`: the
/// graphical installer's plan for it, without progress lines.
pub fn prepare_install_targets(layout: &crate::installer::storage_plan::ResolvedInstallLayout) -> (r: Vec<crate::installer::commands::PlanStep>)
    ensures
        crate::installer::commands::plan_view(r@) == crate::installer::disk_manager::execute_layout_spec(layout@).filter(
            |s: crate::installer::commands::PlanStepModel| crate::gui::disk_manager::is_command_step(s)),
{
    crate::gui::disk_manager::execute_layout(layout)
}

} // verus!
