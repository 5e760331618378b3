use crate::installer::commands::{args1, args2, args3, cmd, command, plan_view, push_step, push_str, run, run_step, CommandSpec, FeedModel, FeedSpec, PlanStep, PlanStepModel};
use crate::installer::config_engine::{DesktopEnv, KernelVariant};
use crate::text::{
    lemma_one_line_concat, lemma_split_acc_one_line, lemma_split_acc_prefix, lemma_split_newlines_after,
    lemma_split_newlines_one_line, one_line, owned, split_acc, split_newlines, str_eq, to_chars, trim, trim_bounds, views,
};
use vstd::prelude::*;

verus! {

pub const AUDIO_INIT_SERVICE: &'static str = "access-os-audio-init.service";

pub const AUDIO_INIT_SCRIPT_PATH: &'static str = "/mnt/usr/local/bin/access-os-audio-init";

pub const AUDIO_INIT_SERVICE_PATH: &'static str = "/mnt/etc/systemd/system/access-os-audio-init.service";

pub const AUDIO_INIT_ASOUND_TEMPLATE_PATH: &'static str = "/mnt/usr/local/share/access-os-audio/asound.conf.in";

pub const WIREPLUMBER_AUDIO_POLICY_PATH: &'static str = "/mnt/etc/wireplumber/wireplumber.conf.d/50-access-os-audio.conf";

pub const PIPEWIRE_PULSE_CONFIG_PATH: &'static str = "/mnt/etc/pipewire/pipewire-pulse.conf.d/50-access-os-audio.conf";

pub const PULSE_CLIENT_CONFIG_PATH: &'static str = "/mnt/etc/pulse/client.conf";

pub const STAGED_CONFIG_REPO_PATH: &'static str = "/access-os-config";

pub const AUDIO_INIT_SCRIPT: &'static str = r#"#!/usr/bin/env bash
set -u

log() {
    systemd-cat -t "access-os-audio-init" printf "%s\n" "$1"
}

card_indices() {
    if [[ -f /proc/asound/cards ]]; then
        sed -n -e 's/^[[:space:]]*\([0-7]\)[[:space:]].*/\1/p' /proc/asound/cards
    fi
}

list_non_pcsp_cards() {
    local card cardfile
    for card in $(card_indices); do
        cardfile="/proc/asound/card${card}/id"
        if [[ -r "$cardfile" && -f "$cardfile" && "$(<"$cardfile")" != "pcsp" ]]; then
            echo "$card"
        fi
    done
}

set_level() {
    local card="$1" control="$2" level="$3"
    amixer -c "$card" set "$control" "$level" unmute >/dev/null 2>&1 || true
}

set_switch() {
    local card="$1" control="$2" state="$3"
    amixer -c "$card" set "$control" "$state" >/dev/null 2>&1 || true
}

mute_control() {
    local card="$1" control="$2"
    amixer -c "$card" set "$control" "0%" mute >/dev/null 2>&1 || true
}

init_card() {
    local card="$1"
    set_level "$card" "Front" "80%"
    set_level "$card" "Master" "80%"
    set_level "$card" "Master Mono" "80%"
    set_level "$card" "Master Digital" "80%"
    set_level "$card" "Playback" "80%"
    set_level "$card" "Headphone" "100%"
    set_level "$card" "PCM" "80%"
    set_level "$card" "PCM,1" "80%"
    set_level "$card" "DAC" "80%"
    set_level "$card" "DAC,0" "80%"
    set_level "$card" "DAC,1" "80%"
    set_level "$card" "Synth" "80%"
    set_level "$card" "CD" "80%"
    set_level "$card" "PC Speaker" "100%"

    mute_control "$card" "Mic"
    mute_control "$card" "IEC958"

    set_switch "$card" "Master Playback Switch" on
    set_switch "$card" "Master Surround" on
    set_level "$card" "Wave" "80%"
    set_level "$card" "Music" "80%"
    set_level "$card" "AC97" "80%"
    set_level "$card" "Dynamic Range Compression" "80%"
    set_level "$card" "Analog Front" "80%"
    set_switch "$card" "IEC958 Capture Monitor" off
    set_level "$card" "IEC958 Playback AC97-SPSA" "0"
    set_level "$card" "VIA DXS,0" "80%"
    set_level "$card" "VIA DXS,1" "80%"
    set_level "$card" "VIA DXS,2" "80%"
    set_level "$card" "VIA DXS,3" "80%"
    set_switch "$card" "Headphone Jack Sense" off
    set_switch "$card" "Line Jack Sense" off
    set_switch "$card" "Audigy Analog/Digital Output Jack" on
    set_switch "$card" "SB Live Analog/Digital Output Jack" on
    set_switch "$card" "Speaker" on
    set_switch "$card" "Headphone" on
    set_level "$card" "Digital" "80%"
}

set_default_card() {
    local card="$1"
    local template="/usr/local/share/access-os-audio/asound.conf.in"

    if [[ ! -f "$template" ]]; then
        log "ASound template missing; skipping default card selection"
        return 0
    fi

    sed -e "s/%card%/$card/g" "$template" >/etc/asound.conf
    log "Configured ALSA default card ${card} in /etc/asound.conf"
}

main() {
    local card found=0 selected_card=""
    for card in $(card_indices); do
        found=1
        log "Initializing ALSA controls on card ${card}"
        init_card "$card"
    done

    if [[ "$found" -eq 0 ]]; then
        log "No ALSA cards detected during audio initialization"
        return 0
    fi

    for card in $(list_non_pcsp_cards); do
        selected_card="$card"
        break
    done

    if [[ -n "$selected_card" ]]; then
        set_default_card "$selected_card"
    else
        log "No non-pcsp ALSA cards detected for default device selection"
    fi

    if alsactl store >/dev/null 2>&1; then
        log "Stored initialized ALSA state"
    else
        log "Failed to store ALSA state"
    fi
}

main "$@"
"#;

pub const AUDIO_INIT_UNIT: &'static str = r#"[Unit]
Description=Initialize ALSA mixer controls for Access OS
Wants=systemd-udev-settle.service
After=systemd-udev-settle.service sound.target
Before=espeakup.service

[Service]
Type=oneshot
ExecStart=/usr/local/bin/access-os-audio-init

[Install]
WantedBy=sound.target
"#;

pub const AUDIO_INIT_ASOUND_TEMPLATE: &'static str = r#"defaults.ctl.card %card%;
defaults.pcm.card %card%;
"#;

pub const WIREPLUMBER_AUDIO_POLICY: &'static str = r#"monitor.alsa.rules = [
  {
    matches = [
      { device.name = "~alsa_card.*" }
    ]
    actions = {
      update-props = {
        session.suspend-timeout-seconds = 0
        api.alsa.disable-power-save = true
      }
    }
  }
  {
    matches = [
      { node.name = "~alsa_input.*" }
      { node.name = "~alsa_output.*" }
    ]
    actions = {
      update-props = {
        session.suspend-timeout-seconds = 0
      }
    }
  }
]
"#;

pub const PIPEWIRE_PULSE_CONFIG: &'static str = r#"pulse.properties = {
    server.address = [
        "unix:native"
        "unix:/tmp/pulse.sock"
    ]
}

pulse.rules = [
    {
        matches = [ { application.name = "~speech-dispatcher*" } ]
        actions = {
            update-props = {
                pulse.min.req = 1024/48000
                pulse.min.quantum = 1024/48000
            }
        }
    }
]
"#;

pub const PULSE_CLIENT_CONFIG: &'static str = r#"# Configured for PipeWire socket access.
default-server = unix:/tmp/pulse.sock
autospawn = no
"#;

/// What the user chose for the installed system.
pub struct InstallConfig {
    pub username: String,
    pub password: String,
    pub hostname: String,
    pub timezone: String,
    pub locale: String,
    pub keymap: String,
    pub desktop_env: DesktopEnv,
    pub kernel: KernelVariant,
    pub nvidia: bool,
    pub removable_media: bool,
}

/// A command run inside the installed system.
pub open spec fn chroot(args: Seq<Seq<char>>, context: Seq<char>) -> PlanStepModel {
    run("arch-chroot"@, seq!["/mnt"@] + args, context)
}

fn chroot_step(args: Vec<String>, context: String) -> (r: PlanStep)
    ensures
        r@ == chroot(views(args@), context@),
{
    let mut full: Vec<String> = Vec::new();
    assert(views(full@) =~= Seq::<Seq<char>>::empty());
    push_str(&mut full, "/mnt");
    let ghost a = full@;
    assert(views(a) =~= seq!["/mnt"@]);
    let mut args = args;
    let ghost b = args@;
    full.append(&mut args);
    assert(full@ =~= a + b);
    assert(views(full@) =~= views(a) + views(b));
    run_step("arch-chroot", full, context)
}

fn progress(message: &str) -> (r: PlanStep)
    ensures
        r@ == PlanStepModel::Progress(message@),
{
    PlanStep::Progress(owned(message))
}

fn write_file(path: &str, contents: String, context: &str) -> (r: PlanStep)
    ensures
        r@ == (PlanStepModel::WriteFile { path: path@, contents: contents@, context: context@ }),
{
    PlanStep::WriteFile { path: owned(path), contents, context: owned(context) }
}

// ---------------------------------------------------------------------------
// Packages and fstab

/// Install the packages into `/mnt`.
pub open spec fn pacstrap_steps(packages: Seq<Seq<char>>) -> Seq<PlanStepModel> {
    seq![
        PlanStepModel::Progress("Installing packages with pacstrap"@),
        run("pacstrap"@, seq!["-K"@, "/mnt"@] + packages, "pacstrap failed"@),
    ]
}

pub fn run_pacstrap(packages: &Vec<String>) -> (r: Vec<PlanStep>)
    ensures
        plan_view(r@) == pacstrap_steps(views(packages@)),
{
    let mut steps: Vec<PlanStep> = Vec::new();
    push_step(&mut steps, progress("Installing packages with pacstrap"));
    let mut args = args2("-K", "/mnt");
    let n = packages.len();
    let mut i: usize = 0;
    while i < n
        invariant
            n == packages@.len(),
            i <= n,
            views(args@) == seq!["-K"@, "/mnt"@] + views(packages@).take(i as int),
        decreases n - i,
    {
        push_str(&mut args, packages[i].as_str());
        assert(views(packages@).take(i + 1) =~= views(packages@).take(i as int).push(packages@[i as int]@));
        i = i + 1;
    }
    assert(views(packages@).take(n as int) =~= views(packages@));
    push_step(&mut steps, run_step("pacstrap", args, "pacstrap failed".to_string()));
    assert(plan_view(steps@) =~= pacstrap_steps(views(packages@)));
    steps
}

/// Write the fstab that `genfstab -U /mnt` prints.
pub open spec fn fstab_steps() -> Seq<PlanStepModel> {
    seq![
        PlanStepModel::Progress("Generating fstab"@),
        PlanStepModel::CaptureToFile {
            command: cmd("genfstab"@, seq!["-U"@, "/mnt"@], "genfstab failed"@),
            path: "/mnt/etc/fstab"@,
            write_context: "Failed to write /mnt/etc/fstab"@,
        },
    ]
}

pub fn generate_fstab() -> (r: Vec<PlanStep>)
    ensures
        plan_view(r@) == fstab_steps(),
{
    let mut steps: Vec<PlanStep> = Vec::new();
    push_step(&mut steps, progress("Generating fstab"));
    push_step(
        &mut steps,
        PlanStep::CaptureToFile {
            command: command("genfstab", args2("-U", "/mnt"), "genfstab failed".to_string()),
            path: "/mnt/etc/fstab".to_string(),
            write_context: "Failed to write /mnt/etc/fstab".to_string(),
        },
    );
    assert(plan_view(steps@) =~= fstab_steps());
    steps
}

// ---------------------------------------------------------------------------
// System configuration

/// Creating a file's directory, then writing it.
pub open spec fn install_file(dir: Seq<char>, dir_context: Seq<char>, path: Seq<char>, contents: Seq<char>, write_context: Seq<char>) -> Seq<PlanStepModel> {
    seq![
        PlanStepModel::CreateDirAll { path: dir, context: dir_context },
        PlanStepModel::WriteFile { path, contents, context: write_context },
    ]
}

/// The audio initialisation script, its service, and the PipeWire and
/// PulseAudio configuration, written into the installed system.
pub open spec fn audio_assets_steps() -> Seq<PlanStepModel> {
    install_file("/mnt/usr/local/bin"@, "Failed to create audio init script directory"@, AUDIO_INIT_SCRIPT_PATH@, AUDIO_INIT_SCRIPT@, "Failed to write audio init script"@)
        + seq![PlanStepModel::MakeExecutable { path: AUDIO_INIT_SCRIPT_PATH@, context: "Failed to mark audio init script executable"@ }]
        + install_file("/mnt/etc/systemd/system"@, "Failed to create audio init service directory"@, AUDIO_INIT_SERVICE_PATH@, AUDIO_INIT_UNIT@, "Failed to write audio init service"@)
        + install_file("/mnt/usr/local/share/access-os-audio"@, "Failed to create ASound template directory"@, AUDIO_INIT_ASOUND_TEMPLATE_PATH@, AUDIO_INIT_ASOUND_TEMPLATE@, "Failed to write ASound template"@)
        + install_file("/mnt/etc/wireplumber/wireplumber.conf.d"@, "Failed to create WirePlumber config directory"@, WIREPLUMBER_AUDIO_POLICY_PATH@, WIREPLUMBER_AUDIO_POLICY@, "Failed to write WirePlumber audio policy"@)
        + install_file("/mnt/etc/pipewire/pipewire-pulse.conf.d"@, "Failed to create PipeWire Pulse config directory"@, PIPEWIRE_PULSE_CONFIG_PATH@, PIPEWIRE_PULSE_CONFIG@, "Failed to write PipeWire Pulse config"@)
        + install_file("/mnt/etc/pulse"@, "Failed to create Pulse client config directory"@, PULSE_CLIENT_CONFIG_PATH@, PULSE_CLIENT_CONFIG@, "Failed to write Pulse client config"@)
}

fn push_install_file(steps: &mut Vec<PlanStep>, dir: &str, dir_context: &str, path: &str, contents: &str, write_context: &str)
    ensures
        plan_view(final(steps)@) == plan_view(old(steps)@) + install_file(dir@, dir_context@, path@, contents@, write_context@),
{
    let ghost start = plan_view(steps@);
    push_step(steps, PlanStep::CreateDirAll { path: owned(dir), context: owned(dir_context) });
    push_step(steps, write_file(path, owned(contents), write_context));
    assert(plan_view(steps@) =~= start + install_file(dir@, dir_context@, path@, contents@, write_context@));
}

pub fn install_audio_init_assets() -> (r: Vec<PlanStep>)
    ensures
        plan_view(r@) == audio_assets_steps(),
{
    let mut steps: Vec<PlanStep> = Vec::new();
    assert(plan_view(steps@) =~= Seq::<PlanStepModel>::empty());
    push_install_file(&mut steps, "/mnt/usr/local/bin", "Failed to create audio init script directory", AUDIO_INIT_SCRIPT_PATH, AUDIO_INIT_SCRIPT, "Failed to write audio init script");
    push_step(&mut steps, PlanStep::MakeExecutable { path: owned(AUDIO_INIT_SCRIPT_PATH), context: "Failed to mark audio init script executable".to_string() });
    push_install_file(&mut steps, "/mnt/etc/systemd/system", "Failed to create audio init service directory", AUDIO_INIT_SERVICE_PATH, AUDIO_INIT_UNIT, "Failed to write audio init service");
    push_install_file(&mut steps, "/mnt/usr/local/share/access-os-audio", "Failed to create ASound template directory", AUDIO_INIT_ASOUND_TEMPLATE_PATH, AUDIO_INIT_ASOUND_TEMPLATE, "Failed to write ASound template");
    push_install_file(&mut steps, "/mnt/etc/wireplumber/wireplumber.conf.d", "Failed to create WirePlumber config directory", WIREPLUMBER_AUDIO_POLICY_PATH, WIREPLUMBER_AUDIO_POLICY, "Failed to write WirePlumber audio policy");
    push_install_file(&mut steps, "/mnt/etc/pipewire/pipewire-pulse.conf.d", "Failed to create PipeWire Pulse config directory", PIPEWIRE_PULSE_CONFIG_PATH, PIPEWIRE_PULSE_CONFIG, "Failed to write PipeWire Pulse config");
    push_install_file(&mut steps, "/mnt/etc/pulse", "Failed to create Pulse client config directory", PULSE_CLIENT_CONFIG_PATH, PULSE_CLIENT_CONFIG, "Failed to write Pulse client config");
    assert(plan_view(steps@) =~= audio_assets_steps());
    steps
}

/// The contents of `/etc/hosts` for a hostname.
pub open spec fn hosts_file(hostname: Seq<char>) -> Seq<char> {
    "127.0.0.1\tlocalhost\n::1\t\tlocalhost\n127.0.1.1\t"@ + hostname + "\n"@
}

/// The systemd-boot entry for the chosen kernel and root filesystem.
pub open spec fn boot_entry(kernel: KernelVariant, root_uuid: Seq<char>) -> Seq<char> {
    "title   Access OS\nlinux   "@ + kernel.vmlinuz_spec() + "\ninitrd  /amd-ucode.img\ninitrd  /intel-ucode.img\ninitrd  "@
        + kernel.initramfs_spec() + "\noptions root=UUID="@ + root_uuid + " rw\n"@
}

/// Set the timezone, generate the locale, write the keymap, hostname and
/// hosts files, and install the boot loader with its configuration. Writing
/// the boot entry needs the root filesystem's UUID, so the configuration
/// goes on in `configure_system_after_uuid`.
pub open spec fn configure_system_spec(c: InstallConfig) -> Seq<PlanStepModel> {
    seq![
        PlanStepModel::Progress("Setting timezone"@),
        chroot(seq!["ln"@, "-sf"@, "/usr/share/zoneinfo/"@ + c.timezone@, "/etc/localtime"@], "Failed to set timezone symlink"@),
        chroot(seq!["hwclock"@, "--systohc"@], "Failed to sync hardware clock"@),
        PlanStepModel::Progress("Generating locales"@),
        chroot(seq!["sed"@, "-i"@, "s/^#\\("@ + c.locale@ + "\\)/\\1/"@, "/etc/locale.gen"@], "Failed to uncomment locale in locale.gen"@),
        chroot(seq!["locale-gen"@], "Failed to generate locales"@),
        PlanStepModel::WriteFile { path: "/mnt/etc/locale.conf"@, contents: "LANG="@ + c.locale@ + "\n"@, context: "Failed to write locale.conf"@ },
        PlanStepModel::Progress("Writing console keymap"@),
        PlanStepModel::WriteFile { path: "/mnt/etc/vconsole.conf"@, contents: "KEYMAP="@ + c.keymap@ + "\n"@, context: "Failed to write vconsole.conf"@ },
        PlanStepModel::Progress("Writing hostname and hosts file"@),
        PlanStepModel::WriteFile { path: "/mnt/etc/hostname"@, contents: c.hostname@ + "\n"@, context: "Failed to write hostname"@ },
        PlanStepModel::WriteFile { path: "/mnt/etc/hosts"@, contents: hosts_file(c.hostname@), context: "Failed to write /etc/hosts"@ },
        PlanStepModel::Progress("Installing bootloader"@),
        if c.removable_media {
            chroot(seq!["bootctl"@, "install"@, "--no-variables"@], "Failed to install systemd-boot for removable media"@)
        } else {
            chroot(seq!["bootctl"@, "install"@], "Failed to install systemd-boot"@)
        },
        PlanStepModel::WriteFile { path: "/mnt/boot/loader/loader.conf"@, contents: "default access-os.conf\ntimeout 3\neditor no\n"@, context: "Failed to write loader.conf"@ },
    ]
}

pub fn configure_system(config: &InstallConfig) -> (r: Vec<PlanStep>)
    ensures
        plan_view(r@) == configure_system_spec(*config),
{
    let mut steps: Vec<PlanStep> = Vec::new();
    push_step(&mut steps, progress("Setting timezone"));
    let tz_path = "/usr/share/zoneinfo/".to_string().concat(config.timezone.as_str());
    let mut ln: Vec<String> = Vec::new();
    push_str(&mut ln, "ln");
    push_str(&mut ln, "-sf");
    push_str(&mut ln, tz_path.as_str());
    push_str(&mut ln, "/etc/localtime");
    assert(views(ln@) =~= seq!["ln"@, "-sf"@, tz_path@, "/etc/localtime"@]);
    push_step(&mut steps, chroot_step(ln, "Failed to set timezone symlink".to_string()));
    push_step(&mut steps, chroot_step(args2("hwclock", "--systohc"), "Failed to sync hardware clock".to_string()));

    push_step(&mut steps, progress("Generating locales"));
    let sed_pattern = "s/^#\\(".to_string().concat(config.locale.as_str()).concat("\\)/\\1/");
    let mut sed: Vec<String> = Vec::new();
    push_str(&mut sed, "sed");
    push_str(&mut sed, "-i");
    push_str(&mut sed, sed_pattern.as_str());
    push_str(&mut sed, "/etc/locale.gen");
    assert(views(sed@) =~= seq!["sed"@, "-i"@, sed_pattern@, "/etc/locale.gen"@]);
    push_step(&mut steps, chroot_step(sed, "Failed to uncomment locale in locale.gen".to_string()));
    push_step(&mut steps, chroot_step(args1("locale-gen"), "Failed to generate locales".to_string()));
    push_step(&mut steps, write_file("/mnt/etc/locale.conf", "LANG=".to_string().concat(config.locale.as_str()).concat("\n"), "Failed to write locale.conf"));

    push_step(&mut steps, progress("Writing console keymap"));
    push_step(&mut steps, write_file("/mnt/etc/vconsole.conf", "KEYMAP=".to_string().concat(config.keymap.as_str()).concat("\n"), "Failed to write vconsole.conf"));

    push_step(&mut steps, progress("Writing hostname and hosts file"));
    push_step(&mut steps, write_file("/mnt/etc/hostname", config.hostname.clone().concat("\n"), "Failed to write hostname"));
    let hosts = "127.0.0.1\tlocalhost\n::1\t\tlocalhost\n127.0.1.1\t".to_string().concat(config.hostname.as_str()).concat("\n");
    push_step(&mut steps, write_file("/mnt/etc/hosts", hosts, "Failed to write /etc/hosts"));

    push_step(&mut steps, progress("Installing bootloader"));
    if config.removable_media {
        push_step(&mut steps, chroot_step(args3("bootctl", "install", "--no-variables"), "Failed to install systemd-boot for removable media".to_string()));
    } else {
        push_step(&mut steps, chroot_step(args2("bootctl", "install"), "Failed to install systemd-boot".to_string()));
    }
    push_step(&mut steps, write_file("/mnt/boot/loader/loader.conf", "default access-os.conf\ntimeout 3\neditor no\n".to_string(), "Failed to write loader.conf"));
    assert(plan_view(steps@) =~= configure_system_spec(*config));
    steps
}

/// The `blkid` command that prints the UUID of the root filesystem.
pub fn root_uuid_command(root_partition: &str) -> (r: CommandSpec)
    ensures
        r@ == cmd("blkid"@, seq!["-s"@, "UUID"@, "-o"@, "value"@, root_partition@], "Failed to get root UUID"@),
{
    let mut args: Vec<String> = Vec::new();
    push_str(&mut args, "-s");
    push_str(&mut args, "UUID");
    push_str(&mut args, "-o");
    push_str(&mut args, "value");
    push_str(&mut args, root_partition);
    assert(views(args@) =~= seq!["-s"@, "UUID"@, "-o"@, "value"@, root_partition@]);
    command("blkid", args, "Failed to get root UUID".to_string())
}

/// The UUID `blkid` printed, trimmed; an error when it printed nothing.
pub fn parse_root_uuid(output: &str) -> (r: Result<String, String>)
    ensures
        trim(output@).len() > 0 ==> (r matches Ok(u) && u@ == trim(output@)),
        trim(output@).len() == 0 ==> (r matches Err(e) && e@ == "blkid returned empty UUID for root partition"@),
{
    let chars = to_chars(output);
    assert(chars@.subrange(0, chars@.len() as int) =~= chars@);
    let (a, b) = trim_bounds(&chars, 0, chars.len());
    if a == b {
        Err("blkid returned empty UUID for root partition".to_string())
    } else {
        Ok(owned(output.substring_char(a, b)))
    }
}

/// The services enabled in the installed system: audio initialisation,
/// networking, Bluetooth, printing, cron, time sync and the console screen
/// reader, then the desktop's display manager and extra services.
pub open spec fn system_services(de: DesktopEnv) -> Seq<Seq<char>> {
    seq![AUDIO_INIT_SERVICE@, "NetworkManager"@, "bluetooth"@, "cups"@, "cronie"@, "ntpd"@, "espeakup"@]
        + (match de.display_manager_spec() { Some(dm) => seq![dm], None => Seq::empty() })
        + (if de == DesktopEnv::Server { seq!["docker"@, "tailscaled"@, "sshd"@] } else { Seq::empty() })
}

pub open spec fn pipewire_user_services() -> Seq<Seq<char>> {
    seq!["pipewire"@, "pipewire-pulse"@, "wireplumber"@]
}

pub open spec fn enable_steps(services: Seq<Seq<char>>) -> Seq<PlanStepModel>
    decreases services.len(),
{
    if services.len() == 0 {
        Seq::empty()
    } else {
        enable_steps(services.drop_last()) + seq![
            chroot(seq!["systemctl"@, "enable"@, services.last()], "Failed to enable "@ + services.last()),
        ]
    }
}

pub open spec fn enable_user_steps(services: Seq<Seq<char>>) -> Seq<PlanStepModel>
    decreases services.len(),
{
    if services.len() == 0 {
        Seq::empty()
    } else {
        enable_user_steps(services.drop_last()) + seq![
            chroot(seq!["systemctl"@, "--global"@, "enable"@, services.last()], "Failed to enable "@ + services.last() + " user service"@),
        ]
    }
}

pub open spec fn chpasswd_feed(username: Seq<char>, password: Seq<char>) -> FeedModel {
    FeedModel {
        program: "arch-chroot"@,
        args: seq!["/mnt"@, "chpasswd"@],
        input: username + ":"@ + password + "\n"@,
        spawn_context: "Failed to spawn chpasswd"@,
        stdin_error: "Failed to open stdin for chpasswd"@,
        write_context: "Failed to write to chpasswd stdin"@,
        wait_context: "Failed to wait for chpasswd"@,
        failure_prefix: "chpasswd failed"@,
        empty_failure: Some("chpasswd failed to set user password"@),
    }
}

/// Write the boot entry, create the user with its password, allow the
/// `wheel` group to use sudo, install the audio assets and enable the
/// system and PipeWire user services.
pub open spec fn configure_system_after_uuid_spec(c: InstallConfig, root_uuid: Seq<char>) -> Seq<PlanStepModel> {
    seq![
        PlanStepModel::CreateDirAll { path: "/mnt/boot/loader/entries"@, context: "Failed to create loader entries dir"@ },
        PlanStepModel::WriteFile { path: "/mnt/boot/loader/entries/access-os.conf"@, contents: boot_entry(c.kernel, root_uuid), context: "Failed to write boot entry"@ },
        PlanStepModel::Progress("Creating user account"@),
        chroot(seq!["useradd"@, "-m"@, "-G"@, "audio,video,storage,power,wheel"@, "-s"@, "/bin/bash"@, c.username@], "Failed to create user"@),
        PlanStepModel::Feed(chpasswd_feed(c.username@, c.password@)),
        PlanStepModel::Progress("Configuring sudo access"@),
        chroot(seq!["sed"@, "-i"@, "s/^# %wheel ALL=(ALL:ALL) ALL/%wheel ALL=(ALL:ALL) ALL/"@, "/etc/sudoers"@], "Failed to configure sudoers"@),
        PlanStepModel::Progress("Installing audio initialization service"@),
    ] + audio_assets_steps() + seq![PlanStepModel::Progress("Enabling system services"@)]
        + enable_steps(system_services(c.desktop_env)) + seq![PlanStepModel::Progress("Enabling PipeWire audio services"@)]
        + enable_user_steps(pipewire_user_services())
}

fn push_enable_steps(steps: &mut Vec<PlanStep>, services: &Vec<&str>, global: bool)
    ensures
        plan_view(final(steps)@) == plan_view(old(steps)@) + if global {
            enable_user_steps(services@.map_values(|s: &str| s@))
        } else {
            enable_steps(services@.map_values(|s: &str| s@))
        },
{
    let ghost start = plan_view(steps@);
    let ghost sv = services@.map_values(|s: &str| s@);
    let n = services.len();
    let mut i: usize = 0;
    while i < n
        invariant
            n == services@.len(),
            sv == services@.map_values(|s: &str| s@),
            i <= n,
            plan_view(steps@) == start + if global {
                enable_user_steps(sv.take(i as int))
            } else {
                enable_steps(sv.take(i as int))
            },
        decreases n - i,
    {
        let service = services[i];
        if global {
            let mut args: Vec<String> = Vec::new();
            push_str(&mut args, "systemctl");
            push_str(&mut args, "--global");
            push_str(&mut args, "enable");
            push_str(&mut args, service);
            assert(views(args@) =~= seq!["systemctl"@, "--global"@, "enable"@, service@]);
            push_step(steps, chroot_step(args, "Failed to enable ".to_string().concat(service).concat(" user service")));
        } else {
            push_step(steps, chroot_step(args3("systemctl", "enable", service), "Failed to enable ".to_string().concat(service)));
        }
        assert(sv.take(i + 1).drop_last() =~= sv.take(i as int));
        assert(sv[i as int] == service@);
        i = i + 1;
    }
    assert(sv.take(n as int) =~= sv);
}

pub fn configure_system_after_uuid(config: &InstallConfig, root_uuid: &str) -> (r: Vec<PlanStep>)
    ensures
        plan_view(r@) == configure_system_after_uuid_spec(*config, root_uuid@),
{
    let mut steps: Vec<PlanStep> = Vec::new();
    push_step(&mut steps, PlanStep::CreateDirAll { path: "/mnt/boot/loader/entries".to_string(), context: "Failed to create loader entries dir".to_string() });
    let entry = "title   Access OS\nlinux   ".to_string().concat(config.kernel.vmlinuz())
        .concat("\ninitrd  /amd-ucode.img\ninitrd  /intel-ucode.img\ninitrd  ").concat(config.kernel.initramfs())
        .concat("\noptions root=UUID=").concat(root_uuid).concat(" rw\n");
    push_step(&mut steps, write_file("/mnt/boot/loader/entries/access-os.conf", entry, "Failed to write boot entry"));

    push_step(&mut steps, progress("Creating user account"));
    let mut useradd: Vec<String> = Vec::new();
    push_str(&mut useradd, "useradd");
    push_str(&mut useradd, "-m");
    push_str(&mut useradd, "-G");
    push_str(&mut useradd, "audio,video,storage,power,wheel");
    push_str(&mut useradd, "-s");
    push_str(&mut useradd, "/bin/bash");
    push_str(&mut useradd, config.username.as_str());
    assert(views(useradd@) =~= seq!["useradd"@, "-m"@, "-G"@, "audio,video,storage,power,wheel"@, "-s"@, "/bin/bash"@, config.username@]);
    push_step(&mut steps, chroot_step(useradd, "Failed to create user".to_string()));
    let feed = FeedSpec {
        program: "arch-chroot".to_string(),
        args: args2("/mnt", "chpasswd"),
        input: config.username.clone().concat(":").concat(config.password.as_str()).concat("\n"),
        spawn_context: "Failed to spawn chpasswd".to_string(),
        stdin_error: "Failed to open stdin for chpasswd".to_string(),
        write_context: "Failed to write to chpasswd stdin".to_string(),
        wait_context: "Failed to wait for chpasswd".to_string(),
        failure_prefix: "chpasswd failed".to_string(),
        empty_failure: Some("chpasswd failed to set user password".to_string()),
    };
    push_step(&mut steps, PlanStep::Feed(feed));

    push_step(&mut steps, progress("Configuring sudo access"));
    let mut sudo: Vec<String> = Vec::new();
    push_str(&mut sudo, "sed");
    push_str(&mut sudo, "-i");
    push_str(&mut sudo, "s/^# %wheel ALL=(ALL:ALL) ALL/%wheel ALL=(ALL:ALL) ALL/");
    push_str(&mut sudo, "/etc/sudoers");
    assert(views(sudo@) =~= seq!["sed"@, "-i"@, "s/^# %wheel ALL=(ALL:ALL) ALL/%wheel ALL=(ALL:ALL) ALL/"@, "/etc/sudoers"@]);
    push_step(&mut steps, chroot_step(sudo, "Failed to configure sudoers".to_string()));

    push_step(&mut steps, progress("Installing audio initialization service"));
    let ghost before_audio = plan_view(steps@);
    crate::installer::commands::append_steps(&mut steps, install_audio_init_assets());

    push_step(&mut steps, progress("Enabling system services"));
    let mut services: Vec<&str> = Vec::new();
    services.push(AUDIO_INIT_SERVICE);
    services.push("NetworkManager");
    services.push("bluetooth");
    services.push("cups");
    services.push("cronie");
    services.push("ntpd");
    services.push("espeakup");
    match config.desktop_env.display_manager() {
        Some(dm) => {
            services.push(dm);
        },
        None => {},
    }
    let extra = config.desktop_env.extra_services();
    let mut k: usize = 0;
    let ghost base = services@;
    while k < extra.len()
        invariant
            k <= extra@.len(),
            services@ == base + extra@.take(k as int),
        decreases extra@.len() - k,
    {
        services.push(extra[k]);
        assert(extra@.take(k + 1) =~= extra@.take(k as int).push(extra@[k as int]));
        k = k + 1;
    }
    assert(extra@.take(extra@.len() as int) =~= extra@);
    assert(services@.map_values(|s: &str| s@) =~= system_services(config.desktop_env));
    push_enable_steps(&mut steps, &services, false);

    push_step(&mut steps, progress("Enabling PipeWire audio services"));
    let mut user_services: Vec<&str> = Vec::new();
    user_services.push("pipewire");
    user_services.push("pipewire-pulse");
    user_services.push("wireplumber");
    assert(user_services@.map_values(|s: &str| s@) =~= pipewire_user_services());
    push_enable_steps(&mut steps, &user_services, true);
    assert(plan_view(steps@) =~= configure_system_after_uuid_spec(*config, root_uuid@));
    steps
}

// ---------------------------------------------------------------------------
// GNOME and the staged configuration repository

/// The GNOME Shell extensions installed for the user: UUID and repository.
pub open spec fn gnome_extensions() -> Seq<(Seq<char>, Seq<char>)> {
    seq![
        ("no-overview@fthx"@, "https://github.com/fthx/no-overview"@),
        ("notification-timeout@chlumskyvaclav.gmail.com"@, "https://github.com/vchlum/notification-timeout"@),
        ("overviewbackground@github.com.orbitcorrection"@, "https://github.com/howbea/overview-background"@),
    ]
}

pub open spec fn dconf_settings() -> Seq<char> {
    "[org/gnome/desktop/interface]\ncolor-scheme='prefer-dark'\ngtk-theme='Breeze-Dark'\naccent-color='orange'\n"@
}

pub open spec fn dconf_feed(username: Seq<char>, input: Seq<char>, spawn_context: Seq<char>, write_context: Seq<char>, failure_prefix: Seq<char>) -> FeedModel {
    FeedModel {
        program: "arch-chroot"@,
        args: seq!["/mnt"@, "su"@, "-"@, username, "-c"@, "dconf load /"@],
        input,
        spawn_context,
        stdin_error: "Failed to open stdin for dconf load"@,
        write_context,
        wait_context: "Failed to wait for dconf load"@,
        failure_prefix,
        empty_failure: None,
    }
}

pub open spec fn clone_extension_steps(ext_base: Seq<char>, exts: Seq<(Seq<char>, Seq<char>)>) -> Seq<PlanStepModel>
    decreases exts.len(),
{
    if exts.len() == 0 {
        Seq::empty()
    } else {
        let (uuid, url) = exts.last();
        let dir = ext_base + "/"@ + uuid;
        clone_extension_steps(ext_base, exts.drop_last()) + seq![
            PlanStepModel::RunShowingStderr(cmd("git"@, seq!["clone"@, "--depth"@, "1"@, url, dir], "Failed to clone extension "@ + uuid)),
            PlanStepModel::RemoveDirIgnoringFailure(dir + "/.git"@),
        ]
    }
}

pub open spec fn enabled_extensions_setting() -> Seq<char> {
    "[org/gnome/shell]\nenabled-extensions=['no-overview@fthx', 'notification-timeout@chlumskyvaclav.gmail.com', 'overviewbackground@github.com.orbitcorrection']\n"@
}

/// The user's GNOME setup: a dark theme with an orange accent, the
/// extensions cloned into the user's extension directory and enabled, and
/// the user's files given back to the user.
pub open spec fn configure_gnome_spec(username: Seq<char>) -> Seq<PlanStepModel> {
    let home = "/home/"@ + username;
    let ext_base = "/mnt"@ + home + "/.local/share/gnome-shell/extensions"@;
    seq![
        PlanStepModel::CreateDirAll { path: "/mnt"@ + home + "/.config/dconf"@, context: "Failed to create dconf dir"@ },
        PlanStepModel::Feed(dconf_feed(username, dconf_settings(), "Failed to spawn dconf load"@, "Failed to write dconf settings"@, "dconf load failed"@)),
        PlanStepModel::CreateDirAll { path: ext_base, context: "Failed to create extensions dir"@ },
    ] + clone_extension_steps(ext_base, gnome_extensions()) + seq![
        PlanStepModel::Feed(dconf_feed(username, enabled_extensions_setting(), "Failed to spawn dconf load for extensions"@, "Failed to write extension enable settings"@, "dconf load for extensions failed"@)),
        chroot(seq!["chown"@, "-R"@, username + ":"@ + username, home], "Failed to fix ownership of GNOME config"@),
    ]
}

fn dconf_feed_exec(username: &str, input: &str, spawn_context: &str, write_context: &str, failure_prefix: &str) -> (r: FeedSpec)
    ensures
        r@ == dconf_feed(username@, input@, spawn_context@, write_context@, failure_prefix@),
{
    let mut args: Vec<String> = Vec::new();
    push_str(&mut args, "/mnt");
    push_str(&mut args, "su");
    push_str(&mut args, "-");
    push_str(&mut args, username);
    push_str(&mut args, "-c");
    push_str(&mut args, "dconf load /");
    assert(views(args@) =~= seq!["/mnt"@, "su"@, "-"@, username@, "-c"@, "dconf load /"@]);
    FeedSpec {
        program: "arch-chroot".to_string(),
        args,
        input: owned(input),
        spawn_context: owned(spawn_context),
        stdin_error: "Failed to open stdin for dconf load".to_string(),
        write_context: owned(write_context),
        wait_context: "Failed to wait for dconf load".to_string(),
        failure_prefix: owned(failure_prefix),
        empty_failure: None,
    }
}

fn clone_extension(steps: &mut Vec<PlanStep>, ext_base: &str, uuid: &str, url: &str)
    ensures
        plan_view(final(steps)@) == plan_view(old(steps)@) + seq![
            PlanStepModel::RunShowingStderr(cmd("git"@, seq!["clone"@, "--depth"@, "1"@, url@, ext_base@ + "/"@ + uuid@], "Failed to clone extension "@ + uuid@)),
            PlanStepModel::RemoveDirIgnoringFailure(ext_base@ + "/"@ + uuid@ + "/.git"@),
        ],
{
    let ghost start = plan_view(steps@);
    let dir = owned(ext_base).concat("/").concat(uuid);
    let mut args: Vec<String> = Vec::new();
    push_str(&mut args, "clone");
    push_str(&mut args, "--depth");
    push_str(&mut args, "1");
    push_str(&mut args, url);
    push_str(&mut args, dir.as_str());
    assert(views(args@) =~= seq!["clone"@, "--depth"@, "1"@, url@, dir@]);
    push_step(steps, PlanStep::RunShowingStderr(command("git", args, "Failed to clone extension ".to_string().concat(uuid))));
    push_step(steps, PlanStep::RemoveDirIgnoringFailure(dir.concat("/.git")));
    assert(plan_view(steps@) =~= start + seq![
        PlanStepModel::RunShowingStderr(cmd("git"@, seq!["clone"@, "--depth"@, "1"@, url@, ext_base@ + "/"@ + uuid@], "Failed to clone extension "@ + uuid@)),
        PlanStepModel::RemoveDirIgnoringFailure(ext_base@ + "/"@ + uuid@ + "/.git"@),
    ]);
}

pub fn configure_gnome(username: &str) -> (r: Vec<PlanStep>)
    ensures
        plan_view(r@) == configure_gnome_spec(username@),
{
    let home = "/home/".to_string().concat(username);
    let mut steps: Vec<PlanStep> = Vec::new();
    push_step(&mut steps, PlanStep::CreateDirAll {
        path: "/mnt".to_string().concat(home.as_str()).concat("/.config/dconf"),
        context: "Failed to create dconf dir".to_string(),
    });
    push_step(&mut steps, PlanStep::Feed(dconf_feed_exec(
        username,
        "[org/gnome/desktop/interface]\ncolor-scheme='prefer-dark'\ngtk-theme='Breeze-Dark'\naccent-color='orange'\n",
        "Failed to spawn dconf load",
        "Failed to write dconf settings",
        "dconf load failed",
    )));
    let ext_base = "/mnt".to_string().concat(home.as_str()).concat("/.local/share/gnome-shell/extensions");
    push_step(&mut steps, PlanStep::CreateDirAll { path: ext_base.clone(), context: "Failed to create extensions dir".to_string() });
    let ghost before_clones = plan_view(steps@);
    clone_extension(&mut steps, ext_base.as_str(), "no-overview@fthx", "https://github.com/fthx/no-overview");
    let ghost g1 = plan_view(steps@);
    clone_extension(&mut steps, ext_base.as_str(), "notification-timeout@chlumskyvaclav.gmail.com", "https://github.com/vchlum/notification-timeout");
    let ghost g2 = plan_view(steps@);
    clone_extension(&mut steps, ext_base.as_str(), "overviewbackground@github.com.orbitcorrection", "https://github.com/howbea/overview-background");
    proof {
        let e = gnome_extensions();
        let e2 = e.drop_last();
        let e1 = e2.drop_last();
        let e0 = e1.drop_last();
        assert(e0 =~= Seq::<(Seq<char>, Seq<char>)>::empty());
        assert(e1 =~= seq![e[0]]);
        assert(e2 =~= seq![e[0], e[1]]);
        assert(clone_extension_steps(ext_base@, e0) =~= Seq::<PlanStepModel>::empty());
        assert(g1 =~= before_clones + clone_extension_steps(ext_base@, e1));
        assert(g2 =~= before_clones + clone_extension_steps(ext_base@, e2));
        assert(plan_view(steps@) =~= before_clones + clone_extension_steps(ext_base@, e));
    }
    push_step(&mut steps, PlanStep::Feed(dconf_feed_exec(
        username,
        "[org/gnome/shell]\nenabled-extensions=['no-overview@fthx', 'notification-timeout@chlumskyvaclav.gmail.com', 'overviewbackground@github.com.orbitcorrection']\n",
        "Failed to spawn dconf load for extensions",
        "Failed to write extension enable settings",
        "dconf load for extensions failed",
    )));
    let owner = owned(username).concat(":").concat(username);
    let mut chown: Vec<String> = Vec::new();
    push_str(&mut chown, "chown");
    push_str(&mut chown, "-R");
    push_str(&mut chown, owner.as_str());
    push_str(&mut chown, home.as_str());
    assert(views(chown@) =~= seq!["chown"@, "-R"@, owner@, home@]);
    push_step(&mut steps, chroot_step(chown, "Failed to fix ownership of GNOME config".to_string()));
    assert(plan_view(steps@) =~= configure_gnome_spec(username@));
    steps
}

/// Clone the configuration repository to the staging path, replacing an
/// earlier copy; nothing when no repository is given.
pub open spec fn stage_repo_spec(url: Seq<char>) -> Seq<PlanStepModel> {
    if url.len() == 0 {
        Seq::empty()
    } else {
        seq![
            PlanStepModel::Progress("Staging system configuration repository"@),
            PlanStepModel::RemoveDirIfExists {
                path: STAGED_CONFIG_REPO_PATH@,
                context: "Failed to remove existing staged repo "@ + STAGED_CONFIG_REPO_PATH@,
            },
            run("git"@, seq!["clone"@, "--depth"@, "1"@, url, STAGED_CONFIG_REPO_PATH@], "Failed to clone system config repo"@),
        ]
    }
}

pub fn stage_system_config_repo(url: &str) -> (r: Vec<PlanStep>)
    ensures
        plan_view(r@) == stage_repo_spec(url@),
{
    let mut steps: Vec<PlanStep> = Vec::new();
    if url.unicode_len() == 0 {
        assert(plan_view(steps@) =~= stage_repo_spec(url@));
        return steps;
    }
    push_step(&mut steps, progress("Staging system configuration repository"));
    push_step(&mut steps, PlanStep::RemoveDirIfExists {
        path: owned(STAGED_CONFIG_REPO_PATH),
        context: "Failed to remove existing staged repo ".to_string().concat(STAGED_CONFIG_REPO_PATH),
    });
    let mut args: Vec<String> = Vec::new();
    push_str(&mut args, "clone");
    push_str(&mut args, "--depth");
    push_str(&mut args, "1");
    push_str(&mut args, url);
    push_str(&mut args, STAGED_CONFIG_REPO_PATH);
    assert(views(args@) =~= seq!["clone"@, "--depth"@, "1"@, url@, STAGED_CONFIG_REPO_PATH@]);
    push_step(&mut steps, run_step("git", args, "Failed to clone system config repo".to_string()));
    assert(plan_view(steps@) =~= stage_repo_spec(url@));
    steps
}

pub open spec fn overlay_steps(names: Seq<Seq<char>>) -> Seq<PlanStepModel>
    decreases names.len(),
{
    if names.len() == 0 {
        Seq::empty()
    } else {
        let name = names.last();
        overlay_steps(names.drop_last()) + if name == ".git"@ {
            Seq::empty()
        } else {
            seq![
                PlanStepModel::Progress("Copying staged config "@ + name),
                PlanStepModel::RunTrimmedStderr {
                    command: cmd("cp"@, seq!["-a"@, STAGED_CONFIG_REPO_PATH@ + "/"@ + name, "/mnt/"@ + name], "Failed to copy "@ + name),
                    spawn_context: "Failed to copy staged item "@ + name,
                },
            ]
        }
    }
}

/// Copies every entry of the staged repository except `.git` onto the
/// installed system, given the names of the entries.
pub fn overlay_staged_config_to_target(entry_names: &Vec<String>) -> (r: Vec<PlanStep>)
    ensures
        plan_view(r@) == overlay_steps(views(entry_names@)),
{
    let ghost names = views(entry_names@);
    let mut steps: Vec<PlanStep> = Vec::new();
    let n = entry_names.len();
    let mut i: usize = 0;
    while i < n
        invariant
            n == entry_names@.len(),
            names == views(entry_names@),
            i <= n,
            plan_view(steps@) == overlay_steps(names.take(i as int)),
        decreases n - i,
    {
        let name = entry_names[i].as_str();
        assert(names.take(i + 1).drop_last() =~= names.take(i as int));
        assert(names[i as int] == name@);
        if !str_eq(name, ".git") {
            push_step(&mut steps, progress("Copying staged config ".to_string().concat(name).as_str()));
            let source = owned(STAGED_CONFIG_REPO_PATH).concat("/").concat(name);
            let dest = "/mnt/".to_string().concat(name);
            push_step(&mut steps, PlanStep::RunTrimmedStderr {
                command: command("cp", args3("-a", source.as_str(), dest.as_str()), "Failed to copy ".to_string().concat(name)),
                spawn_context: "Failed to copy staged item ".to_string().concat(name),
            });
        }
        assert(plan_view(steps@) =~= overlay_steps(names.take(i + 1)));
        i = i + 1;
    }
    assert(names.take(n as int) =~= names);
    steps
}

/// The GNOME setup ends by handing the user's whole home directory, with
/// everything created in it as root, to the user: a recursive `chown` of
/// `/home/<user>` to `<user>:<user>` inside the new system.
pub proof fn law_gnome_setup_gives_home_to_user(username: Seq<char>)
    ensures
        configure_gnome_spec(username).len() > 0,
        configure_gnome_spec(username).last() matches PlanStepModel::Run(c) && c.program == "arch-chroot"@
            && c.args == seq!["/mnt"@, "chown"@, "-R"@, username + ":"@ + username, "/home/"@ + username],
{
    let s = configure_gnome_spec(username);
    assert(s.last() == chroot(seq!["chown"@, "-R"@, username + ":"@ + username, "/home/"@ + username],
        "Failed to fix ownership of GNOME config"@));
    assert(seq!["/mnt"@] + seq!["chown"@, "-R"@, username + ":"@ + username, "/home/"@ + username]
        =~= seq!["/mnt"@, "chown"@, "-R"@, username + ":"@ + username, "/home/"@ + username]);
}

proof fn lemma_kernel_boot_files(k: KernelVariant)
    ensures
        k.vmlinuz_spec() == "/vmlinuz-"@ + k.packages_spec()[0],
        k.initramfs_spec() == "/initramfs-"@ + k.packages_spec()[0] + ".img"@,
        one_line(k.vmlinuz_spec()),
        one_line(k.initramfs_spec()),
{
    reveal_strlit("/vmlinuz-");
    reveal_strlit("/initramfs-");
    reveal_strlit(".img");
    match k {
        KernelVariant::Standard => {
            reveal_strlit("linux");
            reveal_strlit("/vmlinuz-linux");
            reveal_strlit("/initramfs-linux.img");
            assert("/vmlinuz-linux"@ =~= "/vmlinuz-"@ + "linux"@);
            assert("/initramfs-linux.img"@ =~= "/initramfs-"@ + "linux"@ + ".img"@);
            assert(one_line("/vmlinuz-linux"@) && one_line("/initramfs-linux.img"@));
        },
        KernelVariant::Lts => {
            reveal_strlit("linux-lts");
            reveal_strlit("/vmlinuz-linux-lts");
            reveal_strlit("/initramfs-linux-lts.img");
            assert("/vmlinuz-linux-lts"@ =~= "/vmlinuz-"@ + "linux-lts"@);
            assert("/initramfs-linux-lts.img"@ =~= "/initramfs-"@ + "linux-lts"@ + ".img"@);
            assert(one_line("/vmlinuz-linux-lts"@) && one_line("/initramfs-linux-lts.img"@));
        },
        KernelVariant::Zen => {
            reveal_strlit("linux-zen");
            reveal_strlit("/vmlinuz-linux-zen");
            reveal_strlit("/initramfs-linux-zen.img");
            assert("/vmlinuz-linux-zen"@ =~= "/vmlinuz-"@ + "linux-zen"@);
            assert("/initramfs-linux-zen.img"@ =~= "/initramfs-"@ + "linux-zen"@ + ".img"@);
            assert(one_line("/vmlinuz-linux-zen"@) && one_line("/initramfs-linux-zen.img"@));
        },
        KernelVariant::Hardened => {
            reveal_strlit("linux-hardened");
            reveal_strlit("/vmlinuz-linux-hardened");
            reveal_strlit("/initramfs-linux-hardened.img");
            assert("/vmlinuz-linux-hardened"@ =~= "/vmlinuz-"@ + "linux-hardened"@);
            assert("/initramfs-linux-hardened.img"@ =~= "/initramfs-"@ + "linux-hardened"@ + ".img"@);
            assert(one_line("/vmlinuz-linux-hardened"@) && one_line("/initramfs-linux-hardened.img"@));
        },
    }
}

proof fn lemma_boot_entry_pieces()
    ensures
        "title   Access OS\nlinux   "@ == "title   Access OS"@.push('\n') + "linux   "@,
        "\ninitrd  /amd-ucode.img\ninitrd  /intel-ucode.img\ninitrd  "@
            == seq!['\n'] + "initrd  /amd-ucode.img"@ + seq!['\n'] + "initrd  /intel-ucode.img"@ + seq!['\n'] + "initrd  "@,
        "\noptions root=UUID="@ == seq!['\n'] + "options root=UUID="@,
        " rw\n"@ == " rw"@.push('\n'),
        one_line("title   Access OS"@),
        one_line("linux   "@),
        one_line("initrd  /amd-ucode.img"@),
        one_line("initrd  /intel-ucode.img"@),
        one_line("initrd  "@),
        one_line("options root=UUID="@),
        one_line(" rw"@),
        "linux   "@ + "/vmlinuz-"@ == "linux   /vmlinuz-"@,
        "initrd  "@ + "/initramfs-"@ == "initrd  /initramfs-"@,
{
    reveal_strlit("title   Access OS\nlinux   ");
    reveal_strlit("title   Access OS");
    reveal_strlit("linux   ");
    reveal_strlit("\ninitrd  /amd-ucode.img\ninitrd  /intel-ucode.img\ninitrd  ");
    reveal_strlit("initrd  /amd-ucode.img");
    reveal_strlit("initrd  /intel-ucode.img");
    reveal_strlit("initrd  ");
    reveal_strlit("\noptions root=UUID=");
    reveal_strlit("options root=UUID=");
    reveal_strlit(" rw\n");
    reveal_strlit(" rw");
    reveal_strlit("linux   /vmlinuz-");
    reveal_strlit("initrd  /initramfs-");
    reveal_strlit("/vmlinuz-");
    reveal_strlit("/initramfs-");
    assert("title   Access OS\nlinux   "@ =~= "title   Access OS"@.push('\n') + "linux   "@);
    assert("\ninitrd  /amd-ucode.img\ninitrd  /intel-ucode.img\ninitrd  "@
        =~= seq!['\n'] + "initrd  /amd-ucode.img"@ + seq!['\n'] + "initrd  /intel-ucode.img"@ + seq!['\n'] + "initrd  "@);
    assert("\noptions root=UUID="@ =~= seq!['\n'] + "options root=UUID="@);
    assert(" rw\n"@ =~= " rw"@.push('\n'));
    assert("linux   "@ + "/vmlinuz-"@ =~= "linux   /vmlinuz-"@);
    assert("initrd  "@ + "/initramfs-"@ =~= "initrd  /initramfs-"@);
}

/// The lines of a boot entry for the image `vm` and the initramfs `ir`.
proof fn lemma_boot_entry_lines(vm: Seq<char>, ir: Seq<char>, u: Seq<char>)
    requires
        one_line(vm),
        one_line(ir),
    ensures
        ({
            let contents = "title   Access OS\nlinux   "@ + vm + "\ninitrd  /amd-ucode.img\ninitrd  /intel-ucode.img\ninitrd  "@
                + ir + "\noptions root=UUID="@ + u + " rw\n"@;
            let lines = split_newlines(contents);
            &&& lines.len() > 5
            &&& lines[0] == "title   Access OS"@
            &&& lines[1] == "linux   "@ + vm
            &&& lines[2] == "initrd  /amd-ucode.img"@
            &&& lines[3] == "initrd  /intel-ucode.img"@
            &&& lines[4] == "initrd  "@ + ir
            &&& one_line(u) ==> lines[5] == "options root=UUID="@ + u + " rw"@
        }),
{
    lemma_boot_entry_pieces();
    let l0 = "title   Access OS"@;
    let l1 = "linux   "@ + vm;
    let l2 = "initrd  /amd-ucode.img"@;
    let l3 = "initrd  /intel-ucode.img"@;
    let l4 = "initrd  "@ + ir;
    lemma_one_line_concat("linux   "@, vm);
    lemma_one_line_concat("initrd  "@, ir);
    let p0 = l0;
    lemma_split_newlines_one_line(p0);
    let p1 = p0.push('\n') + l1;
    lemma_split_newlines_after(p0, l1);
    let p2 = p1.push('\n') + l2;
    lemma_split_newlines_after(p1, l2);
    let p3 = p2.push('\n') + l3;
    lemma_split_newlines_after(p2, l3);
    let p4 = p3.push('\n') + l4;
    lemma_split_newlines_after(p3, l4);
    let head = p4.push('\n');
    assert(split_newlines(p4) =~= seq![l0, l1, l2, l3, l4]);
    assert(head.drop_last() =~= p4);
    assert(split_acc(head).0 == split_newlines(p4));
    let rest = "options root=UUID="@ + u + " rw\n"@;
    let contents = "title   Access OS\nlinux   "@ + vm + "\ninitrd  /amd-ucode.img\ninitrd  /intel-ucode.img\ninitrd  "@
        + ir + "\noptions root=UUID="@ + u + " rw\n"@;
    assert(contents =~= head + rest);
    lemma_split_acc_prefix(head, rest);
    assert(split_newlines(contents)[0] == split_acc(contents).0[0]);
    assert(split_newlines(contents)[1] == split_acc(contents).0[1]);
    assert(split_newlines(contents)[2] == split_acc(contents).0[2]);
    assert(split_newlines(contents)[3] == split_acc(contents).0[3]);
    assert(split_newlines(contents)[4] == split_acc(contents).0[4]);
    if one_line(u) {
        let t = "options root=UUID="@ + u + " rw"@;
        lemma_one_line_concat("options root=UUID="@, u);
        lemma_one_line_concat("options root=UUID="@ + u, " rw"@);
        assert(split_acc(head).1 =~= Seq::<char>::empty());
        lemma_split_acc_one_line(head, t);
        assert(Seq::<char>::empty() + t =~= t);
        assert(contents =~= (head + t).push('\n'));
        assert((head + t).push('\n').drop_last() =~= head + t);
        assert(split_acc(contents).0 == split_newlines(p4).push(t));
    }
}

/// The boot entry boots the kernel that was chosen and installed: after
/// the title, its `linux` line names the image of the kernel's package
/// (`/vmlinuz-<package>`), the last `initrd` line that package's initramfs,
/// and, for a UUID on one line, the options line mounts the root
/// filesystem by that UUID, for every kernel and every UUID.
pub proof fn law_boot_entry_boots_chosen_kernel(c: InstallConfig, root_uuid: Seq<char>)
    ensures
        configure_system_after_uuid_spec(c, root_uuid)[1] matches PlanStepModel::WriteFile { path, contents, .. }
            && path == "/mnt/boot/loader/entries/access-os.conf"@ && {
            let lines = split_newlines(contents);
            let package = c.kernel.packages_spec()[0];
            &&& lines.len() > 5
            &&& lines[0] == "title   Access OS"@
            &&& lines[1] == "linux   /vmlinuz-"@ + package
            &&& lines[4] == "initrd  /initramfs-"@ + package + ".img"@
            &&& one_line(root_uuid) ==> lines[5] == "options root=UUID="@ + root_uuid + " rw"@
        },
{
    let k = c.kernel;
    let package = k.packages_spec()[0];
    lemma_kernel_boot_files(k);
    lemma_boot_entry_pieces();
    lemma_boot_entry_lines(k.vmlinuz_spec(), k.initramfs_spec(), root_uuid);
    assert("linux   "@ + k.vmlinuz_spec() =~= "linux   /vmlinuz-"@ + package);
    assert("initrd  "@ + k.initramfs_spec() =~= "initrd  /initramfs-"@ + package + ".img"@);
}

} // verus!
