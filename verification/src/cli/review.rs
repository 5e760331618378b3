use crate::cli::disk::{setup_mode_name, setup_mode_name_exec};
use crate::cli::wizard::{yes_no, yes_no_spec, Step, Wizard, WizardState};
use crate::gui::install::InstallTask;
use crate::gui::mappers::{format_check_group, format_check_group_spec, format_warning_lines, format_warning_lines_spec};
use crate::gui::preflight::{check_views, has_hard_fail, hard_fail_spec, CheckResult, PreflightContext};
use crate::gui::review::{has_warnings, has_warnings_spec};
use crate::cli::manual::{managed_disks, managed_disks_spec};
use crate::installer::commands::{plan_view, push_str, PlanStep, PlanStepModel};
use crate::installer::disk_manager::{execute_layout, execute_layout_spec, execute_manual_layout, execute_manual_layout_spec};
use crate::installer::config_engine::DesktopEnv;
use crate::installer::install_worker::InstallConfig;
use crate::installer::storage_plan::{
    SetupMode,destructive_plan_lines, format_destructive_plan, resolve_layout, resolve_layout_spec, ResolvedInstallLayout};
use crate::text::{decimal, owned, parse_unsigned, parse_unsigned_exec, seq_join, split_newlines, split_newlines_exec, split_whitespace, starts_with, u64_to_string, views, words};
use vstd::prelude::*;

verus! {

// ---------------------------------------------------------------------------
// Review

impl Wizard {
    /// Entering the review screen: it needs a desktop and a layout that
    /// resolves, which is kept for the install.
    pub fn begin_review(&mut self) -> (r: Result<DesktopEnv, String>)
        ensures
            old(self).state.desktop_env is None ==> r is Err && r->Err_0@ == "Desktop environment missing in state."@
                && *final(self) == *old(self),
            old(self).state.desktop_env is Some ==> match resolve_layout_spec(old(self).state.storage) {
                Err(e) => r is Err && r->Err_0@ == e && *final(self) == *old(self),
                Ok(l) => r == Ok::<DesktopEnv, String>(old(self).state.desktop_env.unwrap())
                    && final(self).cached_layout is Some && final(self).cached_layout.unwrap()@ == l
                    && *final(self) == (Wizard { cached_layout: final(self).cached_layout, ..*old(self) }),
            },
    {
        let de = match self.state.desktop_env {
            Some(de) => de,
            None => return Err(owned("Desktop environment missing in state.")),
        };
        let layout = match resolve_layout(&self.state.storage) {
            Ok(l) => l,
            Err(e) => return Err(e),
        };
        self.cached_layout = Some(layout);
        Ok(de)
    }
}

pub open spec fn review_lines_spec(w: Wizard, de: DesktopEnv, plan: Seq<Seq<char>>) -> Seq<Seq<char>> {
    let s = w.state;
    seq!["Target disk: "@ + s.storage.install_disk@]
        + (match w.cached_disk_gib { Some(g) => seq!["Disk size: "@ + decimal(g as nat) + " GiB"@], None => Seq::empty() })
        + seq![
            "Disk setup: "@ + setup_mode_name(s.storage.setup_mode) + " ("@ + s.storage.fs_type@ + ")"@,
            "Mirror region: "@ + s.mirror_region@,
            "Kernel: "@ + s.kernel.label_spec(),
            "Desktop environment: "@ + de.label_spec(),
            "Nvidia drivers: "@ + yes_no_spec(s.nvidia),
            "Removable media: "@ + yes_no_spec(s.removable_media),
            "Hostname: "@ + s.hostname@,
            "Username: "@ + s.username@,
            "Timezone: "@ + s.timezone@,
            "Locale: "@ + s.locale@,
            "Keymap: "@ + s.keymap@,
            Seq::empty(),
            "Destructive plan:"@,
            seq_join(plan, "\n"@),
        ]
}

impl Wizard {
    /// What the review screen lists: the choices made, then the destructive
    /// plan of `layout`.
    pub fn review_lines(&self, de: DesktopEnv, layout: &ResolvedInstallLayout) -> (r: Vec<String>)
        ensures
            views(r@) == review_lines_spec(*self, de, destructive_plan_lines(layout@)),
    {
        let s = &self.state;
        let mut r: Vec<String> = Vec::new();
        push_str(&mut r, owned("Target disk: ").concat(s.storage.install_disk.as_str()).as_str());
        let ghost first = views(r@);
        match self.cached_disk_gib {
            Some(g) => push_str(&mut r, owned("Disk size: ").concat(u64_to_string(g).as_str()).concat(" GiB").as_str()),
            None => {},
        }
        let ghost second = views(r@);
        push_str(&mut r, owned("Disk setup: ").concat(setup_mode_name_exec(s.storage.setup_mode)).concat(" (")
            .concat(s.storage.fs_type.as_str()).concat(")").as_str());
        push_str(&mut r, owned("Mirror region: ").concat(s.mirror_region.as_str()).as_str());
        push_str(&mut r, owned("Kernel: ").concat(s.kernel.label()).as_str());
        push_str(&mut r, owned("Desktop environment: ").concat(de.label()).as_str());
        push_str(&mut r, owned("Nvidia drivers: ").concat(yes_no(s.nvidia)).as_str());
        push_str(&mut r, owned("Removable media: ").concat(yes_no(s.removable_media)).as_str());
        push_str(&mut r, owned("Hostname: ").concat(s.hostname.as_str()).as_str());
        push_str(&mut r, owned("Username: ").concat(s.username.as_str()).as_str());
        push_str(&mut r, owned("Timezone: ").concat(s.timezone.as_str()).as_str());
        push_str(&mut r, owned("Locale: ").concat(s.locale.as_str()).as_str());
        push_str(&mut r, owned("Keymap: ").concat(s.keymap.as_str()).as_str());
        let ghost before_blank = views(r@);
        r.push(String::new());
        assert(views(r@) =~= before_blank.push(Seq::<char>::empty()));
        push_str(&mut r, "Destructive plan:");
        push_str(&mut r, format_destructive_plan(layout).as_str());
        assert(views(r@) =~= review_lines_spec(*self, de, destructive_plan_lines(layout@)));
        r
    }

    /// The preflight facts for the review screen: the chosen disk and its
    /// size come from the wizard, the rest from the machine.
    pub fn review_preflight_context(&self, is_uefi: bool, online: bool, ram_gib: u64) -> (r: PreflightContext)
        ensures
            r == (PreflightContext {
                is_uefi,
                has_disk: self.state.storage.install_disk@.len() > 0,
                online,
                ram_gib,
                disk_gib: self.cached_disk_gib,
            }),
    {
        PreflightContext {
            is_uefi,
            has_disk: self.state.storage.install_disk.as_str().unicode_len() > 0,
            online,
            ram_gib,
            disk_gib: self.cached_disk_gib,
        }
    }

    /// The closing lines of the review screen.
    pub fn review_prompt(&self) -> (r: Vec<String>)
        ensures
            views(r@) == seq!["Type `install` to proceed, `back` to make changes, or `quit` to exit."@]
                + (if self.dry_run { seq!["NOTE: --dry-run enabled; no disk or install actions will be performed."@] } else { Seq::empty() }),
    {
        let mut r: Vec<String> = Vec::new();
        push_str(&mut r, "Type `install` to proceed, `back` to make changes, or `quit` to exit.");
        if self.dry_run {
            push_str(&mut r, "NOTE: --dry-run enabled; no disk or install actions will be performed.");
        }
        assert(views(r@) =~= seq!["Type `install` to proceed, `back` to make changes, or `quit` to exit."@]
            + (if self.dry_run { seq!["NOTE: --dry-run enabled; no disk or install actions will be performed."@] } else { Seq::empty() }));
        r
    }
}

pub open spec fn preflight_report_spec(checks: Seq<crate::gui::preflight::CheckResultModel>) -> Seq<Seq<char>> {
    if hard_fail_spec(checks) {
        seq!["Preflight: HARD FAIL"@, format_check_group_spec(checks, true), Seq::empty(),
            "Fix hard failures before installing. Type `back` to review settings."@]
    } else if has_warnings_spec(checks) {
        seq!["Preflight warnings:"@, format_warning_lines_spec(checks), Seq::empty()]
    } else {
        Seq::empty()
    }
}

/// What the review screen says of the preflight checks: the hard failures
/// (which block the install), else the warnings, else nothing.
pub fn preflight_report(checks: &[CheckResult]) -> (r: Vec<String>)
    ensures
        views(r@) == preflight_report_spec(check_views(checks@)),
{
    let mut r: Vec<String> = Vec::new();
    if has_hard_fail(checks) {
        push_str(&mut r, "Preflight: HARD FAIL");
        push_str(&mut r, format_check_group(checks, true).as_str());
        let ghost prev = views(r@);
        r.push(String::new());
        assert(views(r@) =~= prev.push(Seq::<char>::empty()));
        push_str(&mut r, "Fix hard failures before installing. Type `back` to review settings.");
    } else if has_warnings(checks) {
        push_str(&mut r, "Preflight warnings:");
        push_str(&mut r, format_warning_lines(checks).as_str());
        let ghost prev = views(r@);
        r.push(String::new());
        assert(views(r@) =~= prev.push(Seq::<char>::empty()));
    }
    assert(views(r@) =~= preflight_report_spec(check_views(checks@)));
    r
}

// ---------------------------------------------------------------------------
// Reading the RAM size

/// The number at the start of `rest` (the text after `MemTotal:`), or 0.
pub open spec fn meminfo_kb(rest: Seq<char>) -> nat {
    let w = words(rest);
    let first = if w.len() > 0 { w[0] } else { "0"@ };
    match parse_unsigned(first, u64::MAX as nat) {
        Some(v) => v,
        None => 0,
    }
}

/// The RAM in whole GiB that the first `MemTotal:` line says (in kB), or 0
/// when there is none.
pub open spec fn meminfo_gib_spec(lines: Seq<Seq<char>>) -> nat
    decreases lines.len(),
{
    if lines.len() == 0 {
        0
    } else if "MemTotal:"@.is_prefix_of(lines[0]) {
        meminfo_kb(lines[0].subrange(9, lines[0].len() as int)) / 1024 / 1024
    } else {
        meminfo_gib_spec(lines.drop_first())
    }
}

/// The RAM size in whole GiB that the text of `/proc/meminfo` gives.
pub fn meminfo_ram_gib(meminfo: &str) -> (r: u64)
    ensures
        r as nat == meminfo_gib_spec(split_newlines(meminfo@)),
{
    let lines = split_newlines_exec(meminfo);
    let ghost all = views(lines@);
    let n = lines.len();
    let mut i: usize = 0;
    proof {
        reveal_strlit("MemTotal:");
        assert(all.subrange(0, n as int) =~= all);
    }
    while i < n
        invariant
            n == lines@.len(),
            all == views(lines@),
            all == split_newlines(meminfo@),
            i <= n,
            meminfo_gib_spec(all) == meminfo_gib_spec(all.subrange(i as int, n as int)),
            "MemTotal:"@.len() == 9,
        decreases n - i,
    {
        let line = lines[i].as_str();
        proof {
            assert(all.subrange(i as int, n as int)[0] == line@);
            assert(all.subrange(i as int, n as int).drop_first() =~= all.subrange(i + 1, n as int));
        }
        if starts_with(line, "MemTotal:") {
            let rest = line.substring_char(9, line.unicode_len());
            let w = split_whitespace(rest);
            let kb = if w.len() > 0 {
                assert(views(w@)[0] == w@[0]@);
                match parse_unsigned_exec(w[0].as_str(), u64::MAX) {
                    Some(v) => v,
                    None => 0,
                }
            } else {
                proof {
                    reveal_strlit("0");
                    assert("0"@ =~= seq!['0']);
                    reveal_with_fuel(crate::text::digits_value, 2);
                    assert(seq!['0'].drop_last() =~= Seq::<char>::empty());
                    assert(crate::text::digits_value(seq!['0']) == 0);
                    assert(crate::text::all_ascii_digits(seq!['0']));
                }
                0
            };
            proof {
                assert(kb as nat == meminfo_kb(rest@));
                assert(meminfo_gib_spec(all.subrange(i as int, n as int)) == meminfo_kb(line@.subrange(9, line@.len() as int)) / 1024 / 1024);
            }
            let gib = kb / 1024 / 1024;
            assert(gib as nat == (kb as nat) / 1024 / 1024);
            assert(gib as nat == meminfo_gib_spec(all));
            return gib;
        }
        i = i + 1;
    }
    0
}

// ---------------------------------------------------------------------------
// Install

impl Wizard {
    /// The settings to install with: the install needs a desktop and the
    /// layout kept by the review.
    pub fn install_config(&self) -> (r: Result<InstallConfig, String>)
        ensures
            self.state.desktop_env is None ==> r is Err && r->Err_0@ == "Desktop environment missing in state."@,
            self.state.desktop_env is Some && self.cached_layout is None ==> r is Err
                && r->Err_0@ == "Internal error: missing cached layout. Return to Review."@,
            self.state.desktop_env is Some && self.cached_layout is Some ==> r is Ok && ({
                let c = r->Ok_0;
                let s = self.state;
                &&& c.username@ == s.username@
                &&& c.password@ == s.password@
                &&& c.hostname@ == s.hostname@
                &&& c.timezone@ == s.timezone@
                &&& c.locale@ == s.locale@
                &&& c.keymap@ == s.keymap@
                &&& c.desktop_env == s.desktop_env.unwrap()
                &&& c.kernel == s.kernel
                &&& c.nvidia == s.nvidia
                &&& c.removable_media == s.removable_media
            }),
    {
        let de = match self.state.desktop_env {
            Some(de) => de,
            None => return Err(owned("Desktop environment missing in state.")),
        };
        if self.cached_layout.is_none() {
            return Err(owned("Internal error: missing cached layout. Return to Review."));
        }
        let s = &self.state;
        Ok(InstallConfig {
            username: s.username.clone(),
            password: s.password.clone(),
            hostname: s.hostname.clone(),
            timezone: s.timezone.clone(),
            locale: s.locale.clone(),
            keymap: s.keymap.clone(),
            desktop_env: de,
            kernel: s.kernel,
            nvidia: s.nvidia,
            removable_media: s.removable_media,
        })
    }

    /// The install is over: the password is dropped and the wizard moves to
    /// the completion screen.
    pub fn finish_install(&mut self)
        ensures
            final(self).state.password@.len() == 0,
            *final(self) == (Wizard {
                step: Step::Complete,
                state: WizardState { password: final(self).state.password, ..old(self).state },
                ..*old(self)
            }),
    {
        self.state.password = String::new();
        self.step = Step::Complete;
    }
}

/// The stages of the line-based install, in order.
pub open spec fn cli_tasks_spec() -> Seq<InstallTask> {
    seq![
        InstallTask::ApplyLayout,
        InstallTask::StageConfig,
        InstallTask::OverlayConfig,
        InstallTask::ApplyMirror,
        InstallTask::Pacstrap,
        InstallTask::SwapFile,
        InstallTask::Fstab,
        InstallTask::ConfigureSystem,
    ]
}

pub fn cli_install_tasks() -> (r: Vec<InstallTask>)
    ensures
        r@ == cli_tasks_spec(),
{
    let r = vec![
        InstallTask::ApplyLayout,
        InstallTask::StageConfig,
        InstallTask::OverlayConfig,
        InstallTask::ApplyMirror,
        InstallTask::Pacstrap,
        InstallTask::SwapFile,
        InstallTask::Fstab,
        InstallTask::ConfigureSystem,
    ];
    assert(r@ =~= cli_tasks_spec());
    r
}

pub open spec fn stage_heading_spec(task: InstallTask, region: Seq<char>) -> Option<Seq<char>> {
    match task {
        InstallTask::ApplyLayout => Some("1/7 Partitioning and mounting..."@),
        InstallTask::StageConfig => Some("2/7 Staging system config..."@),
        InstallTask::ApplyMirror => Some("3/7 Applying mirror region ("@ + region + ")..."@),
        InstallTask::Pacstrap => Some("4/7 Installing base system (pacstrap)..."@),
        InstallTask::SwapFile => Some("5/7 Setting up swap (if configured)..."@),
        InstallTask::Fstab => Some("6/7 Generating fstab..."@),
        InstallTask::ConfigureSystem => Some("7/7 Configuring system..."@),
        _ => None,
    }
}

impl Wizard {
    /// The heading printed when a stage of the install begins.
    pub fn stage_heading(&self, task: InstallTask) -> (r: Option<String>)
        ensures
            match r {
                Some(h) => stage_heading_spec(task, self.state.mirror_region@) == Some(h@),
                None => stage_heading_spec(task, self.state.mirror_region@) is None,
            },
    {
        match task {
            InstallTask::ApplyLayout => Some(owned("1/7 Partitioning and mounting...")),
            InstallTask::StageConfig => Some(owned("2/7 Staging system config...")),
            InstallTask::ApplyMirror => Some(owned("3/7 Applying mirror region (").concat(self.state.mirror_region.as_str()).concat(")...")),
            InstallTask::Pacstrap => Some(owned("4/7 Installing base system (pacstrap)...")),
            InstallTask::SwapFile => Some(owned("5/7 Setting up swap (if configured)...")),
            InstallTask::Fstab => Some(owned("6/7 Generating fstab...")),
            InstallTask::ConfigureSystem => Some(owned("7/7 Configuring system...")),
            _ => None,
        }
    }
}

/// A failed mirror region does not stop the install; this line says so.
pub fn mirror_warning(err: &str) -> (r: String)
    ensures
        r@ == "WARN: mirror apply failed (non-fatal): "@ + err@,
{
    owned("WARN: mirror apply failed (non-fatal): ").concat(err)
}

impl Wizard {
    /// The steps that prepare the install targets: for a manual setup, the
    /// planned deletes and creates run after the disks are cleared and
    /// before anything is formatted; an automatic setup carries out the
    /// layout alone.
    pub fn install_layout_plan(&self, layout: &ResolvedInstallLayout) -> (r: Vec<PlanStep>)
        ensures
            self.state.storage.setup_mode == SetupMode::Automatic ==> plan_view(r@) == execute_layout_spec(layout@),
            self.state.storage.setup_mode == SetupMode::Manual ==> exists|managed: Seq<String>| {
                &&& views(managed) == managed_disks_spec(self.state.storage)
                &&& plan_view(r@) == execute_manual_layout_spec(layout@, views(self.state.manual_delete_partitions@),
                    self.state.manual_create_actions@, managed)
            },
    {
        if matches!(self.state.storage.setup_mode, SetupMode::Manual) {
            let managed = managed_disks(&self.state.storage);
            let r = execute_manual_layout(layout, &self.state.manual_delete_partitions, &self.state.manual_create_actions,
                managed.as_slice());
            assert(views(managed@) == managed_disks_spec(self.state.storage));
            r
        } else {
            execute_layout(layout)
        }
    }
}

} // verus!
