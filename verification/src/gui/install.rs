use crate::gui::mappers::{selection_matches_state, storage_selection_from_state};
use crate::gui::disk_setup::lemma_same_layout;
use crate::gui::state::AppState;
use crate::installer::config_engine::DesktopEnv;
use crate::installer::install_worker::InstallConfig;
use crate::installer::storage_plan::{resolve_layout, resolve_layout_spec, StorageSelection};
use crate::text::owned;
use vstd::prelude::*;

verus! {

/// Which button started the installation run.
#[derive(Clone, Copy, Debug, PartialEq, Eq, Structural)]
pub enum InstallAttempt {
    /// "Start Installation": the whole installation.
    Full,
    /// "Retry pacstrap": from staging the system configuration on.
    RetryPacstrap,
    /// "Retry configuration": from generating fstab on.
    RetryConfig,
}

/// One stage of the installation, in the order the installer runs them.
#[derive(Clone, Copy, Debug, PartialEq, Eq, Structural)]
pub enum InstallTask {
    ApplyLayout,
    StageConfig,
    OverlayConfig,
    ApplyMirror,
    Pacstrap,
    SwapFile,
    Fstab,
    ConfigureSystem,
    ConfigureGnome,
}

pub open spec fn gnome_tail(de: DesktopEnv) -> Seq<InstallTask> {
    if de == DesktopEnv::Gnome { seq![InstallTask::ConfigureGnome] } else { Seq::empty() }
}

/// The stages a run goes through, in order. GNOME is configured last, and
/// only for the GNOME desktop.
pub open spec fn tasks_spec(attempt: InstallAttempt, de: DesktopEnv) -> Seq<InstallTask> {
    match attempt {
        InstallAttempt::Full => seq![
            InstallTask::ApplyLayout,
            InstallTask::StageConfig,
            InstallTask::OverlayConfig,
            InstallTask::ApplyMirror,
            InstallTask::Pacstrap,
            InstallTask::SwapFile,
            InstallTask::Fstab,
            InstallTask::ConfigureSystem,
        ] + gnome_tail(de),
        InstallAttempt::RetryPacstrap => seq![
            InstallTask::StageConfig,
            InstallTask::OverlayConfig,
            InstallTask::ApplyMirror,
            InstallTask::Pacstrap,
            InstallTask::SwapFile,
            InstallTask::Fstab,
            InstallTask::ConfigureSystem,
        ] + gnome_tail(de),
        InstallAttempt::RetryConfig => seq![InstallTask::Fstab, InstallTask::ConfigureSystem] + gnome_tail(de),
    }
}

/// The stages of a run started by `attempt` for the desktop `de`.
pub fn install_tasks(attempt: InstallAttempt, de: DesktopEnv) -> (r: Vec<InstallTask>)
    ensures
        r@ == tasks_spec(attempt, de),
{
    let mut v: Vec<InstallTask> = Vec::new();
    if matches!(attempt, InstallAttempt::Full) {
        v.push(InstallTask::ApplyLayout);
    }
    if !matches!(attempt, InstallAttempt::RetryConfig) {
        v.push(InstallTask::StageConfig);
        v.push(InstallTask::OverlayConfig);
        v.push(InstallTask::ApplyMirror);
        v.push(InstallTask::Pacstrap);
        v.push(InstallTask::SwapFile);
    }
    v.push(InstallTask::Fstab);
    v.push(InstallTask::ConfigureSystem);
    if matches!(de, DesktopEnv::Gnome) {
        v.push(InstallTask::ConfigureGnome);
    }
    proof {
        assert(v@ =~= tasks_spec(attempt, de));
    }
    v
}

/// A failed mirror region or GNOME configuration is reported and the run
/// goes on; any other failure ends the run.
pub open spec fn is_non_fatal(task: InstallTask) -> bool {
    task == InstallTask::ApplyMirror || task == InstallTask::ConfigureGnome
}

pub fn failure_is_fatal(task: InstallTask) -> (r: bool)
    ensures
        r == !is_non_fatal(task),
{
    !matches!(task, InstallTask::ApplyMirror | InstallTask::ConfigureGnome)
}

/// The stage that comes after the one at `index` of `tasks`, when the run
/// goes on: a stage that failed ends the run unless its failure is
/// non-fatal, and the run ends after its last stage.
pub open spec fn next_in(tasks: Seq<InstallTask>, index: int, failed: bool) -> Option<InstallTask> {
    if 0 <= index && index + 1 < tasks.len() && !(failed && !is_non_fatal(tasks[index])) {
        Some(tasks[index + 1])
    } else {
        None
    }
}

/// The next stage of a run through `tasks` after the one at `index`, given
/// whether that one failed; `None` when the run ends there.
pub fn next_task_in(tasks: &Vec<InstallTask>, index: usize, failed: bool) -> (r: Option<InstallTask>)
    ensures
        r == next_in(tasks@, index as int, failed),
{
    if index < tasks.len() && index + 1 < tasks.len() && !(failed && failure_is_fatal(tasks[index])) {
        Some(tasks[index + 1])
    } else {
        None
    }
}

/// The next stage of a run started by `attempt` for the desktop `de`, after
/// the stage at `index`, given whether it failed; `None` when the run ends.
pub fn next_install_task(attempt: InstallAttempt, de: DesktopEnv, index: usize, failed: bool) -> (r: Option<InstallTask>)
    ensures
        r == next_in(tasks_spec(attempt, de), index as int, failed),
{
    next_task_in(&install_tasks(attempt, de), index, failed)
}

/// Whether a run through `tasks`, whose stages fail as `failed` says,
/// reaches the stage at `k` by following `next_in` from the first stage.
pub open spec fn reached(tasks: Seq<InstallTask>, failed: Seq<bool>, k: int) -> bool
    decreases k,
{
    if k <= 0 {
        k == 0 && tasks.len() > 0
    } else {
        reached(tasks, failed, k - 1) && next_in(tasks, k - 1, failed[k - 1]) == Some(tasks[k])
    }
}

/// A run reaches a stage exactly when the stage exists and no stage before
/// it failed fatally.
pub proof fn law_run_reaches_until_fatal_failure(tasks: Seq<InstallTask>, failed: Seq<bool>, k: int)
    requires
        failed.len() == tasks.len(),
        0 <= k,
    ensures
        reached(tasks, failed, k) <==> (k < tasks.len()
            && forall|j: int| 0 <= j < k ==> !(#[trigger] failed[j] && !is_non_fatal(tasks[j]))),
    decreases k,
{
    if k > 0 {
        law_run_reaches_until_fatal_failure(tasks, failed, k - 1);
        if reached(tasks, failed, k) {
            assert forall|j: int| 0 <= j < k implies !(#[trigger] failed[j] && !is_non_fatal(tasks[j])) by {
                if j == k - 1 {
                } else {
                    assert(0 <= j < k - 1);
                }
            }
        }
        if k < tasks.len() && forall|j: int| 0 <= j < k ==> !(#[trigger] failed[j] && !is_non_fatal(tasks[j])) {
            assert(!(failed[k - 1] && !is_non_fatal(tasks[k - 1])));
        }
    }
}

/// The state of the install page's buttons.
#[derive(Clone, Copy, Debug, PartialEq, Eq, Structural)]
pub struct InstallControls {
    pub start_enabled: bool,
    pub retry_pacstrap_shown: bool,
    pub retry_config_shown: bool,
}

/// The buttons when the page opens: start enabled, no retry offered.
pub fn initial_controls() -> (r: InstallControls)
    ensures
        r == (InstallControls { start_enabled: true, retry_pacstrap_shown: false, retry_config_shown: false }),
{
    InstallControls { start_enabled: true, retry_pacstrap_shown: false, retry_config_shown: false }
}

pub open spec fn begin_spec(attempt: InstallAttempt, c: InstallControls) -> InstallControls {
    match attempt {
        InstallAttempt::Full => InstallControls { start_enabled: false, retry_pacstrap_shown: false, retry_config_shown: false },
        InstallAttempt::RetryPacstrap => InstallControls { retry_config_shown: false, ..c },
        InstallAttempt::RetryConfig => c,
    }
}

/// The buttons while a run goes: a full run disables start and hides both
/// retries; a pacstrap retry hides the configuration retry.
pub fn begin_attempt(attempt: InstallAttempt, c: InstallControls) -> (r: InstallControls)
    ensures
        r == begin_spec(attempt, c),
{
    match attempt {
        InstallAttempt::Full => InstallControls { start_enabled: false, retry_pacstrap_shown: false, retry_config_shown: false },
        InstallAttempt::RetryPacstrap => InstallControls { retry_config_shown: false, ..c },
        InstallAttempt::RetryConfig => c,
    }
}

pub open spec fn offers_config_retry(task: InstallTask) -> bool {
    task == InstallTask::SwapFile || task == InstallTask::Fstab || task == InstallTask::ConfigureSystem
}

pub open spec fn after_failure_spec(attempt: InstallAttempt, task: InstallTask, c: InstallControls) -> InstallControls {
    match attempt {
        InstallAttempt::Full => InstallControls {
            start_enabled: true,
            retry_pacstrap_shown: c.retry_pacstrap_shown || task == InstallTask::Pacstrap,
            retry_config_shown: c.retry_config_shown || offers_config_retry(task),
        },
        InstallAttempt::RetryPacstrap => InstallControls {
            retry_config_shown: c.retry_config_shown || offers_config_retry(task),
            ..c
        },
        InstallAttempt::RetryConfig => c,
    }
}

/// The buttons after a stage failed and ended the run: start comes back
/// after a full run; a failed pacstrap offers its retry, and a failure from
/// the swap file on offers the configuration retry.
pub fn after_failure(attempt: InstallAttempt, task: InstallTask, c: InstallControls) -> (r: InstallControls)
    ensures
        r == after_failure_spec(attempt, task, c),
{
    let config = matches!(task, InstallTask::SwapFile | InstallTask::Fstab | InstallTask::ConfigureSystem);
    match attempt {
        InstallAttempt::Full => InstallControls {
            start_enabled: true,
            retry_pacstrap_shown: c.retry_pacstrap_shown || matches!(task, InstallTask::Pacstrap),
            retry_config_shown: c.retry_config_shown || config,
        },
        InstallAttempt::RetryPacstrap => InstallControls { retry_config_shown: c.retry_config_shown || config, ..c },
        InstallAttempt::RetryConfig => c,
    }
}

/// A retry that a failure offers runs the stage that failed again. (A failed
/// swap file is left out: the configuration retry it offers starts from
/// fstab.)
pub proof fn law_retry_reruns_failed_task(attempt: InstallAttempt, task: InstallTask, de: DesktopEnv, c: InstallControls)
    requires
        tasks_spec(attempt, de).contains(task),
        !is_non_fatal(task),
        task != InstallTask::SwapFile,
    ensures
        after_failure_spec(attempt, task, c).retry_pacstrap_shown && !c.retry_pacstrap_shown
            ==> tasks_spec(InstallAttempt::RetryPacstrap, de).contains(task),
        after_failure_spec(attempt, task, c).retry_config_shown && !c.retry_config_shown
            ==> tasks_spec(InstallAttempt::RetryConfig, de).contains(task),
{
    let p = tasks_spec(InstallAttempt::RetryPacstrap, de);
    let q = tasks_spec(InstallAttempt::RetryConfig, de);
    assert(p[3] == InstallTask::Pacstrap);
    assert(q[0] == InstallTask::Fstab && q[1] == InstallTask::ConfigureSystem);
}

/// Why a run could not begin: the progress line and, if one is written, the
/// log line.
pub struct InstallStop {
    pub progress: String,
    pub log: Option<String>,
}

pub open spec fn stop_view(s: InstallStop) -> (Seq<char>, Option<Seq<char>>) {
    (s.progress@, match s.log { Some(l) => Some(l@), None => None })
}

fn stop(progress: String, log: Option<String>) -> (r: InstallStop)
    ensures
        r.progress == progress,
        r.log == log,
{
    InstallStop { progress, log }
}

pub open spec fn config_from(state: &AppState, de: DesktopEnv, password: Seq<char>, c: InstallConfig) -> bool {
    &&& c.username@ == state.username@
    &&& c.password@ == password
    &&& c.hostname@ == state.hostname@
    &&& c.timezone@ == state.timezone@
    &&& c.locale@ == state.locale@
    &&& c.keymap@ == state.keymap@
    &&& c.desktop_env == de
    &&& c.kernel == state.kernel
    &&& c.nvidia == state.nvidia
    &&& c.removable_media == state.removable_media
}

/// The system settings the install runs with, from the state, for the
/// desktop `de` and the password `password`.
pub fn install_config(state: &AppState, de: DesktopEnv, password: &String) -> (r: InstallConfig)
    ensures
        config_from(state, de, password@, r),
{
    InstallConfig {
        username: state.username.clone(),
        password: password.clone(),
        hostname: state.hostname.clone(),
        timezone: state.timezone.clone(),
        locale: state.locale.clone(),
        keymap: state.keymap.clone(),
        desktop_env: de,
        kernel: state.kernel,
        nvidia: state.nvidia,
        removable_media: state.removable_media,
    }
}

/// Why a full run cannot begin, checked in this order: the disk setup does
/// not resolve, the filesystem is not one the installer formats, the
/// password is empty, no desktop was chosen.
pub open spec fn start_refusal(state: &AppState, layout: Result<crate::installer::storage_plan::LayoutModel, Seq<char>>) -> Option<(Seq<char>, Option<Seq<char>>)> {
    match layout {
        Err(e) => Some(("Installation failed: invalid disk setup: "@ + e, Some("FAIL: invalid disk setup: "@ + e))),
        Ok(_) => if state.fs_type@ != "xfs"@ && state.fs_type@ != "ext4"@ {
            Some(("Installation failed: unsupported filesystem selection."@,
                Some("FAIL: unsupported filesystem '"@ + state.fs_type@ + "'."@)))
        } else if state.password@.len() == 0 {
            Some(("Installation failed: password is empty. Go back and re-enter it."@,
                Some("FAIL: missing password in install state; return to user settings."@)))
        } else if state.desktop_env is None {
            Some(("Installation failed: no desktop environment selected."@, Some("FAIL: no desktop environment selected."@)))
        } else {
            None
        },
    }
}

/// Begins a full run: checks what it needs, keeps the resolved layout in the
/// state and gives the settings to install with. When a check fails, the
/// state is left as it was.
pub fn begin_full_install(state: &mut AppState) -> (r: Result<InstallConfig, InstallStop>)
    ensures
        forall|sel: StorageSelection| #[trigger] selection_matches_state(sel, old(state)) ==> (
            match start_refusal(old(state), resolve_layout_spec(sel)) {
                Some(msgs) => r is Err && stop_view(r->Err_0) == msgs && *final(state) == *old(state),
                None => {
                    &&& r is Ok
                    &&& *final(state) == (AppState { resolved_layout: final(state).resolved_layout, ..*old(state) })
                    &&& final(state).resolved_layout is Some
                    &&& resolve_layout_spec(sel) == Ok::<_, Seq<char>>(final(state).resolved_layout.unwrap()@)
                    &&& config_from(old(state), old(state).desktop_env.unwrap(), old(state).password@, r->Ok_0)
                },
            }
        ),
{
    let selection = storage_selection_from_state(state);
    proof {
        assert forall|sel: StorageSelection| #[trigger] selection_matches_state(sel, &*state)
            implies resolve_layout_spec(sel) == resolve_layout_spec(selection) by {
            lemma_same_layout(sel, selection, &*state);
        }
        reveal_strlit("xfs");
        reveal_strlit("ext4");
    }
    let layout = match resolve_layout(&selection) {
        Ok(layout) => layout,
        Err(e) => {
            return Err(stop(
                owned("Installation failed: invalid disk setup: ").concat(e.as_str()),
                Some(owned("FAIL: invalid disk setup: ").concat(e.as_str())),
            ));
        },
    };
    let fs = state.fs_type.as_str();
    if !crate::text::str_eq(fs, "xfs") && !crate::text::str_eq(fs, "ext4") {
        return Err(stop(
            owned("Installation failed: unsupported filesystem selection."),
            Some(owned("FAIL: unsupported filesystem '").concat(fs).concat("'.")),
        ));
    }
    if state.password.as_str().unicode_len() == 0 {
        return Err(stop(
            owned("Installation failed: password is empty. Go back and re-enter it."),
            Some(owned("FAIL: missing password in install state; return to user settings.")),
        ));
    }
    let de = match state.desktop_env {
        Some(de) => de,
        None => {
            return Err(stop(
                owned("Installation failed: no desktop environment selected."),
                Some(owned("FAIL: no desktop environment selected.")),
            ));
        },
    };
    let config = install_config(state, de, &state.password);
    state.resolved_layout = Some(layout);
    Ok(config)
}

/// Why a retry cannot begin, checked in this order: no resolved layout was
/// kept, no password was kept from the first run, no desktop was chosen.
pub open spec fn retry_refusal(attempt: InstallAttempt, state: &AppState, password: Option<Seq<char>>) -> Option<(Seq<char>, Option<Seq<char>>)> {
    if state.resolved_layout is None {
        Some(("Installation failed: storage layout is unavailable. Return to review."@,
            Some(if attempt == InstallAttempt::RetryConfig {
                "FAIL: config retry requested without resolved storage layout."@
            } else {
                "FAIL: retry requested without resolved storage layout."@
            })))
    } else if password is None {
        Some(("Installation failed: password is unavailable. Return to user settings."@,
            Some("FAIL: retry requested but no password is cached."@)))
    } else if state.desktop_env is None {
        Some(("Installation failed: no desktop environment selected."@, None))
    } else {
        None
    }
}

/// Begins a retry with the password kept from the first run: the settings
/// to install with, or why the retry cannot begin.
pub fn begin_retry(attempt: InstallAttempt, state: &AppState, cached_password: &Option<String>) -> (r: Result<InstallConfig, InstallStop>)
    requires
        attempt != InstallAttempt::Full,
    ensures
        match retry_refusal(attempt, state, match cached_password { Some(p) => Some(p@), None => None }) {
            Some(msgs) => r is Err && stop_view(r->Err_0) == msgs,
            None => r is Ok && config_from(state, state.desktop_env.unwrap(), cached_password.unwrap()@, r->Ok_0),
        },
{
    if state.resolved_layout.is_none() {
        let log = if matches!(attempt, InstallAttempt::RetryConfig) {
            owned("FAIL: config retry requested without resolved storage layout.")
        } else {
            owned("FAIL: retry requested without resolved storage layout.")
        };
        return Err(stop(owned("Installation failed: storage layout is unavailable. Return to review."), Some(log)));
    }
    let password = match cached_password {
        Some(p) => p,
        None => {
            return Err(stop(
                owned("Installation failed: password is unavailable. Return to user settings."),
                Some(owned("FAIL: retry requested but no password is cached.")),
            ));
        },
    };
    match state.desktop_env {
        Some(de) => Ok(install_config(state, de, password)),
        None => Err(stop(owned("Installation failed: no desktop environment selected."), None)),
    }
}

pub open spec fn progress_spec(attempt: InstallAttempt, task: InstallTask) -> Option<Seq<char>> {
    match (attempt, task) {
        (InstallAttempt::Full, InstallTask::ApplyLayout) => Some("Partitioning and formatting..."@),
        (InstallAttempt::Full, InstallTask::StageConfig) => Some("Staging system config..."@),
        (InstallAttempt::RetryPacstrap, InstallTask::StageConfig) => Some("Refreshing staged system config..."@),
        (InstallAttempt::Full, InstallTask::Pacstrap) => Some("Installing base system (pacstrap)..."@),
        (InstallAttempt::RetryPacstrap, InstallTask::Pacstrap) => Some("Retrying pacstrap..."@),
        (InstallAttempt::RetryConfig, InstallTask::Fstab) => Some("Retrying fstab generation..."@),
        (_, InstallTask::Fstab) => Some("Generating fstab..."@),
        (InstallAttempt::RetryConfig, InstallTask::ConfigureSystem) => Some("Retrying system configuration..."@),
        (_, InstallTask::ConfigureSystem) => Some("Configuring system..."@),
        (_, InstallTask::ConfigureGnome) => Some("Configuring GNOME..."@),
        _ => None,
    }
}

/// The progress line shown when a stage begins, if the stage changes it.
pub fn progress_text(attempt: InstallAttempt, task: InstallTask) -> (r: Option<&'static str>)
    ensures
        match r {
            Some(t) => progress_spec(attempt, task) == Some(t@),
            None => progress_spec(attempt, task) is None,
        },
{
    match (attempt, task) {
        (InstallAttempt::Full, InstallTask::ApplyLayout) => Some("Partitioning and formatting..."),
        (InstallAttempt::Full, InstallTask::StageConfig) => Some("Staging system config..."),
        (InstallAttempt::RetryPacstrap, InstallTask::StageConfig) => Some("Refreshing staged system config..."),
        (InstallAttempt::Full, InstallTask::Pacstrap) => Some("Installing base system (pacstrap)..."),
        (InstallAttempt::RetryPacstrap, InstallTask::Pacstrap) => Some("Retrying pacstrap..."),
        (InstallAttempt::RetryConfig, InstallTask::Fstab) => Some("Retrying fstab generation..."),
        (_, InstallTask::Fstab) => Some("Generating fstab..."),
        (InstallAttempt::RetryConfig, InstallTask::ConfigureSystem) => Some("Retrying system configuration..."),
        (_, InstallTask::ConfigureSystem) => Some("Configuring system..."),
        (_, InstallTask::ConfigureGnome) => Some("Configuring GNOME..."),
        _ => None,
    }
}

pub open spec fn failure_spec(task: InstallTask, err: Seq<char>) -> (Option<Seq<char>>, Seq<char>) {
    match task {
        InstallTask::ApplyMirror => (None, "WARN: mirror region apply failed (non-fatal): "@ + err + ". Continuing."@),
        InstallTask::ConfigureGnome => (None, "WARN: GNOME config failed (non-fatal): "@ + err),
        _ => (Some("Installation failed: "@ + err), "FAIL: "@ + err),
    }
}

/// What a failed stage reports: for a failure that ends the run, the
/// progress line and a `FAIL` log line; for one that does not, a `WARN` log
/// line only.
pub fn failure_lines(task: InstallTask, err: &str) -> (r: (Option<String>, String))
    ensures
        (match r.0 { Some(p) => Some(p@), None => None }, r.1@) == failure_spec(task, err@),
{
    match task {
        InstallTask::ApplyMirror => (None, owned("WARN: mirror region apply failed (non-fatal): ").concat(err).concat(". Continuing.")),
        InstallTask::ConfigureGnome => (None, owned("WARN: GNOME config failed (non-fatal): ").concat(err)),
        _ => (Some(owned("Installation failed: ").concat(err)), owned("FAIL: ").concat(err)),
    }
}

pub open spec fn finish_log_spec(attempt: InstallAttempt) -> Seq<char> {
    match attempt {
        InstallAttempt::Full => "SUCCESS: installation finished."@,
        InstallAttempt::RetryPacstrap => "SUCCESS: installation finished after retry."@,
        InstallAttempt::RetryConfig => "SUCCESS: installation finished after config retry."@,
    }
}

/// Ends a run in which every stage went through: the password is dropped
/// from the state, and the log line that closes the run is given back.
pub fn finish_install(state: &mut AppState, attempt: InstallAttempt) -> (r: &'static str)
    ensures
        *final(state) == (AppState { password: final(state).password, ..*old(state) }),
        final(state).password@.len() == 0,
        r@ == finish_log_spec(attempt),
{
    state.password = String::new();
    match attempt {
        InstallAttempt::Full => "SUCCESS: installation finished.",
        InstallAttempt::RetryPacstrap => "SUCCESS: installation finished after retry.",
        InstallAttempt::RetryConfig => "SUCCESS: installation finished after config retry.",
    }
}

} // verus!
