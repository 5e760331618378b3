use crate::gui::state::AppState;
use crate::installer::config_engine::{all_kernels, DesktopEnv, KernelVariant};
use crate::text::{owned, trim, trimmed};
use vstd::prelude::*;

verus! {

/// What the user settings page holds when "Next" is pressed.
pub struct SettingsForm {
    pub hostname: String,
    pub username: String,
    pub password: String,
    pub timezone: String,
    pub locale: String,
    pub keymap: String,
    /// The row picked in the kernel list, if any.
    pub kernel_index: Option<usize>,
    pub nvidia_checked: bool,
}

/// What pressing "Next" on the settings page does.
pub struct SettingsOutcome {
    /// The password field is emptied (it is, once a password was given).
    pub clear_password_field: bool,
    /// `Ok` when the settings were taken in; otherwise the message to show.
    pub result: Result<(), String>,
}

/// The first field that is missing, in the order the page checks them;
/// only the password is not trimmed first.
pub open spec fn settings_refusal(form: &SettingsForm) -> Option<Seq<char>> {
    if trim(form.hostname@).len() == 0 {
        Some("Enter a hostname."@)
    } else if trim(form.username@).len() == 0 {
        Some("Enter a username."@)
    } else if form.password@.len() == 0 {
        Some("Enter a password."@)
    } else if trim(form.timezone@).len() == 0 {
        Some("Enter a timezone."@)
    } else if trim(form.locale@).len() == 0 {
        Some("Enter a locale."@)
    } else if trim(form.keymap@).len() == 0 {
        Some("Enter a keymap."@)
    } else {
        None
    }
}

/// The kernel at the picked row (the first when none is picked), or the
/// standard kernel for a row past the list.
pub open spec fn picked_kernel(index: Option<usize>) -> KernelVariant {
    let i: int = match index { Some(i) => i as int, None => 0 };
    if i < 4 { all_kernels()[i] } else { KernelVariant::Standard }
}

/// The settings page's state update once every field is given.
pub open spec fn settings_applied(old_state: &AppState, new_state: &AppState, form: &SettingsForm) -> bool {
    &&& *new_state == (AppState {
        hostname: new_state.hostname,
        username: new_state.username,
        password: new_state.password,
        timezone: new_state.timezone,
        locale: new_state.locale,
        keymap: new_state.keymap,
        kernel: picked_kernel(form.kernel_index),
        nvidia: form.nvidia_checked && old_state.desktop_env != Some(DesktopEnv::Server),
        ..*old_state
    })
    &&& new_state.hostname@ == trim(form.hostname@)
    &&& new_state.username@ == trim(form.username@)
    &&& new_state.password@ == form.password@
    &&& new_state.timezone@ == trim(form.timezone@)
    &&& new_state.locale@ == trim(form.locale@)
    &&& new_state.keymap@ == trim(form.keymap@)
}

/// Takes the settings page in: each field must be given (hostname,
/// username, timezone, locale and keymap are trimmed), the kernel comes from
/// the list, and the Nvidia drivers are never kept for the server profile.
/// A refused form leaves the state as it was.
pub fn submit_settings(state: &mut AppState, form: &SettingsForm) -> (r: SettingsOutcome)
    ensures
        r.clear_password_field == (trim(form.hostname@).len() > 0 && trim(form.username@).len() > 0
            && form.password@.len() > 0),
        match settings_refusal(form) {
            Some(msg) => r.result is Err && r.result->Err_0@ == msg && *final(state) == *old(state),
            None => r.result is Ok && settings_applied(old(state), final(state), form),
        },
{
    let hostname = trimmed(form.hostname.as_str());
    if hostname.as_str().unicode_len() == 0 {
        return SettingsOutcome { clear_password_field: false, result: Err(owned("Enter a hostname.")) };
    }
    let username = trimmed(form.username.as_str());
    if username.as_str().unicode_len() == 0 {
        return SettingsOutcome { clear_password_field: false, result: Err(owned("Enter a username.")) };
    }
    if form.password.as_str().unicode_len() == 0 {
        return SettingsOutcome { clear_password_field: false, result: Err(owned("Enter a password.")) };
    }
    let timezone = trimmed(form.timezone.as_str());
    if timezone.as_str().unicode_len() == 0 {
        return SettingsOutcome { clear_password_field: true, result: Err(owned("Enter a timezone.")) };
    }
    let locale = trimmed(form.locale.as_str());
    if locale.as_str().unicode_len() == 0 {
        return SettingsOutcome { clear_password_field: true, result: Err(owned("Enter a locale.")) };
    }
    let keymap = trimmed(form.keymap.as_str());
    if keymap.as_str().unicode_len() == 0 {
        return SettingsOutcome { clear_password_field: true, result: Err(owned("Enter a keymap.")) };
    }
    let index = match form.kernel_index {
        Some(i) => i,
        None => 0,
    };
    let kernel = match KernelVariant::from_index(index) {
        Some(k) => *k,
        None => KernelVariant::Standard,
    };
    let server = matches!(state.desktop_env, Some(DesktopEnv::Server));
    state.hostname = hostname;
    state.username = username;
    state.password = form.password.clone();
    state.timezone = timezone;
    state.locale = locale;
    state.keymap = keymap;
    state.kernel = kernel;
    state.nvidia = !server && form.nvidia_checked;
    SettingsOutcome { clear_password_field: true, result: Ok(()) }
}

/// How the Nvidia option is offered for the chosen desktop.
pub struct NvidiaToggle {
    /// The box can be ticked.
    pub sensitive: bool,
    /// The box is unticked by force.
    pub force_off: bool,
    pub note: &'static str,
}

/// The server profile has no Nvidia drivers: the option is unticked, locked
/// and explained; for any other choice it is open.
pub fn nvidia_toggle(desktop_env: Option<DesktopEnv>) -> (r: NvidiaToggle)
    ensures
        desktop_env == Some(DesktopEnv::Server) ==> !r.sensitive && r.force_off
            && r.note@ == "Nvidia drivers are disabled for the Server (Headless) profile."@,
        desktop_env != Some(DesktopEnv::Server) ==> r.sensitive && !r.force_off && r.note@.len() == 0,
{
    if matches!(desktop_env, Some(DesktopEnv::Server)) {
        NvidiaToggle {
            sensitive: false,
            force_off: true,
            note: "Nvidia drivers are disabled for the Server (Headless) profile.",
        }
    } else {
        proof {
            reveal_strlit("");
        }
        NvidiaToggle { sensitive: true, force_off: false, note: "" }
    }
}

} // verus!
