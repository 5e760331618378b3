use crate::cli::wizard::{Menu, NetworkStatus, Reply, Request, Step, Wizard};

use crate::text::{owned, str_eq, trim};
use vstd::prelude::*;

verus! {

/// A reply as plain values.
pub enum ReplyModel {
    Again,
    Say(Seq<char>),
    Leave,
    Open(Menu),
    Ask(Request),
    Fail(Seq<char>),
}

impl View for Reply {
    type V = ReplyModel;

    open spec fn view(&self) -> ReplyModel {
        match self {
            Reply::Again => ReplyModel::Again,
            Reply::Say(s) => ReplyModel::Say(s@),
            Reply::Leave => ReplyModel::Leave,
            Reply::Open(m) => ReplyModel::Open(*m),
            Reply::Ask(q) => ReplyModel::Ask(*q),
            Reply::Fail(s) => ReplyModel::Fail(s@),
        }
    }
}

pub open spec fn is_quit(input: Seq<char>) -> bool {
    input == "quit"@ || input == "exit"@
}

fn say(msg: &str) -> (r: Reply)
    ensures
        r@ == ReplyModel::Say(msg@),
{
    Reply::Say(owned(msg))
}

fn unknown(prefix: &str, input: &str) -> (r: Reply)
    ensures
        r@ == ReplyModel::Say(prefix@ + input@),
{
    Reply::Say(owned(prefix).concat(input))
}

fn quit_word(input: &str) -> (r: bool)
    ensures
        r == is_quit(input@),
{
    str_eq(input, "quit") || str_eq(input, "exit")
}

/// The words the screens listen for, spelled out.
pub proof fn lemma_command_words()
    ensures
        "help"@ == seq!['h', 'e', 'l', 'p'],
        "quit"@ == seq!['q', 'u', 'i', 't'],
        "exit"@ == seq!['e', 'x', 'i', 't'],
        "back"@ == seq!['b', 'a', 'c', 'k'],
        "next"@ == seq!['n', 'e', 'x', 't'],
        "install"@ == seq!['i', 'n', 's', 't', 'a', 'l', 'l'],
        "unmount"@ == seq!['u', 'n', 'm', 'o', 'u', 'n', 't'],
        "reboot"@ == seq!['r', 'e', 'b', 'o', 'o', 't'],
        "shutdown"@ == seq!['s', 'h', 'u', 't', 'd', 'o', 'w', 'n'],
        "clear"@ == seq!['c', 'l', 'e', 'a', 'r'],
        "1"@ == seq!['1'],
        "2"@ == seq!['2'],
        "3"@ == seq!['3'],
        "4"@ == seq!['4'],
        "5"@ == seq!['5'],
        "6"@ == seq!['6'],
        "7"@ == seq!['7'],
        "8"@ == seq!['8'],
        "1"@ != "2"@,
        "1"@ != "3"@,
        "1"@ != "4"@,
        "1"@ != "5"@,
        "1"@ != "6"@,
        "1"@ != "7"@,
        "1"@ != "8"@,
        "2"@ != "3"@,
        "2"@ != "4"@,
        "2"@ != "5"@,
        "2"@ != "6"@,
        "2"@ != "7"@,
        "2"@ != "8"@,
        "3"@ != "4"@,
        "3"@ != "5"@,
        "3"@ != "6"@,
        "3"@ != "7"@,
        "3"@ != "8"@,
        "4"@ != "5"@,
        "4"@ != "6"@,
        "4"@ != "7"@,
        "4"@ != "8"@,
        "5"@ != "6"@,
        "5"@ != "7"@,
        "5"@ != "8"@,
        "6"@ != "7"@,
        "6"@ != "8"@,
        "7"@ != "8"@,
{
    reveal_strlit("help");
    reveal_strlit("quit");
    reveal_strlit("exit");
    reveal_strlit("back");
    reveal_strlit("next");
    reveal_strlit("install");
    reveal_strlit("unmount");
    reveal_strlit("reboot");
    reveal_strlit("shutdown");
    reveal_strlit("clear");
    reveal_strlit("1");
    reveal_strlit("2");
    reveal_strlit("3");
    reveal_strlit("4");
    reveal_strlit("5");
    reveal_strlit("6");
    reveal_strlit("7");
    reveal_strlit("8");
    assert("1"@[0] != "2"@[0]);
    assert("1"@[0] != "3"@[0]);
    assert("1"@[0] != "4"@[0]);
    assert("1"@[0] != "5"@[0]);
    assert("1"@[0] != "6"@[0]);
    assert("1"@[0] != "7"@[0]);
    assert("1"@[0] != "8"@[0]);
    assert("2"@[0] != "3"@[0]);
    assert("2"@[0] != "4"@[0]);
    assert("2"@[0] != "5"@[0]);
    assert("2"@[0] != "6"@[0]);
    assert("2"@[0] != "7"@[0]);
    assert("2"@[0] != "8"@[0]);
    assert("3"@[0] != "4"@[0]);
    assert("3"@[0] != "5"@[0]);
    assert("3"@[0] != "6"@[0]);
    assert("3"@[0] != "7"@[0]);
    assert("3"@[0] != "8"@[0]);
    assert("4"@[0] != "5"@[0]);
    assert("4"@[0] != "6"@[0]);
    assert("4"@[0] != "7"@[0]);
    assert("4"@[0] != "8"@[0]);
    assert("5"@[0] != "6"@[0]);
    assert("5"@[0] != "7"@[0]);
    assert("5"@[0] != "8"@[0]);
    assert("6"@[0] != "7"@[0]);
    assert("6"@[0] != "8"@[0]);
    assert("7"@[0] != "8"@[0]);
}

// ---------------------------------------------------------------------------
// Welcome

pub open spec fn welcome_reply(input: Seq<char>) -> ReplyModel {
    if input == "help"@ {
        ReplyModel::Say("This is a line-based installer. Type `next` to move forward. If internet is unavailable, `next` opens Wi-Fi setup."@)
    } else if is_quit(input) {
        ReplyModel::Leave
    } else if input == "back"@ {
        ReplyModel::Say("Already at the first step."@)
    } else if input == "next"@ {
        ReplyModel::Ask(Request::CheckRoot)
    } else {
        ReplyModel::Say("Unknown command: "@ + input)
    }
}

// ---------------------------------------------------------------------------
// Wi-Fi setup

pub open spec fn wifi_reply(input: Seq<char>) -> ReplyModel {
    if input == "help"@ {
        ReplyModel::Say("Connect to Wi-Fi here. Once internet is connected, type `next` to continue to install options."@)
    } else if is_quit(input) || input == "back"@ {
        ReplyModel::Leave
    } else if input == "next"@ {
        ReplyModel::Ask(Request::CheckNetworkToContinue)
    } else if input == "2"@ {
        ReplyModel::Ask(Request::CheckNetwork)
    } else if input == "1"@ {
        ReplyModel::Open(Menu::WifiConnect)
    } else {
        ReplyModel::Say("Unknown input: "@ + input)
    }
}

// ---------------------------------------------------------------------------
// Install options

pub open spec fn options_reply(w: Wizard, input: Seq<char>) -> ReplyModel {
    if input == "help"@ {
        ReplyModel::Say("Set your desktop environment and kernel. These choices affect which packages are installed."@)
    } else if is_quit(input) || input == "back"@ {
        ReplyModel::Leave
    } else if input == "next"@ {
        if w.state.desktop_env is None { ReplyModel::Say("ERROR: Select a desktop environment."@) } else { ReplyModel::Leave }
    } else if input == "1"@ {
        ReplyModel::Open(Menu::DesktopEnv)
    } else if input == "2"@ {
        ReplyModel::Open(Menu::Kernel)
    } else if input == "3"@ || input == "4"@ {
        ReplyModel::Again
    } else {
        ReplyModel::Say("Unknown input: "@ + input)
    }
}

pub open spec fn options_after(w: Wizard, input: Seq<char>) -> Wizard {
    if is_quit(input) {
        Wizard { done: true, ..w }
    } else if input == "back"@ {
        Wizard { step: Step::Welcome, ..w }
    } else if input == "next"@ && w.state.desktop_env is Some {
        Wizard { step: Step::DiskSelection, ..w }
    } else if input == "3"@ {
        Wizard { state: crate::cli::wizard::WizardState { nvidia: !w.state.nvidia, ..w.state }, ..w }
    } else if input == "4"@ {
        Wizard {
            state: crate::cli::wizard::WizardState {
                removable_media: !w.state.removable_media,
                storage: crate::installer::storage_plan::StorageSelection {
                    removable_media: !w.state.removable_media,
                    ..w.state.storage
                },
                ..w.state
            },
            ..w
        }
    } else {
        w
    }
}

// ---------------------------------------------------------------------------
// Regional settings

pub open spec fn regional_reply(input: Seq<char>) -> ReplyModel {
    if input == "help"@ {
        ReplyModel::Say("These settings control mirrors, timezone, locale, and console keymap."@)
    } else if is_quit(input) || input == "back"@ || input == "next"@ {
        ReplyModel::Leave
    } else if input == "1"@ {
        ReplyModel::Open(Menu::MirrorRegion)
    } else if input == "2"@ {
        ReplyModel::Open(Menu::Timezone)
    } else if input == "3"@ {
        ReplyModel::Open(Menu::Locale)
    } else if input == "4"@ {
        ReplyModel::Open(Menu::Keymap)
    } else {
        ReplyModel::Say("Unknown input: "@ + input)
    }
}

pub open spec fn regional_after(w: Wizard, input: Seq<char>) -> Wizard {
    if is_quit(input) {
        Wizard { done: true, ..w }
    } else if input == "back"@ {
        Wizard { step: Step::DiskSetup, ..w }
    } else if input == "next"@ {
        Wizard { step: Step::UserSettings, ..w }
    } else {
        w
    }
}

// ---------------------------------------------------------------------------
// User settings

pub open spec fn settings_reply(w: Wizard, input: Seq<char>) -> ReplyModel {
    if input == "help"@ {
        ReplyModel::Say("A user account will be created with sudo access (wheel)."@)
    } else if is_quit(input) || input == "back"@ {
        ReplyModel::Leave
    } else if input == "next"@ {
        if trim(w.state.hostname@).len() == 0 {
            ReplyModel::Say("ERROR: Hostname is required."@)
        } else if trim(w.state.username@).len() == 0 {
            ReplyModel::Say("ERROR: Username is required."@)
        } else if w.state.password@.len() == 0 {
            ReplyModel::Say("ERROR: Password is required."@)
        } else {
            ReplyModel::Leave
        }
    } else if input == "1"@ {
        ReplyModel::Open(Menu::Hostname)
    } else if input == "2"@ {
        ReplyModel::Open(Menu::Username)
    } else if input == "3"@ {
        ReplyModel::Open(Menu::Password)
    } else {
        ReplyModel::Say("Unknown input: "@ + input)
    }
}

pub open spec fn settings_after(w: Wizard, input: Seq<char>) -> Wizard {
    if is_quit(input) {
        Wizard { done: true, ..w }
    } else if input == "back"@ {
        Wizard { step: Step::Regional, ..w }
    } else if input == "next"@ && settings_reply(w, input) is Leave {
        Wizard { step: Step::Review, ..w }
    } else {
        w
    }
}

// ---------------------------------------------------------------------------
// Review

pub open spec fn review_reply(input: Seq<char>) -> ReplyModel {
    if input == "help"@ {
        ReplyModel::Say("`install` starts the installation. `back` returns to the previous screen."@)
    } else if input == "back"@ || is_quit(input) || input == "install"@ {
        ReplyModel::Leave
    } else if input == "next"@ {
        ReplyModel::Say("Type `install` to start, not `next`."@)
    } else {
        ReplyModel::Say("Unknown input: "@ + input)
    }
}

pub open spec fn review_after(w: Wizard, input: Seq<char>) -> Wizard {
    if input == "help"@ {
        w
    } else if input == "back"@ {
        Wizard { step: Step::UserSettings, ..w }
    } else if is_quit(input) {
        Wizard { done: true, ..w }
    } else if input == "install"@ {
        Wizard { step: if w.dry_run { Step::Complete } else { Step::Install }, ..w }
    } else {
        w
    }
}

// ---------------------------------------------------------------------------
// Complete

pub open spec fn complete_reply(input: Seq<char>) -> ReplyModel {
    if input == "help"@ {
        ReplyModel::Say("Use `unmount` if you want to safely remove the install media; then `reboot` or `shutdown`."@)
    } else if is_quit(input) {
        ReplyModel::Leave
    } else if input == "unmount"@ {
        ReplyModel::Ask(Request::Unmount)
    } else if input == "reboot"@ {
        ReplyModel::Ask(Request::Reboot)
    } else if input == "shutdown"@ {
        ReplyModel::Ask(Request::Shutdown)
    } else if input == "back"@ {
        ReplyModel::Say("No previous step after completion."@)
    } else if input == "next"@ {
        ReplyModel::Say("No next step after completion."@)
    } else {
        ReplyModel::Say("Unknown input: "@ + input)
    }
}

impl Wizard {
    /// A command on the welcome screen. `next` first asks whether the
    /// installer runs as root.
    pub fn welcome_input(&mut self, input: &str) -> (r: Reply)
        ensures
            r@ == welcome_reply(input@),
            *final(self) == if is_quit(input@) { Wizard { done: true, ..*old(self) } } else { *old(self) },
    {
        proof { lemma_command_words(); }
        if str_eq(input, "help") {
            say("This is a line-based installer. Type `next` to move forward. If internet is unavailable, `next` opens Wi-Fi setup.")
        } else if quit_word(input) {
            self.quit()
        } else if str_eq(input, "back") {
            say("Already at the first step.")
        } else if str_eq(input, "next") {
            Reply::Ask(Request::CheckRoot)
        } else {
            unknown("Unknown command: ", input)
        }
    }

    /// `next` on the welcome screen, once the root check is done: not as
    /// root, it is refused; as root, the network is checked next.
    pub fn welcome_root_checked(&self, is_root: bool) -> (r: Reply)
        ensures
            r@ == if is_root { ReplyModel::Ask(Request::CheckNetworkToContinue) } else {
                ReplyModel::Say("ERROR: You must run this installer as root."@)
            },
    {
        if !is_root {
            say("ERROR: You must run this installer as root.")
        } else {
            Reply::Ask(Request::CheckNetworkToContinue)
        }
    }

    /// The answer to `CheckNetworkToContinue`: on the welcome screen it
    /// leads on to the install options or to Wi-Fi setup, on the Wi-Fi
    /// screen it goes on only when online; elsewhere it is only recorded.
    pub fn continue_if_online(&mut self, connected: bool) -> (r: Reply)
        ensures
            old(self).step == Step::Welcome ==> r is Leave && *final(self) == (Wizard {
                network_status: if connected { NetworkStatus::Connected } else { NetworkStatus::NotConnected },
                step: if connected { Step::InstallOptions } else { Step::WiFiSetup },
                ..*old(self)
            }),
            old(self).step == Step::WiFiSetup && connected ==> r is Leave && *final(self) == (Wizard {
                network_status: NetworkStatus::Connected,
                step: Step::InstallOptions,
                ..*old(self)
            }),
            old(self).step == Step::WiFiSetup && !connected ==> r@ == ReplyModel::Say("ERROR: Internet is still not connected."@)
                && *final(self) == (Wizard { network_status: NetworkStatus::NotConnected, ..*old(self) }),
            old(self).step != Step::Welcome && old(self).step != Step::WiFiSetup ==> r is Again && *final(self) == (Wizard {
                network_status: if connected { NetworkStatus::Connected } else { NetworkStatus::NotConnected },
                ..*old(self)
            }),
    {
        match self.step {
            Step::Welcome => self.welcome_network_checked(connected),
            Step::WiFiSetup => self.wifi_next_checked(connected),
            _ => {
                self.set_network_status(connected);
                Reply::Again
            },
        }
    }

    /// `next` on the welcome screen, once the network is checked: online,
    /// on to the install options; offline, to Wi-Fi setup.
    pub fn welcome_network_checked(&mut self, connected: bool) -> (r: Reply)
        ensures
            r is Leave,
            *final(self) == (Wizard {
                network_status: if connected { NetworkStatus::Connected } else { NetworkStatus::NotConnected },
                step: if connected { Step::InstallOptions } else { Step::WiFiSetup },
                ..*old(self)
            }),
    {
        self.set_network_status(connected);
        self.go(if connected { Step::InstallOptions } else { Step::WiFiSetup })
    }

    /// A command on the Wi-Fi screen. `next` and `2` check the network;
    /// `1` opens the network list.
    pub fn wifi_input(&mut self, input: &str) -> (r: Reply)
        ensures
            r@ == wifi_reply(input@),
            *final(self) == if is_quit(input@) { Wizard { done: true, ..*old(self) } }
                else if input@ == "back"@ && !(input@ == "help"@) { Wizard { step: Step::Welcome, ..*old(self) } }
                else { *old(self) },
    {
        proof { lemma_command_words(); }
        if str_eq(input, "help") {
            say("Connect to Wi-Fi here. Once internet is connected, type `next` to continue to install options.")
        } else if quit_word(input) {
            self.quit()
        } else if str_eq(input, "back") {
            self.go(Step::Welcome)
        } else if str_eq(input, "next") {
            Reply::Ask(Request::CheckNetworkToContinue)
        } else if str_eq(input, "2") {
            Reply::Ask(Request::CheckNetwork)
        } else if str_eq(input, "1") {
            Reply::Open(Menu::WifiConnect)
        } else {
            unknown("Unknown input: ", input)
        }
    }

    /// `next` on the Wi-Fi screen, once the network is checked: it goes on
    /// only when the machine is online.
    pub fn wifi_next_checked(&mut self, connected: bool) -> (r: Reply)
        ensures
            connected ==> r is Leave && *final(self) == (Wizard {
                network_status: NetworkStatus::Connected,
                step: Step::InstallOptions,
                ..*old(self)
            }),
            !connected ==> r@ == ReplyModel::Say("ERROR: Internet is still not connected."@)
                && *final(self) == (Wizard { network_status: NetworkStatus::NotConnected, ..*old(self) }),
    {
        self.set_network_status(connected);
        if !connected {
            return say("ERROR: Internet is still not connected.");
        }
        self.go(Step::InstallOptions)
    }

    /// A command on the install options screen: `3` and `4` flip the Nvidia
    /// and removable media choices; `next` needs a desktop.
    #[verifier::rlimit(40)]
    pub fn options_input(&mut self, input: &str) -> (r: Reply)
        ensures
            r@ == options_reply(*old(self), input@),
            *final(self) == options_after(*old(self), input@),
    {
        proof { lemma_command_words(); }
        let ghost w0 = *self;
        if str_eq(input, "help") {
            assert(options_after(w0, input@) == w0);
            say("Set your desktop environment and kernel. These choices affect which packages are installed.")
        } else if quit_word(input) {
            self.quit()
        } else if str_eq(input, "back") {
            self.go(Step::Welcome)
        } else if str_eq(input, "next") {
            if self.state.desktop_env.is_none() {
                assert(options_after(w0, input@) == w0);
                return say("ERROR: Select a desktop environment.");
            }
            self.go(Step::DiskSelection)
        } else if str_eq(input, "1") {
            assert(options_after(w0, input@) == w0);
            Reply::Open(Menu::DesktopEnv)
        } else if str_eq(input, "2") {
            assert(options_after(w0, input@) == w0);
            Reply::Open(Menu::Kernel)
        } else if str_eq(input, "3") {
            self.toggle_nvidia();
            Reply::Again
        } else if str_eq(input, "4") {
            self.toggle_removable_media();
            Reply::Again
        } else {
            unknown("Unknown input: ", input)
        }
    }

    fn toggle_nvidia(&mut self)
        ensures
            *final(self) == (Wizard {
                state: crate::cli::wizard::WizardState { nvidia: !old(self).state.nvidia, ..old(self).state },
                ..*old(self)
            }),
    {
        self.state.nvidia = !self.state.nvidia;
    }

    fn toggle_removable_media(&mut self)
        ensures
            *final(self) == (Wizard {
                state: crate::cli::wizard::WizardState {
                    removable_media: !old(self).state.removable_media,
                    storage: crate::installer::storage_plan::StorageSelection {
                        removable_media: !old(self).state.removable_media,
                        ..old(self).state.storage
                    },
                    ..old(self).state
                },
                ..*old(self)
            }),
    {
        let flipped = !self.state.removable_media;
        self.state.removable_media = flipped;
        self.state.storage.removable_media = flipped;
    }

    /// A command on the regional settings screen.
    pub fn regional_input(&mut self, input: &str) -> (r: Reply)
        ensures
            r@ == regional_reply(input@),
            *final(self) == regional_after(*old(self), input@),
    {
        proof { lemma_command_words(); }
        if str_eq(input, "help") {
            say("These settings control mirrors, timezone, locale, and console keymap.")
        } else if quit_word(input) {
            self.quit()
        } else if str_eq(input, "back") {
            self.go(Step::DiskSetup)
        } else if str_eq(input, "next") {
            self.go(Step::UserSettings)
        } else if str_eq(input, "1") {
            Reply::Open(Menu::MirrorRegion)
        } else if str_eq(input, "2") {
            Reply::Open(Menu::Timezone)
        } else if str_eq(input, "3") {
            Reply::Open(Menu::Locale)
        } else if str_eq(input, "4") {
            Reply::Open(Menu::Keymap)
        } else {
            unknown("Unknown input: ", input)
        }
    }

    /// A command on the user settings screen: `next` needs a hostname, a
    /// username and a password.
    pub fn settings_input(&mut self, input: &str) -> (r: Reply)
        ensures
            r@ == settings_reply(*old(self), input@),
            *final(self) == settings_after(*old(self), input@),
    {
        proof { lemma_command_words(); }
        if str_eq(input, "help") {
            say("A user account will be created with sudo access (wheel).")
        } else if quit_word(input) {
            self.quit()
        } else if str_eq(input, "back") {
            self.go(Step::Regional)
        } else if str_eq(input, "next") {
            if crate::text::is_blank(self.state.hostname.as_str()) {
                proof { crate::text::lemma_blank_trims_empty(self.state.hostname@); }
                return say("ERROR: Hostname is required.");
            }
            proof { crate::text::lemma_blank_trims_empty(self.state.hostname@); }
            if crate::text::is_blank(self.state.username.as_str()) {
                proof { crate::text::lemma_blank_trims_empty(self.state.username@); }
                return say("ERROR: Username is required.");
            }
            proof { crate::text::lemma_blank_trims_empty(self.state.username@); }
            if self.state.password.as_str().unicode_len() == 0 {
                return say("ERROR: Password is required.");
            }
            self.go(Step::Review)
        } else if str_eq(input, "1") {
            Reply::Open(Menu::Hostname)
        } else if str_eq(input, "2") {
            Reply::Open(Menu::Username)
        } else if str_eq(input, "3") {
            Reply::Open(Menu::Password)
        } else {
            unknown("Unknown input: ", input)
        }
    }

    /// A command on the review screen: `install` starts the installation,
    /// or, in a dry run, goes straight to the end.
    pub fn review_input(&mut self, input: &str) -> (r: Reply)
        ensures
            r@ == review_reply(input@),
            *final(self) == review_after(*old(self), input@),
    {
        proof { lemma_command_words(); }
        if str_eq(input, "help") {
            say("`install` starts the installation. `back` returns to the previous screen.")
        } else if str_eq(input, "back") {
            self.go(Step::UserSettings)
        } else if quit_word(input) {
            self.quit()
        } else if str_eq(input, "install") {
            if self.dry_run {
                self.go(Step::Complete)
            } else {
                self.go(Step::Install)
            }
        } else if str_eq(input, "next") {
            say("Type `install` to start, not `next`.")
        } else {
            unknown("Unknown input: ", input)
        }
    }

    /// A command on the completion screen.
    pub fn complete_input(&mut self, input: &str) -> (r: Reply)
        ensures
            r@ == complete_reply(input@),
            *final(self) == if is_quit(input@) && input@ != "help"@ { Wizard { done: true, ..*old(self) } } else { *old(self) },
    {
        proof { lemma_command_words(); }
        if str_eq(input, "help") {
            say("Use `unmount` if you want to safely remove the install media; then `reboot` or `shutdown`.")
        } else if quit_word(input) {
            self.quit()
        } else if str_eq(input, "unmount") {
            Reply::Ask(Request::Unmount)
        } else if str_eq(input, "reboot") {
            Reply::Ask(Request::Reboot)
        } else if str_eq(input, "shutdown") {
            Reply::Ask(Request::Shutdown)
        } else if str_eq(input, "back") {
            say("No previous step after completion.")
        } else if str_eq(input, "next") {
            say("No next step after completion.")
        } else {
            unknown("Unknown input: ", input)
        }
    }

    /// After `unmount`: the line to print.
    pub fn unmount_done(&self, result: &Result<(), String>) -> (r: String)
        ensures
            match result {
                Ok(()) => r@ == "Unmounted /mnt targets."@,
                Err(e) => r@ == "ERROR: "@ + e@,
            },
    {
        match result {
            Ok(()) => owned("Unmounted /mnt targets."),
            Err(e) => owned("ERROR: ").concat(e.as_str()),
        }
    }

    /// After `reboot` or `shutdown`: the wizard ends once the command went
    /// through; otherwise it reports the error and stays.
    pub fn power_done(&mut self, result: &Result<(), String>) -> (r: Reply)
        ensures
            match result {
                Ok(()) => r is Leave && *final(self) == (Wizard { done: true, ..*old(self) }),
                Err(e) => r@ == ReplyModel::Say("ERROR: "@ + e@) && *final(self) == *old(self),
            },
    {
        match result {
            Ok(()) => self.quit(),
            Err(e) => Reply::Say(owned("ERROR: ").concat(e.as_str())),
        }
    }
}

} // verus!
verus! {

/// The screen before `step` in the wizard's order (the first screen has
/// none before it and gives itself).
pub open spec fn previous_step(step: Step) -> Step {
    match step {
        Step::Welcome => Step::Welcome,
        Step::WiFiSetup => Step::Welcome,
        Step::InstallOptions => Step::Welcome,
        Step::DiskSelection => Step::InstallOptions,
        Step::DiskSetup => Step::DiskSelection,
        Step::Regional => Step::DiskSetup,
        Step::UserSettings => Step::Regional,
        Step::Review => Step::UserSettings,
        Step::Install => Step::Review,
        Step::Complete => Step::Complete,
    }
}

/// A dry run never reaches the install screen from the review: `install`
/// leads straight to the completion screen, and no command on the review
/// screen turns the dry run off.
pub proof fn law_dry_run_never_installs(w: Wizard, input: Seq<char>)
    requires
        w.dry_run,
        w.step == Step::Review,
    ensures
        review_after(w, input).dry_run,
        review_after(w, input).step != Step::Install,
        input == "install"@ ==> review_after(w, input).step == Step::Complete,
{
    lemma_command_words();
}

/// `back` on the screens that take it leads to the screen before them.
pub proof fn law_back_goes_to_previous_screen(w: Wizard)
    ensures
        options_after(w, "back"@).step == previous_step(Step::InstallOptions),
        regional_after(w, "back"@).step == previous_step(Step::Regional),
        settings_after(w, "back"@).step == previous_step(Step::UserSettings),
        review_after(w, "back"@).step == previous_step(Step::Review),
{
    lemma_command_words();
}

/// `quit` (or `exit`) ends the wizard from these screens and changes
/// nothing else.
pub proof fn law_quit_only_ends(w: Wizard, input: Seq<char>)
    requires
        is_quit(input),
    ensures
        options_after(w, input) == (Wizard { done: true, ..w }),
        regional_after(w, input) == (Wizard { done: true, ..w }),
        settings_after(w, input) == (Wizard { done: true, ..w }),
        review_after(w, input) == (Wizard { done: true, ..w }),
{
    lemma_command_words();
}

} // verus!
