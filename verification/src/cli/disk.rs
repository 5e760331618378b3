use crate::cli::screens::{is_quit, lemma_command_words, ReplyModel};
use crate::cli::wizard::{Menu, Reply, Step, Wizard, WizardState};
use crate::installer::disk_manager::{bytes_to_gib, gib, human_gib_label, BlockDevice};
use crate::installer::storage_plan::{resolve_layout, resolve_layout_spec, HomeLocation, HomeMode, SetupMode, StorageSelection, SwapMode};
use crate::text::{decimal, owned, parse_unsigned, parse_unsigned_exec, str_eq, trim, trimmed, u64_to_string, views};
use vstd::prelude::*;

verus! {

// ---------------------------------------------------------------------------
// Disk selection

/// A problem with the drive listing that the disk selection screen cannot
/// go past: a failed listing (only `back` and `quit` are taken then), or no
/// drive at all, which ends the wizard.
pub fn disk_listing_problem(listed: &Result<Vec<BlockDevice>, String>) -> (r: Option<Reply>)
    ensures
        match listed {
            Err(e) => r is Some && r->Some_0@ == ReplyModel::Say("ERROR: Failed to read internal drives: "@ + e@
                + "\nType `back` to return or `quit` to exit."@),
            Ok(v) => if v@.len() == 0 {
                r is Some && r->Some_0@ == ReplyModel::Fail("No internal disks detected. Add a disk and retry."@)
            } else {
                r is None
            },
        },
{
    match listed {
        Err(e) => Some(Reply::Say(owned("ERROR: Failed to read internal drives: ").concat(e.as_str())
            .concat("\nType `back` to return or `quit` to exit."))),
        Ok(v) => if v.len() == 0 {
            Some(Reply::Fail(owned("No internal disks detected. Add a disk and retry.")))
        } else {
            None
        },
    }
}

pub open spec fn disk_row_spec(index: nat, d: BlockDevice) -> Seq<char> {
    let model = match d.model { Some(m) => m@, None => "Unknown model"@ };
    let transport = match d.tran { Some(t) => t@, None => "internal"@ };
    decimal(index + 1) + ") /dev/"@ + d.name@ + " | "@ + decimal(gib(d.size_bytes as nat)) + " GiB"@ + " | "@
        + trim(model) + " | "@ + transport
}

/// The line that lists drive number `index + 1`.
pub fn disk_row(index: usize, device: &BlockDevice) -> (r: String)
    requires
        index < usize::MAX,
    ensures
        r@ == disk_row_spec(index as nat, *device),
{
    let model = match &device.model {
        Some(m) => trimmed(m.as_str()),
        None => trimmed("Unknown model"),
    };
    let transport = match &device.tran {
        Some(t) => t.clone(),
        None => owned("internal"),
    };
    u64_to_string((index + 1) as u64).concat(") /dev/").concat(device.name.as_str()).concat(" | ")
        .concat(human_gib_label(device.size_bytes).as_str()).concat(" | ").concat(model.as_str()).concat(" | ")
        .concat(transport.as_str())
}

impl Wizard {
    /// The disk currently chosen, or `(none)`.
    pub fn selected_disk_label(&self) -> (r: String)
        ensures
            r@ == if self.state.storage.install_disk@.len() == 0 { "(none)"@ } else { self.state.storage.install_disk@ },
    {
        if self.state.storage.install_disk.as_str().unicode_len() == 0 {
            owned("(none)")
        } else {
            self.state.storage.install_disk.clone()
        }
    }

    /// A command after the drives could not be listed.
    pub fn disk_error_input(&mut self, input: &str) -> (r: Reply)
        ensures
            input@ == "back"@ ==> r is Leave && *final(self) == (Wizard { step: Step::InstallOptions, ..*old(self) }),
            input@ != "back"@ && is_quit(input@) ==> r is Leave && *final(self) == (Wizard { done: true, ..*old(self) }),
            input@ != "back"@ && !is_quit(input@) ==> r@ == ReplyModel::Say("Type `back` or `quit`."@) && *final(self) == *old(self),
    {
        if str_eq(input, "back") {
            self.go(Step::InstallOptions)
        } else if str_eq(input, "quit") || str_eq(input, "exit") {
            self.quit()
        } else {
            Reply::Say(owned("Type `back` or `quit`."))
        }
    }

    fn pick_install_disk(&mut self, device: &BlockDevice)
        ensures
            final(self).state.storage.install_disk@ == "/dev/"@ + device.name@,
            *final(self) == (Wizard {
                state: WizardState {
                    storage: StorageSelection {
                        install_disk: final(self).state.storage.install_disk,
                        ..old(self).state.storage
                    },
                    ..old(self).state
                },
                cached_disk_gib: Some(gib(device.size_bytes as nat) as u64),
                cached_layout: None,
                ..*old(self)
            }),
    {
        self.state.storage.install_disk = owned("/dev/").concat(device.name.as_str());
        self.cached_disk_gib = Some(bytes_to_gib(device.size_bytes));
        self.cached_layout = None;
    }

    /// A command on the disk selection screen, which lists `devices`: a
    /// number picks that drive (and drops any layout resolved before).
    #[verifier::rlimit(80)]
    pub fn disk_selection_input(&mut self, input: &str, devices: &Vec<BlockDevice>) -> (r: Reply)
        ensures
            ({
                let i = input@;
                let w = *old(self);
                if i == "help"@ {
                    r@ == ReplyModel::Say("Pick the internal disk where Access OS will be installed."@) && *final(self) == w
                } else if is_quit(i) {
                    r is Leave && *final(self) == (Wizard { done: true, ..w })
                } else if i == "back"@ {
                    r is Leave && *final(self) == (Wizard { step: Step::InstallOptions, ..w })
                } else if i == "next"@ {
                    if w.state.storage.install_disk@.len() == 0 {
                        r@ == ReplyModel::Say("ERROR: Select a disk."@) && *final(self) == w
                    } else {
                        r is Leave && *final(self) == (Wizard { step: Step::DiskSetup, ..w })
                    }
                } else {
                    match parse_unsigned(i, usize::MAX as nat) {
                        None => r@ == ReplyModel::Say("Unknown input: "@ + i) && *final(self) == w,
                        Some(k) => if k == 0 || k > devices@.len() {
                            r@ == ReplyModel::Say("ERROR: Invalid selection."@) && *final(self) == w
                        } else {
                            let d = devices@[k - 1];
                            &&& r is Again
                            &&& final(self).state.storage.install_disk@ == "/dev/"@ + d.name@
                            &&& *final(self) == (Wizard {
                                state: WizardState {
                                    storage: StorageSelection {
                                        install_disk: final(self).state.storage.install_disk,
                                        ..w.state.storage
                                    },
                                    ..w.state
                                },
                                cached_disk_gib: Some(gib(d.size_bytes as nat) as u64),
                                cached_layout: None,
                                ..w
                            })
                        },
                    }
                }
            }),
    {
        proof { lemma_command_words(); }
        if str_eq(input, "help") {
            return Reply::Say(owned("Pick the internal disk where Access OS will be installed."));
        }
        if str_eq(input, "quit") || str_eq(input, "exit") {
            return self.quit();
        }
        if str_eq(input, "back") {
            return self.go(Step::InstallOptions);
        }
        if str_eq(input, "next") {
            if self.state.storage.install_disk.as_str().unicode_len() == 0 {
                return Reply::Say(owned("ERROR: Select a disk."));
            }
            return self.go(Step::DiskSetup);
        }
        match parse_unsigned_exec(input, usize::MAX as u64) {
            None => Reply::Say(owned("Unknown input: ").concat(input)),
            Some(k) => {
                if k == 0 || k > devices.len() as u64 {
                    return Reply::Say(owned("ERROR: Invalid selection."));
                }
                self.pick_install_disk(&devices[(k - 1) as usize]);
                Reply::Again
            },
        }
    }
}

// ---------------------------------------------------------------------------
// Disk setup

pub open spec fn setup_mode_name(m: SetupMode) -> Seq<char> {
    match m { SetupMode::Automatic => "Automatic"@, SetupMode::Manual => "Manual"@ }
}

pub open spec fn swap_mode_name(m: SwapMode) -> Seq<char> {
    match m { SwapMode::Partition => "Partition"@, SwapMode::File => "File"@ }
}

pub open spec fn home_mode_name(m: HomeMode) -> Seq<char> {
    match m { HomeMode::OnRoot => "OnRoot"@, HomeMode::Separate => "Separate"@ }
}

pub fn setup_mode_name_exec(m: SetupMode) -> (r: &'static str)
    ensures
        r@ == setup_mode_name(m),
{
    match m { SetupMode::Automatic => "Automatic", SetupMode::Manual => "Manual" }
}

fn swap_mode_name_exec(m: SwapMode) -> (r: &'static str)
    ensures
        r@ == swap_mode_name(m),
{
    match m { SwapMode::Partition => "Partition", SwapMode::File => "File" }
}

fn home_mode_name_exec(m: HomeMode) -> (r: &'static str)
    ensures
        r@ == home_mode_name(m),
{
    match m { HomeMode::OnRoot => "OnRoot", HomeMode::Separate => "Separate" }
}

pub open spec fn home_location_label_spec(s: StorageSelection) -> Seq<char> {
    if s.home_mode != HomeMode::Separate {
        "n/a"@
    } else {
        match s.home_location { HomeLocation::SameDisk => "same disk"@, HomeLocation::OtherDisk => "other disk"@ }
    }
}

pub open spec fn wrapping_mul_1024(x: u64) -> u64 {
    ((x * 1024) % 0x1_0000_0000_0000_0000) as u64
}

pub open spec fn disk_setup_lines(s: StorageSelection) -> Seq<Seq<char>> {
    seq![
        "1) Setup mode: "@ + setup_mode_name(s.setup_mode),
        "2) Root filesystem: "@ + s.fs_type@,
        "3) Swap mode: "@ + swap_mode_name(s.swap_mode),
        match s.swap_mode {
            SwapMode::Partition => "4) Swap size (GiB): "@ + decimal(s.swap_size_gib as nat),
            SwapMode::File => "4) Swap file size (MB): "@ + decimal((match s.swap_file_size_mb {
                Some(v) => v,
                None => wrapping_mul_1024(s.swap_size_gib),
            }) as nat),
        },
        "5) Home mode: "@ + home_mode_name(s.home_mode),
        "6) Home location: "@ + home_location_label_spec(s),
        "7) Home disk: "@ + (if s.home_mode == HomeMode::Separate && s.home_location == HomeLocation::OtherDisk {
            match s.home_disk { Some(d) => d@, None => "(not selected)"@ }
        } else {
            "n/a"@
        }),
        "8) Manual partition manager: "@ + (if s.setup_mode == SetupMode::Manual { "open"@ } else { "n/a"@ }),
    ]
}

impl Wizard {
    /// Where `/home` goes, as the disk setup screen says it.
    pub fn home_location_label(&self) -> (r: &'static str)
        ensures
            r@ == home_location_label_spec(self.state.storage),
    {
        if !matches!(self.state.storage.home_mode, HomeMode::Separate) {
            "n/a"
        } else {
            match self.state.storage.home_location {
                HomeLocation::SameDisk => "same disk",
                HomeLocation::OtherDisk => "other disk",
            }
        }
    }

    /// The eight lines of the disk setup screen.
    pub fn disk_setup_menu(&self) -> (r: Vec<String>)
        ensures
            views(r@) == disk_setup_lines(self.state.storage),
    {
        let s = &self.state.storage;
        let mut r: Vec<String> = Vec::new();
        r.push(owned("1) Setup mode: ").concat(setup_mode_name_exec(s.setup_mode)));
        r.push(owned("2) Root filesystem: ").concat(s.fs_type.as_str()));
        r.push(owned("3) Swap mode: ").concat(swap_mode_name_exec(s.swap_mode)));
        let swap_line = match s.swap_mode {
            SwapMode::Partition => owned("4) Swap size (GiB): ").concat(u64_to_string(s.swap_size_gib).as_str()),
            SwapMode::File => {
                let mb = match s.swap_file_size_mb {
                    Some(v) => v,
                    None => s.swap_size_gib.wrapping_mul(1024),
                };
                owned("4) Swap file size (MB): ").concat(u64_to_string(mb).as_str())
            },
        };
        r.push(swap_line);
        r.push(owned("5) Home mode: ").concat(home_mode_name_exec(s.home_mode)));
        r.push(owned("6) Home location: ").concat(self.home_location_label()));
        let home_disk = if matches!(s.home_mode, HomeMode::Separate) && matches!(s.home_location, HomeLocation::OtherDisk) {
            match &s.home_disk {
                Some(d) => d.clone(),
                None => owned("(not selected)"),
            }
        } else {
            owned("n/a")
        };
        r.push(owned("7) Home disk: ").concat(home_disk.as_str()));
        let manual = if matches!(s.setup_mode, SetupMode::Manual) { "open" } else { "n/a" };
        r.push(owned("8) Manual partition manager: ").concat(manual));
        assert(views(r@) =~= disk_setup_lines(self.state.storage));
        r
    }

    /// A command on the disk setup screen: `next` resolves the layout and
    /// keeps it, or reports why it does not resolve.
    pub fn disk_setup_input(&mut self, input: &str) -> (r: Reply)
        ensures
            ({
                let i = input@;
                let w = *old(self);
                if i == "help"@ {
                    r@ == ReplyModel::Say("Configure automatic or manual partitioning. `next` validates the setup and computes the destructive plan."@)
                        && *final(self) == w
                } else if is_quit(i) {
                    r is Leave && *final(self) == (Wizard { done: true, ..w })
                } else if i == "back"@ {
                    r is Leave && *final(self) == (Wizard { step: Step::DiskSelection, ..w })
                } else if i == "next"@ {
                    match resolve_layout_spec(w.state.storage) {
                        Err(e) => r@ == ReplyModel::Say("ERROR: "@ + e) && *final(self) == w,
                        Ok(l) => r is Leave && final(self).cached_layout is Some && final(self).cached_layout.unwrap()@ == l
                            && *final(self) == (Wizard { step: Step::Regional, cached_layout: final(self).cached_layout, ..w }),
                    }
                } else {
                    &&& *final(self) == w
                    &&& r@ == (if i == "1"@ { ReplyModel::Open(Menu::SetupMode) }
                        else if i == "2"@ { ReplyModel::Open(Menu::RootFs) }
                        else if i == "3"@ { ReplyModel::Open(Menu::SwapMode) }
                        else if i == "4"@ { ReplyModel::Open(Menu::SwapSize) }
                        else if i == "5"@ { ReplyModel::Open(Menu::HomeMode) }
                        else if i == "6"@ {
                            if w.state.storage.home_mode != HomeMode::Separate { ReplyModel::Say("Home is not set to separate."@) }
                            else { ReplyModel::Open(Menu::HomeLocation) }
                        } else if i == "7"@ {
                            if w.state.storage.home_mode == HomeMode::Separate && w.state.storage.home_location == HomeLocation::OtherDisk {
                                ReplyModel::Open(Menu::HomeDisk)
                            } else {
                                ReplyModel::Say("Home disk selection is only used for a separate /home on another disk."@)
                            }
                        } else if i == "8"@ {
                            if w.state.storage.setup_mode == SetupMode::Manual { ReplyModel::Open(Menu::ManualPartitions) }
                            else { ReplyModel::Say("Manual partition manager is only available in manual setup mode."@) }
                        } else {
                            ReplyModel::Say("Unknown input: "@ + i)
                        })
                }
            }),
    {
        proof { lemma_command_words(); }
        if str_eq(input, "help") {
            return Reply::Say(owned("Configure automatic or manual partitioning. `next` validates the setup and computes the destructive plan."));
        }
        if str_eq(input, "quit") || str_eq(input, "exit") {
            return self.quit();
        }
        if str_eq(input, "back") {
            return self.go(Step::DiskSelection);
        }
        if str_eq(input, "next") {
            return match resolve_layout(&self.state.storage) {
                Err(e) => Reply::Say(owned("ERROR: ").concat(e.as_str())),
                Ok(layout) => {
                    self.cached_layout = Some(layout);
                    self.go(Step::Regional)
                },
            };
        }
        if str_eq(input, "1") {
            Reply::Open(Menu::SetupMode)
        } else if str_eq(input, "2") {
            Reply::Open(Menu::RootFs)
        } else if str_eq(input, "3") {
            Reply::Open(Menu::SwapMode)
        } else if str_eq(input, "4") {
            Reply::Open(Menu::SwapSize)
        } else if str_eq(input, "5") {
            Reply::Open(Menu::HomeMode)
        } else if str_eq(input, "6") {
            self.open_home_location()
        } else if str_eq(input, "7") {
            self.open_home_disk()
        } else if str_eq(input, "8") {
            if matches!(self.state.storage.setup_mode, SetupMode::Manual) {
                Reply::Open(Menu::ManualPartitions)
            } else {
                Reply::Say(owned("Manual partition manager is only available in manual setup mode."))
            }
        } else {
            Reply::Say(owned("Unknown input: ").concat(input))
        }
    }
}

} // verus!
