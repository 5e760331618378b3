use crate::cli::manual::{with_storage, creates_without_role};
use crate::cli::screens::{ReplyModel};
use crate::cli::wizard::{Menu, Reply, Wizard, WizardState};
use crate::installer::config_engine::{all_desktops, all_kernels, DesktopEnv, KernelVariant};
use crate::installer::disk_manager::BlockDevice;
use crate::installer::storage_plan::{HomeLocation, HomeMode, ManualPartitionRole, SetupMode, StorageSelection, SwapMode};
use crate::text::{owned, parse_unsigned, parse_unsigned_exec, str_eq, views, words};
use vstd::prelude::*;

verus! {

/// A choice typed in a numbered list.
#[derive(Clone, Copy, Debug, PartialEq, Eq, Structural)]
pub enum ListChoice {
    Back,
    /// The entry at this index (from 0).
    Chosen(usize),
    /// Not a number.
    NotANumber,
    /// A number that names no entry.
    OutOfRange,
}

pub open spec fn list_choice_spec(input: Seq<char>, count: nat) -> ListChoice {
    if input == "back"@ {
        ListChoice::Back
    } else {
        match parse_unsigned(input, usize::MAX as nat) {
            None => ListChoice::NotANumber,
            Some(k) => if k == 0 || k > count { ListChoice::OutOfRange } else { ListChoice::Chosen((k - 1) as usize) },
        }
    }
}

/// Reads a choice among `count` numbered entries (numbered from 1).
pub fn list_choice(input: &str, count: usize) -> (r: ListChoice)
    ensures
        r == list_choice_spec(input@, count as nat),
{
    if str_eq(input, "back") {
        return ListChoice::Back;
    }
    match parse_unsigned_exec(input, usize::MAX as u64) {
        None => ListChoice::NotANumber,
        Some(k) => if k == 0 || k > count as u64 { ListChoice::OutOfRange } else { ListChoice::Chosen((k - 1) as usize) },
    }
}

/// A choice between two numbered options.
#[derive(Clone, Copy, Debug, PartialEq, Eq, Structural)]
pub enum TwoWay {
    Back,
    First,
    Second,
    Invalid,
}

pub open spec fn two_way_spec(input: Seq<char>) -> TwoWay {
    if input == "back"@ { TwoWay::Back } else if input == "1"@ { TwoWay::First }
    else if input == "2"@ { TwoWay::Second } else { TwoWay::Invalid }
}

pub fn two_way(input: &str) -> (r: TwoWay)
    ensures
        r == two_way_spec(input@),
{
    if str_eq(input, "back") {
        TwoWay::Back
    } else if str_eq(input, "1") {
        TwoWay::First
    } else if str_eq(input, "2") {
        TwoWay::Second
    } else {
        TwoWay::Invalid
    }
}

/// The desktops that can be installed, in the order they are listed.
pub open spec fn available_desktops_spec() -> Seq<DesktopEnv> {
    seq![DesktopEnv::Gnome, DesktopEnv::Kde, DesktopEnv::Server]
}

pub fn available_desktops() -> (r: Vec<DesktopEnv>)
    ensures
        r@ == available_desktops_spec(),
        r@ == all_desktops().filter(|d: DesktopEnv| d != DesktopEnv::Niri),
{
    let all = DesktopEnv::all();
    let mut r: Vec<DesktopEnv> = Vec::new();
    let n = all.len();
    let mut i: usize = 0;
    let ghost pred = |d: DesktopEnv| d != DesktopEnv::Niri;
    while i < n
        invariant
            n == all@.len(),
            all@ == all_desktops(),
            i <= n,
            pred == (|d: DesktopEnv| d != DesktopEnv::Niri),
            r@ == all@.take(i as int).filter(pred),
        decreases n - i,
    {
        proof {
            assert(all@.take(i + 1) =~= all@.take(i as int).push(all@[i as int]));
            crate::text::lemma_filter_push(all@.take(i as int), pred, all@[i as int]);
        }
        if all[i].is_available() {
            r.push(all[i]);
        }
        i = i + 1;
    }
    proof {
        assert(all@.take(n as int) =~= all@);
        let s = all_desktops();
        assert(s.take(0).filter(pred) =~= Seq::<DesktopEnv>::empty());
        crate::text::lemma_filter_push(s.take(0), pred, s[0]);
        assert(s.take(1) =~= s.take(0).push(s[0]));
        crate::text::lemma_filter_push(s.take(1), pred, s[1]);
        assert(s.take(2) =~= s.take(1).push(s[1]));
        crate::text::lemma_filter_push(s.take(2), pred, s[2]);
        assert(s.take(3) =~= s.take(2).push(s[2]));
        crate::text::lemma_filter_push(s.take(3), pred, s[3]);
        assert(s.take(4) =~= s.take(3).push(s[3]));
        assert(s.take(4) =~= s);
        assert(r@ =~= available_desktops_spec());
    }
    r
}

pub open spec fn choose_from_list_reply(choice: ListChoice) -> ReplyModel {
    match choice {
        ListChoice::Back => ReplyModel::Leave,
        ListChoice::Chosen(_) => ReplyModel::Leave,
        ListChoice::NotANumber => ReplyModel::Say("Invalid input."@),
        ListChoice::OutOfRange => ReplyModel::Say("Invalid selection."@),
    }
}

/// The reply of a numbered list that says "Invalid selection." for any
/// entry it cannot take.
pub open spec fn pick_reply(choice: ListChoice) -> ReplyModel {
    match choice {
        ListChoice::Back => ReplyModel::Leave,
        ListChoice::Chosen(_) => ReplyModel::Leave,
        _ => ReplyModel::Say("Invalid selection."@),
    }
}

fn reply_for(choice: ListChoice, strict: bool) -> (r: Reply)
    ensures
        strict ==> r@ == choose_from_list_reply(choice),
        !strict ==> r@ == pick_reply(choice),
{
    match choice {
        ListChoice::Back => Reply::Leave,
        ListChoice::Chosen(_) => Reply::Leave,
        ListChoice::NotANumber => if strict { Reply::Say(owned("Invalid input.")) } else { Reply::Say(owned("Invalid selection.")) },
        ListChoice::OutOfRange => Reply::Say(owned("Invalid selection.")),
    }
}

pub open spec fn with_state(w: Wizard, s: WizardState) -> Wizard {
    Wizard { state: s, ..w }
}

impl Wizard {
    /// A line typed in the desktop list, which offers the desktops that can
    /// be installed.
    pub fn choose_desktop_env(&mut self, input: &str) -> (r: Reply)
        ensures
            r@ == choose_from_list_reply(list_choice_spec(input@, 3)),
            *final(self) == match list_choice_spec(input@, 3) {
                ListChoice::Chosen(i) => with_state(*old(self), WizardState {
                    desktop_env: Some(available_desktops_spec()[i as int]),
                    ..old(self).state
                }),
                _ => *old(self),
            },
    {
        let available = available_desktops();
        let choice = list_choice(input, available.len());
        if let ListChoice::Chosen(i) = choice {
            self.state.desktop_env = Some(available[i]);
        }
        reply_for(choice, true)
    }

    /// A line typed in the kernel list.
    pub fn choose_kernel(&mut self, input: &str) -> (r: Reply)
        ensures
            r@ == choose_from_list_reply(list_choice_spec(input@, 4)),
            *final(self) == match list_choice_spec(input@, 4) {
                ListChoice::Chosen(i) => with_state(*old(self), WizardState { kernel: all_kernels()[i as int], ..old(self).state }),
                _ => *old(self),
            },
    {
        let all = KernelVariant::all();
        let choice = list_choice(input, all.len());
        if let ListChoice::Chosen(i) = choice {
            self.state.kernel = all[i];
        }
        reply_for(choice, true)
    }

    /// `1` automatic, `2` manual.
    pub fn choose_setup_mode(&mut self, input: &str) -> (r: Reply)
        ensures
            two_way_spec(input@) == TwoWay::Invalid ==> r@ == ReplyModel::Say("Invalid input."@) && *final(self) == *old(self),
            two_way_spec(input@) == TwoWay::Back ==> r is Leave && *final(self) == *old(self),
            two_way_spec(input@) == TwoWay::First ==> r is Leave && *final(self) == with_storage(*old(self),
                StorageSelection { setup_mode: SetupMode::Automatic, ..old(self).state.storage }),
            two_way_spec(input@) == TwoWay::Second ==> r is Leave && *final(self) == with_storage(*old(self),
                StorageSelection { setup_mode: SetupMode::Manual, ..old(self).state.storage }),
    {
        match two_way(input) {
            TwoWay::Back => Reply::Leave,
            TwoWay::First => {
                self.state.storage.setup_mode = SetupMode::Automatic;
                Reply::Leave
            },
            TwoWay::Second => {
                self.state.storage.setup_mode = SetupMode::Manual;
                Reply::Leave
            },
            TwoWay::Invalid => Reply::Say(owned("Invalid input.")),
        }
    }

    /// `1` XFS, `2` ext4.
    pub fn choose_root_fs(&mut self, input: &str) -> (r: Reply)
        ensures
            two_way_spec(input@) == TwoWay::Invalid ==> r@ == ReplyModel::Say("Invalid input."@) && *final(self) == *old(self),
            two_way_spec(input@) == TwoWay::Back ==> r is Leave && *final(self) == *old(self),
            two_way_spec(input@) == TwoWay::First ==> r is Leave && final(self).state.storage.fs_type@ == "xfs"@
                && *final(self) == with_storage(*old(self),
                    StorageSelection { fs_type: final(self).state.storage.fs_type, ..old(self).state.storage }),
            two_way_spec(input@) == TwoWay::Second ==> r is Leave && final(self).state.storage.fs_type@ == "ext4"@
                && *final(self) == with_storage(*old(self),
                    StorageSelection { fs_type: final(self).state.storage.fs_type, ..old(self).state.storage }),
    {
        match two_way(input) {
            TwoWay::Back => Reply::Leave,
            TwoWay::First => {
                self.state.storage.fs_type = owned("xfs");
                Reply::Leave
            },
            TwoWay::Second => {
                self.state.storage.fs_type = owned("ext4");
                Reply::Leave
            },
            TwoWay::Invalid => Reply::Say(owned("Invalid input.")),
        }
    }

    /// `1` swap partition, `2` swap file; choosing the file forgets the
    /// manual swap partition.
    pub fn choose_swap_mode(&mut self, input: &str) -> (r: Reply)
        ensures
            two_way_spec(input@) == TwoWay::Invalid ==> r@ == ReplyModel::Say("Invalid input."@) && *final(self) == *old(self),
            two_way_spec(input@) == TwoWay::Back ==> r is Leave && *final(self) == *old(self),
            two_way_spec(input@) == TwoWay::First ==> r is Leave && *final(self) == with_storage(*old(self),
                StorageSelection { swap_mode: SwapMode::Partition, ..old(self).state.storage }),
            two_way_spec(input@) == TwoWay::Second ==> r is Leave
                && final(self).state.manual_create_actions@ == creates_without_role(old(self).state.manual_create_actions@, ManualPartitionRole::Swap)
                && *final(self) == (Wizard {
                    state: WizardState {
                        manual_create_actions: final(self).state.manual_create_actions,
                        storage: StorageSelection { swap_mode: SwapMode::File, manual_swap_partition: None, ..old(self).state.storage },
                        ..old(self).state
                    },
                    ..*old(self)
                }),
    {
        match two_way(input) {
            TwoWay::Back => Reply::Leave,
            TwoWay::First => {
                self.state.storage.swap_mode = SwapMode::Partition;
                Reply::Leave
            },
            TwoWay::Second => {
                self.state.storage.swap_mode = SwapMode::File;
                self.clear_manual_role_state(ManualPartitionRole::Swap);
                Reply::Leave
            },
            TwoWay::Invalid => Reply::Say(owned("Invalid input.")),
        }
    }

    /// The prompt for the swap size, which depends on the swap mode.
    pub fn swap_size_prompt(&self) -> (r: &'static str)
        ensures
            r@ == match self.state.storage.swap_mode {
                SwapMode::Partition => "Enter swap size in GiB: "@,
                SwapMode::File => "Enter swap file size in MB: "@,
            },
    {
        match self.state.storage.swap_mode {
            SwapMode::Partition => "Enter swap size in GiB: ",
            SwapMode::File => "Enter swap file size in MB: ",
        }
    }

    /// The swap size typed at the prompt: a positive number of GiB for a
    /// swap partition (the swap file size follows it, in MB), or at least
    /// 512 MB for a swap file. Anything else is refused with the line to
    /// print.
    pub fn set_swap_size(&mut self, input: &str) -> (r: Reply)
        ensures
            ({
                let n: nat = match parse_unsigned(input@, u64::MAX as nat) { Some(v) => v, None => 0 };
                match old(self).state.storage.swap_mode {
                    SwapMode::Partition => if n == 0 {
                        r@ == ReplyModel::Say("ERROR: swap size must be > 0."@) && *final(self) == *old(self)
                    } else {
                        r is Leave && *final(self) == with_storage(*old(self), StorageSelection {
                            swap_size_gib: n as u64,
                            swap_file_size_mb: Some(((n * 1024) % 0x1_0000_0000_0000_0000) as u64),
                            ..old(self).state.storage
                        })
                    },
                    SwapMode::File => if n < 512 {
                        r@ == ReplyModel::Say("ERROR: swap file size must be at least 512 MB."@) && *final(self) == *old(self)
                    } else {
                        r is Leave && *final(self) == with_storage(*old(self), StorageSelection {
                            swap_file_size_mb: Some(n as u64),
                            ..old(self).state.storage
                        })
                    },
                }
            }),
    {
        let n = match parse_unsigned_exec(input, u64::MAX) {
            Some(v) => v,
            None => 0,
        };
        match self.state.storage.swap_mode {
            SwapMode::Partition => {
                if n == 0 {
                    return Reply::Say(owned("ERROR: swap size must be > 0."));
                }
                self.state.storage.swap_size_gib = n;
                let mb = n.wrapping_mul(1024);
                assert(mb == ((n * 1024) % 0x1_0000_0000_0000_0000) as u64);
                self.state.storage.swap_file_size_mb = Some(mb);
                Reply::Leave
            },
            SwapMode::File => {
                if n < 512 {
                    return Reply::Say(owned("ERROR: swap file size must be at least 512 MB."));
                }
                self.state.storage.swap_file_size_mb = Some(n);
                Reply::Leave
            },
        }
    }

    fn home_on_root(&mut self)
        ensures
            final(self).state.manual_create_actions@ == creates_without_role(old(self).state.manual_create_actions@, ManualPartitionRole::Home),
            *final(self) == (Wizard {
                state: WizardState {
                    manual_create_actions: final(self).state.manual_create_actions,
                    storage: StorageSelection {
                        home_mode: HomeMode::OnRoot,
                        home_location: HomeLocation::SameDisk,
                        home_disk: None,
                        manual_home_partition: None,
                        ..old(self).state.storage
                    },
                    ..old(self).state
                },
                ..*old(self)
            }),
    {
        self.state.storage.home_mode = HomeMode::OnRoot;
        self.state.storage.home_location = HomeLocation::SameDisk;
        self.state.storage.home_disk = None;
        self.clear_manual_role_state(ManualPartitionRole::Home);
    }

    /// `1` puts `/home` on root (forgetting any separate home settings and
    /// the manual home partition); `2` makes it separate, on the same disk.
    pub fn choose_home_mode(&mut self, input: &str) -> (r: Reply)
        ensures
            two_way_spec(input@) == TwoWay::Invalid ==> r@ == ReplyModel::Say("Invalid input."@) && *final(self) == *old(self),
            two_way_spec(input@) == TwoWay::Back ==> r is Leave && *final(self) == *old(self),
            two_way_spec(input@) == TwoWay::First ==> r is Leave
                && final(self).state.manual_create_actions@ == creates_without_role(old(self).state.manual_create_actions@, ManualPartitionRole::Home)
                && *final(self) == (Wizard {
                    state: WizardState {
                        manual_create_actions: final(self).state.manual_create_actions,
                        storage: StorageSelection {
                            home_mode: HomeMode::OnRoot,
                            home_location: HomeLocation::SameDisk,
                            home_disk: None,
                            manual_home_partition: None,
                            ..old(self).state.storage
                        },
                        ..old(self).state
                    },
                    ..*old(self)
                }),
            two_way_spec(input@) == TwoWay::Second ==> r is Leave && *final(self) == with_storage(*old(self),
                StorageSelection { home_mode: HomeMode::Separate, home_location: HomeLocation::SameDisk, ..old(self).state.storage }),
    {
        match two_way(input) {
            TwoWay::Back => Reply::Leave,
            TwoWay::First => {
                self.home_on_root();
                Reply::Leave
            },
            TwoWay::Second => {
                self.state.storage.home_mode = HomeMode::Separate;
                self.state.storage.home_location = HomeLocation::SameDisk;
                Reply::Leave
            },
            TwoWay::Invalid => Reply::Say(owned("Invalid input.")),
        }
    }

    /// `6` on the disk setup screen: the home location menu, for a separate
    /// `/home` only.
    pub fn open_home_location(&self) -> (r: Reply)
        ensures
            self.state.storage.home_mode != HomeMode::Separate ==> r@ == ReplyModel::Say("Home is not set to separate."@),
            self.state.storage.home_mode == HomeMode::Separate ==> r@ == ReplyModel::Open(Menu::HomeLocation),
    {
        if !matches!(self.state.storage.home_mode, HomeMode::Separate) {
            Reply::Say(owned("Home is not set to separate."))
        } else {
            Reply::Open(Menu::HomeLocation)
        }
    }

    /// `1` keeps `/home` on the install disk; `2` puts it on another disk,
    /// which is chosen next.
    pub fn choose_home_location(&mut self, input: &str) -> (r: Reply)
        ensures
            two_way_spec(input@) == TwoWay::Invalid ==> r@ == ReplyModel::Say("Invalid input."@) && *final(self) == *old(self),
            two_way_spec(input@) == TwoWay::Back ==> r is Leave && *final(self) == *old(self),
            two_way_spec(input@) == TwoWay::First ==> r is Leave && *final(self) == with_storage(*old(self),
                StorageSelection { home_location: HomeLocation::SameDisk, home_disk: None, ..old(self).state.storage }),
            two_way_spec(input@) == TwoWay::Second ==> r@ == ReplyModel::Open(Menu::HomeDisk) && *final(self) == with_storage(*old(self),
                StorageSelection { home_location: HomeLocation::OtherDisk, ..old(self).state.storage }),
    {
        match two_way(input) {
            TwoWay::Back => Reply::Leave,
            TwoWay::First => {
                self.state.storage.home_location = HomeLocation::SameDisk;
                self.state.storage.home_disk = None;
                Reply::Leave
            },
            TwoWay::Second => {
                self.state.storage.home_location = HomeLocation::OtherDisk;
                Reply::Open(Menu::HomeDisk)
            },
            TwoWay::Invalid => Reply::Say(owned("Invalid input.")),
        }
    }

    /// `7` on the disk setup screen: the home disk list, for `/home` on
    /// another disk only.
    pub fn open_home_disk(&self) -> (r: Reply)
        ensures
            (self.state.storage.home_mode == HomeMode::Separate && self.state.storage.home_location == HomeLocation::OtherDisk)
                ==> r@ == ReplyModel::Open(Menu::HomeDisk),
            !(self.state.storage.home_mode == HomeMode::Separate && self.state.storage.home_location == HomeLocation::OtherDisk)
                ==> r@ == ReplyModel::Say("Home disk selection is only used for a separate /home on another disk."@),
    {
        if matches!(self.state.storage.home_mode, HomeMode::Separate)
            && matches!(self.state.storage.home_location, HomeLocation::OtherDisk) {
            Reply::Open(Menu::HomeDisk)
        } else {
            Reply::Say(owned("Home disk selection is only used for a separate /home on another disk."))
        }
    }

    /// The disks offered for `/home`, from listing the internal drives:
    /// every one but the install disk. Failing to list them ends the wizard;
    /// an empty list is reported.
    pub fn home_disk_choices(&self, listed: Result<Vec<BlockDevice>, String>) -> (r: Result<Vec<String>, Reply>)
        ensures
            match listed {
                Err(e) => r is Err && r->Err_0@ == ReplyModel::Fail("Failed to list internal drives: "@ + e@),
                Ok(devices) => {
                    let paths = devices@.map_values(|d: BlockDevice| "/dev/"@ + d.name@)
                        .filter(|p: Seq<char>| p != self.state.storage.install_disk@);
                    if paths.len() == 0 {
                        r is Err && r->Err_0@ == ReplyModel::Say("No second internal disk is available for /home."@)
                    } else {
                        r is Ok && views(r->Ok_0@) == paths
                    }
                },
            },
    {
        let devices = match listed {
            Err(e) => return Err(Reply::Fail(owned("Failed to list internal drives: ").concat(e.as_str()))),
            Ok(d) => d,
        };
        let ghost mapped = devices@.map_values(|d: BlockDevice| "/dev/"@ + d.name@);
        let ghost pred = |p: Seq<char>| p != self.state.storage.install_disk@;
        let mut out: Vec<String> = Vec::new();
        let n = devices.len();
        let mut i: usize = 0;
        while i < n
            invariant
                n == devices@.len(),
                i <= n,
                mapped == devices@.map_values(|d: BlockDevice| "/dev/"@ + d.name@),
                pred == (|p: Seq<char>| p != self.state.storage.install_disk@),
                views(out@) == mapped.take(i as int).filter(pred),
            decreases n - i,
        {
            proof {
                assert(mapped.take(i + 1) =~= mapped.take(i as int).push(mapped[i as int]));
                crate::text::lemma_filter_push(mapped.take(i as int), pred, mapped[i as int]);
            }
            let path = owned("/dev/").concat(devices[i].name.as_str());
            if !str_eq(path.as_str(), self.state.storage.install_disk.as_str()) {
                let ghost prev = out@;
                out.push(path);
                assert(views(out@) =~= views(prev).push(mapped[i as int]));
            }
            i = i + 1;
        }
        assert(mapped.take(n as int) =~= mapped);
        if out.len() == 0 {
            return Err(Reply::Say(owned("No second internal disk is available for /home.")));
        }
        Ok(out)
    }

    /// A line typed in the home disk list.
    pub fn choose_home_disk(&mut self, input: &str, choices: &Vec<String>) -> (r: Reply)
        ensures
            r@ == pick_reply(list_choice_spec(input@, choices@.len())),
            match list_choice_spec(input@, choices@.len()) {
                ListChoice::Chosen(i) => final(self).state.storage.home_disk is Some
                    && final(self).state.storage.home_disk.unwrap()@ == choices@[i as int]@
                    && *final(self) == with_storage(*old(self),
                        StorageSelection { home_disk: final(self).state.storage.home_disk, ..old(self).state.storage }),
                _ => *final(self) == *old(self),
            },
    {
        let choice = list_choice(input, choices.len());
        if let ListChoice::Chosen(i) = choice {
            self.state.storage.home_disk = Some(choices[i].clone());
        }
        reply_for(choice, false)
    }

    /// A line typed in one of the regional lists (mirror region, timezone,
    /// locale, keymap), which offer `items`.
    pub fn choose_regional(&mut self, menu: Menu, input: &str, items: &Vec<String>) -> (r: Reply)
        requires
            menu == Menu::MirrorRegion || menu == Menu::Timezone || menu == Menu::Locale || menu == Menu::Keymap,
        ensures
            r@ == pick_reply(list_choice_spec(input@, items@.len())),
            match list_choice_spec(input@, items@.len()) {
                ListChoice::Chosen(i) => {
                    let s = final(self).state;
                    let v = items@[i as int]@;
                    &&& menu == Menu::MirrorRegion ==> s.mirror_region@ == v
                        && *final(self) == with_state(*old(self), WizardState { mirror_region: s.mirror_region, ..old(self).state })
                    &&& menu == Menu::Timezone ==> s.timezone@ == v
                        && *final(self) == with_state(*old(self), WizardState { timezone: s.timezone, ..old(self).state })
                    &&& menu == Menu::Locale ==> s.locale@ == v
                        && *final(self) == with_state(*old(self), WizardState { locale: s.locale, ..old(self).state })
                    &&& menu == Menu::Keymap ==> s.keymap@ == v
                        && *final(self) == with_state(*old(self), WizardState { keymap: s.keymap, ..old(self).state })
                },
                _ => *final(self) == *old(self),
            },
    {
        let choice = list_choice(input, items.len());
        if let ListChoice::Chosen(i) = choice {
            let value = items[i].clone();
            match menu {
                Menu::MirrorRegion => self.state.mirror_region = value,
                Menu::Timezone => self.state.timezone = value,
                Menu::Locale => self.state.locale = value,
                _ => self.state.keymap = value,
            }
        }
        reply_for(choice, false)
    }

    /// The hostname typed: its first word, or nothing.
    pub fn set_hostname(&mut self, input: &str)
        ensures
            final(self).state.hostname@ == (if words(input@).len() > 0 { words(input@)[0] } else { Seq::empty() }),
            *final(self) == with_state(*old(self), WizardState { hostname: final(self).state.hostname, ..old(self).state }),
    {
        self.state.hostname = first_word(input);
    }

    /// The username typed (already lowercased by the prompt): its first
    /// word, or nothing.
    pub fn set_username(&mut self, input: &str)
        ensures
            final(self).state.username@ == (if words(input@).len() > 0 { words(input@)[0] } else { Seq::empty() }),
            *final(self) == with_state(*old(self), WizardState { username: final(self).state.username, ..old(self).state }),
    {
        self.state.username = first_word(input);
    }

    /// The password typed twice: it must be given and the same both times.
    pub fn set_password(&mut self, first: &str, second: &str) -> (r: Reply)
        ensures
            first@.len() == 0 ==> r@ == ReplyModel::Say("ERROR: Password cannot be empty."@) && *final(self) == *old(self),
            first@.len() > 0 && first@ != second@ ==> r@ == ReplyModel::Say("ERROR: Passwords do not match."@)
                && *final(self) == *old(self),
            first@.len() > 0 && first@ == second@ ==> r is Leave && final(self).state.password@ == first@
                && *final(self) == with_state(*old(self), WizardState { password: final(self).state.password, ..old(self).state }),
    {
        if first.unicode_len() == 0 {
            return Reply::Say(owned("ERROR: Password cannot be empty."));
        }
        if !str_eq(first, second) {
            return Reply::Say(owned("ERROR: Passwords do not match."));
        }
        self.state.password = owned(first);
        Reply::Leave
    }
}

fn first_word(input: &str) -> (r: String)
    ensures
        r@ == (if words(input@).len() > 0 { words(input@)[0] } else { Seq::empty() }),
{
    let w = crate::text::split_whitespace(input);
    if w.len() > 0 {
        assert(views(w@)[0] == w@[0]@);
        w[0].clone()
    } else {
        String::new()
    }
}

/// The network picked in the Wi-Fi list.
pub fn pick_entry(input: &str, entries: &Vec<String>) -> (r: Result<Option<String>, Reply>)
    ensures
        match list_choice_spec(input@, entries@.len()) {
            ListChoice::Back => r == Ok::<Option<String>, Reply>(None),
            ListChoice::Chosen(i) => r is Ok && r->Ok_0 is Some && r->Ok_0.unwrap()@ == entries@[i as int]@,
            _ => r is Err && r->Err_0@ == ReplyModel::Say("Invalid selection."@),
        },
{
    match list_choice(input, entries.len()) {
        ListChoice::Back => Ok(None),
        ListChoice::Chosen(i) => Ok(Some(entries[i].clone())),
        _ => Err(Reply::Say(owned("Invalid selection."))),
    }
}

/// A scan that found no network ends the Wi-Fi flow with this error.
pub fn wifi_networks_found(ssids: &Vec<String>) -> (r: Result<(), String>)
    ensures
        ssids@.len() == 0 ==> r is Err && r->Err_0@ == "No Wi-Fi networks found."@,
        ssids@.len() > 0 ==> r is Ok,
{
    if ssids.len() == 0 { Err(owned("No Wi-Fi networks found.")) } else { Ok(()) }
}

} // verus!
