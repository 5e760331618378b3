use crate::installer::config_engine::{DesktopEnv, KernelVariant};
use crate::installer::disk_manager::gib;
use crate::installer::storage_plan::{HomeLocation, HomeMode, ManualCreatePartition, ResolvedInstallLayout, SetupMode, StorageSelection, SwapMode};
use crate::system::{get_suggested_swap_gb, suggested_swap_spec};
use crate::text::{owned, seq_join, trim, views, join};
use vstd::prelude::*;

verus! {

/// The screens of the line-based installer, in the order it walks them.
#[derive(Clone, Copy, Debug, PartialEq, Eq, Structural)]
pub enum Step {
    Welcome,
    WiFiSetup,
    InstallOptions,
    DiskSelection,
    DiskSetup,
    Regional,
    UserSettings,
    Review,
    Install,
    Complete,
}

#[derive(Clone, Copy, Debug, PartialEq, Eq, Structural)]
pub enum NetworkStatus {
    Checking,
    Connected,
    NotConnected,
}

/// What the user has chosen so far. The manual partitions to create and to
/// delete are kept beside the storage selection until the install.
pub struct WizardState {
    pub desktop_env: Option<DesktopEnv>,
    pub kernel: KernelVariant,
    pub nvidia: bool,
    pub removable_media: bool,
    pub mirror_region: String,
    pub timezone: String,
    pub locale: String,
    pub keymap: String,
    pub hostname: String,
    pub username: String,
    pub password: String,
    pub storage: StorageSelection,
    pub manual_create_actions: Vec<ManualCreatePartition>,
    pub manual_delete_partitions: Vec<String>,
}

/// The line-based installer: the screen it is on and what it has gathered.
/// Its methods decide what each command does; the program around it reads
/// the commands, prints, and carries out the requests it makes.
pub struct Wizard {
    pub dry_run: bool,
    pub step: Step,
    pub state: WizardState,
    pub cached_layout: Option<ResolvedInstallLayout>,
    pub cached_disk_gib: Option<u64>,
    pub network_status: NetworkStatus,
    pub cleared_screen: bool,
    pub done: bool,
}

/// A sub-menu or prompt a screen opens.
#[derive(Clone, Copy, Debug, PartialEq, Eq, Structural)]
pub enum Menu {
    WifiConnect,
    DesktopEnv,
    Kernel,
    SetupMode,
    RootFs,
    SwapMode,
    SwapSize,
    HomeMode,
    HomeLocation,
    HomeDisk,
    ManualPartitions,
    ManualCreate,
    ManualDelete,
    ManualAssign,
    ManualFormatFlags,
    MirrorRegion,
    Timezone,
    Locale,
    Keymap,
    Hostname,
    Username,
    Password,
}

/// Outside work the wizard needs done before it can go on.
#[derive(Clone, Copy, Debug, PartialEq, Eq, Structural)]
pub enum Request {
    /// Is the installer running as root?
    CheckRoot,
    /// Is the machine online? (The answer is only recorded.)
    CheckNetwork,
    /// Is the machine online? The wizard goes on if it is.
    CheckNetworkToContinue,
    Unmount,
    Reboot,
    Shutdown,
}

/// What a command leads to.
#[derive(Debug, PartialEq, Eq)]
pub enum Reply {
    /// Read the next command where we are.
    Again,
    /// Print this line, then read the next command where we are.
    Say(String),
    /// This screen or menu is finished.
    Leave,
    /// Open this menu or prompt.
    Open(Menu),
    /// Carry out this request and report its result.
    Ask(Request),
    /// The wizard stops with this error.
    Fail(String),
}

// ---------------------------------------------------------------------------
// Starting out

/// How the wizard starts, with `swap_gb` as the suggested swap size.
pub open spec fn initial_wizard(w: &Wizard, dry_run: bool, swap_gb: u64) -> bool {
    let s = w.state;
    let st = s.storage;
    &&& w.dry_run == dry_run
    &&& w.step == Step::Welcome
    &&& w.cached_layout is None
    &&& w.cached_disk_gib is None
    &&& w.network_status == NetworkStatus::Checking
    &&& !w.cleared_screen
    &&& !w.done
    &&& s.desktop_env is None
    &&& s.kernel == KernelVariant::Standard
    &&& !s.nvidia
    &&& !s.removable_media
    &&& s.mirror_region@ == "Worldwide"@
    &&& s.timezone@ == "America/Chicago"@
    &&& s.locale@ == "en_US.UTF-8"@
    &&& s.keymap@ == "us"@
    &&& s.hostname@.len() == 0
    &&& s.username@.len() == 0
    &&& s.password@.len() == 0
    &&& s.manual_create_actions@.len() == 0
    &&& s.manual_delete_partitions@.len() == 0
    &&& st.install_disk@.len() == 0
    &&& st.setup_mode == SetupMode::Automatic
    &&& st.fs_type@ == "xfs"@
    &&& st.swap_mode == SwapMode::Partition
    &&& st.swap_size_gib == swap_gb
    &&& st.swap_file_size_mb == Some((swap_gb * 1024) as u64)
    &&& st.home_mode == HomeMode::OnRoot
    &&& st.home_location == HomeLocation::SameDisk
    &&& st.home_disk is None
    &&& st.manual_efi_partition is None
    &&& st.manual_root_partition is None
    &&& st.manual_home_partition is None
    &&& st.manual_swap_partition is None
    &&& st.format_efi && st.format_root && st.format_home && st.format_swap
    &&& !st.removable_media
}

proof fn lemma_suggested_swap_fits(total: u64)
    ensures
        suggested_swap_spec(total) * 1024 <= u64::MAX,
{
    let g = gib(total as nat);
    assert(g <= 0x3_ffff_ffff) by (nonlinear_arith)
        requires
            g == (total as nat) / (1024 * 1024 * 1024),
            total <= 0xffff_ffff_ffff_ffff,
    ;
}

impl Wizard {
    /// A wizard at the welcome screen with `swap_gb` as the suggested swap
    /// size (a swap file defaults to the same size).
    pub fn with_suggested_swap(dry_run: bool, swap_gb: u64) -> (r: Wizard)
        requires
            swap_gb * 1024 <= u64::MAX,
        ensures
            initial_wizard(&r, dry_run, swap_gb),
    {
        Wizard {
            dry_run,
            step: Step::Welcome,
            state: WizardState {
                desktop_env: None,
                kernel: KernelVariant::Standard,
                nvidia: false,
                removable_media: false,
                mirror_region: owned("Worldwide"),
                timezone: owned("America/Chicago"),
                locale: owned("en_US.UTF-8"),
                keymap: owned("us"),
                hostname: String::new(),
                username: String::new(),
                password: String::new(),
                storage: StorageSelection {
                    install_disk: String::new(),
                    setup_mode: SetupMode::Automatic,
                    fs_type: owned("xfs"),
                    swap_mode: SwapMode::Partition,
                    swap_size_gib: swap_gb,
                    swap_file_size_mb: Some(swap_gb * 1024),
                    home_mode: HomeMode::OnRoot,
                    home_location: HomeLocation::SameDisk,
                    home_disk: None,
                    manual_efi_partition: None,
                    manual_root_partition: None,
                    manual_home_partition: None,
                    manual_swap_partition: None,
                    format_efi: true,
                    format_root: true,
                    format_home: true,
                    format_swap: true,
                    removable_media: false,
                },
                manual_create_actions: Vec::new(),
                manual_delete_partitions: Vec::new(),
            },
            cached_layout: None,
            cached_disk_gib: None,
            network_status: NetworkStatus::Checking,
            cleared_screen: false,
            done: false,
        }
    }

    /// A wizard at the welcome screen, with this machine's suggested swap
    /// size.
    pub fn new(dry_run: bool) -> (r: Wizard)
        ensures
            exists|total: u64| initial_wizard(&r, dry_run, suggested_swap_spec(total) as u64),
    {
        let swap = get_suggested_swap_gb();
        proof {
            let total = choose|total: u64| swap as nat == suggested_swap_spec(total);
            lemma_suggested_swap_fits(total);
        }
        Wizard::with_suggested_swap(dry_run, swap)
    }

    /// The screen is cleared the first time the welcome screen is drawn:
    /// whether to clear it now.
    pub fn clear_screen_once(&mut self) -> (r: bool)
        ensures
            r == !old(self).cleared_screen,
            *final(self) == (Wizard { cleared_screen: true, ..*old(self) }),
    {
        let r = !self.cleared_screen;
        self.cleared_screen = true;
        r
    }

    /// Records the result of a connectivity check.
    pub fn set_network_status(&mut self, connected: bool)
        ensures
            *final(self) == (Wizard {
                network_status: if connected { NetworkStatus::Connected } else { NetworkStatus::NotConnected },
                ..*old(self)
            }),
    {
        self.network_status = if connected { NetworkStatus::Connected } else { NetworkStatus::NotConnected };
    }

    pub fn network_status_label(&self) -> (r: &'static str)
        ensures
            r@ == match self.network_status {
                NetworkStatus::Checking => "checking..."@,
                NetworkStatus::Connected => "connected"@,
                NetworkStatus::NotConnected => "not connected"@,
            },
    {
        match self.network_status {
            NetworkStatus::Checking => "checking...",
            NetworkStatus::Connected => "connected",
            NetworkStatus::NotConnected => "not connected",
        }
    }

    pub(crate) fn quit(&mut self) -> (r: Reply)
        ensures
            r is Leave,
            *final(self) == (Wizard { done: true, ..*old(self) }),
    {
        self.done = true;
        Reply::Leave
    }

    pub(crate) fn go(&mut self, step: Step) -> (r: Reply)
        ensures
            r is Leave,
            *final(self) == (Wizard { step: step, ..*old(self) }),
    {
        self.step = step;
        Reply::Leave
    }
}

// ---------------------------------------------------------------------------
// Labels

pub open spec fn yes_no_spec(value: bool) -> Seq<char> {
    if value { "Yes"@ } else { "No"@ }
}

pub fn yes_no(value: bool) -> (r: &'static str)
    ensures
        r@ == yes_no_spec(value),
{
    if value { "Yes" } else { "No" }
}

pub open spec fn empty_as_spec(value: Seq<char>, fallback: Seq<char>) -> Seq<char> {
    if trim(value).len() == 0 { fallback } else { value }
}

/// `value`, or `fallback` when it is blank.
pub fn empty_as(value: &str, fallback: &str) -> (r: String)
    ensures
        r@ == empty_as_spec(value@, fallback@),
{
    if crate::text::is_blank(value) {
        proof {
            crate::text::lemma_blank_trims_empty(value@);
        }
        owned(fallback)
    } else {
        proof {
            crate::text::lemma_blank_trims_empty(value@);
        }
        owned(value)
    }
}

pub open spec fn desktop_env_label_spec(value: Option<DesktopEnv>) -> Seq<char> {
    match value {
        Some(env) => env.label_spec(),
        None => "(not selected)"@,
    }
}

pub fn desktop_env_label(value: Option<DesktopEnv>) -> (r: &'static str)
    ensures
        r@ == desktop_env_label_spec(value),
{
    match value {
        Some(env) => env.label(),
        None => "(not selected)",
    }
}

pub open spec fn join_or_none_spec(values: Seq<Seq<char>>) -> Seq<char> {
    if values.len() == 0 { "(none)"@ } else { seq_join(values, ", "@) }
}

/// The values separated by commas, or `(none)`.
pub fn join_or_none(values: &Vec<String>) -> (r: String)
    ensures
        r@ == join_or_none_spec(views(values@)),
{
    if values.len() == 0 {
        owned("(none)")
    } else {
        join(values, ", ")
    }
}

} // verus!
