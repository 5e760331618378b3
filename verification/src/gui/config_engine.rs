use crate::installer::config_engine::{
    add_new, first_index, in_first_listing_order, lemma_add_new, lemma_add_new_keeps_distinct_prefix, lemma_add_new_order, DesktopEnv, KernelVariant,
};
use crate::text::str_eq;
use vstd::prelude::*;

verus! {

/// The views of a sequence of string slices.
pub open spec fn str_views(v: Seq<&str>) -> Seq<Seq<char>> {
    v.map_values(|s: &str| s@)
}

impl DesktopEnv {
    pub open spec fn packages_spec(self) -> Seq<Seq<char>> {
        match self {
            DesktopEnv::Gnome => seq!["gnome"@, "gnome-tweaks"@, "gdm"@, "breeze-gtk"@],
            DesktopEnv::Kde => seq!["plasma-meta"@, "kde-applications-meta"@, "sddm"@],
            DesktopEnv::Server => seq!["docker"@, "docker-compose"@, "tailscale"@, "openssh"@],
            DesktopEnv::Niri => seq!["niri"@, "gdm"@],
        }
    }

    /// The packages the desktop adds to an install.
    pub fn packages(&self) -> (r: &'static [&'static str])
        ensures
            str_views(r@) == self.packages_spec(),
    {
        let r: &'static [&'static str] = match self {
            DesktopEnv::Gnome => &["gnome", "gnome-tweaks", "gdm", "breeze-gtk"],
            DesktopEnv::Kde => &["plasma-meta", "kde-applications-meta", "sddm"],
            DesktopEnv::Server => &["docker", "docker-compose", "tailscale", "openssh"],
            DesktopEnv::Niri => &["niri", "gdm"],
        };
        assert(str_views(r@) =~= self.packages_spec());
        r
    }
}

impl KernelVariant {
    pub open spec fn packages_spec(self) -> Seq<Seq<char>> {
        match self {
            KernelVariant::Standard => seq!["linux"@, "linux-headers"@],
            KernelVariant::Lts => seq!["linux-lts"@, "linux-lts-headers"@],
            KernelVariant::Zen => seq!["linux-zen"@, "linux-zen-headers"@],
            KernelVariant::Hardened => seq!["linux-hardened"@, "linux-hardened-headers"@],
        }
    }

    /// The kernel and its headers.
    pub fn packages(&self) -> (r: &'static [&'static str])
        ensures
            str_views(r@) == self.packages_spec(),
    {
        let r: &'static [&'static str] = match self {
            KernelVariant::Standard => &["linux", "linux-headers"],
            KernelVariant::Lts => &["linux-lts", "linux-lts-headers"],
            KernelVariant::Zen => &["linux-zen", "linux-zen-headers"],
            KernelVariant::Hardened => &["linux-hardened", "linux-hardened-headers"],
        };
        assert(str_views(r@) =~= self.packages_spec());
        r
    }
}

/// The packages every install gets, before the kernel's.
pub open spec fn common_packages() -> Seq<Seq<char>> {
    seq![
        "base"@,
        "dialog"@,
        "alsa-card-profiles"@,
        "alsa-firmware"@,
        "alsa-utils"@,
        "amd-ucode"@,
        "archlinux-keyring"@,
        "aspell"@,
        "aspell-en"@,
        "base-devel"@,
        "broadcom-wl-dkms"@,
        "cifs-utils"@,
        "cronie"@,
        "dnsmasq"@,
        "dosfstools"@,
        "edk2-ovmf"@,
        "efibootmgr"@,
        "espeak-ng"@,
        "espeakup"@,
        "grub"@,
        "icu"@,
        "intel-ucode"@,
        "iptables-nft"@,
        "linux-firmware"@,
        "linux-firmware-marvell"@,
        "lvm2"@,
        "man-db"@,
        "man-pages"@,
        "mkinitcpio"@,
        "mtools"@,
        "net-tools"@,
        "nano"@,
        "networkmanager"@,
        "ntfs-3g"@,
        "ntp"@,
        "openssh"@,
        "os-prober"@,
        "pacman-contrib"@,
        "python"@,
        "python-pip"@,
        "reflector"@,
        "ruby"@,
        "rust"@,
        "sof-firmware"@,
        "traceroute"@,
        "ufw"@,
        "usbutils"@,
        "util-linux"@,
        "vim"@,
        "xfsprogs"@,
        "sudo"@,
        "git"@,
        "bluez"@,
        "bluez-utils"@,
        "cups"@,
    ]
}

fn common_package_names() -> (r: &'static [&'static str])
    ensures
        str_views(r@) == common_packages(),
{
    let r: &'static [&'static str] = &[
        "base",
        "dialog",
        "alsa-card-profiles",
        "alsa-firmware",
        "alsa-utils",
        "amd-ucode",
        "archlinux-keyring",
        "aspell",
        "aspell-en",
        "base-devel",
        "broadcom-wl-dkms",
        "cifs-utils",
        "cronie",
        "dnsmasq",
        "dosfstools",
        "edk2-ovmf",
        "efibootmgr",
        "espeak-ng",
        "espeakup",
        "grub",
        "icu",
        "intel-ucode",
        "iptables-nft",
        "linux-firmware",
        "linux-firmware-marvell",
        "lvm2",
        "man-db",
        "man-pages",
        "mkinitcpio",
        "mtools",
        "net-tools",
        "nano",
        "networkmanager",
        "ntfs-3g",
        "ntp",
        "openssh",
        "os-prober",
        "pacman-contrib",
        "python",
        "python-pip",
        "reflector",
        "ruby",
        "rust",
        "sof-firmware",
        "traceroute",
        "ufw",
        "usbutils",
        "util-linux",
        "vim",
        "xfsprogs",
        "sudo",
        "git",
        "bluez",
        "bluez-utils",
        "cups",
    ];
    assert(str_views(r@) =~= common_packages());
    r
}

fn extend_from(v: &mut Vec<&'static str>, more: &'static [&'static str])
    ensures
        str_views(final(v)@) == str_views(old(v)@) + str_views(more@),
{
    let ghost start = old(v)@;
    let n = more.len();
    let mut i: usize = 0;
    while i < n
        invariant
            n == more@.len(),
            i <= n,
            v@ == start + more@.take(i as int),
        decreases n - i,
    {
        v.push(more[i]);
        assert(more@.take(i + 1) =~= more@.take(i as int).push(more@[i as int]));
        i = i + 1;
    }
    assert(more@.take(n as int) =~= more@);
    assert(str_views(v@) =~= str_views(start) + str_views(more@));
}

/// The common packages followed by the kernel's.
pub fn base_packages(kernel: &KernelVariant) -> (r: Vec<&'static str>)
    ensures
        str_views(r@) == common_packages() + kernel.packages_spec(),
{
    let mut packages: Vec<&'static str> = Vec::new();
    extend_from(&mut packages, common_package_names());
    extend_from(&mut packages, kernel.packages());
    packages
}

/// The base packages of every kernel are each listed once.
#[verifier::rlimit(100)]
pub proof fn law_base_packages_distinct(kernel: KernelVariant)
    ensures
        (common_packages() + kernel.packages_spec()).no_duplicates(),
{
    broadcast use vstd::string::group_string_axioms;
    let s = common_packages() + kernel.packages_spec();
    assert(s.no_duplicates()) by {
        reveal_strlit("base");
        reveal_strlit("dialog");
        reveal_strlit("alsa-card-profiles");
        reveal_strlit("alsa-firmware");
        reveal_strlit("alsa-utils");
        reveal_strlit("amd-ucode");
        reveal_strlit("archlinux-keyring");
        reveal_strlit("aspell");
        reveal_strlit("aspell-en");
        reveal_strlit("base-devel");
        reveal_strlit("broadcom-wl-dkms");
        reveal_strlit("cifs-utils");
        reveal_strlit("cronie");
        reveal_strlit("dnsmasq");
        reveal_strlit("dosfstools");
        reveal_strlit("edk2-ovmf");
        reveal_strlit("efibootmgr");
        reveal_strlit("espeak-ng");
        reveal_strlit("espeakup");
        reveal_strlit("grub");
        reveal_strlit("icu");
        reveal_strlit("intel-ucode");
        reveal_strlit("iptables-nft");
        reveal_strlit("linux-firmware");
        reveal_strlit("linux-firmware-marvell");
        reveal_strlit("lvm2");
        reveal_strlit("man-db");
        reveal_strlit("man-pages");
        reveal_strlit("mkinitcpio");
        reveal_strlit("mtools");
        reveal_strlit("net-tools");
        reveal_strlit("nano");
        reveal_strlit("networkmanager");
        reveal_strlit("ntfs-3g");
        reveal_strlit("ntp");
        reveal_strlit("openssh");
        reveal_strlit("os-prober");
        reveal_strlit("pacman-contrib");
        reveal_strlit("python");
        reveal_strlit("python-pip");
        reveal_strlit("reflector");
        reveal_strlit("ruby");
        reveal_strlit("rust");
        reveal_strlit("sof-firmware");
        reveal_strlit("traceroute");
        reveal_strlit("ufw");
        reveal_strlit("usbutils");
        reveal_strlit("util-linux");
        reveal_strlit("vim");
        reveal_strlit("xfsprogs");
        reveal_strlit("sudo");
        reveal_strlit("git");
        reveal_strlit("bluez");
        reveal_strlit("bluez-utils");
        reveal_strlit("cups");
        reveal_strlit("linux");
        reveal_strlit("linux-headers");
        reveal_strlit("linux-lts");
        reveal_strlit("linux-lts-headers");
        reveal_strlit("linux-zen");
        reveal_strlit("linux-zen-headers");
        reveal_strlit("linux-hardened");
        reveal_strlit("linux-hardened-headers");
        assert("base"@.len() == 4 && "base"@[0] == 'b' && "base"@[2] == 's');
        assert("dialog"@.len() == 6 && "dialog"@[0] == 'd' && "dialog"@[2] == 'a');
        assert("alsa-card-profiles"@.len() == 18 && "alsa-card-profiles"@[0] == 'a' && "alsa-card-profiles"@[2] == 's' && "alsa-card-profiles"@[6] == 'a');
        assert("alsa-firmware"@.len() == 13 && "alsa-firmware"@[0] == 'a' && "alsa-firmware"@[2] == 's' && "alsa-firmware"@[6] == 'i');
        assert("alsa-utils"@.len() == 10 && "alsa-utils"@[0] == 'a' && "alsa-utils"@[2] == 's' && "alsa-utils"@[6] == 't');
        assert("amd-ucode"@.len() == 9 && "amd-ucode"@[0] == 'a' && "amd-ucode"@[2] == 'd' && "amd-ucode"@[6] == 'o');
        assert("archlinux-keyring"@.len() == 17 && "archlinux-keyring"@[0] == 'a' && "archlinux-keyring"@[2] == 'c' && "archlinux-keyring"@[6] == 'n');
        assert("aspell"@.len() == 6 && "aspell"@[0] == 'a' && "aspell"@[2] == 'p');
        assert("aspell-en"@.len() == 9 && "aspell-en"@[0] == 'a' && "aspell-en"@[2] == 'p' && "aspell-en"@[6] == '-');
        assert("base-devel"@.len() == 10 && "base-devel"@[0] == 'b' && "base-devel"@[2] == 's' && "base-devel"@[6] == 'e');
        assert("broadcom-wl-dkms"@.len() == 16 && "broadcom-wl-dkms"@[0] == 'b' && "broadcom-wl-dkms"@[2] == 'o' && "broadcom-wl-dkms"@[6] == 'o');
        assert("cifs-utils"@.len() == 10 && "cifs-utils"@[0] == 'c' && "cifs-utils"@[2] == 'f' && "cifs-utils"@[6] == 't');
        assert("cronie"@.len() == 6 && "cronie"@[0] == 'c' && "cronie"@[2] == 'o');
        assert("dnsmasq"@.len() == 7 && "dnsmasq"@[0] == 'd' && "dnsmasq"@[2] == 's' && "dnsmasq"@[6] == 'q');
        assert("dosfstools"@.len() == 10 && "dosfstools"@[0] == 'd' && "dosfstools"@[2] == 's' && "dosfstools"@[6] == 'o');
        assert("edk2-ovmf"@.len() == 9 && "edk2-ovmf"@[0] == 'e' && "edk2-ovmf"@[2] == 'k' && "edk2-ovmf"@[6] == 'v');
        assert("efibootmgr"@.len() == 10 && "efibootmgr"@[0] == 'e' && "efibootmgr"@[2] == 'i' && "efibootmgr"@[6] == 't');
        assert("espeak-ng"@.len() == 9 && "espeak-ng"@[0] == 'e' && "espeak-ng"@[2] == 'p' && "espeak-ng"@[6] == '-');
        assert("espeakup"@.len() == 8 && "espeakup"@[0] == 'e' && "espeakup"@[2] == 'p' && "espeakup"@[6] == 'u');
        assert("grub"@.len() == 4 && "grub"@[0] == 'g' && "grub"@[2] == 'u');
        assert("icu"@.len() == 3 && "icu"@[0] == 'i' && "icu"@[2] == 'u');
        assert("intel-ucode"@.len() == 11 && "intel-ucode"@[0] == 'i' && "intel-ucode"@[2] == 't' && "intel-ucode"@[6] == 'u');
        assert("iptables-nft"@.len() == 12 && "iptables-nft"@[0] == 'i' && "iptables-nft"@[2] == 't' && "iptables-nft"@[6] == 'e');
        assert("linux-firmware"@.len() == 14 && "linux-firmware"@[0] == 'l' && "linux-firmware"@[2] == 'n' && "linux-firmware"@[6] == 'f');
        assert("linux-firmware-marvell"@.len() == 22 && "linux-firmware-marvell"@[0] == 'l' && "linux-firmware-marvell"@[2] == 'n' && "linux-firmware-marvell"@[6] == 'f');
        assert("lvm2"@.len() == 4 && "lvm2"@[0] == 'l' && "lvm2"@[2] == 'm');
        assert("man-db"@.len() == 6 && "man-db"@[0] == 'm' && "man-db"@[2] == 'n');
        assert("man-pages"@.len() == 9 && "man-pages"@[0] == 'm' && "man-pages"@[2] == 'n' && "man-pages"@[6] == 'g');
        assert("mkinitcpio"@.len() == 10 && "mkinitcpio"@[0] == 'm' && "mkinitcpio"@[2] == 'i' && "mkinitcpio"@[6] == 'c');
        assert("mtools"@.len() == 6 && "mtools"@[0] == 'm' && "mtools"@[2] == 'o');
        assert("net-tools"@.len() == 9 && "net-tools"@[0] == 'n' && "net-tools"@[2] == 't' && "net-tools"@[6] == 'o');
        assert("nano"@.len() == 4 && "nano"@[0] == 'n' && "nano"@[2] == 'n');
        assert("networkmanager"@.len() == 14 && "networkmanager"@[0] == 'n' && "networkmanager"@[2] == 't' && "networkmanager"@[6] == 'k');
        assert("ntfs-3g"@.len() == 7 && "ntfs-3g"@[0] == 'n' && "ntfs-3g"@[2] == 'f' && "ntfs-3g"@[6] == 'g');
        assert("ntp"@.len() == 3 && "ntp"@[0] == 'n' && "ntp"@[2] == 'p');
        assert("openssh"@.len() == 7 && "openssh"@[0] == 'o' && "openssh"@[2] == 'e' && "openssh"@[6] == 'h');
        assert("os-prober"@.len() == 9 && "os-prober"@[0] == 'o' && "os-prober"@[2] == '-' && "os-prober"@[6] == 'b');
        assert("pacman-contrib"@.len() == 14 && "pacman-contrib"@[0] == 'p' && "pacman-contrib"@[2] == 'c' && "pacman-contrib"@[6] == '-');
        assert("python"@.len() == 6 && "python"@[0] == 'p' && "python"@[2] == 't');
        assert("python-pip"@.len() == 10 && "python-pip"@[0] == 'p' && "python-pip"@[2] == 't' && "python-pip"@[6] == '-');
        assert("reflector"@.len() == 9 && "reflector"@[0] == 'r' && "reflector"@[2] == 'f' && "reflector"@[6] == 't');
        assert("ruby"@.len() == 4 && "ruby"@[0] == 'r' && "ruby"@[2] == 'b');
        assert("rust"@.len() == 4 && "rust"@[0] == 'r' && "rust"@[2] == 's');
        assert("sof-firmware"@.len() == 12 && "sof-firmware"@[0] == 's' && "sof-firmware"@[2] == 'f' && "sof-firmware"@[6] == 'r');
        assert("traceroute"@.len() == 10 && "traceroute"@[0] == 't' && "traceroute"@[2] == 'a' && "traceroute"@[6] == 'o');
        assert("ufw"@.len() == 3 && "ufw"@[0] == 'u' && "ufw"@[2] == 'w');
        assert("usbutils"@.len() == 8 && "usbutils"@[0] == 'u' && "usbutils"@[2] == 'b' && "usbutils"@[6] == 'l');
        assert("util-linux"@.len() == 10 && "util-linux"@[0] == 'u' && "util-linux"@[2] == 'i' && "util-linux"@[6] == 'i');
        assert("vim"@.len() == 3 && "vim"@[0] == 'v' && "vim"@[2] == 'm');
        assert("xfsprogs"@.len() == 8 && "xfsprogs"@[0] == 'x' && "xfsprogs"@[2] == 's' && "xfsprogs"@[6] == 'g');
        assert("sudo"@.len() == 4 && "sudo"@[0] == 's' && "sudo"@[2] == 'd');
        assert("git"@.len() == 3 && "git"@[0] == 'g' && "git"@[2] == 't');
        assert("bluez"@.len() == 5 && "bluez"@[0] == 'b' && "bluez"@[2] == 'u');
        assert("bluez-utils"@.len() == 11 && "bluez-utils"@[0] == 'b' && "bluez-utils"@[2] == 'u' && "bluez-utils"@[6] == 'u');
        assert("cups"@.len() == 4 && "cups"@[0] == 'c' && "cups"@[2] == 'p');
        assert("linux"@.len() == 5 && "linux"@[0] == 'l' && "linux"@[2] == 'n');
        assert("linux-headers"@.len() == 13 && "linux-headers"@[0] == 'l' && "linux-headers"@[2] == 'n' && "linux-headers"@[6] == 'h');
        assert("linux-lts"@.len() == 9 && "linux-lts"@[0] == 'l' && "linux-lts"@[2] == 'n' && "linux-lts"@[6] == 'l');
        assert("linux-lts-headers"@.len() == 17 && "linux-lts-headers"@[0] == 'l' && "linux-lts-headers"@[2] == 'n' && "linux-lts-headers"@[6] == 'l');
        assert("linux-zen"@.len() == 9 && "linux-zen"@[0] == 'l' && "linux-zen"@[2] == 'n' && "linux-zen"@[6] == 'z');
        assert("linux-zen-headers"@.len() == 17 && "linux-zen-headers"@[0] == 'l' && "linux-zen-headers"@[2] == 'n' && "linux-zen-headers"@[6] == 'z');
        assert("linux-hardened"@.len() == 14 && "linux-hardened"@[0] == 'l' && "linux-hardened"@[2] == 'n' && "linux-hardened"@[6] == 'h');
        assert("linux-hardened-headers"@.len() == 22 && "linux-hardened-headers"@[0] == 'l' && "linux-hardened-headers"@[2] == 'n' && "linux-hardened-headers"@[6] == 'h');
    }
}

pub open spec fn nvidia_packages_spec() -> Seq<Seq<char>> {
    seq!["nvidia-dkms"@, "nvidia-utils"@, "lib32-nvidia-utils"@]
}

pub fn nvidia_packages() -> (r: &'static [&'static str])
    ensures
        str_views(r@) == nvidia_packages_spec(),
{
    let r: &'static [&'static str] = &["nvidia-dkms", "nvidia-utils", "lib32-nvidia-utils"];
    assert(str_views(r@) =~= nvidia_packages_spec());
    r
}

/// Base, kernel, desktop and (if asked for) Nvidia packages, each once, in
/// the order first listed.
pub open spec fn full_package_list_spec(de: DesktopEnv, kernel: KernelVariant, nvidia: bool) -> Seq<Seq<char>> {
    add_new(Seq::empty(), listed_packages(de, kernel, nvidia))
}

/// Every package the selection lists, repeats included: base, kernel,
/// desktop and (if asked for) Nvidia.
pub open spec fn listed_packages(de: DesktopEnv, kernel: KernelVariant, nvidia: bool) -> Seq<Seq<char>> {
    common_packages() + kernel.packages_spec() + de.packages_spec() + if nvidia {
        nvidia_packages_spec()
    } else {
        Seq::empty()
    }
}

/// The full package list holds each listed package exactly once, in the
/// order of its first listing, and begins with the base packages.
pub proof fn law_full_package_list_first_listings(de: DesktopEnv, kernel: KernelVariant, nvidia: bool)
    ensures
        full_package_list_spec(de, kernel, nvidia).no_duplicates(),
        forall|x: Seq<char>| #[trigger] full_package_list_spec(de, kernel, nvidia).contains(x)
            <==> listed_packages(de, kernel, nvidia).contains(x),
        in_first_listing_order(full_package_list_spec(de, kernel, nvidia), listed_packages(de, kernel, nvidia)),
        (common_packages() + kernel.packages_spec()).is_prefix_of(full_package_list_spec(de, kernel, nvidia)),
{
    let c = listed_packages(de, kernel, nvidia);
    let base = common_packages() + kernel.packages_spec();
    lemma_add_new(Seq::empty(), c);
    lemma_add_new_order(c);
    law_base_packages_distinct(kernel);
    let rest = de.packages_spec() + if nvidia { nvidia_packages_spec() } else { Seq::empty() };
    assert(c =~= base + rest);
    lemma_add_new_keeps_distinct_prefix(base, rest);
    assert forall|x: Seq<char>| #[trigger] full_package_list_spec(de, kernel, nvidia).contains(x)
        <==> c.contains(x) by {
        assert(!Seq::<Seq<char>>::empty().contains(x));
    }
}

fn contains_str(v: &Vec<&'static str>, s: &str) -> (r: bool)
    ensures
        r == str_views(v@).contains(s@),
{
    let n = v.len();
    let mut i: usize = 0;
    while i < n
        invariant
            n == v@.len(),
            i <= n,
            forall|j: int| 0 <= j < i ==> v@[j]@ != s@,
        decreases n - i,
    {
        if str_eq(v[i], s) {
            assert(str_views(v@)[i as int] == s@);
            return true;
        }
        i = i + 1;
    }
    assert forall|j: int| 0 <= j < str_views(v@).len() implies str_views(v@)[j] != s@ by {
        assert(str_views(v@)[j] == v@[j]@);
    }
    false
}

pub fn full_package_list(de: &DesktopEnv, kernel: &KernelVariant, nvidia: bool) -> (r: Vec<&'static str>)
    ensures
        str_views(r@) == full_package_list_spec(*de, *kernel, nvidia),
{
    let mut combined = base_packages(kernel);
    extend_from(&mut combined, de.packages());
    if nvidia {
        extend_from(&mut combined, nvidia_packages());
    }
    let ghost all = str_views(combined@);
    assert(all =~= common_packages() + kernel.packages_spec() + de.packages_spec() + if nvidia {
        nvidia_packages_spec()
    } else {
        Seq::empty()
    });
    let mut packages: Vec<&'static str> = Vec::new();
    let n = combined.len();
    let mut i: usize = 0;
    while i < n
        invariant
            n == combined@.len(),
            all == str_views(combined@),
            i <= n,
            str_views(packages@) == add_new(Seq::empty(), all.take(i as int)),
        decreases n - i,
    {
        let pkg = combined[i];
        assert(all.take(i + 1).drop_last() =~= all.take(i as int));
        assert(all[i as int] == pkg@);
        if !contains_str(&packages, pkg) {
            let ghost prev = packages@;
            packages.push(pkg);
            assert(str_views(packages@) =~= str_views(prev).push(pkg@));
        }
        i = i + 1;
    }
    assert(all.take(n as int) =~= all);
    packages
}

} // verus!
