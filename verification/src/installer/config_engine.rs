use crate::text::{contains_string, owned, split_acc, split_newlines, to_chars, trim, trim_bounds, views};
use vstd::prelude::*;

verus! {

#[derive(Clone, Copy, Debug, PartialEq, Eq, Structural)]
pub enum DesktopEnv {
    Gnome,
    Kde,
    Server,
    Niri,
}

/// Every desktop environment, in the order the installer offers them.
pub open spec fn all_desktops() -> Seq<DesktopEnv> {
    seq![DesktopEnv::Gnome, DesktopEnv::Kde, DesktopEnv::Server, DesktopEnv::Niri]
}

impl DesktopEnv {
    pub fn all() -> (r: &'static [DesktopEnv])
        ensures
            r@ == all_desktops(),
    {
        &[DesktopEnv::Gnome, DesktopEnv::Kde, DesktopEnv::Server, DesktopEnv::Niri]
    }

    pub open spec fn label_spec(self) -> Seq<char> {
        match self {
            DesktopEnv::Gnome => "GNOME (Custom)"@,
            DesktopEnv::Kde => "KDE Plasma"@,
            DesktopEnv::Server => "Server (Headless)"@,
            DesktopEnv::Niri => "Niri (Coming Soon)"@,
        }
    }

    pub fn label(&self) -> (r: &'static str)
        ensures
            r@ == self.label_spec(),
    {
        match self {
            DesktopEnv::Gnome => "GNOME (Custom)",
            DesktopEnv::Kde => "KDE Plasma",
            DesktopEnv::Server => "Server (Headless)",
            DesktopEnv::Niri => "Niri (Coming Soon)",
        }
    }

    pub open spec fn description_spec(self) -> Seq<char> {
        match self {
            DesktopEnv::Gnome => "GNOME with Access OS custom configuration"@,
            DesktopEnv::Kde => "KDE Plasma with default settings"@,
            DesktopEnv::Server => "Headless server profile with Docker, Docker Compose, Tailscale, and SSH"@,
            DesktopEnv::Niri => "Niri scrollable tiling Wayland compositor — not yet available"@,
        }
    }

    pub fn description(&self) -> (r: &'static str)
        ensures
            r@ == self.description_spec(),
    {
        match self {
            DesktopEnv::Gnome => "GNOME with Access OS custom configuration",
            DesktopEnv::Kde => "KDE Plasma with default settings",
            DesktopEnv::Server => "Headless server profile with Docker, Docker Compose, Tailscale, and SSH",
            DesktopEnv::Niri => "Niri scrollable tiling Wayland compositor — not yet available",
        }
    }

    pub open spec fn profile_filename_spec(self) -> Seq<char> {
        match self {
            DesktopEnv::Gnome => "gnome.txt"@,
            DesktopEnv::Kde => "kde.txt"@,
            DesktopEnv::Server => "server.txt"@,
            DesktopEnv::Niri => "niri.txt"@,
        }
    }

    /// The profile file that lists the desktop's packages.
    pub fn profile_filename(&self) -> (r: &'static str)
        ensures
            r@ == self.profile_filename_spec(),
    {
        match self {
            DesktopEnv::Gnome => "gnome.txt",
            DesktopEnv::Kde => "kde.txt",
            DesktopEnv::Server => "server.txt",
            DesktopEnv::Niri => "niri.txt",
        }
    }

    /// Services enabled on top of the common ones.
    pub fn extra_services(&self) -> (r: &'static [&'static str])
        ensures
            *self == DesktopEnv::Server ==> r@.map_values(|s: &str| s@) == seq!["docker"@, "tailscaled"@, "sshd"@],
            *self != DesktopEnv::Server ==> r@.len() == 0,
    {
        match self {
            DesktopEnv::Server => {
                let r: &'static [&'static str] = &["docker", "tailscaled", "sshd"];
                assert(r@.map_values(|s: &str| s@) =~= seq!["docker"@, "tailscaled"@, "sshd"@]);
                r
            },
            _ => &[],
        }
    }

    pub open spec fn display_manager_spec(self) -> Option<Seq<char>> {
        match self {
            DesktopEnv::Gnome | DesktopEnv::Niri => Some("gdm"@),
            DesktopEnv::Kde => Some("sddm"@),
            DesktopEnv::Server => None,
        }
    }

    pub fn display_manager(&self) -> (r: Option<&'static str>)
        ensures
            match r {
                Some(s) => self.display_manager_spec() == Some(s@),
                None => self.display_manager_spec() is None,
            },
    {
        match self {
            DesktopEnv::Gnome | DesktopEnv::Niri => Some("gdm"),
            DesktopEnv::Kde => Some("sddm"),
            DesktopEnv::Server => None,
        }
    }

    pub fn is_available(&self) -> (r: bool)
        ensures
            r == (*self != DesktopEnv::Niri),
    {
        match self {
            DesktopEnv::Gnome | DesktopEnv::Kde | DesktopEnv::Server => true,
            DesktopEnv::Niri => false,
        }
    }

    pub fn from_index(index: usize) -> (r: Option<&'static DesktopEnv>)
        ensures
            index < 4 ==> r == Some(&all_desktops()[index as int]),
            index >= 4 ==> r is None,
    {
        let all = DesktopEnv::all();
        if index < all.len() {
            Some(&all[index])
        } else {
            None
        }
    }
}

#[derive(Clone, Copy, Debug, PartialEq, Eq, Structural)]
pub enum KernelVariant {
    Standard,
    Lts,
    Zen,
    Hardened,
}

/// Every kernel variant, in the order the installer offers them.
pub open spec fn all_kernels() -> Seq<KernelVariant> {
    seq![KernelVariant::Standard, KernelVariant::Lts, KernelVariant::Zen, KernelVariant::Hardened]
}

impl KernelVariant {
    pub fn all() -> (r: &'static [KernelVariant])
        ensures
            r@ == all_kernels(),
    {
        &[KernelVariant::Standard, KernelVariant::Lts, KernelVariant::Zen, KernelVariant::Hardened]
    }

    pub open spec fn label_spec(self) -> Seq<char> {
        match self {
            KernelVariant::Standard => "Linux (Standard)"@,
            KernelVariant::Lts => "Linux LTS"@,
            KernelVariant::Zen => "Linux Zen"@,
            KernelVariant::Hardened => "Linux Hardened"@,
        }
    }

    pub fn label(&self) -> (r: &'static str)
        ensures
            r@ == self.label_spec(),
    {
        match self {
            KernelVariant::Standard => "Linux (Standard)",
            KernelVariant::Lts => "Linux LTS",
            KernelVariant::Zen => "Linux Zen",
            KernelVariant::Hardened => "Linux Hardened",
        }
    }

    pub open spec fn description_spec(self) -> Seq<char> {
        match self {
            KernelVariant::Standard => "Latest stable kernel — recommended for most hardware"@,
            KernelVariant::Lts => "Long-term support kernel — maximum stability"@,
            KernelVariant::Zen => "Performance-tuned kernel — optimized for desktop use"@,
            KernelVariant::Hardened => "Security-focused kernel — extra hardening patches"@,
        }
    }

    pub fn description(&self) -> (r: &'static str)
        ensures
            r@ == self.description_spec(),
    {
        match self {
            KernelVariant::Standard => "Latest stable kernel — recommended for most hardware",
            KernelVariant::Lts => "Long-term support kernel — maximum stability",
            KernelVariant::Zen => "Performance-tuned kernel — optimized for desktop use",
            KernelVariant::Hardened => "Security-focused kernel — extra hardening patches",
        }
    }

    pub open spec fn profile_filename_spec(self) -> Seq<char> {
        match self {
            KernelVariant::Standard => "kernel-standard.txt"@,
            KernelVariant::Lts => "kernel-lts.txt"@,
            KernelVariant::Zen => "kernel-zen.txt"@,
            KernelVariant::Hardened => "kernel-hardened.txt"@,
        }
    }

    /// The profile file that lists the kernel's packages.
    pub fn profile_filename(&self) -> (r: &'static str)
        ensures
            r@ == self.profile_filename_spec(),
    {
        match self {
            KernelVariant::Standard => "kernel-standard.txt",
            KernelVariant::Lts => "kernel-lts.txt",
            KernelVariant::Zen => "kernel-zen.txt",
            KernelVariant::Hardened => "kernel-hardened.txt",
        }
    }

    pub open spec fn vmlinuz_spec(self) -> Seq<char> {
        match self {
            KernelVariant::Standard => "/vmlinuz-linux"@,
            KernelVariant::Lts => "/vmlinuz-linux-lts"@,
            KernelVariant::Zen => "/vmlinuz-linux-zen"@,
            KernelVariant::Hardened => "/vmlinuz-linux-hardened"@,
        }
    }

    /// The kernel image path on the boot partition.
    pub fn vmlinuz(&self) -> (r: &'static str)
        ensures
            r@ == self.vmlinuz_spec(),
    {
        match self {
            KernelVariant::Standard => "/vmlinuz-linux",
            KernelVariant::Lts => "/vmlinuz-linux-lts",
            KernelVariant::Zen => "/vmlinuz-linux-zen",
            KernelVariant::Hardened => "/vmlinuz-linux-hardened",
        }
    }

    pub open spec fn initramfs_spec(self) -> Seq<char> {
        match self {
            KernelVariant::Standard => "/initramfs-linux.img"@,
            KernelVariant::Lts => "/initramfs-linux-lts.img"@,
            KernelVariant::Zen => "/initramfs-linux-zen.img"@,
            KernelVariant::Hardened => "/initramfs-linux-hardened.img"@,
        }
    }

    /// The initramfs path on the boot partition.
    pub fn initramfs(&self) -> (r: &'static str)
        ensures
            r@ == self.initramfs_spec(),
    {
        match self {
            KernelVariant::Standard => "/initramfs-linux.img",
            KernelVariant::Lts => "/initramfs-linux-lts.img",
            KernelVariant::Zen => "/initramfs-linux-zen.img",
            KernelVariant::Hardened => "/initramfs-linux-hardened.img",
        }
    }

    pub fn from_index(index: usize) -> (r: Option<&'static KernelVariant>)
        ensures
            index < 4 ==> r == Some(&all_kernels()[index as int]),
            index >= 4 ==> r is None,
    {
        let all = KernelVariant::all();
        if index < all.len() {
            Some(&all[index])
        } else {
            None
        }
    }
}

// ---------------------------------------------------------------------------
// Profile files

/// Whether a trimmed profile line names a package (it is neither blank nor a
/// `#` comment).
pub open spec fn is_package_line(line: Seq<char>) -> bool {
    line.len() > 0 && line[0] != '#'
}

/// The packages named by `lines`, trimmed, in order.
pub open spec fn package_lines(lines: Seq<Seq<char>>) -> Seq<Seq<char>>
    decreases lines.len(),
{
    if lines.len() == 0 {
        Seq::empty()
    } else {
        let rest = package_lines(lines.drop_last());
        let t = trim(lines.last());
        if is_package_line(t) {
            rest.push(t)
        } else {
            rest
        }
    }
}

/// The packages a profile file lists: each line trimmed, blank lines and
/// `#` comments skipped. (Splitting at `'\n'` and trimming gives the same
/// packages as `str::lines`, which also drops a `'\r'` before the newline.)
pub open spec fn parse_package_list_spec(contents: Seq<char>) -> Seq<Seq<char>> {
    package_lines(split_newlines(contents))
}

fn take_package(contents: &str, chars: &Vec<char>, start: usize, end: usize, packages: &mut Vec<String>)
    requires
        chars@ == contents@,
        start <= end <= chars@.len(),
    ensures
        ({
            let t = trim(chars@.subrange(start as int, end as int));
            views(final(packages)@) == if is_package_line(t) {
                views(old(packages)@).push(t)
            } else {
                views(old(packages)@)
            }
        }),
{
    let (a, b) = trim_bounds(chars, start, end);
    if a < b && chars[a] != '#' {
        let line = owned(contents.substring_char(a, b));
        let ghost prev = packages@;
        packages.push(line);
        assert(packages@ =~= prev.push(line));
        assert(views(packages@) =~= views(prev).push(line@));
    }
}

/// Reads the package names out of a profile file's contents.
pub fn parse_package_list(contents: &str) -> (r: Vec<String>)
    ensures
        views(r@) == parse_package_list_spec(contents@),
{
    let chars = to_chars(contents);
    let n = chars.len();
    let mut packages: Vec<String> = Vec::new();
    let mut start: usize = 0;
    let mut i: usize = 0;
    let ghost mut done: Seq<Seq<char>> = Seq::empty();
    assert(chars@.take(0) =~= Seq::<char>::empty());
    while i < n
        invariant
            chars@ == contents@,
            n == chars@.len(),
            start <= i <= n,
            split_acc(chars@.take(i as int)) == (done, chars@.subrange(start as int, i as int)),
            views(packages@) == package_lines(done),
        decreases n - i,
    {
        assert(chars@.take(i + 1).drop_last() =~= chars@.take(i as int));
        if chars[i] == '\n' {
            take_package(contents, &chars, start, i, &mut packages);
            proof {
                let seg = chars@.subrange(start as int, i as int);
                assert(done.push(seg).drop_last() =~= done);
                done = done.push(seg);
            }
            start = i + 1;
            assert(chars@.subrange(start as int, i + 1) =~= Seq::<char>::empty());
        } else {
            assert(chars@.subrange(start as int, i + 1) =~= chars@.subrange(start as int, i as int).push(chars@[i as int]));
        }
        i = i + 1;
    }
    take_package(contents, &chars, start, n, &mut packages);
    proof {
        let seg = chars@.subrange(start as int, n as int);
        assert(chars@.take(n as int) =~= chars@);
        assert(done.push(seg).drop_last() =~= done);
    }
    packages
}

// ---------------------------------------------------------------------------
// Merging package groups

/// `acc` followed by each package of `group` that is not already present.
pub open spec fn add_new(acc: Seq<Seq<char>>, group: Seq<Seq<char>>) -> Seq<Seq<char>>
    decreases group.len(),
{
    if group.len() == 0 {
        acc
    } else {
        let a = add_new(acc, group.drop_last());
        if a.contains(group.last()) {
            a
        } else {
            a.push(group.last())
        }
    }
}

/// All packages of `groups`, each once, in the order first seen.
pub open spec fn merge_spec(groups: Seq<Seq<Seq<char>>>) -> Seq<Seq<char>>
    decreases groups.len(),
{
    if groups.len() == 0 {
        Seq::empty()
    } else {
        add_new(merge_spec(groups.drop_last()), groups.last())
    }
}

pub open spec fn group_views(groups: Seq<Vec<String>>) -> Seq<Seq<Seq<char>>> {
    groups.map_values(|g: Vec<String>| views(g@))
}

/// Concatenates package groups, keeping the first occurrence of each name.
pub fn merge_packages(groups: &[Vec<String>]) -> (r: Vec<String>)
    ensures
        views(r@) == merge_spec(group_views(groups@)),
{
    let ghost g = group_views(groups@);
    let mut packages: Vec<String> = Vec::new();
    let n = groups.len();
    let mut i: usize = 0;
    while i < n
        invariant
            n == groups@.len(),
            g == group_views(groups@),
            i <= n,
            views(packages@) == merge_spec(g.take(i as int)),
        decreases n - i,
    {
        let group = &groups[i];
        let ghost base = views(packages@);
        let m = group.len();
        let mut j: usize = 0;
        while j < m
            invariant
                m == group@.len(),
                j <= m,
                views(packages@) == add_new(base, views(group@).take(j as int)),
            decreases m - j,
        {
            assert(views(group@).take(j + 1).drop_last() =~= views(group@).take(j as int));
            if !contains_string(&packages, &group[j]) {
                let ghost prev = packages@;
                let pkg = group[j].clone();
                packages.push(pkg);
                assert(packages@ =~= prev.push(pkg));
                assert(views(packages@) =~= views(prev).push(pkg@));
            }
            j = j + 1;
        }
        assert(views(group@).take(m as int) =~= views(group@));
        assert(g.take(i + 1).drop_last() =~= g.take(i as int));
        assert(g[i as int] == views(group@));
        i = i + 1;
    }
    assert(g.take(n as int) =~= g);
    packages
}

pub(crate) proof fn lemma_add_new(acc: Seq<Seq<char>>, group: Seq<Seq<char>>)
    ensures
        acc.no_duplicates() ==> add_new(acc, group).no_duplicates(),
        forall|x: Seq<char>| #[trigger] add_new(acc, group).contains(x) <==> (acc.contains(x) || group.contains(x)),
        acc.is_prefix_of(add_new(acc, group)),
    decreases group.len(),
{
    if group.len() > 0 {
        let rest = group.drop_last();
        lemma_add_new(acc, rest);
        let a = add_new(acc, rest);
        let x = group.last();
        assert forall|y: Seq<char>| #[trigger] group.contains(y) <==> (rest.contains(y) || y == x) by {
            if group.contains(y) {
                let k = choose|k: int| 0 <= k < group.len() && group[k] == y;
                if k < group.len() - 1 {
                    assert(rest[k] == y);
                }
            }
            if rest.contains(y) {
                let k = choose|k: int| 0 <= k < rest.len() && rest[k] == y;
                assert(group[k] == y);
            }
            if y == x {
                assert(group[group.len() - 1] == y);
            }
        }
        if !a.contains(x) {
            let b = a.push(x);
            assert forall|y: Seq<char>| #[trigger] b.contains(y) <==> (a.contains(y) || y == x) by {
                if b.contains(y) {
                    let k = choose|k: int| 0 <= k < b.len() && b[k] == y;
                    if k < a.len() {
                        assert(a[k] == y);
                    }
                }
                if a.contains(y) {
                    let k = choose|k: int| 0 <= k < a.len() && a[k] == y;
                    assert(b[k] == y);
                }
                if y == x {
                    assert(b[a.len() as int] == y);
                }
            }
            if acc.no_duplicates() {
                assert forall|i: int, j: int| 0 <= i < b.len() && 0 <= j < b.len() && i != j implies b[i] != b[j] by {
                    if i < a.len() && j < a.len() {
                        assert(a[i] != a[j]);
                    } else if i < a.len() {
                        assert(a.contains(b[i]));
                    } else if j < a.len() {
                        assert(a.contains(b[j]));
                    }
                }
            }
            assert(acc.is_prefix_of(b)) by {
                assert forall|k: int| 0 <= k < acc.len() implies acc[k] == b[k] by {
                    assert(acc[k] == a[k]);
                }
            }
        }
    }
}

/// The index of the first `x` in `s`, or -1 when there is none.
pub open spec fn first_index(s: Seq<Seq<char>>, x: Seq<char>) -> int
    decreases s.len(),
{
    if s.len() == 0 {
        -1
    } else {
        let k = first_index(s.drop_last(), x);
        if k >= 0 {
            k
        } else if s.last() == x {
            s.len() - 1
        } else {
            -1
        }
    }
}

pub(crate) proof fn lemma_first_index(s: Seq<Seq<char>>, x: Seq<char>)
    ensures
        s.contains(x) <==> 0 <= first_index(s, x),
        first_index(s, x) < s.len(),
    decreases s.len(),
{
    if s.len() > 0 {
        let rest = s.drop_last();
        lemma_first_index(rest, x);
        if s.contains(x) && !rest.contains(x) {
            let k = choose|k: int| 0 <= k < s.len() && s[k] == x;
            if k < s.len() - 1 {
                assert(rest[k] == x);
            }
        }
        if rest.contains(x) {
            let k = choose|k: int| 0 <= k < rest.len() && rest[k] == x;
            assert(s[k] == x);
        }
        if s.last() == x {
            assert(s[s.len() - 1] == x);
        }
    }
}

/// Each item of `r` is listed in `c`, and items come in the order of their
/// first listing in `c`.
pub open spec fn in_first_listing_order(r: Seq<Seq<char>>, c: Seq<Seq<char>>) -> bool {
    forall|i: int, j: int| 0 <= i < j < r.len() ==>
        0 <= first_index(c, #[trigger] r[i]) && first_index(c, r[i]) < first_index(c, #[trigger] r[j])
}

/// What is left of `c` after dropping repeats: the packages in the order of
/// their first listing.
pub(crate) proof fn lemma_add_new_order(c: Seq<Seq<char>>)
    ensures
        in_first_listing_order(add_new(Seq::empty(), c), c),
    decreases c.len(),
{
    if c.len() > 0 {
        let c0 = c.drop_last();
        let x = c.last();
        let r0 = add_new(Seq::<Seq<char>>::empty(), c0);
        let r = add_new(Seq::<Seq<char>>::empty(), c);
        lemma_add_new_order(c0);
        lemma_add_new(Seq::empty(), c0);
        assert forall|i: int| 0 <= i < r0.len() implies first_index(c, #[trigger] r0[i]) == first_index(c0, r0[i])
            && 0 <= first_index(c0, r0[i]) < c0.len() by {
            assert(r0.contains(r0[i]));
            assert(!Seq::<Seq<char>>::empty().contains(r0[i]));
            lemma_first_index(c0, r0[i]);
        }
        if !r0.contains(x) {
            assert(!c0.contains(x));
            lemma_first_index(c0, x);
            assert(first_index(c, x) == c0.len());
            assert forall|i: int, j: int| 0 <= i < j < r.len() implies
                0 <= first_index(c, #[trigger] r[i]) && first_index(c, r[i]) < first_index(c, #[trigger] r[j]) by {
                assert(r[i] == r0[i]);
                if j < r0.len() {
                    assert(r[j] == r0[j]);
                } else {
                    assert(r[j] == x);
                }
            }
        }
    }
}

/// Dropping the repeats of `a + b`, where `a` has none, keeps `a` first.
pub(crate) proof fn lemma_add_new_keeps_distinct_prefix(a: Seq<Seq<char>>, b: Seq<Seq<char>>)
    requires
        a.no_duplicates(),
    ensures
        a.is_prefix_of(add_new(Seq::empty(), a + b)),
    decreases b.len(),
{
    if b.len() == 0 {
        assert(a + b =~= a);
        lemma_add_new_of_distinct(a);
    } else {
        lemma_add_new_keeps_distinct_prefix(a, b.drop_last());
        assert((a + b).drop_last() =~= a + b.drop_last());
        assert((a + b).last() == b.last());
        lemma_add_new(add_new(Seq::empty(), a + b.drop_last()), seq![b.last()]);
        assert(seq![b.last()].drop_last() =~= Seq::<Seq<char>>::empty());
    }
}

/// A list with no repeats is kept as it is.
pub(crate) proof fn lemma_add_new_of_distinct(a: Seq<Seq<char>>)
    requires
        a.no_duplicates(),
    ensures
        add_new(Seq::empty(), a) == a,
    decreases a.len(),
{
    if a.len() > 0 {
        let rest = a.drop_last();
        assert(rest.no_duplicates()) by {
            assert forall|i: int, j: int| 0 <= i < rest.len() && 0 <= j < rest.len() && i != j implies rest[i] != rest[j] by {
                assert(rest[i] == a[i] && rest[j] == a[j]);
            }
        }
        lemma_add_new_of_distinct(rest);
        assert(!rest.contains(a.last())) by {
            if rest.contains(a.last()) {
                let k = choose|k: int| 0 <= k < rest.len() && rest[k] == a.last();
                assert(a[k] == a[a.len() - 1]);
            }
        }
        assert(rest.push(a.last()) =~= a);
    }
}

/// Merging never lists a package twice.
pub proof fn law_merge_no_duplicates(groups: Seq<Seq<Seq<char>>>)
    ensures
        merge_spec(groups).no_duplicates(),
    decreases groups.len(),
{
    if groups.len() > 0 {
        law_merge_no_duplicates(groups.drop_last());
        lemma_add_new(merge_spec(groups.drop_last()), groups.last());
    }
}

/// Merging keeps every package of every group, and adds none.
pub proof fn law_merge_keeps_every_package(groups: Seq<Seq<Seq<char>>>, x: Seq<char>)
    ensures
        merge_spec(groups).contains(x) <==> exists|i: int| 0 <= i < groups.len() && #[trigger] groups[i].contains(x),
    decreases groups.len(),
{
    if groups.len() > 0 {
        let rest = groups.drop_last();
        law_merge_keeps_every_package(rest, x);
        lemma_add_new(merge_spec(rest), groups.last());
        if merge_spec(groups).contains(x) {
            if merge_spec(rest).contains(x) {
                let i = choose|i: int| 0 <= i < rest.len() && #[trigger] rest[i].contains(x);
                assert(groups[i] == rest[i]);
            } else {
                assert(groups[groups.len() - 1].contains(x));
            }
        }
        if exists|i: int| 0 <= i < groups.len() && #[trigger] groups[i].contains(x) {
            let i = choose|i: int| 0 <= i < groups.len() && #[trigger] groups[i].contains(x);
            if i < groups.len() - 1 {
                assert(rest[i] == groups[i]);
            }
        }
    } else {
        assert(merge_spec(groups) =~= Seq::<Seq<char>>::empty());
    }
}

/// Merging leaves the packages of the earlier groups first, in their order:
/// adding a group only appends.
pub proof fn law_merge_appends(groups: Seq<Seq<Seq<char>>>)
    requires
        groups.len() > 0,
    ensures
        merge_spec(groups.drop_last()).is_prefix_of(merge_spec(groups)),
{
    lemma_add_new(merge_spec(groups.drop_last()), groups.last());
}

/// Every package read from a profile is trimmed, not blank, and not a
/// comment.
pub proof fn law_parsed_packages_are_clean(lines: Seq<Seq<char>>)
    ensures
        forall|i: int| 0 <= i < package_lines(lines).len() ==> {
            let p = #[trigger] package_lines(lines)[i];
            &&& is_package_line(p)
            &&& exists|j: int| 0 <= j < lines.len() && p == trim(lines[j])
        },
    decreases lines.len(),
{
    if lines.len() > 0 {
        let rest = lines.drop_last();
        law_parsed_packages_are_clean(rest);
        assert forall|i: int| 0 <= i < package_lines(lines).len() implies {
            let p = #[trigger] package_lines(lines)[i];
            &&& is_package_line(p)
            &&& exists|j: int| 0 <= j < lines.len() && p == trim(lines[j])
        } by {
            let p = package_lines(lines)[i];
            if i < package_lines(rest).len() {
                assert(p == package_lines(rest)[i]);
                let j = choose|j: int| 0 <= j < rest.len() && p == trim(rest[j]);
                assert(lines[j] == rest[j]);
            } else {
                assert(p == trim(lines[lines.len() - 1]));
            }
        }
    }
}

// ---------------------------------------------------------------------------
// The full package list

/// The profile files whose packages make up an install, in merge order:
/// `base.txt`, the desktop's profile, the kernel's profile, and
/// `nvidia.txt` when Nvidia drivers are requested.
pub open spec fn profile_files_spec(de: DesktopEnv, kernel: KernelVariant, nvidia: bool) -> Seq<Seq<char>> {
    seq!["base.txt"@, de.profile_filename_spec(), kernel.profile_filename_spec()]
        + if nvidia { seq!["nvidia.txt"@] } else { Seq::empty() }
}

pub fn profile_files(de: &DesktopEnv, kernel: &KernelVariant, nvidia: bool) -> (r: Vec<&'static str>)
    ensures
        r@.map_values(|s: &str| s@) == profile_files_spec(*de, *kernel, nvidia),
{
    let mut files: Vec<&'static str> = Vec::new();
    files.push("base.txt");
    files.push(de.profile_filename());
    files.push(kernel.profile_filename());
    if nvidia {
        files.push("nvidia.txt");
    }
    assert(files@.map_values(|s: &str| s@) =~= profile_files_spec(*de, *kernel, nvidia));
    files
}

/// The install's package list from the contents of its profile files, given
/// in the order of `profile_files`: each file parsed, then merged.
pub fn full_package_list(profile_contents: &Vec<String>) -> (r: Vec<String>)
    ensures
        views(r@) == merge_spec(views(profile_contents@).map_values(|c: Seq<char>| parse_package_list_spec(c))),
{
    let mut groups: Vec<Vec<String>> = Vec::new();
    let n = profile_contents.len();
    let mut i: usize = 0;
    while i < n
        invariant
            n == profile_contents@.len(),
            i <= n,
            group_views(groups@) == views(profile_contents@).take(i as int).map_values(|c: Seq<char>| parse_package_list_spec(c)),
        decreases n - i,
    {
        let ghost prev = groups@;
        let parsed = parse_package_list(profile_contents[i].as_str());
        groups.push(parsed);
        assert(groups@ =~= prev.push(parsed));
        assert(group_views(groups@) =~= group_views(prev).push(views(parsed@)));
        assert(views(profile_contents@)[i as int] == profile_contents@[i as int]@);
        assert(views(profile_contents@).take(i + 1) =~= views(profile_contents@).take(i as int).push(profile_contents@[i as int]@));
        assert(group_views(groups@) =~= views(profile_contents@).take(i + 1).map_values(|c: Seq<char>| parse_package_list_spec(c)));
        i = i + 1;
    }
    assert(views(profile_contents@).take(n as int) =~= views(profile_contents@));
    merge_packages(groups.as_slice())
}

} // verus!
