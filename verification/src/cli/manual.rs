use crate::cli::wizard::{Wizard, WizardState};
use crate::installer::storage_plan::{HomeLocation, HomeMode, ManualCreatePartition, ManualPartitionRole, StorageSelection, SwapMode};
use crate::installer::disk_manager::{get_partitions_for_managed_disks, gib, human_gib_label, next_available_partition_number, number_used, partition_device_path, partition_path, PartitionInfo};
use crate::installer::storage_plan::FilesystemType;
use crate::text::{decimal, is_blank, parse_unsigned, parse_unsigned_exec, lemma_blank_trims_empty, owned, str_eq, trim, u64_to_string, views};
use vstd::prelude::*;

verus! {

/// The disks the manual partition manager works on: the install disk (when
/// one is chosen) and, for `/home` on another disk, that disk too.
pub open spec fn managed_disks_spec(s: StorageSelection) -> Seq<Seq<char>> {
    (if trim(s.install_disk@).len() == 0 { Seq::empty() } else { seq![s.install_disk@] })
        + (if s.home_mode == HomeMode::Separate && s.home_location == HomeLocation::OtherDisk
            && s.home_disk is Some && s.home_disk.unwrap()@ != s.install_disk@ {
            seq![s.home_disk.unwrap()@]
        } else {
            Seq::empty()
        })
}

pub fn managed_disks(s: &StorageSelection) -> (r: Vec<String>)
    ensures
        views(r@) == managed_disks_spec(*s),
{
    let mut r: Vec<String> = Vec::new();
    proof {
        lemma_blank_trims_empty(s.install_disk@);
    }
    if !is_blank(s.install_disk.as_str()) {
        r.push(s.install_disk.clone());
    }
    let ghost first = views(r@);
    if matches!(s.home_mode, HomeMode::Separate) && matches!(s.home_location, HomeLocation::OtherDisk) {
        match &s.home_disk {
            Some(d) => {
                if !str_eq(d.as_str(), s.install_disk.as_str()) {
                    r.push(d.clone());
                    assert(views(r@) =~= first.push(d@));
                }
            },
            None => {},
        }
    }
    assert(views(r@) =~= managed_disks_spec(*s));
    r
}

/// The roles a manual setup uses: EFI and root, `/home` when it is
/// separate, swap when it is a partition.
pub open spec fn valid_roles_spec(s: StorageSelection) -> Seq<ManualPartitionRole> {
    seq![ManualPartitionRole::Efi, ManualPartitionRole::Root]
        + (if s.home_mode == HomeMode::Separate { seq![ManualPartitionRole::Home] } else { Seq::empty() })
        + (if s.swap_mode == SwapMode::Partition { seq![ManualPartitionRole::Swap] } else { Seq::empty() })
}

pub fn valid_manual_roles(s: &StorageSelection) -> (r: Vec<ManualPartitionRole>)
    ensures
        r@ == valid_roles_spec(*s),
{
    let mut r: Vec<ManualPartitionRole> = Vec::new();
    r.push(ManualPartitionRole::Efi);
    r.push(ManualPartitionRole::Root);
    if matches!(s.home_mode, HomeMode::Separate) {
        r.push(ManualPartitionRole::Home);
    }
    if matches!(s.swap_mode, SwapMode::Partition) {
        r.push(ManualPartitionRole::Swap);
    }
    assert(r@ =~= valid_roles_spec(*s));
    r
}

/// The partition the selection gives `role`.
pub open spec fn role_assignment(s: StorageSelection, role: ManualPartitionRole) -> Option<String> {
    match role {
        ManualPartitionRole::Efi => s.manual_efi_partition,
        ManualPartitionRole::Root => s.manual_root_partition,
        ManualPartitionRole::Home => s.manual_home_partition,
        ManualPartitionRole::Swap => s.manual_swap_partition,
    }
}

/// `b` is `a` with the partition of `role` set to `value`.
pub open spec fn with_role(a: StorageSelection, role: ManualPartitionRole, value: Option<String>) -> StorageSelection {
    match role {
        ManualPartitionRole::Efi => StorageSelection { manual_efi_partition: value, ..a },
        ManualPartitionRole::Root => StorageSelection { manual_root_partition: value, ..a },
        ManualPartitionRole::Home => StorageSelection { manual_home_partition: value, ..a },
        ManualPartitionRole::Swap => StorageSelection { manual_swap_partition: value, ..a },
    }
}

pub open spec fn with_storage(w: Wizard, storage: StorageSelection) -> Wizard {
    Wizard { state: WizardState { storage: storage, ..w.state }, ..w }
}

/// The pending creates, without those for `role`.
pub open spec fn creates_without_role(v: Seq<ManualCreatePartition>, role: ManualPartitionRole) -> Seq<ManualCreatePartition> {
    v.filter(|a: ManualCreatePartition| a.role != role)
}

/// The pending creates, without those that would make `path`.
pub open spec fn creates_without_path(v: Seq<ManualCreatePartition>, path: Seq<char>) -> Seq<ManualCreatePartition> {
    v.filter(|a: ManualCreatePartition| a.path@ != path)
}

/// The pending creates whose role is one of `roles`.
pub open spec fn creates_with_roles(v: Seq<ManualCreatePartition>, roles: Seq<ManualPartitionRole>) -> Seq<ManualCreatePartition> {
    v.filter(|a: ManualCreatePartition| roles.contains(a.role))
}

fn copy_create(a: &ManualCreatePartition) -> (r: ManualCreatePartition)
    ensures
        r.disk@ == a.disk@,
        r.partition_number == a.partition_number,
        r.role == a.role,
        r.size_gib == a.size_gib,
        r.use_remaining == a.use_remaining,
        r.path@ == a.path@,
        r == *a,
{
    ManualCreatePartition {
        disk: a.disk.clone(),
        partition_number: a.partition_number,
        role: a.role,
        size_gib: a.size_gib,
        use_remaining: a.use_remaining,
        path: a.path.clone(),
    }
}

fn drop_role_creates(v: &Vec<ManualCreatePartition>, role: ManualPartitionRole) -> (r: Vec<ManualCreatePartition>)
    ensures
        r@ == creates_without_role(v@, role),
{
    let ghost pred = |a: ManualCreatePartition| a.role != role;
    let mut out: Vec<ManualCreatePartition> = Vec::new();
    let n = v.len();
    let mut i: usize = 0;
    while i < n
        invariant
            n == v@.len(),
            i <= n,
            pred == (|a: ManualCreatePartition| a.role != role),
            out@ == v@.take(i as int).filter(pred),
        decreases n - i,
    {
        proof {
            assert(v@.take(i + 1) =~= v@.take(i as int).push(v@[i as int]));
            crate::text::lemma_filter_push(v@.take(i as int), pred, v@[i as int]);
        }
        if v[i].role != role {
            out.push(copy_create(&v[i]));
        }
        i = i + 1;
    }
    assert(v@.take(n as int) =~= v@);
    out
}

fn drop_path_creates(v: &Vec<ManualCreatePartition>, path: &str) -> (r: Vec<ManualCreatePartition>)
    ensures
        r@ == creates_without_path(v@, path@),
{
    let ghost pred = |a: ManualCreatePartition| a.path@ != path@;
    let mut out: Vec<ManualCreatePartition> = Vec::new();
    let n = v.len();
    let mut i: usize = 0;
    while i < n
        invariant
            n == v@.len(),
            i <= n,
            pred == (|a: ManualCreatePartition| a.path@ != path@),
            out@ == v@.take(i as int).filter(pred),
        decreases n - i,
    {
        proof {
            assert(v@.take(i + 1) =~= v@.take(i as int).push(v@[i as int]));
            crate::text::lemma_filter_push(v@.take(i as int), pred, v@[i as int]);
        }
        if !str_eq(v[i].path.as_str(), path) {
            out.push(copy_create(&v[i]));
        }
        i = i + 1;
    }
    assert(v@.take(n as int) =~= v@);
    out
}

fn keep_role_creates(v: &Vec<ManualCreatePartition>, roles: &Vec<ManualPartitionRole>) -> (r: Vec<ManualCreatePartition>)
    ensures
        r@ == creates_with_roles(v@, roles@),
{
    let ghost pred = |a: ManualCreatePartition| roles@.contains(a.role);
    let mut out: Vec<ManualCreatePartition> = Vec::new();
    let n = v.len();
    let mut i: usize = 0;
    while i < n
        invariant
            n == v@.len(),
            i <= n,
            pred == (|a: ManualCreatePartition| roles@.contains(a.role)),
            out@ == v@.take(i as int).filter(pred),
        decreases n - i,
    {
        proof {
            assert(v@.take(i + 1) =~= v@.take(i as int).push(v@[i as int]));
            crate::text::lemma_filter_push(v@.take(i as int), pred, v@[i as int]);
        }
        if role_listed(roles, v[i].role) {
            out.push(copy_create(&v[i]));
        }
        i = i + 1;
    }
    assert(v@.take(n as int) =~= v@);
    out
}

fn role_listed(roles: &Vec<ManualPartitionRole>, role: ManualPartitionRole) -> (r: bool)
    ensures
        r == roles@.contains(role),
{
    let n = roles.len();
    let mut i: usize = 0;
    while i < n
        invariant
            n == roles@.len(),
            i <= n,
            forall|j: int| 0 <= j < i ==> roles@[j] != role,
        decreases n - i,
    {
        if roles[i] == role {
            return true;
        }
        i = i + 1;
    }
    false
}

fn same_path(value: &Option<String>, path: &str) -> (r: bool)
    ensures
        r == (value is Some && value.unwrap()@ == path@),
{
    match value {
        Some(v) => str_eq(v.as_str(), path),
        None => false,
    }
}

/// Each role assigned to `path` is cleared.
pub open spec fn clear_path_spec(s: StorageSelection, path: Seq<char>) -> StorageSelection {
    let efi = s.manual_efi_partition;
    let root = s.manual_root_partition;
    let home = s.manual_home_partition;
    let swap = s.manual_swap_partition;
    StorageSelection {
        manual_efi_partition: if efi is Some && efi.unwrap()@ == path { None } else { efi },
        manual_root_partition: if root is Some && root.unwrap()@ == path { None } else { root },
        manual_home_partition: if home is Some && home.unwrap()@ == path { None } else { home },
        manual_swap_partition: if swap is Some && swap.unwrap()@ == path { None } else { swap },
        ..s
    }
}

/// Each role assigned to a partition marked for deletion is cleared.
pub open spec fn clear_deleted_spec(s: StorageSelection, deleted: Seq<Seq<char>>) -> StorageSelection {
    let gone = |o: Option<String>| o is Some && deleted.contains(o.unwrap()@);
    StorageSelection {
        manual_efi_partition: if gone(s.manual_efi_partition) { None } else { s.manual_efi_partition },
        manual_root_partition: if gone(s.manual_root_partition) { None } else { s.manual_root_partition },
        manual_home_partition: if gone(s.manual_home_partition) { None } else { s.manual_home_partition },
        manual_swap_partition: if gone(s.manual_swap_partition) { None } else { s.manual_swap_partition },
        ..s
    }
}

fn marked_deleted(deleted: &Vec<String>, value: &Option<String>) -> (r: bool)
    ensures
        r == (value is Some && views(deleted@).contains(value.unwrap()@)),
{
    match value {
        Some(v) => crate::text::contains_string(deleted, v),
        None => false,
    }
}

impl Wizard {
    /// Sets the partition of `role`.
    pub fn set_manual_role_assignment(&mut self, role: ManualPartitionRole, path: Option<String>)
        ensures
            *final(self) == with_storage(*old(self), with_role(old(self).state.storage, role, path)),
    {
        match role {
            ManualPartitionRole::Efi => self.state.storage.manual_efi_partition = path,
            ManualPartitionRole::Root => self.state.storage.manual_root_partition = path,
            ManualPartitionRole::Home => self.state.storage.manual_home_partition = path,
            ManualPartitionRole::Swap => self.state.storage.manual_swap_partition = path,
        }
    }

    /// Forgets `role`: its pending creates and its assignment.
    pub fn clear_manual_role_state(&mut self, role: ManualPartitionRole)
        ensures
            final(self).state.manual_create_actions@ == creates_without_role(old(self).state.manual_create_actions@, role),
            *final(self) == (Wizard {
                state: WizardState {
                    manual_create_actions: final(self).state.manual_create_actions,
                    storage: with_role(old(self).state.storage, role, None),
                    ..old(self).state
                },
                ..*old(self)
            }),
    {
        let kept = drop_role_creates(&self.state.manual_create_actions, role);
        self.state.manual_create_actions = kept;
        self.set_manual_role_assignment(role, None);
    }

    /// Clears every role assigned to `path`.
    pub fn clear_assignments_for_path(&mut self, path: &str)
        ensures
            *final(self) == with_storage(*old(self), clear_path_spec(old(self).state.storage, path@)),
    {
        clear_path_in(&mut self.state.storage, path);
    }

    /// Clears every role assigned to a partition marked for deletion.
    pub fn clear_deleted_partition_assignments(&mut self)
        ensures
            *final(self) == with_storage(*old(self),
                clear_deleted_spec(old(self).state.storage, views(old(self).state.manual_delete_partitions@))),
    {
        clear_deleted_in(&mut self.state.storage, &self.state.manual_delete_partitions);
    }
}

/// The selection after tidying: `/home` settings reset unless it is
/// separate, the home disk dropped unless it is another disk, the swap
/// partition dropped unless swap is a partition, and roles on partitions
/// marked for deletion cleared.
pub open spec fn normalized_storage(s0: StorageSelection, deleted: Seq<Seq<char>>) -> StorageSelection {
    let s1 = if s0.home_mode == HomeMode::Separate { s0 } else {
        StorageSelection { home_location: HomeLocation::SameDisk, home_disk: None, manual_home_partition: None, ..s0 }
    };
    let s2 = if s1.home_location != HomeLocation::OtherDisk { StorageSelection { home_disk: None, ..s1 } } else { s1 };
    let s3 = if s2.swap_mode != SwapMode::Partition { StorageSelection { manual_swap_partition: None, ..s2 } } else { s2 };
    clear_deleted_spec(s3, deleted)
}

fn normalize_in(s: &mut StorageSelection)
    ensures
        *final(s) == ({
            let s0 = *old(s);
            let s1 = if s0.home_mode == HomeMode::Separate { s0 } else {
                StorageSelection { home_location: HomeLocation::SameDisk, home_disk: None, manual_home_partition: None, ..s0 }
            };
            let s2 = if s1.home_location != HomeLocation::OtherDisk { StorageSelection { home_disk: None, ..s1 } } else { s1 };
            if s2.swap_mode != SwapMode::Partition { StorageSelection { manual_swap_partition: None, ..s2 } } else { s2 }
        }),
{
    if !matches!(s.home_mode, HomeMode::Separate) {
        s.home_location = HomeLocation::SameDisk;
        s.home_disk = None;
        s.manual_home_partition = None;
    }
    if !matches!(s.home_location, HomeLocation::OtherDisk) {
        s.home_disk = None;
    }
    if !matches!(s.swap_mode, SwapMode::Partition) {
        s.manual_swap_partition = None;
    }
}

impl Wizard {
    /// Tidies the manual setup before the manual partition manager shows it:
    /// creates for roles no longer in use are dropped, and the selection is
    /// tidied as `normalized_storage` says.
    pub fn normalize_manual_storage_state(&mut self)
        ensures
            final(self).state.manual_create_actions@ == creates_with_roles(
                old(self).state.manual_create_actions@, valid_roles_spec(old(self).state.storage)),
            *final(self) == (Wizard {
                state: WizardState {
                    manual_create_actions: final(self).state.manual_create_actions,
                    storage: normalized_storage(old(self).state.storage, views(old(self).state.manual_delete_partitions@)),
                    ..old(self).state
                },
                ..*old(self)
            }),
    {
        let valid = valid_manual_roles(&self.state.storage);
        let kept = keep_role_creates(&self.state.manual_create_actions, &valid);
        self.state.manual_create_actions = kept;
        normalize_in(&mut self.state.storage);
        clear_deleted_in(&mut self.state.storage, &self.state.manual_delete_partitions);
    }
}

fn cleared_if(value: Option<String>, clear: bool) -> (r: Option<String>)
    ensures
        r == if clear { None } else { value },
{
    if clear { None } else { value }
}

fn clear_path_in(s: &mut StorageSelection, path: &str)
    ensures
        *final(s) == clear_path_spec(*old(s), path@),
{
    let efi = same_path(&s.manual_efi_partition, path);
    let root = same_path(&s.manual_root_partition, path);
    let home = same_path(&s.manual_home_partition, path);
    let swap = same_path(&s.manual_swap_partition, path);
    s.manual_efi_partition = cleared_if(s.manual_efi_partition.take(), efi);
    s.manual_root_partition = cleared_if(s.manual_root_partition.take(), root);
    s.manual_home_partition = cleared_if(s.manual_home_partition.take(), home);
    s.manual_swap_partition = cleared_if(s.manual_swap_partition.take(), swap);
}

fn clear_deleted_in(s: &mut StorageSelection, deleted: &Vec<String>)
    ensures
        *final(s) == clear_deleted_spec(*old(s), views(deleted@)),
{
    let efi = marked_deleted(deleted, &s.manual_efi_partition);
    let root = marked_deleted(deleted, &s.manual_root_partition);
    let home = marked_deleted(deleted, &s.manual_home_partition);
    let swap = marked_deleted(deleted, &s.manual_swap_partition);
    s.manual_efi_partition = cleared_if(s.manual_efi_partition.take(), efi);
    s.manual_root_partition = cleared_if(s.manual_root_partition.take(), root);
    s.manual_home_partition = cleared_if(s.manual_home_partition.take(), home);
    s.manual_swap_partition = cleared_if(s.manual_swap_partition.take(), swap);
}

} // verus!
verus! {

// ---------------------------------------------------------------------------
// The partitions the manager lists

/// A partition as the manual partition manager lists it: one that exists,
/// or one planned.
pub struct ManualPartitionEntry {
    pub path: String,
    pub parent_disk: String,
    pub partition_number: u8,
    pub size_label: String,
    pub fstype: String,
    pub status_label: String,
    pub pending_create: bool,
}

pub struct EntryModel {
    pub path: Seq<char>,
    pub parent_disk: Seq<char>,
    pub partition_number: u8,
    pub size_label: Seq<char>,
    pub fstype: Seq<char>,
    pub status_label: Seq<char>,
    pub pending_create: bool,
}

impl View for ManualPartitionEntry {
    type V = EntryModel;

    open spec fn view(&self) -> EntryModel {
        EntryModel {
            path: self.path@,
            parent_disk: self.parent_disk@,
            partition_number: self.partition_number,
            size_label: self.size_label@,
            fstype: self.fstype@,
            status_label: self.status_label@,
            pending_create: self.pending_create,
        }
    }
}

pub open spec fn entry_views(v: Seq<ManualPartitionEntry>) -> Seq<EntryModel> {
    v.map_values(|e: ManualPartitionEntry| e@)
}

/// `a` comes before `b` in character order (which is also the byte order
/// of their UTF-8 forms, the order `String` compares by).
pub open spec fn text_less(a: Seq<char>, b: Seq<char>) -> bool
    decreases a.len(),
{
    if a.len() == 0 {
        b.len() > 0
    } else if b.len() == 0 {
        false
    } else if a[0] != b[0] {
        a[0] < b[0]
    } else {
        text_less(a.drop_first(), b.drop_first())
    }
}

proof fn lemma_text_less_step(a: Seq<char>, b: Seq<char>, i: int)
    requires
        0 <= i < a.len(),
        i < b.len(),
        a[i] == b[i],
    ensures
        text_less(a.subrange(i, a.len() as int), b.subrange(i, b.len() as int))
            == text_less(a.subrange(i + 1, a.len() as int), b.subrange(i + 1, b.len() as int)),
{
    assert(a.subrange(i, a.len() as int).drop_first() =~= a.subrange(i + 1, a.len() as int));
    assert(b.subrange(i, b.len() as int).drop_first() =~= b.subrange(i + 1, b.len() as int));
}

/// Whether `a` sorts before `b` (`a < b` on strings).
pub fn text_less_exec(a: &str, b: &str) -> (r: bool)
    ensures
        r == text_less(a@, b@),
{
    let n = a.unicode_len();
    let m = b.unicode_len();
    let mut i: usize = 0;
    assert(a@.subrange(0, n as int) =~= a@);
    assert(b@.subrange(0, m as int) =~= b@);
    while i < n && i < m
        invariant
            n == a@.len(),
            m == b@.len(),
            i <= n,
            i <= m,
            text_less(a@, b@) == text_less(a@.subrange(i as int, n as int), b@.subrange(i as int, m as int)),
        decreases n - i,
    {
        let x = a.get_char(i);
        let y = b.get_char(i);
        if x != y {
            return x < y;
        }
        proof {
            lemma_text_less_step(a@, b@, i as int);
        }
        i = i + 1;
    }
    i == n && i < m
}

/// `x` sorts strictly before `y`: by parent disk, then by number.
pub open spec fn entry_before(x: EntryModel, y: EntryModel) -> bool {
    text_less(x.parent_disk, y.parent_disk) || (x.parent_disk == y.parent_disk && x.partition_number < y.partition_number)
}

/// `s` with `x` placed after every entry it does not sort before.
pub open spec fn insert_entry(s: Seq<EntryModel>, x: EntryModel) -> Seq<EntryModel>
    decreases s.len(),
{
    if s.len() == 0 {
        seq![x]
    } else if !entry_before(x, s.last()) {
        s.push(x)
    } else {
        insert_entry(s.drop_last(), x).push(s.last())
    }
}

/// The entries stably sorted by parent disk and number.
pub open spec fn sort_entries(s: Seq<EntryModel>) -> Seq<EntryModel>
    decreases s.len(),
{
    if s.len() == 0 {
        Seq::empty()
    } else {
        insert_entry(sort_entries(s.drop_last()), s.last())
    }
}

proof fn lemma_insert_entry_position(s: Seq<EntryModel>, x: EntryModel, p: int)
    requires
        0 <= p <= s.len(),
        forall|j: int| p <= j < s.len() ==> entry_before(x, #[trigger] s[j]),
        p == 0 || !entry_before(x, s[p - 1]),
    ensures
        insert_entry(s, x) == s.insert(p, x),
    decreases s.len(),
{
    if s.len() == 0 {
        assert(s.insert(p, x) =~= seq![x]);
    } else if p == s.len() {
        assert(s.insert(p, x) =~= s.push(x));
    } else {
        let t = s.drop_last();
        assert(entry_before(x, s[s.len() - 1]));
        assert forall|j: int| p <= j < t.len() implies entry_before(x, #[trigger] t[j]) by {
            assert(t[j] == s[j]);
        }
        if p > 0 {
            assert(t[p - 1] == s[p - 1]);
        }
        lemma_insert_entry_position(t, x, p);
        assert(t.insert(p, x).push(s.last()) =~= s.insert(p, x));
    }
}

fn entry_before_exec(x: &ManualPartitionEntry, y: &ManualPartitionEntry) -> (r: bool)
    ensures
        r == entry_before(x@, y@),
{
    text_less_exec(x.parent_disk.as_str(), y.parent_disk.as_str())
        || (str_eq(x.parent_disk.as_str(), y.parent_disk.as_str()) && x.partition_number < y.partition_number)
}

/// Sorts the entries by parent disk, then number, keeping the order of
/// entries that tie.
pub fn sort_manual_entries(entries: Vec<ManualPartitionEntry>) -> (r: Vec<ManualPartitionEntry>)
    ensures
        entry_views(r@) == sort_entries(entry_views(entries@)),
{
    let ghost ev = entry_views(entries@);
    let mut sorted: Vec<ManualPartitionEntry> = Vec::new();
    for e in it: entries
        invariant
            it.seq() == entries@,
            ev == entry_views(entries@),
            entry_views(sorted@) == sort_entries(ev.take(it.index() as int)),
    {
        let ghost k = it.index();
        let mut p = sorted.len();
        while p > 0 && entry_before_exec(&e, &sorted[p - 1])
            invariant
                p <= sorted@.len(),
                forall|j: int| p <= j < sorted@.len() ==> entry_before(e@, #[trigger] entry_views(sorted@)[j]),
            decreases p,
        {
            assert(entry_views(sorted@)[p - 1] == sorted@[p - 1]@);
            p = p - 1;
        }
        proof {
            if p > 0 {
                assert(entry_views(sorted@)[p - 1] == sorted@[p - 1]@);
            }
            lemma_insert_entry_position(entry_views(sorted@), e@, p as int);
            assert(ev.take(k + 1).drop_last() =~= ev.take(k as int));
            assert(ev[k as int] == e@);
        }
        let ghost prev = sorted@;
        sorted.insert(p, e);
        assert(entry_views(sorted@) =~= entry_views(prev).insert(p as int, e@));
    }
    assert(ev.take(ev.len() as int) =~= ev);
    sorted
}

/// The root filesystem the selection asks for: ext4 when it says so, XFS
/// otherwise.
pub open spec fn root_fs_spec(s: StorageSelection) -> FilesystemType {
    if s.fs_type@ == "ext4"@ { FilesystemType::Ext4 } else { FilesystemType::Xfs }
}

pub open spec fn existing_entry(p: PartitionInfo) -> EntryModel {
    EntryModel {
        path: p.path@,
        parent_disk: p.parent_disk@,
        partition_number: p.partition_number,
        size_label: decimal(gib(p.size_bytes as nat)) + " GiB"@,
        fstype: match p.fstype { Some(f) => f@, None => Seq::empty() },
        status_label: "existing"@,
        pending_create: false,
    }
}

pub open spec fn pending_entry(a: ManualCreatePartition, root_fs: FilesystemType) -> EntryModel {
    EntryModel {
        path: a.path@,
        parent_disk: a.disk@,
        partition_number: a.partition_number,
        size_label: if a.use_remaining { "remaining space"@ } else {
            decimal((match a.size_gib { Some(g) => g, None => 0u64 }) as nat) + " GiB"@
        },
        fstype: a.role.default_fs_spec(root_fs).label_spec(),
        status_label: "pending "@ + a.role.label_spec(),
        pending_create: true,
    }
}

/// What the manager lists, given every partition `lsblk` reports: the
/// partitions on the managed disks that are not marked for deletion, and the
/// planned ones, sorted by disk and number; nothing when no disk is managed.
pub open spec fn entries_spec(w: Wizard, partitions: Seq<PartitionInfo>) -> Seq<EntryModel> {
    let managed = managed_disks_spec(w.state.storage);
    let deleted = views(w.state.manual_delete_partitions@);
    let root_fs = root_fs_spec(w.state.storage);
    if managed.len() == 0 {
        Seq::empty()
    } else {
        let kept = partitions.filter(|p: PartitionInfo| managed.contains(p.parent_disk@))
            .filter(|p: PartitionInfo| !deleted.contains(p.path@));
        sort_entries(kept.map_values(|p: PartitionInfo| existing_entry(p))
            + w.state.manual_create_actions@.map_values(|a: ManualCreatePartition| pending_entry(a, root_fs)))
    }
}

fn existing_entry_exec(p: &PartitionInfo) -> (r: ManualPartitionEntry)
    ensures
        r@ == existing_entry(*p),
{
    ManualPartitionEntry {
        path: p.path.clone(),
        parent_disk: p.parent_disk.clone(),
        partition_number: p.partition_number,
        size_label: human_gib_label(p.size_bytes),
        fstype: match &p.fstype {
            Some(f) => f.clone(),
            None => String::new(),
        },
        status_label: owned("existing"),
        pending_create: false,
    }
}

fn pending_entry_exec(a: &ManualCreatePartition, root_fs: &FilesystemType) -> (r: ManualPartitionEntry)
    ensures
        r@ == pending_entry(*a, *root_fs),
{
    let size_label = if a.use_remaining {
        owned("remaining space")
    } else {
        let g = match a.size_gib {
            Some(g) => g,
            None => 0,
        };
        u64_to_string(g).concat(" GiB")
    };
    ManualPartitionEntry {
        path: a.path.clone(),
        parent_disk: a.disk.clone(),
        partition_number: a.partition_number,
        size_label,
        fstype: owned(a.role.default_fs(root_fs).label()),
        status_label: owned("pending ").concat(a.role.label()),
        pending_create: true,
    }
}

impl Wizard {
    pub fn root_fs_type(&self) -> (r: FilesystemType)
        ensures
            r == root_fs_spec(self.state.storage),
    {
        if str_eq(self.state.storage.fs_type.as_str(), "ext4") { FilesystemType::Ext4 } else { FilesystemType::Xfs }
    }

    /// The partitions the manual partition manager lists, from every
    /// partition `lsblk` reports.
    pub fn manual_partition_entries(&self, partitions: Vec<PartitionInfo>) -> (r: Vec<ManualPartitionEntry>)
        ensures
            entry_views(r@) == entries_spec(*self, partitions@),
    {
        let managed = managed_disks(&self.state.storage);
        if managed.len() == 0 {
            proof {
                assert(entries_spec(*self, partitions@) =~= Seq::<EntryModel>::empty());
            }
            return Vec::new();
        }
        let ghost all = partitions@;
        let on_managed = get_partitions_for_managed_disks(partitions, managed.as_slice());
        let ghost deleted = views(self.state.manual_delete_partitions@);
        let ghost keep = |p: PartitionInfo| !deleted.contains(p.path@);
        let mut entries: Vec<ManualPartitionEntry> = Vec::new();
        let n = on_managed.len();
        let mut i: usize = 0;
        while i < n
            invariant
                n == on_managed@.len(),
                i <= n,
                deleted == views(self.state.manual_delete_partitions@),
                keep == (|p: PartitionInfo| !deleted.contains(p.path@)),
                entry_views(entries@) == on_managed@.take(i as int).filter(keep).map_values(|p: PartitionInfo| existing_entry(p)),
            decreases n - i,
        {
            proof {
                assert(on_managed@.take(i + 1) =~= on_managed@.take(i as int).push(on_managed@[i as int]));
                crate::text::lemma_filter_push(on_managed@.take(i as int), keep, on_managed@[i as int]);
            }
            let p = &on_managed[i];
            if !crate::text::contains_string(&self.state.manual_delete_partitions, &p.path) {
                let ghost prev = entries@;
                let e = existing_entry_exec(p);
                entries.push(e);
                assert(entry_views(entries@) =~= entry_views(prev).push(e@));
            }
            proof {
                let f = on_managed@.take(i as int).filter(keep);
                assert(f.push(on_managed@[i as int]).map_values(|p: PartitionInfo| existing_entry(p))
                    =~= f.map_values(|p: PartitionInfo| existing_entry(p)).push(existing_entry(on_managed@[i as int])));
            }
            i = i + 1;
        }
        assert(on_managed@.take(n as int) =~= on_managed@);
        let ghost existing_part = entry_views(entries@);
        let root_fs = self.root_fs_type();
        let creates = &self.state.manual_create_actions;
        let m = creates.len();
        let mut j: usize = 0;
        while j < m
            invariant
                m == creates@.len(),
                j <= m,
                root_fs == root_fs_spec(self.state.storage),
                entry_views(entries@) == existing_part
                    + creates@.take(j as int).map_values(|a: ManualCreatePartition| pending_entry(a, root_fs)),
            decreases m - j,
        {
            let ghost prev = entries@;
            let e = pending_entry_exec(&creates[j], &root_fs);
            entries.push(e);
            proof {
                assert(creates@.take(j + 1).map_values(|a: ManualCreatePartition| pending_entry(a, root_fs))
                    =~= creates@.take(j as int).map_values(|a: ManualCreatePartition| pending_entry(a, root_fs))
                        .push(pending_entry(creates@[j as int], root_fs)));
                assert(entry_views(entries@) =~= entry_views(prev).push(e@));
            }
            j = j + 1;
        }
        assert(creates@.take(m as int) =~= creates@);
        proof {
            assert(managed_disks_spec(self.state.storage) == views(managed@));
        }
        sort_manual_entries(entries)
    }
}

/// The disks a partition for `role` may go on: any managed disk for
/// `/home`, otherwise the install disk (none when it is not chosen).
pub open spec fn role_target_disks(s: StorageSelection, role: ManualPartitionRole) -> Seq<Seq<char>> {
    if role == ManualPartitionRole::Home {
        managed_disks_spec(s)
    } else if s.install_disk@.len() == 0 {
        Seq::empty()
    } else {
        seq![s.install_disk@]
    }
}

pub open spec fn role_label_spec(s: StorageSelection, role: ManualPartitionRole) -> Seq<char> {
    match role_assignment(s, role) {
        Some(p) => p@,
        None => "(not set)"@,
    }
}

/// The outcome of planning a partition for `role` on `disk`: its number is
/// the smallest free one, and the role is assigned the new partition.
pub open spec fn planned(
    old_w: Wizard,
    new_w: Wizard,
    role: ManualPartitionRole,
    disk: Seq<char>,
    existing: Seq<PartitionInfo>,
    size_gib: Option<u64>,
    use_remaining: bool,
    n: u8,
    path: Seq<char>,
) -> bool {
    let creates = old_w.state.manual_create_actions@;
    let deletes = old_w.state.manual_delete_partitions@;
    &&& 1 <= n <= 127
    &&& !number_used(disk, existing, creates, deletes, n)
    &&& forall|k: u8| 1 <= k < n ==> #[trigger] number_used(disk, existing, creates, deletes, k)
    &&& path == partition_path(disk, n as nat)
    &&& new_w.state.manual_create_actions@.len() == creates.len() + 1
    &&& new_w.state.manual_create_actions@.drop_last() == creates
    &&& ({
        let a = new_w.state.manual_create_actions@.last();
        &&& a.disk@ == disk
        &&& a.partition_number == n
        &&& a.role == role
        &&& a.size_gib == size_gib
        &&& a.use_remaining == use_remaining
        &&& a.path@ == path
    })
    &&& new_w == (Wizard {
        state: WizardState {
            manual_create_actions: new_w.state.manual_create_actions,
            storage: with_role(old_w.state.storage, role, role_assignment(new_w.state.storage, role)),
            ..old_w.state
        },
        ..old_w
    })
    &&& role_assignment(new_w.state.storage, role) is Some
    &&& role_assignment(new_w.state.storage, role).unwrap()@ == path
}

proof fn lemma_with_role(s: StorageSelection, role: ManualPartitionRole, t: StorageSelection, path: Seq<char>)
    requires
        exists|v: String| v@ == path && t == #[trigger] with_role(s, role, Some(v)),
    ensures
        role_assignment(t, role) is Some,
        role_assignment(t, role).unwrap()@ == path,
        t == with_role(s, role, role_assignment(t, role)),
{
    let v = choose|v: String| v@ == path && t == #[trigger] with_role(s, role, Some(v));
    match role {
        ManualPartitionRole::Efi => {},
        ManualPartitionRole::Root => {},
        ManualPartitionRole::Home => {},
        ManualPartitionRole::Swap => {},
    }
}

impl Wizard {
    pub fn manual_role_target_disks(&self, role: ManualPartitionRole) -> (r: Vec<String>)
        ensures
            views(r@) == role_target_disks(self.state.storage, role),
    {
        if matches!(role, ManualPartitionRole::Home) {
            managed_disks(&self.state.storage)
        } else if self.state.storage.install_disk.as_str().unicode_len() == 0 {
            let r: Vec<String> = Vec::new();
            assert(views(r@) =~= Seq::<Seq<char>>::empty());
            r
        } else {
            let mut r: Vec<String> = Vec::new();
            r.push(self.state.storage.install_disk.clone());
            assert(views(r@) =~= seq![self.state.storage.install_disk@]);
            r
        }
    }

    /// The partition `role` is assigned, or `(not set)`.
    pub fn manual_role_label(&self, role: ManualPartitionRole) -> (r: String)
        ensures
            r@ == role_label_spec(self.state.storage, role),
    {
        let value = match role {
            ManualPartitionRole::Efi => &self.state.storage.manual_efi_partition,
            ManualPartitionRole::Root => &self.state.storage.manual_root_partition,
            ManualPartitionRole::Home => &self.state.storage.manual_home_partition,
            ManualPartitionRole::Swap => &self.state.storage.manual_swap_partition,
        };
        match value {
            Some(p) => p.clone(),
            None => owned("(not set)"),
        }
    }

    /// Plans a new partition for `role` on `disk`, given every partition
    /// `lsblk` reports: it takes the smallest free number on the disk, and
    /// the role is assigned the new partition. Fails, changing nothing, when
    /// no number is free.
    pub fn plan_manual_partition(
        &mut self,
        role: ManualPartitionRole,
        disk: &str,
        partitions: Vec<PartitionInfo>,
        size_gib: Option<u64>,
        use_remaining: bool,
    ) -> (r: Result<String, String>)
        ensures
            ({
                let existing = partitions@.filter(|p: PartitionInfo|
                    managed_disks_spec(old(self).state.storage).contains(p.parent_disk@));
                match r {
                    Ok(msg) => exists|n: u8, path: Seq<char>| {
                        &&& #[trigger] planned(*old(self), *final(self), role, disk@, existing, size_gib, use_remaining, n, path)
                        &&& msg@ == "Planned "@ + path + " on "@ + disk@ + " as "@ + role.label_spec() + "."@
                    },
                    Err(e) => {
                        &&& forall|k: u8| 1 <= k <= 127 ==> #[trigger] number_used(disk@, existing,
                            old(self).state.manual_create_actions@, old(self).state.manual_delete_partitions@, k)
                        &&& e@ == "No free GPT partition numbers remain on "@ + disk@
                        &&& *final(self) == *old(self)
                    },
                }
            }),
    {
        let ghost spec_existing = partitions@.filter(|p: PartitionInfo|
            managed_disks_spec(self.state.storage).contains(p.parent_disk@));
        let managed = managed_disks(&self.state.storage);
        let ghost all = partitions@;
        let existing = get_partitions_for_managed_disks(partitions, managed.as_slice());
        proof {
            let f1 = |p: PartitionInfo| views(managed@).contains(p.parent_disk@);
            let f2 = |p: PartitionInfo| managed_disks_spec(self.state.storage).contains(p.parent_disk@);
            assert(f1 =~= f2);
            assert(existing@ == spec_existing);
        }
        let n = match next_available_partition_number(
            disk,
            existing.as_slice(),
            self.state.manual_create_actions.as_slice(),
            self.state.manual_delete_partitions.as_slice(),
        ) {
            Ok(n) => n,
            Err(e) => return Err(e),
        };
        let path = partition_device_path(disk, n);
        let ghost before = *self;
        let msg = owned("Planned ").concat(path.as_str()).concat(" on ").concat(disk).concat(" as ")
            .concat(role.label()).concat(".");
        let ghost path_view = path@;
        self.record_planned(role, disk, n, path, size_gib, use_remaining);
        proof {
            assert(planned(before, *self, role, disk@, spec_existing, size_gib, use_remaining, n, path_view));
        }
        Ok(msg)
    }

    fn record_planned(&mut self, role: ManualPartitionRole, disk: &str, n: u8, path: String, size_gib: Option<u64>, use_remaining: bool)
        ensures
            final(self).state.manual_create_actions@.len() == old(self).state.manual_create_actions@.len() + 1,
            final(self).state.manual_create_actions@.drop_last() == old(self).state.manual_create_actions@,
            ({
                let a = final(self).state.manual_create_actions@.last();
                &&& a.disk@ == disk@
                &&& a.partition_number == n
                &&& a.role == role
                &&& a.size_gib == size_gib
                &&& a.use_remaining == use_remaining
                &&& a.path@ == path@
            }),
            *final(self) == (Wizard {
                state: WizardState {
                    manual_create_actions: final(self).state.manual_create_actions,
                    storage: with_role(old(self).state.storage, role, role_assignment(final(self).state.storage, role)),
                    ..old(self).state
                },
                ..*old(self)
            }),
            role_assignment(final(self).state.storage, role) is Some,
            role_assignment(final(self).state.storage, role).unwrap()@ == path@,
    {
        let ghost before = self.state.manual_create_actions@;
        let ghost w0 = *self;
        let action = ManualCreatePartition {
            disk: owned(disk),
            partition_number: n,
            role,
            size_gib,
            use_remaining,
            path: path.clone(),
        };
        let mut creates: Vec<ManualCreatePartition> = Vec::new();
        std::mem::swap(&mut creates, &mut self.state.manual_create_actions);
        creates.push(action);
        assert(creates@.drop_last() =~= before);
        self.state.manual_create_actions = creates;
        let ghost w1 = *self;
        assert(w1 == (Wizard { state: WizardState { manual_create_actions: w1.state.manual_create_actions, ..w0.state }, ..w0 }));
        self.set_manual_role_assignment(role, Some(path));
        proof {
            lemma_with_role(w1.state.storage, role, self.state.storage, path@);
        }
    }
}

/// How the size of a planned root partition is given.
#[derive(Clone, Copy, Debug, PartialEq, Eq, Structural)]
pub enum RootSizeChoice {
    Back,
    /// Use the rest of the disk.
    Remaining,
    /// Ask for a size in GiB.
    AskSize,
    Invalid,
}

/// The root size menu: `1` uses the free space left, `2` asks for a size.
pub fn root_size_choice(input: &str) -> (r: RootSizeChoice)
    ensures
        r == if input@ == "back"@ { RootSizeChoice::Back } else if input@ == "1"@ { RootSizeChoice::Remaining }
            else if input@ == "2"@ { RootSizeChoice::AskSize } else { RootSizeChoice::Invalid },
{
    if str_eq(input, "back") {
        RootSizeChoice::Back
    } else if str_eq(input, "1") {
        RootSizeChoice::Remaining
    } else if str_eq(input, "2") {
        RootSizeChoice::AskSize
    } else {
        RootSizeChoice::Invalid
    }
}

/// A size typed in GiB: a positive number, or the line to print.
pub fn size_entry(input: &str) -> (r: Result<u64, String>)
    ensures
        match parse_unsigned(input@, u64::MAX as nat) {
            Some(v) => if v > 0 { r == Ok::<u64, String>(v as u64) } else {
                r is Err && r->Err_0@ == "Size must be greater than zero."@
            },
            None => r is Err && r->Err_0@ == "Size must be greater than zero."@,
        },
{
    match parse_unsigned_exec(input, u64::MAX) {
        Some(v) => if v > 0 { Ok(v) } else { Err(owned("Size must be greater than zero.")) },
        None => Err(owned("Size must be greater than zero.")),
    }
}

/// The prompt for the size of a partition for `role` (other than root).
pub fn size_prompt(role: ManualPartitionRole) -> (r: String)
    ensures
        r@ == role.label_spec() + " size in GiB: "@,
{
    owned(role.label()).concat(" size in GiB: ")
}

/// What must be typed to confirm deleting the partition at `path`.
pub fn delete_token(path: &str) -> (r: String)
    ensures
        r@ == "delete "@ + path@,
{
    owned("delete ").concat(path)
}

impl Wizard {
    /// Deleting `target` once the confirmation `typed` is read: without the
    /// exact token nothing changes; otherwise a planned partition is
    /// dropped from the plan, an existing one is marked for deletion (once),
    /// and the roles on it are cleared.
    pub fn confirm_delete(&mut self, target: &ManualPartitionEntry, typed: &str) -> (r: String)
        ensures
            typed@ != "delete "@ + target.path@ ==> r@ == "Delete cancelled."@ && *final(self) == *old(self),
            typed@ == "delete "@ + target.path@ ==> {
                let creates = if target.pending_create {
                    creates_without_path(old(self).state.manual_create_actions@, target.path@)
                } else {
                    old(self).state.manual_create_actions@
                };
                let deletes = if !target.pending_create && !views(old(self).state.manual_delete_partitions@).contains(target.path@) {
                    views(old(self).state.manual_delete_partitions@).push(target.path@)
                } else {
                    views(old(self).state.manual_delete_partitions@)
                };
                &&& r@ == "Marked "@ + target.path@ + " for deletion."@
                &&& final(self).state.manual_create_actions@ == creates
                &&& views(final(self).state.manual_delete_partitions@) == deletes
                &&& *final(self) == (Wizard {
                    state: WizardState {
                        manual_create_actions: final(self).state.manual_create_actions,
                        manual_delete_partitions: final(self).state.manual_delete_partitions,
                        storage: clear_deleted_spec(clear_path_spec(old(self).state.storage, target.path@), deletes),
                        ..old(self).state
                    },
                    ..*old(self)
                })
            },
    {
        let token = delete_token(target.path.as_str());
        if !str_eq(typed, token.as_str()) {
            return owned("Delete cancelled.");
        }
        if target.pending_create {
            let kept = drop_path_creates(&self.state.manual_create_actions, target.path.as_str());
            self.state.manual_create_actions = kept;
        } else if !crate::text::contains_string(&self.state.manual_delete_partitions, &target.path) {
            let ghost prev = self.state.manual_delete_partitions@;
            self.state.manual_delete_partitions.push(target.path.clone());
            assert(views(self.state.manual_delete_partitions@) =~= views(prev).push(target.path@));
        }
        self.clear_assignments_for_path(target.path.as_str());
        self.clear_deleted_partition_assignments();
        owned("Marked ").concat(target.path.as_str()).concat(" for deletion.")
    }
}

} // verus!
