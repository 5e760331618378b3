use crate::cli::manual::{entry_views, managed_disks, managed_disks_spec, role_assignment, role_label_spec, role_target_disks, valid_manual_roles, valid_roles_spec, with_role, with_storage, EntryModel, ManualPartitionEntry};
use crate::cli::menus::{list_choice, list_choice_spec, ListChoice};
use crate::cli::screens::{lemma_command_words, ReplyModel};
use crate::cli::wizard::{empty_as, empty_as_spec, join_or_none, join_or_none_spec, yes_no, yes_no_spec, Menu, Reply, Wizard};
use crate::installer::storage_plan::{HomeMode, ManualPartitionRole, StorageSelection, SwapMode};
use crate::installer::commands::push_str;
use crate::text::{decimal, owned, str_eq, u64_to_string, views};
use vstd::prelude::*;

verus! {

/// A pick in a numbered list: `Ok(None)` for `back`, `Ok(Some(i))` for the
/// entry at index `i`, and the line to print for anything else.
pub fn pick_index(input: &str, count: usize) -> (r: Result<Option<usize>, Reply>)
    ensures
        match list_choice_spec(input@, count as nat) {
            ListChoice::Back => r == Ok::<Option<usize>, Reply>(None),
            ListChoice::Chosen(i) => r == Ok::<Option<usize>, Reply>(Some(i)),
            _ => r is Err && r->Err_0@ == ReplyModel::Say("Invalid selection."@),
        },
{
    match list_choice(input, count) {
        ListChoice::Back => Ok(None),
        ListChoice::Chosen(i) => Ok(Some(i)),
        _ => Err(Reply::Say(owned("Invalid selection."))),
    }
}

/// Where a new partition for a role can go.
pub enum CreateTarget {
    /// No managed disk can take it: the line to print.
    NoDisk(String),
    /// Only this disk can.
    Only(String),
    /// One of these disks, to be chosen.
    Choose(Vec<String>),
}

pub open spec fn home_separate(s: StorageSelection) -> bool {
    s.home_mode == HomeMode::Separate
}

pub open spec fn swap_partition(s: StorageSelection) -> bool {
    s.swap_mode == SwapMode::Partition
}

pub open spec fn manual_head_lines(w: Wizard) -> Seq<Seq<char>> {
    let s = w.state.storage;
    seq![
        "Managed disks: "@ + join_or_none_spec(managed_disks_spec(s)),
        "EFI: "@ + role_label_spec(s, ManualPartitionRole::Efi),
        "root: "@ + role_label_spec(s, ManualPartitionRole::Root),
    ]
        + (if home_separate(s) { seq!["home: "@ + role_label_spec(s, ManualPartitionRole::Home)] } else { Seq::empty() })
        + (if swap_partition(s) { seq!["swap: "@ + role_label_spec(s, ManualPartitionRole::Swap)] } else { Seq::empty() })
        + seq![
            "Format flags: EFI "@ + yes_no_spec(s.format_efi) + " | root "@ + yes_no_spec(s.format_root)
                + (if home_separate(s) { " | home "@ + yes_no_spec(s.format_home) } else { Seq::empty() })
                + (if swap_partition(s) { " | swap "@ + yes_no_spec(s.format_swap) } else { Seq::empty() }),
            Seq::empty(),
            "Partitions:"@,
        ]
}

/// The line for entry number `n` (from 1).
pub open spec fn entry_line(n: nat, e: EntryModel) -> Seq<char> {
    decimal(n) + ") "@ + e.path + " | "@ + e.size_label + " | "@ + empty_as_spec(e.fstype, "unknown"@) + " | "@ + e.status_label
}

pub open spec fn entry_lines_spec(entries: Seq<EntryModel>) -> Seq<Seq<char>> {
    if entries.len() == 0 {
        seq!["- none"@]
    } else {
        Seq::new(entries.len(), |i: int| entry_line((i + 1) as nat, entries[i]))
    }
}

/// The partitions as the manager lists them, numbered from 1, or `- none`.
pub fn manual_entry_lines(entries: &Vec<ManualPartitionEntry>) -> (r: Vec<String>)
    requires
        entries@.len() < usize::MAX,
    ensures
        views(r@) == entry_lines_spec(entry_views(entries@)),
{
    let mut r: Vec<String> = Vec::new();
    let ghost ev = entry_views(entries@);
    if entries.len() == 0 {
        r.push(owned("- none"));
        assert(views(r@) =~= seq!["- none"@]);
        return r;
    }
    let n = entries.len();
    let mut i: usize = 0;
    while i < n
        invariant
            n == entries@.len(),
            n < usize::MAX,
            i <= n,
            ev == entry_views(entries@),
            views(r@) =~= Seq::new(i as nat, |j: int| entry_line((j + 1) as nat, ev[j])),
        decreases n - i,
    {
        let e = &entries[i];
        let line = u64_to_string((i + 1) as u64).concat(") ").concat(e.path.as_str()).concat(" | ")
            .concat(e.size_label.as_str()).concat(" | ").concat(empty_as(e.fstype.as_str(), "unknown").as_str())
            .concat(" | ").concat(e.status_label.as_str());
        let ghost prev = views(r@);
        r.push(line);
        proof {
            assert(ev[i as int] == e@);
            assert(line@ == entry_line((i + 1) as nat, ev[i as int]));
            assert(views(r@) =~= prev.push(line@));
        }
        i = i + 1;
    }
    r
}

impl Wizard {
    /// What the manual partition manager shows above the partitions: the
    /// managed disks, the roles in use and their partitions, and the format
    /// flags.
    pub fn manual_screen(&self) -> (r: Vec<String>)
        ensures
            views(r@) == manual_head_lines(*self),
    {
        let s = &self.state.storage;
        let separate = matches!(s.home_mode, HomeMode::Separate);
        let swap = matches!(s.swap_mode, SwapMode::Partition);
        let mut r: Vec<String> = Vec::new();
        let managed = managed_disks(s);
        push_str(&mut r, owned("Managed disks: ").concat(join_or_none(&managed).as_str()).as_str());
        push_str(&mut r, owned("EFI: ").concat(self.manual_role_label(ManualPartitionRole::Efi).as_str()).as_str());
        push_str(&mut r, owned("root: ").concat(self.manual_role_label(ManualPartitionRole::Root).as_str()).as_str());
        let ghost first = views(r@);
        if separate {
            push_str(&mut r, owned("home: ").concat(self.manual_role_label(ManualPartitionRole::Home).as_str()).as_str());
        }
        let ghost second = views(r@);
        if swap {
            push_str(&mut r, owned("swap: ").concat(self.manual_role_label(ManualPartitionRole::Swap).as_str()).as_str());
        }
        let ghost third = views(r@);
        let mut flags = owned("Format flags: EFI ").concat(yes_no(s.format_efi)).concat(" | root ").concat(yes_no(s.format_root));
        if separate {
            flags = flags.concat(" | home ").concat(yes_no(s.format_home));
        }
        if swap {
            flags = flags.concat(" | swap ").concat(yes_no(s.format_swap));
        }
        push_str(&mut r, flags.as_str());
        let ghost fourth = views(r@);
        r.push(String::new());
        let ghost fifth = views(r@);
        assert(fifth =~= fourth.push(Seq::<char>::empty()));
        push_str(&mut r, "Partitions:");
        proof {
            assert(views(managed@) == managed_disks_spec(*s));
            let st = self.state.storage;
            assert(first =~= seq![
                "Managed disks: "@ + join_or_none_spec(managed_disks_spec(st)),
                "EFI: "@ + role_label_spec(st, ManualPartitionRole::Efi),
                "root: "@ + role_label_spec(st, ManualPartitionRole::Root),
            ]);
            assert(third =~= first
                + (if home_separate(st) { seq!["home: "@ + role_label_spec(st, ManualPartitionRole::Home)] } else { Seq::empty() })
                + (if swap_partition(st) { seq!["swap: "@ + role_label_spec(st, ManualPartitionRole::Swap)] } else { Seq::empty() }));
            let flag_line = "Format flags: EFI "@ + yes_no_spec(st.format_efi) + " | root "@ + yes_no_spec(st.format_root)
                + (if home_separate(st) { " | home "@ + yes_no_spec(st.format_home) } else { Seq::empty() })
                + (if swap_partition(st) { " | swap "@ + yes_no_spec(st.format_swap) } else { Seq::empty() });
            assert(flags@ =~= flag_line);
            assert(fourth == third.push(flags@));
            assert(fifth == fourth.push(Seq::<char>::empty()));
            assert(views(r@) == fifth.push("Partitions:"@));
            assert(views(r@) =~= third + seq![flag_line, Seq::empty(), "Partitions:"@]);
            assert(views(r@) =~= manual_head_lines(*self));
        }
        r
    }

    /// A command on the manual partition manager: `1` create, `2` delete,
    /// `3` assign a role, `4` format flags, `5` or `back` to leave.
    pub fn manual_menu_input(&self, input: &str) -> (r: Reply)
        ensures
            r@ == if input@ == "back"@ || input@ == "5"@ { ReplyModel::Leave }
                else if input@ == "1"@ { ReplyModel::Open(Menu::ManualCreate) }
                else if input@ == "2"@ { ReplyModel::Open(Menu::ManualDelete) }
                else if input@ == "3"@ { ReplyModel::Open(Menu::ManualAssign) }
                else if input@ == "4"@ { ReplyModel::Open(Menu::ManualFormatFlags) }
                else if input@ == "help"@ { ReplyModel::Say("Create, delete, assign, and format installer partitions on the managed disks."@) }
                else { ReplyModel::Say("Unknown input: "@ + input@) },
    {
        if str_eq(input, "back") || str_eq(input, "5") {
            Reply::Leave
        } else if str_eq(input, "1") {
            Reply::Open(Menu::ManualCreate)
        } else if str_eq(input, "2") {
            Reply::Open(Menu::ManualDelete)
        } else if str_eq(input, "3") {
            Reply::Open(Menu::ManualAssign)
        } else if str_eq(input, "4") {
            Reply::Open(Menu::ManualFormatFlags)
        } else if str_eq(input, "help") {
            Reply::Say(owned("Create, delete, assign, and format installer partitions on the managed disks."))
        } else {
            Reply::Say(owned("Unknown input: ").concat(input))
        }
    }

    /// A role picked from the roles the setup uses.
    pub fn pick_manual_role(&self, input: &str) -> (r: Result<Option<ManualPartitionRole>, Reply>)
        ensures
            ({
                let roles = valid_roles_spec(self.state.storage);
                match list_choice_spec(input@, roles.len()) {
                    ListChoice::Back => r == Ok::<Option<ManualPartitionRole>, Reply>(None),
                    ListChoice::Chosen(i) => r == Ok::<Option<ManualPartitionRole>, Reply>(Some(roles[i as int])),
                    _ => r is Err && r->Err_0@ == ReplyModel::Say("Invalid selection."@),
                }
            }),
    {
        let roles = valid_manual_roles(&self.state.storage);
        match pick_index(input, roles.len()) {
            Ok(None) => Ok(None),
            Ok(Some(i)) => Ok(Some(roles[i])),
            Err(e) => Err(e),
        }
    }

    /// Where a new partition for `role` can go: nowhere, one disk, or a
    /// choice of disks.
    pub fn create_target(&self, role: ManualPartitionRole) -> (r: CreateTarget)
        ensures
            ({
                let disks = role_target_disks(self.state.storage, role);
                match r {
                    CreateTarget::NoDisk(msg) => disks.len() == 0
                        && msg@ == "No managed disk is available for "@ + role.label_spec() + "."@,
                    CreateTarget::Only(d) => disks.len() == 1 && d@ == disks[0],
                    CreateTarget::Choose(v) => disks.len() > 1 && views(v@) == disks,
                }
            }),
    {
        let disks = self.manual_role_target_disks(role);
        if disks.len() == 0 {
            CreateTarget::NoDisk(owned("No managed disk is available for ").concat(role.label()).concat("."))
        } else if disks.len() == 1 {
            assert(views(disks@)[0] == disks@[0]@);
            CreateTarget::Only(disks[0].clone())
        } else {
            CreateTarget::Choose(disks)
        }
    }

    /// The listed partitions a role can be assigned: those on the disks the
    /// role may use.
    pub fn assignable_entries(&self, role: ManualPartitionRole, entries: Vec<ManualPartitionEntry>) -> (r: Vec<ManualPartitionEntry>)
        ensures
            entry_views(r@) == entry_views(entries@).filter(|e: EntryModel|
                role_target_disks(self.state.storage, role).contains(e.parent_disk)),
    {
        let targets = self.manual_role_target_disks(role);
        let ghost pred = |e: EntryModel| role_target_disks(self.state.storage, role).contains(e.parent_disk);
        let ghost ev = entry_views(entries@);
        let mut out: Vec<ManualPartitionEntry> = Vec::new();
        for e in it: entries
            invariant
                it.seq() == entries@,
                ev == entry_views(entries@),
                views(targets@) == role_target_disks(self.state.storage, role),
                pred == (|e: EntryModel| role_target_disks(self.state.storage, role).contains(e.parent_disk)),
                entry_views(out@) == ev.take(it.index() as int).filter(pred),
        {
            let ghost k = it.index();
            proof {
                assert(ev.take(k + 1) =~= ev.take(k as int).push(ev[k as int]));
                crate::text::lemma_filter_push(ev.take(k as int), pred, ev[k as int]);
                assert(ev[k as int] == e@);
            }
            if crate::text::contains_string(&targets, &e.parent_disk) {
                let ghost prev = out@;
                out.push(e);
                assert(entry_views(out@) =~= entry_views(prev).push(ev[k as int]));
            }
        }
        assert(ev.take(ev.len() as int) =~= ev);
        out
    }

    /// A line typed when assigning `role`: `clear` takes the assignment
    /// away, a number gives the role that listed partition.
    pub fn assign_choice(&mut self, role: ManualPartitionRole, input: &str, entries: &Vec<ManualPartitionEntry>) -> (r: Reply)
        ensures
            input@ == "back"@ ==> r is Leave && *final(self) == *old(self),
            input@ != "back"@ && input@ == "clear"@ ==> r is Leave
                && *final(self) == with_storage(*old(self), with_role(old(self).state.storage, role, None)),
            input@ != "back"@ && input@ != "clear"@ ==> match list_choice_spec(input@, entries@.len()) {
                ListChoice::Chosen(i) => r is Leave
                    && role_assignment(final(self).state.storage, role) is Some
                    && role_assignment(final(self).state.storage, role).unwrap()@ == entries@[i as int].path@
                    && *final(self) == with_storage(*old(self),
                        with_role(old(self).state.storage, role, role_assignment(final(self).state.storage, role))),
                _ => r@ == ReplyModel::Say("Invalid selection."@) && *final(self) == *old(self),
            },
    {
        if str_eq(input, "back") {
            return Reply::Leave;
        }
        if str_eq(input, "clear") {
            self.set_manual_role_assignment(role, None);
            return Reply::Leave;
        }
        match list_choice(input, entries.len()) {
            ListChoice::Chosen(i) => {
                let path = entries[i].path.clone();
                self.set_manual_role_assignment(role, Some(path));
                proof {
                    match role {
                        ManualPartitionRole::Efi => {},
                        ManualPartitionRole::Root => {},
                        ManualPartitionRole::Home => {},
                        ManualPartitionRole::Swap => {},
                    }
                }
                Reply::Leave
            },
            _ => Reply::Say(owned("Invalid selection.")),
        }
    }

    /// A line typed in the format flags menu: `1` to `4` flip the EFI, root,
    /// `/home` and swap flags (the last two only when those roles are in
    /// use).
    pub fn toggle_format_flag(&mut self, input: &str) -> (r: Reply)
        ensures
            ({
                let s = old(self).state.storage;
                let i = input@;
                if i == "back"@ {
                    r is Leave && *final(self) == *old(self)
                } else if i == "1"@ {
                    r is Again && *final(self) == with_storage(*old(self), StorageSelection { format_efi: !s.format_efi, ..s })
                } else if i == "2"@ {
                    r is Again && *final(self) == with_storage(*old(self), StorageSelection { format_root: !s.format_root, ..s })
                } else if i == "3"@ {
                    if home_separate(s) {
                        r is Again && *final(self) == with_storage(*old(self), StorageSelection { format_home: !s.format_home, ..s })
                    } else {
                        r@ == ReplyModel::Say("Home is not set to separate."@) && *final(self) == *old(self)
                    }
                } else if i == "4"@ {
                    if swap_partition(s) {
                        r is Again && *final(self) == with_storage(*old(self), StorageSelection { format_swap: !s.format_swap, ..s })
                    } else {
                        r@ == ReplyModel::Say("Swap mode is not a partition."@) && *final(self) == *old(self)
                    }
                } else {
                    r@ == ReplyModel::Say("Invalid input."@) && *final(self) == *old(self)
                }
            }),
    {
        proof { lemma_command_words(); }
        if str_eq(input, "back") {
            Reply::Leave
        } else if str_eq(input, "1") {
            self.state.storage.format_efi = !self.state.storage.format_efi;
            Reply::Again
        } else if str_eq(input, "2") {
            self.state.storage.format_root = !self.state.storage.format_root;
            Reply::Again
        } else if str_eq(input, "3") {
            if matches!(self.state.storage.home_mode, HomeMode::Separate) {
                self.state.storage.format_home = !self.state.storage.format_home;
                Reply::Again
            } else {
                Reply::Say(owned("Home is not set to separate."))
            }
        } else if str_eq(input, "4") {
            if matches!(self.state.storage.swap_mode, SwapMode::Partition) {
                self.state.storage.format_swap = !self.state.storage.format_swap;
                Reply::Again
            } else {
                Reply::Say(owned("Swap mode is not a partition."))
            }
        } else {
            Reply::Say(owned("Invalid input."))
        }
    }
}

} // verus!
