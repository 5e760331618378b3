use crate::gui::disk_manager::{human_gib_label, PartitionInfo};
use crate::gui::mappers::{selection_matches_state, storage_selection_from_state};
use crate::gui::state::AppState;
use crate::installer::disk_manager::gib;
use crate::installer::storage_plan::{automatic_spec, manual_spec, resolve_layout, resolve_layout_spec, validate_common_spec, FilesystemType, HomeLocation, HomeMode, ManualPartitionRole, SetupMode, StorageSelection, SwapMode};
use crate::text::{decimal, parse_unsigned, parse_unsigned_exec, seq_join, trim, trimmed};
use vstd::prelude::*;

verus! {

/// What the disk setup page shows when the user presses "Next".
pub struct DiskSetupForm {
    pub manual: bool,
    pub separate_home: bool,
    pub home_other_disk: bool,
    pub swap_file: bool,
    pub swap_file_text: String,
    pub removable: bool,
    /// The disk picked in the home disk list; empty when none is picked.
    pub selected_home_disk: String,
    pub format_efi: bool,
    pub format_root: bool,
    pub format_home: bool,
    pub format_swap: bool,
}

/// Which parts of the disk setup page are shown.
#[derive(Clone, Copy, Debug, PartialEq, Eq, Structural)]
pub struct DiskSetupVisibility {
    pub home_location: bool,
    pub home_disk: bool,
    pub swap_file: bool,
    pub manual_partitions: bool,
    pub format_efi: bool,
    pub format_root: bool,
    pub format_home: bool,
    pub format_swap: bool,
}

/// Which fields are shown for the choices currently made: the home location
/// and disk only for automatic setup with a separate `/home`, the swap file
/// size only for a swap file, and the manual partition controls and format
/// flags only for manual setup.
pub fn disk_setup_visibility(
    manual: bool,
    separate_home: bool,
    home_other_disk: bool,
    swap_file: bool,
    swap_partition: bool,
) -> (r: DiskSetupVisibility)
    ensures
        r == (DiskSetupVisibility {
            home_location: !manual && separate_home,
            home_disk: !manual && separate_home && home_other_disk,
            swap_file: swap_file,
            manual_partitions: manual,
            format_efi: manual,
            format_root: manual,
            format_home: manual && separate_home,
            format_swap: manual && swap_partition,
        }),
{
    DiskSetupVisibility {
        home_location: !manual && separate_home,
        home_disk: !manual && separate_home && home_other_disk,
        swap_file: swap_file,
        manual_partitions: manual,
        format_efi: manual,
        format_root: manual,
        format_home: manual && separate_home,
        format_swap: manual && swap_partition,
    }
}

/// `value`, or `(not set)` when it is empty.
pub open spec fn shown_or_unset(value: Seq<char>) -> Seq<char> {
    if value.len() == 0 { "(not set)"@ } else { value }
}

fn shown_or_unset_exec(value: &String) -> (r: String)
    ensures
        r@ == shown_or_unset(value@),
{
    if value.as_str().unicode_len() == 0 {
        owned_str("(not set)")
    } else {
        value.clone()
    }
}

fn owned_str(s: &str) -> (r: String)
    ensures
        r@ == s@,
{
    String::from_str(s)
}

pub open spec fn manual_summary_lines(state: &AppState, show_home: bool, show_swap: bool) -> Seq<Seq<char>> {
    seq!["EFI: "@ + shown_or_unset(state.manual_efi_partition@), "Root: "@ + shown_or_unset(state.manual_root_partition@)]
        + (if show_home { seq!["/home: "@ + shown_or_unset(state.manual_home_partition@)] } else { Seq::empty() })
        + (if show_swap { seq!["Swap: "@ + shown_or_unset(state.manual_swap_partition@)] } else { Seq::empty() })
}

/// The lines that sum up the manual partition roles: EFI and root always,
/// `/home` and swap when they are in use; an empty role reads `(not set)`.
pub fn manual_assignment_summary(state: &AppState, show_home: bool, show_swap: bool) -> (r: String)
    ensures
        r@ == seq_join(manual_summary_lines(state, show_home, show_swap), "\n"@),
{
    let ghost lines = manual_summary_lines(state, show_home, show_swap);
    let mut out = owned_str("EFI: ").concat(shown_or_unset_exec(&state.manual_efi_partition).as_str());
    let ghost l0 = out@;
    out = out.concat("\n").concat("Root: ").concat(shown_or_unset_exec(&state.manual_root_partition).as_str());
    let ghost l1 = "Root: "@ + shown_or_unset(state.manual_root_partition@);
    proof {
        reveal_strlit("EFI: ");
        reveal_strlit("Root: ");
        reveal_strlit("\n");
        assert(seq_join(lines.take(1), "\n"@) == l0) by {
            assert(lines.take(1).len() == 1);
        }
        assert(lines.take(2).drop_last() =~= lines.take(1));
        assert(out@ =~= seq_join(lines.take(2), "\n"@));
    }
    let ghost mut k: int = 2;
    if show_home {
        out = out.concat("\n").concat("/home: ").concat(shown_or_unset_exec(&state.manual_home_partition).as_str());
        proof {
            reveal_strlit("/home: ");
            assert(lines.take(3).drop_last() =~= lines.take(2));
            assert(out@ =~= seq_join(lines.take(3), "\n"@));
            k = 3;
        }
    }
    if show_swap {
        out = out.concat("\n").concat("Swap: ").concat(shown_or_unset_exec(&state.manual_swap_partition).as_str());
        proof {
            reveal_strlit("Swap: ");
            assert(lines.take(k + 1).drop_last() =~= lines.take(k));
            assert(out@ =~= seq_join(lines.take(k + 1), "\n"@));
            k = k + 1;
        }
    }
    assert(lines.take(k) =~= lines);
    out
}

/// The number in `text` (surrounding whitespace ignored) when it is a
/// positive `u64`, else `current`.
fn positive_or(text: &str, current: u64) -> (r: u64)
    ensures
        r == (match parse_unsigned(trim(text@), u64::MAX as nat) {
            Some(v) => if v > 0 { v as u64 } else { current },
            None => current,
        }),
{
    let t = trimmed(text);
    match parse_unsigned_exec(t.as_str(), u64::MAX) {
        Some(v) => if v > 0 { v } else { current },
        None => current,
    }
}

/// The state after the disk setup form is taken in, before the layout is
/// checked.
pub open spec fn form_applied(old_state: &AppState, new_state: &AppState, form: &DiskSetupForm) -> bool {
    let setup_mode = if form.manual { SetupMode::Manual } else { SetupMode::Automatic };
    let home_mode = if form.separate_home { HomeMode::Separate } else { HomeMode::OnRoot };
    let home_location = if form.home_other_disk { HomeLocation::OtherDisk } else { HomeLocation::SameDisk };
    let swap_mode = if form.swap_file { SwapMode::File } else { SwapMode::Partition };
    let parsed = parse_unsigned(trim(form.swap_file_text@), u64::MAX as nat);
    let automatic = setup_mode == SetupMode::Automatic;
    &&& new_state.setup_mode == setup_mode
    &&& new_state.home_mode == home_mode
    &&& new_state.home_location == home_location
    &&& new_state.swap_mode == swap_mode
    &&& new_state.swap_file_mb == (match parsed {
        Some(v) => if v > 0 { v as u64 } else { old_state.swap_file_mb },
        None => old_state.swap_file_mb,
    })
    &&& new_state.removable_media == form.removable
    &&& new_state.home_disk@ == (if automatic && home_mode == HomeMode::Separate
        && home_location == HomeLocation::OtherDisk { form.selected_home_disk@ } else { Seq::empty() })
    &&& new_state.manual_efi_partition@ == (if automatic { Seq::empty() } else { old_state.manual_efi_partition@ })
    &&& new_state.manual_root_partition@ == (if automatic { Seq::empty() } else { old_state.manual_root_partition@ })
    &&& new_state.manual_home_partition@ == (if automatic || home_mode != HomeMode::Separate {
        Seq::empty() } else { old_state.manual_home_partition@ })
    &&& new_state.manual_swap_partition@ == (if automatic || swap_mode != SwapMode::Partition {
        Seq::empty() } else { old_state.manual_swap_partition@ })
    &&& new_state.format_efi == form.format_efi
    &&& new_state.format_root == form.format_root
    &&& new_state.format_home == form.format_home
    &&& new_state.format_swap == form.format_swap
    &&& new_state.drive == old_state.drive
    &&& new_state.selected_disk_gib == old_state.selected_disk_gib
    &&& new_state.swap_gb == old_state.swap_gb
    &&& new_state.fs_type == old_state.fs_type
    &&& new_state.desktop_env == old_state.desktop_env
    &&& new_state.kernel == old_state.kernel
    &&& new_state.nvidia == old_state.nvidia
    &&& new_state.hostname == old_state.hostname
    &&& new_state.username == old_state.username
    &&& new_state.password == old_state.password
    &&& new_state.timezone == old_state.timezone
    &&& new_state.locale == old_state.locale
    &&& new_state.keymap == old_state.keymap
    &&& new_state.mirror_region == old_state.mirror_region
    &&& new_state.preflight_results == old_state.preflight_results
}

/// Takes the disk setup form into the state: the four choices, the swap file
/// size when the text is a positive number, the removable flag and the
/// format flags. The home disk is kept only for an automatic setup with
/// `/home` on another disk; manual role assignments that no longer apply are
/// cleared.
pub fn apply_disk_setup_form(state: &mut AppState, form: &DiskSetupForm)
    ensures
        form_applied(old(state), final(state), form),
        final(state).resolved_layout == old(state).resolved_layout,
{
    let setup_mode = if form.manual { SetupMode::Manual } else { SetupMode::Automatic };
    let home_mode = if form.separate_home { HomeMode::Separate } else { HomeMode::OnRoot };
    let home_location = if form.home_other_disk { HomeLocation::OtherDisk } else { HomeLocation::SameDisk };
    let swap_mode = if form.swap_file { SwapMode::File } else { SwapMode::Partition };
    let swap_file_mb = positive_or(form.swap_file_text.as_str(), state.swap_file_mb);
    let automatic = !form.manual;
    let home_disk = if automatic && form.separate_home && form.home_other_disk {
        form.selected_home_disk.clone()
    } else {
        String::new()
    };
    let efi = if automatic { String::new() } else { state.manual_efi_partition.clone() };
    let root = if automatic { String::new() } else { state.manual_root_partition.clone() };
    let home = if automatic || !form.separate_home { String::new() } else { state.manual_home_partition.clone() };
    let swap = if automatic || form.swap_file { String::new() } else { state.manual_swap_partition.clone() };
    state.setup_mode = setup_mode;
    state.home_mode = home_mode;
    state.home_location = home_location;
    state.swap_mode = swap_mode;
    state.swap_file_mb = swap_file_mb;
    state.removable_media = form.removable;
    state.home_disk = home_disk;
    state.manual_efi_partition = efi;
    state.manual_root_partition = root;
    state.manual_home_partition = home;
    state.manual_swap_partition = swap;
    state.format_efi = form.format_efi;
    state.format_root = form.format_root;
    state.format_home = form.format_home;
    state.format_swap = form.format_swap;
}

/// Two selections that describe the same state resolve to the same layout.
pub proof fn lemma_same_layout(a: StorageSelection, b: StorageSelection, state: &AppState)
    requires
        selection_matches_state(a, state),
        selection_matches_state(b, state),
    ensures
        resolve_layout_spec(a) == resolve_layout_spec(b),
{
    assert(a.home_disk is None <==> b.home_disk is None);
    assert(a.manual_efi_partition is None <==> b.manual_efi_partition is None);
    assert(a.manual_root_partition is None <==> b.manual_root_partition is None);
    assert(a.manual_home_partition is None <==> b.manual_home_partition is None);
    assert(a.manual_swap_partition is None <==> b.manual_swap_partition is None);
    assert(a.home_disk.unwrap()@ == b.home_disk.unwrap()@);
    assert(a.manual_efi_partition.unwrap()@ == b.manual_efi_partition.unwrap()@);
    assert(a.manual_root_partition.unwrap()@ == b.manual_root_partition.unwrap()@);
    assert(a.manual_home_partition.unwrap()@ == b.manual_home_partition.unwrap()@);
    assert(a.manual_swap_partition.unwrap()@ == b.manual_swap_partition.unwrap()@);
    assert(validate_common_spec(a) == validate_common_spec(b));
    assert(automatic_spec(a, FilesystemType::Xfs) == automatic_spec(b, FilesystemType::Xfs));
    assert(automatic_spec(a, FilesystemType::Ext4) == automatic_spec(b, FilesystemType::Ext4));
    assert(manual_spec(a, FilesystemType::Xfs) == manual_spec(b, FilesystemType::Xfs));
    assert(manual_spec(a, FilesystemType::Ext4) == manual_spec(b, FilesystemType::Ext4));
}

/// Takes the form in, then checks the storage layout it describes: on
/// success the resolved layout is kept in the state; otherwise the error
/// comes back as `Disk setup invalid: ...` and the layout in the state is
/// left as it was.
pub fn submit_disk_setup(state: &mut AppState, form: &DiskSetupForm) -> (r: Result<(), String>)
    ensures
        form_applied(old(state), final(state), form),
        forall|sel: StorageSelection| #[trigger] selection_matches_state(sel, final(state)) ==> (match r {
            Ok(()) => resolve_layout_spec(sel) is Ok && final(state).resolved_layout is Some
                && resolve_layout_spec(sel) == Ok::<_, Seq<char>>(final(state).resolved_layout.unwrap()@),
            Err(e) => resolve_layout_spec(sel) is Err
                && e@ == "Disk setup invalid: "@ + resolve_layout_spec(sel)->Err_0
                && final(state).resolved_layout == old(state).resolved_layout,
        }),
{
    apply_disk_setup_form(state, form);
    let selection = storage_selection_from_state(state);
    match resolve_layout(&selection) {
        Ok(layout) => {
            state.resolved_layout = Some(layout);
            proof {
                assert forall|sel: StorageSelection| #[trigger] selection_matches_state(sel, &*state)
                    implies resolve_layout_spec(sel) == resolve_layout_spec(selection) by {
                    lemma_same_layout(sel, selection, &*state);
                }
            }
            Ok(())
        },
        Err(e) => {
            proof {
                assert forall|sel: StorageSelection| #[trigger] selection_matches_state(sel, &*state)
                    implies resolve_layout_spec(sel) == resolve_layout_spec(selection) by {
                    lemma_same_layout(sel, selection, &*state);
                }
            }
            Err(owned_str("Disk setup invalid: ").concat(e.as_str()))
        },
    }
}

// ---------------------------------------------------------------------------
// The manual partitioning dialog

/// The value that fills a partition's row in the manual partitioning dialog.
pub open spec fn fstype_or_unknown(fstype: Option<String>) -> Seq<char> {
    match fstype {
        Some(f) => f@,
        None => "unknown"@,
    }
}

/// A partition as the manual partitioning dialog lists it:
/// `path | size | parent disk | filesystem`.
pub fn partition_row_label(p: &PartitionInfo) -> (r: String)
    ensures
        r@ == p.path@ + " | "@ + decimal(gib(p.size_bytes as nat)) + " GiB"@ + " | "@ + p.parent_disk@
            + " | "@ + fstype_or_unknown(p.fstype),
{
    let fs = match &p.fstype {
        Some(f) => f.clone(),
        None => owned_str("unknown"),
    };
    p.path.clone().concat(" | ").concat(human_gib_label(p.size_bytes).as_str()).concat(" | ")
        .concat(p.parent_disk.as_str()).concat(" | ").concat(fs.as_str())
}

/// The partition picked in the dialog's list, by the row index the list
/// reports.
pub fn pick_partition(paths: &Vec<String>, index: Option<usize>) -> (r: Result<String, String>)
    ensures
        match index {
            None => r is Err && r->Err_0@ == "Select a partition first."@,
            Some(i) => if i < paths@.len() {
                r is Ok && r->Ok_0@ == paths@[i as int]@
            } else {
                r is Err && r->Err_0@ == "Invalid partition selection."@
            },
        },
{
    match index {
        None => Err(owned_str("Select a partition first.")),
        Some(i) => if i < paths.len() {
            Ok(paths[i].clone())
        } else {
            Err(owned_str("Invalid partition selection."))
        },
    }
}

/// The partition the state assigns to `role`; empty when none is.
pub open spec fn role_value(state: AppState, role: ManualPartitionRole) -> Seq<char> {
    match role {
        ManualPartitionRole::Efi => state.manual_efi_partition@,
        ManualPartitionRole::Root => state.manual_root_partition@,
        ManualPartitionRole::Home => state.manual_home_partition@,
        ManualPartitionRole::Swap => state.manual_swap_partition@,
    }
}

/// `b` is `a` with, at most, the partition of `role` changed.
pub open spec fn same_but_role(a: AppState, b: AppState, role: ManualPartitionRole) -> bool {
    match role {
        ManualPartitionRole::Efi => b == AppState { manual_efi_partition: b.manual_efi_partition, ..a },
        ManualPartitionRole::Root => b == AppState { manual_root_partition: b.manual_root_partition, ..a },
        ManualPartitionRole::Home => b == AppState { manual_home_partition: b.manual_home_partition, ..a },
        ManualPartitionRole::Swap => b == AppState { manual_swap_partition: b.manual_swap_partition, ..a },
    }
}

/// Some role other than `role` already holds `path`.
pub open spec fn assigned_elsewhere(state: AppState, role: ManualPartitionRole, path: Seq<char>) -> bool {
    exists|other: ManualPartitionRole| other != role && role_value(state, other).len() > 0
        && #[trigger] role_value(state, other) == path
}

/// Why the dialog refuses to give `path` to `role`, if it does.
pub open spec fn assign_refusal(
    state: AppState,
    role: ManualPartitionRole,
    path: Seq<char>,
    needs_home: bool,
    needs_swap: bool,
) -> Option<Seq<char>> {
    if role == ManualPartitionRole::Home && !needs_home {
        Some("/home is not enabled for this setup."@)
    } else if role == ManualPartitionRole::Swap && !needs_swap {
        Some("Swap partition is not enabled (swap file selected)."@)
    } else if assigned_elsewhere(state, role, path) {
        Some("That partition is already assigned to another role."@)
    } else {
        None
    }
}

/// What assigning `path` to `role` does: refused, the state stays as it
/// was; accepted, the role holds `path` and nothing else changes.
pub open spec fn assign_outcome(
    old_state: AppState,
    new_state: AppState,
    role: ManualPartitionRole,
    path: Seq<char>,
    needs_home: bool,
    needs_swap: bool,
    r: Result<(), Seq<char>>,
) -> bool {
    match assign_refusal(old_state, role, path, needs_home, needs_swap) {
        Some(msg) => r == Err::<(), Seq<char>>(msg) && new_state == old_state,
        None => r is Ok && same_but_role(old_state, new_state, role) && role_value(new_state, role) == path,
    }
}

pub open spec fn unit_result_view(r: Result<(), String>) -> Result<(), Seq<char>> {
    match r {
        Ok(()) => Ok(()),
        Err(e) => Err(e@),
    }
}

fn role_holds(value: &String, path: &str) -> (r: bool)
    ensures
        r == (value@.len() > 0 && value@ == path@),
{
    value.as_str().unicode_len() > 0 && crate::text::str_eq(value.as_str(), path)
}

/// Gives `path` to `role` in the manual partitioning dialog, unless the role
/// is not in use for this setup or another role already holds the path.
pub fn assign_manual_partition(
    state: &mut AppState,
    role: ManualPartitionRole,
    path: &str,
    needs_home: bool,
    needs_swap: bool,
) -> (r: Result<(), String>)
    ensures
        assign_outcome(*old(state), *final(state), role, path@, needs_home, needs_swap, unit_result_view(r)),
{
    if matches!(role, ManualPartitionRole::Home) && !needs_home {
        return Err(owned_str("/home is not enabled for this setup."));
    }
    if matches!(role, ManualPartitionRole::Swap) && !needs_swap {
        return Err(owned_str("Swap partition is not enabled (swap file selected)."));
    }
    let efi = role_holds(&state.manual_efi_partition, path);
    let root = role_holds(&state.manual_root_partition, path);
    let home = role_holds(&state.manual_home_partition, path);
    let swap = role_holds(&state.manual_swap_partition, path);
    let elsewhere = match role {
        ManualPartitionRole::Efi => root || home || swap,
        ManualPartitionRole::Root => efi || home || swap,
        ManualPartitionRole::Home => efi || root || swap,
        ManualPartitionRole::Swap => efi || root || home,
    };
    proof {
        let st = *old(state);
        if elsewhere {
            if efi && role != ManualPartitionRole::Efi {
                assert(role_value(st, ManualPartitionRole::Efi) == path@);
            } else if root && role != ManualPartitionRole::Root {
                assert(role_value(st, ManualPartitionRole::Root) == path@);
            } else if home && role != ManualPartitionRole::Home {
                assert(role_value(st, ManualPartitionRole::Home) == path@);
            } else {
                assert(role_value(st, ManualPartitionRole::Swap) == path@);
            }
        } else {
            assert forall|other: ManualPartitionRole| other != role && role_value(st, other).len() > 0
                implies #[trigger] role_value(st, other) != path@ by {
                match other {
                    ManualPartitionRole::Efi => {},
                    ManualPartitionRole::Root => {},
                    ManualPartitionRole::Home => {},
                    ManualPartitionRole::Swap => {},
                }
            }
        }
    }
    if elsewhere {
        return Err(owned_str("That partition is already assigned to another role."));
    }
    match role {
        ManualPartitionRole::Efi => state.manual_efi_partition = owned_str(path),
        ManualPartitionRole::Root => state.manual_root_partition = owned_str(path),
        ManualPartitionRole::Home => state.manual_home_partition = owned_str(path),
        ManualPartitionRole::Swap => state.manual_swap_partition = owned_str(path),
    }
    Ok(())
}

/// Takes the partition away from `role`; nothing else changes.
pub fn clear_manual_role(state: &mut AppState, role: ManualPartitionRole)
    ensures
        same_but_role(*old(state), *final(state), role),
        role_value(*final(state), role).len() == 0,
{
    match role {
        ManualPartitionRole::Efi => state.manual_efi_partition = String::new(),
        ManualPartitionRole::Root => state.manual_root_partition = String::new(),
        ManualPartitionRole::Home => state.manual_home_partition = String::new(),
        ManualPartitionRole::Swap => state.manual_swap_partition = String::new(),
    }
}

/// The four role assignments as the dialog found them when it opened.
pub struct ManualAssignments {
    pub efi: String,
    pub root: String,
    pub home: String,
    pub swap: String,
}

pub fn manual_snapshot(state: &AppState) -> (r: ManualAssignments)
    ensures
        r.efi@ == state.manual_efi_partition@,
        r.root@ == state.manual_root_partition@,
        r.home@ == state.manual_home_partition@,
        r.swap@ == state.manual_swap_partition@,
{
    ManualAssignments {
        efi: state.manual_efi_partition.clone(),
        root: state.manual_root_partition.clone(),
        home: state.manual_home_partition.clone(),
        swap: state.manual_swap_partition.clone(),
    }
}

/// Closes the dialog: with "Done" the assignments made stay; any other way
/// of closing puts back the assignments it opened with.
pub fn close_manual_dialog(state: &mut AppState, snapshot: ManualAssignments, keep_changes: bool)
    ensures
        keep_changes ==> *final(state) == *old(state),
        !keep_changes ==> {
            &&& *final(state) == AppState {
                manual_efi_partition: final(state).manual_efi_partition,
                manual_root_partition: final(state).manual_root_partition,
                manual_home_partition: final(state).manual_home_partition,
                manual_swap_partition: final(state).manual_swap_partition,
                ..*old(state)
            }
            &&& final(state).manual_efi_partition@ == snapshot.efi@
            &&& final(state).manual_root_partition@ == snapshot.root@
            &&& final(state).manual_home_partition@ == snapshot.home@
            &&& final(state).manual_swap_partition@ == snapshot.swap@
        },
{
    if !keep_changes {
        state.manual_efi_partition = snapshot.efi;
        state.manual_root_partition = snapshot.root;
        state.manual_home_partition = snapshot.home;
        state.manual_swap_partition = snapshot.swap;
    }
}

/// No two roles hold the same partition.
pub open spec fn roles_distinct(state: AppState) -> bool {
    forall|a: ManualPartitionRole, b: ManualPartitionRole| a != b && #[trigger] role_value(state, a).len() > 0
        ==> role_value(state, a) != #[trigger] role_value(state, b)
}

/// An accepted assignment never gives two roles the same partition, when no
/// two roles shared one before.
pub proof fn law_assignment_keeps_roles_distinct(
    before: AppState,
    after: AppState,
    role: ManualPartitionRole,
    path: Seq<char>,
    needs_home: bool,
    needs_swap: bool,
)
    requires
        roles_distinct(before),
        assign_outcome(before, after, role, path, needs_home, needs_swap, Ok(())),
    ensures
        roles_distinct(after),
{
    assert forall|a: ManualPartitionRole, b: ManualPartitionRole| a != b && #[trigger] role_value(after, a).len() > 0
        implies role_value(after, a) != #[trigger] role_value(after, b) by {
        if a == role {
            if role_value(after, b).len() > 0 {
                assert(role_value(after, b) == role_value(before, b)) by {
                    match role {
                        ManualPartitionRole::Efi => {},
                        ManualPartitionRole::Root => {},
                        ManualPartitionRole::Home => {},
                        ManualPartitionRole::Swap => {},
                    }
                }
                if role_value(before, b) == path {
                    assert(assigned_elsewhere(before, role, path));
                }
            }
        } else if b == role {
            assert(role_value(after, a) == role_value(before, a)) by {
                match role {
                    ManualPartitionRole::Efi => {},
                    ManualPartitionRole::Root => {},
                    ManualPartitionRole::Home => {},
                    ManualPartitionRole::Swap => {},
                }
            }
            if role_value(before, a) == path {
                assert(assigned_elsewhere(before, role, path));
            }
        } else {
            assert(role_value(after, a) == role_value(before, a) && role_value(after, b) == role_value(before, b)) by {
                match role {
                    ManualPartitionRole::Efi => {},
                    ManualPartitionRole::Root => {},
                    ManualPartitionRole::Home => {},
                    ManualPartitionRole::Swap => {},
                }
            }
        }
    }
}

} // verus!
