use crate::gui::disk_setup::lemma_same_layout;
use crate::gui::mappers::{
    format_review_summary, format_warning_lines, format_warning_lines_spec, review_summary_spec,
    selection_matches_state, storage_selection_from_state,
};
use crate::gui::preflight::{check_views, CheckResult, CheckResultModel, CheckStatus};
use crate::gui::state::AppState;
use crate::installer::storage_plan::{
    destructive_plan_lines, format_destructive_plan, resolve_layout, resolve_layout_spec, StorageSelection,
};
use crate::text::{decimal, owned, seq_join, u64_to_string};
use vstd::prelude::*;

verus! {

/// Seconds the review page waits before it unlocks the destructive step.
pub const REVIEW_COUNTDOWN_SECONDS: u32 = 5;

/// Some preflight check ended in a warning.
pub open spec fn has_warnings_spec(results: Seq<CheckResultModel>) -> bool {
    exists|i: int| 0 <= i < results.len() && #[trigger] results[i].status == CheckStatus::Warn
}

pub fn has_warnings(results: &[CheckResult]) -> (r: bool)
    ensures
        r == has_warnings_spec(check_views(results@)),
{
    let n = results.len();
    let mut i: usize = 0;
    while i < n
        invariant
            n == results@.len(),
            i <= n,
            forall|j: int| 0 <= j < i ==> #[trigger] results@[j].status != CheckStatus::Warn,
        decreases n - i,
    {
        if matches!(results[i].status, CheckStatus::Warn) {
            assert(check_views(results@)[i as int].status == CheckStatus::Warn);
            return true;
        }
        i = i + 1;
    }
    assert forall|j: int| 0 <= j < check_views(results@).len() implies
        #[trigger] check_views(results@)[j].status != CheckStatus::Warn by {
        assert(check_views(results@)[j] == results@[j]@);
    }
    false
}

/// The install can start once the layout resolved, the countdown ran out,
/// and any preflight warnings were acknowledged.
pub fn review_continue_allowed(layout_valid: bool, countdown_ready: bool, has_warnings: bool, acknowledged: bool) -> (r: bool)
    ensures
        r == (layout_valid && countdown_ready && (!has_warnings || acknowledged)),
{
    layout_valid && countdown_ready && (!has_warnings || acknowledged)
}

pub open spec fn countdown_label_spec(seconds: u32) -> Seq<char> {
    "Confirm enabled in "@ + decimal(seconds as nat) + " seconds..."@
}

/// `Confirm enabled in N seconds...`
pub fn countdown_label(seconds: u32) -> (r: String)
    ensures
        r@ == countdown_label_spec(seconds),
{
    owned("Confirm enabled in ").concat(u64_to_string(seconds as u64).as_str()).concat(" seconds...")
}

/// What one second of the countdown does.
#[derive(Clone, Copy, Debug, PartialEq, Eq, Structural)]
pub enum CountdownTick {
    /// The countdown is over: the destructive step is unlocked.
    Unlocked,
    /// This many seconds are left.
    Remaining(u32),
}

pub open spec fn tick_spec(seconds_left: u32) -> CountdownTick {
    if seconds_left <= 1 { CountdownTick::Unlocked } else { CountdownTick::Remaining((seconds_left - 1) as u32) }
}

/// A second passes with `seconds_left` to go.
pub fn countdown_tick(seconds_left: u32) -> (r: CountdownTick)
    ensures
        r == tick_spec(seconds_left),
{
    if seconds_left <= 1 { CountdownTick::Unlocked } else { CountdownTick::Remaining(seconds_left - 1) }
}

/// The countdown after `ticks` seconds from `start`.
pub open spec fn after_ticks(start: u32, ticks: nat) -> CountdownTick
    decreases ticks,
{
    if ticks == 0 {
        CountdownTick::Remaining(start)
    } else {
        match after_ticks(start, (ticks - 1) as nat) {
            CountdownTick::Unlocked => CountdownTick::Unlocked,
            CountdownTick::Remaining(s) => tick_spec(s),
        }
    }
}

/// Started at `n` seconds, the countdown unlocks on the `n`-th tick and not
/// before.
pub proof fn law_countdown_unlocks_after_its_seconds(n: u32, k: nat)
    requires
        n >= 1,
    ensures
        k < n ==> after_ticks(n, k) == CountdownTick::Remaining((n - k) as u32),
        k >= n ==> after_ticks(n, k) == CountdownTick::Unlocked,
    decreases k,
{
    if k > 0 {
        law_countdown_unlocks_after_its_seconds(n, (k - 1) as nat);
    }
}

/// The line shown when the countdown is over.
pub fn unlocked_label() -> (r: &'static str)
    ensures
        r@ == "Destructive actions unlocked. You can start installation."@,
{
    "Destructive actions unlocked. You can start installation."
}

/// What the review page shows.
pub struct ReviewView {
    pub summary: String,
    pub warnings: String,
    pub destructive: String,
    pub countdown: String,
    pub layout_valid: bool,
    pub show_acknowledge: bool,
}

/// Refreshes the review page: the summary and the warnings, then the
/// storage plan. A plan that resolves is kept in the state and starts the
/// countdown; one that does not clears the kept layout and shows why.
pub fn refresh_review(state: &mut AppState) -> (r: ReviewView)
    ensures
        r.summary@ == review_summary_spec(old(state)),
        r.warnings@ == format_warning_lines_spec(check_views(old(state).preflight_results@)),
        r.show_acknowledge == has_warnings_spec(check_views(old(state).preflight_results@)),
        *final(state) == (AppState { resolved_layout: final(state).resolved_layout, ..*old(state) }),
        forall|sel: StorageSelection| #[trigger] selection_matches_state(sel, old(state)) ==> (
            match resolve_layout_spec(sel) {
                Ok(l) => {
                    &&& r.layout_valid
                    &&& final(state).resolved_layout is Some
                    &&& final(state).resolved_layout.unwrap()@ == l
                    &&& r.destructive@ == seq_join(destructive_plan_lines(l), "\n"@)
                    &&& r.countdown@ == countdown_label_spec(REVIEW_COUNTDOWN_SECONDS)
                },
                Err(e) => {
                    &&& !r.layout_valid
                    &&& final(state).resolved_layout is None
                    &&& r.destructive@ == "Storage plan error: "@ + e
                    &&& r.countdown@ == "Fix storage plan errors to continue."@
                },
            }
        ),
{
    let summary = format_review_summary(state);
    let warnings = format_warning_lines(state.preflight_results.as_slice());
    let show_acknowledge = has_warnings(state.preflight_results.as_slice());
    let selection = storage_selection_from_state(state);
    proof {
        assert forall|sel: StorageSelection| #[trigger] selection_matches_state(sel, &*state)
            implies resolve_layout_spec(sel) == resolve_layout_spec(selection) by {
            lemma_same_layout(sel, selection, &*state);
        }
    }
    match resolve_layout(&selection) {
        Ok(layout) => {
            let destructive = format_destructive_plan(&layout);
            state.resolved_layout = Some(layout);
            ReviewView {
                summary,
                warnings,
                destructive,
                countdown: countdown_label(REVIEW_COUNTDOWN_SECONDS),
                layout_valid: true,
                show_acknowledge,
            }
        },
        Err(e) => {
            state.resolved_layout = None;
            ReviewView {
                summary,
                warnings,
                destructive: owned("Storage plan error: ").concat(e.as_str()),
                countdown: owned("Fix storage plan errors to continue."),
                layout_valid: false,
                show_acknowledge,
            }
        },
    }
}

} // verus!
