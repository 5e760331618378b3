use crate::text::{decimal, u64_to_string};
use vstd::prelude::*;

verus! {

pub const LOW_RAM_GIB_THRESHOLD: u64 = 8;

pub const LOW_DISK_GIB_THRESHOLD: u64 = 128;

#[derive(Clone, Copy, Debug, PartialEq, Eq, Structural)]
pub enum CheckStatus {
    Pass,
    Warn,
    Fail,
}

impl CheckStatus {
    pub open spec fn label_spec(self) -> Seq<char> {
        match self {
            CheckStatus::Pass => "PASS"@,
            CheckStatus::Warn => "WARN"@,
            CheckStatus::Fail => "FAIL"@,
        }
    }

    pub fn label(&self) -> (r: &'static str)
        ensures
            r@ == self.label_spec(),
    {
        match self {
            CheckStatus::Pass => "PASS",
            CheckStatus::Warn => "WARN",
            CheckStatus::Fail => "FAIL",
        }
    }
}

#[derive(Clone, Debug, PartialEq, Eq)]
pub struct CheckResult {
    pub id: &'static str,
    pub label: &'static str,
    pub status: CheckStatus,
    pub message: String,
    pub is_hard: bool,
}

pub struct CheckResultModel {
    pub id: Seq<char>,
    pub label: Seq<char>,
    pub status: CheckStatus,
    pub message: Seq<char>,
    pub is_hard: bool,
}

impl View for CheckResult {
    type V = CheckResultModel;

    open spec fn view(&self) -> CheckResultModel {
        CheckResultModel {
            id: self.id@,
            label: self.label@,
            status: self.status,
            message: self.message@,
            is_hard: self.is_hard,
        }
    }
}

/// The views of a sequence of check results.
pub open spec fn check_views(v: Seq<CheckResult>) -> Seq<CheckResultModel> {
    v.map_values(|c: CheckResult| c@)
}

#[derive(Clone, Copy, Debug, PartialEq, Eq, Structural)]
pub struct PreflightContext {
    pub is_uefi: bool,
    pub has_disk: bool,
    pub online: bool,
    pub ram_gib: u64,
    pub disk_gib: Option<u64>,
}

pub open spec fn check(id: Seq<char>, label: Seq<char>, status: CheckStatus, message: Seq<char>, is_hard: bool) -> CheckResultModel {
    CheckResultModel { id, label, status, message, is_hard }
}

pub open spec fn pass_or_fail(ok: bool) -> CheckStatus {
    if ok { CheckStatus::Pass } else { CheckStatus::Fail }
}

pub open spec fn ram_check_spec(ram_gib: u64) -> CheckResultModel {
    if ram_gib < LOW_RAM_GIB_THRESHOLD {
        check("ram_capacity"@, "RAM capacity"@, CheckStatus::Warn,
            "Detected "@ + decimal(ram_gib as nat) + " GiB RAM (< "@ + decimal(LOW_RAM_GIB_THRESHOLD as nat) + " GiB recommended)."@, false)
    } else {
        check("ram_capacity"@, "RAM capacity"@, CheckStatus::Pass, "Detected "@ + decimal(ram_gib as nat) + " GiB RAM."@, false)
    }
}

pub open spec fn disk_check_spec(has_disk: bool, disk_gib: Option<u64>) -> CheckResultModel {
    if !has_disk {
        check("disk_capacity"@, "Disk capacity"@, CheckStatus::Pass,
            "Disk capacity check skipped until a target disk is selected."@, false)
    } else {
        match disk_gib {
            Some(g) => if g < LOW_DISK_GIB_THRESHOLD {
                check("disk_capacity"@, "Disk capacity"@, CheckStatus::Warn,
                    "Detected "@ + decimal(g as nat) + " GiB disk (< "@ + decimal(LOW_DISK_GIB_THRESHOLD as nat) + " GiB recommended)."@, false)
            } else {
                check("disk_capacity"@, "Disk capacity"@, CheckStatus::Pass, "Detected "@ + decimal(g as nat) + " GiB disk."@, false)
            },
            None => check("disk_capacity"@, "Disk capacity"@, CheckStatus::Warn,
                "Unable to determine selected disk capacity."@, false),
        }
    }
}

/// The five preflight checks, in order: UEFI mode, target disk and internet
/// (hard), then RAM and disk capacity (soft).
pub open spec fn checks_spec(ctx: PreflightContext) -> Seq<CheckResultModel> {
    seq![
        check("uefi_mode"@, "UEFI mode"@, pass_or_fail(ctx.is_uefi),
            if ctx.is_uefi { "UEFI mode detected."@ } else { "UEFI mode not detected. Boot installer in UEFI mode."@ }, true),
        check("disk_selected"@, "Target disk selected"@, pass_or_fail(ctx.has_disk),
            if ctx.has_disk { "Target disk is selected."@ } else { "No target disk selected."@ }, true),
        check("internet"@, "Internet reachable"@, pass_or_fail(ctx.online),
            if ctx.online { "Network connectivity verified."@ } else { "No internet connectivity detected."@ }, true),
        ram_check_spec(ctx.ram_gib),
        disk_check_spec(ctx.has_disk, ctx.disk_gib),
    ]
}

/// Whether some hard check failed.
pub open spec fn hard_fail_spec(results: Seq<CheckResultModel>) -> bool {
    exists|i: int| 0 <= i < results.len() && #[trigger] results[i].is_hard && results[i].status == CheckStatus::Fail
}

fn ram_check(ram_gib: u64) -> (r: CheckResult)
    ensures
        r@ == ram_check_spec(ram_gib),
{
    let low_ram = ram_gib < LOW_RAM_GIB_THRESHOLD;
    let message = if low_ram {
        "Detected ".to_string().concat(u64_to_string(ram_gib).as_str()).concat(" GiB RAM (< ").concat(
            u64_to_string(LOW_RAM_GIB_THRESHOLD).as_str(),
        ).concat(" GiB recommended).")
    } else {
        "Detected ".to_string().concat(u64_to_string(ram_gib).as_str()).concat(" GiB RAM.")
    };
    CheckResult {
        id: "ram_capacity",
        label: "RAM capacity",
        status: if low_ram { CheckStatus::Warn } else { CheckStatus::Pass },
        message,
        is_hard: false,
    }
}

fn disk_check(has_disk: bool, disk_gib: Option<u64>) -> (r: CheckResult)
    ensures
        r@ == disk_check_spec(has_disk, disk_gib),
{
    let (status, message) = if !has_disk {
        (CheckStatus::Pass, "Disk capacity check skipped until a target disk is selected.".to_string())
    } else {
        match disk_gib {
            Some(g) => {
                if g < LOW_DISK_GIB_THRESHOLD {
                    (
                        CheckStatus::Warn,
                        "Detected ".to_string().concat(u64_to_string(g).as_str()).concat(" GiB disk (< ").concat(
                            u64_to_string(LOW_DISK_GIB_THRESHOLD).as_str(),
                        ).concat(" GiB recommended)."),
                    )
                } else {
                    (CheckStatus::Pass, "Detected ".to_string().concat(u64_to_string(g).as_str()).concat(" GiB disk."))
                }
            },
            None => (CheckStatus::Warn, "Unable to determine selected disk capacity.".to_string()),
        }
    };
    CheckResult { id: "disk_capacity", label: "Disk capacity", status, message, is_hard: false }
}

/// Runs the preflight checks on what was detected about the machine.
pub fn evaluate_checks(ctx: &PreflightContext) -> (r: Vec<CheckResult>)
    ensures
        check_views(r@) == checks_spec(*ctx),
{
    let mut checks: Vec<CheckResult> = Vec::new();
    checks.push(CheckResult {
        id: "uefi_mode",
        label: "UEFI mode",
        status: if ctx.is_uefi { CheckStatus::Pass } else { CheckStatus::Fail },
        message: if ctx.is_uefi {
            "UEFI mode detected.".to_string()
        } else {
            "UEFI mode not detected. Boot installer in UEFI mode.".to_string()
        },
        is_hard: true,
    });
    checks.push(CheckResult {
        id: "disk_selected",
        label: "Target disk selected",
        status: if ctx.has_disk { CheckStatus::Pass } else { CheckStatus::Fail },
        message: if ctx.has_disk {
            "Target disk is selected.".to_string()
        } else {
            "No target disk selected.".to_string()
        },
        is_hard: true,
    });
    checks.push(CheckResult {
        id: "internet",
        label: "Internet reachable",
        status: if ctx.online { CheckStatus::Pass } else { CheckStatus::Fail },
        message: if ctx.online {
            "Network connectivity verified.".to_string()
        } else {
            "No internet connectivity detected.".to_string()
        },
        is_hard: true,
    });
    checks.push(ram_check(ctx.ram_gib));
    checks.push(disk_check(ctx.has_disk, ctx.disk_gib));
    assert(check_views(checks@) =~= checks_spec(*ctx));
    checks
}

/// Whether any hard check failed; a hard failure blocks the install.
pub fn has_hard_fail(results: &[CheckResult]) -> (r: bool)
    ensures
        r == hard_fail_spec(check_views(results@)),
{
    let n = results.len();
    let mut i: usize = 0;
    while i < n
        invariant
            n == results@.len(),
            i <= n,
            forall|j: int| 0 <= j < i ==> !(results@[j].is_hard && results@[j].status == CheckStatus::Fail),
        decreases n - i,
    {
        if results[i].is_hard && results[i].status == CheckStatus::Fail {
            assert(check_views(results@)[i as int].is_hard);
            return true;
        }
        i = i + 1;
    }
    assert forall|j: int| 0 <= j < check_views(results@).len() implies !(#[trigger] check_views(results@)[j].is_hard
        && check_views(results@)[j].status == CheckStatus::Fail) by {
        assert(check_views(results@)[j] == results@[j]@);
    }
    false
}

/// The checks block the install exactly when UEFI is missing, no disk is
/// selected, or the machine is offline; low RAM or a small disk never does.
pub proof fn law_hard_fail_iff_blocker(ctx: PreflightContext)
    ensures
        hard_fail_spec(checks_spec(ctx)) <==> !(ctx.is_uefi && ctx.has_disk && ctx.online),
{
    let c = checks_spec(ctx);
    if !ctx.is_uefi {
        assert(c[0].is_hard && c[0].status == CheckStatus::Fail);
    } else if !ctx.has_disk {
        assert(c[1].is_hard && c[1].status == CheckStatus::Fail);
    } else if !ctx.online {
        assert(c[2].is_hard && c[2].status == CheckStatus::Fail);
    }
}

/// Warnings come only from soft checks, and soft checks never fail.
pub proof fn law_warnings_are_soft(ctx: PreflightContext)
    ensures
        forall|i: int| 0 <= i < checks_spec(ctx).len() && #[trigger] checks_spec(ctx)[i].status == CheckStatus::Warn
            ==> !checks_spec(ctx)[i].is_hard,
        forall|i: int| 0 <= i < checks_spec(ctx).len() && !#[trigger] checks_spec(ctx)[i].is_hard
            ==> checks_spec(ctx)[i].status != CheckStatus::Fail,
{
}

} // verus!
