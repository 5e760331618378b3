use access_os_installer::gui::preflight::{
    evaluate_checks, has_hard_fail, CheckStatus, PreflightContext, LOW_DISK_GIB_THRESHOLD,
    LOW_RAM_GIB_THRESHOLD,
};

fn context() -> PreflightContext {
    PreflightContext { is_uefi: true, has_disk: true, online: true, ram_gib: 16, disk_gib: Some(512) }
}

#[test]
fn hard_fail_blocks_progress_when_uefi_missing() {
    let mut ctx = context();
    ctx.is_uefi = false;
    let results = evaluate_checks(&ctx);
    assert!(has_hard_fail(&results));
}

#[test]
fn soft_warnings_do_not_create_hard_fail() {
    let mut ctx = context();
    ctx.ram_gib = LOW_RAM_GIB_THRESHOLD - 1;
    ctx.disk_gib = Some(LOW_DISK_GIB_THRESHOLD - 1);
    let results = evaluate_checks(&ctx);
    assert!(!has_hard_fail(&results));
    assert_eq!(results.iter().filter(|check| check.status == CheckStatus::Warn).count(), 2);
}

#[test]
fn all_good_context_passes_hard_checks() {
    let results = evaluate_checks(&context());
    assert!(!has_hard_fail(&results));
    assert!(results.iter().all(|check| check.status != CheckStatus::Fail));
}

#[test]
fn messages_name_the_measured_sizes() {
    let mut ctx = context();
    ctx.ram_gib = 4;
    ctx.disk_gib = Some(64);
    let results = evaluate_checks(&ctx);
    assert_eq!(results.len(), 5);
    assert_eq!(results[3].message, "Detected 4 GiB RAM (< 8 GiB recommended).");
    assert_eq!(results[4].message, "Detected 64 GiB disk (< 128 GiB recommended).");
    ctx.disk_gib = None;
    assert_eq!(evaluate_checks(&ctx)[4].message, "Unable to determine selected disk capacity.");
    ctx.has_disk = false;
    let results = evaluate_checks(&ctx);
    assert_eq!(results[4].status, CheckStatus::Pass);
    assert_eq!(results[1].status, CheckStatus::Fail);
    assert!(has_hard_fail(&results));
}

#[test]
fn offline_is_a_hard_failure() {
    let mut ctx = context();
    ctx.online = false;
    let results = evaluate_checks(&ctx);
    assert!(has_hard_fail(&results));
    assert_eq!(results[2].message, "No internet connectivity detected.");
    assert_eq!(CheckStatus::Fail.label(), "FAIL");
}
