use crate::installer::disk_manager::{bytes_to_gib, gib};
use vstd::prelude::*;

verus! {

#[verifier::external_type_specification]
#[verifier::external_body]
pub struct ExSystem(sysinfo::System);

#[verifier::external_type_specification]
#[verifier::external_body]
pub struct ExSysinfoError(sysinfo::Error);

/// Calls `sysinfo::System::new_all`, which gathers everything sysinfo can
/// read about the machine. What it finds, and whether it fails, depends on
/// the machine: nothing is stated of the result.
#[verifier::external_body]
fn new_all_system() -> (r: Result<sysinfo::System, sysinfo::Error>) {
    sysinfo::System::new_all()
}

/// Calls `sysinfo::System::refresh_memory`, which rereads the memory
/// figures of the machine; what they become is not stated.
#[verifier::external_body]
fn refresh_memory(sys: &mut sysinfo::System) {
    sys.refresh_memory()
}

/// Calls `sysinfo::System::total_memory`: the RAM size in bytes, as last
/// read; what it is depends on the machine and is not stated.
#[verifier::external_body]
fn total_memory(sys: &sysinfo::System) -> (r: u64) {
    sys.total_memory()
}

/// The machine's RAM in bytes, or `None` when sysinfo cannot read the
/// system at all.
fn total_memory_bytes() -> (r: Option<u64>) {
    match new_all_system() {
        Ok(mut sys) => {
            refresh_memory(&mut sys);
            Some(total_memory(&sys))
        },
        Err(_) => None,
    }
}

/// The suggested swap size for a machine with `total_ram_bytes` of RAM:
/// the RAM size in whole GiB above 16 GiB, twice that otherwise.
pub open spec fn suggested_swap_spec(total_ram_bytes: u64) -> nat {
    let g = gib(total_ram_bytes as nat);
    if g > 16 {
        g
    } else {
        g * 2
    }
}

pub fn suggested_swap_gb(total_ram_bytes: u64) -> (r: u64)
    ensures
        r as nat == suggested_swap_spec(total_ram_bytes),
{
    let total_ram_gb = bytes_to_gib(total_ram_bytes);
    if total_ram_gb > 16 {
        total_ram_gb
    } else {
        total_ram_gb * 2
    }
}

/// The suggested swap size for this machine (0 when its RAM cannot be read).
pub fn get_suggested_swap_gb() -> (r: u64)
    ensures
        exists|total: u64| r as nat == suggested_swap_spec(total),
{
    let total = match total_memory_bytes() {
        Some(t) => t,
        None => 0,
    };
    suggested_swap_gb(total)
}

/// This machine's RAM in whole GiB (0 when it cannot be read).
pub fn system_ram_gib() -> (r: u64)
    ensures
        exists|total: u64| r as nat == gib(total as nat),
{
    let total = match total_memory_bytes() {
        Some(t) => t,
        None => 0,
    };
    bytes_to_gib(total)
}

} // verus!
