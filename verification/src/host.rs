//! Reading the host: a thin trusted rim around `sysinfo`. Each wrapper
//! makes one call and hands back plain values; everything computed from
//! the values is verified elsewhere. The readings depend on the machine
//! at the moment of the call, so no wrapper promises what they are.

use vstd::prelude::*;

verus! {

#[verifier::external_type_specification]
#[verifier::external_body]
pub struct ExSystem(sysinfo::System);

/// Relies on `sysinfo::System::new_all`: allocates a snapshot handle
/// with every reading loaded once.
#[verifier::external_body]
pub(crate) fn new_system_handle() -> sysinfo::System {
    sysinfo::System::new_all()
}

/// Relies on `sysinfo::System::refresh_all`: re-reads memory and the
/// process table into the same handle.
#[verifier::external_body]
pub(crate) fn refresh_all(sys: &mut sysinfo::System) {
    sys.refresh_all();
}

/// Relies on `sysinfo::System::refresh_processes`: rebuilds the
/// process table, updating every process and keeping dead entries.
#[verifier::external_body]
pub(crate) fn refresh_processes(sys: &mut sysinfo::System) {
    sys.refresh_processes(sysinfo::ProcessesToUpdate::All, false);
}

/// Relies on `sysinfo::System::total_memory`: the host's total RAM in
/// the crate's native unit, as of the last refresh.
#[verifier::external_body]
pub(crate) fn total_memory(sys: &sysinfo::System) -> u64 {
    sys.total_memory()
}

/// Relies on `sysinfo::System::used_memory`: the host's used RAM in
/// the crate's native unit, as of the last refresh.
#[verifier::external_body]
pub(crate) fn used_memory(sys: &sysinfo::System) -> u64 {
    sys.used_memory()
}

/// Relies on `sysinfo::System::uptime`: seconds since the host booted,
/// read directly rather than from the snapshot.
#[verifier::external_body]
pub(crate) fn uptime_now() -> u64 {
    sysinfo::System::uptime()
}

/// Relies on `sysinfo::System::processes` and `sysinfo::Process::name`:
/// the name of every process in the last-refreshed table, decoded
/// lossily to text, in no promised order.
#[verifier::external_body]
pub(crate) fn process_names(sys: &sysinfo::System) -> Vec<String> {
    sys.processes().values().map(|p| p.name().to_string_lossy().into_owned()).collect()
}

/// One set of plain readings taken from the host, in the form the
/// panel renderers are specified over.
pub struct HostReadings {
    pub total_memory: u64,
    pub used_memory: u64,
    pub uptime_seconds: u64,
    pub process_names: Vec<String>,
}

/// Makes a fresh snapshot handle for the loop to reuse across ticks.
pub fn new_snapshot() -> sysinfo::System {
    new_system_handle()
}

/// Refreshes the snapshot in place and takes every reading the panels
/// display. The values are whatever the host reports; the renderers
/// are verified for all of them.
pub fn read_host(sys: &mut sysinfo::System) -> HostReadings {
    refresh_all(sys);
    let total = total_memory(sys);
    let used = used_memory(sys);
    refresh_processes(sys);
    let names = process_names(sys);
    let up = uptime_now();
    HostReadings {
        total_memory: total,
        used_memory: used,
        uptime_seconds: up,
        process_names: names,
    }
}

} // verus!
