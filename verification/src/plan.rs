//! Which repair routine answers each system issue.

use vstd::prelude::*;
use crate::types::SystemIssue;

verus! {

/// The repair and analysis routines of the toolkit.
#[derive(Debug, Clone, Copy, PartialEq, Eq, Structural)]
pub enum RepairRoutine {
    /// Detect the Bluetooth adapter, restart its service, verify it.
    BluetoothRepair,
    /// Detect the WiFi adapter, restart networking, flush DNS, renew the address.
    WifiRepair,
    /// Detect audio devices and restart the audio service.
    AudioRepair,
    /// Count USB devices and reset the controllers.
    UsbRepair,
    /// Report disk usage and clear caches.
    DiskCleanup,
    /// Measure CPU usage and list the busiest processes.
    CpuAnalysis,
    /// Measure memory usage and list the largest processes.
    MemoryAnalysis,
    /// Test name resolution, flush the DNS cache, set the DNS servers.
    DnsRepair,
    /// Check the firewall configuration.
    FirewallCheck,
    /// Check for system updates.
    UpdateCheck,
    /// Clear temporary files.
    TempFileCleanup,
    /// Analyze startup programs.
    StartupAnalysis,
    /// Report RAM usage and health.
    RamAnalysis,
}

/// The routine that repairs an issue; the advanced commands have their own
/// menu and no routine.
pub open spec fn routine_of(issue: SystemIssue) -> Option<RepairRoutine> {
    match issue {
        SystemIssue::Bluetooth => Some(RepairRoutine::BluetoothRepair),
        SystemIssue::WiFi => Some(RepairRoutine::WifiRepair),
        SystemIssue::Audio => Some(RepairRoutine::AudioRepair),
        SystemIssue::USB => Some(RepairRoutine::UsbRepair),
        SystemIssue::DiskSpace => Some(RepairRoutine::DiskCleanup),
        SystemIssue::HighCPU => Some(RepairRoutine::CpuAnalysis),
        SystemIssue::HighMemory => Some(RepairRoutine::MemoryAnalysis),
        SystemIssue::DNS => Some(RepairRoutine::DnsRepair),
        SystemIssue::Firewall => Some(RepairRoutine::FirewallCheck),
        SystemIssue::SystemUpdates => Some(RepairRoutine::UpdateCheck),
        SystemIssue::TempFiles => Some(RepairRoutine::TempFileCleanup),
        SystemIssue::StartupPrograms => Some(RepairRoutine::StartupAnalysis),
        SystemIssue::AdvancedCommands => None,
        SystemIssue::RamHealth => Some(RepairRoutine::RamAnalysis),
    }
}

/// Chooses the routine that repairs an issue; `None` for the advanced
/// commands, which complete at once with nothing to do here.
pub fn routine_for(issue: &SystemIssue) -> (r: Option<RepairRoutine>)
    ensures
        r == routine_of(*issue),
{
    match issue {
        SystemIssue::Bluetooth => Some(RepairRoutine::BluetoothRepair),
        SystemIssue::WiFi => Some(RepairRoutine::WifiRepair),
        SystemIssue::Audio => Some(RepairRoutine::AudioRepair),
        SystemIssue::USB => Some(RepairRoutine::UsbRepair),
        SystemIssue::DiskSpace => Some(RepairRoutine::DiskCleanup),
        SystemIssue::HighCPU => Some(RepairRoutine::CpuAnalysis),
        SystemIssue::HighMemory => Some(RepairRoutine::MemoryAnalysis),
        SystemIssue::DNS => Some(RepairRoutine::DnsRepair),
        SystemIssue::Firewall => Some(RepairRoutine::FirewallCheck),
        SystemIssue::SystemUpdates => Some(RepairRoutine::UpdateCheck),
        SystemIssue::TempFiles => Some(RepairRoutine::TempFileCleanup),
        SystemIssue::StartupPrograms => Some(RepairRoutine::StartupAnalysis),
        SystemIssue::AdvancedCommands => None,
        SystemIssue::RamHealth => Some(RepairRoutine::RamAnalysis),
    }
}

/// Every issue but the advanced commands has a routine of its own: no two
/// issues share one.
pub proof fn lemma_routines_distinct(a: SystemIssue, b: SystemIssue)
    ensures
        routine_of(a) is None <==> a == SystemIssue::AdvancedCommands,
        routine_of(a) is Some && routine_of(a) == routine_of(b) ==> a == b,
{
}

/// The issue that each routine is written for.
pub open spec fn routine_subject(r: RepairRoutine) -> SystemIssue {
    match r {
        RepairRoutine::BluetoothRepair => SystemIssue::Bluetooth,
        RepairRoutine::WifiRepair => SystemIssue::WiFi,
        RepairRoutine::AudioRepair => SystemIssue::Audio,
        RepairRoutine::UsbRepair => SystemIssue::USB,
        RepairRoutine::DiskCleanup => SystemIssue::DiskSpace,
        RepairRoutine::CpuAnalysis => SystemIssue::HighCPU,
        RepairRoutine::MemoryAnalysis => SystemIssue::HighMemory,
        RepairRoutine::DnsRepair => SystemIssue::DNS,
        RepairRoutine::FirewallCheck => SystemIssue::Firewall,
        RepairRoutine::UpdateCheck => SystemIssue::SystemUpdates,
        RepairRoutine::TempFileCleanup => SystemIssue::TempFiles,
        RepairRoutine::StartupAnalysis => SystemIssue::StartupPrograms,
        RepairRoutine::RamAnalysis => SystemIssue::RamHealth,
    }
}

/// Every issue is answered by the routine written for it, and every routine
/// answers the issue it is written for: the WiFi issue runs the WiFi repair,
/// the audio issue the audio repair, and so on; only the advanced commands
/// have no routine.
pub proof fn lemma_routine_matches_subject(issue: SystemIssue, r: RepairRoutine)
    ensures
        routine_of(issue) == Some(r) <==> routine_subject(r) == issue,
        routine_of(issue) is None <==> issue == SystemIssue::AdvancedCommands,
{
}

} // verus!
