//! What the operating system's tools report, read from their output.
//!
//! The program runs the tools; these functions take what a tool printed (and
//! whether it exited successfully) and decide what it means.

use vstd::prelude::*;
use vstd::string::*;
use crate::errors::RepairError;
use crate::text::{
    contains, count_lines, has_substring, line_count, parse_i32, parse_usize, parsed_i32, parsed_usize,
    signed_decimal, signed_decimal_string, str_eq, trim, trimmed,
};

verus! {

/// The count that a tool printed: the trimmed output read as a `usize`, or 0
/// when it does not read as one.
pub open spec fn printed_count(output: Seq<char>) -> nat {
    match parsed_usize(trimmed(output)) {
        Some(n) => n as nat,
        None => 0,
    }
}

/// Reads the count that a tool printed; output that is not a count reads as 0.
pub fn read_count(output: &str) -> (r: usize)
    ensures
        r == printed_count(output@),
{
    match parse_usize(trim(output)) {
        Some(n) => n,
        None => 0,
    }
}

/// Whether a device query that printed a count of matching devices found any:
/// a failed query finds none.
pub open spec fn count_query_found(success: bool, output: Seq<char>) -> bool {
    success && printed_count(output) > 0
}

/// Whether a Windows device query (sound devices, Bluetooth devices) found any
/// device, from its exit status and the count it printed.
pub fn devices_found_windows(success: bool, output: &str) -> (r: bool)
    ensures
        r == count_query_found(success, output@),
{
    if !success {
        return false;
    }
    read_count(output) > 0
}

/// Whether `aplay -l` listed a sound card.
pub fn audio_devices_found_unix(output: &str) -> (r: bool)
    ensures
        r == has_substring(output@, "card"@),
{
    contains(output, "card")
}

/// Whether `hciconfig` listed a Bluetooth adapter.
pub fn bluetooth_adapter_found_unix(output: &str) -> (r: bool)
    ensures
        r == (has_substring(output@, "hci0"@) || has_substring(output@, "UP"@)),
{
    contains(output, "hci0") || contains(output, "UP")
}

/// Whether the Windows Bluetooth service reports that it is running.
pub fn bluetooth_service_running_windows(output: &str) -> (r: bool)
    ensures
        r == (trimmed(output@) == "Running"@),
{
    str_eq(trim(output), "Running")
}

/// Whether `systemctl is-active bluetooth` reports that the service is active.
pub fn bluetooth_service_running_unix(output: &str) -> (r: bool)
    ensures
        r == (trimmed(output@) == "active"@),
{
    str_eq(trim(output), "active")
}

/// The Bluetooth health verdict on Windows: the query counts the Bluetooth
/// devices whose status is not OK; a failed query is an error.
pub fn bluetooth_healthy_windows(success: bool, output: &str) -> (r: Result<bool, RepairError>)
    ensures
        success ==> r == Ok::<bool, RepairError>(printed_count(output@) == 0),
        !success ==> (r matches Err(RepairError::CommandFailed(m)) && m@ == "Health check command failed"@),
{
    broadcast use vstd::string::group_string_axioms;
    if !success {
        return Err(RepairError::CommandFailed("Health check command failed".to_string()));
    }
    Ok(read_count(output) == 0)
}

/// Whether `hciconfig -a` shows an adapter that is up and running.
pub fn bluetooth_healthy_unix(output: &str) -> (r: bool)
    ensures
        r == has_substring(output@, "UP RUNNING"@),
{
    contains(output, "UP RUNNING")
}

/// The outcome of restarting the Bluetooth services on Windows, from the exit
/// status of the restart and what it wrote to standard error.
pub fn bluetooth_restart_outcome_windows(success: bool, stderr: &str) -> (r: Result<(), RepairError>)
    ensures
        success ==> r is Ok,
        !success ==> (r matches Err(RepairError::ServiceUnavailable(m))
            && m@ == "Failed to restart Bluetooth services: "@ + stderr@),
{
    broadcast use vstd::string::group_string_axioms;
    if success {
        Ok(())
    } else {
        let mut m = "Failed to restart Bluetooth services: ".to_string();
        m.append(stderr);
        Err(RepairError::ServiceUnavailable(m))
    }
}

/// The outcome of `systemctl restart bluetooth`, from its exit status.
pub fn bluetooth_restart_outcome_unix(success: bool) -> (r: Result<(), RepairError>)
    ensures
        success ==> r is Ok,
        !success ==> (r matches Err(RepairError::ServiceUnavailable(m))
            && m@ == "Failed to restart Bluetooth service"@),
{
    broadcast use vstd::string::group_string_axioms;
    if success {
        Ok(())
    } else {
        Err(RepairError::ServiceUnavailable("Failed to restart Bluetooth service".to_string()))
    }
}

/// Whether `netsh wlan show interfaces` shows a wireless interface.
pub fn wifi_adapter_found_windows(output: &str) -> (r: bool)
    ensures
        r == (has_substring(output@, "SSID"@) || has_substring(output@, "State"@)),
{
    contains(output, "SSID") || contains(output, "State")
}

/// Whether `ip link show` lists a wireless interface.
pub fn wifi_adapter_found_unix(output: &str) -> (r: bool)
    ensures
        r == (has_substring(output@, "wlan"@) || has_substring(output@, "wlp"@)
            || has_substring(output@, "wifi"@)),
{
    contains(output, "wlan") || contains(output, "wlp") || contains(output, "wifi")
}

/// Whether `nslookup` resolved the name it was asked for.
pub fn dns_resolution_working(output: &str) -> (r: bool)
    ensures
        r == (has_substring(output@, "Address"@) || has_substring(output@, "answer"@)),
{
    contains(output, "Address") || contains(output, "answer")
}

/// What the System File Checker reported.
#[derive(Debug, Clone, Copy, PartialEq, Eq, Structural)]
pub enum SfcOutcome {
    /// Corrupted files were found and repaired.
    Repaired,
    /// No integrity violations were found.
    NoViolations,
    /// Corrupt files were found and some could not be repaired.
    UnableToRepair,
    /// The report says none of these.
    Unrecognized,
}

/// Reads the report of `sfc /scannow`; the first phrase found, in this order,
/// decides.
pub open spec fn sfc_outcome(output: Seq<char>) -> SfcOutcome {
    if has_substring(output, "successfully repaired"@) {
        SfcOutcome::Repaired
    } else if has_substring(output, "did not find any integrity violations"@) {
        SfcOutcome::NoViolations
    } else if has_substring(output, "found corrupt files but was unable"@) {
        SfcOutcome::UnableToRepair
    } else {
        SfcOutcome::Unrecognized
    }
}

/// Classifies the report of `sfc /scannow`.
pub fn classify_sfc(output: &str) -> (r: SfcOutcome)
    ensures
        r == sfc_outcome(output@),
{
    if contains(output, "successfully repaired") {
        SfcOutcome::Repaired
    } else if contains(output, "did not find any integrity violations") {
        SfcOutcome::NoViolations
    } else if contains(output, "found corrupt files but was unable") {
        SfcOutcome::UnableToRepair
    } else {
        SfcOutcome::Unrecognized
    }
}

/// What the DISM image repair reported.
#[derive(Debug, Clone, Copy, PartialEq, Eq, Structural)]
pub enum DismOutcome {
    /// The image was repaired.
    Repaired,
    /// The component store is healthy.
    Healthy,
    /// The report says neither.
    Unrecognized,
}

/// Reads the report of `DISM /Online /Cleanup-Image /RestoreHealth`.
pub open spec fn dism_outcome(output: Seq<char>) -> DismOutcome {
    if has_substring(output, "operation completed successfully"@) {
        DismOutcome::Repaired
    } else if has_substring(output, "No component store corruption detected"@) {
        DismOutcome::Healthy
    } else {
        DismOutcome::Unrecognized
    }
}

/// Classifies the report of the DISM image repair.
pub fn classify_dism(output: &str) -> (r: DismOutcome)
    ensures
        r == dism_outcome(output@),
{
    if contains(output, "operation completed successfully") {
        DismOutcome::Repaired
    } else if contains(output, "No component store corruption detected") {
        DismOutcome::Healthy
    } else {
        DismOutcome::Unrecognized
    }
}

/// Whether `fsutil dirty query` reports the volume dirty, that is, a disk
/// check scheduled for the next reboot.
pub fn disk_check_scheduled(output: &str) -> (r: bool)
    ensures
        r == has_substring(output@, "is dirty"@),
{
    contains(output, "is dirty")
}

/// The USB device count that PowerShell printed: the trimmed output read as an
/// `i32`, or 0 when it does not read as one.
pub open spec fn printed_usb_count(output: Seq<char>) -> i32 {
    match parsed_i32(trimmed(output)) {
        Some(n) => n,
        None => 0,
    }
}

/// Reads the USB device count that `(Get-PnpDevice -Class USB).Count` printed.
pub fn usb_count_windows(output: &str) -> (r: i32)
    ensures
        r == printed_usb_count(output@),
{
    match parse_i32(trim(output)) {
        Some(n) => n,
        None => 0,
    }
}

/// Counts the USB devices that `lsusb` listed: one per line.
pub fn usb_count_unix(output: &str) -> (r: usize)
    ensures
        r == line_count(output@),
{
    count_lines(output)
}

/// The report of how many USB devices were detected.
pub open spec fn usb_report(count: int) -> Seq<char> {
    signed_decimal(count) + " USB device(s) detected"@
}

/// Writes the report of how many USB devices were detected.
pub fn usb_detected_message(count: i64) -> (r: String)
    ensures
        r@ == usb_report(count as int),
{
    let mut out = signed_decimal_string(count);
    out.append(" USB device(s) detected");
    out
}

/// The SFC report is read by its phrases alone: each outcome is reported
/// only when its phrase stands in the report; "successfully repaired" always
/// means repaired; and a report with none of the three phrases (a failed
/// scan, say) is unrecognized.
pub proof fn lemma_sfc_reading(output: Seq<char>)
    ensures
        sfc_outcome(output) == SfcOutcome::Repaired <==> has_substring(output, "successfully repaired"@),
        sfc_outcome(output) == SfcOutcome::NoViolations
            ==> has_substring(output, "did not find any integrity violations"@),
        sfc_outcome(output) == SfcOutcome::UnableToRepair
            ==> has_substring(output, "found corrupt files but was unable"@),
        sfc_outcome(output) == SfcOutcome::Unrecognized <==> (
            !has_substring(output, "successfully repaired"@)
            && !has_substring(output, "did not find any integrity violations"@)
            && !has_substring(output, "found corrupt files but was unable"@)),
{
}

/// The DISM report is read by its phrases alone: "operation completed
/// successfully" means repaired; the healthy verdict needs its own phrase;
/// a report with neither phrase is unrecognized.
pub proof fn lemma_dism_reading(output: Seq<char>)
    ensures
        dism_outcome(output) == DismOutcome::Repaired
            <==> has_substring(output, "operation completed successfully"@),
        dism_outcome(output) == DismOutcome::Healthy
            ==> has_substring(output, "No component store corruption detected"@),
        dism_outcome(output) == DismOutcome::Unrecognized <==> (
            !has_substring(output, "operation completed successfully"@)
            && !has_substring(output, "No component store corruption detected"@)),
{
}

/// A printed count is the trimmed output read as a number: a count above
/// zero needs output that reads as that number, and output that reads as no
/// number counts as zero.
pub proof fn lemma_printed_count(output: Seq<char>)
    ensures
        parsed_usize(trimmed(output)) is None ==> printed_count(output) == 0,
        parsed_usize(trimmed(output)) matches Some(n) ==> printed_count(output) == n,
        count_query_found(false, output) == false,
        parsed_i32(trimmed(output)) is None ==> printed_usb_count(output) == 0,
        parsed_i32(trimmed(output)) matches Some(n) ==> printed_usb_count(output) == n,
{
}

} // verus!
