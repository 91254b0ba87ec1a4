//! The decisions of the repair routines: when a missing device ends a
//! repair, and which status lines report each step.
//!
//! The program runs each step (queries a tool, restarts a service) and hands
//! what happened to these functions, which say what to report and where the
//! routine goes next.

use vstd::prelude::*;
use vstd::string::*;
use crate::errors::{RepairError, error_message};
use crate::menu::StatusKind;

verus! {

/// The devices whose absence ends a repair.
#[derive(Debug, Clone, Copy, PartialEq, Eq, Structural)]
pub enum Device {
    /// A Bluetooth adapter.
    BluetoothAdapter,
    /// Sound devices.
    AudioDevices,
    /// A WiFi adapter.
    WifiAdapter,
}

/// The name of a device in the error that reports it missing.
pub open spec fn device_label(d: Device) -> Seq<char> {
    match d {
        Device::BluetoothAdapter => "Bluetooth adapter"@,
        Device::AudioDevices => "Audio devices"@,
        Device::WifiAdapter => "WiFi adapter"@,
    }
}

/// The status line that reports a device found.
pub open spec fn device_found_line(d: Device) -> Seq<char> {
    match d {
        Device::BluetoothAdapter => "Bluetooth adapter found"@,
        Device::AudioDevices => "Audio devices detected"@,
        Device::WifiAdapter => "WiFi adapter detected"@,
    }
}

/// Decides how a repair goes on after looking for its device: a found device
/// is reported with a success line; a missing one ends the repair with
/// `HardwareNotFound`.
pub fn device_check(found: bool, device: Device) -> (r: Result<(StatusKind, &'static str), RepairError>)
    ensures
        found ==> (r matches Ok((kind, line)) && kind == StatusKind::Success && line@ == device_found_line(device)),
        !found ==> (r matches Err(RepairError::HardwareNotFound(m)) && m@ == device_label(device)),
{
    broadcast use vstd::string::group_string_axioms;
    if found {
        let line = match device {
            Device::BluetoothAdapter => "Bluetooth adapter found",
            Device::AudioDevices => "Audio devices detected",
            Device::WifiAdapter => "WiFi adapter detected",
        };
        Ok((StatusKind::Success, line))
    } else {
        let label = match device {
            Device::BluetoothAdapter => "Bluetooth adapter",
            Device::AudioDevices => "Audio devices",
            Device::WifiAdapter => "WiFi adapter",
        };
        Err(RepairError::HardwareNotFound(label.to_string()))
    }
}

/// Whether the status lines `r` are exactly `spec`.
pub open spec fn lines_are(r: Seq<(StatusKind, String)>, spec: Seq<(StatusKind, Seq<char>)>) -> bool {
    &&& r.len() == spec.len()
    &&& forall|i: int| 0 <= i < r.len() ==> (#[trigger] r[i]).0 == spec[i].0 && r[i].1@ == spec[i].1
}

/// The status lines that report an attempt to restart the Bluetooth service:
/// a success line; a warning and advice to run as administrator when
/// permission was denied; otherwise a warning that quotes the error.
pub open spec fn restart_report_lines(result: Result<(), RepairError>) -> Seq<(StatusKind, Seq<char>)> {
    match result {
        Ok(()) => seq![(StatusKind::Success, "Bluetooth service restarted"@)],
        Err(RepairError::PermissionDenied) => seq![
            (StatusKind::Warning, "Insufficient permissions to restart services"@),
            (StatusKind::Info, "Please run the application as administrator."@),
        ],
        Err(e) => seq![(StatusKind::Warning, "Failed to restart service: "@ + error_message(e))],
    }
}

/// Writes the status lines that report an attempt to restart the Bluetooth
/// service.
pub fn bluetooth_restart_report(result: &Result<(), RepairError>) -> (r: Vec<(StatusKind, String)>)
    ensures
        lines_are(r@, restart_report_lines(*result)),
{
    broadcast use vstd::string::group_string_axioms;
    let mut out: Vec<(StatusKind, String)> = Vec::new();
    match result {
        Ok(()) => {
            out.push((StatusKind::Success, "Bluetooth service restarted".to_string()));
        },
        Err(RepairError::PermissionDenied) => {
            out.push((StatusKind::Warning, "Insufficient permissions to restart services".to_string()));
            out.push((StatusKind::Info, "Please run the application as administrator.".to_string()));
        },
        Err(e) => {
            let mut line = "Failed to restart service: ".to_string();
            let detail = e.to_string();
            line.append(detail.as_str());
            out.push((StatusKind::Warning, line));
        },
    }
    out
}

/// The stages of the Bluetooth repair, in the order they run.
#[derive(Debug, Clone, Copy, PartialEq, Eq, Structural)]
pub enum BluetoothStage {
    /// Looking for the adapter.
    Detecting,
    /// Restarting the service.
    Restarting,
    /// Checking that the service runs.
    Verifying,
    /// Checking the health of the Bluetooth devices.
    CheckingHealth,
    /// The repair is complete.
    Finished,
    /// The repair ended because no adapter was found.
    Failed,
}

/// What a step of the Bluetooth repair found out.
#[derive(Debug, PartialEq, Eq)]
pub enum BluetoothEvent {
    /// The adapter scan ended; whether it found an adapter.
    AdapterScanned(bool),
    /// The service restart ended, with its outcome.
    ServiceRestarted(Result<(), RepairError>),
    /// The service check ended; whether the service runs.
    ServiceChecked(bool),
    /// The health check ended; whether every device is healthy.
    HealthChecked(bool),
}

/// What the Bluetooth repair does after an event: the stage it moves to, the
/// status lines it reports, and the error that ends it, if any.
pub struct BluetoothStep {
    /// The stage that comes next.
    pub stage: BluetoothStage,
    /// The status lines to report, in order.
    pub lines: Vec<(StatusKind, String)>,
    /// The error that ends the repair.
    pub failure: Option<RepairError>,
}

/// The stage that follows `stage` after `event`; an event that does not
/// belong to the stage changes nothing.
pub open spec fn bluetooth_next(stage: BluetoothStage, event: BluetoothEvent) -> BluetoothStage {
    match (stage, event) {
        (BluetoothStage::Detecting, BluetoothEvent::AdapterScanned(found)) =>
            if found { BluetoothStage::Restarting } else { BluetoothStage::Failed },
        (BluetoothStage::Restarting, BluetoothEvent::ServiceRestarted(_)) => BluetoothStage::Verifying,
        (BluetoothStage::Verifying, BluetoothEvent::ServiceChecked(_)) => BluetoothStage::CheckingHealth,
        (BluetoothStage::CheckingHealth, BluetoothEvent::HealthChecked(_)) => BluetoothStage::Finished,
        _ => stage,
    }
}

/// The status lines reported after `event` in `stage`.
pub open spec fn bluetooth_lines(stage: BluetoothStage, event: BluetoothEvent) -> Seq<(StatusKind, Seq<char>)> {
    match (stage, event) {
        (BluetoothStage::Detecting, BluetoothEvent::AdapterScanned(found)) =>
            if found { seq![(StatusKind::Success, "Bluetooth adapter found"@)] } else { Seq::empty() },
        (BluetoothStage::Restarting, BluetoothEvent::ServiceRestarted(result)) => restart_report_lines(result),
        (BluetoothStage::Verifying, BluetoothEvent::ServiceChecked(running)) =>
            if running {
                seq![(StatusKind::Success, "Bluetooth is operational"@)]
            } else {
                seq![(StatusKind::Warning, "Service restarted but may need manual configuration"@)]
            },
        (BluetoothStage::CheckingHealth, BluetoothEvent::HealthChecked(healthy)) =>
            if healthy {
                seq![(StatusKind::Success, "Bluetooth devices are healthy"@)]
            } else {
                seq![(StatusKind::Warning, "Some Bluetooth devices may have issues"@)]
            },
        _ => Seq::empty(),
    }
}

/// Whether `event` ends the repair in `stage` for want of an adapter.
pub open spec fn bluetooth_fails(stage: BluetoothStage, event: BluetoothEvent) -> bool {
    stage == BluetoothStage::Detecting && event == BluetoothEvent::AdapterScanned(false)
}

/// Decides the next step of the Bluetooth repair: a missing adapter ends it
/// with `HardwareNotFound`; a failed restart is reported and the repair goes
/// on; the service and health checks are reported as successes or warnings.
pub fn bluetooth_step(stage: BluetoothStage, event: BluetoothEvent) -> (r: BluetoothStep)
    ensures
        r.stage == bluetooth_next(stage, event),
        lines_are(r.lines@, bluetooth_lines(stage, event)),
        bluetooth_fails(stage, event) ==> (r.failure matches Some(RepairError::HardwareNotFound(m))
            && m@ == "Bluetooth adapter"@),
        !bluetooth_fails(stage, event) ==> r.failure is None,
{
    broadcast use vstd::string::group_string_axioms;
    let mut lines: Vec<(StatusKind, String)> = Vec::new();
    match (stage, event) {
        (BluetoothStage::Detecting, BluetoothEvent::AdapterScanned(found)) => {
            match device_check(found, Device::BluetoothAdapter) {
                Ok((kind, line)) => {
                    lines.push((kind, line.to_string()));
                    BluetoothStep { stage: BluetoothStage::Restarting, lines, failure: None }
                },
                Err(e) => BluetoothStep { stage: BluetoothStage::Failed, lines, failure: Some(e) },
            }
        },
        (BluetoothStage::Restarting, BluetoothEvent::ServiceRestarted(result)) => {
            BluetoothStep { stage: BluetoothStage::Verifying, lines: bluetooth_restart_report(&result), failure: None }
        },
        (BluetoothStage::Verifying, BluetoothEvent::ServiceChecked(running)) => {
            if running {
                lines.push((StatusKind::Success, "Bluetooth is operational".to_string()));
            } else {
                lines.push((StatusKind::Warning, "Service restarted but may need manual configuration".to_string()));
            }
            BluetoothStep { stage: BluetoothStage::CheckingHealth, lines, failure: None }
        },
        (BluetoothStage::CheckingHealth, BluetoothEvent::HealthChecked(healthy)) => {
            if healthy {
                lines.push((StatusKind::Success, "Bluetooth devices are healthy".to_string()));
            } else {
                lines.push((StatusKind::Warning, "Some Bluetooth devices may have issues".to_string()));
            }
            BluetoothStep { stage: BluetoothStage::Finished, lines, failure: None }
        },
        _ => BluetoothStep { stage, lines, failure: None },
    }
}

/// The order of the stages of the Bluetooth repair.
pub open spec fn stage_rank(s: BluetoothStage) -> int {
    match s {
        BluetoothStage::Detecting => 0,
        BluetoothStage::Restarting => 1,
        BluetoothStage::Verifying => 2,
        BluetoothStage::CheckingHealth => 3,
        BluetoothStage::Finished => 4,
        BluetoothStage::Failed => 4,
    }
}

/// The Bluetooth repair never goes back a stage, and once it has finished or
/// failed no event moves it again; only a missing adapter makes it fail.
pub proof fn lemma_bluetooth_progress(stage: BluetoothStage, event: BluetoothEvent)
    ensures
        stage_rank(bluetooth_next(stage, event)) >= stage_rank(stage),
        (stage == BluetoothStage::Finished || stage == BluetoothStage::Failed)
            ==> bluetooth_next(stage, event) == stage,
        bluetooth_next(stage, event) == BluetoothStage::Failed && stage != BluetoothStage::Failed
            ==> bluetooth_fails(stage, event),
{
}

/// The Bluetooth repair reports truthfully: it reports success after the
/// scan only when an adapter was found, after the restart only when the
/// restart succeeded, after the service check only when the service runs,
/// and after the health check only when every device is healthy; each of
/// these steps reports exactly one line, except a denied restart, which adds
/// its advice.
pub proof fn lemma_bluetooth_reports_truthfully(found: bool, res: Result<(), RepairError>, running: bool, healthy: bool)
    ensures
        ({
            let l = bluetooth_lines(BluetoothStage::Detecting, BluetoothEvent::AdapterScanned(found));
            (found ==> l.len() == 1 && l[0].0 == StatusKind::Success) && (!found ==> l.len() == 0)
        }),
        ({
            let l = bluetooth_lines(BluetoothStage::Restarting, BluetoothEvent::ServiceRestarted(res));
            l.len() >= 1 && (l[0].0 == StatusKind::Success <==> res is Ok)
                && (l.len() == 2 <==> res == Err::<(), RepairError>(RepairError::PermissionDenied))
        }),
        ({
            let l = bluetooth_lines(BluetoothStage::Verifying, BluetoothEvent::ServiceChecked(running));
            l.len() == 1 && (l[0].0 == StatusKind::Success <==> running)
        }),
        ({
            let l = bluetooth_lines(BluetoothStage::CheckingHealth, BluetoothEvent::HealthChecked(healthy));
            l.len() == 1 && (l[0].0 == StatusKind::Success <==> healthy)
        }),
{
}

} // verus!
