use system_repair_toolkit::errors::RepairError;
use system_repair_toolkit::probes::{
    audio_devices_found_unix, bluetooth_adapter_found_unix, bluetooth_healthy_unix,
    bluetooth_healthy_windows, bluetooth_restart_outcome_unix, bluetooth_restart_outcome_windows,
    bluetooth_service_running_unix, bluetooth_service_running_windows, classify_dism, classify_sfc,
    devices_found_windows, disk_check_scheduled, dns_resolution_working, read_count,
    usb_count_unix, usb_count_windows, usb_detected_message, wifi_adapter_found_unix,
    wifi_adapter_found_windows, DismOutcome, SfcOutcome,
};

#[test]
fn counts() {
    assert_eq!(read_count("3\r\n"), 3);
    assert_eq!(read_count("none"), 0);
    assert_eq!(read_count("-1"), 0);
    assert!(devices_found_windows(true, " 2 \n"));
    assert!(!devices_found_windows(true, "0"));
    assert!(!devices_found_windows(false, "5"));
}

#[test]
fn device_listings() {
    assert!(audio_devices_found_unix("card 0: PCH [HDA Intel PCH]"));
    assert!(audio_devices_found_unix("aplay: no soundcards found..."));
    assert!(!audio_devices_found_unix("aplay: no devices"));
    assert!(bluetooth_adapter_found_unix("hci0:\tType: Primary"));
    assert!(!bluetooth_adapter_found_unix(""));
    assert!(bluetooth_service_running_windows("Running\r\n"));
    assert!(!bluetooth_service_running_windows("Stopped"));
    assert!(bluetooth_service_running_unix("active\n"));
    assert!(!bluetooth_service_running_unix("inactive\n"));
    assert!(bluetooth_healthy_unix("\tUP RUNNING PSCAN"));
    assert!(!bluetooth_healthy_unix("DOWN"));
    assert!(wifi_adapter_found_windows("    State : connected"));
    assert!(wifi_adapter_found_unix("3: wlp2s0: <BROADCAST>"));
    assert!(!wifi_adapter_found_unix("1: lo: <LOOPBACK>"));
    assert!(dns_resolution_working("Non-authoritative answer:"));
    assert!(!dns_resolution_working("server can't find"));
    assert!(disk_check_scheduled("Volume - C: is dirty"));
    assert!(!disk_check_scheduled("Volume - C: is NOT Dirty"));
}

#[test]
fn health_and_restart_outcomes() {
    assert_eq!(bluetooth_healthy_windows(true, "0"), Ok(true));
    assert_eq!(bluetooth_healthy_windows(true, "2"), Ok(false));
    assert_eq!(
        bluetooth_healthy_windows(false, "0"),
        Err(RepairError::CommandFailed("Health check command failed".to_string()))
    );
    assert_eq!(bluetooth_restart_outcome_windows(true, "ignored"), Ok(()));
    assert_eq!(
        bluetooth_restart_outcome_windows(false, "denied"),
        Err(RepairError::ServiceUnavailable(
            "Failed to restart Bluetooth services: denied".to_string()
        ))
    );
    assert_eq!(bluetooth_restart_outcome_unix(true), Ok(()));
    assert_eq!(
        bluetooth_restart_outcome_unix(false),
        Err(RepairError::ServiceUnavailable("Failed to restart Bluetooth service".to_string()))
    );
}

#[test]
fn scan_reports() {
    assert_eq!(
        classify_sfc("Windows Resource Protection found corrupt files and successfully repaired them."),
        SfcOutcome::Repaired
    );
    assert_eq!(
        classify_sfc("Windows Resource Protection did not find any integrity violations."),
        SfcOutcome::NoViolations
    );
    assert_eq!(
        classify_sfc("Windows Resource Protection found corrupt files but was unable to fix some of them."),
        SfcOutcome::UnableToRepair
    );
    assert_eq!(classify_sfc("???"), SfcOutcome::Unrecognized);
    assert_eq!(classify_dism("The restore operation completed successfully."), DismOutcome::Repaired);
    assert_eq!(classify_dism("No component store corruption detected."), DismOutcome::Healthy);
    assert_eq!(classify_dism("Error: 87"), DismOutcome::Unrecognized);
}

#[test]
fn usb_counts() {
    assert_eq!(usb_count_windows(" 12\r\n"), 12);
    assert_eq!(usb_count_windows("-3"), -3);
    assert_eq!(usb_count_windows("many"), 0);
    assert_eq!(usb_count_unix("Bus 001 Device 001\nBus 002 Device 001\n"), 2);
    assert_eq!(usb_count_unix(""), 0);
    assert_eq!(usb_detected_message(3), "3 USB device(s) detected");
    assert_eq!(usb_detected_message(-1), "-1 USB device(s) detected");
}

use system_repair_toolkit::menu::StatusKind;
use system_repair_toolkit::ranking::largest_by_memory;
use system_repair_toolkit::steps::{
    bluetooth_restart_report, bluetooth_step, device_check, BluetoothEvent, BluetoothStage, Device,
};

fn lines(step: &[(StatusKind, String)]) -> Vec<(StatusKind, &str)> {
    step.iter().map(|(k, l)| (*k, l.as_str())).collect()
}

#[test]
fn device_checks() {
    assert_eq!(device_check(true, Device::AudioDevices), Ok((StatusKind::Success, "Audio devices detected")));
    assert_eq!(device_check(true, Device::WifiAdapter), Ok((StatusKind::Success, "WiFi adapter detected")));
    assert_eq!(
        device_check(false, Device::WifiAdapter),
        Err(RepairError::HardwareNotFound("WiFi adapter".to_string()))
    );
    assert_eq!(
        device_check(false, Device::BluetoothAdapter),
        Err(RepairError::HardwareNotFound("Bluetooth adapter".to_string()))
    );
}

#[test]
fn restart_reports() {
    assert_eq!(
        lines(&bluetooth_restart_report(&Ok(()))),
        vec![(StatusKind::Success, "Bluetooth service restarted")]
    );
    assert_eq!(
        lines(&bluetooth_restart_report(&Err(RepairError::PermissionDenied))),
        vec![
            (StatusKind::Warning, "Insufficient permissions to restart services"),
            (StatusKind::Info, "Please run the application as administrator."),
        ]
    );
    assert_eq!(
        lines(&bluetooth_restart_report(&Err(RepairError::ServiceUnavailable("x".to_string())))),
        vec![(StatusKind::Warning, "Failed to restart service: Service not available: x")]
    );
}

#[test]
fn bluetooth_steps() {
    let s = bluetooth_step(BluetoothStage::Detecting, BluetoothEvent::AdapterScanned(false));
    assert_eq!(s.stage, BluetoothStage::Failed);
    assert_eq!(s.failure, Some(RepairError::HardwareNotFound("Bluetooth adapter".to_string())));
    assert!(s.lines.is_empty());

    let s = bluetooth_step(BluetoothStage::Detecting, BluetoothEvent::AdapterScanned(true));
    assert_eq!(s.stage, BluetoothStage::Restarting);
    assert_eq!(lines(&s.lines), vec![(StatusKind::Success, "Bluetooth adapter found")]);

    let s = bluetooth_step(BluetoothStage::Restarting, BluetoothEvent::ServiceRestarted(Err(RepairError::PermissionDenied)));
    assert_eq!(s.stage, BluetoothStage::Verifying);
    assert_eq!(s.failure, None);
    assert_eq!(s.lines.len(), 2);

    let s = bluetooth_step(BluetoothStage::Verifying, BluetoothEvent::ServiceChecked(false));
    assert_eq!(s.stage, BluetoothStage::CheckingHealth);
    assert_eq!(
        lines(&s.lines),
        vec![(StatusKind::Warning, "Service restarted but may need manual configuration")]
    );

    let s = bluetooth_step(BluetoothStage::CheckingHealth, BluetoothEvent::HealthChecked(true));
    assert_eq!(s.stage, BluetoothStage::Finished);
    assert_eq!(lines(&s.lines), vec![(StatusKind::Success, "Bluetooth devices are healthy")]);

    let s = bluetooth_step(BluetoothStage::Finished, BluetoothEvent::HealthChecked(false));
    assert_eq!(s.stage, BluetoothStage::Finished);
    assert!(s.lines.is_empty());
}

#[test]
fn largest_processes() {
    let mem = vec![5u64, 9, 1, 9, 7, 0, 3];
    assert_eq!(largest_by_memory(&mem, 5), vec![1, 3, 4, 0, 6]);
    assert_eq!(largest_by_memory(&mem, 0), Vec::<usize>::new());
    assert_eq!(largest_by_memory(&vec![2u64, 2], 5), vec![0, 1]);
    assert_eq!(largest_by_memory(&Vec::new(), 5), Vec::<usize>::new());
    // The same order as a stable sort by decreasing memory.
    let mut order: Vec<usize> = (0..mem.len()).collect();
    order.sort_by(|a, b| mem[*b].cmp(&mem[*a]));
    assert_eq!(largest_by_memory(&mem, 7), order);
}
