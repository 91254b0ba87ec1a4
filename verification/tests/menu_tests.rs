use system_repair_toolkit::commands::{check_supported, command_failure, command_line, confirmation_warning, spawn_failure};
use system_repair_toolkit::errors::RepairError;
use system_repair_toolkit::menu::{
    advanced_menu_action, completion_message, error_line, info_box_lines, is_confirmation,
    main_menu_action, parse_menu_choice, warning_line, AdvancedAction, MenuAction, Selection,
    StatusKind,
};
use system_repair_toolkit::plan::{routine_for, RepairRoutine};
use system_repair_toolkit::types::{AdvancedCommand, SystemIssue};

#[test]
fn menu_answers() {
    assert_eq!(parse_menu_choice("0", 13), Some(Selection::Leave));
    assert_eq!(parse_menu_choice("1\n", 13), Some(Selection::Entry(0)));
    assert_eq!(parse_menu_choice(" 13 ", 13), Some(Selection::Entry(12)));
    assert_eq!(parse_menu_choice("14", 13), None);
    assert_eq!(parse_menu_choice("", 13), None);
    assert_eq!(parse_menu_choice("two", 13), None);
    assert_eq!(parse_menu_choice("-1", 13), None);
    assert_eq!(parse_menu_choice("+5", 13), Some(Selection::Entry(4)));
    assert_eq!(parse_menu_choice("0", 0), Some(Selection::Leave));
    assert_eq!(parse_menu_choice("1", 0), None);
}

#[test]
fn main_menu_answers() {
    assert_eq!(main_menu_action("0\n"), MenuAction::Exit);
    assert_eq!(main_menu_action("1\n"), MenuAction::Repair(SystemIssue::Bluetooth));
    assert_eq!(main_menu_action("2"), MenuAction::Repair(SystemIssue::WiFi));
    assert_eq!(main_menu_action("12"), MenuAction::Repair(SystemIssue::StartupPrograms));
    assert_eq!(main_menu_action("13"), MenuAction::OpenAdvanced);
    assert_eq!(main_menu_action("14"), MenuAction::Redisplay);
    assert_eq!(main_menu_action("quit"), MenuAction::Redisplay);
}

#[test]
fn advanced_menu_answers() {
    let commands = AdvancedCommand::for_platform("linux");
    assert_eq!(advanced_menu_action("0", &commands), AdvancedAction::Back);
    assert_eq!(advanced_menu_action("1", &commands), AdvancedAction::Run(AdvancedCommand::FsckCheck));
    assert_eq!(advanced_menu_action("7", &commands), AdvancedAction::Run(AdvancedCommand::MountCheck));
    assert_eq!(advanced_menu_action("8", &commands), AdvancedAction::Redisplay);
    assert_eq!(advanced_menu_action("1", &Vec::new()), AdvancedAction::Redisplay);
}

#[test]
fn yes_no_answers() {
    assert!(is_confirmation("y\n"));
    assert!(is_confirmation(" Y "));
    assert!(!is_confirmation("yes"));
    assert!(!is_confirmation(""));
    assert!(!is_confirmation("n"));
}

#[test]
fn status_kinds() {
    assert_eq!(StatusKind::from_name("success"), StatusKind::Success);
    assert_eq!(StatusKind::from_name("error"), StatusKind::Error);
    assert_eq!(StatusKind::from_name("warning"), StatusKind::Warning);
    assert_eq!(StatusKind::from_name("info"), StatusKind::Info);
    assert_eq!(StatusKind::from_name("anything"), StatusKind::Info);
    assert_eq!(StatusKind::Success.icon(), "✓");
    assert_eq!(StatusKind::Error.icon(), "✗");
    assert_eq!(StatusKind::Warning.icon(), "⚠");
    assert_eq!(StatusKind::Info.icon(), "ℹ");
}

#[test]
fn message_lines() {
    assert_eq!(completion_message(true, "Done"), "✓ Done");
    assert_eq!(completion_message(false, "Broke"), "✗ Broke");
    assert_eq!(error_line("boom"), "Error: boom");
    assert_eq!(warning_line("careful"), "⚠ Warning: careful");
    assert_eq!(
        info_box_lines("Tips", &["one", "two"]),
        vec!["╔═ Tips ═╗", "║ one ", "║ two ", "╚═══════╝"]
    );
}

#[test]
fn command_texts_and_failures() {
    assert_eq!(command_line("netsh", &["wlan", "show", "interfaces"]), "netsh wlan show interfaces");
    assert_eq!(command_line("dhclient", &[]), "dhclient ");
    assert_eq!(
        command_failure("mount ", "denied"),
        RepairError::CommandFailed("Command failed: mount \ndenied".to_string())
    );
    assert_eq!(
        spawn_failure("sfc /scannow", "cancelled"),
        RepairError::CommandFailed("Task spawn failed for 'sfc /scannow': cancelled".to_string())
    );
    assert_eq!(
        confirmation_warning(AdvancedCommand::ChmodFix),
        "About to execute: Fix File Permissions\nChanges file permissions to resolve access errors"
    );
}

#[test]
fn advanced_support_checks() {
    assert_eq!(check_supported(AdvancedCommand::SfcScannow, true), Ok(()));
    assert_eq!(check_supported(AdvancedCommand::MountCheck, false), Ok(()));
    assert_eq!(
        check_supported(AdvancedCommand::MountCheck, true),
        Err(RepairError::CommandFailed("Command not supported on Windows".to_string()))
    );
    assert_eq!(
        check_supported(AdvancedCommand::SfcScannow, false),
        Err(RepairError::CommandFailed("Command not supported on Linux".to_string()))
    );
}

#[test]
fn routines() {
    assert_eq!(routine_for(&SystemIssue::AdvancedCommands), None);
    assert_eq!(routine_for(&SystemIssue::Bluetooth), Some(RepairRoutine::BluetoothRepair));
    assert_eq!(routine_for(&SystemIssue::DNS), Some(RepairRoutine::DnsRepair));
    assert_eq!(routine_for(&SystemIssue::RamHealth), Some(RepairRoutine::RamAnalysis));
}
