use system_repair_toolkit::types::{AdvancedCommand, SystemIssue};

fn current_os() -> &'static str {
    if std::path::MAIN_SEPARATOR == '\\' {
        "windows"
    } else {
        "linux"
    }
}

#[test]
fn test_system_issue_names() {
    assert_eq!(SystemIssue::Bluetooth.name(), "Bluetooth Issues");
    assert_eq!(SystemIssue::WiFi.name(), "WiFi Connection Problems");
    assert!(!SystemIssue::Audio.name().is_empty());
}

#[test]
fn test_system_issue_icons() {
    assert_eq!(SystemIssue::Bluetooth.icon(), "📡");
    assert_eq!(SystemIssue::WiFi.icon(), "📶");
    assert!(!SystemIssue::Audio.icon().is_empty());
}

#[test]
fn test_all_system_issues() {
    let issues = SystemIssue::all();
    assert_eq!(issues.len(), 13);
    assert!(issues.contains(&SystemIssue::Bluetooth));
    assert!(issues.contains(&SystemIssue::AdvancedCommands));
}

#[test]
fn test_advanced_command_os_support() {
    let sfc = AdvancedCommand::SfcScannow;
    assert!(sfc.supported_os().contains(&"windows"));
    assert!(!sfc.supported_os().contains(&"linux"));

    let fsck = AdvancedCommand::FsckCheck;
    assert!(fsck.supported_os().contains(&"linux"));
    assert!(!fsck.supported_os().contains(&"windows"));
}

#[test]
fn test_platform_filtering() {
    let commands = AdvancedCommand::for_current_platform();
    assert!(!commands.is_empty());

    // All returned commands should support current platform
    let current_os = current_os();

    for cmd in commands {
        assert!(cmd.supported_os().contains(&current_os));
    }
}

#[test]
fn menu_leaves_out_ram_health_but_keeps_order() {
    let issues = SystemIssue::all();
    assert_eq!(issues[0], SystemIssue::Bluetooth);
    assert_eq!(issues[12], SystemIssue::AdvancedCommands);
    assert!(!issues.contains(&SystemIssue::RamHealth));
    for (i, a) in issues.iter().enumerate() {
        for b in issues.iter().skip(i + 1) {
            assert_ne!(a, b);
        }
    }
}

#[test]
fn issue_texts() {
    assert_eq!(SystemIssue::RamHealth.name(), "RAM Health Check");
    assert_eq!(SystemIssue::Firewall.icon(), "🛡️");
    assert_eq!(SystemIssue::DNS.description(), "Repair DNS configuration");
    assert_eq!(
        SystemIssue::RamHealth.description(),
        "Monitor and analyze system RAM quality and health"
    );
}

#[test]
fn command_texts() {
    assert_eq!(AdvancedCommand::SfcScannow.name(), "SFC Scan (System File Checker)");
    assert_eq!(AdvancedCommand::MountCheck.name(), "Mount/Unmount File System");
    assert_eq!(
        AdvancedCommand::XfsRepair.description(),
        "Repairs XFS file system metadata and inconsistencies"
    );
}

#[test]
fn platform_lists() {
    let windows = AdvancedCommand::for_platform("windows");
    assert_eq!(windows.len(), 8);
    assert_eq!(windows[0], AdvancedCommand::SfcScannow);
    assert_eq!(windows[7], AdvancedCommand::RegistryEditor);
    let linux = AdvancedCommand::for_platform("linux");
    assert_eq!(linux.len(), 7);
    assert_eq!(linux[0], AdvancedCommand::FsckCheck);
    assert_eq!(AdvancedCommand::for_platform("macos"), linux);
    assert!(AdvancedCommand::for_platform("plan9").is_empty());
    assert!(AdvancedCommand::for_platform("Windows").is_empty());
    assert_eq!(AdvancedCommand::all().len(), 15);
}

#[test]
fn runs_on_and_families() {
    assert!(AdvancedCommand::ChownFix.runs_on("macos"));
    assert!(!AdvancedCommand::ChownFix.runs_on("windows"));
    assert!(AdvancedCommand::RegistryEditor.runs_on("windows"));
    assert_eq!(system_repair_toolkit::types::os_family_for_separator('\\'), "windows");
    assert_eq!(system_repair_toolkit::types::os_family_for_separator('/'), "linux");
}
