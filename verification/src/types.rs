//! The catalogue of system issues and advanced repair commands.

use vstd::prelude::*;

verus! {

/// System issues that can be diagnosed and repaired.
///
/// Each variant represents a category of system problems that the toolkit
/// can address. The `AdvancedCommands` variant leads to a submenu of
/// platform-specific repair utilities.
#[derive(Debug, Clone, Copy, PartialEq, Eq, Structural, Hash)]
pub enum SystemIssue {
    /// Bluetooth connectivity problems
    Bluetooth,
    /// WiFi connection issues
    WiFi,
    /// Audio output/input failures
    Audio,
    /// USB device recognition problems
    USB,
    /// Low disk space conditions
    DiskSpace,
    /// High CPU utilization
    HighCPU,
    /// High memory usage
    HighMemory,
    /// DNS resolution failures
    DNS,
    /// Firewall configuration issues
    Firewall,
    /// Pending system updates
    SystemUpdates,
    /// Accumulated temporary files
    TempFiles,
    /// Excessive startup programs
    StartupPrograms,
    /// Access to advanced system commands
    AdvancedCommands,
    /// RAM quality and health
    RamHealth,
}

/// The user-facing name of an issue.
pub open spec fn issue_name(issue: SystemIssue) -> Seq<char> {
    match issue {
        SystemIssue::Bluetooth => "Bluetooth Issues"@,
        SystemIssue::WiFi => "WiFi Connection Problems"@,
        SystemIssue::Audio => "Audio Repair"@,
        SystemIssue::USB => "USB Repair"@,
        SystemIssue::DiskSpace => "Disk Cleanup"@,
        SystemIssue::HighCPU => "High CPU Analysis"@,
        SystemIssue::HighMemory => "High Memory Analysis"@,
        SystemIssue::DNS => "DNS Repair"@,
        SystemIssue::Firewall => "Firewall Check"@,
        SystemIssue::SystemUpdates => "System Updates"@,
        SystemIssue::TempFiles => "Clear Temporary Files"@,
        SystemIssue::StartupPrograms => "Analyze Startup Programs"@,
        SystemIssue::AdvancedCommands => "Advanced Commands"@,
        SystemIssue::RamHealth => "RAM Health Check"@,
    }
}

/// The icon shown beside an issue in the menu.
pub open spec fn issue_icon(x: SystemIssue) -> Seq<char> {
    match x {
        SystemIssue::Bluetooth => "📡"@,
        SystemIssue::WiFi => "📶"@,
        SystemIssue::Audio => "🔊"@,
        SystemIssue::USB => "🔌"@,
        SystemIssue::DiskSpace => "💽"@,
        SystemIssue::HighCPU => "⚡"@,
        SystemIssue::HighMemory => "🧠"@,
        SystemIssue::DNS => "🔗"@,
        SystemIssue::Firewall => "🛡️"@,
        SystemIssue::SystemUpdates => "📦"@,
        SystemIssue::TempFiles => "🗑️"@,
        SystemIssue::StartupPrograms => "🚀"@,
        SystemIssue::AdvancedCommands => "💻"@,
        SystemIssue::RamHealth => "🧠"@,
    }
}

/// The one-line description of an issue.
pub open spec fn issue_description(x: SystemIssue) -> Seq<char> {
    match x {
        SystemIssue::Bluetooth => "Repair Bluetooth connectivity issues"@,
        SystemIssue::WiFi => "Repair WiFi connectivity issues"@,
        SystemIssue::Audio => "Repair audio device issues"@,
        SystemIssue::USB => "Repair USB device issues"@,
        SystemIssue::DiskSpace => "Clean up disk space"@,
        SystemIssue::HighCPU => "Analyze high CPU usage"@,
        SystemIssue::HighMemory => "Analyze high memory usage"@,
        SystemIssue::DNS => "Repair DNS configuration"@,
        SystemIssue::Firewall => "Check firewall settings"@,
        SystemIssue::SystemUpdates => "Check for system updates"@,
        SystemIssue::TempFiles => "Clear temporary files"@,
        SystemIssue::StartupPrograms => "Analyze and optimize startup programs"@,
        SystemIssue::AdvancedCommands => "Run advanced diagnostic commands"@,
        SystemIssue::RamHealth => "Monitor and analyze system RAM quality and health"@,
    }
}

/// The issues offered in the main menu, in menu order.
pub open spec fn menu_issues() -> Seq<SystemIssue> {
    seq![
        SystemIssue::Bluetooth,
        SystemIssue::WiFi,
        SystemIssue::Audio,
        SystemIssue::USB,
        SystemIssue::DiskSpace,
        SystemIssue::HighCPU,
        SystemIssue::HighMemory,
        SystemIssue::DNS,
        SystemIssue::Firewall,
        SystemIssue::SystemUpdates,
        SystemIssue::TempFiles,
        SystemIssue::StartupPrograms,
        SystemIssue::AdvancedCommands,
    ]
}

impl SystemIssue {
    /// Returns the user-facing name for this issue type.
    ///
    /// This name appears in the main menu and progress messages.
    pub fn name(&self) -> (r: &str)
        ensures
            r@ == issue_name(*self),
    {
        match self {
            SystemIssue::Bluetooth => "Bluetooth Issues",
            SystemIssue::WiFi => "WiFi Connection Problems",
            SystemIssue::Audio => "Audio Repair",
            SystemIssue::USB => "USB Repair",
            SystemIssue::DiskSpace => "Disk Cleanup",
            SystemIssue::HighCPU => "High CPU Analysis",
            SystemIssue::HighMemory => "High Memory Analysis",
            SystemIssue::DNS => "DNS Repair",
            SystemIssue::Firewall => "Firewall Check",
            SystemIssue::SystemUpdates => "System Updates",
            SystemIssue::TempFiles => "Clear Temporary Files",
            SystemIssue::StartupPrograms => "Analyze Startup Programs",
            SystemIssue::AdvancedCommands => "Advanced Commands",
            SystemIssue::RamHealth => "RAM Health Check",
        }
    }

    /// Gets the icon for the system issue.
    pub fn icon(&self) -> (r: &str)
        ensures
            r@ == issue_icon(*self),
    {
        match self {
            SystemIssue::Bluetooth => "📡",
            SystemIssue::WiFi => "📶",
            SystemIssue::Audio => "🔊",
            SystemIssue::USB => "🔌",
            SystemIssue::DiskSpace => "💽",
            SystemIssue::HighCPU => "⚡",
            SystemIssue::HighMemory => "🧠",
            SystemIssue::DNS => "🔗",
            SystemIssue::Firewall => "🛡️",
            SystemIssue::SystemUpdates => "📦",
            SystemIssue::TempFiles => "🗑️",
            SystemIssue::StartupPrograms => "🚀",
            SystemIssue::AdvancedCommands => "💻",
            SystemIssue::RamHealth => "🧠",
        }
    }

    /// Gets the description for the system issue.
    pub fn description(&self) -> (r: &str)
        ensures
            r@ == issue_description(*self),
    {
        match self {
            SystemIssue::Bluetooth => "Repair Bluetooth connectivity issues",
            SystemIssue::WiFi => "Repair WiFi connectivity issues",
            SystemIssue::Audio => "Repair audio device issues",
            SystemIssue::USB => "Repair USB device issues",
            SystemIssue::DiskSpace => "Clean up disk space",
            SystemIssue::HighCPU => "Analyze high CPU usage",
            SystemIssue::HighMemory => "Analyze high memory usage",
            SystemIssue::DNS => "Repair DNS configuration",
            SystemIssue::Firewall => "Check firewall settings",
            SystemIssue::SystemUpdates => "Check for system updates",
            SystemIssue::TempFiles => "Clear temporary files",
            SystemIssue::StartupPrograms => "Analyze and optimize startup programs",
            SystemIssue::AdvancedCommands => "Run advanced diagnostic commands",
            SystemIssue::RamHealth => "Monitor and analyze system RAM quality and health",
        }
    }

    /// Returns the issues of the main menu in menu order.
    ///
    /// The menu offers thirteen entries; the RAM health check is reached
    /// through the repair coordinator and is not one of them.
    pub fn all() -> (r: Vec<SystemIssue>)
        ensures
            r@ == menu_issues(),
    {
        let r = vec![
            SystemIssue::Bluetooth,
            SystemIssue::WiFi,
            SystemIssue::Audio,
            SystemIssue::USB,
            SystemIssue::DiskSpace,
            SystemIssue::HighCPU,
            SystemIssue::HighMemory,
            SystemIssue::DNS,
            SystemIssue::Firewall,
            SystemIssue::SystemUpdates,
            SystemIssue::TempFiles,
            SystemIssue::StartupPrograms,
            SystemIssue::AdvancedCommands,
        ];
        assert(r@ =~= menu_issues());
        r
    }
}

/// Advanced system repair commands.
///
/// These commands provide direct access to OS-level repair utilities.
/// Each command is platform-specific and may require elevated privileges.
#[derive(Debug, Clone, Copy, PartialEq, Eq, Structural)]
pub enum AdvancedCommand {
    // Windows-specific commands
    /// System File Checker - repairs corrupted system files
    SfcScannow,
    /// DISM image repair - fixes Windows component store
    DismRestoreHealth,
    /// Disk check utility - scans for errors and bad sectors
    ChkdskRepair,
    /// Master Boot Record repair
    BootrecFixMbr,
    /// Boot sector repair
    BootrecFixBoot,
    /// Restart cryptographic services
    CryptoServiceRestart,
    /// Automatic startup repair
    StartupRepair,
    /// Registry editor access
    RegistryEditor,

    // Linux/Unix-specific commands
    /// File system check utility
    FsckCheck,
    /// Ext2/3/4 file system repair
    E2fsckRepair,
    /// XFS file system repair
    XfsRepair,
    /// File permission correction
    ChmodFix,
    /// File ownership correction
    ChownFix,
    /// Service restart utility
    SystemctlRestart,
    /// File system mount utility
    MountCheck,
}

/// The user-facing name of an advanced command.
pub open spec fn command_name(x: AdvancedCommand) -> Seq<char> {
    match x {
        AdvancedCommand::SfcScannow => "SFC Scan (System File Checker)"@,
        AdvancedCommand::DismRestoreHealth => "DISM Repair Windows Image"@,
        AdvancedCommand::ChkdskRepair => "Check Disk for Errors"@,
        AdvancedCommand::BootrecFixMbr => "Fix Master Boot Record"@,
        AdvancedCommand::BootrecFixBoot => "Fix Boot Sector"@,
        AdvancedCommand::CryptoServiceRestart => "Restart Cryptographic Services"@,
        AdvancedCommand::StartupRepair => "Startup Repair"@,
        AdvancedCommand::RegistryEditor => "Open Registry Editor"@,
        AdvancedCommand::FsckCheck => "File System Check (fsck)"@,
        AdvancedCommand::E2fsckRepair => "Ext2/3/4 File System Repair"@,
        AdvancedCommand::XfsRepair => "XFS File System Repair"@,
        AdvancedCommand::ChmodFix => "Fix File Permissions"@,
        AdvancedCommand::ChownFix => "Fix File Ownership"@,
        AdvancedCommand::SystemctlRestart => "Restart System Service"@,
        AdvancedCommand::MountCheck => "Mount/Unmount File System"@,
    }
}

/// What an advanced command does, in one line.
pub open spec fn command_description(x: AdvancedCommand) -> Seq<char> {
    match x {
        AdvancedCommand::SfcScannow => "Scans and replaces corrupted system files using Windows component store"@,
        AdvancedCommand::DismRestoreHealth => "Repairs Windows image by downloading healthy files from Microsoft"@,
        AdvancedCommand::ChkdskRepair => "Fixes disk errors, bad sectors, and file system inconsistencies"@,
        AdvancedCommand::BootrecFixMbr => "Rewrites Master Boot Record to fix boot issues"@,
        AdvancedCommand::BootrecFixBoot => "Repairs boot sector on system partition"@,
        AdvancedCommand::CryptoServiceRestart => "Fixes update and installation hangs by restarting services"@,
        AdvancedCommand::StartupRepair => "Automatic boot repair for startup problems"@,
        AdvancedCommand::RegistryEditor => "Manual registry fixes (advanced users only - use with caution)"@,
        AdvancedCommand::FsckCheck => "Checks and repairs file system on unmounted partitions"@,
        AdvancedCommand::E2fsckRepair => "Repairs ext2/ext3/ext4 file systems after journal replay"@,
        AdvancedCommand::XfsRepair => "Repairs XFS file system metadata and inconsistencies"@,
        AdvancedCommand::ChmodFix => "Changes file permissions to resolve access errors"@,
        AdvancedCommand::ChownFix => "Changes file ownership to fix permission issues"@,
        AdvancedCommand::SystemctlRestart => "Restarts failed or hung system services"@,
        AdvancedCommand::MountCheck => "Mounts file system to check accessibility"@,
    }
}

/// Whether a command runs on Windows (the others run on Linux and macOS).
pub open spec fn is_windows_command(c: AdvancedCommand) -> bool {
    match c {
        AdvancedCommand::SfcScannow => true,
        AdvancedCommand::DismRestoreHealth => true,
        AdvancedCommand::ChkdskRepair => true,
        AdvancedCommand::BootrecFixMbr => true,
        AdvancedCommand::BootrecFixBoot => true,
        AdvancedCommand::CryptoServiceRestart => true,
        AdvancedCommand::StartupRepair => true,
        AdvancedCommand::RegistryEditor => true,
        _ => false,
    }
}

/// The names of the operating systems that support a command.
pub open spec fn command_os(c: AdvancedCommand) -> Seq<Seq<char>> {
    if is_windows_command(c) {
        seq!["windows"@]
    } else {
        seq!["linux"@, "macos"@]
    }
}

/// Whether the operating system named `os` supports command `c`.
pub open spec fn supports(c: AdvancedCommand, os: Seq<char>) -> bool {
    command_os(c).contains(os)
}

/// Every advanced command, in catalogue order.
pub open spec fn all_commands() -> Seq<AdvancedCommand> {
    seq![
        AdvancedCommand::SfcScannow,
        AdvancedCommand::DismRestoreHealth,
        AdvancedCommand::ChkdskRepair,
        AdvancedCommand::BootrecFixMbr,
        AdvancedCommand::BootrecFixBoot,
        AdvancedCommand::CryptoServiceRestart,
        AdvancedCommand::StartupRepair,
        AdvancedCommand::RegistryEditor,
        AdvancedCommand::FsckCheck,
        AdvancedCommand::E2fsckRepair,
        AdvancedCommand::XfsRepair,
        AdvancedCommand::ChmodFix,
        AdvancedCommand::ChownFix,
        AdvancedCommand::SystemctlRestart,
        AdvancedCommand::MountCheck,
    ]
}

/// The commands of `cmds` that the operating system named `os` supports, in order.
pub open spec fn commands_for(cmds: Seq<AdvancedCommand>, os: Seq<char>) -> Seq<AdvancedCommand>
    decreases cmds.len(),
{
    if cmds.len() == 0 {
        Seq::empty()
    } else if supports(cmds.last(), os) {
        commands_for(cmds.drop_last(), os).push(cmds.last())
    } else {
        commands_for(cmds.drop_last(), os)
    }
}

impl AdvancedCommand {
    /// Returns the user-facing name for this command.
    pub fn name(&self) -> (r: &str)
        ensures
            r@ == command_name(*self),
    {
        match self {
            AdvancedCommand::SfcScannow => "SFC Scan (System File Checker)",
            AdvancedCommand::DismRestoreHealth => "DISM Repair Windows Image",
            AdvancedCommand::ChkdskRepair => "Check Disk for Errors",
            AdvancedCommand::BootrecFixMbr => "Fix Master Boot Record",
            AdvancedCommand::BootrecFixBoot => "Fix Boot Sector",
            AdvancedCommand::CryptoServiceRestart => "Restart Cryptographic Services",
            AdvancedCommand::StartupRepair => "Startup Repair",
            AdvancedCommand::RegistryEditor => "Open Registry Editor",
            AdvancedCommand::FsckCheck => "File System Check (fsck)",
            AdvancedCommand::E2fsckRepair => "Ext2/3/4 File System Repair",
            AdvancedCommand::XfsRepair => "XFS File System Repair",
            AdvancedCommand::ChmodFix => "Fix File Permissions",
            AdvancedCommand::ChownFix => "Fix File Ownership",
            AdvancedCommand::SystemctlRestart => "Restart System Service",
            AdvancedCommand::MountCheck => "Mount/Unmount File System",
        }
    }

    /// Returns a description of what this command does.
    pub fn description(&self) -> (r: &str)
        ensures
            r@ == command_description(*self),
    {
        match self {
            AdvancedCommand::SfcScannow => "Scans and replaces corrupted system files using Windows component store",
            AdvancedCommand::DismRestoreHealth => "Repairs Windows image by downloading healthy files from Microsoft",
            AdvancedCommand::ChkdskRepair => "Fixes disk errors, bad sectors, and file system inconsistencies",
            AdvancedCommand::BootrecFixMbr => "Rewrites Master Boot Record to fix boot issues",
            AdvancedCommand::BootrecFixBoot => "Repairs boot sector on system partition",
            AdvancedCommand::CryptoServiceRestart => "Fixes update and installation hangs by restarting services",
            AdvancedCommand::StartupRepair => "Automatic boot repair for startup problems",
            AdvancedCommand::RegistryEditor => "Manual registry fixes (advanced users only - use with caution)",
            AdvancedCommand::FsckCheck => "Checks and repairs file system on unmounted partitions",
            AdvancedCommand::E2fsckRepair => "Repairs ext2/ext3/ext4 file systems after journal replay",
            AdvancedCommand::XfsRepair => "Repairs XFS file system metadata and inconsistencies",
            AdvancedCommand::ChmodFix => "Changes file permissions to resolve access errors",
            AdvancedCommand::ChownFix => "Changes file ownership to fix permission issues",
            AdvancedCommand::SystemctlRestart => "Restarts failed or hung system services",
            AdvancedCommand::MountCheck => "Mounts file system to check accessibility",
        }
    }


    /// Returns the operating systems that support this command.
    pub fn supported_os(&self) -> (r: Vec<&'static str>)
        ensures
            r@.len() == command_os(*self).len(),
            forall|i: int| 0 <= i < r@.len() ==> (#[trigger] r@[i])@ == command_os(*self)[i],
    {
        match self {
            AdvancedCommand::SfcScannow
            | AdvancedCommand::DismRestoreHealth
            | AdvancedCommand::ChkdskRepair
            | AdvancedCommand::BootrecFixMbr
            | AdvancedCommand::BootrecFixBoot
            | AdvancedCommand::CryptoServiceRestart
            | AdvancedCommand::StartupRepair
            | AdvancedCommand::RegistryEditor => vec!["windows"],
            AdvancedCommand::FsckCheck
            | AdvancedCommand::E2fsckRepair
            | AdvancedCommand::XfsRepair
            | AdvancedCommand::ChmodFix
            | AdvancedCommand::ChownFix
            | AdvancedCommand::SystemctlRestart
            | AdvancedCommand::MountCheck => vec!["linux", "macos"],
        }
    }

    /// Whether the operating system named `os` supports this command.
    pub fn runs_on(&self, os: &str) -> (r: bool)
        ensures
            r == supports(*self, os@),
    {
        let names = self.supported_os();
        let mut i: usize = 0;
        while i < names.len()
            invariant
                names@.len() == command_os(*self).len(),
                forall|k: int| 0 <= k < names@.len() ==> (#[trigger] names@[k])@ == command_os(*self)[k],
                i <= names@.len(),
                forall|k: int| 0 <= k < i ==> command_os(*self)[k] != os@,
            decreases names@.len() - i,
        {
            if crate::text::str_eq(names[i], os) {
                assert(command_os(*self)[i as int] == os@);
                return true;
            }
            i = i + 1;
        }
        false
    }

    /// Returns every advanced command, in catalogue order.
    pub fn all() -> (r: Vec<AdvancedCommand>)
        ensures
            r@ == all_commands(),
    {
        let r = vec![
            AdvancedCommand::SfcScannow,
            AdvancedCommand::DismRestoreHealth,
            AdvancedCommand::ChkdskRepair,
            AdvancedCommand::BootrecFixMbr,
            AdvancedCommand::BootrecFixBoot,
            AdvancedCommand::CryptoServiceRestart,
            AdvancedCommand::StartupRepair,
            AdvancedCommand::RegistryEditor,
            AdvancedCommand::FsckCheck,
            AdvancedCommand::E2fsckRepair,
            AdvancedCommand::XfsRepair,
            AdvancedCommand::ChmodFix,
            AdvancedCommand::ChownFix,
            AdvancedCommand::SystemctlRestart,
            AdvancedCommand::MountCheck,
        ];
        assert(r@ =~= all_commands());
        r
    }

    /// Returns the commands that the operating system named `os` supports, in
    /// catalogue order.
    pub fn for_platform(os: &str) -> (r: Vec<AdvancedCommand>)
        ensures
            r@ == commands_for(all_commands(), os@),
    {
        let cmds = Self::all();
        let mut out: Vec<AdvancedCommand> = Vec::new();
        let mut i: usize = 0;
        assert(cmds@.take(0) =~= Seq::<AdvancedCommand>::empty());
        while i < cmds.len()
            invariant
                cmds@ == all_commands(),
                i <= cmds@.len(),
                out@ == commands_for(cmds@.take(i as int), os@),
            decreases cmds@.len() - i,
        {
            let c = cmds[i];
            assert(cmds@.take(i + 1).drop_last() =~= cmds@.take(i as int));
            assert(cmds@.take(i + 1).last() == c);
            if c.runs_on(os) {
                out.push(c);
            }
            i = i + 1;
        }
        assert(cmds@.take(cmds@.len() as int) =~= cmds@);
        out
    }

    /// Returns all commands supported on the current platform.
    ///
    /// The platform is told apart by its path separator: a backslash means
    /// Windows; any other separator means a Unix-like system, where Linux and
    /// macOS support the same commands.
    pub fn for_current_platform() -> (r: Vec<AdvancedCommand>)
        ensures
            r@ == commands_for(all_commands(), "windows"@)
                || r@ == commands_for(all_commands(), "linux"@),
    {
        let os = os_family_for_separator(host_path_separator());
        Self::for_platform(os)
    }
}

/// The name of the operating-system family whose paths are separated by `sep`.
pub open spec fn os_family(sep: char) -> Seq<char> {
    if sep == '\\' {
        "windows"@
    } else {
        "linux"@
    }
}

/// Names the operating-system family whose path separator is `sep`: a
/// backslash is Windows, anything else the Unix family.
pub fn os_family_for_separator(sep: char) -> (r: &'static str)
    ensures
        r@ == os_family(sep),
{
    if sep == '\\' {
        "windows"
    } else {
        "linux"
    }
}

/// The host's path separator, `std::path::MAIN_SEPARATOR`.
///
/// Nothing is stated of the value: it is fixed by the platform the program
/// was built for (a backslash on Windows, a slash on Unix-like systems).
#[verifier::external_body]
fn host_path_separator() -> char {
    std::path::MAIN_SEPARATOR
}

/// A command is among those listed for `os` exactly when it is in the list it
/// was drawn from and `os` supports it.
pub proof fn lemma_commands_for_membership(cmds: Seq<AdvancedCommand>, os: Seq<char>, c: AdvancedCommand)
    ensures
        commands_for(cmds, os).contains(c) <==> (cmds.contains(c) && supports(c, os)),
    decreases cmds.len(),
{
    if cmds.len() > 0 {
        let rest = cmds.drop_last();
        lemma_commands_for_membership(rest, os, c);
        assert(cmds =~= rest.push(cmds.last()));
        if cmds.contains(c) && c != cmds.last() {
            let k = choose|k: int| 0 <= k < cmds.len() && cmds[k] == c;
            assert(rest[k] == c);
        }
        if rest.contains(c) {
            let k = choose|k: int| 0 <= k < rest.len() && rest[k] == c;
            assert(cmds[k] == c);
        }
        if supports(cmds.last(), os) {
            let r = commands_for(rest, os);
            if r.contains(c) {
                let k = choose|k: int| 0 <= k < r.len() && r[k] == c;
                assert(r.push(cmds.last())[k] == c);
            }
            if c == cmds.last() {
                assert(r.push(cmds.last())[r.len() as int] == c);
            }
            if r.push(cmds.last()).contains(c) && c != cmds.last() {
                let k = choose|k: int| 0 <= k < r.len() + 1 && r.push(cmds.last())[k] == c;
                assert(r[k] == c);
            }
        }
    }
}

/// Every issue has a name, an icon and a description to show: none is empty.
pub proof fn lemma_issue_texts_nonempty(issue: SystemIssue)
    ensures
        issue_name(issue).len() > 0,
        issue_icon(issue).len() > 0,
        issue_description(issue).len() > 0,
{
    match issue {
        SystemIssue::Bluetooth => {
            reveal_strlit("Bluetooth Issues");
            reveal_strlit("📡");
            reveal_strlit("Repair Bluetooth connectivity issues");
        },
        SystemIssue::WiFi => {
            reveal_strlit("WiFi Connection Problems");
            reveal_strlit("📶");
            reveal_strlit("Repair WiFi connectivity issues");
        },
        SystemIssue::Audio => {
            reveal_strlit("Audio Repair");
            reveal_strlit("🔊");
            reveal_strlit("Repair audio device issues");
        },
        SystemIssue::USB => {
            reveal_strlit("USB Repair");
            reveal_strlit("🔌");
            reveal_strlit("Repair USB device issues");
        },
        SystemIssue::DiskSpace => {
            reveal_strlit("Disk Cleanup");
            reveal_strlit("💽");
            reveal_strlit("Clean up disk space");
        },
        SystemIssue::HighCPU => {
            reveal_strlit("High CPU Analysis");
            reveal_strlit("⚡");
            reveal_strlit("Analyze high CPU usage");
        },
        SystemIssue::HighMemory => {
            reveal_strlit("High Memory Analysis");
            reveal_strlit("🧠");
            reveal_strlit("Analyze high memory usage");
        },
        SystemIssue::DNS => {
            reveal_strlit("DNS Repair");
            reveal_strlit("🔗");
            reveal_strlit("Repair DNS configuration");
        },
        SystemIssue::Firewall => {
            reveal_strlit("Firewall Check");
            reveal_strlit("🛡️");
            reveal_strlit("Check firewall settings");
        },
        SystemIssue::SystemUpdates => {
            reveal_strlit("System Updates");
            reveal_strlit("📦");
            reveal_strlit("Check for system updates");
        },
        SystemIssue::TempFiles => {
            reveal_strlit("Clear Temporary Files");
            reveal_strlit("🗑️");
            reveal_strlit("Clear temporary files");
        },
        SystemIssue::StartupPrograms => {
            reveal_strlit("Analyze Startup Programs");
            reveal_strlit("🚀");
            reveal_strlit("Analyze and optimize startup programs");
        },
        SystemIssue::AdvancedCommands => {
            reveal_strlit("Advanced Commands");
            reveal_strlit("💻");
            reveal_strlit("Run advanced diagnostic commands");
        },
        SystemIssue::RamHealth => {
            reveal_strlit("RAM Health Check");
            reveal_strlit("🧠");
            reveal_strlit("Monitor and analyze system RAM quality and health");
        },
    }
}

/// The menu offers each issue at most once, and every issue but the RAM
/// health check.
pub proof fn lemma_menu_entries(issue: SystemIssue)
    ensures
        forall|i: int, j: int| 0 <= i < j < menu_issues().len() ==> menu_issues()[i] != menu_issues()[j],
        menu_issues().contains(issue) <==> issue != SystemIssue::RamHealth,
{
    let m = menu_issues();
    if issue != SystemIssue::RamHealth {
        let k: int = match issue {
            SystemIssue::Bluetooth => 0,
            SystemIssue::WiFi => 1,
            SystemIssue::Audio => 2,
            SystemIssue::USB => 3,
            SystemIssue::DiskSpace => 4,
            SystemIssue::HighCPU => 5,
            SystemIssue::HighMemory => 6,
            SystemIssue::DNS => 7,
            SystemIssue::Firewall => 8,
            SystemIssue::SystemUpdates => 9,
            SystemIssue::TempFiles => 10,
            SystemIssue::StartupPrograms => 11,
            SystemIssue::AdvancedCommands => 12,
            SystemIssue::RamHealth => 0,
        };
        assert(m[k] == issue);
    }
}

/// Every command listed for an operating system runs on it, and every command
/// that runs on it is listed.
pub proof fn lemma_platform_listing_exact(os: Seq<char>, c: AdvancedCommand)
    ensures
        commands_for(all_commands(), os).contains(c) <==> supports(c, os),
{
    lemma_commands_for_membership(all_commands(), os, c);
    lemma_catalogue_complete(c);
}

/// The catalogue holds every advanced command.
pub proof fn lemma_catalogue_complete(c: AdvancedCommand)
    ensures
        all_commands().contains(c),
{
    let all = all_commands();
    match c {
        AdvancedCommand::SfcScannow => assert(all[0] == c),
        AdvancedCommand::DismRestoreHealth => assert(all[1] == c),
        AdvancedCommand::ChkdskRepair => assert(all[2] == c),
        AdvancedCommand::BootrecFixMbr => assert(all[3] == c),
        AdvancedCommand::BootrecFixBoot => assert(all[4] == c),
        AdvancedCommand::CryptoServiceRestart => assert(all[5] == c),
        AdvancedCommand::StartupRepair => assert(all[6] == c),
        AdvancedCommand::RegistryEditor => assert(all[7] == c),
        AdvancedCommand::FsckCheck => assert(all[8] == c),
        AdvancedCommand::E2fsckRepair => assert(all[9] == c),
        AdvancedCommand::XfsRepair => assert(all[10] == c),
        AdvancedCommand::ChmodFix => assert(all[11] == c),
        AdvancedCommand::ChownFix => assert(all[12] == c),
        AdvancedCommand::SystemctlRestart => assert(all[13] == c),
        AdvancedCommand::MountCheck => assert(all[14] == c),
    }
}

/// Each command belongs to exactly one family: it runs on Windows, or on both
/// Linux and macOS, never on both sides.
pub proof fn lemma_one_family(c: AdvancedCommand)
    ensures
        supports(c, "windows"@) <==> !supports(c, "linux"@),
        supports(c, "linux"@) <==> supports(c, "macos"@),
{
    reveal_strlit("windows");
    reveal_strlit("linux");
    reveal_strlit("macos");
    if is_windows_command(c) {
        assert(command_os(c)[0] == "windows"@);
        assert("windows"@ != "linux"@);
        assert("windows"@.len() != "macos"@.len());
    } else {
        assert(command_os(c)[0] == "linux"@);
        assert(command_os(c)[1] == "macos"@);
        assert("linux"@ != "windows"@);
        assert("macos"@.len() != "windows"@.len());
    }
}

/// Windows and the Unix family each have commands to offer.
pub proof fn lemma_platform_lists_nonempty()
    ensures
        commands_for(all_commands(), "windows"@).len() > 0,
        commands_for(all_commands(), "linux"@).len() > 0,
        commands_for(all_commands(), "macos"@).len() > 0,
{
    assert(command_os(AdvancedCommand::SfcScannow)[0] == "windows"@);
    assert(command_os(AdvancedCommand::FsckCheck)[0] == "linux"@);
    assert(command_os(AdvancedCommand::FsckCheck)[1] == "macos"@);
    lemma_platform_listing_exact("windows"@, AdvancedCommand::SfcScannow);
    lemma_platform_listing_exact("linux"@, AdvancedCommand::FsckCheck);
    lemma_platform_listing_exact("macos"@, AdvancedCommand::FsckCheck);
}

/// Linux and macOS are offered the same commands.
pub proof fn lemma_unix_family_same_commands()
    ensures
        commands_for(all_commands(), "linux"@) == commands_for(all_commands(), "macos"@),
{
    assert forall|c: AdvancedCommand| supports(c, "linux"@) == supports(c, "macos"@) by {
        lemma_one_family(c);
    }
    lemma_same_support_same_listing(all_commands(), "linux"@, "macos"@);
}

/// Two systems that support the same commands are offered the same list.
proof fn lemma_same_support_same_listing(cmds: Seq<AdvancedCommand>, a: Seq<char>, b: Seq<char>)
    requires
        forall|c: AdvancedCommand| supports(c, a) == supports(c, b),
    ensures
        commands_for(cmds, a) == commands_for(cmds, b),
    decreases cmds.len(),
{
    if cmds.len() > 0 {
        lemma_same_support_same_listing(cmds.drop_last(), a, b);
    }
}

/// The Windows commands are the eight Windows utilities (SFC, DISM, chkdsk,
/// the two bootrec repairs, the cryptographic-services restart, startup
/// repair, the registry editor); every other command is a Linux and macOS
/// utility. Each command names the systems it runs on.
pub proof fn lemma_command_families(c: AdvancedCommand)
    ensures
        supports(c, "windows"@) <==> (c == AdvancedCommand::SfcScannow
            || c == AdvancedCommand::DismRestoreHealth || c == AdvancedCommand::ChkdskRepair
            || c == AdvancedCommand::BootrecFixMbr || c == AdvancedCommand::BootrecFixBoot
            || c == AdvancedCommand::CryptoServiceRestart || c == AdvancedCommand::StartupRepair
            || c == AdvancedCommand::RegistryEditor),
        supports(c, "linux"@) <==> !supports(c, "windows"@),
        supports(c, "macos"@) <==> supports(c, "linux"@),
        forall|os: Seq<char>| supports(c, os) ==> (os == "windows"@ || os == "linux"@ || os == "macos"@),
{
    lemma_one_family(c);
    reveal_strlit("windows");
    reveal_strlit("linux");
    reveal_strlit("macos");
    if is_windows_command(c) {
        assert(command_os(c)[0] == "windows"@);
    } else {
        assert(command_os(c)[0] == "linux"@);
        assert("windows"@ != "linux"@);
        assert("windows"@.len() != "macos"@.len());
    }
}

/// A backslash separator, and only a backslash, names Windows; the names
/// given are the ones that the command catalogue uses.
pub proof fn lemma_os_family(sep: char)
    ensures
        os_family(sep) == "windows"@ <==> sep == '\\',
        os_family(sep) == "windows"@ || os_family(sep) == "linux"@,
{
    reveal_strlit("windows");
    reveal_strlit("linux");
    assert("windows"@.len() != "linux"@.len());
}

} // verus!
