//! The typed failures of an installation run.
use vstd::prelude::*;

verus! {

/// Why an operation was refused or failed.
#[derive(Debug, PartialEq, Eq)]
pub enum InstallError {
    /// A required external program was not found.
    ToolMissing { program: String },
    /// The device, or one of its partitions, is in use.
    DeviceBusy { device: String },
    /// A partition, format or mount operation failed.
    DeviceError { command: String, status: i32, output: String },
    /// Another external command failed; `output` is what it printed.
    CommandFailed { command: String, status: i32, output: String },
    /// The credentials did not unlock the encrypted partition.
    AuthenticationFailed { partition: String },
    /// The partition already carries an encryption header and no force was asked for.
    AlreadyEncrypted { partition: String },
    /// The command at `index` of a list run inside the target root failed.
    ChrootCommandFailed { index: usize, command: String, status: i32 },
    /// Installing the boot manager or writing its entries failed.
    BootloaderError { command: String, status: i32, output: String },
    /// The partition layout breaks the layout rules.
    InvalidLayout,
    /// Nothing is mounted at a path that has to be a mount point.
    NotMounted { path: String },
    /// The configuration asks for a desktop that is not supported.
    UnsupportedDesktop { name: String },
    /// A mount that would come after one of its own children, or twice.
    MountOrder { target: String },
    /// The package is not in the catalogue.
    PackageNotFound { name: String },
    /// The home directory of the current user could not be determined.
    HomeUnknown,
    /// The base system has not been installed into the target root.
    BaseMissing,
}

/// A failure as plain values.
pub enum ErrorView {
    ToolMissing { program: Seq<char> },
    DeviceBusy { device: Seq<char> },
    DeviceError { command: Seq<char>, status: int, output: Seq<char> },
    CommandFailed { command: Seq<char>, status: int, output: Seq<char> },
    AuthenticationFailed { partition: Seq<char> },
    AlreadyEncrypted { partition: Seq<char> },
    ChrootCommandFailed { index: nat, command: Seq<char>, status: int },
    BootloaderError { command: Seq<char>, status: int, output: Seq<char> },
    InvalidLayout,
    NotMounted { path: Seq<char> },
    UnsupportedDesktop { name: Seq<char> },
    MountOrder { target: Seq<char> },
    PackageNotFound { name: Seq<char> },
    HomeUnknown,
    BaseMissing,
}

impl View for InstallError {
    type V = ErrorView;

    open spec fn view(&self) -> ErrorView {
        match *self {
            InstallError::ToolMissing { program } => ErrorView::ToolMissing { program: program@ },
            InstallError::DeviceBusy { device } => ErrorView::DeviceBusy { device: device@ },
            InstallError::DeviceError { command, status, output } => ErrorView::DeviceError {
                command: command@,
                status: status as int,
                output: output@,
            },
            InstallError::CommandFailed { command, status, output } => ErrorView::CommandFailed {
                command: command@,
                status: status as int,
                output: output@,
            },
            InstallError::AuthenticationFailed { partition } => ErrorView::AuthenticationFailed {
                partition: partition@,
            },
            InstallError::AlreadyEncrypted { partition } => ErrorView::AlreadyEncrypted {
                partition: partition@,
            },
            InstallError::ChrootCommandFailed { index, command, status } => ErrorView::ChrootCommandFailed {
                index: index as nat,
                command: command@,
                status: status as int,
            },
            InstallError::BootloaderError { command, status, output } => ErrorView::BootloaderError {
                command: command@,
                status: status as int,
                output: output@,
            },
            InstallError::InvalidLayout => ErrorView::InvalidLayout,
            InstallError::NotMounted { path } => ErrorView::NotMounted { path: path@ },
            InstallError::UnsupportedDesktop { name } => ErrorView::UnsupportedDesktop { name: name@ },
            InstallError::MountOrder { target } => ErrorView::MountOrder { target: target@ },
            InstallError::PackageNotFound { name } => ErrorView::PackageNotFound { name: name@ },
            InstallError::HomeUnknown => ErrorView::HomeUnknown,
            InstallError::BaseMissing => ErrorView::BaseMissing,
        }
    }
}

impl ErrorView {
    /// The failures that an operator can mend and then try again: a missing
    /// tool can be installed, credentials can be entered again.
    pub open spec fn recoverable(self) -> bool {
        self is ToolMissing || self is AuthenticationFailed
    }

    /// The name of the kind of failure.
    pub open spec fn kind(self) -> Seq<char> {
        match self {
            ErrorView::ToolMissing { .. } => "ToolMissing"@,
            ErrorView::DeviceBusy { .. } => "DeviceBusy"@,
            ErrorView::DeviceError { .. } => "DeviceError"@,
            ErrorView::CommandFailed { .. } => "CommandFailed"@,
            ErrorView::AuthenticationFailed { .. } => "AuthenticationFailed"@,
            ErrorView::AlreadyEncrypted { .. } => "AlreadyEncrypted"@,
            ErrorView::ChrootCommandFailed { .. } => "ChrootCommandFailed"@,
            ErrorView::BootloaderError { .. } => "BootloaderError"@,
            ErrorView::InvalidLayout => "InvalidLayout"@,
            ErrorView::NotMounted { .. } => "NotMounted"@,
            ErrorView::UnsupportedDesktop { .. } => "UnsupportedDesktop"@,
            ErrorView::MountOrder { .. } => "MountOrder"@,
            ErrorView::PackageNotFound { .. } => "PackageNotFound"@,
            ErrorView::HomeUnknown => "HomeUnknown"@,
            ErrorView::BaseMissing => "BaseMissing"@,
        }
    }

    /// The external command that failed, where there is one.
    pub open spec fn command(self) -> Option<Seq<char>> {
        match self {
            ErrorView::DeviceError { command, .. } => Some(command),
            ErrorView::CommandFailed { command, .. } => Some(command),
            ErrorView::ChrootCommandFailed { command, .. } => Some(command),
            ErrorView::BootloaderError { command, .. } => Some(command),
            _ => None,
        }
    }

    /// What the failing command printed, where it was captured.
    pub open spec fn output(self) -> Option<Seq<char>> {
        match self {
            ErrorView::DeviceError { output, .. } => Some(output),
            ErrorView::CommandFailed { output, .. } => Some(output),
            ErrorView::BootloaderError { output, .. } => Some(output),
            _ => None,
        }
    }
}

impl ErrorView {
    /// The failure in one line: its kind, then the external command that
    /// failed and what it printed, where there are any.
    pub open spec fn report(self) -> Seq<char> {
        self.kind() + (match self.command() {
            Some(command) => ", command: "@ + command,
            None => Seq::empty(),
        }) + (match self.output() {
            Some(output) => ", output: "@ + output,
            None => Seq::empty(),
        })
    }
}

impl Clone for InstallError {
    fn clone(&self) -> (r: InstallError)
        ensures
            r@ == self@,
    {
        match self {
            InstallError::ToolMissing { program } => InstallError::ToolMissing { program: program.clone() },
            InstallError::DeviceBusy { device } => InstallError::DeviceBusy { device: device.clone() },
            InstallError::DeviceError { command, status, output } => InstallError::DeviceError {
                command: command.clone(),
                status: *status,
                output: output.clone(),
            },
            InstallError::CommandFailed { command, status, output } => InstallError::CommandFailed {
                command: command.clone(),
                status: *status,
                output: output.clone(),
            },
            InstallError::AuthenticationFailed { partition } => InstallError::AuthenticationFailed {
                partition: partition.clone(),
            },
            InstallError::AlreadyEncrypted { partition } => InstallError::AlreadyEncrypted {
                partition: partition.clone(),
            },
            InstallError::ChrootCommandFailed { index, command, status } => InstallError::ChrootCommandFailed {
                index: *index,
                command: command.clone(),
                status: *status,
            },
            InstallError::BootloaderError { command, status, output } => InstallError::BootloaderError {
                command: command.clone(),
                status: *status,
                output: output.clone(),
            },
            InstallError::InvalidLayout => InstallError::InvalidLayout,
            InstallError::NotMounted { path } => InstallError::NotMounted { path: path.clone() },
            InstallError::UnsupportedDesktop { name } => InstallError::UnsupportedDesktop { name: name.clone() },
            InstallError::MountOrder { target } => InstallError::MountOrder { target: target.clone() },
            InstallError::PackageNotFound { name } => InstallError::PackageNotFound { name: name.clone() },
            InstallError::HomeUnknown => InstallError::HomeUnknown,
            InstallError::BaseMissing => InstallError::BaseMissing,
        }
    }
}

impl InstallError {
    /// Whether an operator can mend the cause and try again. Every other
    /// failure is fatal for the run.
    pub fn recoverable(&self) -> (r: bool)
        ensures
            r == self@.recoverable(),
    {
        match self {
            InstallError::ToolMissing { .. } => true,
            InstallError::AuthenticationFailed { .. } => true,
            _ => false,
        }
    }

    /// The name of the kind of failure.
    pub fn kind(&self) -> (r: &'static str)
        ensures
            r@ == self@.kind(),
    {
        match self {
            InstallError::ToolMissing { .. } => "ToolMissing",
            InstallError::DeviceBusy { .. } => "DeviceBusy",
            InstallError::DeviceError { .. } => "DeviceError",
            InstallError::CommandFailed { .. } => "CommandFailed",
            InstallError::AuthenticationFailed { .. } => "AuthenticationFailed",
            InstallError::AlreadyEncrypted { .. } => "AlreadyEncrypted",
            InstallError::ChrootCommandFailed { .. } => "ChrootCommandFailed",
            InstallError::BootloaderError { .. } => "BootloaderError",
            InstallError::InvalidLayout => "InvalidLayout",
            InstallError::NotMounted { .. } => "NotMounted",
            InstallError::UnsupportedDesktop { .. } => "UnsupportedDesktop",
            InstallError::MountOrder { .. } => "MountOrder",
            InstallError::PackageNotFound { .. } => "PackageNotFound",
            InstallError::HomeUnknown => "HomeUnknown",
            InstallError::BaseMissing => "BaseMissing",
        }
    }

    /// The failure in one line: its kind, then the external command that
    /// failed and what it printed, where there are any.
    pub fn report(&self) -> (r: String)
        ensures
            r@ == self@.report(),
    {
        let mut r = String::from_str(self.kind());
        let ghost kind = r@;
        match self.command() {
            Some(command) => {
                r.append(", command: ");
                r.append(command.as_str());
                proof {
                    assert(r@ =~= kind + (", command: "@ + command@));
                }
            },
            None => {
                proof {
                    assert(r@ =~= kind + Seq::<char>::empty());
                }
            },
        }
        let ghost head = r@;
        match self.output() {
            Some(output) => {
                r.append(", output: ");
                r.append(output.as_str());
                proof {
                    assert(r@ =~= head + (", output: "@ + output@));
                }
            },
            None => {
                proof {
                    assert(r@ =~= head + Seq::<char>::empty());
                }
            },
        }
        r
    }

    /// The external command that failed, where there is one.
    pub fn command(&self) -> (r: Option<&String>)
        ensures
            match r {
                Some(c) => self@.command() == Some(c@),
                None => self@.command().is_none(),
            },
    {
        match self {
            InstallError::DeviceError { command, .. } => Some(command),
            InstallError::CommandFailed { command, .. } => Some(command),
            InstallError::ChrootCommandFailed { command, .. } => Some(command),
            InstallError::BootloaderError { command, .. } => Some(command),
            _ => None,
        }
    }

    /// What the failing command printed, where it was captured.
    pub fn output(&self) -> (r: Option<&String>)
        ensures
            match r {
                Some(c) => self@.output() == Some(c@),
                None => self@.output().is_none(),
            },
    {
        match self {
            InstallError::DeviceError { output, .. } => Some(output),
            InstallError::CommandFailed { output, .. } => Some(output),
            InstallError::BootloaderError { output, .. } => Some(output),
            _ => None,
        }
    }
}

} // verus!
