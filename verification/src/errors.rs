//! The failure taxonomy of the wipe engine, and the human-readable message
//! that each failure carries.

use vstd::prelude::*;
use vstd::string::StringExecFns;

verus! {

/// Why a wipe (or free-space) operation failed.
#[derive(Debug, Clone, PartialEq, Eq)]
pub enum WipeError {
    /// The target path does not exist.
    PathNotFound,
    /// A pass count of zero was requested.
    InvalidPasses,
    /// The target could not be opened for writing for lack of access rights.
    PermissionDenied,
    /// The target is a symbolic link, which is never dereferenced or wiped.
    UnsupportedTarget,
    /// The operation was cancelled cooperatively.
    Cancelled,
    /// Any other I/O failure, carrying the underlying description.
    Io(String),
    /// A free-space wipe was asked of a path that is not a volume root.
    VolumeNotRoot,
    /// No capacity information could be obtained for the volume.
    DiskInfoUnavailable,
}

/// The message that `WipeError::message` returns for each failure.
pub open spec fn wipe_error_message(e: WipeError) -> Seq<char> {
    match e {
        WipeError::PathNotFound => "Path not found"@,
        WipeError::InvalidPasses => "Invalid number of passes"@,
        WipeError::PermissionDenied => "Access denied. The file might be in use or require administrator privileges."@,
        WipeError::UnsupportedTarget => "Cannot wipe symbolic links"@,
        WipeError::Cancelled => "Operation cancelled by user"@,
        WipeError::Io(m) => "IO error: "@ + m@,
        WipeError::VolumeNotRoot => "Selected path is not a drive root"@,
        WipeError::DiskInfoUnavailable => "Could not find disk information"@,
    }
}

impl WipeError {
    /// The user-facing description of this failure.
    pub fn message(&self) -> (s: String)
        ensures
            s@ == wipe_error_message(*self),
    {
        match self {
            WipeError::PathNotFound => "Path not found".to_owned(),
            WipeError::InvalidPasses => "Invalid number of passes".to_owned(),
            WipeError::PermissionDenied => "Access denied. The file might be in use or require administrator privileges.".to_owned(),
            WipeError::UnsupportedTarget => "Cannot wipe symbolic links".to_owned(),
            WipeError::Cancelled => "Operation cancelled by user".to_owned(),
            WipeError::Io(m) => {
                let mut s = "IO error: ".to_owned();
                s.append(m.as_str());
                s
            },
            WipeError::VolumeNotRoot => "Selected path is not a drive root".to_owned(),
            WipeError::DiskInfoUnavailable => "Could not find disk information".to_owned(),
        }
    }
}

/// The single terminal outcome of a top-level operation: success or not,
/// with a human-readable summary.
#[derive(Debug, Clone, PartialEq, Eq)]
pub struct WipeResult {
    /// Whether the operation succeeded in full.
    pub success: bool,
    /// Human-readable summary: what succeeded, what was cancelled, or a
    /// newline-joined list of per-item failures.
    pub message: String,
}

/// Why a path was rejected as the root of a volume to be free-space wiped.
#[derive(Debug, Clone, PartialEq, Eq)]
pub enum DriveValidationError {
    /// The path does not exist.
    PathNotFound,
    /// The path exists but is not a drive root.
    NotDriveRoot,
}

/// The message that `DriveValidationError::message` returns for each failure.
pub open spec fn drive_validation_message(e: DriveValidationError) -> Seq<char> {
    match e {
        DriveValidationError::PathNotFound => "Path not found"@,
        DriveValidationError::NotDriveRoot => "Selected path is not a drive root"@,
    }
}

impl DriveValidationError {
    /// The user-facing description of this failure.
    pub fn message(&self) -> (s: String)
        ensures
            s@ == drive_validation_message(*self),
    {
        match self {
            DriveValidationError::PathNotFound => "Path not found".to_owned(),
            DriveValidationError::NotDriveRoot => "Selected path is not a drive root".to_owned(),
        }
    }
}

} // verus!
