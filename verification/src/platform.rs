//! Platform capability surface. The registry-backed shell integrations
//! (Explorer context menu, autostart) exist only on Windows; this build
//! targets platforms without a registry, so each of these entry points
//! reports, by contract, that the capability is unsupported. The types they
//! exchange with the interface layer live here too.

use vstd::prelude::*;

verus! {

/// Why an autostart request failed.
#[derive(Debug, Clone, PartialEq, Eq)]
pub enum AutostartError {
    /// Autostart registration is not supported on this platform.
    UnsupportedPlatform,
    /// The path of the running executable could not be determined.
    MissingExecutablePath,
}

/// The message that `AutostartError::message` returns for each failure.
pub open spec fn autostart_error_message(e: AutostartError) -> Seq<char> {
    match e {
        AutostartError::UnsupportedPlatform => "autostart not supported on this platform"@,
        AutostartError::MissingExecutablePath => "missing executable path"@,
    }
}

impl AutostartError {
    /// The user-facing description of this failure.
    pub fn message(&self) -> (s: String)
        ensures
            s@ == autostart_error_message(*self),
    {
        match self {
            AutostartError::UnsupportedPlatform => "autostart not supported on this platform".to_owned(),
            AutostartError::MissingExecutablePath => "missing executable path".to_owned(),
        }
    }
}

/// Why a context-menu request failed.
#[derive(Debug, Clone, PartialEq, Eq)]
pub enum ContextMenuError {
    /// Context-menu registration is not supported on this platform.
    UnsupportedPlatform,
    /// The path of the running executable could not be determined.
    MissingExecutablePath,
}

/// The message that `ContextMenuError::message` returns for each failure.
pub open spec fn context_menu_error_message(e: ContextMenuError) -> Seq<char> {
    match e {
        ContextMenuError::UnsupportedPlatform => "context menu not supported on this platform"@,
        ContextMenuError::MissingExecutablePath => "missing executable path"@,
    }
}

impl ContextMenuError {
    /// The user-facing description of this failure.
    pub fn message(&self) -> (s: String)
        ensures
            s@ == context_menu_error_message(*self),
    {
        match self {
            ContextMenuError::UnsupportedPlatform => "context menu not supported on this platform".to_owned(),
            ContextMenuError::MissingExecutablePath => "missing executable path".to_owned(),
        }
    }
}

/// Registers the application under the platform's autostart mechanism.
/// Unsupported here.
pub fn write_autostart(exe_path: &str) -> (r: Result<(), AutostartError>)
    ensures
        r == Err::<(), AutostartError>(AutostartError::UnsupportedPlatform),
{
    let _ = exe_path;
    Err(AutostartError::UnsupportedPlatform)
}

/// Removes the application's autostart registration. Unsupported here.
pub fn remove_autostart() -> (r: Result<(), AutostartError>)
    ensures
        r == Err::<(), AutostartError>(AutostartError::UnsupportedPlatform),
{
    Err(AutostartError::UnsupportedPlatform)
}

/// Reports whether autostart is registered. Unsupported here.
pub fn is_autostart_enabled() -> (r: Result<bool, AutostartError>)
    ensures
        r == Err::<bool, AutostartError>(AutostartError::UnsupportedPlatform),
{
    Err(AutostartError::UnsupportedPlatform)
}

/// Installs the file-manager context-menu entries. Unsupported here.
pub fn enable_context_menu(exe_path: &str) -> (r: Result<(), ContextMenuError>)
    ensures
        r == Err::<(), ContextMenuError>(ContextMenuError::UnsupportedPlatform),
{
    let _ = exe_path;
    Err(ContextMenuError::UnsupportedPlatform)
}

/// Removes the file-manager context-menu entries. Unsupported here.
pub fn disable_context_menu() -> (r: Result<(), ContextMenuError>)
    ensures
        r == Err::<(), ContextMenuError>(ContextMenuError::UnsupportedPlatform),
{
    Err(ContextMenuError::UnsupportedPlatform)
}

/// Reports whether the context-menu entries are installed. Unsupported here.
pub fn is_context_menu_enabled() -> (r: Result<bool, ContextMenuError>)
    ensures
        r == Err::<bool, ContextMenuError>(ContextMenuError::UnsupportedPlatform),
{
    Err(ContextMenuError::UnsupportedPlatform)
}

/// Whether the context-menu entries are installed, with a human summary.
#[derive(Debug)]
pub struct ContextMenuStatus {
    /// Whether the entries are installed.
    pub enabled: bool,
    /// Human-readable summary of the status.
    pub message: String,
}

/// Platform capabilities reported to the interface layer for gating.
#[derive(Debug)]
pub struct PlatformInfo {
    /// Whether this is a Windows build, where the registry-backed shell
    /// integrations are available.
    pub is_windows: bool,
    /// The platform's name.
    pub os: String,
}

} // verus!
