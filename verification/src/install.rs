//! Controller flavours, and the system service of the client core: the steps that
//! install, stop, restart and remove it on each operating system.

use vstd::prelude::*;
use crate::detect::{LinuxPkgManager, Os};

verus! {

/// The kind of controller the user installs alongside the core.
#[derive(Debug, Clone, Copy, PartialEq, Eq, Structural)]
pub enum ControllerType {
    Tauri,
    WebUi,
    Cli,
}

impl ControllerType {
    /// The controller component of asset names.
    pub open spec fn type_text(self) -> Seq<char> {
        match self {
            ControllerType::Tauri => "tauri"@,
            ControllerType::WebUi => "webui"@,
            ControllerType::Cli => "cli"@,
        }
    }

    /// The file name suffix of this controller's asset for `os`.
    pub open spec fn os_suffix_text(self, os: Os) -> Seq<char> {
        match (self, os) {
            (ControllerType::Tauri, Os::Linux) => ".AppImage"@,
            (ControllerType::Tauri, Os::MacOs) => ".dmg"@,
            _ => os.exe_suffix_text(),
        }
    }

    /// The suffix of the desktop controller package preferred under `pkg_mgr`.
    pub open spec fn linux_preferred_suffix_text(pkg_mgr: LinuxPkgManager) -> Seq<char> {
        match pkg_mgr {
            LinuxPkgManager::Deb => ".deb"@,
            LinuxPkgManager::Rpm => ".rpm"@,
            LinuxPkgManager::Other => ".AppImage"@,
        }
    }

    pub fn type_str(self) -> (r: &'static str)
        ensures
            r@ == self.type_text(),
    {
        match self {
            ControllerType::Tauri => "tauri",
            ControllerType::WebUi => "webui",
            ControllerType::Cli => "cli",
        }
    }

    pub fn os_suffix(self, os: Os) -> (r: &'static str)
        ensures
            r@ == self.os_suffix_text(os),
    {
        match (self, os) {
            (ControllerType::Tauri, Os::Linux) => ".AppImage",
            (ControllerType::Tauri, Os::MacOs) => ".dmg",
            _ => os.exe_suffix(),
        }
    }

    /// The package format of the desktop controller that suits `pkg_mgr`: the native
    /// package where there is a package manager, the AppImage otherwise.
    pub fn linux_preferred_suffix(pkg_mgr: LinuxPkgManager) -> (r: &'static str)
        ensures
            r@ == Self::linux_preferred_suffix_text(pkg_mgr),
    {
        match pkg_mgr {
            LinuxPkgManager::Deb => ".deb",
            LinuxPkgManager::Rpm => ".rpm",
            LinuxPkgManager::Other => ".AppImage",
        }
    }
}

/// Only the desktop controller is packaged per system: it is an AppImage on Linux, a
/// disk image on macOS and an executable on Windows; the web and command-line
/// controllers are bare executables, with `.exe` on Windows and no suffix elsewhere.
pub proof fn lemma_controller_suffixes(controller_type: ControllerType, os: Os)
    ensures
        controller_type != ControllerType::Tauri ==> controller_type.os_suffix_text(os)
            == os.exe_suffix_text(),
        controller_type != ControllerType::Tauri && os != Os::Windows ==> controller_type.os_suffix_text(
            os,
        ) == ""@,
        os == Os::Windows ==> controller_type.os_suffix_text(os) == ".exe"@,
        ControllerType::Tauri.os_suffix_text(Os::Linux) == ".AppImage"@,
        ControllerType::Tauri.os_suffix_text(Os::MacOs) == ".dmg"@,
{
}

} // verus!
