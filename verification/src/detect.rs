//! The platform the installer targets: operating system, CPU architecture,
//! native package manager and whether the installer runs with elevated rights.

use vstd::prelude::*;
use crate::text::{str_eq, trim, trim_str};

verus! {

broadcast use vstd::string::group_string_axioms;

/// An operating system the client can be installed on.
#[derive(Debug, Clone, Copy, PartialEq, Eq, Structural)]
pub enum Os {
    Linux,
    Windows,
    MacOs,
}

/// A CPU architecture the client is built for.
#[derive(Debug, Clone, Copy, PartialEq, Eq, Structural)]
pub enum Arch {
    X86_64,
    Arm64,
}

/// Which native package manager is available on this Linux system.
/// Used to decide whether to install a .deb / .rpm instead of the AppImage.
#[derive(Debug, Clone, Copy, PartialEq, Eq, Structural)]
pub enum LinuxPkgManager {
    /// Debian / Ubuntu / Mint / Pop!_OS …  (dpkg + apt)
    Deb,
    /// Fedora / RHEL / CentOS / openSUSE … (rpm + dnf/yum/zypper)
    Rpm,
    /// Arch / Void / other — fall back to AppImage
    Other,
}

impl Os {
    /// The name shown to the user.
    pub open spec fn display_text(self) -> Seq<char> {
        match self {
            Os::Linux => "Linux"@,
            Os::Windows => "Windows"@,
            Os::MacOs => "macOS"@,
        }
    }

    /// The platform component of release asset names.
    pub open spec fn platform_text(self) -> Seq<char> {
        match self {
            Os::Linux => "linux"@,
            Os::Windows => "windows"@,
            Os::MacOs => "macos"@,
        }
    }

    /// The file name suffix of executables.
    pub open spec fn exe_suffix_text(self) -> Seq<char> {
        match self {
            Os::Windows => ".exe"@,
            _ => ""@,
        }
    }

    pub fn display_name(self) -> (r: &'static str)
        ensures
            r@ == self.display_text(),
    {
        match self {
            Os::Linux => "Linux",
            Os::Windows => "Windows",
            Os::MacOs => "macOS",
        }
    }

    pub fn platform_str(self) -> (r: &'static str)
        ensures
            r@ == self.platform_text(),
    {
        match self {
            Os::Linux => "linux",
            Os::Windows => "windows",
            Os::MacOs => "macos",
        }
    }

    pub fn exe_suffix(self) -> (r: &'static str)
        ensures
            r@ == self.exe_suffix_text(),
    {
        match self {
            Os::Windows => ".exe",
            _ => "",
        }
    }
}

impl Arch {
    /// The name shown to the user.
    pub open spec fn display_text(self) -> Seq<char> {
        match self {
            Arch::X86_64 => "x86-64"@,
            Arch::Arm64 => "arm64"@,
        }
    }

    /// The architecture component of controller asset names.
    pub open spec fn arch_text(self) -> Seq<char> {
        match self {
            Arch::X86_64 => "x86_64"@,
            Arch::Arm64 => "arm64"@,
        }
    }

    /// The architecture component of core asset names (Rust target naming).
    pub open spec fn core_arch_text(self) -> Seq<char> {
        match self {
            Arch::X86_64 => "x86_64"@,
            Arch::Arm64 => "aarch64"@,
        }
    }

    /// The directory of the Wintun driver build for this architecture.
    pub open spec fn wintun_dir_text(self) -> Seq<char> {
        match self {
            Arch::X86_64 => "amd64"@,
            Arch::Arm64 => "arm64"@,
        }
    }

    pub fn display_name(self) -> (r: &'static str)
        ensures
            r@ == self.display_text(),
    {
        match self {
            Arch::X86_64 => "x86-64",
            Arch::Arm64 => "arm64",
        }
    }

    pub fn arch_str(self) -> (r: &'static str)
        ensures
            r@ == self.arch_text(),
    {
        match self {
            Arch::X86_64 => "x86_64",
            Arch::Arm64 => "arm64",
        }
    }

    pub fn core_arch_str(self) -> (r: &'static str)
        ensures
            r@ == self.core_arch_text(),
    {
        match self {
            Arch::X86_64 => "x86_64",
            Arch::Arm64 => "aarch64",
        }
    }

    pub fn wintun_dir(self) -> (r: &'static str)
        ensures
            r@ == self.wintun_dir_text(),
    {
        match self {
            Arch::X86_64 => "amd64",
            Arch::Arm64 => "arm64",
        }
    }
}

impl Os {
    /// The directory the client is installed into, as the path components that the
    /// host's path rules join; `program_files` is the `PROGRAMFILES` variable, if set.
    pub open spec fn install_dir_text(self, program_files: Option<&str>) -> Seq<Seq<char>> {
        match self {
            Os::Linux => seq!["/opt/msst-net"@],
            Os::Windows => seq![
                match program_files {
                    Some(p) => p@,
                    None => "C:\\Program Files"@,
                },
                "MSST-Net"@,
            ],
            Os::MacOs => seq!["/usr/local/msst-net"@],
        }
    }

    pub fn install_dir_parts(self, program_files: Option<&str>) -> (r: Vec<String>)
        ensures
            r@.map_values(|p: String| p@) == self.install_dir_text(program_files),
    {
        let r = match self {
            Os::Linux => vec![String::from_str("/opt/msst-net")],
            Os::Windows => {
                let base = match program_files {
                    Some(p) => String::from_str(p),
                    None => String::from_str("C:\\Program Files"),
                };
                vec![base, String::from_str("MSST-Net")]
            },
            Os::MacOs => vec![String::from_str("/usr/local/msst-net")],
        };
        assert(r@.map_values(|p: String| p@) =~= self.install_dir_text(program_files));
        r
    }
}

/// The file whose presence marks a Debian-family system.
pub fn debian_marker_file() -> (r: &'static str)
    ensures
        r@ == "/etc/debian_version"@,
{
    "/etc/debian_version"
}

/// The files whose presence marks an RPM-family system, in the order they are probed.
pub open spec fn rpm_marker_texts() -> Seq<Seq<char>> {
    seq![
        "/etc/fedora-release"@,
        "/etc/redhat-release"@,
        "/etc/centos-release"@,
        "/etc/SuSE-release"@,
        "/etc/opensuse-release"@,
    ]
}

pub fn rpm_marker_files() -> (r: Vec<&'static str>)
    ensures
        r@.map_values(|p: &'static str| p@) == rpm_marker_texts(),
{
    let r = vec![
        "/etc/fedora-release",
        "/etc/redhat-release",
        "/etc/centos-release",
        "/etc/SuSE-release",
        "/etc/opensuse-release",
    ];
    assert(r@.map_values(|p: &'static str| p@) =~= rpm_marker_texts());
    r
}

/// The package manager that the probes point to: the marker files first (Debian before
/// RPM), then the `dpkg` and `rpm` programs on the search path, else neither.
pub open spec fn pkg_manager_for(
    debian_marker: bool,
    rpm_markers: Seq<bool>,
    dpkg_on_path: bool,
    rpm_on_path: bool,
) -> LinuxPkgManager {
    if debian_marker {
        LinuxPkgManager::Deb
    } else if rpm_markers.contains(true) {
        LinuxPkgManager::Rpm
    } else if dpkg_on_path {
        LinuxPkgManager::Deb
    } else if rpm_on_path {
        LinuxPkgManager::Rpm
    } else {
        LinuxPkgManager::Other
    }
}

/// Decides the Linux package manager from the probes: whether the Debian marker file
/// exists, which of the RPM marker files exist, and whether `dpkg` and `rpm` are on
/// the search path.
pub fn detect_linux_pkg_manager(
    debian_marker: bool,
    rpm_markers: &Vec<bool>,
    dpkg_on_path: bool,
    rpm_on_path: bool,
) -> (r: LinuxPkgManager)
    ensures
        r == pkg_manager_for(debian_marker, rpm_markers@, dpkg_on_path, rpm_on_path),
{
    if debian_marker {
        return LinuxPkgManager::Deb;
    }
    let mut i: usize = 0;
    while i < rpm_markers.len()
        invariant
            !debian_marker,
            i <= rpm_markers@.len(),
            forall|j: int| 0 <= j < i ==> !rpm_markers@[j],
        decreases rpm_markers@.len() - i,
    {
        if rpm_markers[i] {
            assert(rpm_markers@.contains(true)) by {
                assert(rpm_markers@[i as int]);
            }
            return LinuxPkgManager::Rpm;
        }
        i = i + 1;
    }
    if dpkg_on_path {
        return LinuxPkgManager::Deb;
    }
    if rpm_on_path {
        return LinuxPkgManager::Rpm;
    }
    LinuxPkgManager::Other
}

/// One probe of the Linux package manager, in the order they are made: the Debian
/// marker file, the RPM marker files in turn, then `dpkg` and `rpm` on the search path.
#[derive(Debug, Clone, Copy, PartialEq, Eq, Structural)]
pub enum PkgProbe {
    /// Whether the file `/etc/debian_version` exists.
    DebianMarker,
    /// Whether the RPM marker file at this position of `rpm_marker_files` exists.
    RpmMarker(usize),
    /// Whether `dpkg` is on the search path.
    DpkgOnPath,
    /// Whether `rpm` is on the search path.
    RpmOnPath,
}

/// What to do next while finding the Linux package manager.
#[derive(Debug, Clone, Copy, PartialEq, Eq, Structural)]
pub enum PkgDetection {
    /// Make this probe and report whether it found its file or program.
    Probe(PkgProbe),
    /// The search is over, with this package manager.
    Done(LinuxPkgManager),
}

/// The probe made at position `k` (below 8) of the sequence.
pub open spec fn pkg_probe_at(k: int) -> PkgProbe {
    if k == 0 {
        PkgProbe::DebianMarker
    } else if k <= 5 {
        PkgProbe::RpmMarker((k - 1) as usize)
    } else if k == 6 {
        PkgProbe::DpkgOnPath
    } else {
        PkgProbe::RpmOnPath
    }
}

/// The package manager that a successful probe at position `k` shows.
pub open spec fn pkg_manager_at(k: int) -> LinuxPkgManager {
    if k == 0 || k == 6 {
        LinuxPkgManager::Deb
    } else {
        LinuxPkgManager::Rpm
    }
}

/// The next move from position `k`, given the outcomes of the probes made so far:
/// the first probe that succeeded settles the answer; otherwise the next probe in
/// turn, and after all eight failed, no package manager.
pub open spec fn pkg_step_from(outcomes: Seq<bool>, k: int) -> PkgDetection
    decreases 8 - k,
{
    if k >= 8 {
        PkgDetection::Done(LinuxPkgManager::Other)
    } else if k >= outcomes.len() {
        PkgDetection::Probe(pkg_probe_at(k))
    } else if outcomes[k] {
        PkgDetection::Done(pkg_manager_at(k))
    } else {
        pkg_step_from(outcomes, k + 1)
    }
}

/// The next move, given the outcomes of the probes made so far, in order.
pub open spec fn pkg_step(outcomes: Seq<bool>) -> PkgDetection {
    pkg_step_from(outcomes, 0)
}

pub fn next_pkg_probe(outcomes: &Vec<bool>) -> (r: PkgDetection)
    ensures
        r == pkg_step(outcomes@),
{
    let mut k: usize = 0;
    while k < 8
        invariant
            k <= 8,
            pkg_step_from(outcomes@, k as int) == pkg_step(outcomes@),
        decreases 8 - k,
    {
        if k >= outcomes.len() {
            let probe = if k == 0 {
                PkgProbe::DebianMarker
            } else if k <= 5 {
                PkgProbe::RpmMarker(k - 1)
            } else if k == 6 {
                PkgProbe::DpkgOnPath
            } else {
                PkgProbe::RpmOnPath
            };
            return PkgDetection::Probe(probe);
        }
        if outcomes[k] {
            return PkgDetection::Done(
                if k == 0 || k == 6 {
                    LinuxPkgManager::Deb
                } else {
                    LinuxPkgManager::Rpm
                },
            );
        }
        k = k + 1;
    }
    PkgDetection::Done(LinuxPkgManager::Other)
}

/// The path or program name that a probe looks for.
pub fn pkg_probe_target(probe: PkgProbe) -> (r: Option<&'static str>)
    ensures
        match probe {
            PkgProbe::DebianMarker => r is Some && r->0@ == "/etc/debian_version"@,
            PkgProbe::RpmMarker(i) => if i < 5 {
                r is Some && r->0@ == rpm_marker_texts()[i as int]
            } else {
                r is None
            },
            PkgProbe::DpkgOnPath => r is Some && r->0@ == "dpkg"@,
            PkgProbe::RpmOnPath => r is Some && r->0@ == "rpm"@,
        },
{
    match probe {
        PkgProbe::DebianMarker => Some("/etc/debian_version"),
        PkgProbe::RpmMarker(i) => {
            let files = rpm_marker_files();
            assert(files@.len() == 5) by {
                assert(files@.map_values(|p: &'static str| p@).len() == 5);
            }
            if i < files.len() {
                assert(files@.map_values(|p: &'static str| p@)[i as int] == files@[i as int]@);
                Some(files[i])
            } else {
                None
            }
        },
        PkgProbe::DpkgOnPath => Some("dpkg"),
        PkgProbe::RpmOnPath => Some("rpm"),
    }
}

/// Driving the search with real outcomes asks for the probes strictly in turn, asks
/// for none after one succeeded, and, with every outcome known, ends with what
/// `detect_linux_pkg_manager` decides on them.
pub proof fn lemma_pkg_probes_in_order(outcomes: Seq<bool>)
    requires
        outcomes.len() <= 8,
    ensures
        pkg_step(outcomes) is Probe ==> {
            &&& forall|j: int| 0 <= j < outcomes.len() ==> !#[trigger] outcomes[j]
            &&& pkg_step(outcomes) == PkgDetection::Probe(pkg_probe_at(outcomes.len() as int))
        },
        (exists|j: int| 0 <= j < outcomes.len() && #[trigger] outcomes[j]) ==> pkg_step(
            outcomes,
        ) is Done,
        outcomes.len() == 8 ==> pkg_step(outcomes) == PkgDetection::Done(
            pkg_manager_for(
                outcomes[0],
                outcomes.subrange(1, 6),
                outcomes[6],
                outcomes[7],
            ),
        ),
{
    lemma_pkg_step_from(outcomes, 0);
    if outcomes.len() == 8 {
        reveal_with_fuel(pkg_step_from, 9);
        let m = outcomes.subrange(1, 6);
        assert(m.contains(true) <==> (outcomes[1] || outcomes[2] || outcomes[3] || outcomes[4]
            || outcomes[5])) by {
            if m.contains(true) {
                let j = choose|j: int| 0 <= j < m.len() && m[j] == true;
                assert(outcomes[j + 1]);
            }
            if outcomes[1] {
                assert(m[0]);
            }
            if outcomes[2] {
                assert(m[1]);
            }
            if outcomes[3] {
                assert(m[2]);
            }
            if outcomes[4] {
                assert(m[3]);
            }
            if outcomes[5] {
                assert(m[4]);
            }
        }
    }
}

proof fn lemma_pkg_step_from(outcomes: Seq<bool>, k: int)
    requires
        0 <= k <= 8,
        k <= outcomes.len() || k == 0,
        outcomes.len() <= 8,
        forall|j: int| 0 <= j < k && j < outcomes.len() ==> !#[trigger] outcomes[j],
    ensures
        pkg_step_from(outcomes, k) is Probe ==> {
            &&& forall|j: int| 0 <= j < outcomes.len() ==> !#[trigger] outcomes[j]
            &&& pkg_step_from(outcomes, k) == PkgDetection::Probe(
                pkg_probe_at(outcomes.len() as int),
            )
        },
        (exists|j: int| 0 <= j < outcomes.len() && #[trigger] outcomes[j]) ==> pkg_step_from(
            outcomes,
            k,
        ) is Done,
    decreases 8 - k,
{
    if k < 8 && k < outcomes.len() && !outcomes[k] {
        lemma_pkg_step_from(outcomes, k + 1);
    }
}

/// What probing the rights of the installer's process gave.
#[derive(Debug, Clone)]
pub enum ElevationProbe {
    /// On Unix: the output of `id -u` (decoded lossily), or `None` where it could not run.
    UnixUserId(Option<String>),
    /// On Windows: whether `net session` ran and succeeded.
    WindowsNetSession(bool),
    /// On any other platform, where nothing is probed.
    Unprobed,
}

/// Whether the probe shows elevated rights: user id 0 on Unix, a successful
/// `net session` on Windows, and always elsewhere.
pub open spec fn elevated_by(probe: ElevationProbe) -> bool {
    match probe {
        ElevationProbe::UnixUserId(Some(out)) => trim(out@) == "0"@,
        ElevationProbe::UnixUserId(None) => false,
        ElevationProbe::WindowsNetSession(ok) => ok,
        ElevationProbe::Unprobed => true,
    }
}

pub fn is_elevated(probe: &ElevationProbe) -> (r: bool)
    ensures
        r == elevated_by(*probe),
{
    match probe {
        ElevationProbe::UnixUserId(Some(out)) => str_eq(trim_str(out.as_str()), "0"),
        ElevationProbe::UnixUserId(None) => false,
        ElevationProbe::WindowsNetSession(ok) => *ok,
        ElevationProbe::Unprobed => true,
    }
}

/// The operating system a build for target `target_os` (Rust's naming) runs on;
/// targets other than the three supported ones count as Linux.
pub open spec fn os_for_target(target_os: Seq<char>) -> Os {
    if target_os == "windows"@ {
        Os::Windows
    } else if target_os == "macos"@ {
        Os::MacOs
    } else {
        Os::Linux
    }
}

/// The architecture of target `target_arch` (Rust's naming), if it is supported.
pub open spec fn arch_for_target(target_arch: Seq<char>) -> Option<Arch> {
    if target_arch == "x86_64"@ {
        Some(Arch::X86_64)
    } else if target_arch == "aarch64"@ {
        Some(Arch::Arm64)
    } else {
        None
    }
}

/// The operating system of the build target `target_os`.
pub fn detect_os(target_os: &str) -> (r: Os)
    ensures
        r == os_for_target(target_os@),
{
    proof {
        lemma_target_names_distinct();
    }
    if str_eq(target_os, "linux") {
        Os::Linux
    } else if str_eq(target_os, "windows") {
        Os::Windows
    } else if str_eq(target_os, "macos") {
        Os::MacOs
    } else {
        Os::Linux
    }
}

/// The architecture of the build target `target_arch`, or `None` where it is not supported.
pub fn detect_arch(target_arch: &str) -> (r: Option<Arch>)
    ensures
        r == arch_for_target(target_arch@),
{
    proof {
        lemma_target_names_distinct();
    }
    if str_eq(target_arch, "x86_64") {
        Some(Arch::X86_64)
    } else if str_eq(target_arch, "aarch64") {
        Some(Arch::Arm64)
    } else {
        None
    }
}

/// The target names told apart by `detect_os` and `detect_arch` differ from each other.
proof fn lemma_target_names_distinct()
    ensures
        "linux"@ != "windows"@,
        "linux"@ != "macos"@,
        "windows"@ != "macos"@,
        "x86_64"@ != "aarch64"@,
{
    reveal_strlit("linux");
    reveal_strlit("windows");
    reveal_strlit("macos");
    reveal_strlit("x86_64");
    reveal_strlit("aarch64");
    assert("linux"@.len() == 5);
    assert("windows"@.len() == 7);
    assert("macos"@.len() == 5);
    assert("linux"@[0] != "macos"@[0]);
    assert("x86_64"@.len() == 6);
    assert("aarch64"@.len() == 7);
}

/// The platform name of every operating system is recognised as that operating system.
pub proof fn lemma_detect_os_of_platform_str(os: Os)
    ensures
        os_for_target(os.platform_text()) == os,
{
    lemma_target_names_distinct();
}

/// The core architecture name of every architecture is recognised as that architecture.
pub proof fn lemma_detect_arch_of_core_arch_str(arch: Arch)
    ensures
        arch_for_target(arch.core_arch_text()) == Some(arch),
{
    lemma_target_names_distinct();
}

/// Only Windows executables carry a suffix, `.exe`.
pub proof fn lemma_exe_suffix(os: Os)
    ensures
        os == Os::Windows ==> os.exe_suffix_text() == ".exe"@,
        os != Os::Windows ==> os.exe_suffix_text().len() == 0,
{
    reveal_strlit("");
}

/// The package manager decision: a Debian marker file settles it as Debian whatever
/// else is found; otherwise any RPM marker file settles it as RPM; otherwise `dpkg` on
/// the path means Debian, else `rpm` on the path means RPM, else there is none.
pub proof fn lemma_pkg_manager_priority(
    debian_marker: bool,
    rpm_markers: Seq<bool>,
    dpkg_on_path: bool,
    rpm_on_path: bool,
)
    ensures
        debian_marker ==> pkg_manager_for(debian_marker, rpm_markers, dpkg_on_path, rpm_on_path)
            == LinuxPkgManager::Deb,
        !debian_marker && rpm_markers.contains(true) ==> pkg_manager_for(
            debian_marker,
            rpm_markers,
            dpkg_on_path,
            rpm_on_path,
        ) == LinuxPkgManager::Rpm,
        !debian_marker && !rpm_markers.contains(true) && dpkg_on_path ==> pkg_manager_for(
            debian_marker,
            rpm_markers,
            dpkg_on_path,
            rpm_on_path,
        ) == LinuxPkgManager::Deb,
        !debian_marker && !rpm_markers.contains(true) && !dpkg_on_path && rpm_on_path
            ==> pkg_manager_for(debian_marker, rpm_markers, dpkg_on_path, rpm_on_path)
            == LinuxPkgManager::Rpm,
        !debian_marker && !rpm_markers.contains(true) && !dpkg_on_path && !rpm_on_path
            ==> pkg_manager_for(debian_marker, rpm_markers, dpkg_on_path, rpm_on_path)
            == LinuxPkgManager::Other,
{
}

} // verus!
