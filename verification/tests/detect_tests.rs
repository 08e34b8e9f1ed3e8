use msst_net_client_installer::detect::{
    debian_marker_file, detect_arch, detect_linux_pkg_manager, detect_os, is_elevated,
    rpm_marker_files, Arch, ElevationProbe, LinuxPkgManager, Os,
};

#[test]
fn os_names() {
    assert_eq!(Os::Linux.display_name(), "Linux");
    assert_eq!(Os::Windows.display_name(), "Windows");
    assert_eq!(Os::MacOs.display_name(), "macOS");
    assert_eq!(Os::Linux.platform_str(), "linux");
    assert_eq!(Os::Windows.platform_str(), "windows");
    assert_eq!(Os::MacOs.platform_str(), "macos");
    assert_eq!(Os::Windows.exe_suffix(), ".exe");
    assert_eq!(Os::Linux.exe_suffix(), "");
    assert_eq!(Os::MacOs.exe_suffix(), "");
}

#[test]
fn arch_names() {
    assert_eq!(Arch::X86_64.display_name(), "x86-64");
    assert_eq!(Arch::Arm64.display_name(), "arm64");
    assert_eq!(Arch::X86_64.arch_str(), "x86_64");
    assert_eq!(Arch::Arm64.arch_str(), "arm64");
    assert_eq!(Arch::X86_64.core_arch_str(), "x86_64");
    assert_eq!(Arch::Arm64.core_arch_str(), "aarch64");
    assert_eq!(Arch::X86_64.wintun_dir(), "amd64");
    assert_eq!(Arch::Arm64.wintun_dir(), "arm64");
}

#[test]
fn install_dirs() {
    assert_eq!(Os::Linux.install_dir_parts(None), vec!["/opt/msst-net".to_string()]);
    assert_eq!(Os::MacOs.install_dir_parts(Some("D:\\x")), vec!["/usr/local/msst-net".to_string()]);
    assert_eq!(
        Os::Windows.install_dir_parts(None),
        vec!["C:\\Program Files".to_string(), "MSST-Net".to_string()]
    );
    assert_eq!(
        Os::Windows.install_dir_parts(Some("D:\\Programs")),
        vec!["D:\\Programs".to_string(), "MSST-Net".to_string()]
    );
}

#[test]
fn detect_os_from_target_names() {
    assert_eq!(detect_os("linux"), Os::Linux);
    assert_eq!(detect_os("windows"), Os::Windows);
    assert_eq!(detect_os("macos"), Os::MacOs);
    assert_eq!(detect_os("freebsd"), Os::Linux);
    assert_eq!(detect_os(""), Os::Linux);
    assert_eq!(detect_os("Windows"), Os::Linux);
}

#[test]
fn detect_os_inverts_platform_str() {
    for os in [Os::Linux, Os::Windows, Os::MacOs] {
        assert_eq!(detect_os(os.platform_str()), os);
    }
}

#[test]
fn detect_arch_from_target_names() {
    assert_eq!(detect_arch("x86_64"), Some(Arch::X86_64));
    assert_eq!(detect_arch("aarch64"), Some(Arch::Arm64));
    assert_eq!(detect_arch("arm64"), None);
    assert_eq!(detect_arch("x86"), None);
    for arch in [Arch::X86_64, Arch::Arm64] {
        assert_eq!(detect_arch(arch.core_arch_str()), Some(arch));
    }
}

#[test]
fn package_manager_markers() {
    assert_eq!(debian_marker_file(), "/etc/debian_version");
    assert_eq!(
        rpm_marker_files(),
        vec![
            "/etc/fedora-release",
            "/etc/redhat-release",
            "/etc/centos-release",
            "/etc/SuSE-release",
            "/etc/opensuse-release",
        ]
    );
}

#[test]
fn package_manager_decision_order() {
    let none = vec![false; 5];
    let one_rpm = vec![false, false, true, false, false];
    assert_eq!(detect_linux_pkg_manager(true, &one_rpm, false, true), LinuxPkgManager::Deb);
    assert_eq!(detect_linux_pkg_manager(false, &one_rpm, true, false), LinuxPkgManager::Rpm);
    assert_eq!(detect_linux_pkg_manager(false, &none, true, true), LinuxPkgManager::Deb);
    assert_eq!(detect_linux_pkg_manager(false, &none, false, true), LinuxPkgManager::Rpm);
    assert_eq!(detect_linux_pkg_manager(false, &none, false, false), LinuxPkgManager::Other);
    assert_eq!(detect_linux_pkg_manager(false, &Vec::new(), false, false), LinuxPkgManager::Other);
}

#[test]
fn elevation_on_unix() {
    assert!(is_elevated(&ElevationProbe::UnixUserId(Some("0\n".to_string()))));
    assert!(is_elevated(&ElevationProbe::UnixUserId(Some(" \t0 \r\n".to_string()))));
    assert!(is_elevated(&ElevationProbe::UnixUserId(Some("\u{a0}0\u{3000}".to_string()))));
    assert!(!is_elevated(&ElevationProbe::UnixUserId(Some("1000\n".to_string()))));
    assert!(!is_elevated(&ElevationProbe::UnixUserId(Some("00\n".to_string()))));
    assert!(!is_elevated(&ElevationProbe::UnixUserId(Some("".to_string()))));
    assert!(!is_elevated(&ElevationProbe::UnixUserId(Some("0 0".to_string()))));
    assert!(!is_elevated(&ElevationProbe::UnixUserId(None)));
}

#[test]
fn elevation_elsewhere() {
    assert!(is_elevated(&ElevationProbe::WindowsNetSession(true)));
    assert!(!is_elevated(&ElevationProbe::WindowsNetSession(false)));
    assert!(is_elevated(&ElevationProbe::Unprobed));
}
