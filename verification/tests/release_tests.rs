use msst_net_client_installer::detect::{Arch, LinuxPkgManager, Os};
use msst_net_client_installer::github::{Asset, ReleaseInfo};
use msst_net_client_installer::install::ControllerType;
use msst_net_client_installer::plan::{
    build_core_name, plan_release, pkg_manager_notice, resolve_controller_name, MissingAsset,
    SelectedAssets,
};

fn asset(name: &str, size: u64) -> Asset {
    Asset {
        name: name.to_string(),
        browser_download_url: format!("https://example.invalid/{}", name),
        size,
    }
}

fn release(names: &[&str]) -> ReleaseInfo {
    ReleaseInfo {
        tag_name: "v1.2.3".to_string(),
        assets: names.iter().enumerate().map(|(i, n)| asset(n, i as u64)).collect(),
    }
}

#[test]
fn controller_type_names() {
    assert_eq!(ControllerType::Tauri.type_str(), "tauri");
    assert_eq!(ControllerType::WebUi.type_str(), "webui");
    assert_eq!(ControllerType::Cli.type_str(), "cli");
    assert_eq!(ControllerType::Tauri.os_suffix(Os::Linux), ".AppImage");
    assert_eq!(ControllerType::Tauri.os_suffix(Os::MacOs), ".dmg");
    assert_eq!(ControllerType::Tauri.os_suffix(Os::Windows), ".exe");
    assert_eq!(ControllerType::Cli.os_suffix(Os::Windows), ".exe");
    assert_eq!(ControllerType::WebUi.os_suffix(Os::Linux), "");
    assert_eq!(ControllerType::Cli.os_suffix(Os::MacOs), "");
    assert_eq!(ControllerType::linux_preferred_suffix(LinuxPkgManager::Deb), ".deb");
    assert_eq!(ControllerType::linux_preferred_suffix(LinuxPkgManager::Rpm), ".rpm");
    assert_eq!(ControllerType::linux_preferred_suffix(LinuxPkgManager::Other), ".AppImage");
}

#[test]
fn find_asset_takes_the_first_match() {
    let r = release(&["a", "b", "a", "c"]);
    assert_eq!(r.find_asset_index("a"), Some(0));
    assert_eq!(r.find_asset_index("c"), Some(3));
    assert_eq!(r.find_asset_index("d"), None);
    assert_eq!(r.find_asset_index(""), None);
    assert_eq!(r.find_asset("b").map(|a| a.size), Some(1));
    assert!(r.find_asset("A").is_none());
    assert!(release(&[]).find_asset("a").is_none());
}

#[test]
fn core_names() {
    assert_eq!(build_core_name(Os::Linux, Arch::X86_64), "msst-net-client-core-linux-x86_64");
    assert_eq!(build_core_name(Os::Linux, Arch::Arm64), "msst-net-client-core-linux-aarch64");
    assert_eq!(build_core_name(Os::Windows, Arch::X86_64), "msst-net-client-core-windows-x86_64.exe");
    assert_eq!(build_core_name(Os::MacOs, Arch::Arm64), "msst-net-client-core-macos-aarch64");
}

#[test]
fn core_names_are_distinct() {
    let mut names = Vec::new();
    for os in [Os::Linux, Os::Windows, Os::MacOs] {
        for arch in [Arch::X86_64, Arch::Arm64] {
            names.push(build_core_name(os, arch));
        }
    }
    for i in 0..names.len() {
        for j in 0..names.len() {
            assert_eq!(i == j, names[i] == names[j]);
        }
    }
}

#[test]
fn linux_desktop_controller_prefers_native_package() {
    let r = release(&["msst-net-client-controller-tauri-linux-x86_64.deb"]);
    let c = resolve_controller_name(Os::Linux, Arch::X86_64, ControllerType::Tauri, LinuxPkgManager::Deb, &r);
    assert_eq!(c.name, "msst-net-client-controller-tauri-linux-x86_64.deb");
    assert!(c.use_native_pkg);
    assert_eq!(c.notice.as_deref(), Some("找到原生 deb 包，将使用系统包管理器安装。"));
}

#[test]
fn linux_desktop_controller_falls_back_to_appimage() {
    let r = release(&["msst-net-client-controller-tauri-linux-arm64.AppImage"]);
    let c = resolve_controller_name(Os::Linux, Arch::Arm64, ControllerType::Tauri, LinuxPkgManager::Rpm, &r);
    assert_eq!(c.name, "msst-net-client-controller-tauri-linux-arm64.AppImage");
    assert!(!c.use_native_pkg);
    assert_eq!(c.notice.as_deref(), Some("未在 Release 中找到 rpm 包，退回到 AppImage。"));
}

#[test]
fn linux_desktop_controller_without_package_manager() {
    let r = release(&["msst-net-client-controller-tauri-linux-x86_64.deb"]);
    let c = resolve_controller_name(Os::Linux, Arch::X86_64, ControllerType::Tauri, LinuxPkgManager::Other, &r);
    assert_eq!(c.name, "msst-net-client-controller-tauri-linux-x86_64.AppImage");
    assert!(!c.use_native_pkg);
    assert_eq!(c.notice, None);
}

#[test]
fn other_controllers_use_the_plain_suffix() {
    let r = release(&["msst-net-client-controller-cli-linux-x86_64.deb"]);
    let c = resolve_controller_name(Os::Linux, Arch::X86_64, ControllerType::Cli, LinuxPkgManager::Deb, &r);
    assert_eq!(c.name, "msst-net-client-controller-cli-linux-x86_64");
    assert!(!c.use_native_pkg);
    assert_eq!(c.notice, None);
    let w = resolve_controller_name(Os::Windows, Arch::Arm64, ControllerType::WebUi, LinuxPkgManager::Deb, &r);
    assert_eq!(w.name, "msst-net-client-controller-webui-windows-arm64.exe");
    let m = resolve_controller_name(Os::MacOs, Arch::Arm64, ControllerType::Tauri, LinuxPkgManager::Deb, &r);
    assert_eq!(m.name, "msst-net-client-controller-tauri-macos-arm64.dmg");
    assert_eq!(m.notice, None);
}

#[test]
fn plan_finds_both_assets() {
    let r = release(&[
        "notes.txt",
        "msst-net-client-controller-webui-windows-x86_64.exe",
        "msst-net-client-core-windows-x86_64.exe",
    ]);
    let p = plan_release(Os::Windows, Arch::X86_64, ControllerType::WebUi, LinuxPkgManager::Other, &r);
    assert_eq!(p.core_name, "msst-net-client-core-windows-x86_64.exe");
    assert_eq!(p.assets, Ok(SelectedAssets { core: 2, controller: 1 }));
    assert!(p.install_wintun);
}

#[test]
fn plan_reports_the_missing_core_first() {
    let r = release(&["nothing"]);
    let p = plan_release(Os::Linux, Arch::X86_64, ControllerType::Cli, LinuxPkgManager::Deb, &r);
    assert_eq!(p.assets, Err(MissingAsset::Core));
    assert!(!p.install_wintun);
}

#[test]
fn plan_reports_a_missing_controller() {
    let r = release(&["msst-net-client-core-macos-x86_64"]);
    let p = plan_release(Os::MacOs, Arch::X86_64, ControllerType::Tauri, LinuxPkgManager::Other, &r);
    assert_eq!(p.assets, Err(MissingAsset::Controller));
    assert_eq!(p.controller.name, "msst-net-client-controller-tauri-macos-x86_64.dmg");
}

#[test]
fn plan_with_native_linux_package() {
    let r = release(&[
        "msst-net-client-core-linux-x86_64",
        "msst-net-client-controller-tauri-linux-x86_64.AppImage",
        "msst-net-client-controller-tauri-linux-x86_64.rpm",
    ]);
    let p = plan_release(Os::Linux, Arch::X86_64, ControllerType::Tauri, LinuxPkgManager::Rpm, &r);
    assert_eq!(p.assets, Ok(SelectedAssets { core: 0, controller: 2 }));
    assert!(p.controller.use_native_pkg);
}

#[test]
fn package_manager_notices() {
    assert_eq!(pkg_manager_notice(LinuxPkgManager::Deb), "检测到包管理器：dpkg（Debian/Ubuntu 系列）");
    assert_eq!(pkg_manager_notice(LinuxPkgManager::Rpm), "检测到包管理器：rpm（Fedora/RHEL 系列）");
    assert_eq!(pkg_manager_notice(LinuxPkgManager::Other), "未检测到 deb/rpm 包管理器，将使用 AppImage");
}
