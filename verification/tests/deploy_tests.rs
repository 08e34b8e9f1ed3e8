use msst_net_client_installer::deploy::{deployment_steps, uninstall_steps, DeployStep, UninstallStep};
use msst_net_client_installer::detect::{Arch, LinuxPkgManager, Os};
use msst_net_client_installer::github::{Asset, ReleaseInfo};
use msst_net_client_installer::install::ControllerType;
use msst_net_client_installer::plan::{plan_release, SelectedAssets};
use msst_net_client_installer::service::{
    appimage_wrapper_steps, native_package_steps, remove_appimage_wrapper_steps, RunMode,
    ServiceStep,
};

fn release(names: &[&str]) -> ReleaseInfo {
    ReleaseInfo {
        tag_name: "v1".to_string(),
        assets: names
            .iter()
            .map(|n| Asset { name: n.to_string(), browser_download_url: String::new(), size: 1 })
            .collect(),
    }
}

#[test]
fn linux_desktop_install_with_appimage_gets_a_launcher() {
    let r = release(&[
        "msst-net-client-core-linux-x86_64",
        "msst-net-client-controller-tauri-linux-x86_64.AppImage",
    ]);
    let p = plan_release(Os::Linux, Arch::X86_64, ControllerType::Tauri, LinuxPkgManager::Deb, &r);
    let sel = p.assets.unwrap();
    assert_eq!(sel, SelectedAssets { core: 0, controller: 1 });
    let steps = deployment_steps(false, Os::Linux, ControllerType::Tauri, LinuxPkgManager::Deb, &p, sel);
    let appimage = "msst-net-client-controller-tauri-linux-x86_64.AppImage".to_string();
    assert_eq!(
        steps,
        vec![
            DeployStep::DownloadCore { asset: 0, file_name: "msst-net-client-core-linux-x86_64".to_string() },
            DeployStep::DownloadController { asset: 1, file_name: appimage.clone() },
            DeployStep::CreateAppImageWrapper { file_name: appimage },
            DeployStep::InstallService,
        ]
    );
}

#[test]
fn native_package_update_stops_first_and_restarts_last() {
    let r = release(&[
        "msst-net-client-controller-tauri-linux-arm64.rpm",
        "msst-net-client-core-linux-aarch64",
    ]);
    let p = plan_release(Os::Linux, Arch::Arm64, ControllerType::Tauri, LinuxPkgManager::Rpm, &r);
    let sel = p.assets.unwrap();
    let steps = deployment_steps(true, Os::Linux, ControllerType::Tauri, LinuxPkgManager::Rpm, &p, sel);
    assert_eq!(
        steps,
        vec![
            DeployStep::StopService,
            DeployStep::DownloadCore { asset: 1, file_name: "msst-net-client-core-linux-aarch64".to_string() },
            DeployStep::InstallNativePackage {
                asset: 0,
                file_name: "msst-net-client-controller-tauri-linux-arm64.rpm".to_string(),
                pkg_mgr: LinuxPkgManager::Rpm,
            },
            DeployStep::RestartService,
        ]
    );
}

#[test]
fn windows_install_adds_wintun_and_no_launcher() {
    let r = release(&[
        "msst-net-client-core-windows-x86_64.exe",
        "msst-net-client-controller-tauri-windows-x86_64.exe",
    ]);
    let p = plan_release(Os::Windows, Arch::X86_64, ControllerType::Tauri, LinuxPkgManager::Other, &r);
    let sel = p.assets.unwrap();
    let steps = deployment_steps(false, Os::Windows, ControllerType::Tauri, LinuxPkgManager::Other, &p, sel);
    assert_eq!(
        steps,
        vec![
            DeployStep::DownloadCore { asset: 0, file_name: "msst-net-client-core-windows-x86_64.exe".to_string() },
            DeployStep::DownloadController {
                asset: 1,
                file_name: "msst-net-client-controller-tauri-windows-x86_64.exe".to_string(),
            },
            DeployStep::InstallWintun,
            DeployStep::InstallService,
        ]
    );
}

#[test]
fn linux_cli_controller_gets_no_launcher() {
    let r = release(&["msst-net-client-core-linux-x86_64", "msst-net-client-controller-cli-linux-x86_64"]);
    let p = plan_release(Os::Linux, Arch::X86_64, ControllerType::Cli, LinuxPkgManager::Deb, &r);
    let sel = p.assets.unwrap();
    let steps = deployment_steps(true, Os::Linux, ControllerType::Cli, LinuxPkgManager::Deb, &p, sel);
    assert!(!steps.iter().any(|s| matches!(s, DeployStep::CreateAppImageWrapper { .. })));
    assert_eq!(steps.first(), Some(&DeployStep::StopService));
    assert_eq!(steps.last(), Some(&DeployStep::RestartService));
}

#[test]
fn uninstall_order() {
    assert_eq!(
        uninstall_steps(Os::Linux),
        vec![UninstallStep::UninstallService, UninstallStep::RemoveAppImageWrapper, UninstallStep::RemoveInstallDir]
    );
    assert_eq!(uninstall_steps(Os::MacOs), vec![UninstallStep::UninstallService, UninstallStep::RemoveInstallDir]);
    assert_eq!(uninstall_steps(Os::Windows), vec![UninstallStep::UninstallService, UninstallStep::RemoveInstallDir]);
}

#[test]
fn package_tool_commands() {
    assert_eq!(
        native_package_steps(LinuxPkgManager::Deb, "/tmp/c.deb"),
        vec![ServiceStep::Run {
            program: "dpkg".to_string(),
            args: vec!["-i".to_string(), "/tmp/c.deb".to_string()],
            mode: RunMode::Checked,
        }]
    );
    assert_eq!(
        native_package_steps(LinuxPkgManager::Rpm, "/tmp/c.rpm"),
        vec![ServiceStep::Run {
            program: "rpm".to_string(),
            args: vec!["-U".to_string(), "--replacepkgs".to_string(), "/tmp/c.rpm".to_string()],
            mode: RunMode::Checked,
        }]
    );
    assert!(native_package_steps(LinuxPkgManager::Other, "/tmp/x").is_empty());
}

#[test]
fn launcher_is_written_and_removed() {
    let steps = appimage_wrapper_steps("/opt/msst-net/c.AppImage");
    assert_eq!(
        steps,
        vec![
            ServiceStep::WriteFile {
                path: "/usr/local/bin/msst-net-client".to_string(),
                contents: "#!/bin/sh\nexport WEBKIT_DISABLE_DMABUF_RENDERER=1\nexport WEBKIT_DISABLE_COMPOSITING_MODE=1\nexec \"/opt/msst-net/c.AppImage\" \"$@\"\n".to_string(),
            },
            ServiceStep::Run {
                program: "chmod".to_string(),
                args: vec!["755".to_string(), "/usr/local/bin/msst-net-client".to_string()],
                mode: RunMode::Checked,
            },
        ]
    );
    assert_eq!(
        remove_appimage_wrapper_steps(),
        vec![ServiceStep::RemoveFile { path: "/usr/local/bin/msst-net-client".to_string() }]
    );
}
