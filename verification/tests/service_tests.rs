use msst_net_client_installer::detect::Os;
use msst_net_client_installer::service::{
    install_service, restart_service, stop_service, uninstall_service, RunMode, ServiceStep,
};

fn run(program: &str, args: &[&str], mode: RunMode) -> ServiceStep {
    ServiceStep::Run {
        program: program.to_string(),
        args: args.iter().map(|a| a.to_string()).collect(),
        mode,
    }
}

fn announce(message: &str) -> ServiceStep {
    ServiceStep::Announce { message: message.to_string() }
}

const UNIT: &str = "/etc/systemd/system/msst-net.service";
const PLIST: &str = "/Library/LaunchDaemons/net.msst.client.plist";

#[test]
fn systemd_install() {
    let steps = install_service(Os::Linux, "/opt/msst-net/msst-net-client-core-linux-x86_64");
    let unit = "[Unit]\nDescription=MSST-Net Client Core\nAfter=network.target\n\n[Service]\nType=simple\nExecStart=/opt/msst-net/msst-net-client-core-linux-x86_64\nRestart=always\nRestartSec=5\n\n[Install]\nWantedBy=multi-user.target\n";
    assert_eq!(
        steps,
        vec![
            ServiceStep::WriteFile { path: UNIT.to_string(), contents: unit.to_string() },
            run("systemctl", &["daemon-reload"], RunMode::Checked),
            run("systemctl", &["enable", "msst-net"], RunMode::Checked),
            run("systemctl", &["start", "msst-net"], RunMode::Checked),
            announce("Systemd 服务 'msst-net' 已启用并启动。"),
        ]
    );
}

#[test]
fn launchd_install() {
    let steps = install_service(Os::MacOs, "/usr/local/msst-net/core");
    let plist = "<?xml version=\"1.0\" encoding=\"UTF-8\"?>\n<!DOCTYPE plist PUBLIC \"-//Apple//DTD PLIST 1.0//EN\" \"http://www.apple.com/DTDs/PropertyList-1.0.dtd\">\n<plist version=\"1.0\">\n<dict>\n<key>Label</key>\n<string>net.msst.client</string>\n<key>ProgramArguments</key>\n<array>\n<string>/usr/local/msst-net/core</string>\n</array>\n<key>RunAtLoad</key>\n<true/>\n<key>KeepAlive</key>\n<true/>\n</dict>\n</plist>\n";
    assert_eq!(
        steps,
        vec![
            ServiceStep::WriteFile { path: PLIST.to_string(), contents: plist.to_string() },
            run("launchctl", &["load", "-w", PLIST], RunMode::Checked),
            announce("LaunchDaemon 'net.msst.client' 已加载。"),
        ]
    );
}

#[test]
fn windows_install() {
    let steps = install_service(Os::Windows, "C:\\Program Files\\MSST-Net\\core.exe");
    assert_eq!(
        steps,
        vec![
            run("sc", &["stop", "msst-net"], RunMode::Silent),
            run("sc", &["delete", "msst-net"], RunMode::Silent),
            run(
                "sc",
                &[
                    "create",
                    "msst-net",
                    "binPath= \"C:\\Program Files\\MSST-Net\\core.exe\"",
                    "start= auto",
                    "DisplayName= MSST-Net Client",
                ],
                RunMode::Checked
            ),
            run("sc", &["description", "msst-net", "MSST-Net Client Core Network Service"], RunMode::Checked),
            run("sc", &["start", "msst-net"], RunMode::Checked),
            announce("Windows 服务 'msst-net' 已创建并启动。"),
        ]
    );
}

#[test]
fn stop_steps() {
    assert_eq!(stop_service(Os::Linux), vec![run("systemctl", &["stop", "msst-net"], RunMode::Unchecked)]);
    assert_eq!(stop_service(Os::MacOs), vec![run("launchctl", &["unload", PLIST], RunMode::Unchecked)]);
    assert_eq!(stop_service(Os::Windows), vec![run("sc", &["stop", "msst-net"], RunMode::Silent)]);
}

#[test]
fn restart_steps() {
    assert_eq!(
        restart_service(Os::Linux),
        vec![
            run("systemctl", &["restart", "msst-net"], RunMode::Checked),
            announce("Systemd 服务 'msst-net' 已重启。"),
        ]
    );
    assert_eq!(
        restart_service(Os::MacOs),
        vec![
            run("launchctl", &["unload", PLIST], RunMode::Unchecked),
            run("launchctl", &["load", "-w", PLIST], RunMode::Checked),
            announce("LaunchDaemon 'net.msst.client' 已重新加载。"),
        ]
    );
    assert_eq!(
        restart_service(Os::Windows),
        vec![run("sc", &["start", "msst-net"], RunMode::Checked), announce("Windows 服务 'msst-net' 已启动。")]
    );
}

#[test]
fn uninstall_steps() {
    assert_eq!(
        uninstall_service(Os::Linux),
        vec![
            run("systemctl", &["stop", "msst-net"], RunMode::Unchecked),
            run("systemctl", &["disable", "msst-net"], RunMode::Unchecked),
            ServiceStep::RemoveFile { path: UNIT.to_string() },
            run("systemctl", &["daemon-reload"], RunMode::Unchecked),
            announce("Systemd 服务 'msst-net' 已移除。"),
        ]
    );
    assert_eq!(
        uninstall_service(Os::MacOs),
        vec![
            run("launchctl", &["unload", PLIST], RunMode::Unchecked),
            ServiceStep::RemoveFile { path: PLIST.to_string() },
            announce("LaunchDaemon 'net.msst.client' 已移除。"),
        ]
    );
    assert_eq!(
        uninstall_service(Os::Windows),
        vec![
            run("sc", &["stop", "msst-net"], RunMode::Silent),
            run("sc", &["delete", "msst-net"], RunMode::Silent),
            announce("Windows 服务 'msst-net' 已移除。"),
        ]
    );
}

#[test]
fn uninstall_removes_what_install_wrote_and_never_aborts() {
    for os in [Os::Linux, Os::MacOs, Os::Windows] {
        let removed: Vec<String> = uninstall_service(os)
            .into_iter()
            .filter_map(|s| match s {
                ServiceStep::RemoveFile { path } => Some(path),
                _ => None,
            })
            .collect();
        for step in install_service(os, "/x/core") {
            if let ServiceStep::WriteFile { path, .. } = step {
                assert!(removed.contains(&path));
            }
        }
        for step in uninstall_service(os).into_iter().chain(stop_service(os)) {
            match step {
                ServiceStep::Run { mode, .. } => assert_ne!(mode, RunMode::Checked),
                ServiceStep::WriteFile { .. } => panic!("no file is written"),
                _ => {}
            }
        }
    }
}
