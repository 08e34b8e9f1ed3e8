use msst_net_client_installer::deploy::{next_step, NextStep, UninstallStep};
use msst_net_client_installer::detect::{
    next_pkg_probe, pkg_probe_target, LinuxPkgManager, PkgDetection, PkgProbe,
};
use msst_net_client_installer::docker::{
    docker_install_steps, docker_uninstall_steps, docker_update_steps, next_compose_step,
    ComposeCmd, ComposeDetection, ComposeProbe, DockerError, DockerStep,
};
use msst_net_client_installer::detect::Os;
use msst_net_client_installer::menu::{mirror_menu, Mirror};
use msst_net_client_installer::service::{stop_service, uninstall_service, ServiceStep};

fn compose(title: &str, args: &[&str], checked: bool) -> DockerStep {
    DockerStep::Compose {
        title: title.to_string(),
        args: args.iter().map(|a| a.to_string()).collect(),
        checked,
    }
}

#[test]
fn compose_probes_run_lazily_in_order() {
    assert_eq!(next_compose_step(&vec![]), ComposeDetection::Probe(ComposeProbe::DockerInfo));
    assert_eq!(next_compose_step(&vec![false]), ComposeDetection::Done(Err(DockerError::EngineNotRunning)));
    assert_eq!(next_compose_step(&vec![true]), ComposeDetection::Probe(ComposeProbe::PluginVersion));
    assert_eq!(next_compose_step(&vec![true, true]), ComposeDetection::Done(Ok(ComposeCmd::V2)));
    assert_eq!(next_compose_step(&vec![true, false]), ComposeDetection::Probe(ComposeProbe::StandaloneVersion));
    assert_eq!(next_compose_step(&vec![true, false, true]), ComposeDetection::Done(Ok(ComposeCmd::V1)));
    assert_eq!(next_compose_step(&vec![true, false, false]), ComposeDetection::Done(Err(DockerError::ComposeMissing)));
}

#[test]
fn compose_probe_commands() {
    assert_eq!(ComposeProbe::DockerInfo.command_line(), ("docker".to_string(), vec!["info".to_string()]));
    assert_eq!(
        ComposeProbe::PluginVersion.command_line(),
        ("docker".to_string(), vec!["compose".to_string(), "version".to_string()])
    );
    assert_eq!(
        ComposeProbe::StandaloneVersion.command_line(),
        ("docker-compose".to_string(), vec!["version".to_string()])
    );
}

#[test]
fn docker_operation_plans() {
    assert_eq!(docker_install_steps(Os::Windows), Err(DockerError::InstallUnsupportedOs));
    assert_eq!(
        docker_install_steps(Os::Linux),
        Ok(vec![
            DockerStep::DetectCompose,
            DockerStep::AskPassword,
            DockerStep::CreateDirectories,
            DockerStep::WriteComposeFile,
            compose("拉取 Docker 镜像", &["pull"], true),
            compose("启动服务", &["up", "-d"], true),
        ])
    );
    assert_eq!(docker_update_steps(Os::MacOs, true), Err(DockerError::UnsupportedOs));
    assert_eq!(docker_update_steps(Os::Linux, false), Err(DockerError::NotDeployed));
    assert_eq!(
        docker_update_steps(Os::Linux, true),
        Ok(vec![
            DockerStep::DetectCompose,
            compose("拉取最新镜像", &["pull"], true),
            compose("重启服务", &["up", "-d"], true),
        ])
    );
    assert_eq!(
        docker_uninstall_steps(true),
        vec![
            DockerStep::DetectCompose,
            compose("停止并移除容器", &["down", "--rmi", "all"], false),
            DockerStep::RemoveComposeFile,
        ]
    );
    assert!(docker_uninstall_steps(false).is_empty());
    assert!(!DockerStep::RemoveComposeFile.aborts_on_failure());
    assert!(DockerStep::WriteComposeFile.aborts_on_failure());
    assert!(!compose("x", &[], false).aborts_on_failure());
}

#[test]
fn package_probes_stop_at_the_first_success() {
    assert_eq!(next_pkg_probe(&vec![]), PkgDetection::Probe(PkgProbe::DebianMarker));
    assert_eq!(next_pkg_probe(&vec![true]), PkgDetection::Done(LinuxPkgManager::Deb));
    assert_eq!(next_pkg_probe(&vec![false]), PkgDetection::Probe(PkgProbe::RpmMarker(0)));
    assert_eq!(next_pkg_probe(&vec![false, false, true]), PkgDetection::Done(LinuxPkgManager::Rpm));
    assert_eq!(next_pkg_probe(&vec![false; 5]), PkgDetection::Probe(PkgProbe::RpmMarker(4)));
    assert_eq!(next_pkg_probe(&vec![false; 6]), PkgDetection::Probe(PkgProbe::DpkgOnPath));
    let mut dpkg = vec![false; 6];
    dpkg.push(true);
    assert_eq!(next_pkg_probe(&dpkg), PkgDetection::Done(LinuxPkgManager::Deb));
    assert_eq!(next_pkg_probe(&vec![false; 7]), PkgDetection::Probe(PkgProbe::RpmOnPath));
    let mut rpm = vec![false; 7];
    rpm.push(true);
    assert_eq!(next_pkg_probe(&rpm), PkgDetection::Done(LinuxPkgManager::Rpm));
    assert_eq!(next_pkg_probe(&vec![false; 8]), PkgDetection::Done(LinuxPkgManager::Other));
}

#[test]
fn package_probe_targets() {
    assert_eq!(pkg_probe_target(PkgProbe::DebianMarker), Some("/etc/debian_version"));
    assert_eq!(pkg_probe_target(PkgProbe::RpmMarker(0)), Some("/etc/fedora-release"));
    assert_eq!(pkg_probe_target(PkgProbe::RpmMarker(4)), Some("/etc/opensuse-release"));
    assert_eq!(pkg_probe_target(PkgProbe::RpmMarker(5)), None);
    assert_eq!(pkg_probe_target(PkgProbe::DpkgOnPath), Some("dpkg"));
    assert_eq!(pkg_probe_target(PkgProbe::RpmOnPath), Some("rpm"));
}

#[test]
fn steps_stop_at_the_first_aborting_failure() {
    let aborting = vec![true, false, true];
    assert_eq!(next_step(&aborting, &vec![]), NextStep::Run(0));
    assert_eq!(next_step(&aborting, &vec![true]), NextStep::Run(1));
    assert_eq!(next_step(&aborting, &vec![true, false]), NextStep::Run(2));
    assert_eq!(next_step(&aborting, &vec![true, false, true]), NextStep::Finished(true));
    assert_eq!(next_step(&aborting, &vec![true, false, false]), NextStep::Finished(false));
    assert_eq!(next_step(&aborting, &vec![false]), NextStep::Finished(false));
    assert_eq!(next_step(&vec![], &vec![]), NextStep::Finished(true));
}

#[test]
fn stopping_and_removing_the_service_never_abort() {
    for os in [Os::Linux, Os::MacOs, Os::Windows] {
        for steps in [stop_service(os), uninstall_service(os)] {
            let aborting: Vec<bool> = steps.iter().map(ServiceStep::aborts_on_failure).collect();
            assert_eq!(next_step(&aborting, &vec![false; aborting.len()]), NextStep::Finished(true));
        }
    }
    assert!(!UninstallStep::RemoveAppImageWrapper.aborts_on_failure());
    assert!(UninstallStep::RemoveInstallDir.aborts_on_failure());
}

#[test]
fn mirror_menu_entries() {
    let m = mirror_menu();
    assert_eq!(m.prompt, "请选择下载源：");
    assert_eq!(m.entries, vec!["Gitee（国内镜像，推荐）", "GitHub（官方源）"]);
    assert_eq!(Mirror::from_menu_index(0), Mirror::Gitee);
    assert_eq!(Mirror::from_menu_index(1), Mirror::GitHub);
    assert_eq!(Mirror::Gitee.display_name(), "Gitee");
    assert_eq!(Mirror::GitHub.display_name(), "GitHub");
}
