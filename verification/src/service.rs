//! The system service that runs the client core, as the steps that install, stop,
//! restart and remove it on each operating system. The steps are carried out in order
//! by the caller; the first failing step whose failure aborts ends the operation.

use vstd::prelude::*;
use crate::detect::{LinuxPkgManager, Os};
use crate::text::texts;

verus! {

/// How a command is run and what its failure means.
#[derive(Debug, Clone, Copy, PartialEq, Eq, Structural)]
pub enum RunMode {
    /// Output shown; failing to start or an unsuccessful exit aborts the operation.
    Checked,
    /// Output shown; the outcome is ignored.
    Unchecked,
    /// Output discarded; the outcome is ignored.
    Silent,
}

/// One step of a service operation.
#[derive(Debug, Clone, PartialEq, Eq)]
pub enum ServiceStep {
    /// Write `contents` to the file `path`; a failure aborts the operation.
    WriteFile { path: String, contents: String },
    /// Remove the file `path`; a failure is ignored.
    RemoveFile { path: String },
    /// Run `program` with `args`.
    Run { program: String, args: Vec<String>, mode: RunMode },
    /// Tell the user `message`.
    Announce { message: String },
}

/// The mathematical value of a [`ServiceStep`].
pub enum StepSpec {
    WriteFile { path: Seq<char>, contents: Seq<char> },
    RemoveFile { path: Seq<char> },
    Run { program: Seq<char>, args: Seq<Seq<char>>, mode: RunMode },
    Announce { message: Seq<char> },
}

impl View for ServiceStep {
    type V = StepSpec;

    open spec fn view(&self) -> StepSpec {
        match self {
            ServiceStep::WriteFile { path, contents } => StepSpec::WriteFile {
                path: path@,
                contents: contents@,
            },
            ServiceStep::RemoveFile { path } => StepSpec::RemoveFile { path: path@ },
            ServiceStep::Run { program, args, mode } => StepSpec::Run {
                program: program@,
                args: texts(args@),
                mode: *mode,
            },
            ServiceStep::Announce { message } => StepSpec::Announce { message: message@ },
        }
    }
}

/// The values of the steps of `v`.
pub open spec fn steps(v: Seq<ServiceStep>) -> Seq<StepSpec> {
    v.map_values(|s: ServiceStep| s@)
}

/// The systemd unit file of the service.
pub open spec fn systemd_unit_path() -> Seq<char> {
    "/etc/systemd/system/msst-net.service"@
}

/// The launchd property list of the service.
pub open spec fn launchd_plist_path() -> Seq<char> {
    "/Library/LaunchDaemons/net.msst.client.plist"@
}

/// The systemd unit that runs the core at `core_path`.
pub open spec fn systemd_unit(core_path: Seq<char>) -> Seq<char> {
    "[Unit]\n\
     Description=MSST-Net Client Core\n\
     After=network.target\n\
     \n\
     [Service]\n\
     Type=simple\n\
     ExecStart="@ + core_path + "\n\
     Restart=always\n\
     RestartSec=5\n\
     \n\
     [Install]\n\
     WantedBy=multi-user.target\n"@
}

/// The launchd property list that runs the core at `core_path`.
pub open spec fn launchd_plist(core_path: Seq<char>) -> Seq<char> {
    "<?xml version=\"1.0\" encoding=\"UTF-8\"?>\n\
     <!DOCTYPE plist PUBLIC \"-//Apple//DTD PLIST 1.0//EN\" \
     \"http://www.apple.com/DTDs/PropertyList-1.0.dtd\">\n\
     <plist version=\"1.0\">\n\
     <dict>\n\
         <key>Label</key>\n\
         <string>net.msst.client</string>\n\
         <key>ProgramArguments</key>\n\
         <array>\n\
             <string>"@ + core_path + "</string>\n\
         </array>\n\
         <key>RunAtLoad</key>\n\
         <true/>\n\
         <key>KeepAlive</key>\n\
         <true/>\n\
     </dict>\n\
     </plist>\n"@
}

/// The step that runs `program` with `args` in `mode`.
pub open spec fn run(program: Seq<char>, args: Seq<Seq<char>>, mode: RunMode) -> StepSpec {
    StepSpec::Run { program, args, mode }
}

/// The step that tells the user `message`.
pub open spec fn announce(message: Seq<char>) -> StepSpec {
    StepSpec::Announce { message }
}

/// The steps that register and start the service running the core at `core_path`.
pub open spec fn install_service_plan(os: Os, core_path: Seq<char>) -> Seq<StepSpec> {
    match os {
        Os::Linux => seq![
            StepSpec::WriteFile { path: systemd_unit_path(), contents: systemd_unit(core_path) },
            run("systemctl"@, seq!["daemon-reload"@], RunMode::Checked),
            run("systemctl"@, seq!["enable"@, "msst-net"@], RunMode::Checked),
            run("systemctl"@, seq!["start"@, "msst-net"@], RunMode::Checked),
            announce("Systemd 服务 'msst-net' 已启用并启动。"@),
        ],
        Os::MacOs => seq![
            StepSpec::WriteFile { path: launchd_plist_path(), contents: launchd_plist(core_path) },
            run("launchctl"@, seq!["load"@, "-w"@, launchd_plist_path()], RunMode::Checked),
            announce("LaunchDaemon 'net.msst.client' 已加载。"@),
        ],
        Os::Windows => seq![
            run("sc"@, seq!["stop"@, "msst-net"@], RunMode::Silent),
            run("sc"@, seq!["delete"@, "msst-net"@], RunMode::Silent),
            run(
                "sc"@,
                seq![
                    "create"@,
                    "msst-net"@,
                    "binPath= \""@ + core_path + "\""@,
                    "start= auto"@,
                    "DisplayName= MSST-Net Client"@,
                ],
                RunMode::Checked,
            ),
            run(
                "sc"@,
                seq!["description"@, "msst-net"@, "MSST-Net Client Core Network Service"@],
                RunMode::Checked,
            ),
            run("sc"@, seq!["start"@, "msst-net"@], RunMode::Checked),
            announce("Windows 服务 'msst-net' 已创建并启动。"@),
        ],
    }
}

/// The steps that stop the service.
pub open spec fn stop_service_plan(os: Os) -> Seq<StepSpec> {
    match os {
        Os::Linux => seq![run("systemctl"@, seq!["stop"@, "msst-net"@], RunMode::Unchecked)],
        Os::MacOs => seq![
            run("launchctl"@, seq!["unload"@, launchd_plist_path()], RunMode::Unchecked),
        ],
        Os::Windows => seq![run("sc"@, seq!["stop"@, "msst-net"@], RunMode::Silent)],
    }
}

/// The steps that restart the service.
pub open spec fn restart_service_plan(os: Os) -> Seq<StepSpec> {
    match os {
        Os::Linux => seq![
            run("systemctl"@, seq!["restart"@, "msst-net"@], RunMode::Checked),
            announce("Systemd 服务 'msst-net' 已重启。"@),
        ],
        Os::MacOs => seq![
            run("launchctl"@, seq!["unload"@, launchd_plist_path()], RunMode::Unchecked),
            run("launchctl"@, seq!["load"@, "-w"@, launchd_plist_path()], RunMode::Checked),
            announce("LaunchDaemon 'net.msst.client' 已重新加载。"@),
        ],
        Os::Windows => seq![
            run("sc"@, seq!["start"@, "msst-net"@], RunMode::Checked),
            announce("Windows 服务 'msst-net' 已启动。"@),
        ],
    }
}

/// The steps that stop the service and remove its registration.
pub open spec fn uninstall_service_plan(os: Os) -> Seq<StepSpec> {
    match os {
        Os::Linux => seq![
            run("systemctl"@, seq!["stop"@, "msst-net"@], RunMode::Unchecked),
            run("systemctl"@, seq!["disable"@, "msst-net"@], RunMode::Unchecked),
            StepSpec::RemoveFile { path: systemd_unit_path() },
            run("systemctl"@, seq!["daemon-reload"@], RunMode::Unchecked),
            announce("Systemd 服务 'msst-net' 已移除。"@),
        ],
        Os::MacOs => seq![
            run("launchctl"@, seq!["unload"@, launchd_plist_path()], RunMode::Unchecked),
            StepSpec::RemoveFile { path: launchd_plist_path() },
            announce("LaunchDaemon 'net.msst.client' 已移除。"@),
        ],
        Os::Windows => seq![
            run("sc"@, seq!["stop"@, "msst-net"@], RunMode::Silent),
            run("sc"@, seq!["delete"@, "msst-net"@], RunMode::Silent),
            announce("Windows 服务 'msst-net' 已移除。"@),
        ],
    }
}

fn run1(program: &str, a: &str, mode: RunMode) -> (r: ServiceStep)
    ensures
        r@ == run(program@, seq![a@], mode),
{
    let args = vec![String::from_str(a)];
    assert(texts(args@) =~= seq![a@]);
    ServiceStep::Run { program: String::from_str(program), args, mode }
}

fn run2(program: &str, a: &str, b: &str, mode: RunMode) -> (r: ServiceStep)
    ensures
        r@ == run(program@, seq![a@, b@], mode),
{
    let args = vec![String::from_str(a), String::from_str(b)];
    assert(texts(args@) =~= seq![a@, b@]);
    ServiceStep::Run { program: String::from_str(program), args, mode }
}

fn run3(program: &str, a: &str, b: &str, c: &str, mode: RunMode) -> (r: ServiceStep)
    ensures
        r@ == run(program@, seq![a@, b@, c@], mode),
{
    let args = vec![String::from_str(a), String::from_str(b), String::from_str(c)];
    assert(texts(args@) =~= seq![a@, b@, c@]);
    ServiceStep::Run { program: String::from_str(program), args, mode }
}

fn run5(program: &str, a: &str, b: &str, c: &str, d: &str, e: &str, mode: RunMode) -> (r:
    ServiceStep)
    ensures
        r@ == run(program@, seq![a@, b@, c@, d@, e@], mode),
{
    let args = vec![
        String::from_str(a),
        String::from_str(b),
        String::from_str(c),
        String::from_str(d),
        String::from_str(e),
    ];
    assert(texts(args@) =~= seq![a@, b@, c@, d@, e@]);
    ServiceStep::Run { program: String::from_str(program), args, mode }
}

fn announce_step(message: &str) -> (r: ServiceStep)
    ensures
        r@ == announce(message@),
{
    ServiceStep::Announce { message: String::from_str(message) }
}

/// The systemd unit that runs the core at `core_path`.
fn systemd_unit_text(core_path: &str) -> (r: String)
    ensures
        r@ == systemd_unit(core_path@),
{
    String::from_str(
        "[Unit]\n\
         Description=MSST-Net Client Core\n\
         After=network.target\n\
         \n\
         [Service]\n\
         Type=simple\n\
         ExecStart=",
    ).concat(core_path).concat(
        "\n\
         Restart=always\n\
         RestartSec=5\n\
         \n\
         [Install]\n\
         WantedBy=multi-user.target\n",
    )
}

/// The launchd property list that runs the core at `core_path`.
fn launchd_plist_text(core_path: &str) -> (r: String)
    ensures
        r@ == launchd_plist(core_path@),
{
    String::from_str(
        "<?xml version=\"1.0\" encoding=\"UTF-8\"?>\n\
         <!DOCTYPE plist PUBLIC \"-//Apple//DTD PLIST 1.0//EN\" \
         \"http://www.apple.com/DTDs/PropertyList-1.0.dtd\">\n\
         <plist version=\"1.0\">\n\
         <dict>\n\
             <key>Label</key>\n\
             <string>net.msst.client</string>\n\
             <key>ProgramArguments</key>\n\
             <array>\n\
                 <string>",
    ).concat(core_path).concat(
        "</string>\n\
             </array>\n\
             <key>RunAtLoad</key>\n\
             <true/>\n\
             <key>KeepAlive</key>\n\
             <true/>\n\
         </dict>\n\
         </plist>\n",
    )
}

/// The steps that register and start the service running the core at `core_path`.
pub fn install_service(os: Os, core_path: &str) -> (r: Vec<ServiceStep>)
    ensures
        steps(r@) == install_service_plan(os, core_path@),
{
    match os {
        Os::Linux => {
            let r = vec![
                ServiceStep::WriteFile {
                    path: String::from_str("/etc/systemd/system/msst-net.service"),
                    contents: systemd_unit_text(core_path),
                },
                run1("systemctl", "daemon-reload", RunMode::Checked),
                run2("systemctl", "enable", "msst-net", RunMode::Checked),
                run2("systemctl", "start", "msst-net", RunMode::Checked),
                announce_step("Systemd 服务 'msst-net' 已启用并启动。"),
            ];
            assert(steps(r@) =~= install_service_plan(os, core_path@));
            r
        },
        Os::MacOs => {
            let r = vec![
                ServiceStep::WriteFile {
                    path: String::from_str("/Library/LaunchDaemons/net.msst.client.plist"),
                    contents: launchd_plist_text(core_path),
                },
                run3("launchctl", "load", "-w", "/Library/LaunchDaemons/net.msst.client.plist", RunMode::Checked),
                announce_step("LaunchDaemon 'net.msst.client' 已加载。"),
            ];
            assert(steps(r@) =~= install_service_plan(os, core_path@));
            r
        },
        Os::Windows => {
            let bin_path_arg = String::from_str("binPath= \"").concat(core_path).concat("\"");
            let r = vec![
                run2("sc", "stop", "msst-net", RunMode::Silent),
                run2("sc", "delete", "msst-net", RunMode::Silent),
                run5("sc", "create", "msst-net", bin_path_arg.as_str(), "start= auto", "DisplayName= MSST-Net Client", RunMode::Checked),
                run3("sc", "description", "msst-net", "MSST-Net Client Core Network Service", RunMode::Checked),
                run2("sc", "start", "msst-net", RunMode::Checked),
                announce_step("Windows 服务 'msst-net' 已创建并启动。"),
            ];
            assert(steps(r@) =~= install_service_plan(os, core_path@));
            r
        },
    }
}

/// The steps that stop the service.
pub fn stop_service(os: Os) -> (r: Vec<ServiceStep>)
    ensures
        steps(r@) == stop_service_plan(os),
{
    let r = match os {
        Os::Linux => vec![run2("systemctl", "stop", "msst-net", RunMode::Unchecked)],
        Os::MacOs => vec![
            run2(
                "launchctl",
                "unload",
                "/Library/LaunchDaemons/net.msst.client.plist",
                RunMode::Unchecked,
            ),
        ],
        Os::Windows => vec![run2("sc", "stop", "msst-net", RunMode::Silent)],
    };
    assert(steps(r@) =~= stop_service_plan(os));
    r
}

/// The steps that restart the service.
pub fn restart_service(os: Os) -> (r: Vec<ServiceStep>)
    ensures
        steps(r@) == restart_service_plan(os),
{
    let r = match os {
        Os::Linux => vec![
            run2("systemctl", "restart", "msst-net", RunMode::Checked),
            announce_step("Systemd 服务 'msst-net' 已重启。"),
        ],
        Os::MacOs => vec![
            run2(
                "launchctl",
                "unload",
                "/Library/LaunchDaemons/net.msst.client.plist",
                RunMode::Unchecked,
            ),
            run3(
                "launchctl",
                "load",
                "-w",
                "/Library/LaunchDaemons/net.msst.client.plist",
                RunMode::Checked,
            ),
            announce_step("LaunchDaemon 'net.msst.client' 已重新加载。"),
        ],
        Os::Windows => vec![
            run2("sc", "start", "msst-net", RunMode::Checked),
            announce_step("Windows 服务 'msst-net' 已启动。"),
        ],
    };
    assert(steps(r@) =~= restart_service_plan(os));
    r
}

/// The steps that stop the service and remove its registration.
pub fn uninstall_service(os: Os) -> (r: Vec<ServiceStep>)
    ensures
        steps(r@) == uninstall_service_plan(os),
{
    let r = match os {
        Os::Linux => vec![
            run2("systemctl", "stop", "msst-net", RunMode::Unchecked),
            run2("systemctl", "disable", "msst-net", RunMode::Unchecked),
            ServiceStep::RemoveFile {
                path: String::from_str("/etc/systemd/system/msst-net.service"),
            },
            run1("systemctl", "daemon-reload", RunMode::Unchecked),
            announce_step("Systemd 服务 'msst-net' 已移除。"),
        ],
        Os::MacOs => vec![
            run2(
                "launchctl",
                "unload",
                "/Library/LaunchDaemons/net.msst.client.plist",
                RunMode::Unchecked,
            ),
            ServiceStep::RemoveFile {
                path: String::from_str("/Library/LaunchDaemons/net.msst.client.plist"),
            },
            announce_step("LaunchDaemon 'net.msst.client' 已移除。"),
        ],
        Os::Windows => vec![
            run2("sc", "stop", "msst-net", RunMode::Silent),
            run2("sc", "delete", "msst-net", RunMode::Silent),
            announce_step("Windows 服务 'msst-net' 已移除。"),
        ],
    };
    assert(steps(r@) =~= uninstall_service_plan(os));
    r
}

/// Whether a failure of `step` ends the operation it belongs to.
pub open spec fn aborts_on_failure(step: StepSpec) -> bool {
    match step {
        StepSpec::WriteFile { .. } => true,
        StepSpec::Run { mode, .. } => mode == RunMode::Checked,
        _ => false,
    }
}

impl ServiceStep {
    /// Whether a failure of this step ends the operation.
    pub fn aborts_on_failure(&self) -> (r: bool)
        ensures
            r == aborts_on_failure(self@),
    {
        match self {
            ServiceStep::WriteFile { .. } => true,
            ServiceStep::Run { mode, .. } => *mode == RunMode::Checked,
            _ => false,
        }
    }
}

/// Stopping the service and removing it never fail: no step of either aborts.
pub proof fn lemma_stop_and_uninstall_never_abort(os: Os)
    ensures
        forall|i: int|
            0 <= i < stop_service_plan(os).len() ==> !aborts_on_failure(
                #[trigger] stop_service_plan(os)[i],
            ),
        forall|i: int|
            0 <= i < uninstall_service_plan(os).len() ==> !aborts_on_failure(
                #[trigger] uninstall_service_plan(os)[i],
            ),
{
}

/// Removing the service deletes every file that installing it wrote.
pub proof fn lemma_uninstall_removes_written_files(os: Os, core_path: Seq<char>, i: int)
    requires
        0 <= i < install_service_plan(os, core_path).len(),
        install_service_plan(os, core_path)[i] is WriteFile,
    ensures
        exists|j: int|
            0 <= j < uninstall_service_plan(os).len() && #[trigger] uninstall_service_plan(os)[j]
                == (StepSpec::RemoveFile { path: install_service_plan(os, core_path)[i]->WriteFile_path }),
{
    match os {
        Os::Linux => {
            assert(uninstall_service_plan(os)[2] == (StepSpec::RemoveFile {
                path: install_service_plan(os, core_path)[i]->WriteFile_path,
            }));
        },
        Os::MacOs => {
            assert(uninstall_service_plan(os)[1] == (StepSpec::RemoveFile {
                path: install_service_plan(os, core_path)[i]->WriteFile_path,
            }));
        },
        Os::Windows => {},
    }
}

/// The steps that install the downloaded native package at `package_path` with the
/// package tool of `pkg_mgr`; there are none without a package manager. The commands
/// (`dpkg -i`, `rpm -U --replacepkgs`) are this library's choice: the low-level tools,
/// which install the file as it is, and replace an installed copy of the same version.
pub open spec fn native_package_plan(pkg_mgr: LinuxPkgManager, package_path: Seq<char>) -> Seq<
    StepSpec,
> {
    match pkg_mgr {
        LinuxPkgManager::Deb => seq![run("dpkg"@, seq!["-i"@, package_path], RunMode::Checked)],
        LinuxPkgManager::Rpm => seq![
            run("rpm"@, seq!["-U"@, "--replacepkgs"@, package_path], RunMode::Checked),
        ],
        LinuxPkgManager::Other => seq![],
    }
}

pub fn native_package_steps(pkg_mgr: LinuxPkgManager, package_path: &str) -> (r: Vec<
    ServiceStep,
>)
    ensures
        steps(r@) == native_package_plan(pkg_mgr, package_path@),
{
    let r = match pkg_mgr {
        LinuxPkgManager::Deb => vec![run2("dpkg", "-i", package_path, RunMode::Checked)],
        LinuxPkgManager::Rpm => vec![
            run3("rpm", "-U", "--replacepkgs", package_path, RunMode::Checked),
        ],
        LinuxPkgManager::Other => vec![],
    };
    assert(steps(r@) =~= native_package_plan(pkg_mgr, package_path@));
    r
}

/// The launcher that starts the desktop controller's AppImage. Its place, and the
/// settings in `appimage_wrapper_script`, are this library's choice.
pub open spec fn appimage_wrapper_path() -> Seq<char> {
    "/usr/local/bin/msst-net-client"@
}

/// The launcher script for the AppImage at `appimage_path`: it turns off the WebKit
/// DMA-BUF renderer and compositing, which fail under some EGL and Wayland setups.
pub open spec fn appimage_wrapper_script(appimage_path: Seq<char>) -> Seq<char> {
    "#!/bin/sh\n\
     export WEBKIT_DISABLE_DMABUF_RENDERER=1\n\
     export WEBKIT_DISABLE_COMPOSITING_MODE=1\n\
     exec \""@ + appimage_path + "\" \"$@\"\n"@
}

/// The steps that put the launcher for the AppImage at `appimage_path` in place.
pub open spec fn appimage_wrapper_plan(appimage_path: Seq<char>) -> Seq<StepSpec> {
    seq![
        StepSpec::WriteFile {
            path: appimage_wrapper_path(),
            contents: appimage_wrapper_script(appimage_path),
        },
        run("chmod"@, seq!["755"@, appimage_wrapper_path()], RunMode::Checked),
    ]
}

/// The steps that remove the launcher.
pub open spec fn remove_appimage_wrapper_plan() -> Seq<StepSpec> {
    seq![StepSpec::RemoveFile { path: appimage_wrapper_path() }]
}

pub fn appimage_wrapper_steps(appimage_path: &str) -> (r: Vec<ServiceStep>)
    ensures
        steps(r@) == appimage_wrapper_plan(appimage_path@),
{
    let script = String::from_str(
        "#!/bin/sh\n\
         export WEBKIT_DISABLE_DMABUF_RENDERER=1\n\
         export WEBKIT_DISABLE_COMPOSITING_MODE=1\n\
         exec \"",
    ).concat(appimage_path).concat("\" \"$@\"\n");
    let r = vec![
        ServiceStep::WriteFile {
            path: String::from_str("/usr/local/bin/msst-net-client"),
            contents: script,
        },
        run2("chmod", "755", "/usr/local/bin/msst-net-client", RunMode::Checked),
    ];
    assert(steps(r@) =~= appimage_wrapper_plan(appimage_path@));
    r
}

pub fn remove_appimage_wrapper_steps() -> (r: Vec<ServiceStep>)
    ensures
        steps(r@) == remove_appimage_wrapper_plan(),
{
    let r = vec![
        ServiceStep::RemoveFile { path: String::from_str("/usr/local/bin/msst-net-client") },
    ];
    assert(steps(r@) =~= remove_appimage_wrapper_plan());
    r
}

/// Removing the launcher deletes the file that putting it in place wrote, and never
/// aborts.
pub proof fn lemma_wrapper_removal_undoes_creation(appimage_path: Seq<char>)
    ensures
        appimage_wrapper_plan(appimage_path)[0] is WriteFile,
        remove_appimage_wrapper_plan() == seq![
            StepSpec::RemoveFile {
                path: appimage_wrapper_plan(appimage_path)[0]->WriteFile_path,
            },
        ],
        !aborts_on_failure(remove_appimage_wrapper_plan()[0]),
{
}

/// Which failures end a service operation: writing a file, and a command run checked;
/// a command run unchecked or silently, removing a file and a message never do.
pub proof fn lemma_service_abort_rules(
    program: Seq<char>,
    args: Seq<Seq<char>>,
    mode: RunMode,
    path: Seq<char>,
    contents: Seq<char>,
    message: Seq<char>,
)
    ensures
        aborts_on_failure(StepSpec::Run { program, args, mode }) <==> mode == RunMode::Checked,
        aborts_on_failure(StepSpec::WriteFile { path, contents }),
        !aborts_on_failure(StepSpec::RemoveFile { path }),
        !aborts_on_failure(StepSpec::Announce { message }),
{
}

/// Installing the service stops at the first failed command that registers or starts
/// it: on Linux and macOS every command of the installation aborts on failure, and on
/// Windows every one after the two silent clean-up commands does.
pub proof fn lemma_install_commands_abort(os: Os, core_path: Seq<char>)
    ensures
        forall|i: int|
            0 <= i < install_service_plan(os, core_path).len() && (#[trigger] install_service_plan(
                os,
                core_path,
            )[i]) is Run && (os != Os::Windows || i >= 2) ==> aborts_on_failure(
                install_service_plan(os, core_path)[i],
            ),
        os == Os::Linux ==> install_service_plan(os, core_path)[3] == run(
            "systemctl"@,
            seq!["start"@, "msst-net"@],
            RunMode::Checked,
        ) && aborts_on_failure(install_service_plan(os, core_path)[3]),
{
}

} // verus!
