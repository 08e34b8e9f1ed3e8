//! The order of the work that installs, updates or removes the client. The caller
//! carries the steps out in order; the first step that fails ends the operation and
//! nothing done before it is undone.

use vstd::prelude::*;
use crate::detect::{LinuxPkgManager, Os};
use crate::install::ControllerType;
use crate::plan::{tries_native, ReleasePlan, SelectedAssets};
use crate::service::{
    aborts_on_failure, lemma_stop_and_uninstall_never_abort, stop_service_plan, uninstall_service_plan,
    StepSpec,
};

verus! {

/// One step of installing or updating the client from a release.
#[derive(Debug, Clone, PartialEq, Eq)]
pub enum DeployStep {
    /// Stop the running service.
    StopService,
    /// Download release asset `asset` into the installation directory as `file_name`
    /// and make it executable.
    DownloadCore { asset: usize, file_name: String },
    /// Download release asset `asset` into the installation directory as `file_name`
    /// and make it executable.
    DownloadController { asset: usize, file_name: String },
    /// Download release asset `asset` into the temporary directory as `file_name`,
    /// install it with the package tool of `pkg_mgr`, then delete the download.
    InstallNativePackage { asset: usize, file_name: String, pkg_mgr: LinuxPkgManager },
    /// Put the launcher in place for the AppImage `file_name` of the installation directory.
    CreateAppImageWrapper { file_name: String },
    /// Install the Wintun driver into the installation directory.
    InstallWintun,
    /// Register and start the service.
    InstallService,
    /// Restart the service.
    RestartService,
}

/// The mathematical value of a [`DeployStep`].
pub enum DeployStepSpec {
    StopService,
    DownloadCore { asset: usize, file_name: Seq<char> },
    DownloadController { asset: usize, file_name: Seq<char> },
    InstallNativePackage { asset: usize, file_name: Seq<char>, pkg_mgr: LinuxPkgManager },
    CreateAppImageWrapper { file_name: Seq<char> },
    InstallWintun,
    InstallService,
    RestartService,
}

impl View for DeployStep {
    type V = DeployStepSpec;

    open spec fn view(&self) -> DeployStepSpec {
        match self {
            DeployStep::StopService => DeployStepSpec::StopService,
            DeployStep::DownloadCore { asset, file_name } => DeployStepSpec::DownloadCore {
                asset: *asset,
                file_name: file_name@,
            },
            DeployStep::DownloadController { asset, file_name } =>
                DeployStepSpec::DownloadController { asset: *asset, file_name: file_name@ },
            DeployStep::InstallNativePackage { asset, file_name, pkg_mgr } =>
                DeployStepSpec::InstallNativePackage {
                asset: *asset,
                file_name: file_name@,
                pkg_mgr: *pkg_mgr,
            },
            DeployStep::CreateAppImageWrapper { file_name } =>
                DeployStepSpec::CreateAppImageWrapper { file_name: file_name@ },
            DeployStep::InstallWintun => DeployStepSpec::InstallWintun,
            DeployStep::InstallService => DeployStepSpec::InstallService,
            DeployStep::RestartService => DeployStepSpec::RestartService,
        }
    }
}

/// The values of the steps of `v`.
pub open spec fn deploy_steps(v: Seq<DeployStep>) -> Seq<DeployStepSpec> {
    v.map_values(|s: DeployStep| s@)
}

/// Whether the desktop controller's AppImage gets a launcher: on Linux, where no
/// native package is installed in its place.
pub open spec fn needs_appimage_wrapper(
    os: Os,
    controller_type: ControllerType,
    use_native_pkg: bool,
) -> bool {
    os == Os::Linux && controller_type == ControllerType::Tauri && !use_native_pkg
}

/// The steps for the controller of `plan`, found at `asset`.
pub open spec fn controller_plan(
    os: Os,
    controller_type: ControllerType,
    pkg_mgr: LinuxPkgManager,
    plan: ReleasePlan,
    asset: usize,
) -> Seq<DeployStepSpec> {
    if plan.controller.use_native_pkg {
        seq![
            DeployStepSpec::InstallNativePackage {
                asset,
                file_name: plan.controller.name@,
                pkg_mgr,
            },
        ]
    } else if needs_appimage_wrapper(os, controller_type, false) {
        seq![
            DeployStepSpec::DownloadController { asset, file_name: plan.controller.name@ },
            DeployStepSpec::CreateAppImageWrapper { file_name: plan.controller.name@ },
        ]
    } else {
        seq![DeployStepSpec::DownloadController { asset, file_name: plan.controller.name@ }]
    }
}

/// The steps that install (or, when `updating`, update) the client from the release
/// assets `selected` of `plan`: an update stops the service first and restarts it
/// last, an installation registers the service last; in between come the core, the
/// controller and, where the plan asks for it, the Wintun driver.
pub open spec fn deploy_plan(
    updating: bool,
    os: Os,
    controller_type: ControllerType,
    pkg_mgr: LinuxPkgManager,
    plan: ReleasePlan,
    selected: SelectedAssets,
) -> Seq<DeployStepSpec> {
    let head: Seq<DeployStepSpec> = if updating {
        seq![DeployStepSpec::StopService]
    } else {
        seq![]
    };
    let core = seq![DeployStepSpec::DownloadCore { asset: selected.core, file_name: plan.core_name@ }];
    let wintun: Seq<DeployStepSpec> = if plan.install_wintun {
        seq![DeployStepSpec::InstallWintun]
    } else {
        seq![]
    };
    let tail = if updating {
        seq![DeployStepSpec::RestartService]
    } else {
        seq![DeployStepSpec::InstallService]
    };
    head + core + controller_plan(os, controller_type, pkg_mgr, plan, selected.controller)
        + wintun + tail
}

pub fn deployment_steps(
    updating: bool,
    os: Os,
    controller_type: ControllerType,
    pkg_mgr: LinuxPkgManager,
    plan: &ReleasePlan,
    selected: SelectedAssets,
) -> (r: Vec<DeployStep>)
    ensures
        deploy_steps(r@) == deploy_plan(updating, os, controller_type, pkg_mgr, *plan, selected),
{
    let mut r: Vec<DeployStep> = Vec::new();
    if updating {
        r.push(DeployStep::StopService);
    }
    r.push(DeployStep::DownloadCore { asset: selected.core, file_name: plan.core_name.clone() });
    let name = &plan.controller.name;
    if plan.controller.use_native_pkg {
        r.push(
            DeployStep::InstallNativePackage {
                asset: selected.controller,
                file_name: name.clone(),
                pkg_mgr,
            },
        );
    } else {
        r.push(DeployStep::DownloadController { asset: selected.controller, file_name: name.clone() });
        if os == Os::Linux && controller_type == ControllerType::Tauri {
            r.push(DeployStep::CreateAppImageWrapper { file_name: name.clone() });
        }
    }
    if plan.install_wintun {
        r.push(DeployStep::InstallWintun);
    }
    if updating {
        r.push(DeployStep::RestartService);
    } else {
        r.push(DeployStep::InstallService);
    }
    assert(deploy_steps(r@) =~= deploy_plan(updating, os, controller_type, pkg_mgr, *plan, selected));
    r
}

/// One step of removing the client.
#[derive(Debug, Clone, Copy, PartialEq, Eq, Structural)]
pub enum UninstallStep {
    /// Stop the service and remove its registration.
    UninstallService,
    /// Remove the desktop controller's launcher.
    RemoveAppImageWrapper,
    /// Delete the installation directory, where it exists.
    RemoveInstallDir,
}

/// The steps that remove the client from `os`.
pub open spec fn uninstall_plan(os: Os) -> Seq<UninstallStep> {
    if os == Os::Linux {
        seq![
            UninstallStep::UninstallService,
            UninstallStep::RemoveAppImageWrapper,
            UninstallStep::RemoveInstallDir,
        ]
    } else {
        seq![UninstallStep::UninstallService, UninstallStep::RemoveInstallDir]
    }
}

pub fn uninstall_steps(os: Os) -> (r: Vec<UninstallStep>)
    ensures
        r@ == uninstall_plan(os),
{
    let r = if os == Os::Linux {
        vec![
            UninstallStep::UninstallService,
            UninstallStep::RemoveAppImageWrapper,
            UninstallStep::RemoveInstallDir,
        ]
    } else {
        vec![UninstallStep::UninstallService, UninstallStep::RemoveInstallDir]
    };
    assert(r@ =~= uninstall_plan(os));
    r
}

impl DeployStep {
    /// Every deployment step ends the operation when it fails.
    pub fn aborts_on_failure(&self) -> (r: bool)
        ensures
            r,
    {
        true
    }
}

impl UninstallStep {
    /// Whether a failure of this step ends the removal: all but removing the launcher,
    /// whose failure is ignored.
    pub fn aborts_on_failure(&self) -> (r: bool)
        ensures
            r == (*self != UninstallStep::RemoveAppImageWrapper),
    {
        match self {
            UninstallStep::RemoveAppImageWrapper => false,
            _ => true,
        }
    }
}

/// What to do next while carrying out a list of steps.
#[derive(Debug, Clone, Copy, PartialEq, Eq, Structural)]
pub enum NextStep {
    /// Carry out the step at this position and report whether it succeeded.
    Run(usize),
    /// The operation is over: it succeeded, or a step whose failure aborts failed.
    Finished(bool),
}

/// The next move from position `k` over steps whose failures abort as `aborting`
/// says, given the outcomes of the steps carried out so far.
pub open spec fn step_after(aborting: Seq<bool>, outcomes: Seq<bool>, k: int) -> NextStep
    decreases outcomes.len() - k,
{
    if k >= outcomes.len() {
        if outcomes.len() < aborting.len() {
            NextStep::Run(outcomes.len() as usize)
        } else {
            NextStep::Finished(true)
        }
    } else if !outcomes[k] && aborting[k] {
        NextStep::Finished(false)
    } else {
        step_after(aborting, outcomes, k + 1)
    }
}

/// The next move over steps whose failures abort as `aborting` says, given the
/// outcomes of the steps carried out so far, in order: the steps run strictly in turn,
/// the first failure of an aborting step ends the operation with nothing undone, and
/// failures of the other steps are passed over.
pub open spec fn next_step_after(aborting: Seq<bool>, outcomes: Seq<bool>) -> NextStep {
    step_after(aborting, outcomes, 0)
}

pub fn next_step(aborting: &Vec<bool>, outcomes: &Vec<bool>) -> (r: NextStep)
    requires
        outcomes@.len() <= aborting@.len(),
    ensures
        r == next_step_after(aborting@, outcomes@),
{
    let mut k: usize = 0;
    while k < outcomes.len()
        invariant
            k <= outcomes@.len(),
            outcomes@.len() <= aborting@.len(),
            step_after(aborting@, outcomes@, k as int) == next_step_after(aborting@, outcomes@),
        decreases outcomes@.len() - k,
    {
        if !outcomes[k] && aborting[k] {
            return NextStep::Finished(false);
        }
        k = k + 1;
    }
    if outcomes.len() < aborting.len() {
        NextStep::Run(outcomes.len())
    } else {
        NextStep::Finished(true)
    }
}

/// Carrying out steps: the next one run is always the one after those already run,
/// and only while no aborting step has failed; the operation succeeds exactly when
/// every step ran and no aborting step failed, and fails exactly when one did.
pub proof fn lemma_steps_run_in_turn(aborting: Seq<bool>, outcomes: Seq<bool>)
    requires
        outcomes.len() <= aborting.len(),
    ensures
        next_step_after(aborting, outcomes) is Run ==> {
            &&& next_step_after(aborting, outcomes) == NextStep::Run(outcomes.len() as usize)
            &&& outcomes.len() < aborting.len()
            &&& forall|j: int| 0 <= j < outcomes.len() ==> outcomes[j] || !aborting[j]
        },
        next_step_after(aborting, outcomes) == NextStep::Finished(true) <==> {
            &&& outcomes.len() == aborting.len()
            &&& forall|j: int| 0 <= j < outcomes.len() ==> outcomes[j] || !aborting[j]
        },
        next_step_after(aborting, outcomes) == NextStep::Finished(false) <==> exists|j: int|
            0 <= j < outcomes.len() && !outcomes[j] && aborting[j],
{
    lemma_step_after(aborting, outcomes, 0);
}

proof fn lemma_step_after(aborting: Seq<bool>, outcomes: Seq<bool>, k: int)
    requires
        0 <= k <= outcomes.len(),
        outcomes.len() <= aborting.len(),
        forall|j: int| 0 <= j < k ==> outcomes[j] || !aborting[j],
    ensures
        step_after(aborting, outcomes, k) is Run ==> {
            &&& step_after(aborting, outcomes, k) == NextStep::Run(outcomes.len() as usize)
            &&& outcomes.len() < aborting.len()
            &&& forall|j: int| 0 <= j < outcomes.len() ==> outcomes[j] || !aborting[j]
        },
        step_after(aborting, outcomes, k) == NextStep::Finished(true) <==> {
            &&& outcomes.len() == aborting.len()
            &&& forall|j: int| 0 <= j < outcomes.len() ==> outcomes[j] || !aborting[j]
        },
        step_after(aborting, outcomes, k) == NextStep::Finished(false) <==> exists|j: int|
            0 <= j < outcomes.len() && !outcomes[j] && aborting[j],
    decreases outcomes.len() - k,
{
    if k < outcomes.len() {
        if !outcomes[k] && aborting[k] {
        } else {
            lemma_step_after(aborting, outcomes, k + 1);
        }
    }
}

/// After any step of an update fails, the service is not restarted: every step aborts,
/// so the restart, the last step, never runs once an earlier step has failed.
pub proof fn lemma_failed_update_leaves_service_stopped(
    os: Os,
    controller_type: ControllerType,
    pkg_mgr: LinuxPkgManager,
    plan: ReleasePlan,
    selected: SelectedAssets,
    outcomes: Seq<bool>,
    failed: int,
)
    requires
        outcomes.len() <= deploy_plan(true, os, controller_type, pkg_mgr, plan, selected).len(),
        0 <= failed < outcomes.len(),
        !outcomes[failed],
    ensures
        next_step_after(
            Seq::new(
                deploy_plan(true, os, controller_type, pkg_mgr, plan, selected).len(),
                |i: int| true,
            ),
            outcomes,
        ) == NextStep::Finished(false),
{
    let aborting = Seq::new(
        deploy_plan(true, os, controller_type, pkg_mgr, plan, selected).len(),
        |i: int| true,
    );
    lemma_steps_run_in_turn(aborting, outcomes);
    assert(!outcomes[failed] && aborting[failed]);
}

/// Stopping the service and removing it never end in failure, whatever their commands
/// report, since none of their steps aborts.
pub proof fn lemma_stop_and_uninstall_always_succeed(os: Os, outcomes: Seq<bool>)
    ensures
        outcomes.len() <= stop_service_plan(os).len() ==> next_step_after(
            stop_service_plan(os).map_values(|s: StepSpec| aborts_on_failure(s)),
            outcomes,
        ) != NextStep::Finished(false),
        outcomes.len() <= uninstall_service_plan(os).len() ==> next_step_after(
            uninstall_service_plan(os).map_values(|s: StepSpec| aborts_on_failure(s)),
            outcomes,
        ) != NextStep::Finished(false),
{
    lemma_stop_and_uninstall_never_abort(os);
    let a = stop_service_plan(os).map_values(|s: StepSpec| aborts_on_failure(s));
    let b = uninstall_service_plan(os).map_values(|s: StepSpec| aborts_on_failure(s));
    if outcomes.len() <= a.len() {
        lemma_steps_run_in_turn(a, outcomes);
        assert forall|j: int| 0 <= j < outcomes.len() implies !a[j] by {
            assert(!aborts_on_failure(stop_service_plan(os)[j]));
        }
    }
    if outcomes.len() <= b.len() {
        lemma_steps_run_in_turn(b, outcomes);
        assert forall|j: int| 0 <= j < outcomes.len() implies !b[j] by {
            assert(!aborts_on_failure(uninstall_service_plan(os)[j]));
        }
    }
}

/// An update stops the service before any other step and restarts it as the very last
/// one, and never registers it anew; an installation never stops or restarts the
/// service and registers it as its last step.
pub proof fn lemma_service_brackets_the_work(
    updating: bool,
    os: Os,
    controller_type: ControllerType,
    pkg_mgr: LinuxPkgManager,
    plan: ReleasePlan,
    selected: SelectedAssets,
)
    ensures
        ({
            let steps = deploy_plan(updating, os, controller_type, pkg_mgr, plan, selected);
            &&& steps.len() >= 2
            &&& updating ==> {
                &&& steps[0] is StopService
                &&& steps.last() is RestartService
                &&& forall|i: int| 0 < i < steps.len() ==> !(#[trigger] steps[i] is StopService)
                &&& forall|i: int|
                    0 <= i < steps.len() - 1 ==> !(#[trigger] steps[i] is RestartService)
                &&& forall|i: int| 0 <= i < steps.len() ==> !(#[trigger] steps[i] is InstallService)
            }
            &&& !updating ==> {
                &&& steps.last() is InstallService
                &&& forall|i: int|
                    0 <= i < steps.len() ==> !(#[trigger] steps[i] is StopService)
                        && !(steps[i] is RestartService)
                &&& forall|i: int|
                    0 <= i < steps.len() - 1 ==> !(#[trigger] steps[i] is InstallService)
            }
        }),
{
    let steps = deploy_plan(updating, os, controller_type, pkg_mgr, plan, selected);
    let ctl = controller_plan(os, controller_type, pkg_mgr, plan, selected.controller);
    assert(forall|i: int| 0 <= i < ctl.len() ==> {
        &&& !(#[trigger] ctl[i] is StopService)
        &&& !(ctl[i] is RestartService)
        &&& !(ctl[i] is InstallService)
    });
}

/// The AppImage launcher is put in place exactly for the desktop controller on Linux
/// when it is not installed as a native package, right after the AppImage is downloaded.
pub proof fn lemma_wrapper_exactly_when_needed(
    updating: bool,
    os: Os,
    controller_type: ControllerType,
    pkg_mgr: LinuxPkgManager,
    plan: ReleasePlan,
    selected: SelectedAssets,
)
    ensures
        ({
            let steps = deploy_plan(updating, os, controller_type, pkg_mgr, plan, selected);
            &&& (exists|i: int| 0 <= i < steps.len() && #[trigger] steps[i] is CreateAppImageWrapper)
                <==> needs_appimage_wrapper(os, controller_type, plan.controller.use_native_pkg)
            &&& forall|i: int|
                0 <= i < steps.len() && #[trigger] steps[i] is CreateAppImageWrapper ==> {
                    &&& 0 < i
                    &&& steps[i - 1] == (DeployStepSpec::DownloadController {
                        asset: selected.controller,
                        file_name: plan.controller.name@,
                    })
                    &&& steps[i]->CreateAppImageWrapper_file_name == plan.controller.name@
                }
        }),
{
    let steps = deploy_plan(updating, os, controller_type, pkg_mgr, plan, selected);
    let h: int = if updating { 1 } else { 0 };
    if needs_appimage_wrapper(os, controller_type, plan.controller.use_native_pkg) {
        assert(steps[h + 2] is CreateAppImageWrapper);
    }
}

/// A native package is only ever looked for on Linux where a package manager is found,
/// so an installation of one always has a package tool to use.
pub proof fn lemma_native_only_with_package_manager(
    os: Os,
    controller_type: ControllerType,
    pkg_mgr: LinuxPkgManager,
)
    ensures
        tries_native(os, controller_type, pkg_mgr) ==> os == Os::Linux && pkg_mgr
            != LinuxPkgManager::Other,
{
    reveal_strlit(".AppImage");
}

/// The steps carry what the plan chose: every native package installation is of the
/// plan's controller, at the selected position, with the package manager that was
/// detected; every core download is of the plan's core at the selected position; every
/// controller download and launcher is for the plan's controller.
pub proof fn lemma_steps_carry_the_plan(
    updating: bool,
    os: Os,
    controller_type: ControllerType,
    pkg_mgr: LinuxPkgManager,
    plan: ReleasePlan,
    selected: SelectedAssets,
)
    ensures
        ({
            let steps = deploy_plan(updating, os, controller_type, pkg_mgr, plan, selected);
            &&& forall|i: int|
                0 <= i < steps.len() && (#[trigger] steps[i]) is InstallNativePackage ==> {
                    &&& steps[i]->InstallNativePackage_pkg_mgr == pkg_mgr
                    &&& steps[i]->InstallNativePackage_asset == selected.controller
                    &&& steps[i]->InstallNativePackage_file_name == plan.controller.name@
                    &&& plan.controller.use_native_pkg
                }
            &&& forall|i: int|
                0 <= i < steps.len() && (#[trigger] steps[i]) is DownloadCore ==> {
                    &&& steps[i]->DownloadCore_asset == selected.core
                    &&& steps[i]->DownloadCore_file_name == plan.core_name@
                }
            &&& forall|i: int|
                0 <= i < steps.len() && (#[trigger] steps[i]) is DownloadController ==> {
                    &&& steps[i]->DownloadController_asset == selected.controller
                    &&& steps[i]->DownloadController_file_name == plan.controller.name@
                    &&& !plan.controller.use_native_pkg
                }
            &&& plan.controller.use_native_pkg <==> exists|i: int|
                0 <= i < steps.len() && (#[trigger] steps[i]) is InstallNativePackage
            &&& exists|i: int| 0 <= i < steps.len() && (#[trigger] steps[i]) is DownloadCore
        }),
{
    let steps = deploy_plan(updating, os, controller_type, pkg_mgr, plan, selected);
    let h: int = if updating { 1 } else { 0 };
    assert(steps[h] is DownloadCore);
    if plan.controller.use_native_pkg {
        assert(steps[h + 1] is InstallNativePackage);
    }
}

} // verus!
