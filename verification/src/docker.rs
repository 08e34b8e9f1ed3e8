//! The rules of the Docker deployment: where it lives, which Compose front end runs
//! it, the Compose file written from the template, and what the user is told.

use vstd::prelude::*;
use crate::detect::Os;
use crate::text::{replace_all, replace_str, str_texts, texts};

verus! {

/// The Compose front end found on the system.
#[derive(Debug, Clone, Copy, PartialEq, Eq, Structural)]
pub enum ComposeCmd {
    /// The `docker compose` plugin.
    V2,
    /// The standalone `docker-compose` program.
    V1,
}

/// Why a Docker operation cannot go ahead.
#[derive(Debug, Clone, Copy, PartialEq, Eq, Structural)]
pub enum DockerError {
    /// Installing is asked for on another system than Linux.
    InstallUnsupportedOs,
    /// Updating or removing is asked for on another system than Linux.
    UnsupportedOs,
    /// No Docker Engine answers.
    EngineNotRunning,
    /// Neither Compose front end is available.
    ComposeMissing,
    /// There is no deployment to update.
    NotDeployed,
}

/// The directory the deployment lives in.
pub open spec fn deploy_dir_text() -> Seq<char> {
    "/opt/msst-net-docker"@
}

pub fn deploy_dir() -> (r: String)
    ensures
        r@ == deploy_dir_text(),
{
    String::from_str("/opt/msst-net-docker")
}

/// The administrator password stood in for by the template, and used where the
/// user gives none.
pub open spec fn default_password() -> Seq<char> {
    "changeme"@
}

impl DockerError {
    /// What the user is told.
    pub open spec fn message_text(self) -> Seq<char> {
        match self {
            DockerError::InstallUnsupportedOs => "Docker 安装模式仅支持 Linux（容器需要 NET_ADMIN 权限和 /dev/net/tun 设备）。"@,
            DockerError::UnsupportedOs => "Docker 安装模式仅支持 Linux。"@,
            DockerError::EngineNotRunning => "未检测到运行中的 Docker Engine，请先安装并启动 Docker。"@,
            DockerError::ComposeMissing => "未找到 docker compose 或 docker-compose，请安装 Docker Compose。"@,
            DockerError::NotDeployed => "未找到 Docker 部署目录 "@ + deploy_dir_text()
                + "，请先执行 Docker 安装。"@,
        }
    }

    pub fn message(self) -> (r: String)
        ensures
            r@ == self.message_text(),
    {
        match self {
            DockerError::InstallUnsupportedOs => String::from_str(
                "Docker 安装模式仅支持 Linux（容器需要 NET_ADMIN 权限和 /dev/net/tun 设备）。",
            ),
            DockerError::UnsupportedOs => String::from_str("Docker 安装模式仅支持 Linux。"),
            DockerError::EngineNotRunning => String::from_str(
                "未检测到运行中的 Docker Engine，请先安装并启动 Docker。",
            ),
            DockerError::ComposeMissing => String::from_str(
                "未找到 docker compose 或 docker-compose，请安装 Docker Compose。",
            ),
            DockerError::NotDeployed => String::from_str("未找到 Docker 部署目录 ").concat(
                "/opt/msst-net-docker",
            ).concat("，请先执行 Docker 安装。"),
        }
    }
}

/// Whether a Docker deployment can be installed (`installing`) or updated and removed
/// on `os`: only Linux gives containers `NET_ADMIN` and `/dev/net/tun`.
pub fn check_docker_os(os: Os, installing: bool) -> (r: Result<(), DockerError>)
    ensures
        r is Ok <==> os == Os::Linux,
        r is Err ==> r == (if installing {
            Err::<(), DockerError>(DockerError::InstallUnsupportedOs)
        } else {
            Err::<(), DockerError>(DockerError::UnsupportedOs)
        }),
{
    if os != Os::Linux {
        if installing {
            Err(DockerError::InstallUnsupportedOs)
        } else {
            Err(DockerError::UnsupportedOs)
        }
    } else {
        Ok(())
    }
}

/// The Compose front end to use, from the probes: whether `docker info`,
/// `docker compose version` and `docker-compose version` succeeded.
pub open spec fn compose_for(docker_ok: bool, v2_ok: bool, v1_ok: bool) -> Result<
    ComposeCmd,
    DockerError,
> {
    if !docker_ok {
        Err(DockerError::EngineNotRunning)
    } else if v2_ok {
        Ok(ComposeCmd::V2)
    } else if v1_ok {
        Ok(ComposeCmd::V1)
    } else {
        Err(DockerError::ComposeMissing)
    }
}

pub fn detect_compose(docker_ok: bool, v2_ok: bool, v1_ok: bool) -> (r: Result<
    ComposeCmd,
    DockerError,
>)
    ensures
        r == compose_for(docker_ok, v2_ok, v1_ok),
{
    if !docker_ok {
        return Err(DockerError::EngineNotRunning);
    }
    if v2_ok {
        return Ok(ComposeCmd::V2);
    }
    if v1_ok {
        return Ok(ComposeCmd::V1);
    }
    Err(DockerError::ComposeMissing)
}

impl ComposeCmd {
    /// How the front end is named to the user.
    pub open spec fn label_text(self) -> Seq<char> {
        match self {
            ComposeCmd::V2 => "docker compose（v2）"@,
            ComposeCmd::V1 => "docker-compose（v1）"@,
        }
    }

    /// The program that runs Compose commands.
    pub open spec fn program_text(self) -> Seq<char> {
        match self {
            ComposeCmd::V2 => "docker"@,
            ComposeCmd::V1 => "docker-compose"@,
        }
    }

    /// The arguments that precede a Compose command's own.
    pub open spec fn prefix_args(self) -> Seq<Seq<char>> {
        match self {
            ComposeCmd::V2 => seq!["compose"@],
            ComposeCmd::V1 => seq![],
        }
    }

    pub fn label(self) -> (r: &'static str)
        ensures
            r@ == self.label_text(),
    {
        match self {
            ComposeCmd::V2 => "docker compose（v2）",
            ComposeCmd::V1 => "docker-compose（v1）",
        }
    }

    /// The program and arguments that run the Compose command `args`.
    pub fn command_line(self, args: &Vec<&str>) -> (r: (String, Vec<String>))
        ensures
            r.0@ == self.program_text(),
            texts(r.1@) == self.prefix_args() + str_texts(args@),
    {
        let mut out: Vec<String> = Vec::new();
        let program = match self {
            ComposeCmd::V2 => {
                out.push(String::from_str("compose"));
                String::from_str("docker")
            },
            ComposeCmd::V1 => String::from_str("docker-compose"),
        };
        let ghost prefix = self.prefix_args();
        assert(texts(out@) =~= prefix);
        let mut i: usize = 0;
        while i < args.len()
            invariant
                i <= args@.len(),
                out@.len() == prefix.len() + i,
                forall|j: int| 0 <= j < prefix.len() ==> #[trigger] out@[j]@ == prefix[j],
                forall|j: int| 0 <= j < i ==> #[trigger] out@[prefix.len() + j]@ == args@[j]@,
            decreases args@.len() - i,
        {
            out.push(String::from_str(args[i]));
            i = i + 1;
        }
        assert(texts(out@) =~= prefix + str_texts(args@)) by {
            assert forall|j: int| 0 <= j < out@.len() implies #[trigger] texts(out@)[j] == (prefix
                + str_texts(args@))[j] by {
                if j >= prefix.len() {
                    assert(out@[prefix.len() + (j - prefix.len())]@ == args@[j - prefix.len()]@);
                }
            }
        }
        (program, out)
    }
}

/// A command run to find out whether Docker and Compose are available.
#[derive(Debug, Clone, Copy, PartialEq, Eq, Structural)]
pub enum ComposeProbe {
    /// `docker info`: whether a Docker Engine answers.
    DockerInfo,
    /// `docker compose version`: whether the Compose plugin is installed.
    PluginVersion,
    /// `docker-compose version`: whether the standalone program is installed.
    StandaloneVersion,
}

impl ComposeProbe {
    /// The program the probe runs.
    pub open spec fn program_text(self) -> Seq<char> {
        match self {
            ComposeProbe::StandaloneVersion => "docker-compose"@,
            _ => "docker"@,
        }
    }

    /// The arguments the probe runs the program with.
    pub open spec fn args_text(self) -> Seq<Seq<char>> {
        match self {
            ComposeProbe::DockerInfo => seq!["info"@],
            ComposeProbe::PluginVersion => seq!["compose"@, "version"@],
            ComposeProbe::StandaloneVersion => seq!["version"@],
        }
    }

    /// The program and arguments of the probe; it succeeds where the command runs and
    /// exits successfully, with its output discarded.
    pub fn command_line(self) -> (r: (String, Vec<String>))
        ensures
            r.0@ == self.program_text(),
            texts(r.1@) == self.args_text(),
    {
        let r = match self {
            ComposeProbe::DockerInfo => (String::from_str("docker"), vec![String::from_str("info")]),
            ComposeProbe::PluginVersion => (
                String::from_str("docker"),
                vec![String::from_str("compose"), String::from_str("version")],
            ),
            ComposeProbe::StandaloneVersion => (
                String::from_str("docker-compose"),
                vec![String::from_str("version")],
            ),
        };
        assert(texts(r.1@) =~= self.args_text());
        r
    }
}

/// What to do next while finding the Compose front end.
#[derive(Debug, Clone, Copy, PartialEq, Eq)]
pub enum ComposeDetection {
    /// Run this probe and report whether it succeeded.
    Probe(ComposeProbe),
    /// The search is over, with this outcome.
    Done(Result<ComposeCmd, DockerError>),
}

/// The next move, given the outcomes of the probes run so far, in the order they were
/// asked for: Docker itself first; the plugin only where Docker answers; the
/// standalone program only where the plugin is missing.
pub open spec fn compose_step(outcomes: Seq<bool>) -> ComposeDetection {
    if outcomes.len() == 0 {
        ComposeDetection::Probe(ComposeProbe::DockerInfo)
    } else if !outcomes[0] {
        ComposeDetection::Done(Err(DockerError::EngineNotRunning))
    } else if outcomes.len() == 1 {
        ComposeDetection::Probe(ComposeProbe::PluginVersion)
    } else if outcomes[1] {
        ComposeDetection::Done(Ok(ComposeCmd::V2))
    } else if outcomes.len() == 2 {
        ComposeDetection::Probe(ComposeProbe::StandaloneVersion)
    } else if outcomes[2] {
        ComposeDetection::Done(Ok(ComposeCmd::V1))
    } else {
        ComposeDetection::Done(Err(DockerError::ComposeMissing))
    }
}

pub fn next_compose_step(outcomes: &Vec<bool>) -> (r: ComposeDetection)
    ensures
        r == compose_step(outcomes@),
{
    let n = outcomes.len();
    if n == 0 {
        ComposeDetection::Probe(ComposeProbe::DockerInfo)
    } else if !outcomes[0] {
        ComposeDetection::Done(Err(DockerError::EngineNotRunning))
    } else if n == 1 {
        ComposeDetection::Probe(ComposeProbe::PluginVersion)
    } else if outcomes[1] {
        ComposeDetection::Done(Ok(ComposeCmd::V2))
    } else if n == 2 {
        ComposeDetection::Probe(ComposeProbe::StandaloneVersion)
    } else if outcomes[2] {
        ComposeDetection::Done(Ok(ComposeCmd::V1))
    } else {
        ComposeDetection::Done(Err(DockerError::ComposeMissing))
    }
}

/// Driving the search with the probes' real outcomes runs `docker info` first, the
/// plugin probe only after Docker answered, the standalone probe only after the plugin
/// probe failed, nothing more, and ends with what `detect_compose` decides on them.
pub proof fn lemma_compose_probes_in_order(docker_ok: bool, v2_ok: bool, v1_ok: bool)
    ensures
        compose_step(seq![]) == ComposeDetection::Probe(ComposeProbe::DockerInfo),
        !docker_ok ==> compose_step(seq![docker_ok]) == ComposeDetection::Done(
            compose_for(docker_ok, v2_ok, v1_ok),
        ),
        docker_ok ==> compose_step(seq![docker_ok]) == ComposeDetection::Probe(
            ComposeProbe::PluginVersion,
        ),
        docker_ok && v2_ok ==> compose_step(seq![docker_ok, v2_ok]) == ComposeDetection::Done(
            compose_for(docker_ok, v2_ok, v1_ok),
        ),
        docker_ok && !v2_ok ==> compose_step(seq![docker_ok, v2_ok]) == ComposeDetection::Probe(
            ComposeProbe::StandaloneVersion,
        ),
        docker_ok && !v2_ok ==> compose_step(seq![docker_ok, v2_ok, v1_ok])
            == ComposeDetection::Done(compose_for(docker_ok, v2_ok, v1_ok)),
{
}

/// One step of a Docker operation, carried out in order.
#[derive(Debug, Clone, PartialEq, Eq)]
pub enum DockerStep {
    /// Find the Compose front end with the probes of `next_compose_step`.
    DetectCompose,
    /// Ask the user for the administrator password.
    AskPassword,
    /// Create the `data` and `run` directories of the deployment directory.
    CreateDirectories,
    /// Write the Compose file from the template and the chosen password.
    WriteComposeFile,
    /// Under the section title `title`, run the Compose command `args` in the
    /// deployment directory; where `checked`, its failure aborts the operation.
    Compose { title: String, args: Vec<String>, checked: bool },
    /// Remove the Compose file.
    RemoveComposeFile,
}

/// The mathematical value of a [`DockerStep`].
pub enum DockerStepSpec {
    DetectCompose,
    AskPassword,
    CreateDirectories,
    WriteComposeFile,
    Compose { title: Seq<char>, args: Seq<Seq<char>>, checked: bool },
    RemoveComposeFile,
}

impl View for DockerStep {
    type V = DockerStepSpec;

    open spec fn view(&self) -> DockerStepSpec {
        match self {
            DockerStep::DetectCompose => DockerStepSpec::DetectCompose,
            DockerStep::AskPassword => DockerStepSpec::AskPassword,
            DockerStep::CreateDirectories => DockerStepSpec::CreateDirectories,
            DockerStep::WriteComposeFile => DockerStepSpec::WriteComposeFile,
            DockerStep::Compose { title, args, checked } => DockerStepSpec::Compose {
                title: title@,
                args: texts(args@),
                checked: *checked,
            },
            DockerStep::RemoveComposeFile => DockerStepSpec::RemoveComposeFile,
        }
    }
}

/// The values of the steps of `v`.
pub open spec fn docker_steps(v: Seq<DockerStep>) -> Seq<DockerStepSpec> {
    v.map_values(|s: DockerStep| s@)
}

/// Whether a failure of `step` ends the operation: all but removing the Compose file
/// and unchecked Compose commands; asking for the password does not fail.
pub open spec fn docker_step_aborts(step: DockerStepSpec) -> bool {
    match step {
        DockerStepSpec::Compose { checked, .. } => checked,
        DockerStepSpec::RemoveComposeFile => false,
        _ => true,
    }
}

impl DockerStep {
    pub fn aborts_on_failure(&self) -> (r: bool)
        ensures
            r == docker_step_aborts(self@),
    {
        match self {
            DockerStep::Compose { checked, .. } => *checked,
            DockerStep::RemoveComposeFile => false,
            _ => true,
        }
    }
}

/// The steps that deploy the client with Docker on `os`: find Compose, ask for the
/// password, create the directories, write the Compose file, pull, then start.
pub open spec fn docker_install_plan(os: Os) -> Result<Seq<DockerStepSpec>, DockerError> {
    if os != Os::Linux {
        Err(DockerError::InstallUnsupportedOs)
    } else {
        Ok(
            seq![
                DockerStepSpec::DetectCompose,
                DockerStepSpec::AskPassword,
                DockerStepSpec::CreateDirectories,
                DockerStepSpec::WriteComposeFile,
                DockerStepSpec::Compose {
                    title: "拉取 Docker 镜像"@,
                    args: seq!["pull"@],
                    checked: true,
                },
                DockerStepSpec::Compose {
                    title: "启动服务"@,
                    args: seq!["up"@, "-d"@],
                    checked: true,
                },
            ],
        )
    }
}

/// The steps that update the Docker deployment on `os`, where `deployed` tells whether
/// its Compose file exists: find Compose, pull, then start again.
pub open spec fn docker_update_plan(os: Os, deployed: bool) -> Result<
    Seq<DockerStepSpec>,
    DockerError,
> {
    if os != Os::Linux {
        Err(DockerError::UnsupportedOs)
    } else if !deployed {
        Err(DockerError::NotDeployed)
    } else {
        Ok(
            seq![
                DockerStepSpec::DetectCompose,
                DockerStepSpec::Compose { title: "拉取最新镜像"@, args: seq!["pull"@], checked: true },
                DockerStepSpec::Compose {
                    title: "重启服务"@,
                    args: seq!["up"@, "-d"@],
                    checked: true,
                },
            ],
        )
    }
}

/// The steps that remove a confirmed Docker deployment, where `deployed` tells whether
/// its Compose file exists: the containers and images go, then the Compose file; the
/// deployment directory and its data stay.
pub open spec fn docker_uninstall_plan(deployed: bool) -> Seq<DockerStepSpec> {
    if deployed {
        seq![
            DockerStepSpec::DetectCompose,
            DockerStepSpec::Compose {
                title: "停止并移除容器"@,
                args: seq!["down"@, "--rmi"@, "all"@],
                checked: false,
            },
            DockerStepSpec::RemoveComposeFile,
        ]
    } else {
        seq![]
    }
}

fn compose1(title: &str, a: &str, checked: bool) -> (r: DockerStep)
    ensures
        r@ == (DockerStepSpec::Compose { title: title@, args: seq![a@], checked }),
{
    let args = vec![String::from_str(a)];
    assert(texts(args@) =~= seq![a@]);
    DockerStep::Compose { title: String::from_str(title), args, checked }
}

fn compose2(title: &str, a: &str, b: &str, checked: bool) -> (r: DockerStep)
    ensures
        r@ == (DockerStepSpec::Compose { title: title@, args: seq![a@, b@], checked }),
{
    let args = vec![String::from_str(a), String::from_str(b)];
    assert(texts(args@) =~= seq![a@, b@]);
    DockerStep::Compose { title: String::from_str(title), args, checked }
}

fn compose3(title: &str, a: &str, b: &str, c: &str, checked: bool) -> (r: DockerStep)
    ensures
        r@ == (DockerStepSpec::Compose { title: title@, args: seq![a@, b@, c@], checked }),
{
    let args = vec![String::from_str(a), String::from_str(b), String::from_str(c)];
    assert(texts(args@) =~= seq![a@, b@, c@]);
    DockerStep::Compose { title: String::from_str(title), args, checked }
}

pub fn docker_install_steps(os: Os) -> (r: Result<Vec<DockerStep>, DockerError>)
    ensures
        match r {
            Ok(v) => docker_install_plan(os) == Ok::<Seq<DockerStepSpec>, DockerError>(
                docker_steps(v@),
            ),
            Err(e) => docker_install_plan(os) == Err::<Seq<DockerStepSpec>, DockerError>(e),
        },
{
    if os != Os::Linux {
        return Err(DockerError::InstallUnsupportedOs);
    }
    let pull = compose1("拉取 Docker 镜像", "pull", true);
    let up = compose2("启动服务", "up", "-d", true);
    let v = vec![
        DockerStep::DetectCompose,
        DockerStep::AskPassword,
        DockerStep::CreateDirectories,
        DockerStep::WriteComposeFile,
        pull,
        up,
    ];
    assert(docker_steps(v@) =~= docker_install_plan(os)->Ok_0);
    Ok(v)
}

pub fn docker_update_steps(os: Os, deployed: bool) -> (r: Result<Vec<DockerStep>, DockerError>)
    ensures
        match r {
            Ok(v) => docker_update_plan(os, deployed) == Ok::<Seq<DockerStepSpec>, DockerError>(
                docker_steps(v@),
            ),
            Err(e) => docker_update_plan(os, deployed) == Err::<Seq<DockerStepSpec>, DockerError>(
                e,
            ),
        },
{
    if os != Os::Linux {
        return Err(DockerError::UnsupportedOs);
    }
    if !deployed {
        return Err(DockerError::NotDeployed);
    }
    let pull = compose1("拉取最新镜像", "pull", true);
    let up = compose2("重启服务", "up", "-d", true);
    let v = vec![DockerStep::DetectCompose, pull, up];
    assert(docker_steps(v@) =~= docker_update_plan(os, deployed)->Ok_0);
    Ok(v)
}

pub fn docker_uninstall_steps(deployed: bool) -> (r: Vec<DockerStep>)
    ensures
        docker_steps(r@) == docker_uninstall_plan(deployed),
{
    if !deployed {
        let v: Vec<DockerStep> = Vec::new();
        assert(docker_steps(v@) =~= docker_uninstall_plan(deployed));
        return v;
    }
    let down = compose3("停止并移除容器", "down", "--rmi", "all", false);
    let v = vec![DockerStep::DetectCompose, down, DockerStep::RemoveComposeFile];
    assert(docker_steps(v@) =~= docker_uninstall_plan(deployed));
    v
}

/// Deploying writes the Compose file before any Compose command runs, and pulls the
/// images before starting them; removing takes the containers down before the Compose
/// file goes, never aborts after the probes, and removes nothing else.
pub proof fn lemma_docker_operation_order(deployed: bool)
    ensures
        ({
            let s = docker_install_plan(Os::Linux)->Ok_0;
            &&& s[3] is WriteComposeFile
            &&& forall|i: int| 0 <= i < s.len() && #[trigger] s[i] is Compose ==> 3 < i
            &&& s[4]->Compose_args == seq!["pull"@]
            &&& s[5]->Compose_args == seq!["up"@, "-d"@]
        }),
        ({
            let s = docker_uninstall_plan(true);
            &&& s[1]->Compose_args == seq!["down"@, "--rmi"@, "all"@]
            &&& s[2] is RemoveComposeFile
            &&& forall|i: int| 0 < i < s.len() ==> !docker_step_aborts(#[trigger] s[i])
        }),
        !deployed ==> docker_uninstall_plan(deployed).len() == 0,
{
    let s = docker_install_plan(Os::Linux)->Ok_0;
    assert forall|i: int| 0 <= i < s.len() && #[trigger] s[i] is Compose implies 3 < i by {
        if i <= 3 {
            assert(!(s[i] is Compose));
        }
    }
}

/// The administrator password: the one the user gave, or the default for an empty answer.
pub open spec fn chosen_password(answer: Seq<char>) -> Seq<char> {
    if answer.len() == 0 {
        default_password()
    } else {
        answer
    }
}

pub fn admin_password(answer: String) -> (r: String)
    ensures
        r@ == chosen_password(answer@),
{
    if answer.unicode_len() == 0 {
        String::from_str("changeme")
    } else {
        answer
    }
}

/// Whether the deployment keeps the default password, which the user is warned about.
pub fn uses_default_password(password: &str) -> (r: bool)
    ensures
        r == (password@ == default_password()),
{
    crate::text::str_eq(password, "changeme")
}

/// The Compose file: the template with the default password replaced by `password`.
pub open spec fn compose_file(template: Seq<char>, password: Seq<char>) -> Seq<char> {
    replace_all(template, default_password(), password)
}

pub fn render_compose(template: &str, password: &str) -> (r: String)
    ensures
        r@ == compose_file(template@, password@),
{
    proof {
        reveal_strlit("changeme");
    }
    replace_str(template, "changeme", password)
}

/// Keeping the default password leaves the template as it is.
pub proof fn lemma_default_password_keeps_template(template: Seq<char>)
    ensures
        compose_file(template, default_password()) == template,
{
    crate::text::lemma_replace_with_itself(template, default_password());
}

/// Docker deployment is for Linux alone: installing is planned exactly on Linux and
/// refused everywhere else as an unsupported system; updating is refused the same way
/// off Linux and, on Linux, exactly when there is no deployment; the same systems are
/// accepted by `check_docker_os`.
pub proof fn lemma_docker_only_on_linux(os: Os, deployed: bool)
    ensures
        docker_install_plan(os) is Ok <==> os == Os::Linux,
        os != Os::Linux ==> docker_install_plan(os) == Err::<Seq<DockerStepSpec>, DockerError>(
            DockerError::InstallUnsupportedOs,
        ),
        docker_update_plan(os, deployed) is Ok <==> (os == Os::Linux && deployed),
        os != Os::Linux ==> docker_update_plan(os, deployed) == Err::<
            Seq<DockerStepSpec>,
            DockerError,
        >(DockerError::UnsupportedOs),
        os == Os::Linux && !deployed ==> docker_update_plan(os, deployed) == Err::<
            Seq<DockerStepSpec>,
            DockerError,
        >(DockerError::NotDeployed),
{
}

/// Finding Compose: without a running Docker Engine nothing else matters; with one,
/// the plugin is preferred, the standalone program is the fallback, and with neither
/// the search fails as Compose missing.
pub proof fn lemma_compose_choice(docker_ok: bool, v2_ok: bool, v1_ok: bool)
    ensures
        !docker_ok ==> compose_for(docker_ok, v2_ok, v1_ok) == Err::<ComposeCmd, DockerError>(
            DockerError::EngineNotRunning,
        ),
        docker_ok && v2_ok ==> compose_for(docker_ok, v2_ok, v1_ok) == Ok::<
            ComposeCmd,
            DockerError,
        >(ComposeCmd::V2),
        docker_ok && !v2_ok && v1_ok ==> compose_for(docker_ok, v2_ok, v1_ok) == Ok::<
            ComposeCmd,
            DockerError,
        >(ComposeCmd::V1),
        docker_ok && !v2_ok && !v1_ok ==> compose_for(docker_ok, v2_ok, v1_ok) == Err::<
            ComposeCmd,
            DockerError,
        >(DockerError::ComposeMissing),
{
}

/// Whether a step's failure ends a Docker operation: a Compose command's failure does
/// exactly when it is checked; a failed probe, directory, or Compose file write always
/// does; removing the Compose file never does.
pub proof fn lemma_docker_abort_rules(title: Seq<char>, args: Seq<Seq<char>>, checked: bool)
    ensures
        docker_step_aborts(DockerStepSpec::Compose { title, args, checked }) == checked,
        docker_step_aborts(DockerStepSpec::DetectCompose),
        docker_step_aborts(DockerStepSpec::CreateDirectories),
        docker_step_aborts(DockerStepSpec::WriteComposeFile),
        !docker_step_aborts(DockerStepSpec::RemoveComposeFile),
{
}

/// Installing and updating stop at a failed Compose command: every Compose command of
/// their plans aborts on failure; removing passes over a failed `down`.
pub proof fn lemma_deploy_and_update_compose_failures_abort(deployed: bool)
    ensures
        forall|i: int|
            0 <= i < docker_install_plan(Os::Linux)->Ok_0.len() && (
            #[trigger] docker_install_plan(Os::Linux)->Ok_0[i]) is Compose ==> docker_step_aborts(
                docker_install_plan(Os::Linux)->Ok_0[i],
            ),
        deployed ==> forall|i: int|
            0 <= i < docker_update_plan(Os::Linux, deployed)->Ok_0.len() && (
            #[trigger] docker_update_plan(Os::Linux, deployed)->Ok_0[i]) is Compose
                ==> docker_step_aborts(docker_update_plan(Os::Linux, deployed)->Ok_0[i]),
        deployed ==> !docker_step_aborts(docker_uninstall_plan(deployed)[1]),
        deployed ==> docker_uninstall_plan(deployed)[1] is Compose,
{
}

} // verus!
