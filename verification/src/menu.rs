//! The choices the user is offered: the prompts, the entries in the order shown, and
//! what each entry stands for.

use vstd::prelude::*;
use crate::detect::Os;
use crate::install::ControllerType;
use crate::text::str_texts;

verus! {

/// What the user asks the installer to do.
#[derive(Debug, Clone, Copy, PartialEq, Eq, Structural)]
pub enum Operation {
    Install,
    Update,
    Uninstall,
}

/// A prompt and its entries.
#[derive(Debug)]
pub struct Menu {
    pub prompt: &'static str,
    pub entries: Vec<&'static str>,
}

/// The operating system menu's entries: the operating systems' display names.
pub open spec fn os_menu_texts() -> Seq<Seq<char>> {
    seq!["Linux"@, "Windows"@, "macOS"@]
}

/// The operating system at position `index` of its menu.
pub open spec fn os_at(index: int) -> Os {
    if index == 0 {
        Os::Linux
    } else if index == 1 {
        Os::Windows
    } else {
        Os::MacOs
    }
}

/// The operation at position `index` of its menu.
pub open spec fn operation_at(index: int) -> Operation {
    if index == 0 {
        Operation::Install
    } else if index == 1 {
        Operation::Update
    } else {
        Operation::Uninstall
    }
}

/// The controller type at position `index` of its menu.
pub open spec fn controller_at(index: int) -> ControllerType {
    if index == 0 {
        ControllerType::Tauri
    } else if index == 1 {
        ControllerType::WebUi
    } else {
        ControllerType::Cli
    }
}

/// The menu for correcting the detected operating system.
pub fn os_menu() -> (r: Menu)
    ensures
        r.prompt@ == "请选择操作系统："@,
        str_texts(r.entries@) == os_menu_texts(),
{
    let entries = vec!["Linux", "Windows", "macOS"];
    assert(str_texts(entries@) =~= os_menu_texts());
    Menu { prompt: "请选择操作系统：", entries }
}

/// The menu of operations.
pub fn operation_menu() -> (r: Menu)
    ensures
        r.prompt@ == "请选择操作："@,
        str_texts(r.entries@) == seq!["安装"@, "更新"@, "卸载"@],
{
    let entries = vec!["安装", "更新", "卸载"];
    assert(str_texts(entries@) =~= seq!["安装"@, "更新"@, "卸载"@]);
    Menu { prompt: "请选择操作：", entries }
}

/// The menu of controller types.
pub fn controller_menu() -> (r: Menu)
    ensures
        r.prompt@ == "请选择要安装的控制器类型："@,
        str_texts(r.entries@) == seq![
            "桌面版（Tauri）— 原生 GUI 应用"@,
            "Web UI         — 浏览器界面"@,
            "CLI            — 命令行界面"@,
        ],
{
    let entries = vec![
        "桌面版（Tauri）— 原生 GUI 应用",
        "Web UI         — 浏览器界面",
        "CLI            — 命令行界面",
    ];
    assert(str_texts(entries@) =~= seq![
        "桌面版（Tauri）— 原生 GUI 应用"@,
        "Web UI         — 浏览器界面"@,
        "CLI            — 命令行界面"@,
    ]);
    Menu { prompt: "请选择要安装的控制器类型：", entries }
}

/// Where the release is fetched from.
#[derive(Debug, Clone, Copy, PartialEq, Eq, Structural)]
pub enum Mirror {
    /// The mirror in mainland China, offered first.
    Gitee,
    /// The official source.
    GitHub,
}

impl Mirror {
    /// How the source is named to the user.
    pub open spec fn display_text(self) -> Seq<char> {
        match self {
            Mirror::Gitee => "Gitee"@,
            Mirror::GitHub => "GitHub"@,
        }
    }

    pub fn display_name(self) -> (r: &'static str)
        ensures
            r@ == self.display_text(),
    {
        match self {
            Mirror::Gitee => "Gitee",
            Mirror::GitHub => "GitHub",
        }
    }

    /// The source chosen at position `index` of its menu.
    pub fn from_menu_index(index: usize) -> (r: Mirror)
        requires
            index < 2,
        ensures
            r == (if index == 0 {
                Mirror::Gitee
            } else {
                Mirror::GitHub
            }),
    {
        if index == 0 {
            Mirror::Gitee
        } else {
            Mirror::GitHub
        }
    }
}

/// The menu of download sources.
pub fn mirror_menu() -> (r: Menu)
    ensures
        r.prompt@ == "请选择下载源："@,
        str_texts(r.entries@) == seq!["Gitee（国内镜像，推荐）"@, "GitHub（官方源）"@],
{
    let entries = vec!["Gitee（国内镜像，推荐）", "GitHub（官方源）"];
    assert(str_texts(entries@) =~= seq!["Gitee（国内镜像，推荐）"@, "GitHub（官方源）"@]);
    Menu { prompt: "请选择下载源：", entries }
}

impl Os {
    /// The operating system chosen at position `index` of its menu.
    pub fn from_menu_index(index: usize) -> (r: Os)
        requires
            index < 3,
        ensures
            r == os_at(index as int),
    {
        if index == 0 {
            Os::Linux
        } else if index == 1 {
            Os::Windows
        } else {
            Os::MacOs
        }
    }
}

impl Operation {
    /// The operation chosen at position `index` of its menu.
    pub fn from_menu_index(index: usize) -> (r: Operation)
        requires
            index < 3,
        ensures
            r == operation_at(index as int),
    {
        if index == 0 {
            Operation::Install
        } else if index == 1 {
            Operation::Update
        } else {
            Operation::Uninstall
        }
    }
}

impl ControllerType {
    /// The controller type chosen at position `index` of its menu.
    pub fn from_menu_index(index: usize) -> (r: ControllerType)
        requires
            index < 3,
        ensures
            r == controller_at(index as int),
    {
        if index == 0 {
            ControllerType::Tauri
        } else if index == 1 {
            ControllerType::WebUi
        } else {
            ControllerType::Cli
        }
    }
}

/// Each entry of the operating system menu is the display name of the operating
/// system it selects, and every operating system has an entry.
pub proof fn lemma_os_menu_matches_display_names(os: Os)
    ensures
        forall|i: int| 0 <= i < 3 ==> #[trigger] os_menu_texts()[i] == os_at(i).display_text(),
        exists|i: int| 0 <= i < 3 && #[trigger] os_at(i) == os,
{
    match os {
        Os::Linux => assert(os_at(0) == os),
        Os::Windows => assert(os_at(1) == os),
        Os::MacOs => assert(os_at(2) == os),
    }
}

/// Every operation and every controller type can be chosen from its menu.
pub proof fn lemma_menus_cover_choices(op: Operation, controller_type: ControllerType)
    ensures
        exists|i: int| 0 <= i < 3 && #[trigger] operation_at(i) == op,
        exists|i: int| 0 <= i < 3 && #[trigger] controller_at(i) == controller_type,
{
    match op {
        Operation::Install => assert(operation_at(0) == op),
        Operation::Update => assert(operation_at(1) == op),
        Operation::Uninstall => assert(operation_at(2) == op),
    }
    match controller_type {
        ControllerType::Tauri => assert(controller_at(0) == controller_type),
        ControllerType::WebUi => assert(controller_at(1) == controller_type),
        ControllerType::Cli => assert(controller_at(2) == controller_type),
    }
}

} // verus!
