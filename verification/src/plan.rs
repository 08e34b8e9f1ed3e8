//! What the installer does with a release: the names of the assets it needs for a
//! platform, which controller package it takes, and the user's menu choices.

use vstd::prelude::*;
use crate::detect::{Arch, LinuxPkgManager, Os};
use crate::github::{has_asset_named, is_first_named, ReleaseInfo};
use crate::install::ControllerType;
use crate::text::{
    decimal, push_decimal, push_tenths, str_eq, tenths_text, trim_start_char,
    trim_start_matches_char,
};

verus! {

broadcast use vstd::string::group_string_axioms;

/// The file name of the client core built for `os` on `arch`.
pub open spec fn core_name(os: Os, arch: Arch) -> Seq<char> {
    "msst-net-client-core-"@ + os.platform_text() + "-"@ + arch.core_arch_text()
        + os.exe_suffix_text()
}

pub fn build_core_name(os: Os, arch: Arch) -> (r: String)
    ensures
        r@ == core_name(os, arch),
{
    String::from_str("msst-net-client-core-").concat(os.platform_str()).concat("-").concat(
        arch.core_arch_str(),
    ).concat(os.exe_suffix())
}

/// The controller asset name of `controller_type` for `os` on `arch`, without its suffix.
pub open spec fn controller_base(os: Os, arch: Arch, controller_type: ControllerType) -> Seq<
    char,
> {
    "msst-net-client-controller-"@ + controller_type.type_text() + "-"@ + os.platform_text()
        + "-"@ + arch.arch_text()
}

/// Whether a native package of the controller is looked for: only for the desktop
/// controller on Linux, and only where a package manager prefers one.
pub open spec fn tries_native(os: Os, controller_type: ControllerType, pkg_mgr: LinuxPkgManager) -> bool {
    &&& os == Os::Linux
    &&& controller_type == ControllerType::Tauri
    &&& ControllerType::linux_preferred_suffix_text(pkg_mgr) != ".AppImage"@
}

/// The name of the native controller package.
pub open spec fn native_name(
    os: Os,
    arch: Arch,
    controller_type: ControllerType,
    pkg_mgr: LinuxPkgManager,
) -> Seq<char> {
    controller_base(os, arch, controller_type) + ControllerType::linux_preferred_suffix_text(
        pkg_mgr,
    )
}

/// The package format named in messages (the preferred suffix without its dot).
pub open spec fn package_format(pkg_mgr: LinuxPkgManager) -> Seq<char> {
    trim_start_char(ControllerType::linux_preferred_suffix_text(pkg_mgr), '.')
}

/// The controller asset the installer takes.
#[derive(Debug, Clone, PartialEq, Eq)]
pub struct ControllerAsset {
    /// The asset's file name.
    pub name: String,
    /// Whether it is a native package, installed through the package manager.
    pub use_native_pkg: bool,
    /// What to tell the user about the search for a native package, if one was made.
    pub notice: Option<String>,
}

/// The controller asset name: the native package where one is looked for and the
/// release has it, else the asset with the suffix that `os` uses for `controller_type`.
pub open spec fn controller_name(
    os: Os,
    arch: Arch,
    controller_type: ControllerType,
    pkg_mgr: LinuxPkgManager,
    release: ReleaseInfo,
) -> Seq<char> {
    if tries_native(os, controller_type, pkg_mgr) && has_asset_named(
        release.assets@,
        native_name(os, arch, controller_type, pkg_mgr),
    ) {
        native_name(os, arch, controller_type, pkg_mgr)
    } else {
        controller_base(os, arch, controller_type) + controller_type.os_suffix_text(os)
    }
}

/// The message about the search for a native package.
pub open spec fn native_notice(
    os: Os,
    arch: Arch,
    controller_type: ControllerType,
    pkg_mgr: LinuxPkgManager,
    release: ReleaseInfo,
) -> Option<Seq<char>> {
    if !tries_native(os, controller_type, pkg_mgr) {
        None
    } else if has_asset_named(release.assets@, native_name(os, arch, controller_type, pkg_mgr)) {
        Some("找到原生 "@ + package_format(pkg_mgr) + " 包，将使用系统包管理器安装。"@)
    } else {
        Some("未在 Release 中找到 "@ + package_format(pkg_mgr) + " 包，退回到 AppImage。"@)
    }
}

/// Determine the controller asset filename.
///
/// For Linux Tauri, we first try the native package format (deb/rpm).  If the
/// release does not contain that asset (e.g. because only the AppImage was
/// published for this release), we transparently fall back to `.AppImage`.
pub fn resolve_controller_name(
    os: Os,
    arch: Arch,
    controller_type: ControllerType,
    linux_pkg_mgr: LinuxPkgManager,
    release: &ReleaseInfo,
) -> (r: ControllerAsset)
    ensures
        r.name@ == controller_name(os, arch, controller_type, linux_pkg_mgr, *release),
        r.use_native_pkg == (tries_native(os, controller_type, linux_pkg_mgr) && has_asset_named(
            release.assets@,
            native_name(os, arch, controller_type, linux_pkg_mgr),
        )),
        match r.notice {
            Some(m) => native_notice(os, arch, controller_type, linux_pkg_mgr, *release) == Some(
                m@,
            ),
            None => native_notice(os, arch, controller_type, linux_pkg_mgr, *release) is None,
        },
{
    let base = String::from_str("msst-net-client-controller-").concat(
        controller_type.type_str(),
    ).concat("-").concat(os.platform_str()).concat("-").concat(arch.arch_str());
    if os == Os::Linux && controller_type == ControllerType::Tauri {
        let preferred = ControllerType::linux_preferred_suffix(linux_pkg_mgr);
        if !str_eq(preferred, ".AppImage") {
            let native_name = base.clone().concat(preferred);
            let format = trim_start_matches_char(preferred, '.');
            if release.find_asset_index(native_name.as_str()).is_some() {
                let notice = String::from_str("找到原生 ").concat(format).concat(
                    " 包，将使用系统包管理器安装。",
                );
                return ControllerAsset { name: native_name, use_native_pkg: true, notice: Some(notice) };
            }
            let notice = String::from_str("未在 Release 中找到 ").concat(format).concat(
                " 包，退回到 AppImage。",
            );
            let suffix = controller_type.os_suffix(os);
            return ControllerAsset { name: base.concat(suffix), use_native_pkg: false, notice: Some(notice) };
        }
    }
    let suffix = controller_type.os_suffix(os);
    ControllerAsset { name: base.concat(suffix), use_native_pkg: false, notice: None }
}

/// The positions in the release's assets of the two files the installer downloads.
#[derive(Debug, Clone, Copy, PartialEq, Eq)]
pub struct SelectedAssets {
    pub core: usize,
    pub controller: usize,
}

/// The file that a release lacks.
#[derive(Debug, Clone, Copy, PartialEq, Eq, Structural)]
pub enum MissingAsset {
    Core,
    Controller,
}

/// What installing or updating from a release takes.
#[derive(Debug)]
pub struct ReleasePlan {
    /// The file name of the core.
    pub core_name: String,
    /// The controller to take.
    pub controller: ControllerAsset,
    /// Where the two files are in the release, or the first of them (core, then
    /// controller) that it lacks.
    pub assets: Result<SelectedAssets, MissingAsset>,
    /// Whether the Wintun driver is installed as well.
    pub install_wintun: bool,
}

/// Plans installing or updating the client for `os` on `arch` from `release`, with
/// `controller_type` and, on Linux, the package manager `linux_pkg_mgr`.
pub fn plan_release(
    os: Os,
    arch: Arch,
    controller_type: ControllerType,
    linux_pkg_mgr: LinuxPkgManager,
    release: &ReleaseInfo,
) -> (r: ReleasePlan)
    ensures
        r.core_name@ == core_name(os, arch),
        r.controller.name@ == controller_name(os, arch, controller_type, linux_pkg_mgr, *release),
        r.controller.use_native_pkg == (tries_native(os, controller_type, linux_pkg_mgr)
            && has_asset_named(
            release.assets@,
            native_name(os, arch, controller_type, linux_pkg_mgr),
        )),
        match r.controller.notice {
            Some(m) => native_notice(os, arch, controller_type, linux_pkg_mgr, *release) == Some(
                m@,
            ),
            None => native_notice(os, arch, controller_type, linux_pkg_mgr, *release) is None,
        },
        match r.assets {
            Ok(sel) => {
                &&& is_first_named(release.assets@, core_name(os, arch), sel.core as int)
                &&& is_first_named(release.assets@, r.controller.name@, sel.controller as int)
            },
            Err(MissingAsset::Core) => !has_asset_named(release.assets@, core_name(os, arch)),
            Err(MissingAsset::Controller) => {
                &&& has_asset_named(release.assets@, core_name(os, arch))
                &&& !has_asset_named(release.assets@, r.controller.name@)
            },
        },
        r.assets is Ok <==> (has_asset_named(release.assets@, core_name(os, arch))
            && has_asset_named(release.assets@, r.controller.name@)),
        r.install_wintun == (os == Os::Windows),
{
    let core_name = build_core_name(os, arch);
    let controller = resolve_controller_name(os, arch, controller_type, linux_pkg_mgr, release);
    let assets = match release.find_asset_index(core_name.as_str()) {
        None => Err(MissingAsset::Core),
        Some(core) => match release.find_asset_index(controller.name.as_str()) {
            None => Err(MissingAsset::Controller),
            Some(ctl) => Ok(SelectedAssets { core, controller: ctl }),
        },
    };
    let install_wintun = os == Os::Windows;
    ReleasePlan { core_name, controller, assets, install_wintun }
}

/// What the installer reports about the package manager it found.
pub open spec fn pkg_manager_notice_text(pkg_mgr: LinuxPkgManager) -> Seq<char> {
    match pkg_mgr {
        LinuxPkgManager::Deb => "检测到包管理器：dpkg（Debian/Ubuntu 系列）"@,
        LinuxPkgManager::Rpm => "检测到包管理器：rpm（Fedora/RHEL 系列）"@,
        LinuxPkgManager::Other => "未检测到 deb/rpm 包管理器，将使用 AppImage"@,
    }
}

pub fn pkg_manager_notice(pkg_mgr: LinuxPkgManager) -> (r: &'static str)
    ensures
        r@ == pkg_manager_notice_text(pkg_mgr),
{
    match pkg_mgr {
        LinuxPkgManager::Deb => "检测到包管理器：dpkg（Debian/Ubuntu 系列）",
        LinuxPkgManager::Rpm => "检测到包管理器：rpm（Fedora/RHEL 系列）",
        LinuxPkgManager::Other => "未检测到 deb/rpm 包管理器，将使用 AppImage",
    }
}

/// `x / d` rounded to the nearest integer, ties to the even one.
pub open spec fn div_round_half_even(x: nat, d: nat) -> nat {
    let q = x / d;
    let r = x % d;
    if 2 * r > d || (2 * r == d && q % 2 == 1) {
        q + 1
    } else {
        q
    }
}

/// The distance between neighbouring `f64` values around the whole number `n`:
/// 1 below 2^53, doubling with every binary digit above.
pub open spec fn f64_spacing(n: nat) -> nat
    decreases n,
{
    if n < 0x20_0000_0000_0000 {
        1
    } else {
        2 * f64_spacing(n / 2)
    }
}

/// The value of `n as f64`: `n` rounded to a multiple of its spacing, ties to even.
pub open spec fn as_f64(n: nat) -> nat {
    div_round_half_even(n, f64_spacing(n)) * f64_spacing(n)
}

/// A byte count for people: whole bytes below 1 KiB, else KiB or MiB with one decimal
/// place, written as `{:.1}` writes the `f64` quotient.
pub open spec fn size_text(bytes: nat) -> Seq<char> {
    if bytes >= 1024 * 1024 {
        tenths_text(div_round_half_even(as_f64(bytes) * 10, 1024 * 1024)) + " MB"@
    } else if bytes >= 1024 {
        tenths_text(div_round_half_even(bytes * 10, 1024)) + " KB"@
    } else {
        decimal(bytes) + " B"@
    }
}

fn round_half_even(x: u128, d: u128) -> (r: u128)
    requires
        0 < d < 0x1_0000_0000_0000_0000_0000_0000,
        x < 0x1_0000_0000_0000_0000_0000_0000,
    ensures
        r == div_round_half_even(x as nat, d as nat),
{
    let q = x / d;
    let rem = x % d;
    if 2 * rem > d || (2 * rem == d && q % 2 == 1) {
        q + 1
    } else {
        q
    }
}

/// `bytes as f64` as a whole number.
fn u64_as_f64(bytes: u64) -> (r: u128)
    ensures
        r == as_f64(bytes as nat),
        r < 0x2_0000_0000_0000_0000,
{
    let mut spacing: u128 = 1;
    let mut m: u128 = bytes as u128;
    while m >= 0x20_0000_0000_0000
        invariant
            1 <= spacing,
            m * spacing <= bytes,
            spacing == 1 || spacing * 0x10_0000_0000_0000 <= bytes,
            m == bytes as nat / spacing as nat,
            f64_spacing(bytes as nat) == spacing * f64_spacing(m as nat),
        decreases m,
    {
        assert(f64_spacing(m as nat) == 2 * f64_spacing((m / 2) as nat));
        assert(spacing * f64_spacing(m as nat) == (spacing * 2) * f64_spacing((m / 2) as nat))
            by (nonlinear_arith)
            requires
                f64_spacing(m as nat) == 2 * f64_spacing((m / 2) as nat),
        ;
        assert((spacing * 2) * 0x10_0000_0000_0000 <= bytes) by (nonlinear_arith)
            requires
                m >= 0x20_0000_0000_0000,
                m * spacing <= bytes,
        ;
        assert((m / 2) * (spacing * 2) <= m * spacing) by (nonlinear_arith);
        assert((m / 2) == bytes as nat / (spacing * 2) as nat) by {
            vstd::arithmetic::div_mod::lemma_div_denominator(bytes as int, spacing as int, 2);
        }
        m = m / 2;
        spacing = spacing * 2;
    }
    assert(f64_spacing(m as nat) == 1);
    assert(f64_spacing(bytes as nat) == spacing);
    let q = round_half_even(bytes as u128, spacing);
    assert(q <= m + 1);
    assert(q * spacing <= (m + 1) * spacing) by (nonlinear_arith)
        requires
            q <= m + 1,
    ;
    assert((m + 1) * spacing < 0x2_0000_0000_0000_0000) by (nonlinear_arith)
        requires
            m * spacing <= bytes,
            spacing == 1 || spacing * 0x10_0000_0000_0000 <= bytes,
            bytes < 0x1_0000_0000_0000_0000,
    ;
    q * spacing
}

/// Formats a byte count for people, as `"512 B"`, `"1.5 KB"` or `"12.3 MB"`.
pub fn format_size(bytes: u64) -> (r: String)
    ensures
        r@ == size_text(bytes as nat),
{
    let mut out = String::new();
    if bytes >= 1024 * 1024 {
        let exact = u64_as_f64(bytes);
        push_tenths(&mut out, round_half_even(exact * 10, 1024 * 1024));
        out.append(" MB");
    } else if bytes >= 1024 {
        push_tenths(&mut out, round_half_even(bytes as u128 * 10, 1024));
        out.append(" KB");
    } else {
        push_decimal(&mut out, bytes as u128);
        out.append(" B");
    }
    assert(out@ =~= size_text(bytes as nat));
    out
}

/// Different platforms get different core file names, so no core can be taken for another.
pub proof fn lemma_core_names_distinct(os1: Os, arch1: Arch, os2: Os, arch2: Arch)
    requires
        core_name(os1, arch1) == core_name(os2, arch2),
    ensures
        os1 == os2,
        arch1 == arch2,
{
    reveal_strlit("msst-net-client-core-");
    reveal_strlit("-");
    reveal_strlit("linux");
    reveal_strlit("windows");
    reveal_strlit("macos");
    reveal_strlit("x86_64");
    reveal_strlit("aarch64");
    let prefix = "msst-net-client-core-"@;
    assert(prefix.len() == 21);
    let n1 = core_name(os1, arch1);
    let n2 = core_name(os2, arch2);
    assert(os1.platform_text().len() > 0 && os2.platform_text().len() > 0);
    assert(n1[21] == os1.platform_text()[0]);
    assert(n2[21] == os2.platform_text()[0]);
    assert(os1 == os2);
    let k: int = 21 + os1.platform_text().len() as int + 1;
    assert(arch1.core_arch_text().len() > 0 && arch2.core_arch_text().len() > 0);
    assert(n1[k] == arch1.core_arch_text()[0]);
    assert(n2[k] == arch2.core_arch_text()[0]);
}

/// The desktop controller on Linux is the native package exactly when the package
/// manager prefers one and the release publishes it; otherwise it is the AppImage.
pub proof fn lemma_linux_desktop_controller(
    arch: Arch,
    pkg_mgr: LinuxPkgManager,
    release: ReleaseInfo,
)
    ensures
        ({
            let native = native_name(Os::Linux, arch, ControllerType::Tauri, pkg_mgr);
            let name = controller_name(Os::Linux, arch, ControllerType::Tauri, pkg_mgr, release);
            if pkg_mgr != LinuxPkgManager::Other && has_asset_named(release.assets@, native) {
                name == native
            } else {
                name == controller_base(Os::Linux, arch, ControllerType::Tauri) + ".AppImage"@
            }
        }),
{
    reveal_strlit(".deb");
    reveal_strlit(".rpm");
    reveal_strlit(".AppImage");
    assert(".deb"@.len() == 4);
    assert(".rpm"@.len() == 4);
    assert(".AppImage"@.len() == 9);
}

/// Other controllers, and any controller on other systems, are never native packages:
/// their name is the base name with the suffix the system uses for them.
pub proof fn lemma_other_controllers_plain(
    os: Os,
    arch: Arch,
    controller_type: ControllerType,
    pkg_mgr: LinuxPkgManager,
    release: ReleaseInfo,
)
    requires
        os != Os::Linux || controller_type != ControllerType::Tauri,
    ensures
        controller_name(os, arch, controller_type, pkg_mgr, release) == controller_base(
            os,
            arch,
            controller_type,
        ) + controller_type.os_suffix_text(os),
        native_notice(os, arch, controller_type, pkg_mgr, release) is None,
{
}

} // verus!
