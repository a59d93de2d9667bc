//! The packages of the base system, and the step that installs them.

use vstd::prelude::*;
use vstd::string::StringExecFns;

use crate::command::{
    add_all, add_group, command, demand, group, strings, texts, Invocation, Script, Step, StepView,
};
use crate::config::{Config, ConfigView};
use crate::text::{contains, glue, same_text, str_contains};

verus! {

/// The package that holds the kernel of the given type. The kernel with the
/// BORE scheduler comes after the first boot; until then the plain kernel
/// stands in for it.
pub open spec fn kernel_package(kernel_type: Seq<char>) -> Seq<char> {
    if kernel_type == "linux-bore"@ {
        "linux"@
    } else {
        kernel_type
    }
}

/// The package that holds the kernel of the given type.
pub fn kernel_package_of(kernel_type: &str) -> (package: String)
    ensures
        package@ == kernel_package(kernel_type@),
{
    if same_text(kernel_type, "linux-bore") {
        String::from_str("linux")
    } else {
        String::from_str(kernel_type)
    }
}

/// Whether the installation boots the kernel straight from the firmware, so
/// that it needs no bootloader.
pub open spec fn wants_direct_boot(bootloader: Seq<char>) -> bool {
    bootloader == "nmbl"@
}

/// The packages that every installation gets, whatever the kernel.
pub open spec fn common_packages() -> Seq<Seq<char>> {
    seq![
        "linux-firmware"@,
        "base-devel"@,
        "sudo"@,
        "nano"@,
        "vim"@,
        "networkmanager"@,
        "network-manager-applet"@,
        "efibootmgr"@,
        "dosfstools"@,
        "ntfs-3g"@,
        "btrfs-progs"@,
        "intel-ucode"@,
        "amd-ucode"@,
        "mesa"@,
        "vulkan-icd-loader"@,
        "pciutils"@,
        "noto-fonts"@,
        "noto-fonts-cjk"@,
        "noto-fonts-emoji"@,
        "ttf-liberation"@,
        "git"@,
        "wget"@,
        "curl"@,
        "fastfetch"@,
        "htop"@,
        "man-db"@,
        "man-pages"@,
    ]
}

/// The packages of the base system: the kernel with its headers, what every
/// installation gets, and the bootloader unless the kernel is booted straight
/// from the firmware.
pub open spec fn base_packages(cfg: ConfigView) -> Seq<Seq<char>> {
    seq![
        "base"@,
        kernel_package(cfg.kernel.type_),
        kernel_package(cfg.kernel.type_) + "-headers"@,
    ] + common_packages() + group(
        !wants_direct_boot(cfg.install.bootloader),
        seq!["grub"@, "os-prober"@],
    )
}

/// The packages of the desktop.
pub open spec fn desktop_packages() -> Seq<Seq<char>> {
    seq![
        "xorg-server"@,
        "xorg-xinit"@,
        "wayland"@,
        "plasma-meta"@,
        "sddm"@,
        "konsole"@,
        "dolphin"@,
        "kate"@,
        "ark"@,
        "gwenview"@,
        "okular"@,
        "spectacle"@,
        "kwalletmanager"@,
        "kcalc"@,
        "plasma-systemmonitor"@,
        "kde-gtk-config"@,
        "kio-extras"@,
        "kdegraphics-thumbnailers"@,
        "ffmpegthumbs"@,
        "plasma-pa"@,
        "plasma-nm"@,
        "plasma-firewall"@,
        "partitionmanager"@,
        "filelight"@,
        "ksystemlog"@,
        "pipewire"@,
        "pipewire-alsa"@,
        "pipewire-pulse"@,
        "pipewire-jack"@,
        "wireplumber"@,
        "cups"@,
        "print-manager"@,
    ]
}

/// Whether one of the languages has `code` in its name.
pub open spec fn speaks(languages: Seq<Seq<char>>, code: Seq<char>) -> bool {
    exists|i: int| 0 <= i < languages.len() && contains(#[trigger] languages[i], code)
}

/// The fonts: for every installation those of the Latin script and the
/// emoji, for Korean, Japanese and Chinese those of their scripts, and for
/// Korean one more.
pub open spec fn font_packages(cfg: ConfigView) -> Seq<Seq<char>> {
    let languages = cfg.locale.languages;
    seq!["noto-fonts"@, "noto-fonts-emoji"@] + group(
        speaks(languages, "ko"@) || speaks(languages, "ja"@) || speaks(languages, "zh"@),
        seq!["noto-fonts-cjk"@],
    ) + group(speaks(languages, "ko"@), seq!["ttf-baekmuk"@])
}

/// The packages of the input method, where one is switched on: what its
/// engine needs, and for the engines that take them the additions for the
/// languages spoken.
pub open spec fn input_method_packages(cfg: ConfigView) -> Seq<Seq<char>> {
    let languages = cfg.locale.languages;
    let engine = cfg.input_method.engine;
    if !cfg.input_method.enabled {
        Seq::empty()
    } else if engine == "kime"@ {
        seq!["gtk3"@, "gtk4"@, "qt5-base"@, "qt6-base"@, "qt6-tools"@]
    } else if engine == "fcitx5"@ {
        seq!["fcitx5"@, "fcitx5-configtool"@, "fcitx5-gtk"@, "fcitx5-qt"@] + group(
            speaks(languages, "ko"@),
            seq!["fcitx5-hangul"@],
        ) + group(speaks(languages, "ja"@), seq!["fcitx5-mozc"@]) + group(
            speaks(languages, "zh"@),
            seq!["fcitx5-chinese-addons"@],
        )
    } else if engine == "ibus"@ {
        seq!["ibus"@] + group(speaks(languages, "ko"@), seq!["ibus-hangul"@]) + group(
            speaks(languages, "ja"@),
            seq!["ibus-mozc"@],
        )
    } else {
        Seq::empty()
    }
}

/// Everything that the base system is made of.
pub open spec fn system_packages(cfg: ConfigView) -> Seq<Seq<char>> {
    base_packages(cfg) + desktop_packages() + font_packages(cfg) + input_method_packages(cfg)
}

/// Installing the base system into the tree at `mount_point`. Without it
/// there is no system: a failure is fatal.
pub open spec fn base_system_steps(cfg: ConfigView, mount_point: Seq<char>) -> Seq<StepView> {
    seq![
        demand(
            command("pacstrap"@, seq!["-K"@, mount_point] + system_packages(cfg)),
            "pacstrap failed"@,
        ),
    ]
}

/// Whether one of the languages has `code` in its name.
pub fn has_lang(languages: &Vec<String>, code: &str) -> (yes: bool)
    ensures
        yes == speaks(texts(languages@), code@),
{
    let mut i: usize = 0;
    while i < languages.len()
        invariant
            i <= languages@.len(),
            forall|j: int| 0 <= j < i ==> !contains(#[trigger] texts(languages@)[j], code@),
        decreases languages@.len() - i,
    {
        if str_contains(languages[i].as_str(), code) {
            assert(contains(texts(languages@)[i as int], code@));
            return true;
        }
        i += 1;
    }
    false
}

/// The packages of the base system.
pub fn get_base_packages(cfg: &Config) -> (packages: Vec<String>)
    ensures
        texts(packages@) == base_packages(cfg@),
{
    let kernel = kernel_package_of(cfg.kernel.type_.as_str());
    let headers = glue(kernel.as_str(), "-headers");
    let head = ["base", kernel.as_str(), headers.as_str()];
    let mut packages = strings(&head);
    let common = [
        "linux-firmware",
        "base-devel",
        "sudo",
        "nano",
        "vim",
        "networkmanager",
        "network-manager-applet",
        "efibootmgr",
        "dosfstools",
        "ntfs-3g",
        "btrfs-progs",
        "intel-ucode",
        "amd-ucode",
        "mesa",
        "vulkan-icd-loader",
        "pciutils",
        "noto-fonts",
        "noto-fonts-cjk",
        "noto-fonts-emoji",
        "ttf-liberation",
        "git",
        "wget",
        "curl",
        "fastfetch",
        "htop",
        "man-db",
        "man-pages",
    ];
    add_group(&mut packages, true, &common);
    let loader = ["grub", "os-prober"];
    add_group(&mut packages, !same_text(cfg.install.bootloader.as_str(), "nmbl"), &loader);
    packages
}

/// The packages of the desktop.
pub fn get_desktop_packages() -> (packages: Vec<String>)
    ensures
        texts(packages@) == desktop_packages(),
{
    let names = [
        "xorg-server",
        "xorg-xinit",
        "wayland",
        "plasma-meta",
        "sddm",
        "konsole",
        "dolphin",
        "kate",
        "ark",
        "gwenview",
        "okular",
        "spectacle",
        "kwalletmanager",
        "kcalc",
        "plasma-systemmonitor",
        "kde-gtk-config",
        "kio-extras",
        "kdegraphics-thumbnailers",
        "ffmpegthumbs",
        "plasma-pa",
        "plasma-nm",
        "plasma-firewall",
        "partitionmanager",
        "filelight",
        "ksystemlog",
        "pipewire",
        "pipewire-alsa",
        "pipewire-pulse",
        "pipewire-jack",
        "wireplumber",
        "cups",
        "print-manager",
    ];
    strings(&names)
}

/// The fonts for the languages of the configuration.
pub fn get_font_packages(cfg: &Config) -> (fonts: Vec<String>)
    ensures
        texts(fonts@) == font_packages(cfg@),
{
    let languages = &cfg.locale.languages;
    let ko = has_lang(languages, "ko");
    let ja = has_lang(languages, "ja");
    let zh = has_lang(languages, "zh");
    let latin = ["noto-fonts", "noto-fonts-emoji"];
    let mut fonts = strings(&latin);
    let cjk = ["noto-fonts-cjk"];
    add_group(&mut fonts, ko || ja || zh, &cjk);
    let korean = ["ttf-baekmuk"];
    add_group(&mut fonts, ko, &korean);
    fonts
}

/// The packages of the input method of the configuration.
pub fn get_input_method_packages(cfg: &Config) -> (packages: Vec<String>)
    ensures
        texts(packages@) == input_method_packages(cfg@),
{
    let mut packages: Vec<String> = Vec::new();
    if !cfg.input_method.enabled {
        return packages;
    }
    let languages = &cfg.locale.languages;
    let engine = cfg.input_method.engine.as_str();
    if same_text(engine, "kime") {
        let names = ["gtk3", "gtk4", "qt5-base", "qt6-base", "qt6-tools"];
        packages = strings(&names);
    } else if same_text(engine, "fcitx5") {
        let names = ["fcitx5", "fcitx5-configtool", "fcitx5-gtk", "fcitx5-qt"];
        packages = strings(&names);
        let hangul = ["fcitx5-hangul"];
        add_group(&mut packages, has_lang(languages, "ko"), &hangul);
        let mozc = ["fcitx5-mozc"];
        add_group(&mut packages, has_lang(languages, "ja"), &mozc);
        let chinese = ["fcitx5-chinese-addons"];
        add_group(&mut packages, has_lang(languages, "zh"), &chinese);
    } else if same_text(engine, "ibus") {
        let names = ["ibus"];
        packages = strings(&names);
        let hangul = ["ibus-hangul"];
        add_group(&mut packages, has_lang(languages, "ko"), &hangul);
        let mozc = ["ibus-mozc"];
        add_group(&mut packages, has_lang(languages, "ja"), &mozc);
    }
    packages
}

/// Everything that the base system is made of.
pub fn get_system_packages(cfg: &Config) -> (packages: Vec<String>)
    ensures
        texts(packages@) == system_packages(cfg@),
{
    let mut packages = get_base_packages(cfg);
    add_all(&mut packages, get_desktop_packages());
    add_all(&mut packages, get_font_packages(cfg));
    add_all(&mut packages, get_input_method_packages(cfg));
    packages
}

/// The steps that install the base system into the tree at `mount_point`.
pub fn install_base_system(cfg: &Config, mount_point: &str) -> (script: Script)
    ensures
        script@ == base_system_steps(cfg@, mount_point@),
{
    let packages = get_system_packages(cfg);
    let mut script = Script::new();
    script.push(
        Step::demand(
            Invocation::new("pacstrap", &["-K", mount_point]).args(&packages),
            "pacstrap failed",
        ),
    );
    assert(script@ =~~= base_system_steps(cfg@, mount_point@));
    script
}

} // verus!
