//! The configuration record that an installation runs on.

use vstd::prelude::*;
use vstd::string::StringExecFns;

use crate::command::{copy_texts, texts};
use crate::text::{lowercase, same_text, to_lowercase};

verus! {

/// How much swap space the installed system gets.
#[derive(Debug, Clone, Copy, PartialEq, Eq, Structural)]
pub enum SwapMode {
    /// No swap.
    NoSwap,
    /// Half the memory.
    Small,
    /// As much as the memory, so that the machine can hibernate.
    Suspend,
    /// A swap file of a moderate size.
    File,
}

/// The swap mode that a label in lower case stands for. A label that names no
/// mode stands for `Suspend`.
pub open spec fn mode_of(label: Seq<char>) -> SwapMode {
    if label == "none"@ {
        SwapMode::NoSwap
    } else if label == "small"@ {
        SwapMode::Small
    } else if label == "file"@ {
        SwapMode::File
    } else {
        SwapMode::Suspend
    }
}

/// The text that describes a swap mode to the user.
pub open spec fn label_of(mode: SwapMode) -> Seq<char> {
    match mode {
        SwapMode::NoSwap => "none"@,
        SwapMode::Small => "small (RAM/2)"@,
        SwapMode::Suspend => "suspend (RAM size)"@,
        SwapMode::File => "file"@,
    }
}

impl SwapMode {
    /// The swap mode that `s` names, in whatever case it is written.
    pub fn from_str(s: &str) -> (mode: SwapMode)
        ensures
            mode == mode_of(lowercase(s@)),
    {
        let lowered = to_lowercase(s);
        SwapMode::from_label(lowered.as_str())
    }

    /// The swap mode that the lower-case label names.
    pub fn from_label(label: &str) -> (mode: SwapMode)
        ensures
            mode == mode_of(label@),
    {
        if same_text(label, "none") {
            SwapMode::NoSwap
        } else if same_text(label, "small") {
            SwapMode::Small
        } else if same_text(label, "file") {
            SwapMode::File
        } else {
            SwapMode::Suspend
        }
    }

    /// The text that describes the mode to the user.
    pub fn label(&self) -> (text: &'static str)
        ensures
            text@ == label_of(*self),
    {
        match self {
            SwapMode::NoSwap => "none",
            SwapMode::Small => "small (RAM/2)",
            SwapMode::Suspend => "suspend (RAM size)",
            SwapMode::File => "file",
        }
    }
}

/// The distribution that is installed.
#[derive(Debug, PartialEq, Eq)]
pub struct BlunuxConfig {
    pub version: String,
    pub name: String,
}

/// A [`BlunuxConfig`] as the texts that it holds.
pub struct BlunuxView {
    pub version: Seq<char>,
    pub name: Seq<char>,
}

impl View for BlunuxConfig {
    type V = BlunuxView;

    open spec fn view(&self) -> BlunuxView {
        BlunuxView { version: self.version@, name: self.name@ }
    }
}

impl Default for BlunuxConfig {
    fn default() -> (cfg: Self)
        ensures
            cfg@ == (BlunuxView { version: "1.0"@, name: "blunux"@ }),
    {
        BlunuxConfig { version: String::from_str("1.0"), name: String::from_str("blunux") }
    }
}

impl Clone for BlunuxConfig {
    fn clone(&self) -> (copy: Self)
        ensures
            copy@ == self@,
    {
        BlunuxConfig { version: self.version.clone(), name: self.name.clone() }
    }
}

/// Languages, time zone and keyboard layouts.
#[derive(Debug, PartialEq, Eq)]
pub struct LocaleConfig {
    pub languages: Vec<String>,
    pub timezone: String,
    pub keyboards: Vec<String>,
}

/// A [`LocaleConfig`] as the texts that it holds.
pub struct LocaleView {
    pub languages: Seq<Seq<char>>,
    pub timezone: Seq<char>,
    pub keyboards: Seq<Seq<char>>,
}

impl View for LocaleConfig {
    type V = LocaleView;

    open spec fn view(&self) -> LocaleView {
        LocaleView {
            languages: texts(self.languages@),
            timezone: self.timezone@,
            keyboards: texts(self.keyboards@),
        }
    }
}

impl Default for LocaleConfig {
    fn default() -> (cfg: Self)
        ensures
            cfg@ == (LocaleView {
                languages: seq!["ko_KR"@],
                timezone: "Asia/Seoul"@,
                keyboards: seq!["us"@],
            }),
    {
        let mut languages: Vec<String> = Vec::new();
        languages.push(String::from_str("ko_KR"));
        let mut keyboards: Vec<String> = Vec::new();
        keyboards.push(String::from_str("us"));
        assert(texts(languages@) =~= seq!["ko_KR"@]);
        assert(texts(keyboards@) =~= seq!["us"@]);
        LocaleConfig { languages, timezone: String::from_str("Asia/Seoul"), keyboards }
    }
}

impl Clone for LocaleConfig {
    fn clone(&self) -> (copy: Self)
        ensures
            copy@ == self@,
    {
        LocaleConfig {
            languages: copy_texts(&self.languages),
            timezone: self.timezone.clone(),
            keyboards: copy_texts(&self.keyboards),
        }
    }
}

/// The input method for languages that need one.
#[derive(Debug, PartialEq, Eq)]
pub struct InputMethodConfig {
    pub enabled: bool,
    pub engine: String,
}

/// An [`InputMethodConfig`] as the text that it holds.
pub struct InputMethodView {
    pub enabled: bool,
    pub engine: Seq<char>,
}

impl View for InputMethodConfig {
    type V = InputMethodView;

    open spec fn view(&self) -> InputMethodView {
        InputMethodView { enabled: self.enabled, engine: self.engine@ }
    }
}

impl Default for InputMethodConfig {
    fn default() -> (cfg: Self)
        ensures
            cfg@ == (InputMethodView { enabled: true, engine: "kime"@ }),
    {
        InputMethodConfig { enabled: true, engine: String::from_str("kime") }
    }
}

impl Clone for InputMethodConfig {
    fn clone(&self) -> (copy: Self)
        ensures
            copy@ == self@,
    {
        InputMethodConfig { enabled: self.enabled, engine: self.engine.clone() }
    }
}

/// The kernel to install.
#[derive(Debug, PartialEq, Eq)]
pub struct KernelConfig {
    pub type_: String,
}

/// A [`KernelConfig`] as the text that it holds.
pub struct KernelView {
    pub type_: Seq<char>,
}

impl View for KernelConfig {
    type V = KernelView;

    open spec fn view(&self) -> KernelView {
        KernelView { type_: self.type_@ }
    }
}

impl Default for KernelConfig {
    fn default() -> (cfg: Self)
        ensures
            cfg@ == (KernelView { type_: "linux"@ }),
    {
        KernelConfig { type_: String::from_str("linux") }
    }
}

impl Clone for KernelConfig {
    fn clone(&self) -> (copy: Self)
        ensures
            copy@ == self@,
    {
        KernelConfig { type_: self.type_.clone() }
    }
}

/// Disk settings.
#[derive(Debug, Clone, Copy, PartialEq, Eq, Structural)]
pub struct DiskConfig {
    pub swap: SwapMode,
}

impl Default for DiskConfig {
    fn default() -> (cfg: Self)
        ensures
            cfg == (DiskConfig { swap: SwapMode::Suspend }),
    {
        DiskConfig { swap: SwapMode::Suspend }
    }
}

/// The optional software that the user chose.
#[derive(Debug, Clone, Copy, PartialEq, Eq, Structural)]
pub struct PackagesConfig {
    // Desktop
    pub kde: bool,
    // Browsers
    pub firefox: bool,
    pub whale: bool,
    pub chrome: bool,
    pub mullvad: bool,
    // Office
    pub libreoffice: bool,
    pub hoffice: bool,
    pub texlive: bool,
    // Development
    pub vscode: bool,
    pub sublime: bool,
    pub git: bool,
    pub rust: bool,
    pub julia: bool,
    pub nodejs: bool,
    pub github_cli: bool,
    // Multimedia
    pub vlc: bool,
    pub obs: bool,
    pub freetv: bool,
    pub ytdlp: bool,
    pub freetube: bool,
    // Gaming
    pub steam: bool,
    pub unciv: bool,
    pub snes9x: bool,
    // Virtualization
    pub virtualbox: bool,
    pub docker: bool,
    // Communication
    pub teams: bool,
    pub whatsapp: bool,
    pub onenote: bool,
    // Utility
    pub bluetooth: bool,
    pub conky: bool,
    pub vnc: bool,
    pub samba: bool,
}

impl PackagesConfig {
    /// The choice of nothing.
    pub open spec fn nothing() -> PackagesConfig {
        PackagesConfig {
            kde: false,
            firefox: false,
            whale: false,
            chrome: false,
            mullvad: false,
            libreoffice: false,
            hoffice: false,
            texlive: false,
            vscode: false,
            sublime: false,
            git: false,
            rust: false,
            julia: false,
            nodejs: false,
            github_cli: false,
            vlc: false,
            obs: false,
            freetv: false,
            ytdlp: false,
            freetube: false,
            steam: false,
            unciv: false,
            snes9x: false,
            virtualbox: false,
            docker: false,
            teams: false,
            whatsapp: false,
            onenote: false,
            bluetooth: false,
            conky: false,
            vnc: false,
            samba: false,
        }
    }
}

impl Default for PackagesConfig {
    fn default() -> (cfg: Self)
        ensures
            cfg == PackagesConfig::nothing(),
    {
        PackagesConfig {
            kde: false,
            firefox: false,
            whale: false,
            chrome: false,
            mullvad: false,
            libreoffice: false,
            hoffice: false,
            texlive: false,
            vscode: false,
            sublime: false,
            git: false,
            rust: false,
            julia: false,
            nodejs: false,
            github_cli: false,
            vlc: false,
            obs: false,
            freetv: false,
            ytdlp: false,
            freetube: false,
            steam: false,
            unciv: false,
            snes9x: false,
            virtualbox: false,
            docker: false,
            teams: false,
            whatsapp: false,
            onenote: false,
            bluetooth: false,
            conky: false,
            vnc: false,
            samba: false,
        }
    }
}

/// Where and for whom to install.
#[derive(Debug, PartialEq, Eq)]
pub struct InstallConfig {
    pub target_disk: String,
    pub hostname: String,
    pub username: String,
    pub root_password: String,
    pub user_password: String,
    pub use_encryption: bool,
    pub encryption_password: String,
    pub bootloader: String,
    pub autologin: bool,
}

/// An [`InstallConfig`] as the texts that it holds.
pub struct InstallView {
    pub target_disk: Seq<char>,
    pub hostname: Seq<char>,
    pub username: Seq<char>,
    pub root_password: Seq<char>,
    pub user_password: Seq<char>,
    pub use_encryption: bool,
    pub encryption_password: Seq<char>,
    pub bootloader: Seq<char>,
    pub autologin: bool,
}

impl View for InstallConfig {
    type V = InstallView;

    open spec fn view(&self) -> InstallView {
        InstallView {
            target_disk: self.target_disk@,
            hostname: self.hostname@,
            username: self.username@,
            root_password: self.root_password@,
            user_password: self.user_password@,
            use_encryption: self.use_encryption,
            encryption_password: self.encryption_password@,
            bootloader: self.bootloader@,
            autologin: self.autologin,
        }
    }
}

impl InstallView {
    /// The settings of an installation that nothing was said about.
    pub open spec fn initial() -> InstallView {
        InstallView {
            target_disk: Seq::empty(),
            hostname: "blunux"@,
            username: "user"@,
            root_password: Seq::empty(),
            user_password: Seq::empty(),
            use_encryption: false,
            encryption_password: Seq::empty(),
            bootloader: "grub"@,
            autologin: true,
        }
    }
}

impl Default for InstallConfig {
    fn default() -> (cfg: Self)
        ensures
            cfg@ == InstallView::initial(),
    {
        InstallConfig {
            target_disk: String::new(),
            hostname: String::from_str("blunux"),
            username: String::from_str("user"),
            root_password: String::new(),
            user_password: String::new(),
            use_encryption: false,
            encryption_password: String::new(),
            bootloader: String::from_str("grub"),
            autologin: true,
        }
    }
}

impl Clone for InstallConfig {
    fn clone(&self) -> (copy: Self)
        ensures
            copy@ == self@,
    {
        InstallConfig {
            target_disk: self.target_disk.clone(),
            hostname: self.hostname.clone(),
            username: self.username.clone(),
            root_password: self.root_password.clone(),
            user_password: self.user_password.clone(),
            use_encryption: self.use_encryption,
            encryption_password: self.encryption_password.clone(),
            bootloader: self.bootloader.clone(),
            autologin: self.autologin,
        }
    }
}

/// Everything the installer is told.
#[derive(Debug, PartialEq, Eq)]
pub struct Config {
    pub blunux: BlunuxConfig,
    pub locale: LocaleConfig,
    pub input_method: InputMethodConfig,
    pub kernel: KernelConfig,
    pub disk: DiskConfig,
    pub packages: PackagesConfig,
    pub install: InstallConfig,
    /// Whether the values came from a configuration file. If so they are
    /// taken as given and the user is not asked for them again.
    pub loaded_from_file: bool,
}

/// A [`Config`] as the texts that it holds.
pub struct ConfigView {
    pub blunux: BlunuxView,
    pub locale: LocaleView,
    pub input_method: InputMethodView,
    pub kernel: KernelView,
    pub disk: DiskConfig,
    pub packages: PackagesConfig,
    pub install: InstallView,
    pub loaded_from_file: bool,
}

impl View for Config {
    type V = ConfigView;

    open spec fn view(&self) -> ConfigView {
        ConfigView {
            blunux: self.blunux@,
            locale: self.locale@,
            input_method: self.input_method@,
            kernel: self.kernel@,
            disk: self.disk,
            packages: self.packages,
            install: self.install@,
            loaded_from_file: self.loaded_from_file,
        }
    }
}

impl ConfigView {
    /// The configuration that nothing was said about.
    pub open spec fn initial() -> ConfigView {
        ConfigView {
            blunux: BlunuxView { version: "1.0"@, name: "blunux"@ },
            locale: LocaleView {
                languages: seq!["ko_KR"@],
                timezone: "Asia/Seoul"@,
                keyboards: seq!["us"@],
            },
            input_method: InputMethodView { enabled: true, engine: "kime"@ },
            kernel: KernelView { type_: "linux"@ },
            disk: DiskConfig { swap: SwapMode::Suspend },
            packages: PackagesConfig::nothing(),
            install: InstallView::initial(),
            loaded_from_file: false,
        }
    }
}

impl Default for Config {
    fn default() -> (cfg: Self)
        ensures
            cfg@ == ConfigView::initial(),
    {
        Config {
            blunux: BlunuxConfig::default(),
            locale: LocaleConfig::default(),
            input_method: InputMethodConfig::default(),
            kernel: KernelConfig::default(),
            disk: DiskConfig::default(),
            packages: PackagesConfig::default(),
            install: InstallConfig::default(),
            loaded_from_file: false,
        }
    }
}

impl Clone for Config {
    fn clone(&self) -> (copy: Self)
        ensures
            copy@ == self@,
    {
        Config {
            blunux: self.blunux.clone(),
            locale: self.locale.clone(),
            input_method: self.input_method.clone(),
            kernel: self.kernel.clone(),
            disk: self.disk,
            packages: self.packages,
            install: self.install.clone(),
            loaded_from_file: self.loaded_from_file,
        }
    }
}

/// The names in `table` whose flag is set, in the order of the table.
pub open spec fn chosen(table: Seq<(bool, Seq<char>)>) -> Seq<Seq<char>>
    decreases table.len(),
{
    if table.len() == 0 {
        Seq::empty()
    } else if table.last().0 {
        chosen(table.drop_last()).push(table.last().1)
    } else {
        chosen(table.drop_last())
    }
}

/// What each program that is installed by a script of its own is called, with
/// the choice made for it, in the order in which they are installed.
pub open spec fn script_table(p: PackagesConfig) -> Seq<(bool, &'static str)> {
    seq![
        (p.firefox, "firefox"),
        (p.whale, "whale"),
        (p.chrome, "chrome"),
        (p.mullvad, "mullvad"),
        (p.libreoffice, "libreoffice"),
        (p.hoffice, "hoffice"),
        (p.texlive, "texlive"),
        (p.vscode, "vscode"),
        (p.sublime, "sublime"),
        (p.rust, "rust"),
        (p.julia, "julia"),
        (p.nodejs, "nodejs"),
        (p.github_cli, "github_cli"),
        (p.obs, "obs"),
        (p.vlc, "vlc"),
        (p.freetv, "freetv"),
        (p.ytdlp, "ytdlp"),
        (p.freetube, "freetube"),
        (p.steam, "steam"),
        (p.unciv, "unciv"),
        (p.snes9x, "snes9x"),
        (p.virtualbox, "virtualbox"),
        (p.docker, "docker"),
        (p.teams, "teams"),
        (p.whatsapp, "whatsapp"),
        (p.onenote, "onenote"),
        (p.conky, "conky"),
        (p.vnc, "vnc"),
        (p.samba, "samba"),
        (p.bluetooth, "bluetooth"),
    ]
}

/// The chosen programs that are installed by a script of their own after the
/// first boot, in the order in which they are installed.
pub open spec fn script_packages(p: PackagesConfig) -> Seq<Seq<char>> {
    chosen(table_view(script_table(p)))
}

/// The view of a table of choices.
pub open spec fn table_view(table: Seq<(bool, &str)>) -> Seq<(bool, Seq<char>)> {
    Seq::new(table.len(), |i: int| (table[i].0, table[i].1@))
}

/// The names in `table` whose flag is set, in the order of the table.
pub fn select(table: &[(bool, &str)]) -> (names: Vec<String>)
    ensures
        texts(names@) == chosen(table_view(table@)),
{
    let ghost all = table_view(table@);
    let mut names: Vec<String> = Vec::new();
    let mut i: usize = 0;
    while i < table.len()
        invariant
            i <= table@.len(),
            all == table_view(table@),
            texts(names@) == chosen(all.take(i as int)),
        decreases table@.len() - i,
    {
        assert(all.take(i + 1).drop_last() =~= all.take(i as int));
        if table[i].0 {
            names.push(String::from_str(table[i].1));
        }
        i += 1;
    }
    assert(all.take(table@.len() as int) =~= all);
    names
}

impl Config {
    /// The chosen programs that are installed by a script of their own after
    /// the first boot.
    pub fn get_script_package_list(&self) -> (scripts: Vec<String>)
        ensures
            texts(scripts@) == script_packages(self.packages),
    {
        let p = self.packages;
        let table = [
            // Browsers
            (p.firefox, "firefox"),
            (p.whale, "whale"),
            (p.chrome, "chrome"),
            (p.mullvad, "mullvad"),
            // Office
            (p.libreoffice, "libreoffice"),
            (p.hoffice, "hoffice"),
            (p.texlive, "texlive"),
            // Development
            (p.vscode, "vscode"),
            (p.sublime, "sublime"),
            (p.rust, "rust"),
            (p.julia, "julia"),
            (p.nodejs, "nodejs"),
            (p.github_cli, "github_cli"),
            // Multimedia
            (p.obs, "obs"),
            (p.vlc, "vlc"),
            (p.freetv, "freetv"),
            (p.ytdlp, "ytdlp"),
            (p.freetube, "freetube"),
            // Gaming
            (p.steam, "steam"),
            (p.unciv, "unciv"),
            (p.snes9x, "snes9x"),
            // Virtualization
            (p.virtualbox, "virtualbox"),
            (p.docker, "docker"),
            // Communication
            (p.teams, "teams"),
            (p.whatsapp, "whatsapp"),
            (p.onenote, "onenote"),
            // Utility
            (p.conky, "conky"),
            (p.vnc, "vnc"),
            (p.samba, "samba"),
            (p.bluetooth, "bluetooth"),
        ];
        select(&table)
    }
}

/// The `language` entry of a configuration file: one language or several.
#[derive(Debug, PartialEq, Eq)]
pub enum TomlStringOrArray {
    Single(String),
    Array(Vec<String>),
}

/// The `[blunux]` section of a configuration file.
#[derive(Debug, PartialEq, Eq)]
pub struct TomlBlunux {
    pub version: Option<String>,
    pub name: Option<String>,
}

/// The `[locale]` section of a configuration file.
#[derive(Debug, PartialEq, Eq)]
pub struct TomlLocale {
    pub language: Option<TomlStringOrArray>,
    pub timezone: Option<String>,
    pub keyboard: Option<Vec<String>>,
}

/// The `[input_method]` section of a configuration file.
#[derive(Debug, PartialEq, Eq)]
pub struct TomlInputMethod {
    pub enabled: Option<bool>,
    pub engine: Option<String>,
}

/// The `[kernel]` section of a configuration file.
#[derive(Debug, PartialEq, Eq)]
pub struct TomlKernel {
    pub type_: Option<String>,
}

/// The `[disk]` section of a configuration file.
#[derive(Debug, PartialEq, Eq)]
pub struct TomlDisk {
    pub swap: Option<String>,
}

/// The `[install]` section of a configuration file.
#[derive(Debug, PartialEq, Eq)]
pub struct TomlInstall {
    pub hostname: Option<String>,
    pub username: Option<String>,
    pub root_password: Option<String>,
    pub user_password: Option<String>,
    pub bootloader: Option<String>,
    pub encryption: Option<bool>,
    pub autologin: Option<bool>,
}

/// The `[packages.desktop]` section of a configuration file.
#[derive(Debug, Clone, Copy, PartialEq, Eq, Structural)]
pub struct TomlDesktop {
    pub kde: Option<bool>,
}

/// The `[packages.browser]` section of a configuration file.
#[derive(Debug, Clone, Copy, PartialEq, Eq, Structural)]
pub struct TomlBrowser {
    pub firefox: Option<bool>,
    pub whale: Option<bool>,
    pub chrome: Option<bool>,
    pub mullvad: Option<bool>,
}

/// The `[packages.office]` section of a configuration file.
#[derive(Debug, Clone, Copy, PartialEq, Eq, Structural)]
pub struct TomlOffice {
    pub libreoffice: Option<bool>,
    pub hoffice: Option<bool>,
    pub texlive: Option<bool>,
}

/// The `[packages.development]` section of a configuration file.
#[derive(Debug, Clone, Copy, PartialEq, Eq, Structural)]
pub struct TomlDevelopment {
    pub vscode: Option<bool>,
    pub sublime: Option<bool>,
    pub git: Option<bool>,
    pub rust: Option<bool>,
    pub julia: Option<bool>,
    pub nodejs: Option<bool>,
    pub github_cli: Option<bool>,
}

/// The `[packages.multimedia]` section of a configuration file.
#[derive(Debug, Clone, Copy, PartialEq, Eq, Structural)]
pub struct TomlMultimedia {
    pub vlc: Option<bool>,
    pub obs: Option<bool>,
    pub freetv: Option<bool>,
    pub ytdlp: Option<bool>,
    pub freetube: Option<bool>,
}

/// The `[packages.gaming]` section of a configuration file.
#[derive(Debug, Clone, Copy, PartialEq, Eq, Structural)]
pub struct TomlGaming {
    pub steam: Option<bool>,
    pub unciv: Option<bool>,
    pub snes9x: Option<bool>,
}

/// The `[packages.virtualization]` section of a configuration file.
#[derive(Debug, Clone, Copy, PartialEq, Eq, Structural)]
pub struct TomlVirtualization {
    pub virtualbox: Option<bool>,
    pub docker: Option<bool>,
}

/// The `[packages.communication]` section of a configuration file.
#[derive(Debug, Clone, Copy, PartialEq, Eq, Structural)]
pub struct TomlCommunication {
    pub teams: Option<bool>,
    pub whatsapp: Option<bool>,
    pub onenote: Option<bool>,
}

/// The `[packages.utility]` section of a configuration file.
#[derive(Debug, Clone, Copy, PartialEq, Eq, Structural)]
pub struct TomlUtility {
    pub bluetooth: Option<bool>,
    pub conky: Option<bool>,
    pub vnc: Option<bool>,
    pub samba: Option<bool>,
}

/// The `[packages]` section of a configuration file.
#[derive(Debug, Clone, Copy, PartialEq, Eq, Structural)]
pub struct TomlPackages {
    pub desktop: Option<TomlDesktop>,
    pub browser: Option<TomlBrowser>,
    pub office: Option<TomlOffice>,
    pub development: Option<TomlDevelopment>,
    pub multimedia: Option<TomlMultimedia>,
    pub gaming: Option<TomlGaming>,
    pub virtualization: Option<TomlVirtualization>,
    pub communication: Option<TomlCommunication>,
    pub utility: Option<TomlUtility>,
}

/// A configuration file, as far as it says anything.
#[derive(Debug, PartialEq, Eq)]
pub struct TomlRoot {
    pub blunux: Option<TomlBlunux>,
    pub locale: Option<TomlLocale>,
    pub input_method: Option<TomlInputMethod>,
    pub kernel: Option<TomlKernel>,
    pub disk: Option<TomlDisk>,
    pub install: Option<TomlInstall>,
    pub packages: Option<TomlPackages>,
}

/// The text that was given, or else the text that stood before.
pub open spec fn text_or(given: Option<String>, before: Seq<char>) -> Seq<char> {
    match given {
        Some(text) => text@,
        None => before,
    }
}

/// The value that was given, or else the value that stood before.
pub open spec fn flag_or(given: Option<bool>, before: bool) -> bool {
    match given {
        Some(flag) => flag,
        None => before,
    }
}

/// The texts that were given, or else the texts that stood before.
pub open spec fn texts_or(given: Option<Vec<String>>, before: Seq<Seq<char>>) -> Seq<Seq<char>> {
    match given {
        Some(list) => texts(list@),
        None => before,
    }
}

/// `before`, as far as the `[blunux]` section leaves it.
pub open spec fn blunux_over(section: Option<TomlBlunux>, before: BlunuxView) -> BlunuxView {
    match section {
        Some(b) => BlunuxView {
            version: text_or(b.version, before.version),
            name: text_or(b.name, before.name),
        },
        None => before,
    }
}

/// `before`, as far as the `[locale]` section leaves it. A single language
/// counts as a list of one.
pub open spec fn locale_over(section: Option<TomlLocale>, before: LocaleView) -> LocaleView {
    match section {
        Some(l) => LocaleView {
            languages: match l.language {
                Some(TomlStringOrArray::Single(one)) => seq![one@],
                Some(TomlStringOrArray::Array(list)) => texts(list@),
                None => before.languages,
            },
            timezone: text_or(l.timezone, before.timezone),
            keyboards: texts_or(l.keyboard, before.keyboards),
        },
        None => before,
    }
}

/// `before`, as far as the `[input_method]` section leaves it.
pub open spec fn input_method_over(
    section: Option<TomlInputMethod>,
    before: InputMethodView,
) -> InputMethodView {
    match section {
        Some(im) => InputMethodView {
            enabled: flag_or(im.enabled, before.enabled),
            engine: text_or(im.engine, before.engine),
        },
        None => before,
    }
}

/// `before`, as far as the `[kernel]` section leaves it.
pub open spec fn kernel_over(section: Option<TomlKernel>, before: KernelView) -> KernelView {
    match section {
        Some(k) => KernelView { type_: text_or(k.type_, before.type_) },
        None => before,
    }
}

/// `before`, as far as the `[disk]` section leaves it. The swap mode is named
/// in whatever case.
pub open spec fn disk_over(section: Option<TomlDisk>, before: DiskConfig) -> DiskConfig {
    match section {
        Some(TomlDisk { swap: Some(name) }) => DiskConfig { swap: mode_of(lowercase(name@)) },
        _ => before,
    }
}

/// `before`, as far as the `[install]` section leaves it. The file names
/// neither the target disk nor the passphrase of the encryption.
pub open spec fn install_over(section: Option<TomlInstall>, before: InstallView) -> InstallView {
    match section {
        Some(i) => InstallView {
            target_disk: before.target_disk,
            hostname: text_or(i.hostname, before.hostname),
            username: text_or(i.username, before.username),
            root_password: text_or(i.root_password, before.root_password),
            user_password: text_or(i.user_password, before.user_password),
            use_encryption: flag_or(i.encryption, before.use_encryption),
            encryption_password: before.encryption_password,
            bootloader: text_or(i.bootloader, before.bootloader),
            autologin: flag_or(i.autologin, before.autologin),
        },
        None => before,
    }
}

/// `before`, as far as the `[packages.desktop]` section leaves it.
pub open spec fn desktop_over(section: Option<TomlDesktop>, before: PackagesConfig) -> PackagesConfig {
    match section {
        Some(s) => PackagesConfig {
            kde: flag_or(s.kde, before.kde),
            ..before
        },
        None => before,
    }
}

/// `before`, as far as the `[packages.browser]` section leaves it.
pub open spec fn browser_over(section: Option<TomlBrowser>, before: PackagesConfig) -> PackagesConfig {
    match section {
        Some(s) => PackagesConfig {
            firefox: flag_or(s.firefox, before.firefox),
            whale: flag_or(s.whale, before.whale),
            chrome: flag_or(s.chrome, before.chrome),
            mullvad: flag_or(s.mullvad, before.mullvad),
            ..before
        },
        None => before,
    }
}

/// `before`, as far as the `[packages.office]` section leaves it.
pub open spec fn office_over(section: Option<TomlOffice>, before: PackagesConfig) -> PackagesConfig {
    match section {
        Some(s) => PackagesConfig {
            libreoffice: flag_or(s.libreoffice, before.libreoffice),
            hoffice: flag_or(s.hoffice, before.hoffice),
            texlive: flag_or(s.texlive, before.texlive),
            ..before
        },
        None => before,
    }
}

/// `before`, as far as the `[packages.development]` section leaves it.
pub open spec fn development_over(section: Option<TomlDevelopment>, before: PackagesConfig) -> PackagesConfig {
    match section {
        Some(s) => PackagesConfig {
            vscode: flag_or(s.vscode, before.vscode),
            sublime: flag_or(s.sublime, before.sublime),
            git: flag_or(s.git, before.git),
            rust: flag_or(s.rust, before.rust),
            julia: flag_or(s.julia, before.julia),
            nodejs: flag_or(s.nodejs, before.nodejs),
            github_cli: flag_or(s.github_cli, before.github_cli),
            ..before
        },
        None => before,
    }
}

/// `before`, as far as the `[packages.multimedia]` section leaves it.
pub open spec fn multimedia_over(section: Option<TomlMultimedia>, before: PackagesConfig) -> PackagesConfig {
    match section {
        Some(s) => PackagesConfig {
            vlc: flag_or(s.vlc, before.vlc),
            obs: flag_or(s.obs, before.obs),
            freetv: flag_or(s.freetv, before.freetv),
            ytdlp: flag_or(s.ytdlp, before.ytdlp),
            freetube: flag_or(s.freetube, before.freetube),
            ..before
        },
        None => before,
    }
}

/// `before`, as far as the `[packages.gaming]` section leaves it.
pub open spec fn gaming_over(section: Option<TomlGaming>, before: PackagesConfig) -> PackagesConfig {
    match section {
        Some(s) => PackagesConfig {
            steam: flag_or(s.steam, before.steam),
            unciv: flag_or(s.unciv, before.unciv),
            snes9x: flag_or(s.snes9x, before.snes9x),
            ..before
        },
        None => before,
    }
}

/// `before`, as far as the `[packages.virtualization]` section leaves it.
pub open spec fn virtualization_over(section: Option<TomlVirtualization>, before: PackagesConfig) -> PackagesConfig {
    match section {
        Some(s) => PackagesConfig {
            virtualbox: flag_or(s.virtualbox, before.virtualbox),
            docker: flag_or(s.docker, before.docker),
            ..before
        },
        None => before,
    }
}

/// `before`, as far as the `[packages.communication]` section leaves it.
pub open spec fn communication_over(section: Option<TomlCommunication>, before: PackagesConfig) -> PackagesConfig {
    match section {
        Some(s) => PackagesConfig {
            teams: flag_or(s.teams, before.teams),
            whatsapp: flag_or(s.whatsapp, before.whatsapp),
            onenote: flag_or(s.onenote, before.onenote),
            ..before
        },
        None => before,
    }
}

/// `before`, as far as the `[packages.utility]` section leaves it.
pub open spec fn utility_over(section: Option<TomlUtility>, before: PackagesConfig) -> PackagesConfig {
    match section {
        Some(s) => PackagesConfig {
            bluetooth: flag_or(s.bluetooth, before.bluetooth),
            conky: flag_or(s.conky, before.conky),
            vnc: flag_or(s.vnc, before.vnc),
            samba: flag_or(s.samba, before.samba),
            ..before
        },
        None => before,
    }
}

/// `before`, as far as the `[packages]` section leaves it.
pub open spec fn packages_over(section: Option<TomlPackages>, before: PackagesConfig) -> PackagesConfig {
    match section {
        Some(p) => utility_over(
            p.utility,
            communication_over(
                p.communication,
                virtualization_over(
                    p.virtualization,
                    gaming_over(
                        p.gaming,
                        multimedia_over(
                            p.multimedia,
                            development_over(
                                p.development,
                                office_over(
                                    p.office,
                                    browser_over(p.browser, desktop_over(p.desktop, before)),
                                ),
                            ),
                        ),
                    ),
                ),
            ),
        ),
        None => before,
    }
}

/// The configuration that a file gives: what the file says, and for the rest
/// the configuration that nothing was said about.
pub open spec fn loaded(root: TomlRoot) -> ConfigView {
    let before = ConfigView::initial();
    ConfigView {
        blunux: blunux_over(root.blunux, before.blunux),
        locale: locale_over(root.locale, before.locale),
        input_method: input_method_over(root.input_method, before.input_method),
        kernel: kernel_over(root.kernel, before.kernel),
        disk: disk_over(root.disk, before.disk),
        packages: packages_over(root.packages, before.packages),
        install: install_over(root.install, before.install),
        loaded_from_file: true,
    }
}

fn set_flag(flag: &mut bool, given: Option<bool>)
    ensures
        *final(flag) == flag_or(given, *old(flag)),
{
    if let Some(v) = given {
        *flag = v;
    }
}

fn set_text(text: &mut String, given: Option<String>)
    ensures
        final(text)@ == text_or(given, old(text)@),
{
    if let Some(v) = given {
        *text = v;
    }
}

fn set_desktop(packages: &mut PackagesConfig, section: Option<TomlDesktop>)
    ensures
        *final(packages) == desktop_over(section, *old(packages)),
{
    if let Some(s) = section {
        set_flag(&mut packages.kde, s.kde);
    }
}

fn set_browser(packages: &mut PackagesConfig, section: Option<TomlBrowser>)
    ensures
        *final(packages) == browser_over(section, *old(packages)),
{
    if let Some(s) = section {
        set_flag(&mut packages.firefox, s.firefox);
        set_flag(&mut packages.whale, s.whale);
        set_flag(&mut packages.chrome, s.chrome);
        set_flag(&mut packages.mullvad, s.mullvad);
    }
}

fn set_office(packages: &mut PackagesConfig, section: Option<TomlOffice>)
    ensures
        *final(packages) == office_over(section, *old(packages)),
{
    if let Some(s) = section {
        set_flag(&mut packages.libreoffice, s.libreoffice);
        set_flag(&mut packages.hoffice, s.hoffice);
        set_flag(&mut packages.texlive, s.texlive);
    }
}

fn set_development(packages: &mut PackagesConfig, section: Option<TomlDevelopment>)
    ensures
        *final(packages) == development_over(section, *old(packages)),
{
    if let Some(s) = section {
        set_flag(&mut packages.vscode, s.vscode);
        set_flag(&mut packages.sublime, s.sublime);
        set_flag(&mut packages.git, s.git);
        set_flag(&mut packages.rust, s.rust);
        set_flag(&mut packages.julia, s.julia);
        set_flag(&mut packages.nodejs, s.nodejs);
        set_flag(&mut packages.github_cli, s.github_cli);
    }
}

fn set_multimedia(packages: &mut PackagesConfig, section: Option<TomlMultimedia>)
    ensures
        *final(packages) == multimedia_over(section, *old(packages)),
{
    if let Some(s) = section {
        set_flag(&mut packages.vlc, s.vlc);
        set_flag(&mut packages.obs, s.obs);
        set_flag(&mut packages.freetv, s.freetv);
        set_flag(&mut packages.ytdlp, s.ytdlp);
        set_flag(&mut packages.freetube, s.freetube);
    }
}

fn set_gaming(packages: &mut PackagesConfig, section: Option<TomlGaming>)
    ensures
        *final(packages) == gaming_over(section, *old(packages)),
{
    if let Some(s) = section {
        set_flag(&mut packages.steam, s.steam);
        set_flag(&mut packages.unciv, s.unciv);
        set_flag(&mut packages.snes9x, s.snes9x);
    }
}

fn set_virtualization(packages: &mut PackagesConfig, section: Option<TomlVirtualization>)
    ensures
        *final(packages) == virtualization_over(section, *old(packages)),
{
    if let Some(s) = section {
        set_flag(&mut packages.virtualbox, s.virtualbox);
        set_flag(&mut packages.docker, s.docker);
    }
}

fn set_communication(packages: &mut PackagesConfig, section: Option<TomlCommunication>)
    ensures
        *final(packages) == communication_over(section, *old(packages)),
{
    if let Some(s) = section {
        set_flag(&mut packages.teams, s.teams);
        set_flag(&mut packages.whatsapp, s.whatsapp);
        set_flag(&mut packages.onenote, s.onenote);
    }
}

fn set_utility(packages: &mut PackagesConfig, section: Option<TomlUtility>)
    ensures
        *final(packages) == utility_over(section, *old(packages)),
{
    if let Some(s) = section {
        set_flag(&mut packages.bluetooth, s.bluetooth);
        set_flag(&mut packages.conky, s.conky);
        set_flag(&mut packages.vnc, s.vnc);
        set_flag(&mut packages.samba, s.samba);
    }
}

fn set_packages(packages: &mut PackagesConfig, section: Option<TomlPackages>)
    ensures
        *final(packages) == packages_over(section, *old(packages)),
{
    if let Some(p) = section {
        set_desktop(packages, p.desktop);
        set_browser(packages, p.browser);
        set_office(packages, p.office);
        set_development(packages, p.development);
        set_multimedia(packages, p.multimedia);
        set_gaming(packages, p.gaming);
        set_virtualization(packages, p.virtualization);
        set_communication(packages, p.communication);
        set_utility(packages, p.utility);
    }
}

fn load_blunux(section: Option<TomlBlunux>) -> (cfg: BlunuxConfig)
    ensures
        cfg@ == blunux_over(section, ConfigView::initial().blunux),
{
    let mut cfg = BlunuxConfig::default();
    if let Some(b) = section {
        set_text(&mut cfg.version, b.version);
        set_text(&mut cfg.name, b.name);
    }
    cfg
}

fn load_locale(section: Option<TomlLocale>) -> (cfg: LocaleConfig)
    ensures
        cfg@ == locale_over(section, ConfigView::initial().locale),
{
    let mut cfg = LocaleConfig::default();
    if let Some(l) = section {
        if let Some(lang) = l.language {
            cfg.languages = match lang {
                TomlStringOrArray::Single(one) => {
                    let mut list: Vec<String> = Vec::new();
                    list.push(one);
                    assert(texts(list@) =~= seq![one@]);
                    list
                },
                TomlStringOrArray::Array(list) => list,
            };
        }
        set_text(&mut cfg.timezone, l.timezone);
        if let Some(v) = l.keyboard {
            cfg.keyboards = v;
        }
    }
    cfg
}

fn load_input_method(section: Option<TomlInputMethod>) -> (cfg: InputMethodConfig)
    ensures
        cfg@ == input_method_over(section, ConfigView::initial().input_method),
{
    let mut cfg = InputMethodConfig::default();
    if let Some(im) = section {
        set_flag(&mut cfg.enabled, im.enabled);
        set_text(&mut cfg.engine, im.engine);
    }
    cfg
}

fn load_kernel(section: Option<TomlKernel>) -> (cfg: KernelConfig)
    ensures
        cfg@ == kernel_over(section, ConfigView::initial().kernel),
{
    let mut cfg = KernelConfig::default();
    if let Some(k) = section {
        set_text(&mut cfg.type_, k.type_);
    }
    cfg
}

fn load_disk(section: Option<TomlDisk>) -> (cfg: DiskConfig)
    ensures
        cfg == disk_over(section, ConfigView::initial().disk),
{
    let mut cfg = DiskConfig::default();
    if let Some(d) = section {
        if let Some(v) = d.swap {
            cfg.swap = SwapMode::from_str(v.as_str());
        }
    }
    cfg
}

fn load_install(section: Option<TomlInstall>) -> (cfg: InstallConfig)
    ensures
        cfg@ == install_over(section, ConfigView::initial().install),
{
    let mut cfg = InstallConfig::default();
    if let Some(i) = section {
        set_text(&mut cfg.hostname, i.hostname);
        set_text(&mut cfg.username, i.username);
        set_text(&mut cfg.root_password, i.root_password);
        set_text(&mut cfg.user_password, i.user_password);
        set_text(&mut cfg.bootloader, i.bootloader);
        set_flag(&mut cfg.use_encryption, i.encryption);
        set_flag(&mut cfg.autologin, i.autologin);
    }
    cfg
}

impl Config {
    /// The configuration that a file gives. Reading the file and parsing it
    /// are the caller's; what the file leaves unsaid keeps its default.
    pub fn load(root: TomlRoot) -> (cfg: Config)
        ensures
            cfg@ == loaded(root),
    {
        let mut packages = PackagesConfig::default();
        set_packages(&mut packages, root.packages);
        Config {
            blunux: load_blunux(root.blunux),
            locale: load_locale(root.locale),
            input_method: load_input_method(root.input_method),
            kernel: load_kernel(root.kernel),
            disk: load_disk(root.disk),
            packages,
            install: load_install(root.install),
            loaded_from_file: true,
        }
    }
}

} // verus!
