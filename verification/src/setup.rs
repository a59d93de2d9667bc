//! What the user is asked before an installation, and what the answers
//! mean. A configuration that was loaded from a file is taken as given; what
//! it leaves open, and everything where no file was loaded, is asked for.

use vstd::prelude::*;
use vstd::string::StrSliceExecFns;
use vstd::string::StringExecFns;

use crate::command::{strings, texts};
use crate::config::{Config, ConfigView};
use crate::packages::{has_lang, speaks};
use crate::text::same_text;

verus! {

/// Where a configuration file is looked for, in this order.
pub open spec fn config_candidates_of() -> Seq<Seq<char>> {
    seq!["/etc/blunux/config.toml"@, "/root/config.toml"@, "./config.toml"@]
}

/// Where a configuration file is looked for, in this order.
pub fn config_candidates() -> (paths: Vec<String>)
    ensures
        texts(paths@) == config_candidates_of(),
{
    let names = ["/etc/blunux/config.toml", "/root/config.toml", "./config.toml"];
    strings(&names)
}

/// The configuration file to load: the first of the candidates that exists.
/// `present` says of each candidate whether it does.
pub fn select_config_file(present: &Vec<bool>) -> (path: Option<String>)
    ensures
        match path {
            Some(p) => exists|i: int|
                0 <= i < present@.len() && i < config_candidates_of().len() && present@[i] && p@
                    == config_candidates_of()[i] && forall|j: int| 0 <= j < i ==> !present@[j],
            None => forall|i: int|
                0 <= i < present@.len() && i < config_candidates_of().len() ==> !present@[i],
        },
{
    let candidates = config_candidates();
    let mut i: usize = 0;
    while i < candidates.len() && i < present.len()
        invariant
            texts(candidates@) == config_candidates_of(),
            forall|j: int| 0 <= j < i ==> !present@[j],
        decreases candidates@.len() - i,
    {
        if present[i] {
            return Some(candidates[i].clone());
        }
        i += 1;
    }
    None
}

/// Whether the user is asked for the name of the machine.
pub open spec fn hostname_is_open(cfg: ConfigView) -> bool {
    !(cfg.loaded_from_file && cfg.install.hostname.len() > 0)
}

/// Whether the user is asked for the name of the machine.
pub fn asks_hostname(cfg: &Config) -> (asked: bool)
    ensures
        asked == hostname_is_open(cfg@),
{
    !(cfg.loaded_from_file && !cfg.install.hostname.as_str().is_empty())
}

/// The name that is offered for the machine.
pub open spec fn offered_hostname(cfg: ConfigView) -> Seq<char> {
    if cfg.install.hostname.len() == 0 {
        "blunux"@
    } else {
        cfg.install.hostname
    }
}

/// The name that is offered for the machine.
pub fn hostname_default(cfg: &Config) -> (name: String)
    ensures
        name@ == offered_hostname(cfg@),
{
    if cfg.install.hostname.as_str().is_empty() {
        String::from_str("blunux")
    } else {
        cfg.install.hostname.clone()
    }
}

/// Whether the user is asked for the name of the user.
pub open spec fn username_is_open(cfg: ConfigView) -> bool {
    !(cfg.loaded_from_file && cfg.install.username.len() > 0)
}

/// Whether the user is asked for the name of the user.
pub fn asks_username(cfg: &Config) -> (asked: bool)
    ensures
        asked == username_is_open(cfg@),
{
    !(cfg.loaded_from_file && !cfg.install.username.as_str().is_empty())
}

/// The name that is offered for the user.
pub open spec fn offered_username(cfg: ConfigView) -> Seq<char> {
    if cfg.install.username.len() == 0 {
        "user"@
    } else {
        cfg.install.username
    }
}

/// The name that is offered for the user.
pub fn username_default(cfg: &Config) -> (name: String)
    ensures
        name@ == offered_username(cfg@),
{
    if cfg.install.username.as_str().is_empty() {
        String::from_str("user")
    } else {
        cfg.install.username.clone()
    }
}

/// Whether the user is asked for the passwords: unless both are there.
pub open spec fn passwords_are_open(cfg: ConfigView) -> bool {
    !(cfg.install.root_password.len() > 0 && cfg.install.user_password.len() > 0)
}

/// Whether the user is asked for the passwords.
pub fn asks_passwords(cfg: &Config) -> (asked: bool)
    ensures
        asked == passwords_are_open(cfg@),
{
    !(!cfg.install.root_password.as_str().is_empty()
        && !cfg.install.user_password.as_str().is_empty())
}

/// Whether a password and its repetition agree.
pub fn passwords_match(password: &str, repeated: &str) -> (same: bool)
    ensures
        same == (password@ == repeated@),
{
    same_text(password, repeated)
}

/// Whether the user is asked for the time zone.
pub open spec fn timezone_is_open(cfg: ConfigView) -> bool {
    !cfg.loaded_from_file && (cfg.locale.timezone.len() == 0 || cfg.locale.timezone == "UTC"@)
}

/// Whether the user is asked for the time zone.
pub fn asks_timezone(cfg: &Config) -> (asked: bool)
    ensures
        asked == timezone_is_open(cfg@),
{
    !cfg.loaded_from_file && (cfg.locale.timezone.as_str().is_empty() || same_text(
        cfg.locale.timezone.as_str(),
        "UTC",
    ))
}

/// The time zones that are offered.
pub open spec fn timezones() -> Seq<Seq<char>> {
    seq![
        "Asia/Seoul"@,
        "Asia/Tokyo"@,
        "Asia/Shanghai"@,
        "Europe/Stockholm"@,
        "Europe/London"@,
        "America/New_York"@,
        "America/Los_Angeles"@,
        "UTC"@,
    ]
}

/// The time zones that are offered.
pub fn timezone_options() -> (options: Vec<String>)
    ensures
        texts(options@) == timezones(),
{
    let names = [
        "Asia/Seoul",
        "Asia/Tokyo",
        "Asia/Shanghai",
        "Europe/Stockholm",
        "Europe/London",
        "America/New_York",
        "America/Los_Angeles",
        "UTC",
    ];
    strings(&names)
}

/// Whether the user is asked for the keyboard layout.
pub open spec fn keyboard_is_open(cfg: ConfigView) -> bool {
    !cfg.loaded_from_file && cfg.locale.keyboards.len() == 0
}

/// Whether the user is asked for the keyboard layout.
pub fn asks_keyboard(cfg: &Config) -> (asked: bool)
    ensures
        asked == keyboard_is_open(cfg@),
{
    !cfg.loaded_from_file && cfg.locale.keyboards.len() == 0
}

/// The keyboard layouts that are offered, each with its code before its
/// name.
pub open spec fn keyboards() -> Seq<Seq<char>> {
    seq![
        "us - US English"@,
        "kr - Korean"@,
        "jp - Japanese"@,
        "gb - UK English"@,
        "de - German"@,
        "fr - French"@,
        "se - Swedish"@,
    ]
}

/// The keyboard layouts that are offered.
pub fn keyboard_options() -> (options: Vec<String>)
    ensures
        texts(options@) == keyboards(),
{
    let names = [
        "us - US English",
        "kr - Korean",
        "jp - Japanese",
        "gb - UK English",
        "de - German",
        "fr - French",
        "se - Swedish",
    ];
    strings(&names)
}

/// The code of a keyboard layout: the first two characters of the option,
/// or all of an option that has fewer.
pub open spec fn keyboard_code_of(option: Seq<char>) -> Seq<char> {
    if option.len() >= 2 {
        option.take(2)
    } else {
        option
    }
}

/// The code of a keyboard layout that is offered.
pub fn keyboard_code(option: &str) -> (code: String)
    ensures
        code@ == keyboard_code_of(option@),
{
    let size = option.unicode_len();
    if size >= 2 {
        String::from_str(option.substring_char(0, 2))
    } else {
        String::from_str(option)
    }
}

/// The keyboard layout of the configuration: the first of its layouts.
pub fn configured_keyboard(cfg: &Config) -> (layout: Option<String>)
    ensures
        match layout {
            Some(l) => cfg@.locale.keyboards.len() > 0 && l@ == cfg@.locale.keyboards[0],
            None => cfg@.locale.keyboards.len() == 0,
        },
{
    if cfg.locale.keyboards.len() > 0 {
        Some(cfg.locale.keyboards[0].clone())
    } else {
        None
    }
}

/// Whether the user is asked for the kernel.
pub open spec fn kernel_is_open(cfg: ConfigView) -> bool {
    !(cfg.loaded_from_file && cfg.kernel.type_.len() > 0)
}

/// Whether the user is asked for the kernel.
pub fn asks_kernel(cfg: &Config) -> (asked: bool)
    ensures
        asked == kernel_is_open(cfg@),
{
    !(cfg.loaded_from_file && !cfg.kernel.type_.as_str().is_empty())
}

/// The kernels that are offered.
pub open spec fn kernels() -> Seq<Seq<char>> {
    seq![
        "linux - Standard kernel"@,
        "linux-lts - Long-term support kernel"@,
        "linux-zen - Performance-optimized kernel"@,
    ]
}

/// The kernels that are offered.
pub fn kernel_options() -> (options: Vec<String>)
    ensures
        texts(options@) == kernels(),
{
    let names = [
        "linux - Standard kernel",
        "linux-lts - Long-term support kernel",
        "linux-zen - Performance-optimized kernel",
    ];
    strings(&names)
}

/// The kernel that the option at `index` stands for.
pub open spec fn kernel_at(index: nat) -> Seq<char> {
    if index == 0 {
        "linux"@
    } else if index == 1 {
        "linux-lts"@
    } else {
        "linux-zen"@
    }
}

/// The kernel that the option at `index` stands for.
pub fn kernel_choice(index: usize) -> (kernel: String)
    ensures
        kernel@ == kernel_at(index as nat),
{
    if index == 0 {
        String::from_str("linux")
    } else if index == 1 {
        String::from_str("linux-lts")
    } else {
        String::from_str("linux-zen")
    }
}

/// Whether the user is asked for the passphrase of the encryption.
pub open spec fn passphrase_is_open(cfg: ConfigView) -> bool {
    cfg.install.use_encryption && cfg.install.encryption_password.len() == 0
}

/// Whether the user is asked for the passphrase of the encryption.
pub fn asks_encryption_password(cfg: &Config) -> (asked: bool)
    ensures
        asked == passphrase_is_open(cfg@),
{
    cfg.install.use_encryption && cfg.install.encryption_password.as_str().is_empty()
}

/// Whether one of the languages is Korean, Japanese or Chinese.
pub open spec fn writes_cjk(cfg: ConfigView) -> bool {
    speaks(cfg.locale.languages, "ko"@) || speaks(cfg.locale.languages, "ja"@) || speaks(
        cfg.locale.languages,
        "zh"@,
    )
}

/// Whether the configuration settles the input method.
pub open spec fn input_method_is_settled(cfg: ConfigView) -> bool {
    cfg.loaded_from_file && cfg.input_method.engine.len() > 0
}

/// Whether the configuration settles the input method.
pub fn is_input_method_settled(cfg: &Config) -> (settled: bool)
    ensures
        settled == input_method_is_settled(cfg@),
{
    cfg.loaded_from_file && !cfg.input_method.engine.as_str().is_empty()
}

/// Whether the user is asked for the input method: for Korean, Japanese or
/// Chinese, unless the configuration settles it.
pub open spec fn input_method_is_open(cfg: ConfigView) -> bool {
    writes_cjk(cfg) && !input_method_is_settled(cfg)
}

/// Whether the user is asked for the input method.
pub fn asks_input_method(cfg: &Config) -> (asked: bool)
    ensures
        asked == input_method_is_open(cfg@),
{
    let languages = &cfg.locale.languages;
    let cjk = has_lang(languages, "ko") || has_lang(languages, "ja") || has_lang(languages, "zh");
    cjk && !is_input_method_settled(cfg)
}

/// The input methods that are offered; the last option is to have none.
pub open spec fn input_methods() -> Seq<Seq<char>> {
    seq![
        "kime - Korean Input Method (Recommended for Korean)"@,
        "fcitx5 - Flexible Input Method (CJK)"@,
        "ibus - Intelligent Input Bus"@,
        "none - No input method"@,
    ]
}

/// The input methods that are offered.
pub fn input_method_options() -> (options: Vec<String>)
    ensures
        texts(options@) == input_methods(),
{
    let names = [
        "kime - Korean Input Method (Recommended for Korean)",
        "fcitx5 - Flexible Input Method (CJK)",
        "ibus - Intelligent Input Bus",
        "none - No input method",
    ];
    strings(&names)
}

/// The engine that the option at `index` stands for.
pub open spec fn engine_at(index: nat) -> Seq<char> {
    if index == 0 {
        "kime"@
    } else if index == 1 {
        "fcitx5"@
    } else {
        "ibus"@
    }
}

/// Takes the choice of an input method into the configuration: the fourth
/// option switches the input method off and leaves the engine as it is, any
/// other switches it on with the engine of the option.
pub fn choose_input_method(cfg: &mut Config, index: usize)
    ensures
        final(cfg)@.input_method.enabled == (index != 3),
        final(cfg)@.input_method.engine == (if index == 3 {
            old(cfg)@.input_method.engine
        } else {
            engine_at(index as nat)
        }),
        final(cfg)@.blunux == old(cfg)@.blunux,
        final(cfg)@.locale == old(cfg)@.locale,
        final(cfg)@.kernel == old(cfg)@.kernel,
        final(cfg)@.disk == old(cfg)@.disk,
        final(cfg)@.packages == old(cfg)@.packages,
        final(cfg)@.install == old(cfg)@.install,
        final(cfg)@.loaded_from_file == old(cfg)@.loaded_from_file,
{
    if index == 3 {
        cfg.input_method.enabled = false;
    } else {
        cfg.input_method.enabled = true;
        cfg.input_method.engine = if index == 0 {
            String::from_str("kime")
        } else if index == 1 {
            String::from_str("fcitx5")
        } else {
            String::from_str("ibus")
        };
    }
}

} // verus!
