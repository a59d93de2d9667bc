//! Configuring the installed system: clock and names, locale, input method,
//! and accounts.

use vstd::prelude::*;
use vstd::string::StringExecFns;

use crate::command::{
    appended, attempt, command, command_line, inside, inside_fed, never_fatal, quietly, texts,
    written, Invocation, Script, Step, StepView,
};
use crate::config::{Config, ConfigView, InstallView};
use crate::text::{glue, glue3, same_text};

verus! {

/// The lines before the machine's own in the table of host names.
pub const HOSTS_HEAD: &'static str =
    "127.0.0.1    localhost\n::1          localhost\n127.0.1.1    ";

/// The table of host names of a machine called `hostname`.
pub open spec fn hosts_table(hostname: Seq<char>) -> Seq<char> {
    HOSTS_HEAD@ + hostname + ".localdomain "@ + hostname + "\n"@
}

/// Setting the time zone and the clock, naming the machine, and switching on
/// the services that every installation runs. None of it is fatal.
pub open spec fn system_steps(cfg: ConfigView, mount_point: Seq<char>) -> Seq<StepView> {
    seq![
        attempt(
            inside(
                mount_point,
                "ln"@,
                seq!["-sf"@, "/usr/share/zoneinfo/"@ + cfg.locale.timezone, "/etc/localtime"@],
            ),
        ),
        attempt(inside(mount_point, "hwclock"@, seq!["--systohc"@])),
        written(mount_point + "/etc/hostname"@, cfg.install.hostname + "\n"@),
        written(mount_point + "/etc/hosts"@, hosts_table(cfg.install.hostname)),
        attempt(inside(mount_point, "systemctl"@, seq!["enable"@, "NetworkManager"@])),
        attempt(inside(mount_point, "systemctl"@, seq!["enable"@, "sddm"@])),
        attempt(quietly(inside(mount_point, "systemctl"@, seq!["enable"@, "cups"@]))),
    ]
}

/// The steps that configure the clock, the names and the services of the
/// installed system.
pub fn configure_system(cfg: &Config, mount_point: &str) -> (script: Script)
    ensures
        script@ == system_steps(cfg@, mount_point@),
{
    let hostname = cfg.install.hostname.as_str();
    let zone = glue("/usr/share/zoneinfo/", cfg.locale.timezone.as_str());
    let mut hosts = glue3(HOSTS_HEAD, hostname, ".localdomain ");
    hosts.append(hostname);
    hosts.append("\n");
    let mut script = Script::new();
    script.push(
        Step::attempt(
            Invocation::inside(mount_point, "ln", &["-sf", zone.as_str(), "/etc/localtime"]),
        ),
    );
    script.push(Step::attempt(Invocation::inside(mount_point, "hwclock", &["--systohc"])));
    script.push(
        Step::write(glue(mount_point, "/etc/hostname").as_str(), glue(hostname, "\n").as_str()),
    );
    script.push(Step::write(glue(mount_point, "/etc/hosts").as_str(), hosts.as_str()));
    script.push(
        Step::attempt(Invocation::inside(mount_point, "systemctl", &["enable", "NetworkManager"])),
    );
    script.push(Step::attempt(Invocation::inside(mount_point, "systemctl", &["enable", "sddm"])));
    script.push(
        Step::attempt(Invocation::inside(mount_point, "systemctl", &["enable", "cups"]).quiet()),
    );
    assert(script@ =~~= system_steps(cfg@, mount_point@));
    script
}

/// One line for each language, asking for its UTF-8 locale.
pub open spec fn locale_lines(languages: Seq<Seq<char>>) -> Seq<char>
    decreases languages.len(),
{
    if languages.len() == 0 {
        Seq::empty()
    } else {
        locale_lines(languages.drop_last()) + languages.last() + ".UTF-8 UTF-8\n"@
    }
}

/// The locales to generate: those of the languages, and the American English
/// one in any case.
pub open spec fn locales_to_generate(languages: Seq<Seq<char>>) -> Seq<char> {
    if languages.contains("en_US"@) {
        locale_lines(languages)
    } else {
        locale_lines(languages) + "en_US.UTF-8 UTF-8\n"@
    }
}

/// The language of the system: the first of the languages, or American
/// English where there is none.
pub open spec fn system_language(languages: Seq<Seq<char>>) -> Seq<char> {
    if languages.len() > 0 {
        languages[0]
    } else {
        "en_US"@
    }
}

/// Setting the layout of the console keyboard to the first of the layouts.
pub open spec fn keymap_steps(keyboards: Seq<Seq<char>>, mount_point: Seq<char>) -> Seq<StepView> {
    if keyboards.len() > 0 {
        seq![written(mount_point + "/etc/vconsole.conf"@, "KEYMAP="@ + keyboards[0] + "\n"@)]
    } else {
        Seq::empty()
    }
}

/// Generating the locales and setting the language.
pub open spec fn language_steps(languages: Seq<Seq<char>>, mount_point: Seq<char>) -> Seq<StepView> {
    seq![
        appended(mount_point + "/etc/locale.gen"@, locales_to_generate(languages)),
        attempt(inside(mount_point, "locale-gen"@, Seq::empty())),
        written(
            mount_point + "/etc/locale.conf"@,
            "LANG="@ + system_language(languages) + ".UTF-8\n"@,
        ),
    ]
}

/// Generating the locales, and setting the language and the keyboard layout.
pub open spec fn locale_steps(cfg: ConfigView, mount_point: Seq<char>) -> Seq<StepView> {
    language_steps(cfg.locale.languages, mount_point) + keymap_steps(
        cfg.locale.keyboards,
        mount_point,
    )
}

fn locales_text(languages: &Vec<String>) -> (text: String)
    ensures
        text@ == locales_to_generate(texts(languages@)),
{
    let ghost all = texts(languages@);
    let mut text = String::new();
    let mut english: bool = false;
    let mut i: usize = 0;
    assert(all.take(0) =~= Seq::<Seq<char>>::empty());
    while i < languages.len()
        invariant
            i <= languages@.len(),
            all == texts(languages@),
            text@ == locale_lines(all.take(i as int)),
            english == all.take(i as int).contains("en_US"@),
        decreases languages@.len() - i,
    {
        let ghost sofar = all.take(i as int);
        let ghost next = all.take(i + 1);
        assert(next.drop_last() =~= sofar);
        assert(next.last() == languages@[i as int]@);
        text.append(languages[i].as_str());
        text.append(".UTF-8 UTF-8\n");
        let this = same_text(languages[i].as_str(), "en_US");
        proof {
            if english {
                let k = choose|k: int| 0 <= k < sofar.len() && sofar[k] == "en_US"@;
                assert(next[k] == "en_US"@);
            }
            if this {
                assert(next[i as int] == "en_US"@);
            }
            if next.contains("en_US"@) {
                let k = choose|k: int| 0 <= k < next.len() && next[k] == "en_US"@;
                if k < i {
                    assert(sofar[k] == "en_US"@);
                }
            }
        }
        english = english || this;
        i += 1;
    }
    assert(all.take(languages@.len() as int) =~= all);
    if !english {
        text.append("en_US.UTF-8 UTF-8\n");
    }
    text
}

fn language_script(languages: &Vec<String>, mount_point: &str) -> (script: Script)
    ensures
        script@ == language_steps(texts(languages@), mount_point@),
{
    let locales = locales_text(languages);
    let language = if languages.len() > 0 {
        languages[0].clone()
    } else {
        String::from_str("en_US")
    };
    let mut script = Script::new();
    script.push(Step::append(glue(mount_point, "/etc/locale.gen").as_str(), locales.as_str()));
    script.push(Step::attempt(Invocation::inside(mount_point, "locale-gen", &[])));
    script.push(
        Step::write(
            glue(mount_point, "/etc/locale.conf").as_str(),
            glue3("LANG=", language.as_str(), ".UTF-8\n").as_str(),
        ),
    );
    script
}

fn keymap_script(keyboards: &Vec<String>, mount_point: &str) -> (script: Script)
    ensures
        script@ == keymap_steps(texts(keyboards@), mount_point@),
{
    let mut script = Script::new();
    if keyboards.len() > 0 {
        script.push(
            Step::write(
                glue(mount_point, "/etc/vconsole.conf").as_str(),
                glue3("KEYMAP=", keyboards[0].as_str(), "\n").as_str(),
            ),
        );
    }
    script
}

/// The steps that configure the locale of the installed system.
pub fn configure_locale(cfg: &Config, mount_point: &str) -> (script: Script)
    ensures
        script@ == locale_steps(cfg@, mount_point@),
{
    let mut script = language_script(&cfg.locale.languages, mount_point);
    script.extend(keymap_script(&cfg.locale.keyboards, mount_point));
    script
}

/// What the environment of a session says for the input method `kime`.
pub const KIME_ENVIRONMENT: &'static str =
    "\n# Kime Korean Input Method\nGTK_IM_MODULE=kime\nQT_IM_MODULE=kime\nXMODIFIERS=@im=kime\n";

/// What the environment of a session says for the input method `fcitx5`.
pub const FCITX_ENVIRONMENT: &'static str =
    "\n# Fcitx5 Input Method\nGTK_IM_MODULE=fcitx\nQT_IM_MODULE=fcitx\nXMODIFIERS=@im=fcitx\n";

/// What the environment of a session says for the input method `ibus`.
pub const IBUS_ENVIRONMENT: &'static str =
    "\n# IBus Input Method\nGTK_IM_MODULE=ibus\nQT_IM_MODULE=ibus\nXMODIFIERS=@im=ibus\n";

/// What the environment of a session says for the input method of the given
/// engine; nothing for an engine that is not known.
pub open spec fn input_method_environment(engine: Seq<char>) -> Option<Seq<char>> {
    if engine == "kime"@ {
        Some(KIME_ENVIRONMENT@)
    } else if engine == "fcitx5"@ {
        Some(FCITX_ENVIRONMENT@)
    } else if engine == "ibus"@ {
        Some(IBUS_ENVIRONMENT@)
    } else {
        None
    }
}

/// Telling every session of the input method, where one is switched on and
/// its engine is known.
pub open spec fn input_method_steps(cfg: ConfigView, mount_point: Seq<char>) -> Seq<StepView> {
    match input_method_environment(cfg.input_method.engine) {
        Some(environment) if cfg.input_method.enabled => seq![
            attempt(command("mkdir"@, seq!["-p"@, mount_point + "/etc/environment.d"@])),
            written(mount_point + "/etc/environment.d"@ + "/input-method.conf"@, environment),
        ],
        _ => Seq::empty(),
    }
}

/// The steps that configure the input method of the installed system.
pub fn configure_input_method(cfg: &Config, mount_point: &str) -> (script: Script)
    ensures
        script@ == input_method_steps(cfg@, mount_point@),
{
    let mut script = Script::new();
    if !cfg.input_method.enabled {
        return script;
    }
    let engine = cfg.input_method.engine.as_str();
    let environment = if same_text(engine, "kime") {
        KIME_ENVIRONMENT
    } else if same_text(engine, "fcitx5") {
        FCITX_ENVIRONMENT
    } else if same_text(engine, "ibus") {
        IBUS_ENVIRONMENT
    } else {
        return script;
    };
    let env_dir = glue(mount_point, "/etc/environment.d");
    script.push(Step::attempt(Invocation::new("mkdir", &["-p", env_dir.as_str()])));
    script.push(
        Step::write(glue(env_dir.as_str(), "/input-method.conf").as_str(), environment),
    );
    assert(script@ =~~= input_method_steps(cfg@, mount_point@));
    script
}

/// The groups that the user of the installed system belongs to.
pub const USER_GROUPS: &'static str = "wheel,audio,video,storage,optical";

/// The rule that lets the administrators' group run any command.
pub const SUDO_RULE: &'static str = "%wheel ALL=(ALL:ALL) ALL\n";

/// What the login manager reads to log `username` in by itself.
pub open spec fn autologin_settings(username: Seq<char>) -> Seq<char> {
    "[Autologin]\nUser="@ + username + "\nSession=plasma\nRelogin=true\n"@
}

/// Having the login manager log the user in, where that is asked for.
pub open spec fn autologin_steps(cfg: ConfigView, mount_point: Seq<char>) -> Seq<StepView> {
    if cfg.install.autologin {
        seq![
            attempt(command("mkdir"@, seq!["-p"@, mount_point + "/etc/sddm.conf.d"@])),
            written(
                mount_point + "/etc/sddm.conf.d"@ + "/autologin.conf"@,
                autologin_settings(cfg.install.username),
            ),
        ]
    } else {
        Seq::empty()
    }
}

/// Setting the administrator's password, creating the user with a password
/// and the right to administer. The passwords are fed to the tool that sets
/// them on its standard input, one `name:password` line each.
pub open spec fn account_steps(cfg: ConfigView, mount_point: Seq<char>) -> Seq<StepView> {
    let install = cfg.install;
    seq![
        attempt(
            inside_fed(
                mount_point,
                "chpasswd"@,
                Seq::empty(),
                "root:"@ + install.root_password + "\n"@,
            ),
        ),
        attempt(
            inside(
                mount_point,
                "useradd"@,
                seq!["-m"@, "-G"@, USER_GROUPS@, "-s"@, "/bin/bash"@, install.username],
            ),
        ),
        attempt(
            inside_fed(
                mount_point,
                "chpasswd"@,
                Seq::empty(),
                install.username + ":"@ + install.user_password + "\n"@,
            ),
        ),
        written(mount_point + "/etc/sudoers.d/wheel"@, SUDO_RULE@),
        attempt(command("chmod"@, seq!["440"@, mount_point + "/etc/sudoers.d/wheel"@])),
    ]
}

/// Setting up the accounts of the installed system.
pub open spec fn user_steps(cfg: ConfigView, mount_point: Seq<char>) -> Seq<StepView> {
    account_steps(cfg, mount_point) + autologin_steps(cfg, mount_point)
}

fn account_script(cfg: &Config, mount_point: &str) -> (script: Script)
    ensures
        script@ == account_steps(cfg@, mount_point@),
{
    let install = &cfg.install;
    let username = install.username.as_str();
    let root_line = glue3("root:", install.root_password.as_str(), "\n");
    let mut user_line = glue3(username, ":", install.user_password.as_str());
    user_line.append("\n");
    let sudoers = glue(mount_point, "/etc/sudoers.d/wheel");
    let mut script = Script::new();
    script.push(
        Step::attempt(Invocation::inside(mount_point, "chpasswd", &[]).input(root_line.as_str())),
    );
    script.push(
        Step::attempt(
            Invocation::inside(
                mount_point,
                "useradd",
                &["-m", "-G", USER_GROUPS, "-s", "/bin/bash", username],
            ),
        ),
    );
    script.push(
        Step::attempt(Invocation::inside(mount_point, "chpasswd", &[]).input(user_line.as_str())),
    );
    script.push(Step::write(sudoers.as_str(), SUDO_RULE));
    script.push(Step::attempt(Invocation::new("chmod", &["440", sudoers.as_str()])));
    assert(script@ =~~= account_steps(cfg@, mount_point@));
    script
}

fn autologin_script(cfg: &Config, mount_point: &str) -> (script: Script)
    ensures
        script@ == autologin_steps(cfg@, mount_point@),
{
    let mut script = Script::new();
    if cfg.install.autologin {
        let conf_dir = glue(mount_point, "/etc/sddm.conf.d");
        script.push(Step::attempt(Invocation::new("mkdir", &["-p", conf_dir.as_str()])));
        script.push(
            Step::write(
                glue(conf_dir.as_str(), "/autologin.conf").as_str(),
                glue3(
                    "[Autologin]\nUser=",
                    cfg.install.username.as_str(),
                    "\nSession=plasma\nRelogin=true\n",
                ).as_str(),
            ),
        );
    }
    assert(script@ =~~= autologin_steps(cfg@, mount_point@));
    script
}

/// The steps that set up the accounts of the installed system.
pub fn configure_users(cfg: &Config, mount_point: &str) -> (script: Script)
    ensures
        script@ == user_steps(cfg@, mount_point@),
{
    let mut script = account_script(cfg, mount_point);
    script.extend(autologin_script(cfg, mount_point));
    script
}

/// Whatever fails in configuring the installed system, the installation
/// goes on.
pub proof fn lemma_configuration_never_fatal(cfg: ConfigView, mount_point: Seq<char>)
    ensures
        never_fatal(system_steps(cfg, mount_point)),
        never_fatal(locale_steps(cfg, mount_point)),
        never_fatal(input_method_steps(cfg, mount_point)),
        never_fatal(user_steps(cfg, mount_point)),
{
}

/// The passwords are on no command line: whatever the passwords of the
/// administrator and the user, the steps that set up the accounts start the
/// same programs with the same arguments.
pub proof fn lemma_passwords_are_on_no_command_line(
    cfg: ConfigView,
    other: ConfigView,
    mount_point: Seq<char>,
    i: int,
)
    requires
        other == (ConfigView {
            install: InstallView {
                root_password: other.install.root_password,
                user_password: other.install.user_password,
                ..cfg.install
            },
            ..cfg
        }),
        0 <= i < user_steps(cfg, mount_point).len(),
    ensures
        user_steps(other, mount_point).len() == user_steps(cfg, mount_point).len(),
        command_line(user_steps(other, mount_point)[i]) == command_line(
            user_steps(cfg, mount_point)[i],
        ),
{
    let here = account_steps(cfg, mount_point);
    let there = account_steps(other, mount_point);
    assert(autologin_steps(other, mount_point) == autologin_steps(cfg, mount_point));
    assert(here.len() == 5 && there.len() == 5);
    if i < 5 {
        assert(user_steps(cfg, mount_point)[i] == here[i]);
        assert(user_steps(other, mount_point)[i] == there[i]);
    } else {
        assert(user_steps(cfg, mount_point)[i] == autologin_steps(cfg, mount_point)[i - 5]);
        assert(user_steps(other, mount_point)[i] == autologin_steps(other, mount_point)[i - 5]);
    }
}

} // verus!
