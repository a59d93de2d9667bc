use blunux_installer::command::{Invocation, Step};
use blunux_installer::config::Config;
use blunux_installer::system::{
    configure_input_method, configure_locale, configure_system, configure_users,
};

fn system_test_chroot(args: &[&str]) -> Step {
    Step::attempt(Invocation::new("arch-chroot", args))
}

#[test]
fn system_is_configured_with_zone_names_and_services() {
    let mut cfg = Config::default();
    cfg.install.hostname = "box".to_string();
    cfg.locale.timezone = "Europe/Stockholm".to_string();
    let script = configure_system(&cfg, "/mnt");
    let expected = vec![
        system_test_chroot(&[
            "/mnt",
            "ln",
            "-sf",
            "/usr/share/zoneinfo/Europe/Stockholm",
            "/etc/localtime",
        ]),
        system_test_chroot(&["/mnt", "hwclock", "--systohc"]),
        Step::write("/mnt/etc/hostname", "box\n"),
        Step::write(
            "/mnt/etc/hosts",
            "127.0.0.1    localhost\n::1          localhost\n127.0.1.1    box.localdomain box\n",
        ),
        system_test_chroot(&["/mnt", "systemctl", "enable", "NetworkManager"]),
        system_test_chroot(&["/mnt", "systemctl", "enable", "sddm"]),
        Step::attempt(
            Invocation::new("arch-chroot", &["/mnt", "systemctl", "enable", "cups"]).quiet(),
        ),
    ];
    assert_eq!(script.steps, expected);
}

#[test]
fn locale_for_korean_adds_english() {
    let cfg = Config::default();
    let script = configure_locale(&cfg, "/mnt");
    let expected = vec![
        Step::append("/mnt/etc/locale.gen", "ko_KR.UTF-8 UTF-8\nen_US.UTF-8 UTF-8\n"),
        system_test_chroot(&["/mnt", "locale-gen"]),
        Step::write("/mnt/etc/locale.conf", "LANG=ko_KR.UTF-8\n"),
        Step::write("/mnt/etc/vconsole.conf", "KEYMAP=us\n"),
    ];
    assert_eq!(script.steps, expected);
}

#[test]
fn locale_with_english_among_the_languages() {
    let mut cfg = Config::default();
    cfg.locale.languages = vec!["ja_JP".to_string(), "en_US".to_string(), "ko_KR".to_string()];
    cfg.locale.keyboards = vec!["jp".to_string(), "us".to_string()];
    let script = configure_locale(&cfg, "/mnt");
    let expected = vec![
        Step::append(
            "/mnt/etc/locale.gen",
            "ja_JP.UTF-8 UTF-8\nen_US.UTF-8 UTF-8\nko_KR.UTF-8 UTF-8\n",
        ),
        system_test_chroot(&["/mnt", "locale-gen"]),
        Step::write("/mnt/etc/locale.conf", "LANG=ja_JP.UTF-8\n"),
        Step::write("/mnt/etc/vconsole.conf", "KEYMAP=jp\n"),
    ];
    assert_eq!(script.steps, expected);
}

#[test]
fn locale_without_languages_or_keyboards() {
    let mut cfg = Config::default();
    cfg.locale.languages = Vec::new();
    cfg.locale.keyboards = Vec::new();
    let script = configure_locale(&cfg, "/mnt");
    let expected = vec![
        Step::append("/mnt/etc/locale.gen", "en_US.UTF-8 UTF-8\n"),
        system_test_chroot(&["/mnt", "locale-gen"]),
        Step::write("/mnt/etc/locale.conf", "LANG=en_US.UTF-8\n"),
    ];
    assert_eq!(script.steps, expected);
}

#[test]
fn locale_counts_only_the_exact_english_name() {
    let mut cfg = Config::default();
    cfg.locale.languages = vec!["en_US.UTF-8".to_string()];
    let script = configure_locale(&cfg, "/mnt");
    assert_eq!(
        script.steps[0],
        Step::append("/mnt/etc/locale.gen", "en_US.UTF-8.UTF-8 UTF-8\nen_US.UTF-8 UTF-8\n")
    );
}

#[test]
fn input_method_environment_per_engine() {
    let mut cfg = Config::default();
    let script = configure_input_method(&cfg, "/mnt");
    let expected = vec![
        Step::attempt(Invocation::new("mkdir", &["-p", "/mnt/etc/environment.d"])),
        Step::write(
            "/mnt/etc/environment.d/input-method.conf",
            "\n# Kime Korean Input Method\nGTK_IM_MODULE=kime\nQT_IM_MODULE=kime\nXMODIFIERS=@im=kime\n",
        ),
    ];
    assert_eq!(script.steps, expected);

    cfg.input_method.engine = "fcitx5".to_string();
    let script = configure_input_method(&cfg, "/mnt");
    assert_eq!(
        script.steps[1],
        Step::write(
            "/mnt/etc/environment.d/input-method.conf",
            "\n# Fcitx5 Input Method\nGTK_IM_MODULE=fcitx\nQT_IM_MODULE=fcitx\nXMODIFIERS=@im=fcitx\n",
        )
    );

    cfg.input_method.engine = "ibus".to_string();
    let script = configure_input_method(&cfg, "/mnt");
    assert_eq!(
        script.steps[1],
        Step::write(
            "/mnt/etc/environment.d/input-method.conf",
            "\n# IBus Input Method\nGTK_IM_MODULE=ibus\nQT_IM_MODULE=ibus\nXMODIFIERS=@im=ibus\n",
        )
    );
}

#[test]
fn input_method_disabled_or_unknown_does_nothing() {
    let mut cfg = Config::default();
    cfg.input_method.enabled = false;
    assert!(configure_input_method(&cfg, "/mnt").steps.is_empty());
    cfg.input_method.enabled = true;
    cfg.input_method.engine = "scim".to_string();
    assert!(configure_input_method(&cfg, "/mnt").steps.is_empty());
}

#[test]
fn users_get_passwords_on_standard_input() {
    let mut cfg = Config::default();
    cfg.install.username = "ada".to_string();
    cfg.install.root_password = "r00t' \"pw".to_string();
    cfg.install.user_password = "us3r".to_string();
    cfg.install.autologin = true;
    let script = configure_users(&cfg, "/mnt");
    let expected = vec![
        Step::attempt(
            Invocation::new("arch-chroot", &["/mnt", "chpasswd"]).input("root:r00t' \"pw\n"),
        ),
        system_test_chroot(&[
            "/mnt",
            "useradd",
            "-m",
            "-G",
            "wheel,audio,video,storage,optical",
            "-s",
            "/bin/bash",
            "ada",
        ]),
        Step::attempt(Invocation::new("arch-chroot", &["/mnt", "chpasswd"]).input("ada:us3r\n")),
        Step::write("/mnt/etc/sudoers.d/wheel", "%wheel ALL=(ALL:ALL) ALL\n"),
        Step::attempt(Invocation::new("chmod", &["440", "/mnt/etc/sudoers.d/wheel"])),
        Step::attempt(Invocation::new("mkdir", &["-p", "/mnt/etc/sddm.conf.d"])),
        Step::write(
            "/mnt/etc/sddm.conf.d/autologin.conf",
            "[Autologin]\nUser=ada\nSession=plasma\nRelogin=true\n",
        ),
    ];
    assert_eq!(script.steps, expected);
}

#[test]
fn users_without_autologin() {
    let mut cfg = Config::default();
    cfg.install.autologin = false;
    let script = configure_users(&cfg, "/mnt");
    assert_eq!(script.len(), 5);
    assert_eq!(
        script.steps[4],
        Step::attempt(Invocation::new("chmod", &["440", "/mnt/etc/sudoers.d/wheel"]))
    );
}

#[test]
fn no_configuration_step_is_fatal() {
    let cfg = Config::default();
    for script in [
        configure_system(&cfg, "/mnt"),
        configure_locale(&cfg, "/mnt"),
        configure_input_method(&cfg, "/mnt"),
        configure_users(&cfg, "/mnt"),
    ] {
        for step in &script.steps {
            assert!(!step.is_fatal());
        }
    }
}
