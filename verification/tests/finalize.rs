use blunux_installer::command::{Action, Invocation, Step};
use blunux_installer::config::Config;
use blunux_installer::finalize::{
    branding_probe, finalize, is_kime_set_up, package_program_text, release_probe,
    window_rules_file, BORE_SETUP_SCRIPT, COPY_BRANDING_SCRIPT, KIME_AUTOSTART,
    KIME_ENVIRONMENT_FILE, KIME_INSTALL_SCRIPT, KIME_LOGIN_PROFILE, KIME_SERVICE,
    KIME_SESSION_PROFILE, KIME_SETTINGS, KIME_WINDOW_RULES, PACKAGE_SCRIPT_HEAD,
    PACKAGE_SCRIPT_TAIL, SYSTEM_CHECK_SCRIPT,
};

fn finalize_test_run(program: &str, args: &[&str]) -> Step {
    Step::attempt(Invocation::new(program, args))
}

fn finalize_test_program(path: &str, content: &str) -> Vec<Step> {
    vec![Step::write(path, content), finalize_test_run("chmod", &["+x", path])]
}

fn finalize_test_tail() -> Vec<Step> {
    vec![
        finalize_test_run("chown", &["-R", "1000:1000", "/mnt/home/user"]),
        finalize_test_run("chmod", &["700", "/mnt/home/user"]),
        finalize_test_run("chmod", &["700", "/mnt/home/user/.config"]),
        Step::attempt(Invocation::new("umount", &["-R", "/mnt"]).quiet()),
        Step::attempt(Invocation::new("cryptsetup", &["close", "cryptroot"]).quiet()),
    ]
}

#[test]
fn probes_of_the_installation_medium() {
    assert_eq!(branding_probe(), Invocation::new("test", &["-f", "/etc/fastfetch/config.jsonc"]));
    assert_eq!(release_probe(), Invocation::new("test", &["-f", "/etc/os-release"]));
}

#[test]
fn window_rules_are_kept_in_the_home_directory() {
    let mut cfg = Config::default();
    cfg.install.username = "ada".to_string();
    assert_eq!(window_rules_file(&cfg, "/mnt"), "/mnt/home/ada/.config/kwinrc");
}

#[test]
fn kime_is_set_up_when_enabled_and_chosen() {
    let mut cfg = Config::default();
    assert!(is_kime_set_up(&cfg));
    cfg.input_method.enabled = false;
    assert!(!is_kime_set_up(&cfg));
    cfg.input_method.enabled = true;
    cfg.input_method.engine = "ibus".to_string();
    assert!(!is_kime_set_up(&cfg));
}

#[test]
fn helper_programs_are_what_they_are() {
    assert_eq!(PACKAGE_SCRIPT_HEAD.len(), 1446);
    assert!(PACKAGE_SCRIPT_HEAD.starts_with("#!/bin/bash\n# Blunux Package Installation Script"));
    assert!(PACKAGE_SCRIPT_HEAD.contains("BASE_URL=\"https://jaewoojoung.github.io/linux\"\n"));
    assert!(PACKAGE_SCRIPT_HEAD.contains("    local script=\"/tmp/blunux-install-$pkg.sh\"\n"));
    assert!(PACKAGE_SCRIPT_HEAD.ends_with("}\n\n# Selected packages:\n"));
    assert_eq!(PACKAGE_SCRIPT_TAIL.len(), 555);
    assert!(PACKAGE_SCRIPT_TAIL.starts_with("\necho \"=====") );
    assert!(PACKAGE_SCRIPT_TAIL.contains("if [ ${#FAILED_PACKAGES[@]} -gt 0 ]; then\n"));
    assert!(PACKAGE_SCRIPT_TAIL
        .ends_with("echo \"Please log out and log back in for changes to take effect.\"\n"));
    assert_eq!(KIME_INSTALL_SCRIPT.len(), 634);
    assert!(KIME_INSTALL_SCRIPT.contains("yay -S --noconfirm --needed kime-git\n"));
    assert_eq!(BORE_SETUP_SCRIPT.len(), 1680);
    assert!(BORE_SETUP_SCRIPT
        .contains("yay -S --noconfirm --needed linux-cachyos linux-cachyos-headers\n"));
    assert!(BORE_SETUP_SCRIPT.contains("--loader \"\\\\EFI\\\\Blunux\\\\vmlinuz-linux-cachyos\" \\\n"));
    assert_eq!(SYSTEM_CHECK_SCRIPT.len(), 350);
    assert!(SYSTEM_CHECK_SCRIPT
        .contains("SYSCHK_URL=\"https://jaewoojoung.github.io/linux/syschk.jl\"\n"));
    assert!(SYSTEM_CHECK_SCRIPT.ends_with("julia \"$SYSCHK_FILE\"\n"));
    assert_eq!(KIME_SETTINGS.len(), 501);
    assert!(KIME_SETTINGS.starts_with("indicator:\n  icon_color: Black\n\nengine:\n"));
    assert!(KIME_SETTINGS.ends_with("    word_commit: false\n    auto_reorder: true\n"));
}

#[test]
fn kime_files_are_what_they_are() {
    assert_eq!(
        KIME_AUTOSTART,
        "[Desktop Entry]\nType=Application\nName=Kime Input Method\nExec=/usr/bin/kime\nTerminal=false\nCategories=Utility;\nX-GNOME-Autostart-enabled=true\n"
    );
    assert_eq!(
        KIME_SERVICE,
        "[Unit]\nDescription=Korean Input Method Editor\nAfter=graphical-session.target\nPartOf=graphical-session.target\n\n[Service]\nType=simple\nExecStart=/usr/bin/kime\nRestart=on-failure\nRestartSec=3\nEnvironment=\"GTK_IM_MODULE=kime\"\nEnvironment=\"QT_IM_MODULE=kime\"\nEnvironment=\"XMODIFIERS=@im=kime\"\n\n[Install]\nWantedBy=graphical-session.target\n"
    );
    assert_eq!(
        KIME_WINDOW_RULES,
        "[Wayland]\nInputMethod[$e]=/usr/share/applications/kime.desktop\n"
    );
    assert_eq!(
        KIME_LOGIN_PROFILE,
        "# Kime Input Method\nexport GTK_IM_MODULE=kime\nexport QT_IM_MODULE=kime\nexport XMODIFIERS=@im=kime\nexport LANG=ko_KR.UTF-8\n"
    );
    assert_eq!(
        KIME_SESSION_PROFILE,
        "export GTK_IM_MODULE=kime\nexport QT_IM_MODULE=kime\nexport XMODIFIERS=@im=kime\n"
    );
    assert_eq!(
        KIME_ENVIRONMENT_FILE,
        "GTK_IM_MODULE=kime\nQT_IM_MODULE=kime\nXMODIFIERS=@im=kime\n"
    );
    assert_eq!(COPY_BRANDING_SCRIPT, "cp -r /etc/fastfetch/* \"$1\" 2>/dev/null || true");
}

#[test]
fn package_program_has_a_line_for_each_program() {
    let packages = vec!["firefox".to_string(), "vlc".to_string()];
    let expected = format!(
        "{}install_package \"firefox\"\ninstall_package \"vlc\"\n{}",
        PACKAGE_SCRIPT_HEAD, PACKAGE_SCRIPT_TAIL
    );
    assert_eq!(package_program_text(&packages), expected);
    assert_eq!(
        package_program_text(&Vec::new()),
        format!("{}{}", PACKAGE_SCRIPT_HEAD, PACKAGE_SCRIPT_TAIL)
    );
}

#[test]
fn finalize_at_its_least() {
    let mut cfg = Config::default();
    cfg.input_method.enabled = false;
    let script = finalize(&cfg, "/mnt", false, false, false);
    let mut expected = vec![
        finalize_test_run("mkdir", &["-p", "/mnt/home/user/.config/fastfetch"]),
        finalize_test_run("mkdir", &["-p", "/mnt/etc/fastfetch"]),
        finalize_test_run(
            "sh",
            &["-c", "cp -r /etc/fastfetch/* \"$1\" 2>/dev/null || true", "sh", "/mnt/etc/fastfetch/"],
        ),
    ];
    expected.extend(finalize_test_program("/mnt/home/user/syschk.sh", SYSTEM_CHECK_SCRIPT));
    expected.extend(finalize_test_tail());
    assert_eq!(script.steps, expected);
}

#[test]
fn finalize_at_its_most() {
    let mut cfg = Config::default();
    cfg.kernel.type_ = "linux-bore".to_string();
    cfg.packages.firefox = true;
    cfg.packages.docker = true;
    let script = finalize(&cfg, "/mnt", true, true, true);
    let home = "/mnt/home/user";
    let mut expected = vec![
        finalize_test_run("mkdir", &["-p", "/mnt/home/user/.config/fastfetch"]),
        finalize_test_run(
            "cp",
            &["/etc/fastfetch/config.jsonc", "/mnt/home/user/.config/fastfetch/"],
        ),
        Step::attempt(
            Invocation::new(
                "cp",
                &["/etc/fastfetch/blunux-logo.txt", "/mnt/home/user/.config/fastfetch/"],
            )
            .quiet(),
        ),
        finalize_test_run("mkdir", &["-p", "/mnt/etc/fastfetch"]),
        finalize_test_run(
            "sh",
            &["-c", "cp -r /etc/fastfetch/* \"$1\" 2>/dev/null || true", "sh", "/mnt/etc/fastfetch/"],
        ),
        finalize_test_run("cp", &["/etc/os-release", "/mnt/etc/os-release"]),
        finalize_test_run("mkdir", &["-p", "/mnt/usr/lib"]),
        finalize_test_run("cp", &["/etc/os-release", "/mnt/usr/lib/os-release"]),
    ];
    let program = format!(
        "{}install_package \"firefox\"\ninstall_package \"docker\"\n{}",
        PACKAGE_SCRIPT_HEAD, PACKAGE_SCRIPT_TAIL
    );
    expected.extend(finalize_test_program("/mnt/home/user/install-packages.sh", &program));
    expected.extend(finalize_test_program("/mnt/home/user/kime-install.sh", KIME_INSTALL_SCRIPT));
    expected.extend(finalize_test_program("/mnt/home/user/setup-linux-bore.sh", BORE_SETUP_SCRIPT));
    expected.extend(finalize_test_program("/mnt/home/user/syschk.sh", SYSTEM_CHECK_SCRIPT));
    expected.extend(vec![
        finalize_test_run("mkdir", &["-p", "/mnt/home/user/.config/kime"]),
        Step::write("/mnt/home/user/.config/kime/config.yaml", KIME_SETTINGS),
        finalize_test_run("mkdir", &["-p", "/mnt/home/user/.config/autostart"]),
        Step::write("/mnt/home/user/.config/autostart/kime.desktop", KIME_AUTOSTART),
        finalize_test_run("mkdir", &["-p", "/mnt/home/user/.config/systemd/user"]),
        Step::write("/mnt/home/user/.config/systemd/user/kime.service", KIME_SERVICE),
        Step::attempt(
            Invocation::new(
                "arch-chroot",
                &["/mnt", "su", "-", "user", "-c", "systemctl --user enable kime.service"],
            )
            .quiet(),
        ),
        Step::append(
            &format!("{home}/.config/kwinrc"),
            "\n[Wayland]\nInputMethod[$e]=/usr/share/applications/kime.desktop\n",
        ),
        Step::append(&format!("{home}/.bash_profile"), KIME_LOGIN_PROFILE),
        Step::write(&format!("{home}/.xprofile"), KIME_SESSION_PROFILE),
        finalize_test_run("mkdir", &["-p", "/mnt/etc/environment.d"]),
        Step::write("/mnt/etc/environment.d/kime.conf", KIME_ENVIRONMENT_FILE),
    ]);
    expected.extend(finalize_test_tail());
    assert_eq!(script.steps, expected);
}

#[test]
fn finalize_writes_the_window_rules_where_there_are_none() {
    let cfg = Config::default();
    let script = finalize(&cfg, "/mnt", false, false, false);
    assert!(script.steps.contains(&Step::write(
        "/mnt/home/user/.config/kwinrc",
        "[Wayland]\nInputMethod[$e]=/usr/share/applications/kime.desktop\n"
    )));
}

#[test]
fn finalize_ends_with_unmounting_and_is_never_fatal() {
    for branded in [false, true] {
        for released in [false, true] {
            for ruled in [false, true] {
                let script = finalize(&Config::default(), "/mnt", branded, released, ruled);
                let count = script.len();
                assert_eq!(
                    script.steps[count - 2].action,
                    Action::Run(Invocation::new("umount", &["-R", "/mnt"]).quiet())
                );
                for step in &script.steps {
                    assert!(!step.is_fatal());
                }
            }
        }
    }
}
