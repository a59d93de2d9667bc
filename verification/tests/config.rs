use blunux_installer::config::{
    select, BlunuxConfig, Config, DiskConfig, InputMethodConfig, InstallConfig, KernelConfig,
    LocaleConfig, PackagesConfig, SwapMode, TomlBlunux, TomlBrowser, TomlDevelopment, TomlDisk,
    TomlInputMethod, TomlInstall, TomlKernel, TomlLocale, TomlPackages, TomlRoot,
    TomlStringOrArray, TomlUtility,
};

fn config_test_empty_root() -> TomlRoot {
    TomlRoot {
        blunux: None,
        locale: None,
        input_method: None,
        kernel: None,
        disk: None,
        install: None,
        packages: None,
    }
}

fn config_test_no_packages() -> TomlPackages {
    TomlPackages {
        desktop: None,
        browser: None,
        office: None,
        development: None,
        multimedia: None,
        gaming: None,
        virtualization: None,
        communication: None,
        utility: None,
    }
}

#[test]
fn swap_mode_from_str_knows_the_four_labels() {
    assert_eq!(SwapMode::from_str("none"), SwapMode::NoSwap);
    assert_eq!(SwapMode::from_str("small"), SwapMode::Small);
    assert_eq!(SwapMode::from_str("suspend"), SwapMode::Suspend);
    assert_eq!(SwapMode::from_str("file"), SwapMode::File);
}

#[test]
fn swap_mode_from_str_ignores_case() {
    assert_eq!(SwapMode::from_str("NONE"), SwapMode::NoSwap);
    assert_eq!(SwapMode::from_str("Small"), SwapMode::Small);
    assert_eq!(SwapMode::from_str("FiLe"), SwapMode::File);
    assert_eq!(SwapMode::from_str("SUSPEND"), SwapMode::Suspend);
}

#[test]
fn swap_mode_from_str_falls_back_to_suspend() {
    assert_eq!(SwapMode::from_str(""), SwapMode::Suspend);
    assert_eq!(SwapMode::from_str("bogus"), SwapMode::Suspend);
    assert_eq!(SwapMode::from_str(" none"), SwapMode::Suspend);
    assert_eq!(SwapMode::from_str("none "), SwapMode::Suspend);
}

#[test]
fn swap_mode_from_label_is_exact_about_case() {
    assert_eq!(SwapMode::from_label("none"), SwapMode::NoSwap);
    assert_eq!(SwapMode::from_label("NONE"), SwapMode::Suspend);
    assert_eq!(SwapMode::from_label("small"), SwapMode::Small);
    assert_eq!(SwapMode::from_label("file"), SwapMode::File);
    assert_eq!(SwapMode::from_label("suspend"), SwapMode::Suspend);
}

#[test]
fn swap_mode_labels() {
    assert_eq!(SwapMode::NoSwap.label(), "none");
    assert_eq!(SwapMode::Small.label(), "small (RAM/2)");
    assert_eq!(SwapMode::Suspend.label(), "suspend (RAM size)");
    assert_eq!(SwapMode::File.label(), "file");
}

#[test]
fn defaults_of_the_sections() {
    assert_eq!(
        BlunuxConfig::default(),
        BlunuxConfig { version: "1.0".to_string(), name: "blunux".to_string() }
    );
    assert_eq!(
        LocaleConfig::default(),
        LocaleConfig {
            languages: vec!["ko_KR".to_string()],
            timezone: "Asia/Seoul".to_string(),
            keyboards: vec!["us".to_string()],
        }
    );
    assert_eq!(
        InputMethodConfig::default(),
        InputMethodConfig { enabled: true, engine: "kime".to_string() }
    );
    assert_eq!(KernelConfig::default(), KernelConfig { type_: "linux".to_string() });
    assert_eq!(DiskConfig::default(), DiskConfig { swap: SwapMode::Suspend });
    assert_eq!(
        InstallConfig::default(),
        InstallConfig {
            target_disk: String::new(),
            hostname: "blunux".to_string(),
            username: "user".to_string(),
            root_password: String::new(),
            user_password: String::new(),
            use_encryption: false,
            encryption_password: String::new(),
            bootloader: "grub".to_string(),
            autologin: true,
        }
    );
}

#[test]
fn default_packages_choose_nothing() {
    let p = PackagesConfig::default();
    assert!(!p.kde && !p.firefox && !p.whale && !p.chrome && !p.mullvad);
    assert!(!p.libreoffice && !p.hoffice && !p.texlive);
    assert!(!p.vscode && !p.sublime && !p.git && !p.rust && !p.julia && !p.nodejs);
    assert!(!p.github_cli && !p.vlc && !p.obs && !p.freetv && !p.ytdlp && !p.freetube);
    assert!(!p.steam && !p.unciv && !p.snes9x && !p.virtualbox && !p.docker);
    assert!(!p.teams && !p.whatsapp && !p.onenote);
    assert!(!p.bluetooth && !p.conky && !p.vnc && !p.samba);
}

#[test]
fn default_config_is_made_of_the_defaults() {
    let cfg = Config::default();
    assert_eq!(cfg.blunux, BlunuxConfig::default());
    assert_eq!(cfg.locale, LocaleConfig::default());
    assert_eq!(cfg.input_method, InputMethodConfig::default());
    assert_eq!(cfg.kernel, KernelConfig::default());
    assert_eq!(cfg.disk, DiskConfig::default());
    assert_eq!(cfg.packages, PackagesConfig::default());
    assert_eq!(cfg.install, InstallConfig::default());
    assert!(!cfg.loaded_from_file);
    assert_eq!(cfg.clone(), cfg);
}

#[test]
fn script_package_list_is_empty_by_default() {
    assert!(Config::default().get_script_package_list().is_empty());
}

#[test]
fn script_package_list_leaves_out_desktop_and_git() {
    let mut cfg = Config::default();
    cfg.packages.kde = true;
    cfg.packages.git = true;
    assert!(cfg.get_script_package_list().is_empty());
}

#[test]
fn script_package_list_in_installation_order() {
    let mut cfg = Config::default();
    cfg.packages = PackagesConfig {
        kde: true,
        firefox: true,
        whale: true,
        chrome: true,
        mullvad: true,
        libreoffice: true,
        hoffice: true,
        texlive: true,
        vscode: true,
        sublime: true,
        git: true,
        rust: true,
        julia: true,
        nodejs: true,
        github_cli: true,
        vlc: true,
        obs: true,
        freetv: true,
        ytdlp: true,
        freetube: true,
        steam: true,
        unciv: true,
        snes9x: true,
        virtualbox: true,
        docker: true,
        teams: true,
        whatsapp: true,
        onenote: true,
        bluetooth: true,
        conky: true,
        vnc: true,
        samba: true,
    };
    assert_eq!(
        cfg.get_script_package_list(),
        vec![
            "firefox",
            "whale",
            "chrome",
            "mullvad",
            "libreoffice",
            "hoffice",
            "texlive",
            "vscode",
            "sublime",
            "rust",
            "julia",
            "nodejs",
            "github_cli",
            "obs",
            "vlc",
            "freetv",
            "ytdlp",
            "freetube",
            "steam",
            "unciv",
            "snes9x",
            "virtualbox",
            "docker",
            "teams",
            "whatsapp",
            "onenote",
            "conky",
            "vnc",
            "samba",
            "bluetooth",
        ]
    );
}

#[test]
fn script_package_list_of_a_few() {
    let mut cfg = Config::default();
    cfg.packages.bluetooth = true;
    cfg.packages.vlc = true;
    cfg.packages.obs = true;
    cfg.packages.firefox = true;
    assert_eq!(cfg.get_script_package_list(), vec!["firefox", "obs", "vlc", "bluetooth"]);
}

#[test]
fn select_keeps_the_set_flags_in_order() {
    assert_eq!(select(&[(true, "a"), (false, "b"), (true, "c")]), vec!["a", "c"]);
    assert_eq!(select(&[(false, "a")]), Vec::<String>::new());
    assert_eq!(select(&[]), Vec::<String>::new());
}

#[test]
fn load_of_an_empty_file_gives_the_defaults() {
    let cfg = Config::load(config_test_empty_root());
    let mut expected = Config::default();
    expected.loaded_from_file = true;
    assert_eq!(cfg, expected);
}

#[test]
fn load_takes_what_the_file_says() {
    let mut root = config_test_empty_root();
    root.blunux = Some(TomlBlunux { version: Some("2.0".to_string()), name: None });
    root.locale = Some(TomlLocale {
        language: Some(TomlStringOrArray::Single("ja_JP".to_string())),
        timezone: Some("Asia/Tokyo".to_string()),
        keyboard: Some(vec!["jp".to_string(), "us".to_string()]),
    });
    root.input_method = Some(TomlInputMethod { enabled: Some(false), engine: None });
    root.kernel = Some(TomlKernel { type_: Some("linux-lts".to_string()) });
    root.disk = Some(TomlDisk { swap: Some("SMALL".to_string()) });
    root.install = Some(TomlInstall {
        hostname: Some("box".to_string()),
        username: None,
        root_password: Some("r".to_string()),
        user_password: Some("u".to_string()),
        bootloader: Some("nmbl".to_string()),
        encryption: Some(true),
        autologin: Some(false),
    });
    let mut packages = config_test_no_packages();
    packages.browser =
        Some(TomlBrowser { firefox: Some(true), whale: None, chrome: Some(false), mullvad: None });
    packages.development = Some(TomlDevelopment {
        vscode: None,
        sublime: None,
        git: Some(true),
        rust: Some(true),
        julia: None,
        nodejs: None,
        github_cli: None,
    });
    packages.utility =
        Some(TomlUtility { bluetooth: Some(true), conky: None, vnc: None, samba: None });
    root.packages = Some(packages);

    let cfg = Config::load(root);

    assert_eq!(cfg.blunux.version, "2.0");
    assert_eq!(cfg.blunux.name, "blunux");
    assert_eq!(cfg.locale.languages, vec!["ja_JP"]);
    assert_eq!(cfg.locale.timezone, "Asia/Tokyo");
    assert_eq!(cfg.locale.keyboards, vec!["jp", "us"]);
    assert!(!cfg.input_method.enabled);
    assert_eq!(cfg.input_method.engine, "kime");
    assert_eq!(cfg.kernel.type_, "linux-lts");
    assert_eq!(cfg.disk.swap, SwapMode::Small);
    assert_eq!(cfg.install.target_disk, "");
    assert_eq!(cfg.install.hostname, "box");
    assert_eq!(cfg.install.username, "user");
    assert_eq!(cfg.install.root_password, "r");
    assert_eq!(cfg.install.user_password, "u");
    assert_eq!(cfg.install.bootloader, "nmbl");
    assert!(cfg.install.use_encryption);
    assert_eq!(cfg.install.encryption_password, "");
    assert!(!cfg.install.autologin);
    let mut expected = PackagesConfig::default();
    expected.firefox = true;
    expected.git = true;
    expected.rust = true;
    expected.bluetooth = true;
    assert_eq!(cfg.packages, expected);
    assert!(cfg.loaded_from_file);
}

#[test]
fn load_takes_a_list_of_languages() {
    let mut root = config_test_empty_root();
    root.locale = Some(TomlLocale {
        language: Some(TomlStringOrArray::Array(vec!["en_US".to_string(), "zh_CN".to_string()])),
        timezone: None,
        keyboard: None,
    });
    let cfg = Config::load(root);
    assert_eq!(cfg.locale.languages, vec!["en_US", "zh_CN"]);
    assert_eq!(cfg.locale.timezone, "Asia/Seoul");
    assert_eq!(cfg.locale.keyboards, vec!["us"]);
}

#[test]
fn load_with_sections_that_say_nothing() {
    let mut root = config_test_empty_root();
    root.blunux = Some(TomlBlunux { version: None, name: None });
    root.disk = Some(TomlDisk { swap: None });
    root.packages = Some(config_test_no_packages());
    let cfg = Config::load(root);
    let mut expected = Config::default();
    expected.loaded_from_file = true;
    assert_eq!(cfg, expected);
}

#[test]
fn load_with_an_unknown_swap_mode_falls_back_to_suspend() {
    let mut root = config_test_empty_root();
    root.disk = Some(TomlDisk { swap: Some("huge".to_string()) });
    assert_eq!(Config::load(root).disk.swap, SwapMode::Suspend);
}
