use blunux_installer::command::{Invocation, Step};
use blunux_installer::drivers::{
    classify, enable_multilib, hardware_query, includes_32bit, install_drivers,
    is_multilib_disabled, notes_realtek, repositories_query, resolve, select_32bit,
    shows_realtek, DriverSet, ENABLE_MULTILIB,
};

const DRIVERS_TEST_NVIDIA: &str =
    "01:00.0 VGA compatible controller [0300]: NVIDIA Corporation GA104 [GeForce RTX 3070] [10de:2484]";
const DRIVERS_TEST_AMD: &str =
    "03:00.0 VGA compatible controller [0300]: Advanced Micro Devices, Inc. [AMD/ATI] Navi 21 [1002:73bf]";
const DRIVERS_TEST_INTEL: &str =
    "00:02.0 VGA compatible controller [0300]: Intel Corporation UHD Graphics 620 [8086:5917]";
const DRIVERS_TEST_BROADCOM: &str =
    "02:00.0 Network controller [0280]: Broadcom Inc. and subsidiaries BCM4360 802.11ac [14e4:43a0]";
const DRIVERS_TEST_REALTEK: &str =
    "04:00.0 Network controller [0280]: Realtek Semiconductor Co., Ltd. RTL8822CE Wireless [10ec:c822]";
const DRIVERS_TEST_PLAIN: &str =
    "00:00.0 Host bridge [0600]: Red Hat, Inc. QEMU PCIe Host bridge [1b36:0008]";

fn drivers_test_names(names: &[&str]) -> Vec<String> {
    names.iter().map(|s| s.to_string()).collect()
}

#[test]
fn resolve_twice_gives_the_same() {
    for scan in [
        DRIVERS_TEST_NVIDIA,
        DRIVERS_TEST_AMD,
        DRIVERS_TEST_INTEL,
        DRIVERS_TEST_BROADCOM,
        DRIVERS_TEST_PLAIN,
        "",
    ] {
        let first = resolve(scan);
        let second = resolve(scan);
        assert_eq!(first.packages, second.packages);
        assert_eq!(first.requires_32bit, second.requires_32bit);
        assert_eq!(first, second);
    }
}

#[test]
fn nvidia_gives_its_stack_and_needs_32bit() {
    let set = resolve(DRIVERS_TEST_NVIDIA);
    assert_eq!(
        set.packages,
        vec![
            "nvidia",
            "nvidia-utils",
            "nvidia-settings",
            "lib32-nvidia-utils",
            "libva-nvidia-driver"
        ]
    );
    assert!(set.packages.iter().any(|p| p.starts_with("lib32-")));
    assert!(set.requires_32bit);
}

#[test]
fn unknown_hardware_gives_nothing() {
    let set = resolve(DRIVERS_TEST_PLAIN);
    assert!(set.packages.is_empty());
    assert!(!set.requires_32bit);
    let set = resolve("");
    assert!(set.packages.is_empty());
    assert!(!set.requires_32bit);
}

#[test]
fn amd_gives_the_open_stack() {
    let set = resolve(DRIVERS_TEST_AMD);
    assert_eq!(
        set.packages,
        vec![
            "xf86-video-amdgpu",
            "vulkan-radeon",
            "lib32-vulkan-radeon",
            "libva-mesa-driver",
            "lib32-libva-mesa-driver",
            "mesa-vdpau"
        ]
    );
    assert!(set.requires_32bit);
}

#[test]
fn amd_is_found_by_radeon_or_by_amd_with_vga() {
    assert_eq!(resolve("Radeon RX 580").packages.len(), 6);
    assert_eq!(resolve("AMD something VGA").packages.len(), 6);
    assert!(resolve("AMD Ryzen host bridge").packages.is_empty());
}

#[test]
fn intel_gives_its_stack_with_vga_or_display() {
    let set = resolve(DRIVERS_TEST_INTEL);
    assert_eq!(set.packages, vec!["vulkan-intel", "lib32-vulkan-intel", "intel-media-driver"]);
    assert!(set.requires_32bit);
    assert_eq!(resolve("Intel Corporation Display controller").packages.len(), 3);
    assert!(resolve("Intel Corporation Ethernet").packages.is_empty());
}

#[test]
fn broadcom_gives_its_driver_without_32bit() {
    let set = resolve(DRIVERS_TEST_BROADCOM);
    assert_eq!(set.packages, vec!["broadcom-wl-dkms"]);
    assert!(!set.requires_32bit);
    assert_eq!(resolve("Broadcom Wireless").packages, vec!["broadcom-wl-dkms"]);
    assert_eq!(resolve("broadcom bcm4331").packages, vec!["broadcom-wl-dkms"]);
    assert!(resolve("Broadcom Ethernet").packages.is_empty());
}

#[test]
fn realtek_adds_no_package() {
    let set = resolve(DRIVERS_TEST_REALTEK);
    assert!(set.packages.is_empty());
    assert!(!set.requires_32bit);
}

#[test]
fn several_adapters_add_up_graphics_before_network() {
    let scan = [DRIVERS_TEST_BROADCOM, DRIVERS_TEST_INTEL, DRIVERS_TEST_NVIDIA].join("\n");
    let set = resolve(&scan);
    assert_eq!(
        set.packages,
        vec![
            "nvidia",
            "nvidia-utils",
            "nvidia-settings",
            "lib32-nvidia-utils",
            "libva-nvidia-driver",
            "vulkan-intel",
            "lib32-vulkan-intel",
            "intel-media-driver",
            "broadcom-wl-dkms"
        ]
    );
    assert!(set.requires_32bit);
}

#[test]
fn resolve_folds_case_and_classify_does_not() {
    assert_eq!(resolve("NVIDIA").packages.len(), 5);
    assert_eq!(resolve("nvidia").packages.len(), 5);
    assert_eq!(classify("nvidia").packages.len(), 5);
    assert!(classify("NVIDIA").packages.is_empty());
    assert_eq!(classify("nvidia"), resolve("NvIdIa"));
}

#[test]
fn driver_set_clone_is_equal() {
    let set = resolve(DRIVERS_TEST_NVIDIA);
    assert_eq!(set.clone(), set);
}

#[test]
fn hardware_query_lists_the_buses() {
    assert_eq!(hardware_query(), Invocation::new("lspci", &["-nn"]));
}

#[test]
fn includes_32bit_looks_at_the_prefix() {
    assert!(includes_32bit(&drivers_test_names(&["a", "lib32-b"])));
    assert!(!includes_32bit(&drivers_test_names(&["a", "b-lib32-"])));
    assert!(!includes_32bit(&drivers_test_names(&["lib32"])));
    assert!(!includes_32bit(&Vec::new()));
}

#[test]
fn select_32bit_keeps_the_order() {
    assert_eq!(
        select_32bit(&drivers_test_names(&["lib32-a", "b", "lib32-c", "xlib32-d"])),
        vec!["lib32-a", "lib32-c"]
    );
    assert!(select_32bit(&drivers_test_names(&["a"])).is_empty());
}

#[test]
fn install_drivers_in_one_go() {
    let set = resolve(DRIVERS_TEST_INTEL);
    let script = install_drivers(&set, "/mnt");
    let expected = vec![Step::advise(
        Invocation::new(
            "arch-chroot",
            &[
                "/mnt",
                "pacman",
                "-S",
                "--noconfirm",
                "--needed",
                "vulkan-intel",
                "lib32-vulkan-intel",
                "intel-media-driver",
            ],
        ),
        "Some driver packages may have failed - system should still work",
    )];
    assert_eq!(script.steps, expected);
}

#[test]
fn install_drivers_of_nothing_does_nothing() {
    let set = DriverSet { packages: Vec::new(), requires_32bit: false };
    assert!(install_drivers(&set, "/mnt").steps.is_empty());
}

#[test]
fn repositories_query_reads_the_configuration() {
    assert_eq!(repositories_query("/mnt"), Invocation::new("cat", &["/mnt/etc/pacman.conf"]));
}

#[test]
fn multilib_is_disabled_when_missing_or_commented() {
    assert!(is_multilib_disabled(""));
    assert!(is_multilib_disabled("[core]\nInclude = /etc/pacman.d/mirrorlist\n"));
    assert!(is_multilib_disabled("#[multilib]\n#Include = /etc/pacman.d/mirrorlist\n"));
    assert!(is_multilib_disabled("#[multilib-testing]\n#[multilib]\n"));
    assert!(!is_multilib_disabled("[multilib]\nInclude = /etc/pacman.d/mirrorlist\n"));
    assert!(is_multilib_disabled("[multilib]\n#[multilib]\n"));
}

#[test]
fn enable_multilib_edits_refreshes_and_retries() {
    let set = resolve(DRIVERS_TEST_AMD);
    let script = enable_multilib(&set, "/mnt", "#[multilib]\n#Include = x\n");
    let expected = vec![
        Step::attempt(Invocation::new(
            "arch-chroot",
            &["/mnt", "sed", "-i", "/^#\\[multilib\\]/,/^#Include/ s/^#//", "/etc/pacman.conf"],
        )),
        Step::attempt(Invocation::new("arch-chroot", &["/mnt", "pacman", "-Sy", "--noconfirm"])),
        Step::attempt(Invocation::new(
            "arch-chroot",
            &[
                "/mnt",
                "pacman",
                "-S",
                "--noconfirm",
                "--needed",
                "lib32-vulkan-radeon",
                "lib32-libva-mesa-driver",
            ],
        )),
    ];
    assert_eq!(script.steps, expected);
    assert_eq!(ENABLE_MULTILIB, "/^#\\[multilib\\]/,/^#Include/ s/^#//");
}

#[test]
fn enable_multilib_does_nothing_when_enabled_or_not_needed() {
    let set = resolve(DRIVERS_TEST_AMD);
    assert!(enable_multilib(&set, "/mnt", "[multilib]\nInclude = x\n").steps.is_empty());
    let set = resolve(DRIVERS_TEST_BROADCOM);
    assert!(enable_multilib(&set, "/mnt", "").steps.is_empty());
}

#[test]
fn enable_multilib_without_32bit_packages_only_edits_and_refreshes() {
    let set = DriverSet { packages: vec!["plain".to_string()], requires_32bit: true };
    let script = enable_multilib(&set, "/mnt", "");
    assert_eq!(script.len(), 2);
}

#[test]
fn no_driver_set_holds_a_package_twice() {
    let signatures = [DRIVERS_TEST_NVIDIA, DRIVERS_TEST_AMD, DRIVERS_TEST_INTEL, DRIVERS_TEST_BROADCOM];
    for mask in 0..16u32 {
        let mut scan = String::new();
        for (bit, signature) in signatures.iter().enumerate() {
            if mask & (1 << bit) != 0 {
                scan.push_str(signature);
                scan.push('\n');
            }
        }
        let set = resolve(&scan);
        let mut seen = set.packages.clone();
        seen.sort();
        seen.dedup();
        assert_eq!(seen.len(), set.packages.len(), "{scan}");
        assert_eq!(set.requires_32bit, set.packages.iter().any(|p| p.starts_with("lib32-")));
    }
}

#[test]
fn realtek_is_noted_in_any_case() {
    assert!(notes_realtek(DRIVERS_TEST_REALTEK));
    assert!(notes_realtek("REALTEK RTL8111"));
    assert!(!notes_realtek("Realtek Ethernet"));
    assert!(!notes_realtek(DRIVERS_TEST_NVIDIA));
    assert!(shows_realtek("realtek wireless"));
    assert!(!shows_realtek("Realtek Wireless"));
    assert!(!shows_realtek(""));
}
