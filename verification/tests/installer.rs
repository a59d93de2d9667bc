use blunux_installer::boot::{conventional_boot, direct_boot, uuid_query};
use blunux_installer::command::{Action, Failure, Invocation, Reply, Step};
use blunux_installer::config::{Config, SwapMode};
use blunux_installer::disk::{
    derive_names, format_partitions, generate_fstab, memory_query, mount_partitions,
    partition_disk, partitions_query, unmount_partitions, PartitionLayout, PartitionScheme,
};
use blunux_installer::drivers::{
    enable_multilib, hardware_query, install_drivers, repositories_query, resolve,
};
use blunux_installer::finalize::{branding_probe, finalize, release_probe};
use blunux_installer::installer::{part, station_after, Installer, Request, Station, PARTS};
use blunux_installer::packages::install_base_system;
use blunux_installer::swap::setup_swap;
use blunux_installer::system::{
    configure_input_method, configure_locale, configure_system, configure_users,
};

const HOST_NVIDIA: &str =
    "01:00.0 VGA compatible controller [0300]: NVIDIA Corporation GA104 [10de:2484]\n";

/// A machine that answers the installer.
struct Host {
    uefi: bool,
    listing: String,
    memory: String,
    inventory: String,
    repositories: String,
    uuid: String,
    branded: bool,
    released: bool,
    ruled: bool,
    /// The program whose failure is played, with one of its arguments.
    failing: Option<(String, String)>,
}

fn host_plain() -> Host {
    Host {
        uefi: false,
        listing: "sda\nsda1\n".to_string(),
        memory: "8192\n".to_string(),
        inventory: String::new(),
        repositories: "#[multilib]\n#Include = /etc/pacman.d/mirrorlist\n".to_string(),
        uuid: "abcd-1234\n".to_string(),
        branded: false,
        released: false,
        ruled: false,
        failing: None,
    }
}

fn host_fails(host: &Host, inv: &Invocation) -> bool {
    match &host.failing {
        Some((program, arg)) => {
            (inv.program == *program || inv.args.get(1) == Some(program))
                && inv.args.iter().any(|a| a == arg)
        }
        None => false,
    }
}

fn host_answer(host: &Host, step: &Step) -> Reply {
    match &step.action {
        Action::Exists(path) => {
            if path == "/sys/firmware/efi" {
                Reply::status(host.uefi)
            } else {
                Reply::status(host.ruled)
            }
        }
        Action::Capture(inv) => {
            let output = if inv.program == "lsblk" {
                &host.listing
            } else if inv.program == "sh" {
                &host.memory
            } else if inv.program == "lspci" {
                &host.inventory
            } else if inv.program == "cat" {
                &host.repositories
            } else if inv.program == "blkid" {
                &host.uuid
            } else {
                panic!("unknown question {inv:?}")
            };
            Reply::printed(true, output)
        }
        Action::Run(inv) => {
            if inv.program == "test" {
                if inv.args[1] == "/etc/os-release" {
                    Reply::status(host.released)
                } else {
                    Reply::status(host.branded)
                }
            } else {
                Reply::status(!host_fails(host, inv))
            }
        }
        Action::Write { .. } | Action::Append { .. } => Reply::status(true),
    }
}

fn host_drive(inst: &mut Installer, host: &Host) -> (Vec<Step>, bool) {
    let mut done = Vec::new();
    let mut reply = Reply::status(true);
    loop {
        match inst.install(reply) {
            Request::Finished(success) => return (done, success),
            Request::Perform(step) => {
                reply = host_answer(host, &step);
                done.push(step);
            }
        }
        assert!(done.len() < 1000, "the installation does not end");
    }
}

fn host_config(disk: &str) -> Config {
    let mut cfg = Config::default();
    cfg.install.target_disk = disk.to_string();
    cfg.install.root_password = "rootpw".to_string();
    cfg.install.user_password = "userpw".to_string();
    cfg
}

fn host_disk_steps(cfg: &Config, host: &Host) -> (Vec<Step>, PartitionLayout) {
    let disk = cfg.install.target_disk.as_str();
    let scheme = if host.uefi { PartitionScheme::GptUefi } else { PartitionScheme::MbrBios };
    let layout = derive_names(disk, scheme);
    let mut steps = vec![
        Step::exists_at("/sys/firmware/efi"),
        Step::capture(partitions_query(disk)),
    ];
    steps.extend(partition_disk(disk, scheme, &host.listing).steps);
    steps.extend(
        format_partitions(&layout, cfg.install.use_encryption, &cfg.install.encryption_password)
            .steps,
    );
    steps.extend(mount_partitions(&layout, "/mnt", cfg.install.use_encryption).steps);
    (steps, layout)
}

fn host_expected(cfg: &Config, host: &Host) -> Vec<Step> {
    let (mut steps, layout) = host_disk_steps(cfg, host);
    steps.extend(install_base_system(cfg, "/mnt").steps);
    steps.extend(generate_fstab("/mnt").steps);
    steps.extend(configure_system(cfg, "/mnt").steps);
    if cfg.disk.swap != SwapMode::NoSwap {
        steps.push(Step::capture(memory_query()));
        let ram = host.memory.trim().parse::<u64>().unwrap_or(4096);
        steps.extend(setup_swap(cfg.disk.swap, "/mnt", ram).steps);
    }
    steps.push(Step::capture(hardware_query()));
    let drivers = resolve(&host.inventory);
    steps.extend(install_drivers(&drivers, "/mnt").steps);
    if drivers.requires_32bit {
        steps.push(Step::capture(repositories_query("/mnt")));
        steps.extend(enable_multilib(&drivers, "/mnt", &host.repositories).steps);
    }
    steps.extend(configure_locale(cfg, "/mnt").steps);
    steps.extend(configure_input_method(cfg, "/mnt").steps);
    steps.extend(configure_users(cfg, "/mnt").steps);
    if cfg.install.bootloader == "nmbl" && host.uefi {
        steps.push(Step::capture(uuid_query(&layout.root_partition)));
        let kernel = if cfg.kernel.type_ == "linux-bore" { "linux" } else { &cfg.kernel.type_ };
        steps.extend(
            direct_boot(kernel, &layout, "/mnt", cfg.install.use_encryption, host.uuid.trim())
                .steps,
        );
    } else {
        steps.extend(conventional_boot(&cfg.install.target_disk, "/mnt", host.uefi).steps);
    }
    steps.push(Step::attempt(branding_probe()));
    steps.push(Step::attempt(release_probe()));
    if cfg.input_method.enabled && cfg.input_method.engine == "kime" {
        let rules = format!("/mnt/home/{}/.config/kwinrc", cfg.install.username);
        steps.push(Step::exists_at(&rules));
    }
    steps.extend(finalize(cfg, "/mnt", host.branded, host.released, host.ruled).steps);
    steps
}

#[test]
fn new_installer_has_not_begun() {
    let inst = Installer::new(Config::default());
    assert_eq!(inst.get_error(), "");
    assert_eq!(inst.station(), Station::Idle);
    assert_eq!(inst.mount_point(), "/mnt");
    assert_eq!(inst.partition_layout(), &PartitionLayout::unset());
    assert!(inst.drivers().packages.is_empty());
    assert!(!inst.drivers().requires_32bit);
}

#[test]
fn first_request_asks_for_the_firmware() {
    let mut inst = Installer::new(host_config("/dev/sda"));
    let request = inst.install(Reply::status(false));
    assert_eq!(request, Request::Perform(Step::exists_at("/sys/firmware/efi")));
    assert_eq!(inst.station(), Station::Firmware);
    let request = inst.install(Reply::status(true));
    assert_eq!(request, Request::Perform(Step::capture(partitions_query("/dev/sda"))));
    assert_eq!(inst.station(), Station::Listing);
}

#[test]
fn installation_on_bios_with_grub() {
    let cfg = host_config("/dev/sda");
    let host = host_plain();
    let mut inst = Installer::new(cfg.clone());
    let (done, success) = host_drive(&mut inst, &host);
    assert!(success);
    assert_eq!(inst.get_error(), "");
    assert_eq!(inst.station(), Station::Finished);
    assert_eq!(done, host_expected(&cfg, &host));
    assert_eq!(inst.partition_layout(), &derive_names("/dev/sda", PartitionScheme::MbrBios));
}

#[test]
fn installation_on_uefi_with_direct_boot_and_encryption() {
    let mut cfg = host_config("/dev/nvme0n1");
    cfg.install.bootloader = "nmbl".to_string();
    cfg.install.use_encryption = true;
    cfg.install.encryption_password = "pass phrase".to_string();
    cfg.kernel.type_ = "linux-bore".to_string();
    cfg.disk.swap = SwapMode::File;
    cfg.packages.firefox = true;
    let mut host = host_plain();
    host.uefi = true;
    host.listing = "nvme0n1\nnvme0n1p1\nnvme0n1p2\n".to_string();
    host.memory = "32000\n".to_string();
    host.inventory = HOST_NVIDIA.to_string();
    host.branded = true;
    host.released = true;
    host.ruled = true;
    let mut inst = Installer::new(cfg.clone());
    let (done, success) = host_drive(&mut inst, &host);
    assert!(success);
    assert_eq!(inst.get_error(), "");
    let expected = host_expected(&cfg, &host);
    assert_eq!(done.len(), expected.len());
    assert_eq!(done, expected);
    assert_eq!(inst.partition_layout(), &derive_names("/dev/nvme0n1", PartitionScheme::GptUefi));
    assert_eq!(inst.drivers(), &resolve(HOST_NVIDIA));
    assert!(done.contains(&Step::advise(
        Invocation::new(
            "dd",
            &["if=/dev/zero", "of=/mnt/swapfile", "bs=1M", "count=8192", "status=progress"]
        ),
        "Could not create the swap file"
    )));
    assert!(done.contains(&Step::demand(
        Invocation::new("mount", &["/dev/mapper/cryptroot", "/mnt"]),
        "Failed to mount root partition"
    )));
}

#[test]
fn installation_without_swap_does_not_ask_for_the_memory() {
    let mut cfg = host_config("/dev/sda");
    cfg.disk.swap = SwapMode::NoSwap;
    let host = host_plain();
    let mut inst = Installer::new(cfg.clone());
    let (done, success) = host_drive(&mut inst, &host);
    assert!(success);
    assert_eq!(done, host_expected(&cfg, &host));
    assert!(!done.contains(&Step::capture(memory_query())));
    for step in &done {
        if let Action::Run(inv) = &step.action {
            assert!(inv.program != "dd");
        }
    }
}

#[test]
fn installation_with_enabled_multilib_does_not_edit_it() {
    let cfg = host_config("/dev/sda");
    let mut host = host_plain();
    host.inventory = HOST_NVIDIA.to_string();
    host.repositories = "[multilib]\nInclude = /etc/pacman.d/mirrorlist\n".to_string();
    let mut inst = Installer::new(cfg.clone());
    let (done, success) = host_drive(&mut inst, &host);
    assert!(success);
    assert_eq!(done, host_expected(&cfg, &host));
    assert!(done.contains(&Step::capture(repositories_query("/mnt"))));
    for step in &done {
        if let Action::Run(inv) = &step.action {
            assert!(!inv.args.contains(&"-Sy".to_string()));
        }
    }
}

#[test]
fn direct_boot_on_bios_is_no_error() {
    let mut cfg = host_config("/dev/sda");
    cfg.install.bootloader = "nmbl".to_string();
    let host = host_plain();
    let mut inst = Installer::new(cfg.clone());
    let (done, success) = host_drive(&mut inst, &host);
    assert!(success);
    assert_eq!(inst.get_error(), "");
    assert_eq!(done, host_expected(&cfg, &host));
    for step in &conventional_boot("/dev/sda", "/mnt", false).steps {
        assert!(done.contains(step));
    }
    for step in &done {
        if let Action::Run(inv) = &step.action {
            assert!(inv.args.get(1) != Some(&"efibootmgr".to_string()));
        }
        if let Action::Capture(inv) = &step.action {
            assert!(inv.program != "blkid");
        }
    }
}

#[test]
fn failure_of_formatting_ends_the_run_at_once() {
    let cfg = host_config("/dev/sda");
    let mut host = host_plain();
    host.failing = Some(("mkfs.ext4".to_string(), "/dev/sda1".to_string()));
    let mut inst = Installer::new(cfg.clone());
    let (done, success) = host_drive(&mut inst, &host);
    assert!(!success);
    assert_eq!(inst.get_error(), "Failed to format partitions");
    assert_eq!(inst.station(), Station::Finished);
    let mut expected = vec![
        Step::exists_at("/sys/firmware/efi"),
        Step::capture(partitions_query("/dev/sda")),
    ];
    expected.extend(partition_disk("/dev/sda", PartitionScheme::MbrBios, &host.listing).steps);
    expected.extend(
        format_partitions(&derive_names("/dev/sda", PartitionScheme::MbrBios), false, "").steps,
    );
    assert_eq!(done, expected);
    assert_eq!(
        done.last(),
        Some(&Step::demand(
            Invocation::new("mkfs.ext4", &["-F", "/dev/sda1"]),
            "Failed to format root partition"
        ))
    );
    for step in &done {
        if let Action::Run(inv) = &step.action {
            assert!(inv.program != "mount" && inv.program != "pacstrap");
        }
    }
}

#[test]
fn failure_of_formatting_the_efi_partition_skips_the_root_partition() {
    let cfg = host_config("/dev/sda");
    let mut host = host_plain();
    host.uefi = true;
    host.failing = Some(("mkfs.fat".to_string(), "/dev/sda1".to_string()));
    let mut inst = Installer::new(cfg);
    let (done, success) = host_drive(&mut inst, &host);
    assert!(!success);
    assert_eq!(inst.get_error(), "Failed to format partitions");
    assert_eq!(
        done.last(),
        Some(&Step::demand(
            Invocation::new("mkfs.fat", &["-F32", "/dev/sda1"]),
            "Failed to format EFI partition"
        ))
    );
}

#[test]
fn finished_installer_stays_finished() {
    let cfg = host_config("/dev/sda");
    let mut host = host_plain();
    host.failing = Some(("mkfs.ext4".to_string(), "/dev/sda1".to_string()));
    let mut inst = Installer::new(cfg);
    let (_, success) = host_drive(&mut inst, &host);
    assert!(!success);
    for reply in [Reply::status(true), Reply::status(false), Reply::printed(true, "x")] {
        assert_eq!(inst.install(reply), Request::Finished(false));
        assert_eq!(inst.get_error(), "Failed to format partitions");
        assert_eq!(inst.station(), Station::Finished);
    }
    let mut inst = Installer::new(host_config("/dev/sda"));
    let (_, success) = host_drive(&mut inst, &host_plain());
    assert!(success);
    assert_eq!(inst.install(Reply::status(false)), Request::Finished(true));
    assert_eq!(inst.get_error(), "");
}

#[test]
fn failure_of_partitioning_ends_the_run_at_once() {
    let cfg = host_config("/dev/sda");
    let mut host = host_plain();
    host.failing = Some(("parted".to_string(), "mklabel".to_string()));
    let mut inst = Installer::new(cfg);
    let (done, success) = host_drive(&mut inst, &host);
    assert!(!success);
    assert_eq!(inst.get_error(), "Failed to partition disk");
    assert_eq!(inst.partition_layout(), &PartitionLayout::unset());
    assert_eq!(
        done.last(),
        Some(&Step::demand(
            Invocation::new("parted", &["-s", "/dev/sda", "mklabel", "msdos"]),
            "Failed to create MBR partition table"
        ))
    );
}

#[test]
fn failure_of_wiping_is_a_warning_only() {
    let cfg = host_config("/dev/sda");
    let mut host = host_plain();
    host.failing = Some(("wipefs".to_string(), "/dev/sda".to_string()));
    let mut inst = Installer::new(cfg.clone());
    let (done, success) = host_drive(&mut inst, &host);
    assert!(success);
    assert_eq!(inst.get_error(), "");
    assert_eq!(done, host_expected(&cfg, &host));
}

#[test]
fn failure_of_mounting_the_root_has_nothing_to_unmount() {
    let cfg = host_config("/dev/sda");
    let mut host = host_plain();
    host.failing = Some(("mount".to_string(), "/mnt".to_string()));
    let mut inst = Installer::new(cfg);
    let (done, success) = host_drive(&mut inst, &host);
    assert!(!success);
    assert_eq!(inst.get_error(), "Failed to mount partitions");
    assert_eq!(
        done.last(),
        Some(&Step::demand(
            Invocation::new("mount", &["/dev/sda1", "/mnt"]),
            "Failed to mount root partition"
        ))
    );
}

#[test]
fn failure_of_mounting_the_efi_partition_unmounts_the_root() {
    let cfg = host_config("/dev/sda");
    let mut host = host_plain();
    host.uefi = true;
    host.failing = Some(("mount".to_string(), "/mnt/boot/efi".to_string()));
    let mut inst = Installer::new(cfg);
    let (done, success) = host_drive(&mut inst, &host);
    assert!(!success);
    assert_eq!(inst.get_error(), "Failed to mount partitions");
    let count = done.len();
    assert_eq!(
        done[count - 3],
        Step::demand(
            Invocation::new("mount", &["/dev/sda1", "/mnt/boot/efi"]),
            "Failed to mount EFI partition"
        )
    );
    assert_eq!(done[count - 2..].to_vec(), unmount_partitions("/mnt").steps);
}

#[test]
fn failure_of_the_base_system_unmounts_and_ends_the_run() {
    let cfg = host_config("/dev/sda");
    let mut host = host_plain();
    host.failing = Some(("pacstrap".to_string(), "/mnt".to_string()));
    let mut inst = Installer::new(cfg.clone());
    let (done, success) = host_drive(&mut inst, &host);
    assert!(!success);
    assert_eq!(inst.get_error(), "pacstrap failed");
    let (mut expected, _) = host_disk_steps(&cfg, &host);
    expected.extend(install_base_system(&cfg, "/mnt").steps);
    expected.extend(unmount_partitions("/mnt").steps);
    assert_eq!(done, expected);
}

#[test]
fn failure_of_the_file_system_table_unmounts_and_ends_the_run() {
    let cfg = host_config("/dev/sda");
    let mut host = host_plain();
    host.failing = Some(("sh".to_string(), "/mnt".to_string()));
    let mut inst = Installer::new(cfg.clone());
    let (done, success) = host_drive(&mut inst, &host);
    assert!(!success);
    assert_eq!(inst.get_error(), "Failed to generate fstab");
    let (mut expected, _) = host_disk_steps(&cfg, &host);
    expected.extend(install_base_system(&cfg, "/mnt").steps);
    expected.extend(generate_fstab("/mnt").steps);
    expected.extend(unmount_partitions("/mnt").steps);
    assert_eq!(done, expected);
}

#[test]
fn failure_of_the_boot_entry_unmounts_and_ends_the_run() {
    let mut cfg = host_config("/dev/sda");
    cfg.install.bootloader = "nmbl".to_string();
    let mut host = host_plain();
    host.uefi = true;
    host.failing = Some(("efibootmgr".to_string(), "--create".to_string()));
    let mut inst = Installer::new(cfg);
    let (done, success) = host_drive(&mut inst, &host);
    assert!(!success);
    assert_eq!(inst.get_error(), "Failed to create UEFI boot entry");
    let count = done.len();
    assert!(matches!(done[count - 3].failure, Failure::Fatal(_)));
    assert_eq!(done[count - 2..].to_vec(), unmount_partitions("/mnt").steps);
    for step in &done {
        if let Action::Write { path, .. } = &step.action {
            assert!(!path.ends_with("nmbl-update"));
        }
    }
}

#[test]
fn failures_while_unmounting_do_not_change_the_error() {
    let cfg = host_config("/dev/sda");
    let mut inst = Installer::new(cfg);
    let host = host_plain();
    let mut reply = Reply::status(true);
    let mut unmounting = false;
    let mut asked = 0;
    let success = loop {
        match inst.install(reply) {
            Request::Finished(success) => break success,
            Request::Perform(step) => {
                asked += 1;
                let failing = match &step.action {
                    Action::Run(inv) => inv.program == "pacstrap" || unmounting,
                    _ => false,
                };
                if let Action::Run(inv) = &step.action {
                    if inv.program == "pacstrap" {
                        unmounting = true;
                    }
                }
                reply = if failing { Reply::status(false) } else { host_answer(&host, &step) };
            }
        }
        assert!(asked < 1000);
    };
    assert!(!success);
    assert_eq!(inst.get_error(), "pacstrap failed");
}

#[test]
fn failures_of_everything_that_is_not_fatal_leave_the_run_a_success() {
    let cfg = host_config("/dev/sda");
    let host = host_plain();
    let mut inst = Installer::new(cfg.clone());
    let mut done = Vec::new();
    let mut reply = Reply::status(true);
    let success = loop {
        match inst.install(reply) {
            Request::Finished(success) => break success,
            Request::Perform(step) => {
                reply = match (&step.action, &step.failure) {
                    (Action::Run(inv), Failure::Ignored | Failure::Warning(_))
                        if inv.program != "test" =>
                    {
                        Reply::status(false)
                    }
                    (Action::Write { .. } | Action::Append { .. }, _) => Reply::status(false),
                    _ => host_answer(&host, &step),
                };
                done.push(step);
            }
        }
        assert!(done.len() < 1000);
    };
    assert!(success);
    assert_eq!(inst.get_error(), "");
    assert_eq!(done, host_expected(&cfg, &host));
}

#[test]
fn stations_follow_one_another() {
    let mut station = Station::Idle;
    let mut seen = vec![station];
    while station != Station::Finished {
        station = station_after(station);
        seen.push(station);
        assert!(seen.len() < 100);
    }
    assert_eq!(seen.len(), 25);
    assert_eq!(seen[1], Station::Firmware);
    assert_eq!(seen[23], Station::Finalize);
    assert!(!seen.contains(&Station::Teardown));
    assert_eq!(station_after(Station::Teardown), Station::Finished);
    assert_eq!(station_after(Station::Finished), Station::Finished);
}

#[test]
fn parts_run_from_one_to_ten() {
    assert_eq!(PARTS, 10);
    assert_eq!(part(Station::Idle), 0);
    assert_eq!(part(Station::Firmware), 1);
    assert_eq!(part(Station::Mount), 1);
    assert_eq!(part(Station::BaseSystem), 2);
    assert_eq!(part(Station::Fstab), 3);
    assert_eq!(part(Station::Swap), 4);
    assert_eq!(part(Station::Multilib), 5);
    assert_eq!(part(Station::Locale), 7);
    assert_eq!(part(Station::InputMethod), 7);
    assert_eq!(part(Station::Users), 8);
    assert_eq!(part(Station::Bootloader), 9);
    assert_eq!(part(Station::Finalize), 10);
    assert_eq!(part(Station::Teardown), 0);
    assert_eq!(part(Station::Finished), 0);
    let mut station = Station::Idle;
    let mut last = 0;
    while station != Station::Finished {
        let number = part(station);
        assert!(number >= last);
        last = number;
        station = station_after(station);
    }
}
