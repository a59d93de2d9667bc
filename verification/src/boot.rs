//! Making the installed system bootable: by a conventional bootloader, or by
//! an entry in the firmware's boot manager that starts the kernel directly.

use vstd::prelude::*;
use vstd::string::StrSliceExecFns;
use vstd::string::StringExecFns;

use crate::command::{
    attempt, command, demand, inside, never_fatal, written, Invocation, InvocationView, Script,
    Step, StepView,
};
use crate::config::{Config, ConfigView};
use crate::disk::{partition_name, takes_separator, LayoutView, PartitionLayout};
use crate::packages::{kernel_package, kernel_package_of, wants_direct_boot};
use crate::text::{
    all_digits, chars_of, digit_char, glue, glue3, is_digit, same_text, trim, trimmed,
};

verus! {

/// How the installed system is started.
#[derive(Debug, Clone, Copy, PartialEq, Eq, Structural)]
pub enum BootPath {
    /// A bootloader is installed and finds the kernel.
    Conventional,
    /// The firmware starts the kernel itself.
    DirectBoot,
}

/// The way the system is started: directly where that is asked for and the
/// firmware is UEFI, by a bootloader in every other case. Asking for a direct
/// boot on a machine with a BIOS is no error.
pub open spec fn boot_path(bootloader: Seq<char>, firmware_is_uefi: bool) -> BootPath {
    if wants_direct_boot(bootloader) && firmware_is_uefi {
        BootPath::DirectBoot
    } else {
        BootPath::Conventional
    }
}

/// The way the system is started.
pub fn select_boot_path(bootloader: &str, firmware_is_uefi: bool) -> (path: BootPath)
    ensures
        path == boot_path(bootloader@, firmware_is_uefi),
{
    if same_text(bootloader, "nmbl") && firmware_is_uefi {
        BootPath::DirectBoot
    } else {
        BootPath::Conventional
    }
}

/// How many decimal digits `text` ends with.
pub open spec fn trailing_digits(text: Seq<char>) -> nat
    decreases text.len(),
{
    if text.len() > 0 && is_digit(text.last()) {
        1 + trailing_digits(text.drop_last())
    } else {
        0
    }
}

/// Whether `text` ends in a digit followed by a `p`: the end of the name of
/// a disk that ends in a digit, with the `p` that goes before the number of
/// a partition.
pub open spec fn ends_in_separator(text: Seq<char>) -> bool {
    text.len() >= 2 && text.last() == 'p' && is_digit(text[text.len() - 2])
}

/// The disk and the partition number that the name of a partition is made
/// of. The number is the digits that the name ends with. The disk is what
/// stands before them, without the `p` that goes before the number where the
/// name of the disk ends in a digit.
pub open spec fn split_device(device: Seq<char>) -> (Seq<char>, Seq<char>) {
    let at = device.len() - trailing_digits(device);
    let head = device.take(at);
    if ends_in_separator(head) {
        (head.drop_last(), device.skip(at))
    } else {
        (head, device.skip(at))
    }
}

/// A run of digits up to the end that starts after a character that is none,
/// or at the start, is the digits that `text` ends with.
proof fn lemma_trailing_digits(text: Seq<char>, n: int)
    requires
        0 <= n <= text.len(),
        forall|i: int| text.len() - n <= i < text.len() ==> is_digit(#[trigger] text[i]),
        n < text.len() ==> !is_digit(text[text.len() - n - 1]),
    ensures
        trailing_digits(text) == n,
    decreases text.len(),
{
    if n > 0 {
        assert(is_digit(text[text.len() - 1]));
        let rest = text.drop_last();
        assert forall|i: int| rest.len() - (n - 1) <= i < rest.len() implies is_digit(
            #[trigger] rest[i],
        ) by {
            assert(rest[i] == text[i]);
        }
        if n - 1 < rest.len() {
            assert(rest[rest.len() - (n - 1) - 1] == text[text.len() - n - 1]);
        }
        lemma_trailing_digits(rest, n - 1);
    }
}

/// Dividing the name of a partition gives back what the name was made of:
/// the disk and the number. So it is for every number written in digits and
/// every disk but one whose own name ends in a digit followed by a `p`.
pub proof fn lemma_split_device_undoes_partition_name(disk: Seq<char>, number: Seq<char>)
    requires
        number.len() > 0,
        all_digits(number),
        !ends_in_separator(disk),
    ensures
        split_device(partition_name(disk, number)) == (disk, number),
{
    reveal_strlit("p");
    let name = partition_name(disk, number);
    let head = if takes_separator(disk) {
        disk + "p"@
    } else {
        disk
    };
    assert(name =~= head + number);
    assert forall|i: int| name.len() - number.len() <= i < name.len() implies is_digit(
        #[trigger] name[i],
    ) by {
        assert(name[i] == number[i - head.len()]);
    }
    if head.len() > 0 {
        assert(name[name.len() - number.len() - 1] == head.last());
    }
    lemma_trailing_digits(name, number.len() as int);
    assert(name.take(name.len() - number.len()) =~= head);
    assert(name.skip(name.len() - number.len()) =~= number);
    if takes_separator(disk) {
        assert(head[head.len() - 2] == disk.last());
        assert(head.drop_last() =~= disk);
    }
}

/// The disk and the partition number that the name of a partition is made
/// of.
pub fn split_partition(device: &str) -> (parts: (String, String))
    ensures
        parts.0@ == split_device(device@).0,
        parts.1@ == split_device(device@).1,
{
    let chars = chars_of(device);
    let size: usize = chars.len();
    let mut at: usize = size;
    while at > 0 && digit_char(chars[at - 1])
        invariant
            at <= size,
            size == chars@.len(),
            forall|i: int| at <= i < size ==> is_digit(#[trigger] chars@[i]),
        decreases at,
    {
        at -= 1;
    }
    proof {
        lemma_trailing_digits(chars@, size - at);
    }
    let end: usize = if at >= 2 && chars[at - 1] == 'p' && digit_char(chars[at - 2]) {
        at - 1
    } else {
        at
    };
    proof {
        if end < at {
            assert(device@.take(at as int).drop_last() =~= device@.subrange(0, end as int));
        }
    }
    let disk = String::from_str(device.substring_char(0, end));
    let number = String::from_str(device.substring_char(at, size));
    (disk, number)
}

/// The question for the identifier of the file system on `partition`.
pub open spec fn uuid_query_of(partition: Seq<char>) -> InvocationView {
    command("blkid"@, seq!["-s"@, "UUID"@, "-o"@, "value"@, partition])
}

/// The question for the identifier of the file system on `partition`.
pub fn uuid_query(partition: &str) -> (query: Invocation)
    ensures
        query@ == uuid_query_of(partition@),
{
    let query = Invocation::new("blkid", &["-s", "UUID", "-o", "value", partition]);
    query
}

/// What the kernel is told of its root file system, which it finds by the
/// identifier `uuid`: where the root partition is encrypted, the identifier
/// is that of the encrypted device, and the root is the opened mapping.
pub open spec fn kernel_parameters(uuid: Seq<char>, encrypted: bool) -> Seq<char> {
    (if encrypted {
        "cryptdevice=UUID="@ + uuid + ":cryptroot root=/dev/mapper/cryptroot"@
    } else {
        "root=UUID="@ + uuid
    }) + " rw quiet loglevel=3"@
}

/// What the kernel is told of its root file system.
pub fn kernel_parameters_of(uuid: &str, encrypted: bool) -> (parameters: String)
    ensures
        parameters@ == kernel_parameters(uuid@, encrypted),
{
    let mut parameters = if encrypted {
        glue3("cryptdevice=UUID=", uuid, ":cryptroot root=/dev/mapper/cryptroot")
    } else {
        glue("root=UUID=", uuid)
    };
    parameters.append(" rw quiet loglevel=3");
    parameters
}

/// The hook that has the package manager copy the kernel anew whenever the
/// package `kernel` is upgraded.
pub open spec fn upgrade_hook(kernel: Seq<char>) -> Seq<char> {
    "[Trigger]\nType = Package\nOperation = Upgrade\nTarget = "@ + kernel
        + "\n\n[Action]\nDescription = Updating kernel in ESP for EFISTUB boot...\nWhen = PostTransaction\nExec = /usr/local/bin/nmbl-update\nDepends = coreutils\n"@
}

/// The program that copies the kernel `kernel` and its initial file system
/// to the EFI system partition.
pub open spec fn update_program(kernel: Seq<char>) -> Seq<char> {
    "#!/bin/bash\n# NMBL: Copy updated kernel/initramfs to ESP\ncp /boot/vmlinuz-"@ + kernel
        + " /boot/efi/EFI/Blunux/vmlinuz-"@ + kernel + "\ncp /boot/initramfs-"@ + kernel
        + ".img /boot/efi/EFI/Blunux/initramfs-"@ + kernel + ".img\n"@
}

/// Copying the kernel `kernel` and its initial file system to the EFI system
/// partition.
pub open spec fn kernel_copy_steps(kernel: Seq<char>, mount_point: Seq<char>) -> Seq<StepView> {
    seq![
        attempt(inside(mount_point, "mkdir"@, seq!["-p"@, "/boot/efi/EFI/Blunux"@])),
        attempt(
            inside(
                mount_point,
                "cp"@,
                seq!["/boot/vmlinuz-"@ + kernel, "/boot/efi/EFI/Blunux/vmlinuz-"@ + kernel],
            ),
        ),
        attempt(
            inside(
                mount_point,
                "cp"@,
                seq![
                    "/boot/initramfs-"@ + kernel + ".img"@,
                    "/boot/efi/EFI/Blunux/initramfs-"@ + kernel + ".img"@,
                ],
            ),
        ),
    ]
}

/// Entering the kernel in the firmware's boot manager. The entry names the
/// disk and the number of the EFI system partition, the kernel on it, and
/// what the kernel is told: its parameters and its initial file system.
/// Without the entry the system does not boot: a failure is fatal.
pub open spec fn boot_entry_steps(
    kernel: Seq<char>,
    efi_partition: Seq<char>,
    mount_point: Seq<char>,
    parameters: Seq<char>,
) -> Seq<StepView> {
    seq![
        demand(
            inside(
                mount_point,
                "efibootmgr"@,
                seq![
                    "--create"@,
                    "--disk"@,
                    split_device(efi_partition).0,
                    "--part"@,
                    split_device(efi_partition).1,
                    "--label"@,
                    "Blunux"@,
                    "--loader"@,
                    "\\EFI\\Blunux\\vmlinuz-"@ + kernel,
                    "--unicode"@,
                    parameters + " initrd=\\EFI\\Blunux\\initramfs-"@ + kernel + ".img"@,
                ],
            ),
            "Failed to create UEFI boot entry"@,
        ),
    ]
}

/// Keeping the copy of the kernel on the EFI system partition up to date: a
/// hook of the package manager runs a program that copies it anew.
pub open spec fn upgrade_hook_steps(kernel: Seq<char>, mount_point: Seq<char>) -> Seq<StepView> {
    seq![
        attempt(command("mkdir"@, seq!["-p"@, mount_point + "/etc/pacman.d/hooks"@])),
        written(
            mount_point + "/etc/pacman.d/hooks"@ + "/99-nmbl-kernel-update.hook"@,
            upgrade_hook(kernel),
        ),
        written(mount_point + "/usr/local/bin/nmbl-update"@, update_program(kernel)),
        attempt(command("chmod"@, seq!["+x"@, mount_point + "/usr/local/bin/nmbl-update"@])),
    ]
}

/// Having the firmware start the kernel `kernel` directly.
pub open spec fn direct_boot_steps(
    kernel: Seq<char>,
    layout: LayoutView,
    mount_point: Seq<char>,
    encrypted: bool,
    uuid: Seq<char>,
) -> Seq<StepView> {
    kernel_copy_steps(kernel, mount_point) + boot_entry_steps(
        kernel,
        layout.efi_partition,
        mount_point,
        kernel_parameters(uuid, encrypted),
    ) + upgrade_hook_steps(kernel, mount_point)
}

fn kernel_copy_script(kernel: &str, mount_point: &str) -> (script: Script)
    ensures
        script@ == kernel_copy_steps(kernel@, mount_point@),
{
    let image = glue("/boot/vmlinuz-", kernel);
    let image_copy = glue("/boot/efi/EFI/Blunux/vmlinuz-", kernel);
    let initial = glue3("/boot/initramfs-", kernel, ".img");
    let initial_copy = glue3("/boot/efi/EFI/Blunux/initramfs-", kernel, ".img");
    let mut script = Script::new();
    script.push(
        Step::attempt(Invocation::inside(mount_point, "mkdir", &["-p", "/boot/efi/EFI/Blunux"])),
    );
    script.push(
        Step::attempt(
            Invocation::inside(mount_point, "cp", &[image.as_str(), image_copy.as_str()]),
        ),
    );
    script.push(
        Step::attempt(
            Invocation::inside(mount_point, "cp", &[initial.as_str(), initial_copy.as_str()]),
        ),
    );
    assert(script@ =~~= kernel_copy_steps(kernel@, mount_point@));
    script
}

fn boot_entry_script(kernel: &str, efi_partition: &str, mount_point: &str, parameters: &str) -> (script:
    Script)
    ensures
        script@ == boot_entry_steps(kernel@, efi_partition@, mount_point@, parameters@),
{
    let (disk, number) = split_partition(efi_partition);
    let loader = glue("\\EFI\\Blunux\\vmlinuz-", kernel);
    let mut told = glue3(parameters, " initrd=\\EFI\\Blunux\\initramfs-", kernel);
    told.append(".img");
    let mut script = Script::new();
    script.push(
        Step::demand(
            Invocation::inside(
                mount_point,
                "efibootmgr",
                &[
                    "--create",
                    "--disk",
                    disk.as_str(),
                    "--part",
                    number.as_str(),
                    "--label",
                    "Blunux",
                    "--loader",
                    loader.as_str(),
                    "--unicode",
                    told.as_str(),
                ],
            ),
            "Failed to create UEFI boot entry",
        ),
    );
    assert(script@ =~~= boot_entry_steps(kernel@, efi_partition@, mount_point@, parameters@));
    script
}

fn upgrade_hook_script(kernel: &str, mount_point: &str) -> (script: Script)
    ensures
        script@ == upgrade_hook_steps(kernel@, mount_point@),
{
    let hooks_dir = glue(mount_point, "/etc/pacman.d/hooks");
    let hook = glue3(
        "[Trigger]\nType = Package\nOperation = Upgrade\nTarget = ",
        kernel,
        "\n\n[Action]\nDescription = Updating kernel in ESP for EFISTUB boot...\nWhen = PostTransaction\nExec = /usr/local/bin/nmbl-update\nDepends = coreutils\n",
    );
    let mut program = glue3(
        "#!/bin/bash\n# NMBL: Copy updated kernel/initramfs to ESP\ncp /boot/vmlinuz-",
        kernel,
        " /boot/efi/EFI/Blunux/vmlinuz-",
    );
    program.append(kernel);
    program.append("\ncp /boot/initramfs-");
    program.append(kernel);
    program.append(".img /boot/efi/EFI/Blunux/initramfs-");
    program.append(kernel);
    program.append(".img\n");
    let program_path = glue(mount_point, "/usr/local/bin/nmbl-update");
    let mut script = Script::new();
    script.push(Step::attempt(Invocation::new("mkdir", &["-p", hooks_dir.as_str()])));
    script.push(
        Step::write(
            glue(hooks_dir.as_str(), "/99-nmbl-kernel-update.hook").as_str(),
            hook.as_str(),
        ),
    );
    script.push(Step::write(program_path.as_str(), program.as_str()));
    script.push(Step::attempt(Invocation::new("chmod", &["+x", program_path.as_str()])));
    assert(script@ =~~= upgrade_hook_steps(kernel@, mount_point@));
    script
}

/// The steps that have the firmware start the kernel directly.
pub fn direct_boot(
    kernel: &str,
    layout: &PartitionLayout,
    mount_point: &str,
    encrypted: bool,
    uuid: &str,
) -> (script: Script)
    ensures
        script@ == direct_boot_steps(kernel@, layout@, mount_point@, encrypted, uuid@),
{
    let parameters = kernel_parameters_of(uuid, encrypted);
    let mut script = kernel_copy_script(kernel, mount_point);
    script.extend(
        boot_entry_script(
            kernel,
            layout.efi_partition.as_str(),
            mount_point,
            parameters.as_str(),
        ),
    );
    script.extend(upgrade_hook_script(kernel, mount_point));
    script
}

/// The shell text that sets the style of the boot menu's timeout where the
/// bootloader's settings do not mention it.
pub const HIDE_MENU_SCRIPT: &'static str =
    "grep -q '^GRUB_TIMEOUT_STYLE=' /etc/default/grub || echo 'GRUB_TIMEOUT_STYLE=hidden' >> /etc/default/grub";

/// Installing the bootloader: into the EFI system partition on a machine with
/// UEFI, into the master boot record of `target_disk` on one with a BIOS.
pub open spec fn loader_install_steps(
    target_disk: Seq<char>,
    mount_point: Seq<char>,
    firmware_is_uefi: bool,
) -> Seq<StepView> {
    if firmware_is_uefi {
        seq![
            attempt(
                inside(
                    mount_point,
                    "grub-install"@,
                    seq![
                        "--target=x86_64-efi"@,
                        "--efi-directory=/boot/efi"@,
                        "--bootloader-id=Blunux"@,
                    ],
                ),
            ),
        ]
    } else {
        seq![
            attempt(inside(mount_point, "grub-install"@, seq!["--target=i386-pc"@, target_disk])),
        ]
    }
}

/// Hiding the boot menu and taking its timeout away, then writing the menu
/// from the kernels that are installed.
pub open spec fn loader_menu_steps(mount_point: Seq<char>) -> Seq<StepView> {
    seq![
        attempt(
            inside(
                mount_point,
                "sed"@,
                seq!["-i"@, "s/^GRUB_TIMEOUT=.*/GRUB_TIMEOUT=0/"@, "/etc/default/grub"@],
            ),
        ),
        attempt(
            inside(
                mount_point,
                "sed"@,
                seq![
                    "-i"@,
                    "s/^GRUB_TIMEOUT_STYLE=.*/GRUB_TIMEOUT_STYLE=hidden/"@,
                    "/etc/default/grub"@,
                ],
            ),
        ),
        attempt(inside(mount_point, "sh"@, seq!["-c"@, HIDE_MENU_SCRIPT@])),
        attempt(inside(mount_point, "grub-mkconfig"@, seq!["-o"@, "/boot/grub/grub.cfg"@])),
    ]
}

/// Starting the system by a bootloader. None of the steps is fatal.
pub open spec fn conventional_steps(
    target_disk: Seq<char>,
    mount_point: Seq<char>,
    firmware_is_uefi: bool,
) -> Seq<StepView> {
    loader_install_steps(target_disk, mount_point, firmware_is_uefi) + loader_menu_steps(
        mount_point,
    )
}

fn loader_install_script(target_disk: &str, mount_point: &str, firmware_is_uefi: bool) -> (script:
    Script)
    ensures
        script@ == loader_install_steps(target_disk@, mount_point@, firmware_is_uefi),
{
    let mut script = Script::new();
    if firmware_is_uefi {
        script.push(
            Step::attempt(
                Invocation::inside(
                    mount_point,
                    "grub-install",
                    &["--target=x86_64-efi", "--efi-directory=/boot/efi", "--bootloader-id=Blunux"],
                ),
            ),
        );
    } else {
        script.push(
            Step::attempt(
                Invocation::inside(mount_point, "grub-install", &["--target=i386-pc", target_disk]),
            ),
        );
    }
    assert(script@ =~~= loader_install_steps(target_disk@, mount_point@, firmware_is_uefi));
    script
}

fn loader_menu_script(mount_point: &str) -> (script: Script)
    ensures
        script@ == loader_menu_steps(mount_point@),
{
    let mut script = Script::new();
    script.push(
        Step::attempt(
            Invocation::inside(
                mount_point,
                "sed",
                &["-i", "s/^GRUB_TIMEOUT=.*/GRUB_TIMEOUT=0/", "/etc/default/grub"],
            ),
        ),
    );
    script.push(
        Step::attempt(
            Invocation::inside(
                mount_point,
                "sed",
                &["-i", "s/^GRUB_TIMEOUT_STYLE=.*/GRUB_TIMEOUT_STYLE=hidden/", "/etc/default/grub"],
            ),
        ),
    );
    script.push(Step::attempt(Invocation::inside(mount_point, "sh", &["-c", HIDE_MENU_SCRIPT])));
    script.push(
        Step::attempt(
            Invocation::inside(mount_point, "grub-mkconfig", &["-o", "/boot/grub/grub.cfg"]),
        ),
    );
    assert(script@ =~~= loader_menu_steps(mount_point@));
    script
}

/// The steps that install and configure the bootloader.
pub fn conventional_boot(target_disk: &str, mount_point: &str, firmware_is_uefi: bool) -> (script:
    Script)
    ensures
        script@ == conventional_steps(target_disk@, mount_point@, firmware_is_uefi),
{
    let mut script = loader_install_script(target_disk, mount_point, firmware_is_uefi);
    script.extend(loader_menu_script(mount_point));
    script
}

/// Making the installed system bootable. `answer` is the answer to
/// [`uuid_query`] for the root partition; only the direct boot reads it.
pub open spec fn boot_steps(
    cfg: ConfigView,
    layout: LayoutView,
    mount_point: Seq<char>,
    firmware_is_uefi: bool,
    answer: Seq<char>,
) -> Seq<StepView> {
    match boot_path(cfg.install.bootloader, firmware_is_uefi) {
        BootPath::DirectBoot => direct_boot_steps(
            kernel_package(cfg.kernel.type_),
            layout,
            mount_point,
            cfg.install.use_encryption,
            trim(answer),
        ),
        BootPath::Conventional => conventional_steps(
            cfg.install.target_disk,
            mount_point,
            firmware_is_uefi,
        ),
    }
}

/// The steps that make the installed system bootable.
pub fn install_bootloader(
    cfg: &Config,
    layout: &PartitionLayout,
    mount_point: &str,
    firmware_is_uefi: bool,
    answer: &str,
) -> (script: Script)
    ensures
        script@ == boot_steps(cfg@, layout@, mount_point@, firmware_is_uefi, answer@),
{
    match select_boot_path(cfg.install.bootloader.as_str(), firmware_is_uefi) {
        BootPath::DirectBoot => {
            let kernel = kernel_package_of(cfg.kernel.type_.as_str());
            let uuid = trimmed(answer);
            direct_boot(
                kernel.as_str(),
                layout,
                mount_point,
                cfg.install.use_encryption,
                uuid.as_str(),
            )
        },
        BootPath::Conventional => conventional_boot(
            cfg.install.target_disk.as_str(),
            mount_point,
            firmware_is_uefi,
        ),
    }
}

/// The conventional bootloader never stops the installation, whatever the
/// firmware.
pub proof fn lemma_conventional_boot_never_fatal(
    target_disk: Seq<char>,
    mount_point: Seq<char>,
    firmware_is_uefi: bool,
)
    ensures
        never_fatal(conventional_steps(target_disk, mount_point, firmware_is_uefi)),
{
}

/// On a machine with a BIOS, asking for a direct boot gives the steps of the
/// conventional bootloader, and none of them can stop the installation.
pub proof fn lemma_direct_boot_falls_back(
    cfg: ConfigView,
    layout: LayoutView,
    mount_point: Seq<char>,
    answer: Seq<char>,
)
    requires
        wants_direct_boot(cfg.install.bootloader),
    ensures
        boot_path(cfg.install.bootloader, false) == BootPath::Conventional,
        boot_steps(cfg, layout, mount_point, false, answer) == conventional_steps(
            cfg.install.target_disk,
            mount_point,
            false,
        ),
        never_fatal(boot_steps(cfg, layout, mount_point, false, answer)),
{
    lemma_conventional_boot_never_fatal(cfg.install.target_disk, mount_point, false);
}

/// In a direct boot, the entry in the firmware's boot manager is the one
/// step that stops the installation when it fails.
pub proof fn lemma_boot_entry_is_fatal(
    kernel: Seq<char>,
    layout: LayoutView,
    mount_point: Seq<char>,
    encrypted: bool,
    uuid: Seq<char>,
    i: int,
)
    requires
        0 <= i < direct_boot_steps(kernel, layout, mount_point, encrypted, uuid).len(),
    ensures
        direct_boot_steps(kernel, layout, mount_point, encrypted, uuid).len() == 8,
        direct_boot_steps(kernel, layout, mount_point, encrypted, uuid)[i].is_fatal() <==> i == 3,
{
}

} // verus!
