//! Planning the disk: the partitioning scheme, the names of the partitions,
//! and the steps that partition, format, mount and unmount them.

use vstd::prelude::*;
use vstd::string::StringExecFns;

use crate::command::{
    advise, all_fatal, attempt, command, command_line, demand, fed, lemma_never_fatal_joined,
    never_fatal, quietly, texts, Invocation, InvocationView, Script, Step, StepView,
};
use crate::text::{
    chars_of, contains, digit_char, fields, glue, glue3, is_digit, join, join_range, number,
    parse_number, same_text, split, split_words, str_contains, tokens, trim, trim_bounds, trimmed,
};

verus! {

/// How the target disk is partitioned.
#[derive(Debug, Clone, Copy, PartialEq, Eq, Structural)]
pub enum PartitionScheme {
    /// A GUID partition table with an EFI system partition and a root
    /// partition.
    GptUefi,
    /// A master boot record with a single bootable root partition.
    MbrBios,
}

/// The partitions of the target disk.
#[derive(Debug, PartialEq, Eq)]
pub struct PartitionLayout {
    /// The EFI system partition; empty where the scheme has none.
    pub efi_partition: String,
    pub root_partition: String,
    pub scheme: PartitionScheme,
}

/// A [`PartitionLayout`] as the texts that it holds.
pub struct LayoutView {
    pub efi_partition: Seq<char>,
    pub root_partition: Seq<char>,
    pub scheme: PartitionScheme,
}

impl View for PartitionLayout {
    type V = LayoutView;

    open spec fn view(&self) -> LayoutView {
        LayoutView {
            efi_partition: self.efi_partition@,
            root_partition: self.root_partition@,
            scheme: self.scheme,
        }
    }
}

impl LayoutView {
    /// A layout names an EFI system partition if and only if its scheme has
    /// one, and it names a root partition.
    pub open spec fn wf(self) -> bool {
        &&& self.efi_partition.len() > 0 <==> self.scheme == PartitionScheme::GptUefi
        &&& self.root_partition.len() > 0
    }

    /// The layout that stands for "no disk partitioned yet".
    pub open spec fn unset() -> LayoutView {
        LayoutView {
            efi_partition: Seq::empty(),
            root_partition: Seq::empty(),
            scheme: PartitionScheme::GptUefi,
        }
    }
}

impl PartitionLayout {
    /// The layout that stands for "no disk partitioned yet".
    pub fn unset() -> (layout: PartitionLayout)
        ensures
            layout@ == LayoutView::unset(),
    {
        PartitionLayout {
            efi_partition: String::new(),
            root_partition: String::new(),
            scheme: PartitionScheme::GptUefi,
        }
    }
}

impl Clone for PartitionLayout {
    fn clone(&self) -> (copy: Self)
        ensures
            copy@ == self@,
    {
        PartitionLayout {
            efi_partition: self.efi_partition.clone(),
            root_partition: self.root_partition.clone(),
            scheme: self.scheme,
        }
    }
}

/// The scheme for a machine: a GUID partition table where the firmware is
/// UEFI, a master boot record where it is not.
pub open spec fn scheme_for(firmware_is_uefi: bool) -> PartitionScheme {
    if firmware_is_uefi {
        PartitionScheme::GptUefi
    } else {
        PartitionScheme::MbrBios
    }
}

/// Chooses the partitioning scheme for `disk` on a machine with the given
/// firmware. The choice rests on the firmware alone.
pub fn plan(disk: &str, firmware_is_uefi: bool) -> (scheme: PartitionScheme)
    ensures
        scheme == scheme_for(firmware_is_uefi),
{
    if firmware_is_uefi {
        PartitionScheme::GptUefi
    } else {
        PartitionScheme::MbrBios
    }
}

/// The directory that exists where the machine was started by UEFI firmware.
pub const FIRMWARE_DIRECTORY: &'static str = "/sys/firmware/efi";

/// Whether the partitions of `disk` are named with a `p` before their
/// number: so it is where the name of the disk ends in a digit, as the names
/// of NVMe and MMC devices do, since the number could not be told from the
/// name otherwise.
pub open spec fn takes_separator(disk: Seq<char>) -> bool {
    disk.len() > 0 && is_digit(disk.last())
}

/// The name of the partition of `disk` with the given number.
pub open spec fn partition_name(disk: Seq<char>, number: Seq<char>) -> Seq<char> {
    if takes_separator(disk) {
        disk + "p"@ + number
    } else {
        disk + number
    }
}

/// The partitions that `disk` has once it is partitioned by `scheme`.
pub open spec fn layout_of(disk: Seq<char>, scheme: PartitionScheme) -> LayoutView {
    match scheme {
        PartitionScheme::GptUefi => LayoutView {
            efi_partition: partition_name(disk, "1"@),
            root_partition: partition_name(disk, "2"@),
            scheme,
        },
        PartitionScheme::MbrBios => LayoutView {
            efi_partition: Seq::empty(),
            root_partition: partition_name(disk, "1"@),
            scheme,
        },
    }
}

/// The layout of a partitioned disk names a root partition, and an EFI
/// system partition if and only if the scheme has one.
pub proof fn lemma_layout_is_wf(disk: Seq<char>, scheme: PartitionScheme)
    ensures
        layout_of(disk, scheme).wf(),
        layout_of(disk, scheme).scheme == scheme,
{
    reveal_strlit("1");
    reveal_strlit("2");
    reveal_strlit("p");
}

/// Whether the partitions of `disk` are named with a `p` before their number.
pub fn takes_separator_in(disk: &str) -> (yes: bool)
    ensures
        yes == takes_separator(disk@),
{
    let chars = chars_of(disk);
    let size: usize = chars.len();
    size > 0 && digit_char(chars[size - 1])
}

fn name_partition(disk: &str, separator: bool, number: &str) -> (name: String)
    requires
        separator == takes_separator(disk@),
    ensures
        name@ == partition_name(disk@, number@),
{
    if separator {
        glue3(disk, "p", number)
    } else {
        glue(disk, number)
    }
}

/// The partitions that `disk` has once it is partitioned by `scheme`.
pub fn derive_names(disk: &str, scheme: PartitionScheme) -> (layout: PartitionLayout)
    ensures
        layout@ == layout_of(disk@, scheme),
        layout@.wf(),
{
    let separator = takes_separator_in(disk);
    proof {
        reveal_strlit("1");
        reveal_strlit("2");
        reveal_strlit("p");
    }
    match scheme {
        PartitionScheme::GptUefi => PartitionLayout {
            efi_partition: name_partition(disk, separator, "1"),
            root_partition: name_partition(disk, separator, "2"),
            scheme,
        },
        PartitionScheme::MbrBios => PartitionLayout {
            efi_partition: String::new(),
            root_partition: name_partition(disk, separator, "1"),
            scheme,
        },
    }
}

/// The name under which an encrypted root partition is opened.
pub const MAPPER_NAME: &'static str = "cryptroot";

/// The device that stands for the opened encrypted root partition.
pub const MAPPED_DEVICE: &'static str = "/dev/mapper/cryptroot";

/// The question for the partitions of `disk`: the answer lists the disk
/// first and then one partition to a line.
pub open spec fn partitions_query_of(disk: Seq<char>) -> InvocationView {
    command("lsblk"@, seq!["-ln"@, "-o"@, "NAME"@, disk])
}

/// The question for the partitions of `disk`.
pub fn partitions_query(disk: &str) -> (query: Invocation)
    ensures
        query@ == partitions_query_of(disk@),
{
    let query = Invocation::new("lsblk", &["-ln", "-o", "NAME", disk]);
    query
}

/// The trimmed texts of `lines`, as far as anything is left of them.
pub open spec fn names_in(lines: Seq<Seq<char>>) -> Seq<Seq<char>>
    decreases lines.len(),
{
    if lines.len() == 0 {
        Seq::empty()
    } else if trim(lines.last()).len() > 0 {
        names_in(lines.drop_last()).push(trim(lines.last()))
    } else {
        names_in(lines.drop_last())
    }
}

/// The partitions that the answer to [`partitions_query`] names: every line
/// but the first, which is the disk itself.
pub open spec fn stale_partitions_of(listing: Seq<char>) -> Seq<Seq<char>> {
    names_in(fields(listing, '\n').skip(1))
}

/// The partitions that the answer to [`partitions_query`] names.
pub fn stale_partitions(listing: &str) -> (names: Vec<String>)
    ensures
        texts(names@) == stale_partitions_of(listing@),
{
    let lines = split(listing, '\n');
    let ghost rest = texts(lines@).skip(1);
    let mut names: Vec<String> = Vec::new();
    let mut i: usize = 1;
    while i < lines.len()
        invariant
            1 <= i,
            lines@.len() >= 1 ==> i <= lines@.len(),
            rest == texts(lines@).skip(1),
            i <= lines@.len() ==> texts(names@) == names_in(rest.take(i - 1)),
        decreases lines@.len() - i,
    {
        assert(rest.take(i as int).drop_last() =~= rest.take(i - 1));
        let name = trimmed(lines[i].as_str());
        if !name.as_str().is_empty() {
            names.push(name);
        }
        i += 1;
    }
    proof {
        if lines@.len() >= 1 {
            assert(rest.take(lines@.len() - 1) =~= rest);
        }
    }
    names
}

/// Letting go of each partition in `names`: unmounting it and taking it out
/// of use as swap space, whatever comes of either.
pub open spec fn release_steps(names: Seq<Seq<char>>) -> Seq<StepView>
    decreases names.len(),
{
    if names.len() == 0 {
        Seq::empty()
    } else {
        release_steps(names.drop_last()).push(
            attempt(quietly(command("umount"@, seq!["-f"@, "/dev/"@ + names.last()]))),
        ).push(attempt(quietly(command("swapoff"@, seq!["/dev/"@ + names.last()]))))
    }
}

fn release_script(names: &Vec<String>) -> (script: Script)
    ensures
        script@ == release_steps(texts(names@)),
{
    let ghost all = texts(names@);
    let mut script = Script::new();
    let mut i: usize = 0;
    while i < names.len()
        invariant
            i <= names@.len(),
            all == texts(names@),
            script@ == release_steps(all.take(i as int)),
        decreases names@.len() - i,
    {
        assert(all.take(i + 1).drop_last() =~= all.take(i as int));
        let device = glue("/dev/", names[i].as_str());
        let ghost before = script@;
        script.push(Step::attempt(Invocation::new("umount", &["-f", device.as_str()]).quiet()));
        script.push(Step::attempt(Invocation::new("swapoff", &[device.as_str()]).quiet()));
        assert(script@ =~~= before.push(
            attempt(quietly(command("umount"@, seq!["-f"@, "/dev/"@ + names@[i as int]@]))),
        ).push(attempt(quietly(command("swapoff"@, seq!["/dev/"@ + names@[i as int]@])))));
        i += 1;
    }
    assert(all.take(names@.len() as int) =~= all);
    script
}

/// Clearing `disk`: closing an encrypted mapping left over from an earlier
/// run, then wiping every signature. A disk that cannot be wiped is worth a
/// warning only, since the partition table is written anew right after.
pub open spec fn wipe_steps(disk: Seq<char>) -> Seq<StepView> {
    seq![
        attempt(quietly(command("cryptsetup"@, seq!["close"@, "cryptroot"@]))),
        attempt(command("sleep"@, seq!["1"@])),
        advise(
            quietly(command("wipefs"@, seq!["-af"@, disk])),
            "Could not wipe disk signatures"@,
        ),
        attempt(quietly(command("partprobe"@, seq![disk]))),
        attempt(command("sleep"@, seq!["1"@])),
    ]
}

fn wipe_script(disk: &str) -> (script: Script)
    ensures
        script@ == wipe_steps(disk@),
{
    let mut script = Script::new();
    script.push(Step::attempt(Invocation::new("cryptsetup", &["close", MAPPER_NAME]).quiet()));
    script.push(Step::attempt(Invocation::new("sleep", &["1"])));
    script.push(
        Step::advise(
            Invocation::new("wipefs", &["-af", disk]).quiet(),
            "Could not wipe disk signatures",
        ),
    );
    script.push(Step::attempt(Invocation::new("partprobe", &[disk]).quiet()));
    script.push(Step::attempt(Invocation::new("sleep", &["1"])));
    assert(script@ =~~= wipe_steps(disk@));
    script
}

/// Writing the partition table of `scheme` on `disk` and creating its
/// partitions: an EFI system partition of 512 MiB and a root partition on the
/// rest, or a single bootable root partition.
pub open spec fn table_steps(disk: Seq<char>, scheme: PartitionScheme) -> Seq<StepView> {
    match scheme {
        PartitionScheme::GptUefi => seq![
            demand(
                command("parted"@, seq!["-s"@, disk, "mklabel"@, "gpt"@]),
                "Failed to create GPT partition table"@,
            ),
            demand(
                command(
                    "parted"@,
                    seq!["-s"@, disk, "mkpart"@, "primary"@, "fat32"@, "1MiB"@, "513MiB"@],
                ),
                "Failed to create EFI partition"@,
            ),
            attempt(command("parted"@, seq!["-s"@, disk, "set"@, "1"@, "esp"@, "on"@])),
            demand(
                command(
                    "parted"@,
                    seq!["-s"@, disk, "mkpart"@, "primary"@, "ext4"@, "513MiB"@, "100%"@],
                ),
                "Failed to create root partition"@,
            ),
        ],
        PartitionScheme::MbrBios => seq![
            demand(
                command("parted"@, seq!["-s"@, disk, "mklabel"@, "msdos"@]),
                "Failed to create MBR partition table"@,
            ),
            demand(
                command(
                    "parted"@,
                    seq!["-s"@, disk, "mkpart"@, "primary"@, "ext4"@, "1MiB"@, "100%"@],
                ),
                "Failed to create root partition"@,
            ),
            attempt(command("parted"@, seq!["-s"@, disk, "set"@, "1"@, "boot"@, "on"@])),
        ],
    }
}

fn table_script(disk: &str, scheme: PartitionScheme) -> (script: Script)
    ensures
        script@ == table_steps(disk@, scheme),
{
    let mut script = Script::new();
    match scheme {
        PartitionScheme::GptUefi => {
            script.push(
                Step::demand(
                    Invocation::new("parted", &["-s", disk, "mklabel", "gpt"]),
                    "Failed to create GPT partition table",
                ),
            );
            script.push(
                Step::demand(
                    Invocation::new(
                        "parted",
                        &["-s", disk, "mkpart", "primary", "fat32", "1MiB", "513MiB"],
                    ),
                    "Failed to create EFI partition",
                ),
            );
            script.push(
                Step::attempt(Invocation::new("parted", &["-s", disk, "set", "1", "esp", "on"])),
            );
            script.push(
                Step::demand(
                    Invocation::new(
                        "parted",
                        &["-s", disk, "mkpart", "primary", "ext4", "513MiB", "100%"],
                    ),
                    "Failed to create root partition",
                ),
            );
        },
        PartitionScheme::MbrBios => {
            script.push(
                Step::demand(
                    Invocation::new("parted", &["-s", disk, "mklabel", "msdos"]),
                    "Failed to create MBR partition table",
                ),
            );
            script.push(
                Step::demand(
                    Invocation::new(
                        "parted",
                        &["-s", disk, "mkpart", "primary", "ext4", "1MiB", "100%"],
                    ),
                    "Failed to create root partition",
                ),
            );
            script.push(
                Step::attempt(Invocation::new("parted", &["-s", disk, "set", "1", "boot", "on"])),
            );
        },
    }
    assert(script@ =~~= table_steps(disk@, scheme));
    script
}

/// Having the kernel read the new partition table of `disk`, and waiting for
/// the device nodes of the partitions to appear.
pub open spec fn settle_steps(disk: Seq<char>) -> Seq<StepView> {
    seq![attempt(command("partprobe"@, seq![disk])), attempt(command("sleep"@, seq!["2"@]))]
}

fn settle_script(disk: &str) -> (script: Script)
    ensures
        script@ == settle_steps(disk@),
{
    let mut script = Script::new();
    script.push(Step::attempt(Invocation::new("partprobe", &[disk])));
    script.push(Step::attempt(Invocation::new("sleep", &["2"])));
    assert(script@ =~~= settle_steps(disk@));
    script
}

/// Partitioning `disk` by `scheme`, where `listing` is the answer to
/// [`partitions_query`]: the partitions that the disk has so far are let go,
/// the disk is cleared, the table and the partitions are made, and the kernel
/// is told.
pub open spec fn partition_steps(
    disk: Seq<char>,
    scheme: PartitionScheme,
    listing: Seq<char>,
) -> Seq<StepView> {
    release_steps(stale_partitions_of(listing)) + wipe_steps(disk) + table_steps(disk, scheme)
        + settle_steps(disk)
}

/// The steps that wipe and partition `disk`. Once they have all been carried
/// out, the disk has the partitions that [`derive_names`] gives.
pub fn partition_disk(disk: &str, scheme: PartitionScheme, listing: &str) -> (script: Script)
    ensures
        script@ == partition_steps(disk@, scheme, listing@),
{
    let names = stale_partitions(listing);
    let mut script = release_script(&names);
    script.extend(wipe_script(disk));
    script.extend(table_script(disk, scheme));
    script.extend(settle_script(disk));
    script
}

/// Formatting the partitions of `layout`: the EFI system partition, where
/// there is one, as FAT32; the root partition as ext4, behind LUKS2 where
/// encryption is asked for. The passphrase is fed to the encryption tool on
/// its standard input. Every failure is fatal.
pub open spec fn format_steps(
    layout: LayoutView,
    use_encryption: bool,
    passphrase: Seq<char>,
) -> Seq<StepView> {
    (if layout.scheme == PartitionScheme::GptUefi {
        seq![
            demand(
                command("mkfs.fat"@, seq!["-F32"@, layout.efi_partition]),
                "Failed to format EFI partition"@,
            ),
        ]
    } else {
        Seq::empty()
    }) + (if use_encryption {
        seq![
            demand(
                fed(
                    "cryptsetup"@,
                    seq!["luksFormat"@, "--type"@, "luks2"@, layout.root_partition, "-"@],
                    passphrase,
                ),
                "Failed to encrypt root partition"@,
            ),
            demand(
                fed(
                    "cryptsetup"@,
                    seq!["open"@, layout.root_partition, "cryptroot"@, "-"@],
                    passphrase,
                ),
                "Failed to open encrypted partition"@,
            ),
            demand(
                command("mkfs.ext4"@, seq!["-F"@, "/dev/mapper/cryptroot"@]),
                "Failed to format encrypted root partition"@,
            ),
        ]
    } else {
        seq![
            demand(
                command("mkfs.ext4"@, seq!["-F"@, layout.root_partition]),
                "Failed to format root partition"@,
            ),
        ]
    })
}

/// The steps that format the partitions of `layout`.
pub fn format_partitions(
    layout: &PartitionLayout,
    use_encryption: bool,
    encryption_password: &str,
) -> (script: Script)
    ensures
        script@ == format_steps(layout@, use_encryption, encryption_password@),
{
    let mut script = Script::new();
    let root = layout.root_partition.as_str();
    if layout.scheme == PartitionScheme::GptUefi {
        script.push(
            Step::demand(
                Invocation::new("mkfs.fat", &["-F32", layout.efi_partition.as_str()]),
                "Failed to format EFI partition",
            ),
        );
    }
    if use_encryption {
        script.push(
            Step::demand(
                Invocation::new("cryptsetup", &["luksFormat", "--type", "luks2", root, "-"]).input(
                    encryption_password,
                ),
                "Failed to encrypt root partition",
            ),
        );
        script.push(
            Step::demand(
                Invocation::new("cryptsetup", &["open", root, MAPPER_NAME, "-"]).input(
                    encryption_password,
                ),
                "Failed to open encrypted partition",
            ),
        );
        script.push(
            Step::demand(
                Invocation::new("mkfs.ext4", &["-F", MAPPED_DEVICE]),
                "Failed to format encrypted root partition",
            ),
        );
    } else {
        script.push(
            Step::demand(
                Invocation::new("mkfs.ext4", &["-F", root]),
                "Failed to format root partition",
            ),
        );
    }
    assert(script@ =~~= format_steps(layout@, use_encryption, encryption_password@));
    script
}

/// The device that holds the root file system: the opened mapping where the
/// root partition is encrypted, the partition itself where it is not.
pub open spec fn root_device(layout: LayoutView, encrypted: bool) -> Seq<char> {
    if encrypted {
        "/dev/mapper/cryptroot"@
    } else {
        layout.root_partition
    }
}

/// Mounting the root file system at `mount_point`.
pub open spec fn mount_root_steps(
    layout: LayoutView,
    mount_point: Seq<char>,
    encrypted: bool,
) -> Seq<StepView> {
    seq![
        attempt(command("mkdir"@, seq!["-p"@, mount_point])),
        demand(
            command("mount"@, seq![root_device(layout, encrypted), mount_point]),
            "Failed to mount root partition"@,
        ),
    ]
}

/// Mounting the EFI system partition, where there is one, below the root.
pub open spec fn mount_efi_steps(layout: LayoutView, mount_point: Seq<char>) -> Seq<StepView> {
    if layout.scheme == PartitionScheme::GptUefi {
        seq![
            attempt(command("mkdir"@, seq!["-p"@, mount_point + "/boot/efi"@])),
            demand(
                command("mount"@, seq![layout.efi_partition, mount_point + "/boot/efi"@]),
                "Failed to mount EFI partition"@,
            ),
        ]
    } else {
        Seq::empty()
    }
}

/// Mounting the partitions of `layout` for the installation.
pub open spec fn mount_steps(
    layout: LayoutView,
    mount_point: Seq<char>,
    encrypted: bool,
) -> Seq<StepView> {
    mount_root_steps(layout, mount_point, encrypted) + mount_efi_steps(layout, mount_point)
}

/// The position in [`mount_steps`] of the step that mounts the root file
/// system.
pub const ROOT_MOUNT_STEP: usize = 1;

/// The step at [`ROOT_MOUNT_STEP`] mounts the root file system; before it
/// nothing is mounted.
pub proof fn lemma_root_mount_step(layout: LayoutView, mount_point: Seq<char>, encrypted: bool)
    ensures
        mount_steps(layout, mount_point, encrypted).len() > ROOT_MOUNT_STEP,
        mount_steps(layout, mount_point, encrypted)[ROOT_MOUNT_STEP as int] == demand(
            command("mount"@, seq![root_device(layout, encrypted), mount_point]),
            "Failed to mount root partition"@,
        ),
        mount_steps(layout, mount_point, encrypted)[0] == attempt(
            command("mkdir"@, seq!["-p"@, mount_point]),
        ),
{
}

fn mount_root_script(layout: &PartitionLayout, mount_point: &str, encrypted: bool) -> (script:
    Script)
    ensures
        script@ == mount_root_steps(layout@, mount_point@, encrypted),
{
    let root_dev = if encrypted {
        String::from_str(MAPPED_DEVICE)
    } else {
        layout.root_partition.clone()
    };
    let mut script = Script::new();
    script.push(Step::attempt(Invocation::new("mkdir", &["-p", mount_point])));
    script.push(
        Step::demand(
            Invocation::new("mount", &[root_dev.as_str(), mount_point]),
            "Failed to mount root partition",
        ),
    );
    assert(script@ =~~= mount_root_steps(layout@, mount_point@, encrypted));
    script
}

fn mount_efi_script(layout: &PartitionLayout, mount_point: &str) -> (script: Script)
    ensures
        script@ == mount_efi_steps(layout@, mount_point@),
{
    let mut script = Script::new();
    if layout.scheme == PartitionScheme::GptUefi {
        let efi_dir = glue(mount_point, "/boot/efi");
        script.push(Step::attempt(Invocation::new("mkdir", &["-p", efi_dir.as_str()])));
        script.push(
            Step::demand(
                Invocation::new("mount", &[layout.efi_partition.as_str(), efi_dir.as_str()]),
                "Failed to mount EFI partition",
            ),
        );
    }
    assert(script@ =~~= mount_efi_steps(layout@, mount_point@));
    script
}

/// The steps that mount the partitions of `layout` below `mount_point`.
/// `encrypted` says whether the root partition was encrypted when it was
/// formatted.
pub fn mount_partitions(layout: &PartitionLayout, mount_point: &str, encrypted: bool) -> (script:
    Script)
    ensures
        script@ == mount_steps(layout@, mount_point@, encrypted),
{
    let mut script = mount_root_script(layout, mount_point, encrypted);
    script.extend(mount_efi_script(layout, mount_point));
    script
}

/// Unmounting everything below `mount_point` and closing the encrypted
/// mapping, whatever comes of either.
pub open spec fn unmount_steps(mount_point: Seq<char>) -> Seq<StepView> {
    seq![
        attempt(quietly(command("umount"@, seq!["-R"@, mount_point]))),
        attempt(quietly(command("cryptsetup"@, seq!["close"@, "cryptroot"@]))),
    ]
}

/// The steps that unmount the installation.
pub fn unmount_partitions(mount_point: &str) -> (script: Script)
    ensures
        script@ == unmount_steps(mount_point@),
{
    let mut script = Script::new();
    script.push(Step::attempt(Invocation::new("umount", &["-R", mount_point]).quiet()));
    script.push(Step::attempt(Invocation::new("cryptsetup", &["close", MAPPER_NAME]).quiet()));
    assert(script@ =~~= unmount_steps(mount_point@));
    script
}

/// The shell text that appends the file system table of the tree at its
/// first parameter to that tree's `etc/fstab`.
pub const FSTAB_SCRIPT: &'static str = "genfstab -U \"$1\" >> \"$1/etc/fstab\"";

/// Writing the table of the file systems mounted below `mount_point` into
/// the installed system. The mount point is a parameter of the shell text,
/// not a part of it.
pub open spec fn fstab_steps(mount_point: Seq<char>) -> Seq<StepView> {
    seq![
        demand(
            command("sh"@, seq!["-c"@, FSTAB_SCRIPT@, "sh"@, mount_point]),
            "Failed to generate fstab"@,
        ),
    ]
}

/// The steps that generate the file system table of the installed system.
pub fn generate_fstab(mount_point: &str) -> (script: Script)
    ensures
        script@ == fstab_steps(mount_point@),
{
    let mut script = Script::new();
    script.push(
        Step::demand(
            Invocation::new("sh", &["-c", FSTAB_SCRIPT, "sh", mount_point]),
            "Failed to generate fstab",
        ),
    );
    assert(script@ =~~= fstab_steps(mount_point@));
    script
}

/// A disk that the system could be installed on.
#[derive(Debug, PartialEq, Eq)]
pub struct DiskInfo {
    pub device: String,
    pub model: String,
    pub size: String,
    /// What kind of device it is, in the machine's words.
    pub type_: String,
}

/// A [`DiskInfo`] as the texts that it holds.
pub struct DiskView {
    pub device: Seq<char>,
    pub model: Seq<char>,
    pub size: Seq<char>,
    pub type_: Seq<char>,
}

impl View for DiskInfo {
    type V = DiskView;

    open spec fn view(&self) -> DiskView {
        DiskView {
            device: self.device@,
            model: self.model@,
            size: self.size@,
            type_: self.type_@,
        }
    }
}

impl Clone for DiskInfo {
    fn clone(&self) -> (copy: Self)
        ensures
            copy@ == self@,
    {
        DiskInfo {
            device: self.device.clone(),
            model: self.model.clone(),
            size: self.size.clone(),
            type_: self.type_.clone(),
        }
    }
}

/// The question for the disks of the machine: the answer has one device to a
/// line, with its name, its size, its model and its type.
pub open spec fn disks_query_of() -> InvocationView {
    command("lsblk"@, seq!["-d"@, "-n"@, "-o"@, "NAME,SIZE,MODEL,TYPE"@])
}

/// The question for the disks of the machine.
pub fn disks_query() -> (query: Invocation)
    ensures
        query@ == disks_query_of(),
{
    let query = Invocation::new("lsblk", &["-d", "-n", "-o", "NAME,SIZE,MODEL,TYPE"]);
    query
}

/// The disk that a line of the answer to [`disks_query`] describes. The line
/// holds words: the name, the size, the words of the model, and the type as
/// the last. A line of fewer than two words, or of another type than `disk`,
/// describes none. A disk without a model is of the model `Unknown`.
pub open spec fn disk_of(line: Seq<char>) -> Option<DiskView> {
    let parts = tokens(line);
    if parts.len() >= 2 && parts.last() == "disk"@ {
        Some(
            DiskView {
                device: "/dev/"@ + parts[0],
                model: if parts.len() > 3 {
                    join(parts.subrange(2, parts.len() - 1), " "@)
                } else {
                    "Unknown"@
                },
                size: parts[1],
                type_: parts.last(),
            },
        )
    } else {
        None
    }
}

/// The disks that `lines` describe, in their order.
pub open spec fn disks_in(lines: Seq<Seq<char>>) -> Seq<DiskView>
    decreases lines.len(),
{
    if lines.len() == 0 {
        Seq::empty()
    } else {
        match disk_of(lines.last()) {
            Some(disk) => disks_in(lines.drop_last()).push(disk),
            None => disks_in(lines.drop_last()),
        }
    }
}

/// The disks that the answer to [`disks_query`] describes.
pub open spec fn disks_of(listing: Seq<char>) -> Seq<DiskView> {
    disks_in(fields(listing, '\n'))
}

/// The disks held by a list.
pub open spec fn disk_views(disks: Seq<DiskInfo>) -> Seq<DiskView> {
    Seq::new(disks.len(), |i: int| disks[i]@)
}

/// The disk that a line of the answer to [`disks_query`] describes.
pub fn parse_disk(line: &str) -> (disk: Option<DiskInfo>)
    ensures
        match disk {
            Some(d) => disk_of(line@) == Some(d@),
            None => disk_of(line@) is None,
        },
{
    let parts = split_words(line);
    let count: usize = parts.len();
    if count < 2 {
        return None;
    }
    if !same_text(parts[count - 1].as_str(), "disk") {
        return None;
    }
    let model = if count > 3 {
        join_range(&parts, 2, count - 1, " ")
    } else {
        String::from_str("Unknown")
    };
    Some(
        DiskInfo {
            device: glue("/dev/", parts[0].as_str()),
            model,
            size: parts[1].clone(),
            type_: parts[count - 1].clone(),
        },
    )
}

/// The disks that the answer to [`disks_query`] describes.
pub fn get_disks(listing: &str) -> (disks: Vec<DiskInfo>)
    ensures
        disk_views(disks@) == disks_of(listing@),
{
    let lines = split(listing, '\n');
    let ghost all = texts(lines@);
    let mut disks: Vec<DiskInfo> = Vec::new();
    let mut i: usize = 0;
    while i < lines.len()
        invariant
            i <= lines@.len(),
            all == texts(lines@),
            disk_views(disks@) == disks_in(all.take(i as int)),
        decreases lines@.len() - i,
    {
        assert(all.take(i + 1).drop_last() =~= all.take(i as int));
        match parse_disk(lines[i].as_str()) {
            Some(disk) => {
                disks.push(disk);
            },
            None => {},
        }
        i += 1;
    }
    assert(all.take(lines@.len() as int) =~= all);
    disks
}

/// The question for the size of `device`.
pub open spec fn disk_size_query_of(device: Seq<char>) -> InvocationView {
    command("lsblk"@, seq!["-d"@, "-n"@, "-o"@, "SIZE"@, device])
}

/// The question for the size of `device`.
pub fn disk_size_query(device: &str) -> (query: Invocation)
    ensures
        query@ == disk_size_query_of(device@),
{
    let query = Invocation::new("lsblk", &["-d", "-n", "-o", "SIZE", device]);
    query
}

/// The size of a disk in the form people read, from the answer to
/// [`disk_size_query`].
pub fn get_disk_size(answer: &str) -> (size: String)
    ensures
        size@ == trim(answer@),
{
    trimmed(answer)
}

/// The question for what `device` and the devices on it are.
pub open spec fn device_types_query_of(device: Seq<char>) -> InvocationView {
    command("lsblk"@, seq!["-n"@, "-o"@, "TYPE"@, device])
}

/// The question for what `device` and the devices on it are.
pub fn device_types_query(device: &str) -> (query: Invocation)
    ensures
        query@ == device_types_query_of(device@),
{
    let query = Invocation::new("lsblk", &["-n", "-o", "TYPE", device]);
    query
}

/// Whether a disk has partitions, from the answer to
/// [`device_types_query`].
pub fn has_partitions(answer: &str) -> (yes: bool)
    ensures
        yes == contains(answer@, "part"@),
{
    str_contains(answer, "part")
}

/// The shell text that prints the size of the memory in megabytes.
pub const MEMORY_SCRIPT: &'static str = "free -m | awk '/^Mem:/ {print $2}'";

/// The memory that is taken for granted where the machine does not tell.
pub const ASSUMED_RAM_MB: u64 = 4096;

/// The question for the size of the memory.
pub open spec fn memory_query_of() -> InvocationView {
    command("sh"@, seq!["-c"@, MEMORY_SCRIPT@])
}

/// The question for the size of the memory.
pub fn memory_query() -> (query: Invocation)
    ensures
        query@ == memory_query_of(),
{
    let query = Invocation::new("sh", &["-c", MEMORY_SCRIPT]);
    query
}

/// The memory in megabytes that the answer to [`memory_query`] tells of:
/// the number it holds, or 4096 where it holds no number.
pub open spec fn ram_mb_of(answer: Seq<char>) -> u64 {
    match number(trim(answer)) {
        Some(n) => n,
        None => 4096,
    }
}

/// The memory of the machine in megabytes, from the answer to
/// [`memory_query`].
pub fn get_ram_mb(answer: &str) -> (ram_mb: u64)
    ensures
        ram_mb == ram_mb_of(answer@),
{
    let chars = chars_of(answer);
    let (start, end) = trim_bounds(&chars, 0, chars.len());
    assert(chars@.subrange(0, chars@.len() as int) =~= chars@);
    match parse_number(&chars, start, end) {
        Some(n) => n,
        None => ASSUMED_RAM_MB,
    }
}

/// The passphrase of the encryption is on no command line: whatever the
/// passphrase, the steps that format the partitions start the same programs
/// with the same arguments, and fail with the same words.
pub proof fn lemma_passphrase_is_on_no_command_line(
    layout: LayoutView,
    use_encryption: bool,
    first: Seq<char>,
    second: Seq<char>,
    i: int,
)
    requires
        0 <= i < format_steps(layout, use_encryption, first).len(),
    ensures
        format_steps(layout, use_encryption, second).len() == format_steps(
            layout,
            use_encryption,
            first,
        ).len(),
        command_line(format_steps(layout, use_encryption, second)[i]) == command_line(
            format_steps(layout, use_encryption, first)[i],
        ),
        format_steps(layout, use_encryption, second)[i].failure == format_steps(
            layout,
            use_encryption,
            first,
        )[i].failure,
{
}

/// Where the root partition is encrypted, the file system is made on the
/// opened mapping and mounted from it, not from the partition.
pub proof fn lemma_encrypted_root_is_mapped(
    layout: LayoutView,
    passphrase: Seq<char>,
    mount_point: Seq<char>,
)
    ensures
        format_steps(layout, true, passphrase).last() == demand(
            command("mkfs.ext4"@, seq!["-F"@, MAPPED_DEVICE@]),
            "Failed to format encrypted root partition"@,
        ),
        mount_steps(layout, mount_point, true)[ROOT_MOUNT_STEP as int] == demand(
            command("mount"@, seq![MAPPED_DEVICE@, mount_point]),
            "Failed to mount root partition"@,
        ),
{
}

/// Whatever fails in letting go of the partitions that a disk has, the
/// installation goes on.
pub proof fn lemma_release_never_fatal(names: Seq<Seq<char>>)
    ensures
        never_fatal(release_steps(names)),
    decreases names.len(),
{
    if names.len() > 0 {
        lemma_release_never_fatal(names.drop_last());
    }
}

/// Of the steps that partition a disk, only those that write the partition
/// table and create the partitions stop the installation when they fail:
/// letting go of the old partitions, clearing the disk and telling the kernel
/// are attempts.
pub proof fn lemma_clearing_never_fatal(disk: Seq<char>, listing: Seq<char>)
    ensures
        never_fatal(release_steps(stale_partitions_of(listing)) + wipe_steps(disk)),
        never_fatal(settle_steps(disk)),
{
    lemma_release_never_fatal(stale_partitions_of(listing));
    lemma_never_fatal_joined(release_steps(stale_partitions_of(listing)), wipe_steps(disk));
}

/// Whatever fails in unmounting, nothing stops.
pub proof fn lemma_unmount_never_fatal(mount_point: Seq<char>)
    ensures
        never_fatal(unmount_steps(mount_point)),
{
}

/// Every step that formats a partition stops the installation when it
/// fails.
pub proof fn lemma_format_all_fatal(layout: LayoutView, use_encryption: bool, passphrase: Seq<char>)
    ensures
        all_fatal(format_steps(layout, use_encryption, passphrase)),
{
}

} // verus!
