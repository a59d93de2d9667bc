//! Resolving hardware drivers: from the inventory of the machine's buses to
//! the packages to install.

use vstd::prelude::*;

use crate::command::{
    add_group, advise, attempt, command, copy_texts, group, inside, never_fatal, texts, Invocation,
    InvocationView, Script, Step, StepView,
};
use crate::text::{
    chars_of, contains, glue, holds, lowercase, starts_with, str_starts_with, to_lowercase,
};

verus! {

/// The driver packages for a machine.
#[derive(Debug, PartialEq, Eq)]
pub struct DriverSet {
    /// The packages in the order of detection: graphics before network.
    pub packages: Vec<String>,
    /// Whether one of the packages needs the 32-bit repository.
    pub requires_32bit: bool,
}

/// A [`DriverSet`] as the texts that it holds.
pub struct DriverSetView {
    pub packages: Seq<Seq<char>>,
    pub requires_32bit: bool,
}

impl View for DriverSet {
    type V = DriverSetView;

    open spec fn view(&self) -> DriverSetView {
        DriverSetView { packages: texts(self.packages@), requires_32bit: self.requires_32bit }
    }
}

impl Clone for DriverSet {
    fn clone(&self) -> (copy: Self)
        ensures
            copy@ == self@,
    {
        DriverSet { packages: copy_texts(&self.packages), requires_32bit: self.requires_32bit }
    }
}

/// Whether the inventory, in lower case, shows an NVIDIA graphics adapter.
pub open spec fn has_nvidia(inventory: Seq<char>) -> bool {
    contains(inventory, "nvidia"@)
}

/// Whether the inventory, in lower case, shows an AMD or ATI graphics
/// adapter.
pub open spec fn has_amd(inventory: Seq<char>) -> bool {
    contains(inventory, "[amd/ati]"@) || contains(inventory, "radeon"@) || (contains(
        inventory,
        "amd"@,
    ) && contains(inventory, "vga"@))
}

/// Whether the inventory, in lower case, shows an Intel graphics adapter.
pub open spec fn has_intel(inventory: Seq<char>) -> bool {
    contains(inventory, "intel"@) && (contains(inventory, "vga"@) || contains(
        inventory,
        "display"@,
    ))
}

/// Whether the inventory, in lower case, shows a Broadcom wireless adapter.
pub open spec fn has_broadcom(inventory: Seq<char>) -> bool {
    contains(inventory, "broadcom"@) && (contains(inventory, "wireless"@) || contains(
        inventory,
        "network"@,
    ) || contains(inventory, "bcm43"@))
}

/// Whether the inventory, in lower case, shows a Realtek wireless adapter.
/// The firmware that every installation gets covers it: it adds no package.
pub open spec fn has_realtek(inventory: Seq<char>) -> bool {
    contains(inventory, "realtek"@) && (contains(inventory, "wireless"@) || contains(
        inventory,
        "rtl8"@,
    ))
}

/// The driver stack for NVIDIA graphics adapters.
pub open spec fn nvidia_packages() -> Seq<Seq<char>> {
    seq![
        "nvidia"@,
        "nvidia-utils"@,
        "nvidia-settings"@,
        "lib32-nvidia-utils"@,
        "libva-nvidia-driver"@,
    ]
}

/// The open driver stack for AMD graphics adapters.
pub open spec fn amd_packages() -> Seq<Seq<char>> {
    seq![
        "xf86-video-amdgpu"@,
        "vulkan-radeon"@,
        "lib32-vulkan-radeon"@,
        "libva-mesa-driver"@,
        "lib32-libva-mesa-driver"@,
        "mesa-vdpau"@,
    ]
}

/// The driver stack for Intel graphics adapters.
pub open spec fn intel_packages() -> Seq<Seq<char>> {
    seq!["vulkan-intel"@, "lib32-vulkan-intel"@, "intel-media-driver"@]
}

/// The driver for Broadcom wireless adapters.
pub open spec fn broadcom_packages() -> Seq<Seq<char>> {
    seq!["broadcom-wl-dkms"@]
}

/// The packages for the hardware in the inventory, which is in lower case:
/// first those for each kind of graphics adapter found, then those for the
/// network.
pub open spec fn driver_packages(inventory: Seq<char>) -> Seq<Seq<char>> {
    group(has_nvidia(inventory), nvidia_packages()) + group(has_amd(inventory), amd_packages())
        + group(has_intel(inventory), intel_packages()) + group(
        has_broadcom(inventory),
        broadcom_packages(),
    )
}

/// Whether the package is built for 32 bits.
pub open spec fn is_32bit(package: Seq<char>) -> bool {
    starts_with(package, "lib32-"@)
}

/// Whether one of the packages is built for 32 bits.
pub open spec fn any_32bit(packages: Seq<Seq<char>>) -> bool {
    exists|i: int| 0 <= i < packages.len() && is_32bit(#[trigger] packages[i])
}

/// The driver set for an inventory in lower case.
pub open spec fn classified(inventory: Seq<char>) -> DriverSetView {
    DriverSetView {
        packages: driver_packages(inventory),
        requires_32bit: any_32bit(driver_packages(inventory)),
    }
}

/// The driver set for an inventory as the machine gives it.
pub open spec fn resolved(scan: Seq<char>) -> DriverSetView {
    classified(lowercase(scan))
}

/// Whether an inventory in lower case shows a Realtek wireless adapter: the
/// host may tell the user that the firmware covers it.
pub fn shows_realtek(inventory: &str) -> (found: bool)
    ensures
        found == has_realtek(inventory@),
{
    let chars = chars_of(inventory);
    holds(&chars, "realtek") && (holds(&chars, "wireless") || holds(&chars, "rtl8"))
}

/// Whether an inventory as the machine gives it shows a Realtek wireless
/// adapter.
pub fn notes_realtek(scan: &str) -> (found: bool)
    ensures
        found == has_realtek(lowercase(scan@)),
{
    let lowered = to_lowercase(scan);
    shows_realtek(lowered.as_str())
}

/// The question for the inventory of the machine's buses.
pub open spec fn hardware_query_of() -> InvocationView {
    command("lspci"@, seq!["-nn"@])
}

/// The question for the inventory of the machine's buses.
pub fn hardware_query() -> (query: Invocation)
    ensures
        query@ == hardware_query_of(),
{
    let query = Invocation::new("lspci", &["-nn"]);
    query
}

/// Whether one of the packages is built for 32 bits.
pub fn includes_32bit(packages: &Vec<String>) -> (yes: bool)
    ensures
        yes == any_32bit(texts(packages@)),
{
    let mut i: usize = 0;
    while i < packages.len()
        invariant
            i <= packages@.len(),
            forall|j: int| 0 <= j < i ==> !is_32bit(#[trigger] texts(packages@)[j]),
        decreases packages@.len() - i,
    {
        if str_starts_with(packages[i].as_str(), "lib32-") {
            assert(is_32bit(texts(packages@)[i as int]));
            return true;
        }
        i += 1;
    }
    false
}

/// The driver set for an inventory in lower case.
pub fn classify(inventory: &str) -> (set: DriverSet)
    ensures
        set@ == classified(inventory@),
        set@.wf(),
{
    proof {
        lemma_classified_is_wf(inventory@);
    }
    let chars = chars_of(inventory);
    let nvidia = holds(&chars, "nvidia");
    let amd = holds(&chars, "[amd/ati]") || holds(&chars, "radeon") || (holds(&chars, "amd") && holds(
        &chars,
        "vga",
    ));
    let intel = holds(&chars, "intel") && (holds(&chars, "vga") || holds(&chars, "display"));
    let broadcom = holds(&chars, "broadcom") && (holds(&chars, "wireless") || holds(&chars, "network")
        || holds(&chars, "bcm43"));

    let mut packages: Vec<String> = Vec::new();

    // Graphics
    let names = [
        "nvidia",
        "nvidia-utils",
        "nvidia-settings",
        "lib32-nvidia-utils",
        "libva-nvidia-driver",
    ];
    add_group(&mut packages, nvidia, &names);
    let names = [
        "xf86-video-amdgpu",
        "vulkan-radeon",
        "lib32-vulkan-radeon",
        "libva-mesa-driver",
        "lib32-libva-mesa-driver",
        "mesa-vdpau",
    ];
    add_group(&mut packages, amd, &names);
    let names = ["vulkan-intel", "lib32-vulkan-intel", "intel-media-driver"];
    add_group(&mut packages, intel, &names);

    // Network
    let names = ["broadcom-wl-dkms"];
    add_group(&mut packages, broadcom, &names);

    assert(texts(packages@) =~= driver_packages(inventory@));
    let requires_32bit = includes_32bit(&packages);
    DriverSet { packages, requires_32bit }
}

/// The driver set for an inventory as the machine gives it, in whatever case.
pub fn resolve(scan: &str) -> (set: DriverSet)
    ensures
        set@ == resolved(scan@),
        set@.wf(),
{
    let lowered = to_lowercase(scan);
    classify(lowered.as_str())
}

/// Installing the packages of a driver set into the system mounted at
/// `mount_point`, all in one go. Without packages there is nothing to do. The
/// system boots without them, so a failure is worth a warning only.
pub open spec fn driver_steps(packages: Seq<Seq<char>>, mount_point: Seq<char>) -> Seq<StepView> {
    if packages.len() == 0 {
        Seq::empty()
    } else {
        seq![
            advise(
                inside(mount_point, "pacman"@, seq!["-S"@, "--noconfirm"@, "--needed"@] + packages),
                "Some driver packages may have failed - system should still work"@,
            ),
        ]
    }
}

/// The steps that install the packages of a driver set.
pub fn install_drivers(set: &DriverSet, mount_point: &str) -> (script: Script)
    ensures
        script@ == driver_steps(set@.packages, mount_point@),
{
    let mut script = Script::new();
    if set.packages.len() > 0 {
        script.push(
            Step::advise(
                Invocation::inside(mount_point, "pacman", &["-S", "--noconfirm", "--needed"]).args(
                    &set.packages,
                ),
                "Some driver packages may have failed - system should still work",
            ),
        );
    }
    assert(script@ =~~= driver_steps(set@.packages, mount_point@));
    script
}

/// The packages among `packages` that are built for 32 bits, in their order.
pub open spec fn only_32bit(packages: Seq<Seq<char>>) -> Seq<Seq<char>>
    decreases packages.len(),
{
    if packages.len() == 0 {
        Seq::empty()
    } else if is_32bit(packages.last()) {
        only_32bit(packages.drop_last()).push(packages.last())
    } else {
        only_32bit(packages.drop_last())
    }
}

/// The packages among `packages` that are built for 32 bits.
pub fn select_32bit(packages: &Vec<String>) -> (selected: Vec<String>)
    ensures
        texts(selected@) == only_32bit(texts(packages@)),
{
    let ghost all = texts(packages@);
    let mut selected: Vec<String> = Vec::new();
    let mut i: usize = 0;
    while i < packages.len()
        invariant
            i <= packages@.len(),
            all == texts(packages@),
            texts(selected@) == only_32bit(all.take(i as int)),
        decreases packages@.len() - i,
    {
        assert(all.take(i + 1).drop_last() =~= all.take(i as int));
        if str_starts_with(packages[i].as_str(), "lib32-") {
            selected.push(packages[i].clone());
        }
        i += 1;
    }
    assert(all.take(packages@.len() as int) =~= all);
    selected
}

/// The question for the package manager's configuration in the system
/// mounted at `mount_point`.
pub open spec fn repositories_query_of(mount_point: Seq<char>) -> InvocationView {
    command("cat"@, seq![mount_point + "/etc/pacman.conf"@])
}

/// The question for the package manager's configuration.
pub fn repositories_query(mount_point: &str) -> (query: Invocation)
    ensures
        query@ == repositories_query_of(mount_point@),
{
    let path = glue(mount_point, "/etc/pacman.conf");
    let query = Invocation::new("cat", &[path.as_str()]);
    query
}

/// Whether the package manager's configuration leaves the 32-bit repository
/// switched off: it does not name the repository, or names it in a comment.
pub open spec fn multilib_disabled(configuration: Seq<char>) -> bool {
    !contains(configuration, "[multilib]"@) || contains(configuration, "#[multilib]"@)
}

/// Whether the package manager's configuration leaves the 32-bit repository
/// switched off.
pub fn is_multilib_disabled(configuration: &str) -> (disabled: bool)
    ensures
        disabled == multilib_disabled(configuration@),
{
    let chars = chars_of(configuration);
    !holds(&chars, "[multilib]") || holds(&chars, "#[multilib]")
}

/// The edit that takes the comment signs off the section of the 32-bit
/// repository.
pub const ENABLE_MULTILIB: &'static str = "/^#\\[multilib\\]/,/^#Include/ s/^#//";

/// Switching the 32-bit repository on where a driver set needs it and the
/// configuration leaves it off, then installing the 32-bit packages of the
/// set once more: the one repeated attempt that the installation makes.
pub open spec fn multilib_steps(
    set: DriverSetView,
    mount_point: Seq<char>,
    configuration: Seq<char>,
) -> Seq<StepView> {
    if set.requires_32bit && multilib_disabled(configuration) {
        seq![
            attempt(
                inside(mount_point, "sed"@, seq!["-i"@, ENABLE_MULTILIB@, "/etc/pacman.conf"@]),
            ),
            attempt(inside(mount_point, "pacman"@, seq!["-Sy"@, "--noconfirm"@])),
        ] + (if only_32bit(set.packages).len() > 0 {
            seq![
                attempt(
                    inside(
                        mount_point,
                        "pacman"@,
                        seq!["-S"@, "--noconfirm"@, "--needed"@] + only_32bit(set.packages),
                    ),
                ),
            ]
        } else {
            Seq::empty()
        })
    } else {
        Seq::empty()
    }
}

/// The steps that switch the 32-bit repository on, where `configuration` is
/// the answer to [`repositories_query`].
pub fn enable_multilib(set: &DriverSet, mount_point: &str, configuration: &str) -> (script:
    Script)
    ensures
        script@ == multilib_steps(set@, mount_point@, configuration@),
{
    let mut script = Script::new();
    if set.requires_32bit && is_multilib_disabled(configuration) {
        script.push(
            Step::attempt(
                Invocation::inside(mount_point, "sed", &["-i", ENABLE_MULTILIB, "/etc/pacman.conf"]),
            ),
        );
        script.push(
            Step::attempt(Invocation::inside(mount_point, "pacman", &["-Sy", "--noconfirm"])),
        );
        let lib32 = select_32bit(&set.packages);
        if lib32.len() > 0 {
            script.push(
                Step::attempt(
                    Invocation::inside(
                        mount_point,
                        "pacman",
                        &["-S", "--noconfirm", "--needed"],
                    ).args(&lib32),
                ),
            );
        }
    }
    assert(script@ =~~= multilib_steps(set@, mount_point@, configuration@));
    script
}

impl DriverSetView {
    /// A driver set needs the 32-bit repository if and only if one of its
    /// packages is built for 32 bits, and it holds no package twice.
    pub open spec fn wf(self) -> bool {
        &&& self.requires_32bit == any_32bit(self.packages)
        &&& self.packages.no_duplicates()
    }
}

/// The names of the driver packages differ from one another.
proof fn lemma_package_names_differ()
    ensures
        (nvidia_packages() + amd_packages() + intel_packages() + broadcom_packages()).no_duplicates(),
{
    reveal_strlit("nvidia");
    reveal_strlit("nvidia-utils");
    reveal_strlit("nvidia-settings");
    reveal_strlit("lib32-nvidia-utils");
    reveal_strlit("libva-nvidia-driver");
    reveal_strlit("xf86-video-amdgpu");
    reveal_strlit("vulkan-radeon");
    reveal_strlit("lib32-vulkan-radeon");
    reveal_strlit("libva-mesa-driver");
    reveal_strlit("lib32-libva-mesa-driver");
    reveal_strlit("mesa-vdpau");
    reveal_strlit("vulkan-intel");
    reveal_strlit("lib32-vulkan-intel");
    reveal_strlit("intel-media-driver");
    reveal_strlit("broadcom-wl-dkms");
    let all = nvidia_packages() + amd_packages() + intel_packages() + broadcom_packages();
    assert forall|i: int, j: int| 0 <= i < j < all.len() implies all[i] != all[j] by {
        // Two names differ in length, or in one of their first eleven characters.
        let a = all[i];
        let b = all[j];
        assert(a.len() != b.len() || a[0] != b[0] || a[1] != b[1] || a[2] != b[2] || a[3] != b[3]
            || a[4] != b[4] || a[5] != b[5] || a[6] != b[6] || a[7] != b[7] || a[8] != b[8]
            || a[9] != b[9] || a[10] != b[10]);
    }
}

/// A list without duplicates has none when a stretch of it is taken out.
proof fn lemma_without_stretch(
    before: Seq<Seq<char>>,
    stretch: Seq<Seq<char>>,
    after: Seq<Seq<char>>,
)
    requires
        (before + stretch + after).no_duplicates(),
    ensures
        (before + after).no_duplicates(),
{
    let whole = before + stretch + after;
    let rest = before + after;
    assert forall|i: int, j: int| 0 <= i < rest.len() && 0 <= j < rest.len() && i != j implies rest[i]
        != rest[j] by {
        let at = |k: int|
            if k < before.len() {
                k
            } else {
                k + stretch.len()
            };
        assert(rest[i] == whole[at(i)]);
        assert(rest[j] == whole[at(j)]);
    }
}

/// The driver set for an inventory holds no package twice, and needs the
/// 32-bit repository if and only if one of its packages is built for 32
/// bits.
pub proof fn lemma_classified_is_wf(inventory: Seq<char>)
    ensures
        classified(inventory).wf(),
{
    lemma_package_names_differ();
    let n = group(has_nvidia(inventory), nvidia_packages());
    let a = group(has_amd(inventory), amd_packages());
    let i = group(has_intel(inventory), intel_packages());
    let none = Seq::<Seq<char>>::empty();
    // Group by group, what was not found is taken out of the list of all.
    let first = n + amd_packages() + intel_packages() + broadcom_packages();
    if !has_nvidia(inventory) {
        assert(none + nvidia_packages() + (amd_packages() + intel_packages()
            + broadcom_packages()) =~= nvidia_packages() + amd_packages() + intel_packages()
            + broadcom_packages());
        lemma_without_stretch(
            none,
            nvidia_packages(),
            amd_packages() + intel_packages() + broadcom_packages(),
        );
        assert(none + (amd_packages() + intel_packages() + broadcom_packages()) =~= first);
    }
    assert(first.no_duplicates());
    let second = n + a + intel_packages() + broadcom_packages();
    if !has_amd(inventory) {
        assert(n + amd_packages() + (intel_packages() + broadcom_packages()) =~= first);
        lemma_without_stretch(n, amd_packages(), intel_packages() + broadcom_packages());
        assert(n + (intel_packages() + broadcom_packages()) =~= second);
    }
    assert(second.no_duplicates());
    let third = n + a + i + broadcom_packages();
    if !has_intel(inventory) {
        assert(n + a + intel_packages() + broadcom_packages() =~= second);
        lemma_without_stretch(n + a, intel_packages(), broadcom_packages());
        assert(n + a + broadcom_packages() =~= third);
    }
    assert(third.no_duplicates());
    if !has_broadcom(inventory) {
        assert(n + a + i + broadcom_packages() + none =~= third);
        lemma_without_stretch(n + a + i, broadcom_packages(), none);
        assert(n + a + i + none =~= driver_packages(inventory));
    }
}

/// Whatever fails in installing drivers or in switching on the 32-bit
/// repository, the installation goes on.
pub proof fn lemma_drivers_never_fatal(
    set: DriverSetView,
    mount_point: Seq<char>,
    configuration: Seq<char>,
)
    ensures
        never_fatal(driver_steps(set.packages, mount_point)),
        never_fatal(multilib_steps(set, mount_point, configuration)),
{
}

/// Resolution is a function of the inventory: the same text gives the same
/// packages in the same order and the same need for the 32-bit repository.
pub proof fn lemma_resolution_repeats(first: Seq<char>, second: Seq<char>)
    requires
        first == second,
    ensures
        resolved(first).packages == resolved(second).packages,
        resolved(first).requires_32bit == resolved(second).requires_32bit,
{
}

/// An inventory that shows an NVIDIA graphics adapter gives a driver set with
/// a 32-bit package in it, and with the need for the 32-bit repository.
pub proof fn lemma_nvidia_requires_32bit(inventory: Seq<char>)
    requires
        has_nvidia(inventory),
    ensures
        classified(inventory).packages.contains("lib32-nvidia-utils"@),
        is_32bit("lib32-nvidia-utils"@),
        classified(inventory).requires_32bit,
{
    reveal_strlit("lib32-nvidia-utils");
    reveal_strlit("lib32-");
    let packages = driver_packages(inventory);
    assert("lib32-nvidia-utils"@.subrange(0, 6) =~= "lib32-"@);
    assert(is_32bit(packages[3]));
}

/// An inventory that shows no hardware the resolver knows gives an empty
/// driver set, without the need for the 32-bit repository.
pub proof fn lemma_unknown_hardware_gives_nothing(inventory: Seq<char>)
    requires
        !has_nvidia(inventory),
        !has_amd(inventory),
        !has_intel(inventory),
        !has_broadcom(inventory),
    ensures
        classified(inventory).packages.len() == 0,
        !classified(inventory).requires_32bit,
{
}

} // verus!
