//! The swap file: how large it is, and the steps that make it.

use vstd::prelude::*;

use crate::command::{
    advise, command, inside, never_fatal, ActionView, FailureView, Invocation, Script, Step,
    StepView,
};
use crate::config::SwapMode;
use crate::text::{decimal, decimal_text, glue};

verus! {

/// The largest swap file that the mode `File` makes, in megabytes.
pub const FILE_LIMIT_MB: u64 = 8192;

/// The size of the swap file in megabytes on a machine with `ram_mb`
/// megabytes of memory: none, half the memory, all of it, or the memory up to
/// 8192 megabytes.
pub open spec fn swap_size_mb(mode: SwapMode, ram_mb: u64) -> u64 {
    match mode {
        SwapMode::NoSwap => 0,
        SwapMode::Small => ram_mb / 2,
        SwapMode::Suspend => ram_mb,
        SwapMode::File => if ram_mb <= 8192 {
            ram_mb
        } else {
            8192
        },
    }
}

/// The size of the swap file in megabytes.
pub fn compute_size_mb(mode: SwapMode, ram_mb: u64) -> (size_mb: u64)
    ensures
        size_mb == swap_size_mb(mode, ram_mb),
{
    match mode {
        SwapMode::NoSwap => 0,
        SwapMode::Small => ram_mb / 2,
        SwapMode::Suspend => ram_mb,
        SwapMode::File => if ram_mb <= FILE_LIMIT_MB {
            ram_mb
        } else {
            FILE_LIMIT_MB
        },
    }
}

/// Whether the size of the swap file depends on the size of the memory, so
/// that the memory has to be asked for.
pub fn needs_memory(mode: SwapMode) -> (needed: bool)
    ensures
        needed == (mode != SwapMode::NoSwap),
{
    match mode {
        SwapMode::NoSwap => false,
        _ => true,
    }
}

/// The entry that registers the swap file in the file system table.
pub const FSTAB_ENTRY: &'static str = "\n# Swap file\n/swapfile none swap defaults 0 0\n";

/// Making a swap file of `size_mb` megabytes in the system mounted at
/// `mount_point`: filling it with zeros, keeping it to its owner, initialising
/// it, and registering it. A size of zero makes nothing. The system boots
/// without swap space, so a failure is worth a warning only.
pub open spec fn swap_file_steps(mount_point: Seq<char>, size_mb: u64) -> Seq<StepView> {
    if size_mb == 0 {
        Seq::empty()
    } else {
        seq![
            advise(
                command(
                    "dd"@,
                    seq![
                        "if=/dev/zero"@,
                        "of="@ + (mount_point + "/swapfile"@),
                        "bs=1M"@,
                        "count="@ + decimal(size_mb as nat),
                        "status=progress"@,
                    ],
                ),
                "Could not create the swap file"@,
            ),
            advise(
                command("chmod"@, seq!["600"@, mount_point + "/swapfile"@]),
                "Could not restrict the swap file's permissions"@,
            ),
            advise(
                inside(mount_point, "mkswap"@, seq!["/swapfile"@]),
                "Could not initialise the swap file"@,
            ),
            StepView {
                action: ActionView::Append {
                    path: mount_point + "/etc/fstab"@,
                    content: FSTAB_ENTRY@,
                },
                failure: FailureView::Warning("Could not register the swap file"@),
            },
        ]
    }
}

/// The steps that make a swap file of `size_mb` megabytes.
pub fn create_swap_file(mount_point: &str, size_mb: u64) -> (script: Script)
    ensures
        script@ == swap_file_steps(mount_point@, size_mb),
{
    let mut script = Script::new();
    if size_mb == 0 {
        return script;
    }
    let swapfile = glue(mount_point, "/swapfile");
    let target = glue("of=", swapfile.as_str());
    let size = decimal_text(size_mb);
    let count = glue("count=", size.as_str());
    let fstab = glue(mount_point, "/etc/fstab");
    script.push(
        Step::advise(
            Invocation::new(
                "dd",
                &["if=/dev/zero", target.as_str(), "bs=1M", count.as_str(), "status=progress"],
            ),
            "Could not create the swap file",
        ),
    );
    script.push(
        Step::advise(
            Invocation::new("chmod", &["600", swapfile.as_str()]),
            "Could not restrict the swap file's permissions",
        ),
    );
    script.push(
        Step::advise(
            Invocation::inside(mount_point, "mkswap", &["/swapfile"]),
            "Could not initialise the swap file",
        ),
    );
    script.push(
        Step::append(fstab.as_str(), FSTAB_ENTRY).or_warn("Could not register the swap file"),
    );
    assert(script@ =~~= swap_file_steps(mount_point@, size_mb));
    script
}

/// Setting up swap space by `mode` on a machine with `ram_mb` megabytes of
/// memory.
pub open spec fn swap_steps(mode: SwapMode, mount_point: Seq<char>, ram_mb: u64) -> Seq<StepView> {
    swap_file_steps(mount_point, swap_size_mb(mode, ram_mb))
}

/// The steps that set up swap space by `mode`.
pub fn setup_swap(mode: SwapMode, mount_point: &str, ram_mb: u64) -> (script: Script)
    ensures
        script@ == swap_steps(mode, mount_point@, ram_mb),
{
    create_swap_file(mount_point, compute_size_mb(mode, ram_mb))
}

/// A swap file is made if and only if swap space is asked for and the size
/// that follows from the memory is not zero; and whatever fails in making it,
/// the installation goes on.
pub proof fn lemma_swap_file_made(mode: SwapMode, mount_point: Seq<char>, ram_mb: u64)
    ensures
        swap_steps(mode, mount_point, ram_mb).len() > 0 <==> mode != SwapMode::NoSwap
            && swap_size_mb(mode, ram_mb) > 0,
        never_fatal(swap_steps(mode, mount_point, ram_mb)),
{
}

} // verus!
