use blunux_installer::command::{Invocation, Step};
use blunux_installer::config::SwapMode;
use blunux_installer::swap::{
    compute_size_mb, create_swap_file, needs_memory, setup_swap, FILE_LIMIT_MB, FSTAB_ENTRY,
};

#[test]
fn swap_sizes_for_eight_gigabytes() {
    assert_eq!(compute_size_mb(SwapMode::Small, 8192), 4096);
    assert_eq!(compute_size_mb(SwapMode::Suspend, 8192), 8192);
    assert_eq!(compute_size_mb(SwapMode::File, 8192), 8192);
    assert_eq!(compute_size_mb(SwapMode::NoSwap, 8192), 0);
}

#[test]
fn swap_file_mode_is_capped() {
    assert_eq!(compute_size_mb(SwapMode::File, 16384), 8192);
    assert_eq!(compute_size_mb(SwapMode::File, 8193), 8192);
    assert_eq!(compute_size_mb(SwapMode::File, 4000), 4000);
    assert_eq!(compute_size_mb(SwapMode::File, u64::MAX), 8192);
    assert_eq!(FILE_LIMIT_MB, 8192);
}

#[test]
fn swap_small_rounds_down() {
    assert_eq!(compute_size_mb(SwapMode::Small, 4095), 2047);
    assert_eq!(compute_size_mb(SwapMode::Small, 1), 0);
    assert_eq!(compute_size_mb(SwapMode::Small, 0), 0);
    assert_eq!(compute_size_mb(SwapMode::Small, u64::MAX), u64::MAX / 2);
}

#[test]
fn swap_suspend_is_all_the_memory() {
    assert_eq!(compute_size_mb(SwapMode::Suspend, 16384), 16384);
    assert_eq!(compute_size_mb(SwapMode::Suspend, 0), 0);
    assert_eq!(compute_size_mb(SwapMode::Suspend, u64::MAX), u64::MAX);
}

#[test]
fn memory_is_needed_unless_swap_is_off() {
    assert!(!needs_memory(SwapMode::NoSwap));
    assert!(needs_memory(SwapMode::Small));
    assert!(needs_memory(SwapMode::Suspend));
    assert!(needs_memory(SwapMode::File));
}

#[test]
fn swap_file_of_size_zero_makes_nothing() {
    assert!(create_swap_file("/mnt", 0).steps.is_empty());
    assert!(setup_swap(SwapMode::NoSwap, "/mnt", 8192).steps.is_empty());
    assert!(setup_swap(SwapMode::Small, "/mnt", 1).steps.is_empty());
    assert!(setup_swap(SwapMode::Suspend, "/mnt", 0).steps.is_empty());
}

#[test]
fn swap_file_steps() {
    let script = create_swap_file("/mnt", 4096);
    let expected = vec![
        Step::advise(
            Invocation::new(
                "dd",
                &["if=/dev/zero", "of=/mnt/swapfile", "bs=1M", "count=4096", "status=progress"],
            ),
            "Could not create the swap file",
        ),
        Step::advise(
            Invocation::new("chmod", &["600", "/mnt/swapfile"]),
            "Could not restrict the swap file's permissions",
        ),
        Step::advise(
            Invocation::inside("/mnt", "mkswap", &["/swapfile"]),
            "Could not initialise the swap file",
        ),
        Step::append("/mnt/etc/fstab", "\n# Swap file\n/swapfile none swap defaults 0 0\n")
            .or_warn("Could not register the swap file"),
    ];
    assert_eq!(script.steps, expected);
    assert_eq!(FSTAB_ENTRY, "\n# Swap file\n/swapfile none swap defaults 0 0\n");
}

#[test]
fn setup_swap_sizes_the_file_by_the_mode() {
    assert_eq!(setup_swap(SwapMode::Small, "/mnt", 8192), create_swap_file("/mnt", 4096));
    assert_eq!(setup_swap(SwapMode::Suspend, "/mnt", 8192), create_swap_file("/mnt", 8192));
    assert_eq!(setup_swap(SwapMode::File, "/mnt", 16384), create_swap_file("/mnt", 8192));
}

#[test]
fn no_swap_step_is_fatal() {
    for step in &create_swap_file("/mnt", 1).steps {
        assert!(!step.is_fatal());
    }
}
