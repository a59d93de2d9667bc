//! The provisioning core of an operating-system installer.
//!
//! The library decides; it does not act. It plans the partition layout of a
//! disk, sizes the swap file, resolves hardware drivers, chooses between a
//! conventional bootloader and a firmware boot entry, and sequences the whole
//! installation. Whatever has to happen on the machine comes out as
//! [`command::Step`]s, and the answers come back in as [`command::Reply`]s.
//!
//! - [`command`]: steps, scripts and replies.
//! - [`text`]: searching, trimming and splitting text, and decimal numbers.
//! - [`config`]: the configuration record and what a configuration file
//!   makes of it.
//! - [`disk`]: the partitioning scheme, the names of the partitions, and the
//!   steps that partition, format, mount and unmount.
//! - [`swap`]: the size of the swap file and the steps that make it.
//! - [`drivers`]: from the hardware inventory to driver packages.
//! - [`packages`]: the packages of the base system.
//! - [`system`]: clock, names, locale, input method and accounts.
//! - [`boot`]: the bootloader, or the direct boot from the firmware.
//! - [`finalize`]: branding, helper programs, and unmounting.
//! - [`installer`]: the installation as a state machine over all of these.
//! - [`summary`], [`prompt`], [`setup`]: what the user is shown and asked
//!   before the installation, and how the answers are read.

pub mod command;
pub mod text;
pub mod config;
pub mod disk;
pub mod swap;
pub mod drivers;
pub mod packages;
pub mod system;
pub mod boot;
pub mod finalize;
pub mod installer;
pub mod summary;
pub mod prompt;
pub mod setup;
