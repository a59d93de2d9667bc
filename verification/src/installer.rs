//! The installation as a whole: a fixed order of stations, each with the
//! steps that the host carries out, and the rule that the first fatal failure
//! ends the run.
//!
//! The installer is a state machine. [`Installer::install`] takes the host's
//! answer to the step before and gives the next step, until it says that the
//! installation is finished.

use vstd::prelude::*;
use vstd::string::StringExecFns;

use crate::boot::{
    boot_path, boot_steps, conventional_steps, install_bootloader, select_boot_path, uuid_query,
    uuid_query_of, BootPath,
};
use crate::command::{
    attempt, capture, exists_at, never_fatal, FailureView, Reply, ReplyView, Script, Step, StepView,
};
use crate::config::{Config, ConfigView, SwapMode};
use crate::disk::{
    derive_names, format_partitions, format_steps, fstab_steps, generate_fstab, get_ram_mb,
    layout_of, lemma_format_all_fatal, lemma_layout_is_wf, lemma_unmount_never_fatal, memory_query,
    memory_query_of, mount_partitions, mount_steps, partition_disk, partition_steps,
    partitions_query, partitions_query_of, plan, ram_mb_of, scheme_for, unmount_partitions,
    unmount_steps, LayoutView, PartitionLayout, FIRMWARE_DIRECTORY, ROOT_MOUNT_STEP,
};
use crate::drivers::{
    driver_steps, enable_multilib, hardware_query, hardware_query_of, install_drivers,
    lemma_drivers_never_fatal, multilib_steps, repositories_query, repositories_query_of, resolve,
    resolved, DriverSet, DriverSetView,
};
use crate::finalize::{
    branding_probe, branding_probe_of, finalize, finalize_steps, is_kime_set_up,
    lemma_finalize_never_fatal, release_probe, release_probe_of, sets_up_kime, window_rules_file,
    window_rules_path,
};
use crate::packages::{base_system_steps, install_base_system, wants_direct_boot};
use crate::swap::{lemma_swap_file_made, needs_memory, setup_swap, swap_steps};
use crate::system::{
    configure_input_method, configure_locale, configure_system, configure_users, input_method_steps,
    lemma_configuration_never_fatal, locale_steps, system_steps, user_steps,
};

verus! {

/// Where an installation stands. The stations follow one another in the
/// order in which they are written here, up to `Finalize`; after a fatal
/// failure the installation goes to `Teardown`, where a root file system was
/// mounted, and is then `Finished`.
#[derive(Debug, Clone, Copy, PartialEq, Eq, Structural)]
pub enum Station {
    /// Nothing has been asked of the host yet.
    Idle,
    /// Asking how the machine was started.
    Firmware,
    /// Asking for the partitions that the target disk has.
    Listing,
    /// Partitioning the target disk.
    Partition,
    /// Formatting the partitions.
    Format,
    /// Mounting the partitions.
    Mount,
    /// Installing the base system.
    BaseSystem,
    /// Generating the file system table.
    Fstab,
    /// Configuring clock, names and services.
    System,
    /// Asking for the size of the memory.
    Memory,
    /// Making the swap file.
    Swap,
    /// Asking for the hardware of the machine.
    Inventory,
    /// Installing the hardware drivers.
    Drivers,
    /// Asking for the repositories that the package manager uses.
    Repositories,
    /// Switching on the 32-bit repository for the drivers that need it.
    Multilib,
    /// Configuring the locale.
    Locale,
    /// Configuring the input method.
    InputMethod,
    /// Setting up the accounts.
    Users,
    /// Asking for the identifier of the root file system.
    RootUuid,
    /// Making the system bootable.
    Bootloader,
    /// Asking whether the installation medium carries the branding.
    Branding,
    /// Asking whether the installation medium says what release it is.
    Release,
    /// Asking whether the user has rules for the window manager.
    WindowRules,
    /// Finishing, and unmounting the installed system.
    Finalize,
    /// Unmounting the installed system after a fatal failure.
    Teardown,
    /// Nothing is left to do.
    Finished,
}

/// The station that follows `station` when nothing fails.
pub open spec fn next_station(station: Station) -> Station {
    match station {
        Station::Idle => Station::Firmware,
        Station::Firmware => Station::Listing,
        Station::Listing => Station::Partition,
        Station::Partition => Station::Format,
        Station::Format => Station::Mount,
        Station::Mount => Station::BaseSystem,
        Station::BaseSystem => Station::Fstab,
        Station::Fstab => Station::System,
        Station::System => Station::Memory,
        Station::Memory => Station::Swap,
        Station::Swap => Station::Inventory,
        Station::Inventory => Station::Drivers,
        Station::Drivers => Station::Repositories,
        Station::Repositories => Station::Multilib,
        Station::Multilib => Station::Locale,
        Station::Locale => Station::InputMethod,
        Station::InputMethod => Station::Users,
        Station::Users => Station::RootUuid,
        Station::RootUuid => Station::Bootloader,
        Station::Bootloader => Station::Branding,
        Station::Branding => Station::Release,
        Station::Release => Station::WindowRules,
        Station::WindowRules => Station::Finalize,
        Station::Finalize => Station::Finished,
        Station::Teardown => Station::Finished,
        Station::Finished => Station::Finished,
    }
}

/// How many stations can still follow `station`.
pub open spec fn stations_left(station: Station) -> nat {
    match station {
        Station::Idle => 25,
        Station::Firmware => 24,
        Station::Listing => 23,
        Station::Partition => 22,
        Station::Format => 21,
        Station::Mount => 20,
        Station::BaseSystem => 19,
        Station::Fstab => 18,
        Station::System => 17,
        Station::Memory => 16,
        Station::Swap => 15,
        Station::Inventory => 14,
        Station::Drivers => 13,
        Station::Repositories => 12,
        Station::Multilib => 11,
        Station::Locale => 10,
        Station::InputMethod => 9,
        Station::Users => 8,
        Station::RootUuid => 7,
        Station::Bootloader => 6,
        Station::Branding => 5,
        Station::Release => 4,
        Station::WindowRules => 3,
        Station::Finalize => 2,
        Station::Teardown => 1,
        Station::Finished => 0,
    }
}

/// The part of the installation that `station` belongs to, counted from one:
/// preparing the disk, the base system, the file system table, configuring
/// the system, the drivers, the packages, the locale, the accounts, booting,
/// finishing. The sixth part, the packages, has no station: the base system
/// brings them. A station that does no part of the work counts as zero.
pub open spec fn part_of(station: Station) -> u8 {
    match station {
        Station::Idle | Station::Teardown | Station::Finished => 0,
        Station::Firmware
        | Station::Listing
        | Station::Partition
        | Station::Format
        | Station::Mount => 1,
        Station::BaseSystem => 2,
        Station::Fstab => 3,
        Station::System | Station::Memory | Station::Swap => 4,
        Station::Inventory | Station::Drivers | Station::Repositories | Station::Multilib => 5,
        Station::Locale | Station::InputMethod => 7,
        Station::Users => 8,
        Station::RootUuid | Station::Bootloader => 9,
        Station::Branding | Station::Release | Station::WindowRules | Station::Finalize => 10,
    }
}

/// The number of parts that an installation has.
pub const PARTS: u8 = 10;

/// The part of the installation that `station` belongs to.
pub fn part(station: Station) -> (number: u8)
    ensures
        number == part_of(station),
        number <= PARTS,
{
    match station {
        Station::Idle | Station::Teardown | Station::Finished => 0,
        Station::Firmware
        | Station::Listing
        | Station::Partition
        | Station::Format
        | Station::Mount => 1,
        Station::BaseSystem => 2,
        Station::Fstab => 3,
        Station::System | Station::Memory | Station::Swap => 4,
        Station::Inventory | Station::Drivers | Station::Repositories | Station::Multilib => 5,
        Station::Locale | Station::InputMethod => 7,
        Station::Users => 8,
        Station::RootUuid | Station::Bootloader => 9,
        Station::Branding | Station::Release | Station::WindowRules | Station::Finalize => 10,
    }
}

/// Whether the target disk is partitioned when the installation stands at
/// `station` without having failed.
pub open spec fn follows_partition(station: Station) -> bool {
    match station {
        Station::Idle
        | Station::Firmware
        | Station::Listing
        | Station::Partition
        | Station::Teardown
        | Station::Finished => false,
        _ => true,
    }
}

/// Whether `station` comes before the target disk is partitioned.
pub open spec fn precedes_format(station: Station) -> bool {
    match station {
        Station::Idle | Station::Firmware | Station::Listing | Station::Partition => true,
        _ => false,
    }
}

/// Whether `station` comes after the partitions are mounted and before the
/// installed system is unmounted again.
pub open spec fn follows_mount(station: Station) -> bool {
    match station {
        Station::Idle
        | Station::Firmware
        | Station::Listing
        | Station::Partition
        | Station::Format
        | Station::Mount
        | Station::Teardown
        | Station::Finished => false,
        _ => true,
    }
}

/// Whether `station` comes before the root file system is mounted.
pub open spec fn precedes_mount(station: Station) -> bool {
    match station {
        Station::Idle
        | Station::Firmware
        | Station::Listing
        | Station::Partition
        | Station::Format => true,
        _ => false,
    }
}

/// What the installer asks of the host.
#[derive(Debug, PartialEq, Eq)]
pub enum Request {
    /// Carry out the step and answer with what came of it.
    Perform(Step),
    /// Nothing more: the installation has succeeded, or it has failed.
    Finished(bool),
}

/// A [`Request`] as the texts that it holds.
pub enum RequestView {
    Perform(StepView),
    Finished(bool),
}

impl View for Request {
    type V = RequestView;

    open spec fn view(&self) -> RequestView {
        match self {
            Request::Perform(step) => RequestView::Perform(step@),
            Request::Finished(success) => RequestView::Finished(*success),
        }
    }
}

/// An installation in the course of its run.
pub struct Installer {
    config: Config,
    error_message: String,
    mount_point: String,
    partition_layout: PartitionLayout,
    station: Station,
    script: Script,
    cursor: usize,
    failed: bool,
    firmware_is_uefi: bool,
    mounted: bool,
    answer: String,
    drivers: DriverSet,
    branded: bool,
    released: bool,
    ruled: bool,
}

/// What an installation knows: what it was told, and what it has learnt
/// from the host.
pub struct Facts {
    /// What the installer was told.
    pub config: ConfigView,
    /// Where the installed system is mounted.
    pub mount_point: Seq<char>,
    /// The partitions of the target disk, once it is partitioned.
    pub layout: LayoutView,
    /// Whether the machine was started by UEFI firmware.
    pub firmware_is_uefi: bool,
    /// What the host printed in answer to the last question.
    pub answer: Seq<char>,
    /// The drivers for the hardware of the machine.
    pub drivers: DriverSetView,
    /// Whether the installation medium carries the branding.
    pub branded: bool,
    /// Whether the installation medium says what release it is.
    pub released: bool,
    /// Whether the user has rules for the window manager.
    pub ruled: bool,
}

/// The state of an installation.
pub struct Model {
    /// What the installation knows.
    pub facts: Facts,
    /// What went wrong; empty while nothing has.
    pub error: Seq<char>,
    /// Where the installation stands.
    pub station: Station,
    /// The steps of the station.
    pub script: Seq<StepView>,
    /// The position of the step that the host was asked to carry out.
    pub cursor: int,
    /// Whether a fatal failure has occurred.
    pub failed: bool,
    /// Whether the root file system is mounted.
    pub mounted: bool,
}

/// The steps of `station` for an installation that knows `m`. A station
/// that asks a question has the question as its one step; a station with
/// nothing to do has none.
#[verifier::opaque]
pub open spec fn script_at(m: Facts, station: Station) -> Seq<StepView> {
    let cfg = m.config;
    let root = m.mount_point;
    match station {
        Station::Idle => Seq::empty(),
        Station::Firmware => seq![exists_at(FIRMWARE_DIRECTORY@)],
        Station::Listing => seq![capture(partitions_query_of(cfg.install.target_disk))],
        Station::Partition => partition_steps(
            cfg.install.target_disk,
            scheme_for(m.firmware_is_uefi),
            m.answer,
        ),
        Station::Format => format_steps(
            m.layout,
            cfg.install.use_encryption,
            cfg.install.encryption_password,
        ),
        Station::Mount => mount_steps(m.layout, root, cfg.install.use_encryption),
        Station::BaseSystem => base_system_steps(cfg, root),
        Station::Fstab => fstab_steps(root),
        Station::System => system_steps(cfg, root),
        Station::Memory => if cfg.disk.swap != SwapMode::NoSwap {
            seq![capture(memory_query_of())]
        } else {
            Seq::empty()
        },
        Station::Swap => if cfg.disk.swap != SwapMode::NoSwap {
            swap_steps(cfg.disk.swap, root, ram_mb_of(m.answer))
        } else {
            Seq::empty()
        },
        Station::Inventory => seq![capture(hardware_query_of())],
        Station::Drivers => driver_steps(m.drivers.packages, root),
        Station::Repositories => if m.drivers.requires_32bit {
            seq![capture(repositories_query_of(root))]
        } else {
            Seq::empty()
        },
        Station::Multilib => if m.drivers.requires_32bit {
            multilib_steps(m.drivers, root, m.answer)
        } else {
            Seq::empty()
        },
        Station::Locale => locale_steps(cfg, root),
        Station::InputMethod => input_method_steps(cfg, root),
        Station::Users => user_steps(cfg, root),
        Station::RootUuid => if boot_path(cfg.install.bootloader, m.firmware_is_uefi)
            == BootPath::DirectBoot {
            seq![capture(uuid_query_of(m.layout.root_partition))]
        } else {
            Seq::empty()
        },
        Station::Bootloader => boot_steps(cfg, m.layout, root, m.firmware_is_uefi, m.answer),
        Station::Branding => seq![attempt(branding_probe_of())],
        Station::Release => seq![attempt(release_probe_of())],
        Station::WindowRules => if sets_up_kime(cfg) {
            seq![exists_at(window_rules_path(cfg, root))]
        } else {
            Seq::empty()
        },
        Station::Finalize => finalize_steps(cfg, root, m.branded, m.released, m.ruled),
        Station::Teardown => unmount_steps(root),
        Station::Finished => Seq::empty(),
    }
}

/// What an installation knows once the host has answered the step of
/// `station` with `reply`.
pub open spec fn learned(m: Facts, station: Station, reply: ReplyView) -> Facts {
    match station {
        Station::Firmware => Facts { firmware_is_uefi: reply.success, ..m },
        Station::Listing | Station::Memory | Station::Repositories | Station::RootUuid => Facts {
            answer: reply.output,
            ..m
        },
        Station::Inventory => Facts { drivers: resolved(reply.output), ..m },
        Station::Branding => Facts { branded: reply.success, ..m },
        Station::Release => Facts { released: reply.success, ..m },
        Station::WindowRules => Facts { ruled: reply.success, ..m },
        _ => m,
    }
}

/// The state after the host has carried out the step at the cursor and
/// answered with `reply`: what the answer tells is kept, and the root file
/// system counts as mounted once the step that mounts it is done.
pub open spec fn absorbed(m: Model, reply: ReplyView) -> Model {
    Model {
        facts: learned(m.facts, m.station, reply),
        mounted: m.mounted || (m.station == Station::Mount && m.cursor == ROOT_MOUNT_STEP),
        ..m
    }
}

/// What an installation knows on leaving `station` with all its steps done.
/// A disk that has been partitioned has its layout from then on.
pub open spec fn known_after(m: Facts, station: Station) -> Facts {
    match station {
        Station::Partition => Facts {
            layout: layout_of(m.config.install.target_disk, scheme_for(m.firmware_is_uefi)),
            ..m
        },
        _ => m,
    }
}

/// Whether the host is asked for something in the state `m`, or told that
/// nothing is left.
pub open spec fn at_rest(m: Model) -> bool {
    m.station == Station::Finished || 0 <= m.cursor < m.script.len()
}

/// The state at the start of the station that follows the station of `m`.
pub open spec fn moved(m: Model) -> Model {
    let next = next_station(m.station);
    let facts = known_after(m.facts, m.station);
    Model { facts, station: next, script: script_at(facts, next), cursor: 0, ..m }
}

/// The state in which the host is asked for something or told that nothing
/// is left: stations whose steps are done are left behind, one after the
/// other.
#[verifier::opaque]
pub open spec fn settled(m: Model) -> Model
    decreases stations_left(m.station),
{
    if at_rest(m) {
        m
    } else {
        settled(moved(m))
    }
}

/// What the failure of the step at the cursor is called. The failures of
/// partitioning, formatting and mounting go by the name of their station, any
/// other by the text of the step.
pub open spec fn failure_text(m: Model) -> Seq<char> {
    match m.station {
        Station::Partition => "Failed to partition disk"@,
        Station::Format => "Failed to format partitions"@,
        Station::Mount => "Failed to mount partitions"@,
        _ => match m.script[m.cursor].failure {
            FailureView::Fatal(text) => text,
            _ => Seq::empty(),
        },
    }
}

/// The state after the step at the cursor has failed fatally: the failure is
/// recorded, and the installation goes on to unmount what it has mounted, or
/// is finished where it has mounted nothing.
pub open spec fn aborted(m: Model) -> Model {
    let station = if m.mounted && m.station != Station::Teardown {
        Station::Teardown
    } else {
        Station::Finished
    };
    Model {
        error: failure_text(m),
        failed: true,
        station,
        script: script_at(m.facts, station),
        cursor: 0,
        ..m
    }
}

/// The state after the host has answered with `reply`. Once the
/// installation is finished nothing changes any more. Where no step is
/// waiting for an answer, as before the first step, the reply is not read and
/// the installation moves on to its next step. The failure of a fatal step
/// ends the run; every other answer is taken in, and the installation moves
/// on.
pub open spec fn advance(m: Model, reply: ReplyView) -> Model {
    if m.station == Station::Finished {
        m
    } else if !(0 <= m.cursor < m.script.len()) {
        settled(m)
    } else if !reply.success && m.script[m.cursor].is_fatal() {
        aborted(m)
    } else {
        settled(Model { cursor: m.cursor + 1, ..absorbed(m, reply) })
    }
}

/// What the host is asked in the state `m`.
pub open spec fn request_of(m: Model) -> RequestView {
    if m.station == Station::Finished {
        RequestView::Finished(!m.failed)
    } else {
        RequestView::Perform(m.script[m.cursor])
    }
}

impl Model {
    /// The states that an installation can be in.
    pub open spec fn wf(self) -> bool {
        &&& self.station == Station::Idle ==> self.cursor == 0 && self.script.len() == 0
        &&& self.station != Station::Idle && self.station != Station::Finished ==> 0
            <= self.cursor < self.script.len()
        &&& self.script == script_at(self.facts, self.station)
        &&& precedes_mount(self.station) ==> !self.mounted
        &&& self.station == Station::Mount ==> (self.mounted <==> self.cursor > ROOT_MOUNT_STEP)
        &&& follows_mount(self.station) ==> self.mounted
        &&& self.station == Station::Teardown ==> self.mounted
        &&& self.failed ==> self.station == Station::Teardown || self.station
            == Station::Finished
        &&& self.station == Station::Teardown ==> self.failed
        &&& !self.failed ==> self.error.len() == 0
        &&& precedes_format(self.station) ==> self.facts.layout == LayoutView::unset()
        &&& follows_partition(self.station) ==> self.facts.layout == layout_of(
            self.facts.config.install.target_disk,
            scheme_for(self.facts.firmware_is_uefi),
        )
    }

    /// The state before anything has been asked of the host.
    pub open spec fn initial(config: ConfigView) -> Model {
        Model {
            facts: Facts {
                config,
                mount_point: "/mnt"@,
                layout: LayoutView::unset(),
                firmware_is_uefi: false,
                answer: Seq::empty(),
                drivers: DriverSetView { packages: Seq::empty(), requires_32bit: false },
                branded: false,
                released: false,
                ruled: false,
            },
            error: Seq::empty(),
            station: Station::Idle,
            script: Seq::empty(),
            cursor: 0,
            failed: false,
            mounted: false,
        }
    }
}

impl View for Installer {
    type V = Model;

    closed spec fn view(&self) -> Model {
        Model {
            facts: Facts {
                config: self.config@,
                mount_point: self.mount_point@,
                layout: self.partition_layout@,
                firmware_is_uefi: self.firmware_is_uefi,
                answer: self.answer@,
                drivers: self.drivers@,
                branded: self.branded,
                released: self.released,
                ruled: self.ruled,
            },
            error: self.error_message@,
            station: self.station,
            script: self.script@,
            cursor: self.cursor as int,
            failed: self.failed,
            mounted: self.mounted,
        }
    }
}

/// The station that follows `station` when nothing fails.
pub fn station_after(station: Station) -> (next: Station)
    ensures
        next == next_station(station),
{
    match station {
        Station::Idle => Station::Firmware,
        Station::Firmware => Station::Listing,
        Station::Listing => Station::Partition,
        Station::Partition => Station::Format,
        Station::Format => Station::Mount,
        Station::Mount => Station::BaseSystem,
        Station::BaseSystem => Station::Fstab,
        Station::Fstab => Station::System,
        Station::System => Station::Memory,
        Station::Memory => Station::Swap,
        Station::Swap => Station::Inventory,
        Station::Inventory => Station::Drivers,
        Station::Drivers => Station::Repositories,
        Station::Repositories => Station::Multilib,
        Station::Multilib => Station::Locale,
        Station::Locale => Station::InputMethod,
        Station::InputMethod => Station::Users,
        Station::Users => Station::RootUuid,
        Station::RootUuid => Station::Bootloader,
        Station::Bootloader => Station::Branding,
        Station::Branding => Station::Release,
        Station::Release => Station::WindowRules,
        Station::WindowRules => Station::Finalize,
        Station::Finalize => Station::Finished,
        Station::Teardown => Station::Finished,
        Station::Finished => Station::Finished,
    }
}

fn question(step: Step) -> (script: Script)
    ensures
        script@ == seq![step@],
{
    let mut script = Script::new();
    script.push(step);
    script
}

impl Installer {
    /// An installation by `config` that has not begun.
    pub fn new(config: Config) -> (installer: Installer)
        ensures
            installer@ == Model::initial(config@),
            installer@.wf(),
    {
        proof {
            reveal(script_at);
        }
        let drivers = DriverSet { packages: Vec::new(), requires_32bit: false };
        assert(drivers@.packages =~= Seq::<Seq<char>>::empty());
        Installer {
            config,
            error_message: String::new(),
            mount_point: String::from_str("/mnt"),
            partition_layout: PartitionLayout::unset(),
            station: Station::Idle,
            script: Script::new(),
            cursor: 0,
            failed: false,
            firmware_is_uefi: false,
            mounted: false,
            answer: String::new(),
            drivers,
            branded: false,
            released: false,
            ruled: false,
        }
    }

    /// What went wrong; empty while nothing has.
    pub fn get_error(&self) -> (error: &str)
        ensures
            error@ == self@.error,
    {
        self.error_message.as_str()
    }

    /// Where the installation stands.
    pub fn station(&self) -> (station: Station)
        ensures
            station == self@.station,
    {
        self.station
    }

    /// Where the installed system is mounted.
    pub fn mount_point(&self) -> (path: &str)
        ensures
            path@ == self@.facts.mount_point,
    {
        self.mount_point.as_str()
    }

    /// The partitions of the target disk, once it is partitioned.
    pub fn partition_layout(&self) -> (layout: &PartitionLayout)
        ensures
            layout@ == self@.facts.layout,
    {
        &self.partition_layout
    }

    /// The drivers for the hardware of the machine, once it has been asked
    /// for.
    pub fn drivers(&self) -> (drivers: &DriverSet)
        ensures
            drivers@ == self@.facts.drivers,
    {
        &self.drivers
    }

    /// The steps of `station` in the state of the installer.
    fn script_for(&self, station: Station) -> (script: Script)
        ensures
            script@ == script_at(self@.facts, station),
    {
        proof {
            reveal(script_at);
        }
        let cfg = &self.config;
        let root = self.mount_point.as_str();
        let disk = cfg.install.target_disk.as_str();
        match station {
            Station::Idle => Script::new(),
            Station::Firmware => question(Step::exists_at(FIRMWARE_DIRECTORY)),
            Station::Listing => question(Step::capture(partitions_query(disk))),
            Station::Partition => partition_disk(
                disk,
                plan(disk, self.firmware_is_uefi),
                self.answer.as_str(),
            ),
            Station::Format => format_partitions(
                &self.partition_layout,
                cfg.install.use_encryption,
                cfg.install.encryption_password.as_str(),
            ),
            Station::Mount => mount_partitions(
                &self.partition_layout,
                root,
                cfg.install.use_encryption,
            ),
            Station::BaseSystem => install_base_system(cfg, root),
            Station::Fstab => generate_fstab(root),
            Station::System => configure_system(cfg, root),
            Station::Memory => if needs_memory(cfg.disk.swap) {
                question(Step::capture(memory_query()))
            } else {
                Script::new()
            },
            Station::Swap => if needs_memory(cfg.disk.swap) {
                setup_swap(cfg.disk.swap, root, get_ram_mb(self.answer.as_str()))
            } else {
                Script::new()
            },
            Station::Inventory => question(Step::capture(hardware_query())),
            Station::Drivers => install_drivers(&self.drivers, root),
            Station::Repositories => if self.drivers.requires_32bit {
                question(Step::capture(repositories_query(root)))
            } else {
                Script::new()
            },
            Station::Multilib => if self.drivers.requires_32bit {
                enable_multilib(&self.drivers, root, self.answer.as_str())
            } else {
                Script::new()
            },
            Station::Locale => configure_locale(cfg, root),
            Station::InputMethod => configure_input_method(cfg, root),
            Station::Users => configure_users(cfg, root),
            Station::RootUuid => match select_boot_path(
                cfg.install.bootloader.as_str(),
                self.firmware_is_uefi,
            ) {
                BootPath::DirectBoot => question(
                    Step::capture(uuid_query(self.partition_layout.root_partition.as_str())),
                ),
                BootPath::Conventional => Script::new(),
            },
            Station::Bootloader => install_bootloader(
                cfg,
                &self.partition_layout,
                root,
                self.firmware_is_uefi,
                self.answer.as_str(),
            ),
            Station::Branding => question(Step::attempt(branding_probe())),
            Station::Release => question(Step::attempt(release_probe())),
            Station::WindowRules => if is_kime_set_up(cfg) {
                question(Step::exists_at(window_rules_file(cfg, root).as_str()))
            } else {
                Script::new()
            },
            Station::Finalize => finalize(cfg, root, self.branded, self.released, self.ruled),
            Station::Teardown => unmount_partitions(root),
            Station::Finished => Script::new(),
        }
    }

    /// Keeps what the answer to the step at the cursor tells.
    fn absorb(&mut self, reply: Reply)
        ensures
            final(self)@ == absorbed(old(self)@, reply@),
    {
        match self.station {
            Station::Firmware => {
                self.firmware_is_uefi = reply.success;
            },
            Station::Listing | Station::Memory | Station::Repositories | Station::RootUuid => {
                self.answer = reply.output;
            },
            Station::Inventory => {
                self.drivers = resolve(reply.output.as_str());
            },
            Station::Mount => {
                self.mounted = self.mounted || self.cursor == ROOT_MOUNT_STEP;
            },
            Station::Branding => {
                self.branded = reply.success;
            },
            Station::Release => {
                self.released = reply.success;
            },
            Station::WindowRules => {
                self.ruled = reply.success;
            },
            _ => {},
        }
    }

    /// Goes to the start of the next station.
    fn move_on(&mut self)
        ensures
            final(self)@ == moved(old(self)@),
    {
        if self.station == Station::Partition {
            let disk = self.config.install.target_disk.as_str();
            self.partition_layout = derive_names(disk, plan(disk, self.firmware_is_uefi));
        }
        let next = station_after(self.station);
        let script = self.script_for(next);
        self.station = next;
        self.script = script;
        self.cursor = 0;
    }

    /// Leaves behind the stations whose steps are done.
    fn settle(&mut self)
        ensures
            final(self)@ == settled(old(self)@),
    {
        while self.station != Station::Finished && self.cursor >= self.script.len()
            invariant
                settled(self@) == settled(old(self)@),
            decreases stations_left(self@.station),
        {
            proof {
                reveal(settled);
            }
            self.move_on();
        }
        proof {
            reveal(settled);
        }
    }

    /// Takes in the answer to the step at the cursor and goes past the step.
    fn take(&mut self, reply: Reply)
        requires
            old(self)@.cursor < old(self)@.script.len(),
        ensures
            final(self)@ == (Model { cursor: old(self)@.cursor + 1, ..absorbed(old(self)@, reply@) }),
    {
        let count: usize = self.script.len();
        self.absorb(reply);
        assert(self.cursor < count);
        self.cursor = self.cursor + 1;
    }

    /// Records the fatal failure of the step at the cursor.
    fn abort(&mut self)
        requires
            0 <= old(self)@.cursor < old(self)@.script.len(),
        ensures
            final(self)@ == aborted(old(self)@),
    {
        let text = match self.station {
            Station::Partition => String::from_str("Failed to partition disk"),
            Station::Format => String::from_str("Failed to format partitions"),
            Station::Mount => String::from_str("Failed to mount partitions"),
            _ => match &self.script.step(self.cursor).failure {
                crate::command::Failure::Fatal(text) => text.clone(),
                _ => String::new(),
            },
        };
        let station = if self.mounted && self.station != Station::Teardown {
            Station::Teardown
        } else {
            Station::Finished
        };
        let script = self.script_for(station);
        self.error_message = text;
        self.failed = true;
        self.station = station;
        self.script = script;
        self.cursor = 0;
    }

    /// Goes from one state to the next.
    fn forward(&mut self, reply: Reply)
        ensures
            final(self)@ == advance(old(self)@, reply@),
    {
        if self.station == Station::Finished {
        } else if self.cursor >= self.script.len() {
            self.settle();
        } else if !reply.success && self.script.step(self.cursor).is_fatal() {
            self.abort();
        } else {
            self.take(reply);
            self.settle();
        }
    }

    /// What the host is asked for.
    fn request(&self) -> (request: Request)
        requires
            at_rest(self@),
        ensures
            request@ == request_of(self@),
    {
        if self.station == Station::Finished {
            Request::Finished(!self.failed)
        } else {
            Request::Perform(self.script.step(self.cursor).clone())
        }
    }

    /// Advances the installation. `reply` is the host's answer to the step
    /// that the call before asked for; the first call takes any. The result
    /// is the next step for the host, or the news that nothing is left.
    ///
    /// The first failure of a fatal step ends the run: its name is kept as
    /// the error, what was mounted is unmounted, and nothing else is asked
    /// for.
    pub fn install(&mut self, reply: Reply) -> (request: Request)
        ensures
            final(self)@ == advance(old(self)@, reply@),
            request@ == request_of(final(self)@),
            old(self)@.wf() ==> final(self)@.wf(),
    {
        proof {
            lemma_advance_comes_to_rest(self@, reply@);
            if self@.wf() {
                lemma_advance_keeps_wf(self@, reply@);
            }
        }
        self.forward(reply);
        self.request()
    }
}

/// The question of a station does not depend on its answer: what the
/// installation learns at a station leaves the steps of that station as they
/// are.
pub proof fn lemma_answer_keeps_script(m: Facts, station: Station, reply: ReplyView)
    ensures
        script_at(learned(m, station, reply), station) == script_at(m, station),
{
    reveal(script_at);
}

/// Settling comes to rest: in the state that it leaves, a step is asked for
/// or the installation is finished.
pub proof fn lemma_settled_comes_to_rest(m: Model)
    ensures
        at_rest(settled(m)),
    decreases stations_left(m.station),
{
    reveal(settled);
    if !at_rest(m) {
        lemma_settled_comes_to_rest(moved(m));
    }
}

/// Whatever the host answers, and in whatever state: afterwards a step is
/// asked for, or the installation is finished.
pub proof fn lemma_advance_comes_to_rest(m: Model, reply: ReplyView)
    ensures
        at_rest(advance(m, reply)),
{
    if m.station == Station::Finished {
    } else if !(0 <= m.cursor < m.script.len()) {
        lemma_settled_comes_to_rest(m);
    } else if !reply.success && m.script[m.cursor].is_fatal() {
        reveal(script_at);
    } else {
        lemma_settled_comes_to_rest(Model { cursor: m.cursor + 1, ..absorbed(m, reply) });
    }
}

/// The steps that mount the partitions reach as far as the step that mounts
/// the root file system.
pub proof fn lemma_mount_script_is_long(m: Facts)
    ensures
        script_at(m, Station::Mount).len() > ROOT_MOUNT_STEP,
{
    reveal(script_at);
}

/// Settling leaves a state in which a step is asked for, or the installation
/// is finished; and it keeps what holds of every state.
pub proof fn lemma_settled_is_wf(m: Model)
    requires
        m.script == script_at(m.facts, m.station),
        0 <= m.cursor,
        m.station == Station::Idle ==> m.cursor == 0 && m.script.len() == 0,
        precedes_mount(m.station) ==> !m.mounted,
        m.station == Station::Mount ==> (m.mounted <==> m.cursor > ROOT_MOUNT_STEP),
        follows_mount(m.station) ==> m.mounted,
        m.station == Station::Teardown ==> m.mounted,
        m.failed ==> m.station == Station::Teardown || m.station == Station::Finished,
        m.station == Station::Teardown ==> m.failed,
        !m.failed ==> m.error.len() == 0,
        precedes_format(m.station) ==> m.facts.layout == LayoutView::unset(),
        follows_partition(m.station) ==> m.facts.layout == layout_of(
            m.facts.config.install.target_disk,
            scheme_for(m.facts.firmware_is_uefi),
        ),
    ensures
        settled(m).wf(),
        settled(m).station != Station::Idle,
        settled(m).failed == m.failed,
        settled(m).error == m.error,
        settled(m).facts.config == m.facts.config,
        settled(m).facts.mount_point == m.facts.mount_point,
    decreases stations_left(m.station),
{
    reveal(settled);
    if !at_rest(m) {
        if m.station == Station::Mount {
            lemma_mount_script_is_long(m.facts);
        }
        lemma_settled_is_wf(moved(m));
    }
}

/// Every answer takes an installation from one of its states to another, and
/// leaves what it was told as it is.
pub proof fn lemma_advance_keeps_wf(m: Model, reply: ReplyView)
    requires
        m.wf(),
    ensures
        advance(m, reply).wf(),
        advance(m, reply).station != Station::Idle,
        advance(m, reply).facts.config == m.facts.config,
        advance(m, reply).facts.mount_point == m.facts.mount_point,
{
    if m.station == Station::Finished {
    } else if !(0 <= m.cursor < m.script.len()) {
        lemma_settled_is_wf(m);
    } else if !reply.success && m.script[m.cursor].is_fatal() {
        lemma_abort_is_wf(m);
    } else {
        let taken = Model { cursor: m.cursor + 1, ..absorbed(m, reply) };
        lemma_answer_keeps_script(m.facts, m.station, reply);
        lemma_settled_is_wf(taken);
    }
}

/// After a fatal failure the installation unmounts what it has mounted and
/// asks for nothing that could fail fatally again; where it has mounted
/// nothing it is finished.
pub proof fn lemma_abort_is_wf(m: Model)
    requires
        m.wf(),
        m.station != Station::Idle,
        m.station != Station::Finished,
    ensures
        aborted(m).wf(),
        aborted(m).failed,
        aborted(m).station == Station::Finished || aborted(m).station == Station::Teardown,
        !m.failed ==> (aborted(m).station == Station::Teardown <==> m.mounted),
        aborted(m).station == Station::Teardown ==> aborted(m).script == unmount_steps(
            m.facts.mount_point,
        ),
{
    reveal(script_at);
    reveal_strlit("Failed to partition disk");
    reveal_strlit("Failed to format partitions");
    reveal_strlit("Failed to mount partitions");
}

/// Once the installation is finished, no answer changes anything, and the
/// host is told the same again.
pub proof fn lemma_finished_stays(m: Model, reply: ReplyView)
    requires
        m.station == Station::Finished,
    ensures
        advance(m, reply) == m,
        request_of(advance(m, reply)) == RequestView::Finished(!m.failed),
{
}

/// If a step fails while the partitions are formatted, the installation is
/// finished at once: no step is asked for after it, not even unmounting,
/// since nothing is mounted yet. The error is that of formatting, the run
/// has failed, and nothing that the host says afterwards changes that.
pub proof fn lemma_format_failure_ends_run(m: Model, reply: ReplyView, later: ReplyView)
    requires
        m.wf(),
        m.station == Station::Format,
        !reply.success,
    ensures
        advance(m, reply).station == Station::Finished,
        advance(m, reply).error == "Failed to format partitions"@,
        request_of(advance(m, reply)) == RequestView::Finished(false),
        advance(advance(m, reply), later) == advance(m, reply),
{
    reveal(script_at);
    lemma_format_all_fatal(
        m.facts.layout,
        m.facts.config.install.use_encryption,
        m.facts.config.install.encryption_password,
    );
}

/// If a fatal step fails, whatever the station: the run has failed, the
/// error names the failure, and the installation either is finished or
/// unmounts what it has mounted. It unmounts if and only if the root file
/// system is mounted, and the steps of unmounting are all that is left.
pub proof fn lemma_fatal_failure_ends_run(m: Model, reply: ReplyView)
    requires
        m.wf(),
        m.station != Station::Idle,
        m.station != Station::Finished,
        !reply.success,
        m.script[m.cursor].is_fatal(),
    ensures
        advance(m, reply).failed,
        advance(m, reply).error == failure_text(m),
        advance(m, reply).station == (if m.mounted {
            Station::Teardown
        } else {
            Station::Finished
        }),
        m.mounted ==> advance(m, reply).script == unmount_steps(m.facts.mount_point)
            && advance(m, reply).cursor == 0,
{
    reveal(script_at);
    lemma_abort_is_wf(m);
}

/// After a failure nothing is asked for but to unmount, and the error stays
/// the first one: from a state that has failed, every answer leads to a state
/// that has failed with the same error, at the same station or finished.
pub proof fn lemma_error_is_the_first(m: Model, reply: ReplyView)
    requires
        m.wf(),
        m.failed,
    ensures
        advance(m, reply).failed,
        advance(m, reply).error == m.error,
        advance(m, reply).station == Station::Teardown || advance(m, reply).station
            == Station::Finished,
{
    lemma_advance_keeps_wf(m, reply);
    if m.station == Station::Teardown {
        reveal(script_at);
        let taken = Model { cursor: m.cursor + 1, ..absorbed(m, reply) };
        lemma_answer_keeps_script(m.facts, m.station, reply);
        lemma_settled_is_wf(taken);
    }
}

/// While nothing has failed, the error is empty.
pub proof fn lemma_no_failure_no_error(m: Model)
    requires
        m.wf(),
        !m.failed,
    ensures
        m.error == Seq::<char>::empty(),
        m.station == Station::Finished ==> request_of(m) == RequestView::Finished(true),
{
}

/// From the station that formats the partitions up to the last one, the
/// layout is that of the partitioned target disk: it names a root partition,
/// and an EFI system partition if and only if the scheme has one.
pub proof fn lemma_layout_is_set(m: Model)
    requires
        m.wf(),
        follows_partition(m.station),
    ensures
        m.facts.layout == layout_of(
            m.facts.config.install.target_disk,
            scheme_for(m.facts.firmware_is_uefi),
        ),
        m.facts.layout.wf(),
{
    lemma_layout_is_wf(m.facts.config.install.target_disk, scheme_for(m.facts.firmware_is_uefi));
}

/// On a machine with a BIOS, an installation that asks for a direct boot
/// installs the conventional bootloader instead: it does not ask for the
/// identifier of the root file system, the steps that make the system
/// bootable are those of the bootloader, and none of them can stop the
/// installation.
pub proof fn lemma_bios_boots_conventionally(m: Facts, i: int)
    requires
        wants_direct_boot(m.config.install.bootloader),
        !m.firmware_is_uefi,
    ensures
        script_at(m, Station::RootUuid).len() == 0,
        script_at(m, Station::Bootloader) == conventional_steps(
            m.config.install.target_disk,
            m.mount_point,
            false,
        ),
        0 <= i < script_at(m, Station::Bootloader).len() ==> !script_at(
            m,
            Station::Bootloader,
        )[i].is_fatal(),
{
    reveal(script_at);
}

/// Whether a failure at `station` can stop the installation: so it is where
/// the disk is partitioned, formatted and mounted, where the base system and
/// the file system table are made, and where the system is made bootable.
pub open spec fn can_be_fatal(station: Station) -> bool {
    match station {
        Station::Partition
        | Station::Format
        | Station::Mount
        | Station::BaseSystem
        | Station::Fstab
        | Station::Bootloader => true,
        _ => false,
    }
}

/// At every other station, whatever fails, the installation goes on: swap
/// space, drivers, locale, accounts, branding and unmounting are attempts.
pub proof fn lemma_other_stations_never_fatal(m: Facts, station: Station)
    requires
        !can_be_fatal(station),
    ensures
        never_fatal(script_at(m, station)),
{
    reveal(script_at);
    let cfg = m.config;
    let root = m.mount_point;
    match station {
        Station::Swap => {
            lemma_swap_file_made(cfg.disk.swap, root, ram_mb_of(m.answer));
        },
        Station::Drivers | Station::Multilib => {
            lemma_drivers_never_fatal(m.drivers, root, m.answer);
        },
        Station::System | Station::Locale | Station::InputMethod | Station::Users => {
            lemma_configuration_never_fatal(cfg, root);
        },
        Station::Finalize => {
            lemma_finalize_never_fatal(cfg, root, m.branded, m.released, m.ruled);
        },
        Station::Teardown => {
            lemma_unmount_never_fatal(root);
        },
        _ => {},
    }
}

/// Settling never goes back: it stays where a step is waiting, and else
/// comes to rest at a later station.
pub proof fn lemma_settled_goes_on(m: Model)
    ensures
        at_rest(m) ==> settled(m) == m,
        !at_rest(m) ==> stations_left(settled(m).station) < stations_left(m.station),
    decreases stations_left(m.station),
{
    reveal(settled);
    if !at_rest(m) {
        lemma_settled_goes_on(moved(m));
    }
}

/// Every answer brings the installation nearer to its end: afterwards it
/// stands at a later station, or at the next step of the same station. So
/// the installation is finished after finitely many steps, whatever the host
/// answers.
pub proof fn lemma_advance_makes_progress(m: Model, reply: ReplyView)
    requires
        m.station != Station::Finished,
    ensures
        stations_left(advance(m, reply).station) < stations_left(m.station) || (advance(
            m,
            reply,
        ).station == m.station && advance(m, reply).script == m.script && advance(m, reply).cursor
            == m.cursor + 1 && m.cursor + 1 < m.script.len()),
{
    if !(0 <= m.cursor < m.script.len()) {
        lemma_settled_goes_on(m);
    } else if !reply.success && m.script[m.cursor].is_fatal() {
    } else {
        lemma_settled_goes_on(Model { cursor: m.cursor + 1, ..absorbed(m, reply) });
    }
}

/// A run fails only by the failure of a fatal step: while the host reports
/// success, or the step at the cursor is none that stops the installation,
/// nothing has failed afterwards either.
pub proof fn lemma_only_fatal_steps_fail(m: Model, reply: ReplyView)
    requires
        m.wf(),
        !m.failed,
        reply.success || !m.script[m.cursor].is_fatal(),
    ensures
        !advance(m, reply).failed,
        advance(m, reply).error == Seq::<char>::empty(),
{
    lemma_advance_keeps_wf(m, reply);
    if m.station == Station::Finished {
    } else if !(0 <= m.cursor < m.script.len()) {
        lemma_settled_is_wf(m);
    } else {
        let taken = Model { cursor: m.cursor + 1, ..absorbed(m, reply) };
        lemma_answer_keeps_script(m.facts, m.station, reply);
        lemma_settled_is_wf(taken);
    }
}

/// A disk that could not be partitioned has no layout: if a step fails
/// fatally while the disk is partitioned, the installation is finished at
/// once with the error of partitioning, and the layout is the one that
/// stands for "no disk partitioned yet".
pub proof fn lemma_partition_failure_leaves_no_layout(m: Model, reply: ReplyView)
    requires
        m.wf(),
        m.station == Station::Partition,
        !reply.success,
        m.script[m.cursor].is_fatal(),
    ensures
        advance(m, reply).station == Station::Finished,
        advance(m, reply).error == "Failed to partition disk"@,
        advance(m, reply).facts.layout == LayoutView::unset(),
{
}

/// A fatal failure after the root file system is mounted is followed by
/// unmounting: the next step that the host is asked for is the first of the
/// steps that unmount the installed system, and nothing else is left.
pub proof fn lemma_failure_after_mount_unmounts(m: Model, reply: ReplyView)
    requires
        m.wf(),
        follows_mount(m.station) || (m.station == Station::Mount && m.cursor > ROOT_MOUNT_STEP),
        !reply.success,
        m.script[m.cursor].is_fatal(),
    ensures
        m.mounted,
        advance(m, reply).station == Station::Teardown,
        advance(m, reply).script == unmount_steps(m.facts.mount_point),
        request_of(advance(m, reply)) == RequestView::Perform(
            unmount_steps(m.facts.mount_point)[0],
        ),
{
    lemma_fatal_failure_ends_run(m, reply);
}

} // verus!
