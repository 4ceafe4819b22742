//! Builder for creating and configuring microVMs using nested builders.

use crate::api::builders::{
    ConsoleBuilder, DiskBuilder, DiskConfig, ExecBuilder, FsBuilder, FsConfig, HostCpuId,
    KernelBuilder, MachineBuilder, NetBuilder, NetConfig, NetTarget, PortConfig, default_machine,
    text_of,
};
use crate::api::command::{
    args_text, check_env, env_text, first_refusal, format_args_text, format_env_text,
    format_rlimits_text, rlimits_text,
};
use crate::api::error::{BuildError, ConfigError, Error};
use crate::block::device::{CacheType, ImageType, SyncMode};
use crate::host::HostOs;
use crate::text::{decimal, decimal_names_one_number, push_decimal};
use vstd::prelude::*;

verus! {

/// Builder for creating and configuring a microVM.
#[derive(Debug)]
pub struct VmBuilder {
    pub machine: MachineBuilder,
    pub kernel: KernelBuilder,
    pub fs: FsBuilder,
    pub console: ConsoleBuilder,
    pub execution: ExecBuilder,
    pub net: NetBuilder,
    pub disk: DiskBuilder,
}

impl VmBuilder {
    /// Nothing was configured yet.
    pub open spec fn is_fresh(self) -> bool {
        &&& self.machine == default_machine()
        &&& self.kernel == (KernelBuilder {
            cmdline: None,
            krunfw_path: None,
            initramfs_path: None,
            init_path: None,
        })
        &&& self.fs.is_fresh()
        &&& self.console.is_fresh()
        &&& self.execution.is_fresh()
        &&& self.net.is_fresh()
        &&& self.disk.is_fresh()
    }

    /// Creates a builder with the default configuration: one virtual CPU, 512 MiB of memory,
    /// without hyperthreading and nested virtualization.
    pub fn new() -> (r: VmBuilder)
        ensures
            r.is_fresh(),
    {
        VmBuilder {
            machine: MachineBuilder::new(),
            kernel: KernelBuilder::new(),
            fs: FsBuilder::new(),
            console: ConsoleBuilder::new(),
            execution: ExecBuilder::new(),
            net: NetBuilder::new(),
            disk: DiskBuilder::new(),
        }
    }

    /// Configures machine settings.
    pub fn machine<F: FnOnce(MachineBuilder) -> MachineBuilder>(self, f: F) -> (r: VmBuilder)
        requires
            f.requires((self.machine,)),
        ensures
            f.ensures((self.machine,), r.machine),
            r == (VmBuilder { machine: r.machine, ..self }),
    {
        let VmBuilder { machine, kernel, fs, console, execution, net, disk } = self;
        VmBuilder { machine: f(machine), kernel, fs, console, execution, net, disk }
    }

    /// Configures kernel settings.
    pub fn kernel<F: FnOnce(KernelBuilder) -> KernelBuilder>(self, f: F) -> (r: VmBuilder)
        requires
            f.requires((self.kernel,)),
        ensures
            f.ensures((self.kernel,), r.kernel),
            r == (VmBuilder { kernel: r.kernel, ..self }),
    {
        let VmBuilder { machine, kernel, fs, console, execution, net, disk } = self;
        VmBuilder { machine, kernel: f(kernel), fs, console, execution, net, disk }
    }

    /// Configures filesystem mounts, behind those that were configured before.
    pub fn fs<F: FnOnce(FsBuilder) -> FsBuilder>(self, f: F) -> (r: VmBuilder)
        requires
            forall|fresh: FsBuilder| fresh.is_fresh() ==> f.requires((fresh,)),
        ensures
            exists|fresh: FsBuilder, added: FsBuilder|
                fresh.is_fresh() && #[trigger] f.ensures((fresh,), added) && r.fs.configs@
                    == self.fs.configs@ + added.configs@,
            r == (VmBuilder { fs: (FsBuilder { configs: r.fs.configs, ..self.fs }), ..self }),
    {
        let mut builder = self;
        let fresh: FsBuilder = FsBuilder::new();
        let mut added: FsBuilder = f(fresh);
        let ghost result = added;
        builder.fs.configs.append(&mut added.configs);
        assert(f.ensures((fresh,), result));
        builder
    }

    /// Configures network devices, behind those that were configured before.
    pub fn net<F: FnOnce(NetBuilder) -> NetBuilder>(self, f: F) -> (r: VmBuilder)
        requires
            forall|fresh: NetBuilder| fresh.is_fresh() ==> f.requires((fresh,)),
        ensures
            exists|fresh: NetBuilder, added: NetBuilder|
                fresh.is_fresh() && #[trigger] f.ensures((fresh,), added) && r.net.configs@
                    == self.net.configs@ + added.configs@,
            r == (VmBuilder { net: (NetBuilder { configs: r.net.configs, ..self.net }), ..self }),
    {
        let mut builder = self;
        let fresh: NetBuilder = NetBuilder::new();
        let mut added: NetBuilder = f(fresh);
        let ghost result = added;
        builder.net.configs.append(&mut added.configs);
        assert(f.ensures((fresh,), result));
        builder
    }

    /// Configures block devices, behind those that were configured before.
    pub fn disk<F: FnOnce(DiskBuilder) -> DiskBuilder>(self, f: F) -> (r: VmBuilder)
        requires
            forall|fresh: DiskBuilder| fresh.is_fresh() ==> f.requires((fresh,)),
        ensures
            exists|fresh: DiskBuilder, added: DiskBuilder|
                fresh.is_fresh() && #[trigger] f.ensures((fresh,), added) && r.disk.configs@
                    == self.disk.configs@ + added.disks(),
            r == (VmBuilder {
                disk: (DiskBuilder { configs: r.disk.configs, ..self.disk }),
                ..self
            }),
    {
        let mut builder = self;
        let fresh: DiskBuilder = DiskBuilder::new();
        let added: DiskBuilder = f(fresh);
        assert(f.ensures((fresh,), added));
        let mut complete: DiskBuilder = added.finalize();
        builder.disk.configs.append(&mut complete.configs);
        builder
    }

    /// Configures console and output settings.
    pub fn console<F: FnOnce(ConsoleBuilder) -> ConsoleBuilder>(self, f: F) -> (r: VmBuilder)
        requires
            f.requires((self.console,)),
        ensures
            f.ensures((self.console,), r.console),
            r == (VmBuilder { console: r.console, ..self }),
    {
        let VmBuilder { machine, kernel, fs, console, execution, net, disk } = self;
        VmBuilder { machine, kernel, fs, console: f(console), execution, net, disk }
    }

    /// Configures execution settings.
    pub fn execution<F: FnOnce(ExecBuilder) -> ExecBuilder>(self, f: F) -> (r: VmBuilder)
        requires
            f.requires((self.execution,)),
        ensures
            f.ensures((self.execution,), r.execution),
            r == (VmBuilder { execution: r.execution, ..self }),
    {
        let VmBuilder { machine, kernel, fs, console, execution, net, disk } = self;
        VmBuilder { machine, kernel, fs, console, execution: f(execution), net, disk }
    }
}

impl Default for VmBuilder {
    fn default() -> (r: VmBuilder)
        ensures
            r.is_fresh(),
    {
        VmBuilder::new()
    }
}

/// Why a machine cannot be made.
#[derive(Clone, Copy, Debug, PartialEq, Eq, Structural)]
pub enum VmConfigError {
    InvalidVcpuCount,
    InvalidMemorySize,
    InvalidMaxVcpuCount,
    InvalidMaxMemorySize,
    MaxCapacityUnsupported,
}

/// The first group of host CPUs, in the order of the virtual CPUs, that is not the only one a
/// Linux host has.
pub open spec fn first_foreign_group(cpus: Seq<HostCpuId>) -> Option<u16>
    decreases cpus.len(),
{
    if cpus.len() == 0 {
        None
    } else if cpus[0].group != 0 {
        Some(cpus[0].group)
    } else {
        first_foreign_group(cpus.skip(1))
    }
}

/// How many virtual CPUs the machine can ever have.
pub open spec fn possible_vcpus(machine: MachineBuilder) -> u8 {
    match machine.max_vcpus {
        Some(max) => max,
        None => machine.vcpus,
    }
}

/// How much memory the machine can ever have.
pub open spec fn possible_memory_mib(machine: MachineBuilder) -> usize {
    match machine.max_memory_mib {
        Some(max) => max,
        None => machine.memory_mib,
    }
}

/// What is wrong with the sizes and the CPU placement of a machine on a host.
pub open spec fn settings_problem(machine: MachineBuilder, host: HostOs) -> Option<ConfigError> {
    if machine.vcpus == 0 {
        Some(ConfigError::InvalidVcpuCount(0))
    } else if machine.memory_mib == 0 {
        Some(ConfigError::InvalidMemorySize(0))
    } else {
        match machine.vcpu_affinity {
            None => None,
            Some(cpus) => if cpus@.len() != possible_vcpus(machine) {
                Some(
                    ConfigError::InvalidVcpuAffinityLength {
                        expected: possible_vcpus(machine) as usize,
                        actual: cpus@.len() as usize,
                    },
                )
            } else {
                match host {
                    HostOs::Linux => match first_foreign_group(cpus@) {
                        Some(group) => Some(ConfigError::InvalidHostCpuGroup(group)),
                        None => None,
                    },
                    HostOs::Windows => None,
                    _ => Some(ConfigError::VcpuAffinityUnsupported),
                }
            },
        }
    }
}

/// Why a machine of these sizes cannot be made. With hyperthreading the CPUs come in pairs, except
/// for a single one. What a machine may grow to is no less than what it starts with.
pub open spec fn sizes_problem(machine: MachineBuilder) -> Option<VmConfigError> {
    if machine.vcpus == 0 {
        Some(VmConfigError::InvalidVcpuCount)
    } else if machine.memory_mib == 0 {
        Some(VmConfigError::InvalidMemorySize)
    } else if machine.hyperthreading && machine.vcpus > 1 && machine.vcpus % 2 == 1 {
        Some(VmConfigError::InvalidVcpuCount)
    } else if possible_vcpus(machine) < machine.vcpus {
        Some(VmConfigError::InvalidMaxVcpuCount)
    } else if possible_memory_mib(machine) < machine.memory_mib {
        Some(VmConfigError::InvalidMaxMemorySize)
    } else {
        None
    }
}

/// The error that is reported for a machine that cannot be made.
pub open spec fn reported(machine: MachineBuilder, problem: VmConfigError) -> ConfigError {
    match problem {
        VmConfigError::InvalidVcpuCount => ConfigError::InvalidVcpuCount(machine.vcpus),
        VmConfigError::InvalidMemorySize => ConfigError::InvalidMemorySize(machine.memory_mib),
        VmConfigError::InvalidMaxVcpuCount => ConfigError::InvalidMaxVcpuCount(
            possible_vcpus(machine),
        ),
        VmConfigError::InvalidMaxMemorySize => ConfigError::InvalidMaxMemorySize(
            possible_memory_mib(machine),
        ),
        VmConfigError::MaxCapacityUnsupported => ConfigError::MaxCapacityUnsupported,
    }
}

/// Everything that can be wrong with a machine on a host, in the order it is looked at.
pub open spec fn machine_problem(machine: MachineBuilder, host: HostOs) -> Option<ConfigError> {
    match settings_problem(machine, host) {
        Some(problem) => Some(problem),
        None => match sizes_problem(machine) {
            Some(problem) => Some(reported(machine, problem)),
            None => None,
        },
    }
}

fn find_foreign_group(cpus: &Vec<HostCpuId>) -> (r: Option<u16>)
    ensures
        r == first_foreign_group(cpus@),
{
    let mut i: usize = 0;
    assert(cpus@.skip(0) =~= cpus@);
    while i < cpus.len()
        invariant
            i <= cpus@.len(),
            first_foreign_group(cpus@) == first_foreign_group(cpus@.skip(i as int)),
        decreases cpus@.len() - i,
    {
        assert(cpus@.skip(i as int).skip(1) =~= cpus@.skip(i + 1));
        if cpus[i].group != 0 {
            return Some(cpus[i].group);
        }
        i = i + 1;
    }
    None
}

fn check_settings(machine: &MachineBuilder, host: HostOs) -> (r: Result<(), ConfigError>)
    ensures
        match settings_problem(*machine, host) {
            Some(problem) => r == Err::<(), ConfigError>(problem),
            None => r is Ok,
        },
{
    if machine.vcpus == 0 {
        return Err(ConfigError::InvalidVcpuCount(0));
    }
    if machine.memory_mib == 0 {
        return Err(ConfigError::InvalidMemorySize(0));
    }
    match &machine.vcpu_affinity {
        None => Ok(()),
        Some(cpus) => {
            let possible: u8 = match machine.max_vcpus {
                Some(max) => max,
                None => machine.vcpus,
            };
            let expected: usize = possible as usize;
            if cpus.len() != expected {
                return Err(
                    ConfigError::InvalidVcpuAffinityLength { expected, actual: cpus.len() },
                );
            }
            match host {
                HostOs::Linux => match find_foreign_group(cpus) {
                    Some(group) => Err(ConfigError::InvalidHostCpuGroup(group)),
                    None => Ok(()),
                },
                HostOs::Windows => Ok(()),
                _ => Err(ConfigError::VcpuAffinityUnsupported),
            }
        },
    }
}

/// Checks the sizes of a machine.
pub fn check_vm_config(machine: &MachineBuilder) -> (r: Result<(), VmConfigError>)
    ensures
        match sizes_problem(*machine) {
            Some(problem) => r == Err::<(), VmConfigError>(problem),
            None => r is Ok,
        },
{
    if machine.vcpus == 0 {
        return Err(VmConfigError::InvalidVcpuCount);
    }
    if machine.memory_mib == 0 {
        return Err(VmConfigError::InvalidMemorySize);
    }
    if machine.hyperthreading && machine.vcpus > 1 && machine.vcpus % 2 == 1 {
        return Err(VmConfigError::InvalidVcpuCount);
    }
    match machine.max_vcpus {
        Some(max) => {
            if max < machine.vcpus {
                return Err(VmConfigError::InvalidMaxVcpuCount);
            }
        },
        None => {},
    }
    match machine.max_memory_mib {
        Some(max) => {
            if max < machine.memory_mib {
                return Err(VmConfigError::InvalidMaxMemorySize);
            }
        },
        None => {},
    }
    Ok(())
}

/// The error that is reported for a machine that cannot be made.
pub fn map_vm_config_error(machine: &MachineBuilder, err: VmConfigError) -> (r: Error)
    ensures
        r == Error::Config(reported(*machine, err)),
{
    match err {
        VmConfigError::InvalidVcpuCount => Error::Config(
            ConfigError::InvalidVcpuCount(machine.vcpus),
        ),
        VmConfigError::InvalidMemorySize => Error::Config(
            ConfigError::InvalidMemorySize(machine.memory_mib),
        ),
        VmConfigError::InvalidMaxVcpuCount => {
            let max: u8 = match machine.max_vcpus {
                Some(max) => max,
                None => machine.vcpus,
            };
            Error::Config(ConfigError::InvalidMaxVcpuCount(max))
        },
        VmConfigError::InvalidMaxMemorySize => {
            let max: usize = match machine.max_memory_mib {
                Some(max) => max,
                None => machine.memory_mib,
            };
            Error::Config(ConfigError::InvalidMaxMemorySize(max))
        },
        VmConfigError::MaxCapacityUnsupported => Error::Config(
            ConfigError::MaxCapacityUnsupported,
        ),
    }
}

/// A directory of the host that the guest sees.
#[derive(Debug)]
pub struct FsDeviceConfig {
    pub fs_id: String,
    pub shared_dir: String,
    pub shm_size: Option<usize>,
    pub allow_root_dir_delete: bool,
}

/// A filesystem that a custom backend serves.
#[derive(Debug)]
pub struct CustomFsDeviceConfig {
    pub fs_id: String,
    pub shm_size: Option<usize>,
}

/// The directories among the mounts, in order.
pub open spec fn directories(configs: Seq<FsConfig>) -> Seq<FsDeviceConfig>
    decreases configs.len(),
{
    if configs.len() == 0 {
        Seq::empty()
    } else {
        match configs.last() {
            FsConfig::Path { tag, path, shm_size } => directories(configs.drop_last()).push(
                FsDeviceConfig {
                    fs_id: tag,
                    shared_dir: path,
                    shm_size,
                    allow_root_dir_delete: false,
                },
            ),
            FsConfig::Custom { tag } => directories(configs.drop_last()),
        }
    }
}

/// The custom backends among the mounts, in order.
pub open spec fn custom_backends(configs: Seq<FsConfig>) -> Seq<CustomFsDeviceConfig>
    decreases configs.len(),
{
    if configs.len() == 0 {
        Seq::empty()
    } else {
        match configs.last() {
            FsConfig::Path { tag, path, shm_size } => custom_backends(configs.drop_last()),
            FsConfig::Custom { tag } => custom_backends(configs.drop_last()).push(
                CustomFsDeviceConfig { fs_id: tag, shm_size: None },
            ),
        }
    }
}

fn plan_mounts(configs: Vec<FsConfig>) -> (r: (Vec<FsDeviceConfig>, Vec<CustomFsDeviceConfig>))
    ensures
        r.0@ == directories(configs@),
        r.1@ == custom_backends(configs@),
{
    let ghost all = configs@;
    let mut paths: Vec<FsDeviceConfig> = Vec::new();
    let mut customs: Vec<CustomFsDeviceConfig> = Vec::new();
    assert(all.take(0) =~= Seq::empty());
    for config in iter: configs
        invariant
            iter.seq() == all,
            paths@ == directories(all.take(iter.index())),
            customs@ == custom_backends(all.take(iter.index())),
    {
        assert(all.take(iter.index() + 1).drop_last() =~= all.take(iter.index()));
        match config {
            FsConfig::Path { tag, path, shm_size } => {
                paths.push(
                    FsDeviceConfig {
                        fs_id: tag,
                        shared_dir: path,
                        shm_size,
                        allow_root_dir_delete: false,
                    },
                );
            },
            FsConfig::Custom { tag } => {
                customs.push(CustomFsDeviceConfig { fs_id: tag, shm_size: None });
            },
        }
    }
    assert(all.take(all.len() as int) =~= all);
    (paths, customs)
}

/// A network interface of the guest.
#[derive(Debug)]
pub struct NetworkInterfaceConfig {
    pub iface_id: String,
    pub backend: NetTarget,
    pub mac: [u8; 6],
    pub features: u32,
}

/// The address of an interface that was given none: locally administered, and counted up in its
/// last byte.
pub open spec fn generated_mac(index: nat) -> Seq<u8> {
    seq![0x52u8, 0x54u8, 0u8, 0x12u8, 0x34u8, ((0x56 + index) % 256) as u8]
}

/// Generates a locally administered MAC address from an interface index.
pub fn generate_mac(index: usize) -> (r: [u8; 6])
    ensures
        r@ == generated_mac(index as nat),
{
    let low: u8 = (index % 256) as u8;
    let last: u8 = 0x56u8.wrapping_add(low);
    let r: [u8; 6] = [0x52, 0x54, 0x00, 0x12, 0x34, last];
    assert(last == (0x56 + index) % 256);
    assert(r@ =~= generated_mac(index as nat));
    r
}

/// What a network device becomes that stands at a place in the configuration.
pub open spec fn is_interface(device: NetworkInterfaceConfig, config: NetConfig, index: nat) -> bool {
    &&& device.iface_id@ == "eth"@ + decimal(index)
    &&& device.backend == config.target
    &&& device.features == 0
    &&& match config.mac {
        Some(mac) => device.mac == mac,
        None => device.mac@ == generated_mac(index),
    }
}

/// The devices of a configuration, in order.
pub open spec fn are_interfaces(
    devices: Seq<NetworkInterfaceConfig>,
    configs: Seq<NetConfig>,
) -> bool {
    &&& devices.len() == configs.len()
    &&& forall|i: int|
        0 <= i < devices.len() ==> is_interface(#[trigger] devices[i], configs[i], i as nat)
}

fn plan_interfaces(configs: Vec<NetConfig>) -> (r: Vec<NetworkInterfaceConfig>)
    ensures
        are_interfaces(r@, configs@),
{
    let ghost all = configs@;
    let mut devices: Vec<NetworkInterfaceConfig> = Vec::new();
    for config in iter: configs
        invariant
            iter.seq() == all,
            devices@.len() == iter.index(),
            forall|i: int|
                0 <= i < devices@.len() ==> is_interface(#[trigger] devices@[i], all[i], i as nat),
    {
        let index: usize = devices.len();
        let mac: [u8; 6] = match config.mac {
            Some(mac) => mac,
            None => generate_mac(index),
        };
        let mut iface_id: String = "eth".to_owned();
        push_decimal(&mut iface_id, index as u64);
        devices.push(
            NetworkInterfaceConfig { iface_id, backend: config.target, mac, features: 0 },
        );
    }
    devices
}

/// The character of a letter counted from `a`.
pub open spec fn letter(n: nat) -> char {
    (97 + n) as char
}

/// The suffix of a disk's name: `a` to `z`, then `aa`, `ab` and on.
pub open spec fn disk_suffix(n: nat) -> Seq<char>
    decreases n,
{
    if n < 26 {
        seq![letter(n)]
    } else {
        disk_suffix((n / 26 - 1) as nat).push(letter(n % 26))
    }
}

fn push_vd_suffix(s: &mut String, index: usize)
    ensures
        final(s)@ == old(s)@ + disk_suffix(index as nat),
    decreases index,
{
    if index >= 26 {
        push_vd_suffix(s, index / 26 - 1);
    }
    s.push((97u8 + (index % 26) as u8) as char);
    assert(s@ =~= old(s)@ + disk_suffix(index as nat));
}

/// Generates the suffix of a disk's name, as the guest's kernel names its disks.
pub fn vd_suffix(index: usize) -> (r: String)
    ensures
        r@ == disk_suffix(index as nat),
{
    let mut s: String = String::new();
    push_vd_suffix(&mut s, index);
    assert(s@ =~= disk_suffix(index as nat));
    s
}

/// Different places have different suffixes.
pub proof fn suffix_names_one_disk(a: nat, b: nat)
    requires
        disk_suffix(a) == disk_suffix(b),
    ensures
        a == b,
    decreases a,
{
    assert(disk_suffix(a).last() == letter(a % 26));
    assert(disk_suffix(b).last() == letter(b % 26));
    assert(letter(a % 26) as int == 97 + a % 26);
    assert(letter(b % 26) as int == 97 + b % 26);
    lemma_suffix_length(a);
    lemma_suffix_length(b);
    if a >= 26 && b >= 26 {
        assert(disk_suffix(a).drop_last() =~= disk_suffix((a / 26 - 1) as nat));
        assert(disk_suffix(b).drop_last() =~= disk_suffix((b / 26 - 1) as nat));
        suffix_names_one_disk((a / 26 - 1) as nat, (b / 26 - 1) as nat);
    }
}

proof fn lemma_suffix_length(n: nat)
    ensures
        disk_suffix(n).len() >= 1,
        n >= 26 <==> disk_suffix(n).len() >= 2,
    decreases n,
{
    if n >= 26 {
        lemma_suffix_length((n / 26 - 1) as nat);
    }
}

/// A block device of the guest.
#[derive(Debug)]
pub struct BlockDeviceConfig {
    pub block_id: String,
    pub cache_type: CacheType,
    pub disk_image_path: String,
    pub disk_image_format: ImageType,
    pub is_disk_read_only: bool,
    pub direct_io: bool,
    pub sync_mode: SyncMode,
}

/// What a disk becomes that stands at a place in the configuration.
pub open spec fn is_block_device(device: BlockDeviceConfig, config: DiskConfig, index: nat) -> bool {
    &&& device.block_id@ == match config.id {
        Some(id) => id@,
        None => "vd"@ + disk_suffix(index),
    }
    &&& device.cache_type == match config.cache {
        crate::api::builders::CacheMode::Writeback => CacheType::Writeback,
        crate::api::builders::CacheMode::Unsafe => CacheType::Unsafe,
    }
    &&& device.disk_image_path == config.path
    &&& device.disk_image_format == match config.format {
        crate::api::builders::DiskImageFormat::Raw => ImageType::Raw,
        crate::api::builders::DiskImageFormat::Qcow2 => ImageType::Qcow2,
        crate::api::builders::DiskImageFormat::Vmdk => ImageType::Vmdk,
    }
    &&& device.is_disk_read_only == config.read_only
    &&& device.direct_io == config.direct_io
    &&& device.sync_mode == match config.sync {
        crate::api::builders::SyncMode::Off => SyncMode::Off,
        crate::api::builders::SyncMode::Relaxed => SyncMode::Relaxed,
        crate::api::builders::SyncMode::Full => SyncMode::Full,
    }
}

/// The disks of a configuration, in order.
pub open spec fn are_block_devices(
    devices: Seq<BlockDeviceConfig>,
    configs: Seq<DiskConfig>,
) -> bool {
    &&& devices.len() == configs.len()
    &&& forall|i: int|
        0 <= i < devices.len() ==> is_block_device(#[trigger] devices[i], configs[i], i as nat)
}

fn plan_disks(configs: Vec<DiskConfig>) -> (r: Vec<BlockDeviceConfig>)
    ensures
        are_block_devices(r@, configs@),
{
    let ghost all = configs@;
    let mut devices: Vec<BlockDeviceConfig> = Vec::new();
    for config in iter: configs
        invariant
            iter.seq() == all,
            devices@.len() == iter.index(),
            forall|i: int|
                0 <= i < devices@.len() ==> is_block_device(
                    #[trigger] devices@[i],
                    all[i],
                    i as nat,
                ),
    {
        let index: usize = devices.len();
        let block_id: String = match config.id {
            Some(id) => id,
            None => {
                let mut name: String = "vd".to_owned();
                push_vd_suffix(&mut name, index);
                name
            },
        };
        devices.push(
            BlockDeviceConfig {
                block_id,
                cache_type: config.cache.cache_type(),
                disk_image_path: config.path,
                disk_image_format: config.format.image_type(),
                is_disk_read_only: config.read_only,
                direct_io: config.direct_io,
                sync_mode: config.sync.device_mode(),
            },
        );
    }
    devices
}

/// Disks that were given no id have different names.
pub proof fn unnamed_disks_are_told_apart(
    devices: Seq<BlockDeviceConfig>,
    configs: Seq<DiskConfig>,
    i: int,
    j: int,
)
    requires
        are_block_devices(devices, configs),
        0 <= i < j < configs.len(),
        configs[i].id is None,
        configs[j].id is None,
    ensures
        devices[i].block_id@ != devices[j].block_id@,
{
    if devices[i].block_id@ == devices[j].block_id@ {
        let prefix = "vd"@;
        assert((prefix + disk_suffix(i as nat)).skip(prefix.len() as int) =~= disk_suffix(
            i as nat,
        ));
        assert((prefix + disk_suffix(j as nat)).skip(prefix.len() as int) =~= disk_suffix(
            j as nat,
        ));
        suffix_names_one_disk(i as nat, j as nat);
    }
}

/// Network interfaces have different names.
pub proof fn interfaces_are_told_apart(
    devices: Seq<NetworkInterfaceConfig>,
    configs: Seq<NetConfig>,
    i: int,
    j: int,
)
    requires
        are_interfaces(devices, configs),
        0 <= i < j < configs.len(),
    ensures
        devices[i].iface_id@ != devices[j].iface_id@,
{
    if devices[i].iface_id@ == devices[j].iface_id@ {
        let prefix = "eth"@;
        assert((prefix + decimal(i as nat)).skip(prefix.len() as int) =~= decimal(i as nat));
        assert((prefix + decimal(j as nat)).skip(prefix.len() as int) =~= decimal(j as nat));
        decimal_names_one_number(i as nat, j as nat);
    }
}

/// The device through which a machine gets more virtual CPUs.
#[derive(Clone, Copy, Debug, PartialEq, Eq, Structural)]
pub struct CpuDeviceConfig {
    pub possible: u32,
    pub online: u32,
}

/// What a VM is made of.
#[derive(Debug)]
pub struct VmResources {
    pub vcpus: u8,
    pub memory_mib: usize,
    pub max_vcpus: Option<u8>,
    pub max_memory_mib: Option<usize>,
    pub hyperthreading: bool,
    pub vcpu_affinity: Option<Vec<HostCpuId>>,
    pub cpu_device: Option<CpuDeviceConfig>,
    pub mem_device: bool,
    pub nested_enabled: bool,
    pub split_irqchip: bool,
    pub request_vsock: bool,
    pub enable_balloon: bool,
    pub balloon_stats_interval: Option<u64>,
    pub enable_rng: bool,
    pub enable_msb_metrics: bool,
    pub fs: Vec<FsDeviceConfig>,
    pub custom_fs: Vec<CustomFsDeviceConfig>,
    pub console_output: Option<String>,
    pub snd_device: bool,
    pub gpu_virgl_flags: Option<u32>,
    pub gpu_shm_size: Option<usize>,
    /// The ports of the console that was asked for, if one was.
    pub console_ports: Option<Vec<PortConfig>>,
    pub disable_implicit_console: bool,
    pub net: Vec<NetworkInterfaceConfig>,
    pub block: Vec<BlockDeviceConfig>,
}

/// The device through which a machine gets more virtual CPUs, where it may grow.
pub open spec fn planned_cpu_device(machine: MachineBuilder) -> Option<CpuDeviceConfig> {
    if possible_vcpus(machine) > machine.vcpus {
        Some(
            CpuDeviceConfig {
                possible: possible_vcpus(machine) as u32,
                online: machine.vcpus as u32,
            },
        )
    } else {
        None
    }
}

impl VmResources {
    /// The resources are those that a machine was configured with.
    pub open spec fn realize_machine(self, machine: MachineBuilder, host: HostOs) -> bool {
        &&& self.vcpus == machine.vcpus
        &&& self.memory_mib == machine.memory_mib
        &&& self.max_vcpus == machine.max_vcpus
        &&& self.max_memory_mib == machine.max_memory_mib
        &&& self.hyperthreading == machine.hyperthreading
        &&& host is Linux || host is Windows ==> self.vcpu_affinity == machine.vcpu_affinity
        &&& !(host is Linux || host is Windows) ==> self.vcpu_affinity is None
        &&& self.cpu_device == planned_cpu_device(machine)
        &&& self.mem_device == (possible_memory_mib(machine) > machine.memory_mib)
        &&& self.nested_enabled == machine.nested_virt
        &&& self.split_irqchip == machine.split_irqchip
        &&& self.request_vsock == machine.vsock
        &&& self.enable_balloon == machine.balloon
        &&& self.balloon_stats_interval == machine.balloon_stats_interval
        &&& self.enable_rng == machine.rng
        &&& self.enable_msb_metrics == machine.msb_metrics
    }

    /// The resources are those that a console was configured with.
    pub open spec fn realize_console(self, console: ConsoleBuilder) -> bool {
        &&& self.console_output == console.output
        &&& self.snd_device == console.sound
        &&& self.gpu_virgl_flags == console.gpu_virgl_flags
        &&& self.gpu_shm_size == console.gpu_shm_size
        &&& self.disable_implicit_console == console.disable_implicit
        &&& match self.console_ports {
            None => console.ports@.len() == 0,
            Some(ports) => ports@.len() > 0 && ports == console.ports,
        }
    }

    /// The resources are those that were configured.
    pub open spec fn realize(self, builder: VmBuilder, host: HostOs) -> bool {
        &&& self.realize_machine(builder.machine, host)
        &&& self.realize_console(builder.console)
        &&& self.fs@ == directories(builder.fs.configs@)
        &&& self.custom_fs@ == custom_backends(builder.fs.configs@)
        &&& are_interfaces(self.net@, builder.net.configs@)
        &&& are_block_devices(self.block@, builder.disk.configs@)
    }
}

/// A VM whose devices are not attached yet.
#[derive(Debug)]
pub struct VmPlan {
    pub resources: VmResources,
    pub kernel: KernelBuilder,
    pub execution: ExecBuilder,
    pub enable_inet_hijack: bool,
}

/// A VM that is ready to run.
#[derive(Debug)]
pub struct VmParts {
    pub resources: VmResources,
    pub kernel_cmdline: Option<String>,
    pub exec_path: Option<String>,
    pub args: Option<String>,
    pub env: Option<String>,
    pub workdir: Option<String>,
    pub rlimits: Option<String>,
    pub krunfw_path: Option<String>,
    pub initramfs_path: Option<String>,
    pub init_path: Option<String>,
    pub enable_inet_hijack: bool,
}

impl VmParts {
    /// The parts are those that were planned, with what the guest runs as text.
    pub open spec fn complete(self, plan: VmPlan) -> bool {
        &&& self.resources == plan.resources
        &&& self.kernel_cmdline == plan.kernel.cmdline
        &&& self.krunfw_path == plan.kernel.krunfw_path
        &&& self.initramfs_path == plan.kernel.initramfs_path
        &&& self.init_path == plan.kernel.init_path
        &&& self.exec_path == plan.execution.path
        &&& self.workdir == plan.execution.workdir
        &&& self.enable_inet_hijack == plan.enable_inet_hijack
        &&& text_of(self.args) == if plan.execution.args@.len() == 0 {
            None
        } else {
            Some(args_text(plan.execution.args@))
        }
        &&& text_of(self.env) == if plan.execution.env@.len() == 0 {
            None
        } else {
            Some(env_text(plan.execution.env@))
        }
        &&& text_of(self.rlimits) == if plan.execution.rlimits@.len() == 0 {
            None
        } else {
            Some(rlimits_text(plan.execution.rlimits@))
        }
    }
}

impl VmPlan {
    /// Completes a plan once its network and block devices are attached, or one was refused.
    pub fn finish(self, attached: Result<(), ConfigError>) -> (r: Result<VmParts, Error>)
        ensures
            match attached {
                Err(problem) => r == Err::<VmParts, Error>(Error::Config(problem)),
                Ok(()) => match first_refusal(self.execution.env@) {
                    Some(text) => r matches Err(Error::Build(BuildError::Start(t))) && t@ == text,
                    None => r matches Ok(parts) && parts.complete(self),
                },
            },
    {
        match attached {
            Err(problem) => {
                return Err(Error::Config(problem));
            },
            Ok(()) => {},
        }
        let VmPlan { resources, kernel, execution, enable_inet_hijack } = self;
        let args: Option<String> = format_args_text(&execution.args);
        match check_env(&execution.env) {
            Err(text) => {
                return Err(Error::Build(BuildError::Start(text)));
            },
            Ok(()) => {},
        }
        let env: Option<String> = format_env_text(&execution.env);
        let rlimits: Option<String> = format_rlimits_text(&execution.rlimits);
        Ok(
            VmParts {
                resources,
                kernel_cmdline: kernel.cmdline,
                exec_path: execution.path,
                args,
                env,
                workdir: execution.workdir,
                rlimits,
                krunfw_path: kernel.krunfw_path,
                initramfs_path: kernel.initramfs_path,
                init_path: kernel.init_path,
                enable_inet_hijack,
            },
        )
    }
}

impl VmBuilder {
    /// Checks the configuration, and plans the VM up to the point where its network and block
    /// devices are attached.
    pub fn plan(self, host: HostOs) -> (r: Result<VmPlan, Error>)
        ensures
            match machine_problem(self.machine, host) {
                Some(problem) => r == Err::<VmPlan, Error>(Error::Config(problem)),
                None => r matches Ok(plan) && plan.resources.realize(self, host) && plan.kernel
                    == self.kernel && plan.execution == self.execution && plan.enable_inet_hijack
                    == self.machine.enable_inet_hijack,
            },
    {
        match check_settings(&self.machine, host) {
            Err(problem) => {
                return Err(Error::Config(problem));
            },
            Ok(()) => {},
        }
        match check_vm_config(&self.machine) {
            Err(problem) => {
                return Err(map_vm_config_error(&self.machine, problem));
            },
            Ok(()) => {},
        }
        let VmBuilder { machine, kernel, fs, console, execution, net, disk } = self;
        let cpu_device: Option<CpuDeviceConfig> = match machine.max_vcpus {
            Some(max) => if max > machine.vcpus {
                Some(CpuDeviceConfig { possible: max as u32, online: machine.vcpus as u32 })
            } else {
                None
            },
            None => None,
        };
        let mem_device: bool = match machine.max_memory_mib {
            Some(max) => max > machine.memory_mib,
            None => false,
        };
        let vcpu_affinity: Option<Vec<HostCpuId>> = match host {
            HostOs::Linux => machine.vcpu_affinity,
            HostOs::Windows => machine.vcpu_affinity,
            _ => None,
        };
        let (paths, customs) = plan_mounts(fs.configs);
        let console_ports: Option<Vec<PortConfig>> = if console.ports.len() == 0 {
            None
        } else {
            Some(console.ports)
        };
        let resources: VmResources = VmResources {
            vcpus: machine.vcpus,
            memory_mib: machine.memory_mib,
            max_vcpus: machine.max_vcpus,
            max_memory_mib: machine.max_memory_mib,
            hyperthreading: machine.hyperthreading,
            vcpu_affinity,
            cpu_device,
            mem_device,
            nested_enabled: machine.nested_virt,
            split_irqchip: machine.split_irqchip,
            request_vsock: machine.vsock,
            enable_balloon: machine.balloon,
            balloon_stats_interval: machine.balloon_stats_interval,
            enable_rng: machine.rng,
            enable_msb_metrics: machine.msb_metrics,
            fs: paths,
            custom_fs: customs,
            console_output: console.output,
            snd_device: console.sound,
            gpu_virgl_flags: console.gpu_virgl_flags,
            gpu_shm_size: console.gpu_shm_size,
            console_ports,
            disable_implicit_console: console.disable_implicit,
            net: plan_interfaces(net.configs),
            block: plan_disks(disk.configs),
        };
        Ok(
            VmPlan {
                resources,
                kernel,
                execution,
                enable_inet_hijack: machine.enable_inet_hijack,
            },
        )
    }

    /// Builds the VM: checks the configuration, and gives what is ready to run where every device
    /// can be attached.
    pub fn build(self, host: HostOs) -> (r: Result<VmParts, Error>)
        ensures
            match machine_problem(self.machine, host) {
                Some(problem) => r == Err::<VmParts, Error>(Error::Config(problem)),
                None => match first_refusal(self.execution.env@) {
                    Some(text) => r matches Err(Error::Build(BuildError::Start(t))) && t@ == text,
                    None => r matches Ok(parts) && parts.resources.realize(self, host)
                        && parts.complete(
                        (VmPlan {
                            resources: parts.resources,
                            kernel: self.kernel,
                            execution: self.execution,
                            enable_inet_hijack: self.machine.enable_inet_hijack,
                        }),
                    ),
                },
            },
    {
        match self.plan(host) {
            Err(problem) => Err(problem),
            Ok(plan) => plan.finish(Ok(())),
        }
    }
}

/// A machine is accepted exactly where it has CPUs and memory, pairs of CPUs where they come in
/// pairs, room to grow that is no smaller than what it starts with, and, where its CPUs are pinned,
/// one host CPU for each that it may have, on a host that can pin them.
pub proof fn machines_are_accepted_by_their_sizes(
    builder: VmBuilder,
    host: HostOs,
    r: Result<VmPlan, Error>,
    cpus: Seq<HostCpuId>,
)
    requires
        call_ensures(VmBuilder::plan, (builder, host), r),
        builder.machine.vcpu_affinity is Some ==> cpus == builder.machine.vcpu_affinity->Some_0@,
    ensures
        ({
            let machine = builder.machine;
            r is Ok <==> {
                &&& machine.vcpus > 0
                &&& machine.memory_mib > 0
                &&& machine.hyperthreading && machine.vcpus > 1 ==> machine.vcpus % 2 == 0
                &&& machine.max_vcpus is Some ==> machine.max_vcpus->Some_0 >= machine.vcpus
                &&& machine.max_memory_mib is Some ==> machine.max_memory_mib->Some_0
                    >= machine.memory_mib
                &&& machine.vcpu_affinity is Some ==> {
                    &&& machine.max_vcpus is Some ==> cpus.len() == machine.max_vcpus->Some_0
                    &&& machine.max_vcpus is None ==> cpus.len() == machine.vcpus
                    &&& host is Linux || host is Windows
                    &&& host is Linux ==> (forall|i: int|
                        0 <= i < cpus.len() ==> (#[trigger] cpus[i]).group == 0)
                }
            }
        }),
        r is Err ==> r->Err_0 is Config,
{
    lemma_foreign_group(cpus);
}

proof fn lemma_foreign_group(cpus: Seq<HostCpuId>)
    ensures
        first_foreign_group(cpus) is None <==> forall|i: int|
            0 <= i < cpus.len() ==> (#[trigger] cpus[i]).group == 0,
        first_foreign_group(cpus) is Some ==> exists|i: int|
            0 <= i < cpus.len() && (#[trigger] cpus[i]).group == first_foreign_group(cpus)->Some_0
                && cpus[i].group != 0,
    decreases cpus.len(),
{
    if cpus.len() > 0 {
        let rest = cpus.skip(1);
        lemma_foreign_group(rest);
        if cpus[0].group == 0 {
            assert(forall|i: int| 0 <= i < rest.len() ==> #[trigger] rest[i] == cpus[i + 1]);
            if first_foreign_group(rest) is None {
                assert forall|i: int| 0 <= i < cpus.len() implies (#[trigger] cpus[i]).group
                    == 0 by {
                    if i > 0 {
                        assert(rest[i - 1].group == 0);
                    }
                }
            } else {
                let i = choose|i: int|
                    0 <= i < rest.len() && (#[trigger] rest[i]).group == first_foreign_group(
                        rest,
                    )->Some_0 && rest[i].group != 0;
                assert(cpus[i + 1].group != 0);
            }
        }
    }
}

/// What is wrong with a machine is named with the value that it has.
pub proof fn refused_machines_are_told_why(
    builder: VmBuilder,
    host: HostOs,
    r: Result<VmPlan, Error>,
    cpus: Seq<HostCpuId>,
    possible: u8,
    i: int,
)
    requires
        call_ensures(VmBuilder::plan, (builder, host), r),
        builder.machine.vcpu_affinity is Some ==> cpus == builder.machine.vcpu_affinity->Some_0@,
        builder.machine.max_vcpus is Some ==> possible == builder.machine.max_vcpus->Some_0,
        builder.machine.max_vcpus is None ==> possible == builder.machine.vcpus,
    ensures
        ({
            let machine = builder.machine;
            let pinned = machine.vcpu_affinity is Some;
            &&& machine.vcpus == 0 ==> r->Err_0 == Error::Config(ConfigError::InvalidVcpuCount(0))
            &&& machine.vcpus > 0 && machine.memory_mib == 0 ==> r->Err_0 == Error::Config(
                ConfigError::InvalidMemorySize(0),
            )
            &&& machine.memory_mib > 0 && !pinned && machine.hyperthreading && machine.vcpus > 1
                && machine.vcpus % 2 == 1 ==> r->Err_0 == Error::Config(
                ConfigError::InvalidVcpuCount(machine.vcpus),
            )
            &&& machine.memory_mib > 0 && !pinned && !machine.hyperthreading && machine.max_vcpus
                is Some && machine.max_vcpus->Some_0 < machine.vcpus ==> r->Err_0 == Error::Config(
                ConfigError::InvalidMaxVcpuCount(machine.max_vcpus->Some_0),
            )
            &&& machine.vcpus > 0 && !pinned && !machine.hyperthreading && machine.max_vcpus is None
                && machine.max_memory_mib is Some && machine.max_memory_mib->Some_0
                < machine.memory_mib && machine.memory_mib > 0 ==> r->Err_0 == Error::Config(
                ConfigError::InvalidMaxMemorySize(machine.max_memory_mib->Some_0),
            )
            &&& machine.vcpus > 0 && machine.memory_mib > 0 && pinned && cpus.len() != possible
                && cpus.len() <= usize::MAX ==> r->Err_0 is Config
                && r->Err_0->Config_0 is InvalidVcpuAffinityLength
                && r->Err_0->Config_0->expected == possible && r->Err_0->Config_0->actual
                == cpus.len()
            &&& machine.vcpus > 0 && machine.memory_mib > 0 && pinned && cpus.len() == possible
                && !(
            host is Linux || host is Windows) ==> r->Err_0 == Error::Config(
                ConfigError::VcpuAffinityUnsupported,
            )
            &&& machine.vcpus > 0 && machine.memory_mib > 0 && pinned && cpus.len() == possible
                && host
                is Linux && 0 <= i < cpus.len() && cpus[i].group != 0 && (forall|k: int|
                0 <= k < i ==> (#[trigger] cpus[k]).group == 0) ==> r->Err_0 == Error::Config(
                ConfigError::InvalidHostCpuGroup(cpus[i].group),
            )
        }),
{
    if 0 <= i < cpus.len() && cpus[i].group != 0 && (forall|k: int|
        0 <= k < i ==> (#[trigger] cpus[k]).group == 0) {
        lemma_first_foreign(cpus, i);
    }
}

proof fn lemma_first_foreign(cpus: Seq<HostCpuId>, i: int)
    requires
        0 <= i < cpus.len(),
        cpus[i].group != 0,
        forall|k: int| 0 <= k < i ==> (#[trigger] cpus[k]).group == 0,
    ensures
        first_foreign_group(cpus) == Some(cpus[i].group),
    decreases i,
{
    if i > 0 {
        let rest = cpus.skip(1);
        assert(cpus[0].group == 0);
        assert forall|k: int| 0 <= k < i - 1 implies (#[trigger] rest[k]).group == 0 by {
            assert(rest[k] == cpus[k + 1]);
        }
        lemma_first_foreign(rest, i - 1);
    }
}

/// The planned VM has what the machine was given: a device to grow by where it may grow, pinned
/// CPUs where the host can pin them, and each switch as it was set.
pub proof fn planned_machine_is_as_set(builder: VmBuilder, host: HostOs, r: Result<VmPlan, Error>)
    requires
        call_ensures(VmBuilder::plan, (builder, host), r),
        r is Ok,
    ensures
        ({
            let machine = builder.machine;
            let made = r->Ok_0.resources;
            &&& made.vcpus == machine.vcpus && made.memory_mib == machine.memory_mib
            &&& made.max_vcpus == machine.max_vcpus && made.max_memory_mib
                == machine.max_memory_mib
            &&& made.hyperthreading == machine.hyperthreading
            &&& made.vcpu_affinity == machine.vcpu_affinity
            &&& made.cpu_device is Some <==> machine.max_vcpus is Some && machine.max_vcpus->Some_0
                > machine.vcpus
            &&& made.cpu_device is Some ==> made.cpu_device->Some_0.possible
                == machine.max_vcpus->Some_0 && made.cpu_device->Some_0.online == machine.vcpus
            &&& made.mem_device <==> machine.max_memory_mib is Some
                && machine.max_memory_mib->Some_0 > machine.memory_mib
            &&& made.nested_enabled == machine.nested_virt
            &&& made.split_irqchip == machine.split_irqchip
            &&& made.request_vsock == machine.vsock
            &&& made.enable_balloon == machine.balloon
            &&& made.balloon_stats_interval == machine.balloon_stats_interval
            &&& made.enable_rng == machine.rng
            &&& made.enable_msb_metrics == machine.msb_metrics
            &&& r->Ok_0.enable_inet_hijack == machine.enable_inet_hijack
        }),
{
}

/// The planned VM has the console that was set: its output, sound and graphics, and its ports where
/// there are any.
pub proof fn planned_console_is_as_set(builder: VmBuilder, host: HostOs, r: Result<VmPlan, Error>)
    requires
        call_ensures(VmBuilder::plan, (builder, host), r),
        r is Ok,
    ensures
        ({
            let console = builder.console;
            let made = r->Ok_0.resources;
            &&& made.console_output == console.output
            &&& made.snd_device == console.sound
            &&& made.gpu_virgl_flags == console.gpu_virgl_flags
            &&& made.gpu_shm_size == console.gpu_shm_size
            &&& made.disable_implicit_console == console.disable_implicit
            &&& made.console_ports is None <==> console.ports@.len() == 0
            &&& made.console_ports is Some ==> made.console_ports->Some_0@ == console.ports@
        }),
{
}

/// The address that is made up for an interface starts with a fixed prefix and counts in its last
/// byte, from one interface to the next.
pub proof fn made_up_addresses_count_on(a: usize, b: usize, x: [u8; 6], y: [u8; 6], k: int)
    requires
        call_ensures(generate_mac, (a,), x),
        call_ensures(generate_mac, (b,), y),
        b == a + 1,
        0 <= k < 5,
    ensures
        x@[0] == 0x52 && x@[1] == 0x54 && x@[2] == 0 && x@[3] == 0x12 && x@[4] == 0x34,
        x@[k] == y@[k],
        x@[5] < 255 ==> y@[5] == x@[5] + 1,
        x@[5] == 255 ==> y@[5] == 0,
        a == 0 ==> x@[5] == 0x56,
{
}

/// Each interface that was set is planned in its place: it is named by that place, has the backend
/// and the address that it was given, and one made up for its place where it was given none.
pub proof fn planned_interfaces_are_as_set(
    builder: VmBuilder,
    host: HostOs,
    r: Result<VmPlan, Error>,
    i: int,
    number: &mut String,
    address: [u8; 6],
)
    requires
        call_ensures(VmBuilder::plan, (builder, host), r),
        r is Ok,
        0 <= i < builder.net.configs@.len() <= usize::MAX,
        i <= u64::MAX,
        number@.len() == 0,
        call_ensures(push_decimal, (number, i as u64), ()),
        call_ensures(generate_mac, (i as usize,), address),
    ensures
        ({
            let config = builder.net.configs@[i];
            let made = r->Ok_0.resources.net@;
            &&& made.len() == builder.net.configs@.len()
            &&& made[i].iface_id@ == seq!['e', 't', 'h'] + final(number)@
            &&& made[i].backend == config.target
            &&& config.mac is Some ==> made[i].mac == config.mac->Some_0
            &&& config.mac is None ==> made[i].mac@ == address@
            &&& made[i].features == 0
        }),
{
    reveal_strlit("eth");
    assert("eth"@ =~= seq!['e', 't', 'h']);
    let made = r->Ok_0.resources.net@;
    assert(is_interface(made[i], builder.net.configs@[i], i as nat));
    assert(final(number)@ =~= decimal(i as nat));
}

/// The letters of a disk count like the columns of a sheet: one for the first twenty-six, and
/// behind each name of what came before, twenty-six more.
pub proof fn disk_letters_count_like_columns(a: usize, b: usize, d: int, x: String, y: String)
    requires
        call_ensures(vd_suffix, (a,), x),
        call_ensures(vd_suffix, (b,), y),
        0 <= d < 26,
        b == 26 * (a + 1) + d,
    ensures
        y@.len() == x@.len() + 1,
        y@.drop_last() == x@,
        y@.last() as int == 97 + d,
{
    assert(b / 26 == a + 1 && b % 26 == d) by (nonlinear_arith)
        requires
            0 <= d < 26,
            b == 26 * (a + 1) + d,
    ;
    assert(disk_suffix(b as nat).drop_last() =~= disk_suffix(a as nat));
}

/// The first twenty-six disks are named by one letter each.
pub proof fn first_disks_have_one_letter(n: usize, r: String)
    requires
        call_ensures(vd_suffix, (n,), r),
        n < 26,
    ensures
        r@.len() == 1,
        r@[0] as int == 97 + n,
{
}

/// Each disk that was set is planned in its place, with its own settings, under its own name or
/// one made up for its place.
pub proof fn planned_disks_are_as_set(
    builder: VmBuilder,
    host: HostOs,
    r: Result<VmPlan, Error>,
    i: int,
    letters: String,
)
    requires
        call_ensures(VmBuilder::plan, (builder, host), r),
        r is Ok,
        0 <= i < builder.disk.configs@.len() <= usize::MAX,
        call_ensures(vd_suffix, (i as usize,), letters),
    ensures
        ({
            let config = builder.disk.configs@[i];
            let made = r->Ok_0.resources.block@;
            &&& made.len() == builder.disk.configs@.len()
            &&& made[i].disk_image_path == config.path
            &&& config.id is Some ==> made[i].block_id@ == config.id->Some_0@
            &&& config.id is None ==> made[i].block_id@ == seq!['v', 'd'] + letters@
            &&& made[i].is_disk_read_only == config.read_only
            &&& made[i].direct_io == config.direct_io
            &&& made[i].disk_image_format is Raw <==> config.format is Raw
            &&& made[i].disk_image_format is Qcow2 <==> config.format is Qcow2
            &&& made[i].disk_image_format is Vmdk <==> config.format is Vmdk
            &&& made[i].cache_type is Writeback <==> config.cache is Writeback
            &&& made[i].sync_mode is Off <==> config.sync is Off
            &&& made[i].sync_mode is Relaxed <==> config.sync is Relaxed
            &&& made[i].sync_mode is Full <==> config.sync is Full
        }),
{
    reveal_strlit("vd");
    assert("vd"@ =~= seq!['v', 'd']);
    let made = r->Ok_0.resources.block@;
    assert(is_block_device(made[i], builder.disk.configs@[i], i as nat));
}

/// How many of the first mounts are directories of the host.
pub open spec fn paths_among(configs: Seq<FsConfig>, n: int) -> int
    decreases n,
{
    if n <= 0 {
        0
    } else {
        paths_among(configs, n - 1) + if configs[n - 1] is Path {
            1int
        } else {
            0int
        }
    }
}

/// Each mount that was set is planned: a directory of the host in its place among those, with its
/// tag, path and window, and a backend of one's own in its place among the others.
pub proof fn planned_mounts_are_as_set(
    builder: VmBuilder,
    host: HostOs,
    r: Result<VmPlan, Error>,
    i: int,
)
    requires
        call_ensures(VmBuilder::plan, (builder, host), r),
        r is Ok,
        0 <= i < builder.fs.configs@.len(),
    ensures
        ({
            let configs = builder.fs.configs@;
            let config = configs[i];
            let shared = r->Ok_0.resources.fs@;
            let custom = r->Ok_0.resources.custom_fs@;
            let place = paths_among(configs, i);
            &&& shared.len() == paths_among(configs, configs.len() as int)
            &&& shared.len() + custom.len() == configs.len()
            &&& config is Path ==> 0 <= place < shared.len() && shared[place].fs_id
                == config->Path_tag && shared[place].shared_dir == config->path
                && shared[place].shm_size == config->shm_size
                    && !shared[place].allow_root_dir_delete
            &&& config is Custom ==> 0 <= i - place < custom.len() && custom[i - place].fs_id
                == config->Custom_tag && custom[i - place].shm_size is None
        }),
{
    lemma_mounts(builder.fs.configs@, i);
}

proof fn lemma_mounts(configs: Seq<FsConfig>, i: int)
    requires
        0 <= i < configs.len(),
    ensures
        ({
            let config = configs[i];
            let shared = directories(configs);
            let custom = custom_backends(configs);
            let place = paths_among(configs, i);
            &&& 0 <= place <= i
            &&& shared.len() == paths_among(configs, configs.len() as int)
            &&& shared.len() + custom.len() == configs.len()
            &&& config is Path ==> place < shared.len() && shared[place].fs_id == config->Path_tag
                && shared[place].shared_dir == config->path && shared[place].shm_size
                == config->shm_size && !shared[place].allow_root_dir_delete
            &&& config is Custom ==> i - place < custom.len() && custom[i - place].fs_id
                == config->Custom_tag && custom[i - place].shm_size is None
        }),
    decreases configs.len(),
{
    let front = configs.drop_last();
    lemma_paths_among(front, configs, i);
    lemma_paths_among(front, configs, front.len() as int);
    if front.len() == 0 {
        assert(directories(front) =~= Seq::empty());
        assert(custom_backends(front) =~= Seq::empty());
        assert(paths_among(configs, 0) == 0);
    } else if i < front.len() {
        lemma_mounts(front, i);
        assert(front[i] == configs[i]);
    } else {
        lemma_mounts(front, front.len() - 1);
        lemma_paths_bounded(configs, i);
    }
    assert(configs[configs.len() - 1] == configs.last());
}

proof fn lemma_paths_among(front: Seq<FsConfig>, configs: Seq<FsConfig>, n: int)
    requires
        configs.len() > 0,
        front == configs.drop_last(),
        0 <= n < configs.len(),
    ensures
        paths_among(front, n) == paths_among(configs, n),
    decreases n,
{
    if n > 0 {
        lemma_paths_among(front, configs, n - 1);
        assert(front[n - 1] == configs[n - 1]);
    }
}

proof fn lemma_paths_bounded(configs: Seq<FsConfig>, n: int)
    requires
        0 <= n,
    ensures
        0 <= paths_among(configs, n) <= n,
    decreases n,
{
    if n > 0 {
        lemma_paths_bounded(configs, n - 1);
    }
}

/// A finished VM has the kernel, the program and the settings of its plan, and the texts that its
/// command line carries.
pub proof fn finished_parts_are_those_of_the_plan(
    plan: VmPlan,
    r: Result<VmParts, Error>,
    carried: Result<(), String>,
    args: Option<String>,
    env: Option<String>,
    limits: Option<String>,
)
    requires
        call_ensures(VmPlan::finish, (plan, Ok::<(), ConfigError>(())), r),
        call_ensures(check_env, (&plan.execution.env,), carried),
        call_ensures(format_args_text, (&plan.execution.args,), args),
        call_ensures(format_env_text, (&plan.execution.env,), env),
        call_ensures(format_rlimits_text, (&plan.execution.rlimits,), limits),
    ensures
        r is Ok <==> carried is Ok,
        r is Err ==> r->Err_0 is Build && r->Err_0->Build_0 is Start && r->Err_0->Build_0->Start_0@
            == carried->Err_0@,
        r is Ok ==> {
            let parts = r->Ok_0;
            &&& parts.resources == plan.resources
            &&& parts.kernel_cmdline == plan.kernel.cmdline
            &&& parts.krunfw_path == plan.kernel.krunfw_path
            &&& parts.initramfs_path == plan.kernel.initramfs_path
            &&& parts.init_path == plan.kernel.init_path
            &&& parts.exec_path == plan.execution.path
            &&& parts.workdir == plan.execution.workdir
            &&& parts.enable_inet_hijack == plan.enable_inet_hijack
            &&& text_of(parts.args) == text_of(args)
            &&& text_of(parts.env) == text_of(env)
            &&& text_of(parts.rlimits) == text_of(limits)
        },
{
}

/// A VM is built where its plan is made and finished, and both fail with what was wrong.
pub proof fn building_is_planning_and_finishing(
    builder: VmBuilder,
    host: HostOs,
    planned: Result<VmPlan, Error>,
    carried: Result<(), String>,
    r: Result<VmParts, Error>,
)
    requires
        call_ensures(VmBuilder::plan, (builder, host), planned),
        call_ensures(check_env, (&builder.execution.env,), carried),
        call_ensures(VmBuilder::build, (builder, host), r),
    ensures
        r is Ok <==> planned is Ok && carried is Ok,
        planned is Err ==> r is Err && r->Err_0 == planned->Err_0,
        planned is Ok ==> planned->Ok_0.kernel == builder.kernel && planned->Ok_0.execution
            == builder.execution,
        r is Ok ==> r->Ok_0.exec_path == builder.execution.path && r->Ok_0.workdir
            == builder.execution.workdir && r->Ok_0.kernel_cmdline == builder.kernel.cmdline
            && r->Ok_0.krunfw_path == builder.kernel.krunfw_path && r->Ok_0.initramfs_path
            == builder.kernel.initramfs_path && r->Ok_0.init_path == builder.kernel.init_path,
{
}

/// The disks, interfaces and mounts of a builder stand in front of those that are added to it, and
/// what is added starts from nothing.
pub proof fn added_devices_stand_behind<
    D: FnOnce(DiskBuilder) -> DiskBuilder,
    N: FnOnce(NetBuilder) -> NetBuilder,
    M: FnOnce(FsBuilder) -> FsBuilder,
>(
    builder: VmBuilder,
    disks: D,
    interfaces: N,
    mounts: M,
    disk: VmBuilder,
    net: VmBuilder,
    fs: VmBuilder,
    i: int,
)
    requires
        call_ensures(VmBuilder::disk::<D>, (builder, disks), disk),
        call_ensures(VmBuilder::net::<N>, (builder, interfaces), net),
        call_ensures(VmBuilder::fs::<M>, (builder, mounts), fs),
    ensures
        0 <= i < builder.disk.configs@.len() ==> i < disk.disk.configs@.len()
            && disk.disk.configs@[i] == builder.disk.configs@[i],
        0 <= i < builder.net.configs@.len() ==> i < net.net.configs@.len() && net.net.configs@[i]
            == builder.net.configs@[i],
        0 <= i < builder.fs.configs@.len() ==> i < fs.fs.configs@.len() && fs.fs.configs@[i]
            == builder.fs.configs@[i],
        disk.net == builder.net && disk.fs == builder.fs && disk.machine == builder.machine,
        net.disk == builder.disk && net.fs == builder.fs && net.machine == builder.machine,
        fs.disk == builder.disk && fs.net == builder.net && fs.machine == builder.machine,
{
}

/// A builder that nothing was said to plans the smallest machine, with no devices and no program.
pub proof fn fresh_builder_holds_nothing(r: VmBuilder)
    requires
        call_ensures(VmBuilder::new, (), r),
    ensures
        r.machine.vcpus == 1 && r.machine.memory_mib == 512,
        r.kernel.cmdline is None && r.kernel.krunfw_path is None && r.kernel.initramfs_path is None
            && r.kernel.init_path is None,
        r.fs.configs@.len() == 0 && r.net.configs@.len() == 0 && r.disk.configs@.len() == 0,
        r.console.ports@.len() == 0 && r.console.output is None && !r.console.disable_implicit
            && !r.console.sound,
        r.execution.path is None && r.execution.args@.len() == 0 && r.execution.env@.len() == 0
            && r.execution.workdir is None && r.execution.rlimits@.len() == 0,
{
}

/// The sizes of a machine are checked in order, and what is wrong is reported with the machine's own
/// value.
pub proof fn wrong_sizes_are_reported(
    machine: MachineBuilder,
    r: Result<(), VmConfigError>,
    reported: Error,
)
    requires
        call_ensures(check_vm_config, (&machine,), r),
        r is Err ==> call_ensures(map_vm_config_error, (&machine, r->Err_0), reported),
    ensures
        r is Ok <==> {
            &&& machine.vcpus > 0
            &&& machine.memory_mib > 0
            &&& machine.hyperthreading && machine.vcpus > 1 ==> machine.vcpus % 2 == 0
            &&& machine.max_vcpus is Some ==> machine.max_vcpus->Some_0 >= machine.vcpus
            &&& machine.max_memory_mib is Some ==> machine.max_memory_mib->Some_0
                >= machine.memory_mib
        },
        r is Err && r->Err_0 is InvalidVcpuCount ==> reported == Error::Config(
            ConfigError::InvalidVcpuCount(machine.vcpus),
        ),
        r is Err && r->Err_0 is InvalidMemorySize ==> reported == Error::Config(
            ConfigError::InvalidMemorySize(machine.memory_mib),
        ),
        r is Err && r->Err_0 is InvalidMaxVcpuCount ==> machine.max_vcpus is Some && reported
            == Error::Config(ConfigError::InvalidMaxVcpuCount(machine.max_vcpus->Some_0)),
        r is Err && r->Err_0 is InvalidMaxMemorySize ==> machine.max_memory_mib is Some && reported
            == Error::Config(ConfigError::InvalidMaxMemorySize(machine.max_memory_mib->Some_0)),
{
}

} // verus!
