//! Builders for the parts of a VM's configuration.

use crate::block::device::{CacheType, ImageType};
use crate::text::{decimal, push_decimal};
use vstd::prelude::*;

verus! {

/// A CPU of the host.
#[derive(Clone, Copy, Debug, PartialEq, Eq, Structural)]
pub struct HostCpuId {
    pub group: u16,
    pub index: u32,
}

impl HostCpuId {
    /// A CPU of the first group.
    pub fn new(index: u32) -> (r: HostCpuId)
        ensures
            r == (HostCpuId { group: 0, index }),
    {
        HostCpuId { group: 0, index }
    }

    /// A CPU of a group.
    pub fn in_group(group: u16, index: u32) -> (r: HostCpuId)
        ensures
            r == (HostCpuId { group, index }),
    {
        HostCpuId { group, index }
    }
}

/// Builder for machine configuration (vCPUs, memory, etc.).
#[derive(Debug)]
pub struct MachineBuilder {
    pub vcpus: u8,
    pub memory_mib: usize,
    /// The most virtual CPUs that the VM may grow to.
    pub max_vcpus: Option<u8>,
    /// The most memory that the VM may grow to.
    pub max_memory_mib: Option<usize>,
    /// The host CPU of every virtual CPU.
    pub vcpu_affinity: Option<Vec<HostCpuId>>,
    pub hyperthreading: bool,
    pub nested_virt: bool,
    pub split_irqchip: bool,
    pub vsock: bool,
    pub balloon: bool,
    /// How often the guest is asked for memory statistics, in nanoseconds.
    pub balloon_stats_interval: Option<u64>,
    pub rng: bool,
    pub msb_metrics: bool,
    pub enable_inet_hijack: bool,
}

/// The machine that a builder starts with.
pub open spec fn default_machine() -> MachineBuilder {
    MachineBuilder {
        vcpus: 1,
        memory_mib: 512,
        max_vcpus: None,
        max_memory_mib: None,
        vcpu_affinity: None,
        hyperthreading: false,
        nested_virt: false,
        split_irqchip: false,
        vsock: false,
        balloon: true,
        balloon_stats_interval: Some(1_000_000_000),
        rng: true,
        msb_metrics: false,
        enable_inet_hijack: false,
    }
}

impl Default for MachineBuilder {
    fn default() -> (r: MachineBuilder)
        ensures
            r == default_machine(),
    {
        MachineBuilder::new()
    }
}

impl MachineBuilder {
    /// Creates a new machine builder with defaults.
    pub fn new() -> (r: MachineBuilder)
        ensures
            r == default_machine(),
    {
        MachineBuilder {
            vcpus: 1,
            memory_mib: 512,
            max_vcpus: None,
            max_memory_mib: None,
            vcpu_affinity: None,
            hyperthreading: false,
            nested_virt: false,
            split_irqchip: false,
            vsock: false,
            balloon: true,
            balloon_stats_interval: Some(1_000_000_000),
            rng: true,
            msb_metrics: false,
            enable_inet_hijack: false,
        }
    }

    /// Sets the number of virtual CPUs.
    pub fn vcpus(self, count: u8) -> (r: MachineBuilder)
        ensures
            r == (MachineBuilder { vcpus: count, ..self }),
    {
        let mut builder = self;
        builder.vcpus = count;
        builder
    }

    /// Sets the memory size in MiB.
    pub fn memory_mib(self, mib: usize) -> (r: MachineBuilder)
        ensures
            r == (MachineBuilder { memory_mib: mib, ..self }),
    {
        let mut builder = self;
        builder.memory_mib = mib;
        builder
    }

    /// Reserves room to grow to so many virtual CPUs.
    pub fn max_vcpus(self, count: u8) -> (r: MachineBuilder)
        ensures
            r == (MachineBuilder { max_vcpus: Some(count), ..self }),
    {
        let mut builder = self;
        builder.max_vcpus = Some(count);
        builder
    }

    /// Reserves room to grow to so much memory in MiB.
    pub fn max_memory_mib(self, mib: usize) -> (r: MachineBuilder)
        ensures
            r == (MachineBuilder { max_memory_mib: Some(mib), ..self }),
    {
        let mut builder = self;
        builder.max_memory_mib = Some(mib);
        builder
    }

    /// Pins every virtual CPU to a host CPU.
    pub fn vcpu_affinity(self, cpus: Vec<HostCpuId>) -> (r: MachineBuilder)
        ensures
            r == (MachineBuilder { vcpu_affinity: Some(cpus), ..self }),
    {
        let mut builder = self;
        builder.vcpu_affinity = Some(cpus);
        builder
    }

    /// Enables or disables hyperthreading.
    pub fn hyperthreading(self, enabled: bool) -> (r: MachineBuilder)
        ensures
            r == (MachineBuilder { hyperthreading: enabled, ..self }),
    {
        let mut builder = self;
        builder.hyperthreading = enabled;
        builder
    }

    /// Enables or disables nested virtualization.
    pub fn nested_virt(self, enabled: bool) -> (r: MachineBuilder)
        ensures
            r == (MachineBuilder { nested_virt: enabled, ..self }),
    {
        let mut builder = self;
        builder.nested_virt = enabled;
        builder
    }

    /// Enables the userspace split irqchip on x86_64.
    pub fn split_irqchip(self, enabled: bool) -> (r: MachineBuilder)
        ensures
            r == (MachineBuilder { split_irqchip: enabled, ..self }),
    {
        let mut builder = self;
        builder.split_irqchip = enabled;
        builder
    }

    /// Force-attaches a socket device to the guest.
    pub fn vsock(self, enabled: bool) -> (r: MachineBuilder)
        ensures
            r == (MachineBuilder { vsock: enabled, ..self }),
    {
        let mut builder = self;
        builder.vsock = enabled;
        builder
    }

    /// Enables or disables the balloon device.
    pub fn balloon(self, enabled: bool) -> (r: MachineBuilder)
        ensures
            r == (MachineBuilder { balloon: enabled, ..self }),
    {
        let mut builder = self;
        builder.balloon = enabled;
        builder
    }

    /// Sets how often the guest is asked for memory statistics, in nanoseconds; `None` for never.
    pub fn balloon_stats_interval(self, interval: Option<u64>) -> (r: MachineBuilder)
        ensures
            r == (MachineBuilder { balloon_stats_interval: interval, ..self }),
    {
        let mut builder = self;
        builder.balloon_stats_interval = interval;
        builder
    }

    /// Enables or disables the random number device.
    pub fn rng(self, enabled: bool) -> (r: MachineBuilder)
        ensures
            r == (MachineBuilder { rng: enabled, ..self }),
    {
        let mut builder = self;
        builder.rng = enabled;
        builder
    }

    /// Enables or disables the guest metrics device.
    pub fn msb_metrics(self, enabled: bool) -> (r: MachineBuilder)
        ensures
            r == (MachineBuilder { msb_metrics: enabled, ..self }),
    {
        let mut builder = self;
        builder.msb_metrics = enabled;
        builder
    }

    /// Lets a guest without a network device reach the host's network through its sockets.
    pub fn enable_inet_hijack(self, enabled: bool) -> (r: MachineBuilder)
        ensures
            r == (MachineBuilder { enable_inet_hijack: enabled, ..self }),
    {
        let mut builder = self;
        builder.enable_inet_hijack = enabled;
        builder
    }
}

/// Builder for kernel configuration.
#[derive(Debug)]
pub struct KernelBuilder {
    pub cmdline: Option<String>,
    pub krunfw_path: Option<String>,
    pub initramfs_path: Option<String>,
    pub init_path: Option<String>,
}

/// The view of an optional text.
pub open spec fn text_of(text: Option<String>) -> Option<Seq<char>> {
    match text {
        None => None,
        Some(text) => Some(text@),
    }
}

impl Default for KernelBuilder {
    fn default() -> (r: KernelBuilder)
        ensures
            r == (KernelBuilder {
                cmdline: None,
                krunfw_path: None,
                initramfs_path: None,
                init_path: None,
            }),
    {
        KernelBuilder { cmdline: None, krunfw_path: None, initramfs_path: None, init_path: None }
    }
}

impl KernelBuilder {
    /// Creates a new kernel builder.
    pub fn new() -> (r: KernelBuilder)
        ensures
            r == (KernelBuilder {
                cmdline: None,
                krunfw_path: None,
                initramfs_path: None,
                init_path: None,
            }),
    {
        KernelBuilder::default()
    }

    /// Appends to the kernel command line, behind a space where there is something already.
    pub fn cmdline(self, cmdline: &str) -> (r: KernelBuilder)
        ensures
            r == (KernelBuilder { cmdline: r.cmdline, ..self }),
            text_of(r.cmdline) == Some(
                match self.cmdline {
                    None => cmdline@,
                    Some(existing) => existing@.push(' ') + cmdline@,
                },
            ),
    {
        let mut builder = self;
        let text: String = match builder.cmdline {
            None => cmdline.to_owned(),
            Some(existing) => {
                let mut line: String = existing;
                line.push(' ');
                line.append(cmdline);
                line
            },
        };
        builder.cmdline = Some(text);
        builder
    }

    /// Sets an explicit path to the firmware library.
    pub fn krunfw_path(self, path: &str) -> (r: KernelBuilder)
        ensures
            r == (KernelBuilder { krunfw_path: r.krunfw_path, ..self }),
            text_of(r.krunfw_path) == Some(path@),
    {
        let mut builder = self;
        builder.krunfw_path = Some(path.to_owned());
        builder
    }

    /// Sets the path to an initial RAM disk.
    pub fn initramfs_path(self, path: &str) -> (r: KernelBuilder)
        ensures
            r == (KernelBuilder { initramfs_path: r.initramfs_path, ..self }),
            text_of(r.initramfs_path) == Some(path@),
    {
        let mut builder = self;
        builder.initramfs_path = Some(path.to_owned());
        builder
    }

    /// Sets the path to the init binary inside the guest.
    pub fn init_path(self, path: &str) -> (r: KernelBuilder)
        ensures
            r == (KernelBuilder { init_path: r.init_path, ..self }),
            text_of(r.init_path) == Some(path@),
    {
        let mut builder = self;
        builder.init_path = Some(path.to_owned());
        builder
    }
}

/// Builder for filesystem configuration.
#[derive(Debug)]
pub struct FsBuilder {
    pub configs: Vec<FsConfig>,
    pub current_tag: Option<String>,
    pub current_shm_size: Option<usize>,
}

/// Configuration for a single filesystem mount.
#[derive(Debug)]
pub enum FsConfig {
    /// Path-based filesystem.
    Path { tag: String, path: String, shm_size: Option<usize> },
    /// Custom filesystem backend, which its owner keeps.
    Custom { tag: String },
}

/// What a mount is called, and what is mounted.
pub open spec fn mounts_path(
    config: FsConfig,
    tag: Seq<char>,
    path: Seq<char>,
    shm_size: Option<usize>,
) -> bool {
    config matches FsConfig::Path { tag: t, path: p, shm_size: s } && t@ == tag && p@ == path && s
        == shm_size
}

/// The tag of the next mount: the one that was set, or its number behind `fs`.
pub open spec fn next_tag(current: Option<String>, count: nat) -> Seq<char> {
    match current {
        Some(tag) => tag@,
        None => "fs"@ + decimal(count),
    }
}

impl Default for FsBuilder {
    fn default() -> (r: FsBuilder)
        ensures
            r.is_fresh(),
    {
        FsBuilder::new()
    }
}

impl FsBuilder {
    /// Nothing was configured yet.
    pub open spec fn is_fresh(self) -> bool {
        self.configs@.len() == 0 && self.current_tag is None && self.current_shm_size is None
    }

    /// The earlier mounts are as they were, and one follows.
    pub open spec fn adds_to(self, before: FsBuilder) -> bool {
        &&& self.configs@.len() == before.configs@.len() + 1
        &&& self.configs@.drop_last() == before.configs@
    }

    /// Creates a new filesystem builder.
    pub fn new() -> (r: FsBuilder)
        ensures
            r.is_fresh(),
    {
        FsBuilder { configs: Vec::new(), current_tag: None, current_shm_size: None }
    }

    /// Mounts a path as the root filesystem, with the shared memory size that was set for it.
    pub fn root(self, path: &str) -> (r: FsBuilder)
        ensures
            r.adds_to(self),
            mounts_path(r.configs@.last(), "/dev/root"@, path@, self.current_shm_size),
            r.current_tag == self.current_tag,
            r.current_shm_size is None,
    {
        let mut builder = self;
        let shm_size: Option<usize> = builder.current_shm_size;
        builder.current_shm_size = None;
        builder.configs.push(
            FsConfig::Path { tag: "/dev/root".to_owned(), path: path.to_owned(), shm_size },
        );
        assert(builder.configs@.drop_last() =~= self.configs@);
        builder
    }

    /// Sets the tag for the next mount.
    pub fn tag(self, tag: &str) -> (r: FsBuilder)
        ensures
            r == (FsBuilder { current_tag: r.current_tag, ..self }),
            text_of(r.current_tag) == Some(tag@),
    {
        let mut builder = self;
        builder.current_tag = Some(tag.to_owned());
        builder
    }

    /// Mounts a path, under the tag and with the shared memory size that were set for it.
    pub fn path(self, path: &str) -> (r: FsBuilder)
        ensures
            r.adds_to(self),
            mounts_path(
                r.configs@.last(),
                next_tag(self.current_tag, self.configs@.len()),
                path@,
                self.current_shm_size,
            ),
            r.current_tag is None,
            r.current_shm_size is None,
    {
        let ghost before = self.configs@;
        let mut builder = self;
        let tag: String = take_tag(&mut builder);
        let shm_size: Option<usize> = builder.current_shm_size;
        builder.current_shm_size = None;
        builder.configs.push(FsConfig::Path { tag, path: path.to_owned(), shm_size });
        assert(builder.configs@.drop_last() =~= before);
        builder
    }

    /// Sets the shared memory size for the next mount.
    pub fn shm_size(self, size: usize) -> (r: FsBuilder)
        ensures
            r == (FsBuilder { current_shm_size: Some(size), ..self }),
    {
        let mut builder = self;
        builder.current_shm_size = Some(size);
        builder
    }

    /// Mounts a custom backend, under the tag that was set for it.
    pub fn custom(self) -> (r: FsBuilder)
        ensures
            r.adds_to(self),
            r.configs@.last() matches FsConfig::Custom { tag } && tag@ == next_tag(
                self.current_tag,
                self.configs@.len(),
            ),
            r.current_tag is None,
            r.current_shm_size == self.current_shm_size,
    {
        let ghost before = self.configs@;
        let mut builder = self;
        let tag: String = take_tag(&mut builder);
        builder.configs.push(FsConfig::Custom { tag });
        assert(builder.configs@.drop_last() =~= before);
        builder
    }
}

fn take_tag(builder: &mut FsBuilder) -> (r: String)
    ensures
        r@ == next_tag(old(builder).current_tag, old(builder).configs@.len()),
        *final(builder) == (FsBuilder { current_tag: None, ..*old(builder) }),
{
    match builder.current_tag.take() {
        Some(tag) => tag,
        None => {
            let mut tag: String = "fs".to_owned();
            push_decimal(&mut tag, builder.configs.len() as u64);
            tag
        },
    }
}

/// Builder for network configuration.
#[derive(Debug)]
pub struct NetBuilder {
    pub configs: Vec<NetConfig>,
    pub current_mac: Option<[u8; 6]>,
}

/// What a network device is connected to.
#[derive(Debug)]
pub enum NetTarget {
    /// A datagram socket that is open already.
    UnixgramFd { fd: i32 },
    /// A datagram socket at a path.
    UnixgramPath { path: String, send_vfkit_magic: bool },
    /// A stream socket that is open already.
    UnixstreamFd { fd: i32 },
    /// A stream socket at a path.
    UnixstreamPath { path: String },
    /// A TAP device.
    Tap { name: String },
    /// A named pipe.
    NamedPipe { name: String },
    /// Custom network backend, which its owner keeps.
    Custom,
}

/// Configuration for a single network device.
#[derive(Debug)]
pub struct NetConfig {
    pub mac: Option<[u8; 6]>,
    pub target: NetTarget,
}

impl Default for NetBuilder {
    fn default() -> (r: NetBuilder)
        ensures
            r.is_fresh(),
    {
        NetBuilder::new()
    }
}

impl NetBuilder {
    /// Nothing was configured yet.
    pub open spec fn is_fresh(self) -> bool {
        self.configs@.len() == 0 && self.current_mac is None
    }

    /// The earlier devices are as they were, and one follows, with the address that was set.
    pub open spec fn adds_to(self, before: NetBuilder) -> bool {
        &&& self.configs@.len() == before.configs@.len() + 1
        &&& self.configs@.drop_last() == before.configs@
        &&& self.configs@.last().mac == before.current_mac
        &&& self.current_mac is None
    }

    /// Creates a new network builder.
    pub fn new() -> (r: NetBuilder)
        ensures
            r.is_fresh(),
    {
        NetBuilder { configs: Vec::new(), current_mac: None }
    }

    /// Sets the MAC address for the next network device.
    pub fn mac(self, mac: [u8; 6]) -> (r: NetBuilder)
        ensures
            r == (NetBuilder { current_mac: Some(mac), ..self }),
    {
        let mut builder = self;
        builder.current_mac = Some(mac);
        builder
    }

    fn attach(self, target: NetTarget) -> (r: NetBuilder)
        ensures
            r.adds_to(self),
            r.configs@.last().target == target,
    {
        let mut builder = self;
        let mac: Option<[u8; 6]> = builder.current_mac;
        builder.current_mac = None;
        builder.configs.push(NetConfig { mac, target });
        assert(builder.configs@.drop_last() =~= self.configs@);
        builder
    }

    /// Attaches a datagram socket that is open already.
    pub fn unixgram(self, fd: i32) -> (r: NetBuilder)
        ensures
            r.adds_to(self),
            r.configs@.last().target == (NetTarget::UnixgramFd { fd }),
    {
        self.attach(NetTarget::UnixgramFd { fd })
    }

    /// Attaches a datagram socket at a path.
    pub fn unixgram_path(self, path: &str, send_vfkit_magic: bool) -> (r: NetBuilder)
        ensures
            r.adds_to(self),
            r.configs@.last().target matches NetTarget::UnixgramPath {
                path: p,
                send_vfkit_magic: magic,
            } && p@ == path@ && magic == send_vfkit_magic,
    {
        self.attach(NetTarget::UnixgramPath { path: path.to_owned(), send_vfkit_magic })
    }

    /// Attaches a stream socket that is open already.
    pub fn unixstream(self, fd: i32) -> (r: NetBuilder)
        ensures
            r.adds_to(self),
            r.configs@.last().target == (NetTarget::UnixstreamFd { fd }),
    {
        self.attach(NetTarget::UnixstreamFd { fd })
    }

    /// Attaches a stream socket at a path.
    pub fn unixstream_path(self, path: &str) -> (r: NetBuilder)
        ensures
            r.adds_to(self),
            r.configs@.last().target matches NetTarget::UnixstreamPath { path: p } && p@ == path@,
    {
        self.attach(NetTarget::UnixstreamPath { path: path.to_owned() })
    }

    /// Attaches a TAP device.
    pub fn tap(self, name: &str) -> (r: NetBuilder)
        ensures
            r.adds_to(self),
            r.configs@.last().target matches NetTarget::Tap { name: n } && n@ == name@,
    {
        self.attach(NetTarget::Tap { name: name.to_owned() })
    }

    /// Attaches a named pipe.
    pub fn named_pipe(self, name: &str) -> (r: NetBuilder)
        ensures
            r.adds_to(self),
            r.configs@.last().target matches NetTarget::NamedPipe { name: n } && n@ == name@,
    {
        self.attach(NetTarget::NamedPipe { name: name.to_owned() })
    }

    /// Attaches a custom network backend.
    pub fn custom(self) -> (r: NetBuilder)
        ensures
            r.adds_to(self),
            r.configs@.last().target == NetTarget::Custom,
    {
        self.attach(NetTarget::Custom)
    }
}

/// A port of the console device.
#[derive(Debug)]
pub enum PortConfig {
    /// The host reads from one descriptor and writes to another.
    InOut { name: String, input_fd: i32, output_fd: i32 },
    /// A terminal.
    Tty { name: String, tty_fd: i32 },
    /// Custom backend, which its owner keeps.
    Custom { name: String },
}

/// Builder for console/output configuration.
#[derive(Debug)]
pub struct ConsoleBuilder {
    pub output: Option<String>,
    pub ports: Vec<PortConfig>,
    pub disable_implicit: bool,
    pub sound: bool,
    pub gpu_virgl_flags: Option<u32>,
    pub gpu_shm_size: Option<usize>,
}

impl Default for ConsoleBuilder {
    fn default() -> (r: ConsoleBuilder)
        ensures
            r.is_fresh(),
    {
        ConsoleBuilder {
            output: None,
            ports: Vec::new(),
            disable_implicit: false,
            sound: false,
            gpu_virgl_flags: None,
            gpu_shm_size: None,
        }
    }
}

impl ConsoleBuilder {
    /// Nothing was configured yet.
    pub open spec fn is_fresh(self) -> bool {
        &&& self.output is None
        &&& self.ports@.len() == 0
        &&& !self.disable_implicit
        &&& !self.sound
        &&& self.gpu_virgl_flags is None
        &&& self.gpu_shm_size is None
    }

    /// The earlier ports are as they were, and one follows.
    pub open spec fn adds_to(self, before: ConsoleBuilder) -> bool {
        &&& self.ports@.len() == before.ports@.len() + 1
        &&& self.ports@.drop_last() == before.ports@
        &&& self == (ConsoleBuilder { ports: self.ports, ..before })
    }

    /// Creates a new console builder.
    pub fn new() -> (r: ConsoleBuilder)
        ensures
            r.is_fresh(),
    {
        ConsoleBuilder::default()
    }

    /// Sets the path to send console output.
    pub fn output(self, path: &str) -> (r: ConsoleBuilder)
        ensures
            r == (ConsoleBuilder { output: r.output, ..self }),
            text_of(r.output) == Some(path@),
    {
        let mut builder = self;
        builder.output = Some(path.to_owned());
        builder
    }

    /// Enables the sound device.
    pub fn sound(self, enabled: bool) -> (r: ConsoleBuilder)
        ensures
            r == (ConsoleBuilder { sound: enabled, ..self }),
    {
        let mut builder = self;
        builder.sound = enabled;
        builder
    }

    /// Sets GPU virgl flags.
    pub fn gpu_virgl_flags(self, flags: u32) -> (r: ConsoleBuilder)
        ensures
            r == (ConsoleBuilder { gpu_virgl_flags: Some(flags), ..self }),
    {
        let mut builder = self;
        builder.gpu_virgl_flags = Some(flags);
        builder
    }

    /// Sets GPU shared memory size.
    pub fn gpu_shm_size(self, size: usize) -> (r: ConsoleBuilder)
        ensures
            r == (ConsoleBuilder { gpu_shm_size: Some(size), ..self }),
    {
        let mut builder = self;
        builder.gpu_shm_size = Some(size);
        builder
    }

    fn add_port(self, port: PortConfig) -> (r: ConsoleBuilder)
        ensures
            r.adds_to(self),
            r.ports@.last() == port,
    {
        let mut builder = self;
        builder.ports.push(port);
        assert(builder.ports@.drop_last() =~= self.ports@);
        builder
    }

    /// Adds a bidirectional I/O port to the console device.
    pub fn port(self, name: &str, input_fd: i32, output_fd: i32) -> (r: ConsoleBuilder)
        ensures
            r.adds_to(self),
            r.ports@.last() matches PortConfig::InOut { name: n, input_fd: i, output_fd: o } && n@
                == name@ && i == input_fd && o == output_fd,
    {
        self.add_port(PortConfig::InOut { name: name.to_owned(), input_fd, output_fd })
    }

    /// Adds a terminal port to the console device.
    pub fn port_tty(self, name: &str, tty_fd: i32) -> (r: ConsoleBuilder)
        ensures
            r.adds_to(self),
            r.ports@.last() matches PortConfig::Tty { name: n, tty_fd: t } && n@ == name@ && t
                == tty_fd,
    {
        self.add_port(PortConfig::Tty { name: name.to_owned(), tty_fd })
    }

    /// Disables the implicit console device.
    pub fn disable_implicit(self) -> (r: ConsoleBuilder)
        ensures
            r == (ConsoleBuilder { disable_implicit: true, ..self }),
    {
        let mut builder = self;
        builder.disable_implicit = true;
        builder
    }

    /// Adds a custom console port backend.
    pub fn custom(self, name: &str) -> (r: ConsoleBuilder)
        ensures
            r.adds_to(self),
            r.ports@.last() matches PortConfig::Custom { name: n } && n@ == name@,
    {
        self.add_port(PortConfig::Custom { name: name.to_owned() })
    }
}

/// Builder for execution configuration.
#[derive(Debug)]
pub struct ExecBuilder {
    pub path: Option<String>,
    pub args: Vec<String>,
    pub env: Vec<(String, String)>,
    pub workdir: Option<String>,
    pub rlimits: Vec<(String, u64, u64)>,
}

/// A list of texts shows the given ones.
pub open spec fn same_texts(list: Seq<String>, texts: Seq<&str>) -> bool {
    &&& list.len() == texts.len()
    &&& forall|i: int| 0 <= i < list.len() ==> (#[trigger] list[i])@ == texts[i]@
}

/// A variable is named so and has this value.
pub open spec fn sets_variable(variable: (String, String), key: Seq<char>, value: Seq<char>) -> bool {
    variable.0@ == key && variable.1@ == value
}

impl Default for ExecBuilder {
    fn default() -> (r: ExecBuilder)
        ensures
            r.is_fresh(),
    {
        ExecBuilder {
            path: None,
            args: Vec::new(),
            env: Vec::new(),
            workdir: None,
            rlimits: Vec::new(),
        }
    }
}

impl ExecBuilder {
    /// Nothing was configured yet.
    pub open spec fn is_fresh(self) -> bool {
        &&& self.path is None
        &&& self.args@.len() == 0
        &&& self.env@.len() == 0
        &&& self.workdir is None
        &&& self.rlimits@.len() == 0
    }

    /// Creates a new exec builder.
    pub fn new() -> (r: ExecBuilder)
        ensures
            r.is_fresh(),
    {
        ExecBuilder::default()
    }

    /// Sets the executable path.
    pub fn path(self, path: &str) -> (r: ExecBuilder)
        ensures
            r == (ExecBuilder { path: r.path, ..self }),
            text_of(r.path) == Some(path@),
    {
        let mut builder = self;
        builder.path = Some(path.to_owned());
        builder
    }

    /// Sets command line arguments, in place of earlier ones.
    pub fn args(self, args: &[&str]) -> (r: ExecBuilder)
        ensures
            r == (ExecBuilder { args: r.args, ..self }),
            same_texts(r.args@, args@),
    {
        let mut builder = self;
        let mut list: Vec<String> = Vec::new();
        let mut i: usize = 0;
        while i < args.len()
            invariant
                i <= args@.len(),
                same_texts(list@, args@.take(i as int)),
            decreases args@.len() - i,
        {
            list.push(args[i].to_owned());
            i = i + 1;
        }
        assert(args@.take(i as int) =~= args@);
        builder.args = list;
        builder
    }

    /// Adds a single environment variable.
    pub fn env(self, key: &str, value: &str) -> (r: ExecBuilder)
        ensures
            r == (ExecBuilder { env: r.env, ..self }),
            r.env@.len() == self.env@.len() + 1,
            r.env@.drop_last() == self.env@,
            sets_variable(r.env@.last(), key@, value@),
    {
        let mut builder = self;
        builder.env.push((key.to_owned(), value.to_owned()));
        assert(builder.env@.drop_last() =~= self.env@);
        builder
    }

    /// Adds multiple environment variables.
    pub fn envs(self, envs: &[(&str, &str)]) -> (r: ExecBuilder)
        ensures
            r == (ExecBuilder { env: r.env, ..self }),
            r.env@.len() == self.env@.len() + envs@.len(),
            r.env@.take(self.env@.len() as int) == self.env@,
            forall|i: int|
                0 <= i < envs@.len() ==> sets_variable(
                    #[trigger] r.env@[self.env@.len() + i],
                    envs@[i].0@,
                    envs@[i].1@,
                ),
    {
        let ghost before = self.env@;
        let ghost n = self.env@.len() as int;
        let mut builder = self;
        let mut i: usize = 0;
        assert(builder.env@.take(n) =~= before);
        while i < envs.len()
            invariant
                i <= envs@.len(),
                n == before.len(),
                builder == (ExecBuilder { env: builder.env, ..self }),
                builder.env@.len() == n + i,
                builder.env@.take(n) == before,
                forall|j: int|
                    0 <= j < i ==> sets_variable(
                        #[trigger] builder.env@[n + j],
                        envs@[j].0@,
                        envs@[j].1@,
                    ),
            decreases envs@.len() - i,
        {
            let ghost earlier = builder.env@;
            builder.env.push((envs[i].0.to_owned(), envs[i].1.to_owned()));
            assert(builder.env@.take(n) =~= earlier.take(n));
            assert forall|j: int| 0 <= j < i implies sets_variable(
                #[trigger] builder.env@[n + j],
                envs@[j].0@,
                envs@[j].1@,
            ) by {
                assert(builder.env@[n + j] == earlier[n + j]);
            }
            i = i + 1;
        }
        builder
    }

    /// Sets the working directory.
    pub fn workdir(self, path: &str) -> (r: ExecBuilder)
        ensures
            r == (ExecBuilder { workdir: r.workdir, ..self }),
            text_of(r.workdir) == Some(path@),
    {
        let mut builder = self;
        builder.workdir = Some(path.to_owned());
        builder
    }

    /// Sets a resource limit.
    pub fn rlimit(self, resource: &str, soft: u64, hard: u64) -> (r: ExecBuilder)
        ensures
            r == (ExecBuilder { rlimits: r.rlimits, ..self }),
            r.rlimits@.len() == self.rlimits@.len() + 1,
            r.rlimits@.drop_last() == self.rlimits@,
            r.rlimits@.last().0@ == resource@,
            r.rlimits@.last().1 == soft,
            r.rlimits@.last().2 == hard,
    {
        let mut builder = self;
        builder.rlimits.push((resource.to_owned(), soft, hard));
        assert(builder.rlimits@.drop_last() =~= self.rlimits@);
        builder
    }
}

/// Supported disk image formats.
#[derive(Clone, Copy, Debug, PartialEq, Eq, Structural)]
pub enum DiskImageFormat {
    Raw,
    Qcow2,
    Vmdk,
}

/// Host-side cache behavior for a block device.
#[derive(Clone, Copy, Debug, PartialEq, Eq, Structural)]
pub enum CacheMode {
    /// Guest flushes reach the disk.
    Writeback,
    /// Guest flushes are acknowledged and ignored.
    Unsafe,
}

/// Host-side sync behavior for a block device.
#[derive(Clone, Copy, Debug, PartialEq, Eq, Structural)]
pub enum SyncMode {
    /// Skips all host sync.
    Off,
    /// Honors flushes but relaxes hardware sync.
    Relaxed,
    /// Forces strict hardware flush.
    Full,
}

impl DiskImageFormat {
    /// The image type of the block device.
    pub fn image_type(self) -> (r: ImageType)
        ensures
            r == match self {
                DiskImageFormat::Raw => ImageType::Raw,
                DiskImageFormat::Qcow2 => ImageType::Qcow2,
                DiskImageFormat::Vmdk => ImageType::Vmdk,
            },
    {
        match self {
            DiskImageFormat::Raw => ImageType::Raw,
            DiskImageFormat::Qcow2 => ImageType::Qcow2,
            DiskImageFormat::Vmdk => ImageType::Vmdk,
        }
    }
}

impl CacheMode {
    /// The cache type of the block device.
    pub fn cache_type(self) -> (r: CacheType)
        ensures
            r == match self {
                CacheMode::Writeback => CacheType::Writeback,
                CacheMode::Unsafe => CacheType::Unsafe,
            },
    {
        match self {
            CacheMode::Writeback => CacheType::Writeback,
            CacheMode::Unsafe => CacheType::Unsafe,
        }
    }
}

impl SyncMode {
    /// The sync mode of the block device.
    pub fn device_mode(self) -> (r: crate::block::device::SyncMode)
        ensures
            r == match self {
                SyncMode::Off => crate::block::device::SyncMode::Off,
                SyncMode::Relaxed => crate::block::device::SyncMode::Relaxed,
                SyncMode::Full => crate::block::device::SyncMode::Full,
            },
    {
        match self {
            SyncMode::Off => crate::block::device::SyncMode::Off,
            SyncMode::Relaxed => crate::block::device::SyncMode::Relaxed,
            SyncMode::Full => crate::block::device::SyncMode::Full,
        }
    }
}

/// Builder for block device configuration.
#[derive(Debug)]
pub struct DiskBuilder {
    pub configs: Vec<DiskConfig>,
    pub current_path: Option<String>,
    pub current_id: Option<String>,
    pub current_read_only: bool,
    pub current_format: DiskImageFormat,
    pub current_cache: CacheMode,
    pub current_direct_io: bool,
    pub current_sync: SyncMode,
}

/// Configuration for a single block device.
#[derive(Debug)]
pub struct DiskConfig {
    pub path: String,
    /// Caller-chosen block id. When `None`, the device is named by its place.
    pub id: Option<String>,
    pub read_only: bool,
    pub format: DiskImageFormat,
    pub cache: CacheMode,
    pub direct_io: bool,
    pub sync: SyncMode,
}

impl Default for DiskBuilder {
    fn default() -> (r: DiskBuilder)
        ensures
            r.is_fresh(),
    {
        DiskBuilder::new()
    }
}

impl DiskBuilder {
    /// The settings that every disk starts with.
    pub open spec fn default_settings(self) -> bool {
        &&& !self.current_read_only
        &&& self.current_format == DiskImageFormat::Raw
        &&& self.current_cache == CacheMode::Writeback
        &&& !self.current_direct_io
        &&& self.current_sync == SyncMode::Full
    }

    /// Nothing was configured yet.
    pub open spec fn is_fresh(self) -> bool {
        &&& self.configs@.len() == 0
        &&& self.current_path is None
        &&& self.current_id is None
        &&& self.default_settings()
    }

    /// The disk that the current settings describe.
    pub open spec fn pending(self) -> DiskConfig {
        DiskConfig {
            path: self.current_path->Some_0,
            id: self.current_id,
            read_only: self.current_read_only,
            format: self.current_format,
            cache: self.current_cache,
            direct_io: self.current_direct_io,
            sync: self.current_sync,
        }
    }

    /// All disks, the one that is being described among them.
    pub open spec fn disks(self) -> Seq<DiskConfig> {
        if self.current_path is Some {
            self.configs@.push(self.pending())
        } else {
            self.configs@
        }
    }

    /// Creates a new disk builder.
    pub fn new() -> (r: DiskBuilder)
        ensures
            r.is_fresh(),
    {
        DiskBuilder {
            configs: Vec::new(),
            current_path: None,
            current_id: None,
            current_read_only: false,
            current_format: DiskImageFormat::Raw,
            current_cache: CacheMode::Writeback,
            current_direct_io: false,
            current_sync: SyncMode::Full,
        }
    }

    /// Sets the disk image format for the current disk.
    pub fn format(self, format: DiskImageFormat) -> (r: DiskBuilder)
        ensures
            r == (DiskBuilder { current_format: format, ..self }),
    {
        let mut builder = self;
        builder.current_format = format;
        builder
    }

    /// Sets a stable block id for the current disk.
    pub fn id(self, id: &str) -> (r: DiskBuilder)
        ensures
            r == (DiskBuilder { current_id: r.current_id, ..self }),
            text_of(r.current_id) == Some(id@),
    {
        let mut builder = self;
        builder.current_id = Some(id.to_owned());
        builder
    }

    /// Starts the description of a disk with its path. One that was described before is complete,
    /// and its settings do not carry over.
    pub fn path(self, path: &str) -> (r: DiskBuilder)
        ensures
            r.configs@ == self.disks(),
            text_of(r.current_path) == Some(path@),
            self.current_path is Some ==> r.default_settings() && r.current_id is None,
            self.current_path is None ==> r == (DiskBuilder {
                current_path: r.current_path,
                ..self
            }),
    {
        let mut builder = self;
        match builder.current_path.take() {
            Some(pending_path) => {
                let id: Option<String> = builder.current_id.take();
                builder.configs.push(
                    DiskConfig {
                        path: pending_path,
                        id,
                        read_only: builder.current_read_only,
                        format: builder.current_format,
                        cache: builder.current_cache,
                        direct_io: builder.current_direct_io,
                        sync: builder.current_sync,
                    },
                );
                builder.current_read_only = false;
                builder.current_format = DiskImageFormat::Raw;
                builder.current_cache = CacheMode::Writeback;
                builder.current_direct_io = false;
                builder.current_sync = SyncMode::Full;
            },
            None => {},
        }
        builder.current_path = Some(path.to_owned());
        builder
    }

    /// Sets read-only mode for the current disk.
    pub fn read_only(self, ro: bool) -> (r: DiskBuilder)
        ensures
            r == (DiskBuilder { current_read_only: ro, ..self }),
    {
        let mut builder = self;
        builder.current_read_only = ro;
        builder
    }

    /// Sets the host-side cache behavior for the current disk.
    pub fn cache(self, mode: CacheMode) -> (r: DiskBuilder)
        ensures
            r == (DiskBuilder { current_cache: mode, ..self }),
    {
        let mut builder = self;
        builder.current_cache = mode;
        builder
    }

    /// Enables or disables bypassing the page cache for the current disk.
    pub fn direct_io(self, enabled: bool) -> (r: DiskBuilder)
        ensures
            r == (DiskBuilder { current_direct_io: enabled, ..self }),
    {
        let mut builder = self;
        builder.current_direct_io = enabled;
        builder
    }

    /// Sets the host-side sync behavior for the current disk.
    pub fn sync(self, mode: SyncMode) -> (r: DiskBuilder)
        ensures
            r == (DiskBuilder { current_sync: mode, ..self }),
    {
        let mut builder = self;
        builder.current_sync = mode;
        builder
    }

    /// Completes the disk that is being described, if there is one.
    pub fn finalize(self) -> (r: DiskBuilder)
        ensures
            r.configs@ == self.disks(),
            r == (DiskBuilder {
                configs: r.configs,
                current_path: None,
                current_id: if self.current_path is Some {
                    None
                } else {
                    self.current_id
                },
                ..self
            }),
    {
        let mut builder = self;
        match builder.current_path.take() {
            Some(path) => {
                let id: Option<String> = builder.current_id.take();
                builder.configs.push(
                    DiskConfig {
                        path,
                        id,
                        read_only: builder.current_read_only,
                        format: builder.current_format,
                        cache: builder.current_cache,
                        direct_io: builder.current_direct_io,
                        sync: builder.current_sync,
                    },
                );
            },
            None => {},
        }
        builder
    }
}

/// Describing one more disk keeps all earlier ones, in order.
pub proof fn disks_keep_their_order(before: DiskBuilder, after: DiskBuilder)
    requires
        after.configs@ == before.disks(),
        after.current_path is Some,
    ensures
        after.disks().len() == before.disks().len() + 1,
        after.disks().drop_last() == before.disks(),
{
    assert(after.disks().drop_last() =~= before.disks());
}

/// A machine that nothing was said of has one CPU and 512 MiB, a balloon that reports every second
/// and a source of randomness, and nothing else.
pub proof fn plain_machine_is_small(r: MachineBuilder)
    requires
        call_ensures(MachineBuilder::new, (), r),
    ensures
        r.vcpus == 1,
        r.memory_mib == 512,
        r.max_vcpus is None && r.max_memory_mib is None && r.vcpu_affinity is None,
        r.balloon && r.rng,
        r.balloon_stats_interval == Some(1_000_000_000u64),
        !r.hyperthreading && !r.nested_virt && !r.split_irqchip && !r.vsock && !r.msb_metrics
            && !r.enable_inet_hijack,
{
}

/// The sizes of a machine are what they were last set to, and setting one leaves the others.
pub proof fn sizes_are_set_one_at_a_time(
    machine: MachineBuilder,
    cpus: MachineBuilder,
    memory: MachineBuilder,
    most_cpus: MachineBuilder,
    most_memory: MachineBuilder,
    count: u8,
    mib: usize,
)
    requires
        call_ensures(MachineBuilder::vcpus, (machine, count), cpus),
        call_ensures(MachineBuilder::memory_mib, (machine, mib), memory),
        call_ensures(MachineBuilder::max_vcpus, (machine, count), most_cpus),
        call_ensures(MachineBuilder::max_memory_mib, (machine, mib), most_memory),
    ensures
        cpus.vcpus == count && cpus.memory_mib == machine.memory_mib && cpus.max_vcpus
            == machine.max_vcpus && cpus.max_memory_mib == machine.max_memory_mib,
        memory.memory_mib == mib && memory.vcpus == machine.vcpus && memory.max_vcpus
            == machine.max_vcpus && memory.max_memory_mib == machine.max_memory_mib,
        most_cpus.max_vcpus == Some(count) && most_cpus.vcpus == machine.vcpus
            && most_cpus.memory_mib == machine.memory_mib && most_cpus.max_memory_mib
            == machine.max_memory_mib,
        most_memory.max_memory_mib == Some(mib) && most_memory.vcpus == machine.vcpus
            && most_memory.memory_mib == machine.memory_mib && most_memory.max_vcpus
            == machine.max_vcpus,
{
}

/// A switch of a machine is what it was last set to.
pub proof fn switches_are_as_last_set(machine: MachineBuilder, on: bool, r: Seq<MachineBuilder>)
    requires
        r.len() == 8,
        call_ensures(MachineBuilder::hyperthreading, (machine, on), r[0]),
        call_ensures(MachineBuilder::nested_virt, (machine, on), r[1]),
        call_ensures(MachineBuilder::split_irqchip, (machine, on), r[2]),
        call_ensures(MachineBuilder::vsock, (machine, on), r[3]),
        call_ensures(MachineBuilder::balloon, (machine, on), r[4]),
        call_ensures(MachineBuilder::rng, (machine, on), r[5]),
        call_ensures(MachineBuilder::msb_metrics, (machine, on), r[6]),
        call_ensures(MachineBuilder::enable_inet_hijack, (machine, on), r[7]),
    ensures
        r[0].hyperthreading == on && r[1].nested_virt == on && r[2].split_irqchip == on
            && r[3].vsock == on && r[4].balloon == on && r[5].rng == on && r[6].msb_metrics == on
            && r[7].enable_inet_hijack == on,
        forall|i: int|
            0 <= i < 8 ==> (#[trigger] r[i]).vcpus == machine.vcpus && r[i].memory_mib
                == machine.memory_mib && r[i].vcpu_affinity == machine.vcpu_affinity,
        forall|i: int|
            0 <= i < 8 && i != 0 ==> (#[trigger] r[i]).hyperthreading == machine.hyperthreading,
        forall|i: int|
            0 <= i < 8 && i != 4 ==> (#[trigger] r[i]).balloon == machine.balloon,
        forall|i: int| 0 <= i < 8 && i != 3 ==> (#[trigger] r[i]).vsock == machine.vsock,
{
}

/// A second text of the kernel's command line stands behind the first and a space.
pub proof fn command_line_texts_are_joined(kernel: KernelBuilder, text: &str, r: KernelBuilder)
    requires
        call_ensures(KernelBuilder::cmdline, (kernel, text), r),
    ensures
        r.cmdline is Some,
        kernel.cmdline is None ==> r.cmdline->Some_0@ == text@,
        kernel.cmdline is Some ==> r.cmdline->Some_0@ == kernel.cmdline->Some_0@ + seq![' ']
            + text@,
        r.krunfw_path == kernel.krunfw_path && r.initramfs_path == kernel.initramfs_path
            && r.init_path == kernel.init_path,
{
    if kernel.cmdline is Some {
        assert(r.cmdline->Some_0@ =~= kernel.cmdline->Some_0@ + seq![' '] + text@);
    }
}

/// Each file of the kernel is the one that it was last set to.
pub proof fn kernel_files_are_as_last_set(
    kernel: KernelBuilder,
    path: &str,
    library: KernelBuilder,
    initramfs: KernelBuilder,
    init: KernelBuilder,
)
    requires
        call_ensures(KernelBuilder::krunfw_path, (kernel, path), library),
        call_ensures(KernelBuilder::initramfs_path, (kernel, path), initramfs),
        call_ensures(KernelBuilder::init_path, (kernel, path), init),
    ensures
        library.krunfw_path is Some && library.krunfw_path->Some_0@ == path@,
        initramfs.initramfs_path is Some && initramfs.initramfs_path->Some_0@ == path@,
        init.init_path is Some && init.init_path->Some_0@ == path@,
        library.cmdline == kernel.cmdline && initramfs.cmdline == kernel.cmdline && init.cmdline
            == kernel.cmdline,
        library.init_path == kernel.init_path && library.initramfs_path == kernel.initramfs_path,
        initramfs.krunfw_path == kernel.krunfw_path && initramfs.init_path == kernel.init_path,
        init.krunfw_path == kernel.krunfw_path && init.initramfs_path == kernel.initramfs_path,
{
}

/// A shared directory stands behind the mounts before it, under the tag that was set for it, which
/// serves once, or one that counts the mounts. It has the window that was set for it.
pub proof fn mounts_stand_in_order(
    fs: FsBuilder,
    path: &str,
    r: FsBuilder,
    custom: FsBuilder,
    number: &mut String,
    i: int,
)
    requires
        call_ensures(FsBuilder::path, (fs, path), r),
        call_ensures(FsBuilder::custom, (fs,), custom),
        fs.configs@.len() <= u64::MAX,
        number@.len() == 0,
        call_ensures(push_decimal, (number, fs.configs@.len() as u64), ()),
    ensures
        r.configs@.len() == fs.configs@.len() + 1 && custom.configs@.len() == fs.configs@.len() + 1,
        0 <= i < fs.configs@.len() ==> r.configs@[i] == fs.configs@[i] && custom.configs@[i]
            == fs.configs@[i],
        r.configs@.last() is Path && r.configs@.last()->path@ == path@
            && r.configs@.last()->shm_size == fs.current_shm_size,
        custom.configs@.last() is Custom,
        fs.current_tag is Some ==> r.configs@.last()->Path_tag@ == fs.current_tag->Some_0@
            && custom.configs@.last()->Custom_tag@ == fs.current_tag->Some_0@,
        fs.current_tag is None ==> r.configs@.last()->Path_tag@ == seq!['f', 's'] + final(number)@
            && custom.configs@.last()->Custom_tag@ == seq!['f', 's'] + final(number)@,
        r.current_tag is None && custom.current_tag is None,
        r.current_shm_size is None,
{
    reveal_strlit("fs");
    assert("fs"@ =~= seq!['f', 's']);
    assert(final(number)@ =~= decimal(fs.configs@.len()));
    if 0 <= i < fs.configs@.len() {
        assert(r.configs@.drop_last()[i] == fs.configs@[i]);
        assert(custom.configs@.drop_last()[i] == fs.configs@[i]);
    }
}

/// The root is a directory with a tag of its own, and a tag and a window are as last set.
pub proof fn root_has_a_tag_of_its_own(
    fs: FsBuilder,
    path: &str,
    root: FsBuilder,
    tag: &str,
    tagged: FsBuilder,
    size: usize,
    sized: FsBuilder,
)
    requires
        call_ensures(FsBuilder::root, (fs, path), root),
        call_ensures(FsBuilder::tag, (fs, tag), tagged),
        call_ensures(FsBuilder::shm_size, (fs, size), sized),
    ensures
        root.configs@.last() is Path && root.configs@.last()->path@ == path@
            && root.configs@.last()->Path_tag@ == "/dev/root"@ && root.configs@.last()->shm_size
            == fs.current_shm_size,
        root.configs@.drop_last() == fs.configs@ && root.configs@.len() == fs.configs@.len() + 1,
        root.current_tag == fs.current_tag && root.current_shm_size is None,
        tagged.current_tag is Some && tagged.current_tag->Some_0@ == tag@ && tagged.configs
            == fs.configs && tagged.current_shm_size == fs.current_shm_size,
        sized.current_shm_size == Some(size) && sized.configs == fs.configs && sized.current_tag
            == fs.current_tag,
{
}

/// Every interface stands behind those before it, with its own target, and takes the address that
/// was set for it, which serves once.
pub proof fn interfaces_stand_in_order(
    net: NetBuilder,
    fd: i32,
    text: &str,
    magic: bool,
    mac: [u8; 6],
    addressed: NetBuilder,
    r: Seq<NetBuilder>,
    i: int,
)
    requires
        r.len() == 7,
        call_ensures(NetBuilder::unixgram, (net, fd), r[0]),
        call_ensures(NetBuilder::unixgram_path, (net, text, magic), r[1]),
        call_ensures(NetBuilder::unixstream, (net, fd), r[2]),
        call_ensures(NetBuilder::unixstream_path, (net, text), r[3]),
        call_ensures(NetBuilder::tap, (net, text), r[4]),
        call_ensures(NetBuilder::named_pipe, (net, text), r[5]),
        call_ensures(NetBuilder::custom, (net,), r[6]),
        call_ensures(NetBuilder::mac, (net, mac), addressed),
        0 <= i < 7,
    ensures
        r[i].configs@.len() == net.configs@.len() + 1 && r[i].configs@.drop_last() == net.configs@,
        r[i].configs@.last().mac == net.current_mac && r[i].current_mac is None,
        r[0].configs@.last().target == (NetTarget::UnixgramFd { fd }),
        r[1].configs@.last().target is UnixgramPath
            && r[1].configs@.last().target->UnixgramPath_path@
            == text@ && r[1].configs@.last().target->send_vfkit_magic == magic,
        r[2].configs@.last().target == (NetTarget::UnixstreamFd { fd }),
        r[3].configs@.last().target is UnixstreamPath
            && r[3].configs@.last().target->UnixstreamPath_path@ == text@,
        r[4].configs@.last().target is Tap && r[4].configs@.last().target->Tap_name@ == text@,
        r[5].configs@.last().target is NamedPipe && r[5].configs@.last().target->NamedPipe_name@
            == text@,
        r[6].configs@.last().target is Custom,
        addressed.current_mac == Some(mac) && addressed.configs == net.configs,
{
}

/// Every port of the console stands behind those before it, with its own name and descriptors.
pub proof fn ports_stand_in_order(
    console: ConsoleBuilder,
    name: &str,
    input: i32,
    output: i32,
    both: ConsoleBuilder,
    tty: ConsoleBuilder,
    custom: ConsoleBuilder,
)
    requires
        call_ensures(ConsoleBuilder::port, (console, name, input, output), both),
        call_ensures(ConsoleBuilder::port_tty, (console, name, input), tty),
        call_ensures(ConsoleBuilder::custom, (console, name), custom),
    ensures
        both.ports@.len() == console.ports@.len() + 1 && both.ports@.drop_last() == console.ports@,
        tty.ports@.len() == console.ports@.len() + 1 && tty.ports@.drop_last() == console.ports@,
        custom.ports@.len() == console.ports@.len() + 1 && custom.ports@.drop_last()
            == console.ports@,
        both.ports@.last() is InOut && both.ports@.last()->InOut_name@ == name@
            && both.ports@.last()->input_fd == input && both.ports@.last()->output_fd == output,
        tty.ports@.last() is Tty && tty.ports@.last()->Tty_name@ == name@
            && tty.ports@.last()->tty_fd == input,
        custom.ports@.last() is Custom && custom.ports@.last()->Custom_name@ == name@,
        both.output == console.output && tty.output == console.output && custom.output
            == console.output,
{
}

/// The program, its directory, its variables and its limits are those that were given, in order.
pub proof fn program_settings_stand_in_order(
    exec: ExecBuilder,
    key: &str,
    value: &str,
    soft: u64,
    hard: u64,
    path: ExecBuilder,
    workdir: ExecBuilder,
    env: ExecBuilder,
    limit: ExecBuilder,
)
    requires
        call_ensures(ExecBuilder::path, (exec, key), path),
        call_ensures(ExecBuilder::workdir, (exec, key), workdir),
        call_ensures(ExecBuilder::env, (exec, key, value), env),
        call_ensures(ExecBuilder::rlimit, (exec, key, soft, hard), limit),
    ensures
        path.path is Some && path.path->Some_0@ == key@ && path.workdir == exec.workdir && path.env
            == exec.env && path.args == exec.args,
        workdir.workdir is Some && workdir.workdir->Some_0@ == key@ && workdir.path == exec.path
            && workdir.env == exec.env && workdir.args == exec.args,
        env.env@.len() == exec.env@.len() + 1 && env.env@.drop_last() == exec.env@,
        env.env@.last().0@ == key@ && env.env@.last().1@ == value@,
        env.path == exec.path && env.args == exec.args,
        limit.rlimits@.len() == exec.rlimits@.len() + 1 && limit.rlimits@.drop_last()
            == exec.rlimits@,
        limit.rlimits@.last().0@ == key@ && limit.rlimits@.last().1 == soft
            && limit.rlimits@.last().2 == hard,
        limit.env == exec.env && limit.path == exec.path,
{
}

/// Arguments replace those that were given before, and several variables stand behind those that
/// were given before, each in its place.
pub proof fn lists_are_taken_whole(
    exec: ExecBuilder,
    args: &[&str],
    envs: &[(&str, &str)],
    with_args: ExecBuilder,
    with_envs: ExecBuilder,
    i: int,
)
    requires
        call_ensures(ExecBuilder::args, (exec, args), with_args),
        call_ensures(ExecBuilder::envs, (exec, envs), with_envs),
    ensures
        with_args.args@.len() == args@.len(),
        0 <= i < args@.len() ==> with_args.args@[i]@ == args@[i]@,
        with_envs.env@.len() == exec.env@.len() + envs@.len(),
        0 <= i < exec.env@.len() ==> with_envs.env@[i] == exec.env@[i],
        0 <= i < envs@.len() ==> with_envs.env@[exec.env@.len() + i].0@ == envs@[i].0@
            && with_envs.env@[exec.env@.len() + i].1@ == envs@[i].1@,
{
    if 0 <= i < exec.env@.len() {
        assert(with_envs.env@.take(exec.env@.len() as int)[i] == exec.env@[i]);
    }
    if 0 <= i < envs@.len() {
        assert(sets_variable(with_envs.env@[exec.env@.len() + i], envs@[i].0@, envs@[i].1@));
    }
}

/// The next disk's path ends the disk before it, which keeps the settings it was given. The new disk
/// starts with none of them.
pub proof fn next_path_ends_the_disk(disk: DiskBuilder, path: &str, r: DiskBuilder, ended: DiskBuilder)
    requires
        call_ensures(DiskBuilder::path, (disk, path), r),
        call_ensures(DiskBuilder::finalize, (disk,), ended),
    ensures
        r.current_path is Some && r.current_path->Some_0@ == path@,
        disk.current_path is None ==> r.configs@ == disk.configs@
            && ended.configs@ == disk.configs@,
        disk.current_path is Some ==> {
            let done = r.configs@.last();
            &&& r.configs@.len() == disk.configs@.len() + 1
            &&& r.configs@.drop_last() == disk.configs@
            &&& ended.configs@ == r.configs@
            &&& done.path == disk.current_path->Some_0
            &&& done.id == disk.current_id
            &&& done.read_only == disk.current_read_only
            &&& done.format == disk.current_format
            &&& done.cache == disk.current_cache
            &&& done.direct_io == disk.current_direct_io
            &&& done.sync == disk.current_sync
            &&& r.current_id is None && !r.current_read_only && !r.current_direct_io
            &&& r.current_format is Raw && r.current_cache is Writeback && r.current_sync is Full
        },
        disk.current_path is None ==> r.current_id == disk.current_id && r.current_read_only
            == disk.current_read_only && r.current_format == disk.current_format && r.current_cache
            == disk.current_cache && r.current_direct_io == disk.current_direct_io
            && r.current_sync == disk.current_sync,
{
}

/// Each setting of a disk is what it was last set to, and leaves the others.
pub proof fn disk_settings_are_as_last_set(
    disk: DiskBuilder,
    on: bool,
    id: &str,
    format: DiskImageFormat,
    cache: CacheMode,
    sync: SyncMode,
    r: Seq<DiskBuilder>,
    i: int,
)
    requires
        r.len() == 6,
        call_ensures(DiskBuilder::read_only, (disk, on), r[0]),
        call_ensures(DiskBuilder::direct_io, (disk, on), r[1]),
        call_ensures(DiskBuilder::id, (disk, id), r[2]),
        call_ensures(DiskBuilder::format, (disk, format), r[3]),
        call_ensures(DiskBuilder::cache, (disk, cache), r[4]),
        call_ensures(DiskBuilder::sync, (disk, sync), r[5]),
        0 <= i < 6,
    ensures
        r[0].current_read_only == on,
        r[1].current_direct_io == on,
        r[2].current_id is Some && r[2].current_id->Some_0@ == id@,
        r[3].current_format == format,
        r[4].current_cache == cache,
        r[5].current_sync == sync,
        r[i].configs == disk.configs && r[i].current_path == disk.current_path,
        i != 0 ==> r[i].current_read_only == disk.current_read_only,
        i != 1 ==> r[i].current_direct_io == disk.current_direct_io,
        i != 2 ==> r[i].current_id == disk.current_id,
        i != 3 ==> r[i].current_format == disk.current_format,
        i != 4 ==> r[i].current_cache == disk.current_cache,
        i != 5 ==> r[i].current_sync == disk.current_sync,
{
}

/// Each setting of the console is what it was last set to, and leaves the others.
pub proof fn console_settings_are_as_last_set(
    console: ConsoleBuilder,
    path: &str,
    on: bool,
    flags: u32,
    size: usize,
    output: ConsoleBuilder,
    sound: ConsoleBuilder,
    virgl: ConsoleBuilder,
    window: ConsoleBuilder,
    explicit: ConsoleBuilder,
)
    requires
        call_ensures(ConsoleBuilder::output, (console, path), output),
        call_ensures(ConsoleBuilder::sound, (console, on), sound),
        call_ensures(ConsoleBuilder::gpu_virgl_flags, (console, flags), virgl),
        call_ensures(ConsoleBuilder::gpu_shm_size, (console, size), window),
        call_ensures(ConsoleBuilder::disable_implicit, (console,), explicit),
    ensures
        output.output is Some && output.output->Some_0@ == path@ && output.ports == console.ports
            && output.sound == console.sound,
        sound.sound == on && sound.output == console.output && sound.ports == console.ports,
        virgl.gpu_virgl_flags == Some(flags) && virgl.gpu_shm_size == console.gpu_shm_size
            && virgl.ports == console.ports,
        window.gpu_shm_size == Some(size) && window.gpu_virgl_flags == console.gpu_virgl_flags
            && window.ports == console.ports,
        explicit.disable_implicit && explicit.ports == console.ports && explicit.output
            == console.output && output.disable_implicit == console.disable_implicit,
{
}

/// The pinning of a machine's CPUs and the interval of its balloon are what they were last set to.
pub proof fn pinning_is_as_last_set(
    machine: MachineBuilder,
    cpus: Vec<HostCpuId>,
    interval: Option<u64>,
    pinned: MachineBuilder,
    timed: MachineBuilder,
    index: u32,
    group: u16,
    plain: HostCpuId,
    grouped: HostCpuId,
)
    requires
        call_ensures(MachineBuilder::vcpu_affinity, (machine, cpus), pinned),
        call_ensures(MachineBuilder::balloon_stats_interval, (machine, interval), timed),
        call_ensures(HostCpuId::new, (index,), plain),
        call_ensures(HostCpuId::in_group, (group, index), grouped),
    ensures
        pinned.vcpu_affinity == Some(cpus) && pinned.vcpus == machine.vcpus,
        timed.balloon_stats_interval == interval && timed.balloon == machine.balloon,
        plain.group == 0 && plain.index == index,
        grouped.group == group && grouped.index == index,
{
}

} // verus!
