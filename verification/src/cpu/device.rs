//! The state of the CPU device, and the number of CPUs that the host enforces.

use crate::activation::ActivateError;
use crate::bytes::{get_le_u32, le_u32, le_u32_read_after_write, put_le_u32, with_le_u32};
use crate::config_space::{config_read, read_config_space};
use vstd::prelude::*;

verus! {

/// The device follows version 1 of the standard.
pub const BASE_AVAIL_FEATURES: u64 = 0x1_0000_0000;

/// How long, in nanoseconds, a virtual CPU above the enforced count keeps running before it is
/// parked. It gives a cooperative guest time to take it offline cleanly.
pub const ENFORCEMENT_GRACE: u64 = 5_000_000_000;

/// Where the guest writes how many CPUs are online.
pub const CONFIG_ACTUAL_ONLINE_OFFSET: u64 = 8;

/// The size of the configuration space.
pub const CPU_CONFIG_BYTES: usize = 12;

/// The configuration space.
#[derive(Clone, Copy, Debug, PartialEq, Eq, Structural)]
pub struct VirtioCpuConfig {
    pub possible: u32,
    pub requested_online: u32,
    pub actual_online: u32,
}

impl VirtioCpuConfig {
    /// The fields one behind the other.
    pub open spec fn bytes(self) -> Seq<u8> {
        let s = Seq::new(CPU_CONFIG_BYTES as nat, |i: int| 0u8);
        let s = with_le_u32(s, 0, self.possible as int);
        let s = with_le_u32(s, 4, self.requested_online as int);
        with_le_u32(s, 8, self.actual_online as int)
    }

    /// The configuration space.
    pub fn to_bytes(&self) -> (r: Vec<u8>)
        ensures
            r@ == self.bytes(),
    {
        let mut bytes: Vec<u8> = vec![0u8; CPU_CONFIG_BYTES];
        assert(bytes@ =~= Seq::new(CPU_CONFIG_BYTES as nat, |i: int| 0u8));
        put_le_u32(&mut bytes, 0, self.possible);
        put_le_u32(&mut bytes, 4, self.requested_online);
        put_le_u32(&mut bytes, 8, self.actual_online);
        bytes
    }
}

/// The guest finds every field where the device shows it.
pub proof fn cpu_config_shows_its_fields(config: VirtioCpuConfig)
    ensures
        config.bytes().len() == CPU_CONFIG_BYTES,
        le_u32(config.bytes(), 0) == config.possible,
        le_u32(config.bytes(), 4) == config.requested_online,
        le_u32(config.bytes(), 8) == config.actual_online,
{
    let s0 = Seq::new(CPU_CONFIG_BYTES as nat, |i: int| 0u8);
    let s1 = with_le_u32(s0, 0, config.possible as int);
    let s2 = with_le_u32(s1, 4, config.requested_online as int);
    le_u32_read_after_write(s0, 0, config.possible as int);
    le_u32_read_after_write(s1, 4, config.requested_online as int);
    le_u32_read_after_write(s2, 8, config.actual_online as int);
}

/// A number, but at least one.
pub open spec fn at_least_one(n: u32) -> u32 {
    if n == 0 {
        1
    } else {
        n
    }
}

/// The number of CPUs that the host lets run. A virtual CPU whose index is at or above it parks
/// until the number is raised again. The boot CPU always runs.
#[derive(Clone, Copy, Debug)]
pub struct CpuEnforcement {
    enforced: u32,
}

impl CpuEnforcement {
    /// The number of CPUs that may run.
    pub closed spec fn spec_enforced(self) -> u32 {
        self.enforced
    }

    #[verifier::type_invariant]
    spec fn keeps_boot_cpu(self) -> bool {
        self.enforced >= 1
    }

    /// Starts with a number of CPUs, but at least one.
    pub fn new(enforced: u32) -> (r: CpuEnforcement)
        ensures
            r.spec_enforced() == at_least_one(enforced),
    {
        if enforced == 0 {
            CpuEnforcement { enforced: 1 }
        } else {
            CpuEnforcement { enforced }
        }
    }

    /// Sets the number of CPUs that may run, but at least one. Parked threads then look again.
    pub fn set(&mut self, enforced: u32)
        ensures
            final(self).spec_enforced() == at_least_one(enforced),
    {
        *self = CpuEnforcement::new(enforced);
    }

    /// Current enforced online count.
    pub fn enforced(&self) -> (r: u32)
        ensures
            r == self.spec_enforced(),
            r >= 1,
    {
        proof {
            use_type_invariant(*self);
        }
        self.enforced
    }

    /// Whether the virtual CPU with this index may run right now.
    pub fn runnable(&self, cpu_index: u32) -> (r: bool)
        ensures
            r == (cpu_index < self.spec_enforced()),
            cpu_index == 0 ==> r,
    {
        cpu_index < self.enforced()
    }
}

/// Point-in-time view of the device for control and reporting.
#[derive(Clone, Copy, Debug, PartialEq, Eq, Structural)]
pub struct CpuStateSnapshot {
    /// CPUs possible in this boot.
    pub possible: u32,
    /// Online count that the guest was asked for.
    pub requested_online: u32,
    /// Online count the guest last reported.
    pub actual_online: u32,
    /// Online count that is enforced.
    pub enforced: u32,
}

/// The number of CPUs that a request comes to.
pub open spec fn accepted_online(online: u32, possible: u32) -> u32 {
    if at_least_one(online) < possible {
        at_least_one(online)
    } else {
        possible
    }
}

/// The CPU device.
pub struct Cpu {
    avail_features: u64,
    acked_features: u64,
    config: VirtioCpuConfig,
    enforcement: CpuEnforcement,
    active: bool,
}

impl Cpu {
    pub closed spec fn spec_config(self) -> VirtioCpuConfig {
        self.config
    }

    pub closed spec fn spec_enforcement(self) -> CpuEnforcement {
        self.enforcement
    }

    pub closed spec fn spec_avail_features(self) -> u64 {
        self.avail_features
    }

    pub closed spec fn spec_acked_features(self) -> u64 {
        self.acked_features
    }

    pub closed spec fn spec_active(self) -> bool {
        self.active
    }

    /// Creates the device for a VM that boots `initial_online` of `possible` CPUs. Enforcement
    /// starts at the initial count.
    pub fn new(possible: u32, initial_online: u32) -> (r: Cpu)
        ensures
            r.spec_config() == (VirtioCpuConfig {
                possible,
                requested_online: initial_online,
                actual_online: initial_online,
            }),
            r.spec_enforcement().spec_enforced() == at_least_one(initial_online),
            r.spec_avail_features() == BASE_AVAIL_FEATURES,
            r.spec_acked_features() == 0,
            !r.spec_active(),
    {
        Cpu {
            avail_features: BASE_AVAIL_FEATURES,
            acked_features: 0,
            config: VirtioCpuConfig {
                possible,
                requested_online: initial_online,
                actual_online: initial_online,
            },
            enforcement: CpuEnforcement::new(initial_online),
            active: false,
        }
    }

    /// The enforcement state that the virtual CPUs' loops consult.
    pub fn enforcement(&self) -> (r: CpuEnforcement)
        ensures
            r == self.spec_enforcement(),
    {
        self.enforcement
    }

    /// Asks the guest for a number of CPUs and enforces it, held between one and the possible
    /// ones. Gives the accepted number, and whether the guest is told of the change.
    pub fn set_requested_online(&mut self, online: u32) -> (r: (u32, bool))
        ensures
            r.0 == accepted_online(online, old(self).spec_config().possible),
            r.1 == old(self).spec_active(),
            final(self).spec_config() == (VirtioCpuConfig {
                requested_online: r.0,
                ..old(self).spec_config()
            }),
            final(self).spec_enforcement().spec_enforced() == at_least_one(r.0),
            final(self).spec_avail_features() == old(self).spec_avail_features(),
            final(self).spec_acked_features() == old(self).spec_acked_features(),
            final(self).spec_active() == old(self).spec_active(),
    {
        let wanted: u32 = if online == 0 {
            1
        } else {
            online
        };
        let accepted: u32 = if wanted < self.config.possible {
            wanted
        } else {
            self.config.possible
        };
        self.config.requested_online = accepted;
        self.enforcement.set(accepted);
        (accepted, self.active)
    }

    /// Current requested, actual and enforced numbers.
    pub fn state_snapshot(&self) -> (r: CpuStateSnapshot)
        ensures
            r == (CpuStateSnapshot {
                possible: self.spec_config().possible,
                requested_online: self.spec_config().requested_online,
                actual_online: self.spec_config().actual_online,
                enforced: self.spec_enforcement().spec_enforced(),
            }),
    {
        CpuStateSnapshot {
            possible: self.config.possible,
            requested_online: self.config.requested_online,
            actual_online: self.config.actual_online,
            enforced: self.enforcement.enforced(),
        }
    }

    /// What the device offers.
    pub fn avail_features(&self) -> (r: u64)
        ensures
            r == self.spec_avail_features(),
    {
        self.avail_features
    }

    /// What the guest uses.
    pub fn acked_features(&self) -> (r: u64)
        ensures
            r == self.spec_acked_features(),
    {
        self.acked_features
    }

    /// The guest says what it uses.
    pub fn set_acked_features(&mut self, acked_features: u64)
        ensures
            final(self).spec_acked_features() == acked_features,
            final(self).spec_config() == old(self).spec_config(),
            final(self).spec_enforcement() == old(self).spec_enforcement(),
            final(self).spec_avail_features() == old(self).spec_avail_features(),
            final(self).spec_active() == old(self).spec_active(),
    {
        self.acked_features = acked_features;
    }

    /// The name of the device.
    pub fn device_name(&self) -> (r: &str)
        ensures
            r@ == "msb-cpu"@,
    {
        "msb-cpu"
    }

    /// Copies the part of the configuration space that a guest reads.
    pub fn read_config(&self, offset: u64, data: &mut [u8])
        ensures
            final(data)@ == config_read(self.spec_config().bytes(), offset, old(data)@),
    {
        let bytes: Vec<u8> = self.config.to_bytes();
        read_config_space(bytes.as_slice(), offset, data);
    }

    /// Takes the online count that the guest reports. Nothing else can be written; tells whether
    /// it was.
    pub fn write_config(&mut self, offset: u64, data: &[u8]) -> (r: bool)
        ensures
            r == (offset == CONFIG_ACTUAL_ONLINE_OFFSET && data@.len() == 4),
            final(self).spec_config() == if r {
                VirtioCpuConfig {
                    actual_online: le_u32(data@, 0) as u32,
                    ..old(self).spec_config()
                }
            } else {
                old(self).spec_config()
            },
            final(self).spec_enforcement() == old(self).spec_enforcement(),
            final(self).spec_avail_features() == old(self).spec_avail_features(),
            final(self).spec_acked_features() == old(self).spec_acked_features(),
            final(self).spec_active() == old(self).spec_active(),
    {
        if offset == CONFIG_ACTUAL_ONLINE_OFFSET && data.len() == 4 {
            self.config.actual_online = get_le_u32(data, 0);
            true
        } else {
            false
        }
    }

    /// The guest has set up its queues, and the activation event was written, or could not be.
    pub fn activate(
        &mut self,
        expected_queues: usize,
        queue_count: usize,
        event_written: bool,
    ) -> (r: Result<(), ActivateError>)
        ensures
            r is Ok <==> queue_count == expected_queues && event_written,
            final(self).spec_active() == (old(self).spec_active() || r is Ok),
            final(self).spec_config() == old(self).spec_config(),
            final(self).spec_enforcement() == old(self).spec_enforcement(),
            final(self).spec_avail_features() == old(self).spec_avail_features(),
            final(self).spec_acked_features() == old(self).spec_acked_features(),
    {
        if queue_count != expected_queues || !event_written {
            return Err(ActivateError::BadActivate);
        }
        self.active = true;
        Ok(())
    }

    /// Whether the guest has set the device up.
    pub fn is_activated(&self) -> (r: bool)
        ensures
            r == self.spec_active(),
    {
        self.active
    }
}

/// What the host asks for is what it enforces, and never more than the possible CPUs or less than
/// one.
pub proof fn accepted_count_is_enforced(online: u32, possible: u32)
    requires
        possible >= 1,
    ensures
        1 <= accepted_online(online, possible) <= possible,
        at_least_one(accepted_online(online, possible)) == accepted_online(online, possible),
        1 <= online <= possible ==> accepted_online(online, possible) == online,
{
}

/// A request for CPUs is held between one and the possible ones, is what the guest is shown, and is
/// what may run: every CPU below it and none above.
pub proof fn requested_cpus_may_run(
    cpu: &mut Cpu,
    online: u32,
    r: (u32, bool),
    index: u32,
    runs: bool,
)
    requires
        cpu.spec_config().possible >= 1,
        call_ensures(Cpu::set_requested_online, (cpu, online), r),
        call_ensures(
            CpuEnforcement::runnable,
            (&final(cpu).spec_enforcement(), index),
            runs,
        ),
    ensures
        online == 0 ==> r.0 == 1,
        1 <= online <= old(cpu).spec_config().possible ==> r.0 == online,
        online > old(cpu).spec_config().possible ==> r.0 == old(cpu).spec_config().possible,
        final(cpu).spec_config().requested_online == r.0,
        final(cpu).spec_config().actual_online == old(cpu).spec_config().actual_online,
        final(cpu).spec_config().possible == old(cpu).spec_config().possible,
        runs <==> index < r.0,
        r.1 == old(cpu).spec_active(),
{
}

/// The guest reports how many CPUs are online, with one whole word at byte eight, and nothing else.
pub proof fn guest_reports_its_cpus(cpu: &mut Cpu, offset: u64, data: &[u8], r: bool)
    requires
        call_ensures(Cpu::write_config, (cpu, offset, data), r),
    ensures
        r <==> offset == 8 && data@.len() == 4,
        r ==> final(cpu).spec_config().actual_online == data@[0] + 256 * data@[1] + 65536 * data@[2]
            + 16777216 * data@[3],
        final(cpu).spec_config().possible == old(cpu).spec_config().possible,
        final(cpu).spec_config().requested_online == old(cpu).spec_config().requested_online,
        !r ==> final(cpu).spec_config().actual_online == old(cpu).spec_config().actual_online,
        final(cpu).spec_enforcement() == old(cpu).spec_enforcement(),
{
}

/// A device starts with the CPUs that the machine boots, and they may run.
pub proof fn machine_boots_its_cpus(possible: u32, initial: u32, r: Cpu, snapshot: CpuStateSnapshot)
    requires
        initial >= 1,
        call_ensures(Cpu::new, (possible, initial), r),
        call_ensures(Cpu::state_snapshot, (&r,), snapshot),
    ensures
        snapshot.possible == possible,
        snapshot.requested_online == initial,
        snapshot.actual_online == initial,
        snapshot.enforced == initial,
{
}

/// The device offers the modern interface alone.
pub proof fn cpus_offer_the_modern_interface(possible: u32, initial: u32, r: Cpu)
    requires
        call_ensures(Cpu::new, (possible, initial), r),
    ensures
        r.spec_avail_features() == 0x1_0000_0000,
{
}

} // verus!
