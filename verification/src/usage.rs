//! The sampler of the local machine: it turns what the operating system
//! reports into a descriptor, once, and into usage samples, on demand.

use crate::device_info::{MachineInfo, MachineInfoView, MachineUsage, MachineUsageView};
use vstd::prelude::*;

verus! {

/// What the operating system reports of the machine. A name that it does
/// not know is `None`.
#[derive(Debug)]
pub struct SystemReport {
    pub name: Option<String>,
    pub os_version: Option<String>,
    pub host_name: Option<String>,
    pub kernel_version: Option<String>,
    pub physical_core_count: Option<usize>,
    pub cpu_arch: String,
    /// The brand of each processor, in the order of the processors.
    pub cpu_brands: Vec<String>,
}

/// One reading of a processor core.
#[derive(Debug)]
pub struct CpuReading {
    /// The utilisation in percent, as a decimal numeral.
    pub usage: String,
    pub frequency: u64,
}

/// The bytes that one network interface has received and transmitted since
/// the reading before.
#[derive(Clone, Copy, Debug)]
pub struct NetworkReading {
    pub received: u64,
    pub transmitted: u64,
}

/// One reading of memory, processors and network interfaces.
#[derive(Debug)]
pub struct UsageReading {
    pub total_memory: u64,
    pub used_memory: u64,
    pub total_swap: u64,
    pub used_swap: u64,
    pub cpus: Vec<CpuReading>,
    pub networks: Vec<NetworkReading>,
}

/// What stands for a name that the operating system does not know.
pub open spec fn name_or(name: Option<String>, missing: Seq<char>) -> Seq<char> {
    match name {
        Some(n) => n@,
        None => missing,
    }
}

/// The descriptor that a report gives: each unknown name is replaced by a
/// fixed text, an unknown core count by 0, and the brand is that of the
/// first processor.
pub open spec fn descriptor_of(report: SystemReport) -> MachineInfoView {
    MachineInfoView {
        os: name_or(report.name, "OS  name not found"@),
        os_version: name_or(report.os_version, "OS version not found"@),
        host_name: name_or(report.host_name, "Host name not found"@),
        kernel_version: name_or(report.kernel_version, "Kernel version not found"@),
        number_of_cpu: match report.physical_core_count {
            Some(n) => n,
            None => 0,
        },
        arch: report.cpu_arch@,
        brand: report.cpu_brands[0]@,
    }
}

/// The bytes received over the interfaces of `networks`, added up.
pub open spec fn total_received(networks: Seq<NetworkReading>) -> nat
    decreases networks.len(),
{
    if networks.len() == 0 {
        0
    } else {
        total_received(networks.drop_last()) + networks.last().received as nat
    }
}

/// The bytes transmitted over the interfaces of `networks`, added up.
pub open spec fn total_transmitted(networks: Seq<NetworkReading>) -> nat
    decreases networks.len(),
{
    if networks.len() == 0 {
        0
    } else {
        total_transmitted(networks.drop_last()) + networks.last().transmitted as nat
    }
}

/// The sample that a reading gives: memory and swap as read, utilisation
/// and frequency core by core, and the traffic of all interfaces added up.
pub open spec fn sample_of(reading: UsageReading) -> MachineUsageView {
    MachineUsageView {
        total_memory: reading.total_memory,
        used_memory: reading.used_memory,
        total_swap: reading.total_swap,
        used_swap: reading.used_swap,
        cpu_usage: reading.cpus@.map_values(|c: CpuReading| c.usage@),
        cpu_frequency: reading.cpus@.map_values(|c: CpuReading| c.frequency),
        network_down: total_received(reading.networks@) as u64,
        network_up: total_transmitted(reading.networks@) as u64,
    }
}

fn text_or(name: Option<String>, missing: &str) -> (text: String)
    ensures
        text@ == name_or(name, missing@),
{
    match name {
        Some(n) => n,
        None => missing.to_owned(),
    }
}

proof fn lemma_totals_grow(networks: Seq<NetworkReading>, upto: int)
    requires
        0 <= upto <= networks.len(),
    ensures
        total_received(networks.take(upto)) <= total_received(networks),
        total_transmitted(networks.take(upto)) <= total_transmitted(networks),
    decreases networks.len() - upto,
{
    if upto < networks.len() {
        lemma_totals_grow(networks, upto + 1);
        assert(networks.take(upto + 1).drop_last() =~= networks.take(upto));
    } else {
        assert(networks.take(upto) =~= networks);
    }
}

/// Whether the traffic of all interfaces of a reading, added up, fits in 64
/// bits each way: what [`SystemInfo::get_usage`] asks of a reading.
pub fn totals_fit(reading: &UsageReading) -> (fit: bool)
    ensures
        fit == (total_received(reading.networks@) <= u64::MAX && total_transmitted(
            reading.networks@,
        ) <= u64::MAX),
{
    let mut down: u64 = 0;
    let mut up: u64 = 0;
    let mut j: usize = 0;
    while j < reading.networks.len()
        invariant
            j <= reading.networks.len(),
            down == total_received(reading.networks@.take(j as int)),
            up == total_transmitted(reading.networks@.take(j as int)),
        decreases reading.networks.len() - j,
    {
        proof {
            lemma_totals_grow(reading.networks@, j + 1);
            assert(reading.networks@.take(j + 1).drop_last() =~= reading.networks@.take(j as int));
        }
        let received = reading.networks[j].received;
        let transmitted = reading.networks[j].transmitted;
        if received > u64::MAX - down || transmitted > u64::MAX - up {
            return false;
        }
        down += received;
        up += transmitted;
        j += 1;
    }
    proof {
        assert(reading.networks@.take(j as int) =~= reading.networks@);
    }
    true
}

/// The sampler of the local machine, with the descriptor that it made when
/// it was set up.
pub struct SystemInfo {
    machine_info: MachineInfo,
}

impl View for SystemInfo {
    type V = MachineInfoView;

    closed spec fn view(&self) -> MachineInfoView {
        self.machine_info@
    }
}

impl SystemInfo {
    /// The sampler of the machine that `report` describes. The report names
    /// one processor at least.
    pub fn new(report: SystemReport) -> (system: SystemInfo)
        requires
            report.cpu_brands.len() > 0,
        ensures
            system@ == descriptor_of(report),
    {
        let SystemReport {
            name,
            os_version,
            host_name,
            kernel_version,
            physical_core_count,
            cpu_arch,
            cpu_brands,
        } = report;
        let machine_info = MachineInfo {
            os: text_or(name, "OS  name not found"),
            os_version: text_or(os_version, "OS version not found"),
            host_name: text_or(host_name, "Host name not found"),
            kernel_version: text_or(kernel_version, "Kernel version not found"),
            number_of_cpu: match physical_core_count {
                Some(n) => n,
                None => 0,
            },
            arch: cpu_arch,
            brand: cpu_brands[0].clone(),
        };
        Self { machine_info }
    }

    /// The descriptor of the machine.
    pub fn get_machine_info(&self) -> (machine_info: &MachineInfo)
        ensures
            machine_info@ == self@,
    {
        &self.machine_info
    }

    /// The sample that `reading` gives. The traffic of all interfaces,
    /// added up, fits in 64 bits each way.
    pub fn get_usage(&self, reading: &UsageReading) -> (usage: MachineUsage)
        requires
            total_received(reading.networks@) <= u64::MAX,
            total_transmitted(reading.networks@) <= u64::MAX,
        ensures
            usage@ == sample_of(*reading),
    {
        let mut cpu_usage: Vec<String> = Vec::with_capacity(self.machine_info.number_of_cpu);
        let mut cpu_frequency: Vec<u64> = Vec::with_capacity(self.machine_info.number_of_cpu);
        let mut network_down: u64 = 0;
        let mut network_up: u64 = 0;
        let mut i: usize = 0;
        while i < reading.cpus.len()
            invariant
                i <= reading.cpus.len(),
                cpu_usage.len() == i,
                forall|k: int|
                    0 <= k < i ==> (#[trigger] cpu_usage[k])@ == reading.cpus[k].usage@,
                cpu_frequency@ == reading.cpus@.take(i as int).map_values(
                    |c: CpuReading| c.frequency,
                ),
            decreases reading.cpus.len() - i,
        {
            cpu_usage.push(reading.cpus[i].usage.clone());
            cpu_frequency.push(reading.cpus[i].frequency);
            i += 1;
            assert(cpu_frequency@ =~= reading.cpus@.take(i as int).map_values(
                |c: CpuReading| c.frequency,
            ));
        }
        assert(reading.cpus@.take(i as int) =~= reading.cpus@);
        assert(cpu_usage@.map_values(|numeral: String| numeral@) =~= reading.cpus@.map_values(
            |c: CpuReading| c.usage@,
        ));
        let mut j: usize = 0;
        while j < reading.networks.len()
            invariant
                j <= reading.networks.len(),
                total_received(reading.networks@) <= u64::MAX,
                total_transmitted(reading.networks@) <= u64::MAX,
                network_down == total_received(reading.networks@.take(j as int)),
                network_up == total_transmitted(reading.networks@.take(j as int)),
            decreases reading.networks.len() - j,
        {
            proof {
                lemma_totals_grow(reading.networks@, j + 1);
                assert(reading.networks@.take(j + 1).drop_last() =~= reading.networks@.take(
                    j as int,
                ));
            }
            network_down += reading.networks[j].received;
            network_up += reading.networks[j].transmitted;
            j += 1;
        }
        assert(reading.networks@.take(j as int) =~= reading.networks@);
        MachineUsage {
            total_memory: reading.total_memory,
            used_memory: reading.used_memory,
            total_swap: reading.total_swap,
            used_swap: reading.used_swap,
            cpu_usage,
            cpu_frequency,
            network_down,
            network_up,
        }
    }
}

} // verus!
