//! The device snapshot lifecycle: one blocking collection pass against the
//! live host populates the cached records; refresh re-queries only the live
//! handle used for the ad hoc process listing, never the cached records.

use vstd::prelude::*;
use vstd::slice::slice_index_get;

use crate::facts::AddrFacts;
use crate::facts::DiskFacts;
use crate::facts::HostFacts;
use crate::facts::IfaceFacts;
use crate::host;
use crate::records::Cpu;
use crate::records::Disk;
use crate::records::Interface;
use crate::records::SnapshotError;
use crate::records::SystemInfo;
use crate::report::format_processes_report;
use crate::report::spec_processes_report;
use crate::report::spec_cpus_report;
use crate::report::spec_disks_report;
use crate::report::spec_network_report;
use crate::report::spec_system_report;
use crate::report::ProcessRecord;
use crate::snapshot::spec_full_report;
use crate::snapshot::Snapshot;
use crate::snapshot::SnapshotV;

verus! {

/// The per-core facts, read from the live CPU table in enumeration order.
/// What a host reports is not constrained, so nothing is promised of the
/// values.
fn read_cpu_facts(sys: &sysinfo::System) -> Vec<Cpu> {
    let cs = host::sys_cpus(sys);
    let mut cpus: Vec<Cpu> = Vec::new();
    let mut i: usize = 0;
    while i < cs.len()
        invariant
            0 <= i <= cs@.len(),
        decreases cs@.len() - i,
    {
        let c = slice_index_get(cs, i);
        cpus.push(
            Cpu {
                name: host::cpu_name(c),
                usage: host::cpu_usage_pct(c),
                vendor_id: host::cpu_vendor_id(c),
                brand: host::cpu_brand(c),
            },
        );
        i = i + 1;
    }
    cpus
}

/// The per-volume facts, read from the live disk table in enumeration order.
fn read_disk_facts(sys: &sysinfo::System) -> Vec<DiskFacts> {
    let ds = host::sys_disks(sys);
    let mut disks: Vec<DiskFacts> = Vec::new();
    let mut i: usize = 0;
    while i < ds.len()
        invariant
            0 <= i <= ds@.len(),
        decreases ds@.len() - i,
    {
        let d = slice_index_get(ds, i);
        disks.push(
            DiskFacts {
                name: host::disk_name_text(d),
                mount_point: host::disk_mount_text(d),
                total_space: host::disk_total_space(d),
                available_space: host::disk_available_space(d),
            },
        );
        i = i + 1;
    }
    disks
}

/// The per-interface facts, read from the live interface table in
/// enumeration order. Every bound address carries a prefix that fits its
/// family: that much the enumerator's types guarantee.
fn read_iface_facts() -> (r: Vec<IfaceFacts>)
    ensures
        forall|m: int| 0 <= m < r@.len() ==> (#[trigger] r@[m]@).wf(),
{
    let ifs = host::net_interfaces();
    let mut out: Vec<IfaceFacts> = Vec::new();
    let mut i: usize = 0;
    while i < ifs.len()
        invariant
            0 <= i <= ifs@.len(),
            forall|m: int| 0 <= m < out@.len() ==> (#[trigger] out@[m]@).wf(),
        decreases ifs@.len() - i,
    {
        let itf = &ifs[i];
        let name = host::iface_name(itf);
        let mac = host::iface_mac_text(itf);
        let ips = host::iface_addrs(itf);
        let mut addrs: Vec<AddrFacts> = Vec::new();
        let mut j: usize = 0;
        while j < ips.len()
            invariant
                0 <= j <= ips@.len(),
                forall|k: int| 0 <= k < addrs@.len() ==> (#[trigger] addrs@[k]@).wf(),
            decreases ips@.len() - j,
        {
            let a = host::addr_facts(&ips[j]);
            addrs.push(a);
            j = j + 1;
        }
        let f = IfaceFacts { name, mac, addrs };
        proof {
            assert forall|k: int| 0 <= k < f@.addrs.len() implies (#[trigger] f@.addrs[k]).wf() by {
                assert(f@.addrs[k] == f.addrs@[k]@);
            }
            assert(f@.wf());
        }
        out.push(f);
        i = i + 1;
    }
    out
}

/// Everything one collection pass reads from the live host.
fn read_facts(sys: &sysinfo::System) -> (r: HostFacts)
    ensures
        r@.wf(),
{
    let facts = HostFacts {
        os_name: host::sys_os_name(sys),
        os_version: host::sys_os_version(sys),
        kernel_version: host::sys_kernel_version(sys),
        hostname: host::sys_hostname(sys),
        total_ram: host::sys_total_memory(sys),
        free_ram: host::sys_free_memory(sys),
        used_ram: host::sys_used_memory(sys),
        total_swap: host::sys_total_swap(sys),
        free_swap: host::sys_free_swap(sys),
        used_swap: host::sys_used_swap(sys),
        cpus: read_cpu_facts(sys),
        disks: read_disk_facts(sys),
        interfaces: read_iface_facts(),
    };
    proof {
        assert forall|m: int| 0 <= m < facts@.interfaces.len() implies (
        #[trigger] facts@.interfaces[m]).wf() by {
            assert(facts@.interfaces[m] == facts.interfaces@[m]@);
        }
    }
    facts
}

/// A device: the snapshot of the host taken at construction, and the live
/// host handle it keeps for refreshing and for the ad hoc process listing.
pub struct Device {
    snapshot: Snapshot,
    sys: sysinfo::System,
}

impl View for Device {
    type V = SnapshotV;

    closed spec fn view(&self) -> SnapshotV {
        self.snapshot@
    }
}

impl Device {
    /// Takes one blocking collection pass against the live host and caches
    /// the normalized records. Fails, producing no snapshot, exactly when a
    /// mandatory host fact is unavailable; the error names the first such
    /// fact. On success the snapshot is well formed: the reported core
    /// count equals the CPU table's length, and every interface record's
    /// family tag agrees with its prefix length.
    pub fn new() -> (r: Result<Device, SnapshotError>)
        ensures
            r is Ok ==> r.unwrap()@.wf(),
    {
        let mut sys = host::system_new_all();
        host::system_refresh_all(&mut sys);
        let facts = read_facts(&sys);
        match Snapshot::from_facts(facts) {
            Ok(snapshot) => Ok(Device { snapshot, sys }),
            Err(e) => Err(e),
        }
    }

    /// Re-queries every metric category of the live handle. The cached
    /// records are untouched: only the ad hoc process listing sees the
    /// refreshed state.
    pub fn refresh_all(&mut self)
        ensures
            final(self)@ == old(self)@,
    {
        host::system_refresh_all(&mut self.sys);
    }

    /// A copy of the host-wide record of the snapshot.
    pub fn get_system_info(&self) -> (r: SystemInfo)
        ensures
            r@ == self@.systeminfo,
    {
        self.snapshot.get_system_info()
    }

    /// A full copy of the cached CPU table, in enumeration order.
    pub fn get_cpus(&self) -> (r: Vec<Cpu>)
        ensures
            r.deep_view() == self@.cpus,
    {
        self.snapshot.get_cpus()
    }

    /// A full copy of the cached disk table, in enumeration order.
    pub fn get_disks(&self) -> (r: Vec<Disk>)
        ensures
            r.deep_view() == self@.disks,
    {
        self.snapshot.get_disks()
    }

    /// A full copy of the cached interface records, in enumeration order.
    pub fn get_interfaces(&self) -> (r: Vec<Interface>)
        ensures
            r.deep_view() == self@.interfaces,
    {
        self.snapshot.get_interfaces()
    }

    /// The live process table, read from the handle at call time and never
    /// cached. The host decides its contents and their order, so nothing is
    /// promised of the result.
    pub fn get_processes(&self) -> Vec<ProcessRecord> {
        let entries = host::sys_process_entries(&self.sys);
        let mut out: Vec<ProcessRecord> = Vec::new();
        let mut i: usize = 0;
        while i < entries.len()
            invariant
                0 <= i <= entries@.len(),
            decreases entries@.len() - i,
        {
            let e = &entries[i];
            out.push(
                ProcessRecord {
                    pid: host::pid_u32(e.0),
                    name: host::proc_name(e.1),
                    cpu_usage: host::proc_cpu_usage_pct(e.1),
                    virtual_memory: host::proc_virtual_memory(e.1),
                    status: host::proc_status_text(e.1),
                },
            );
            i = i + 1;
        }
        out
    }

    /// Renders the system section of the snapshot.
    pub fn format_system_info(&self, do_tab: bool) -> (r: String)
        ensures
            r@ == spec_system_report(self@.systeminfo, do_tab),
    {
        self.snapshot.format_system_info(do_tab)
    }

    /// Renders the network section of the snapshot.
    pub fn format_network_info(&self) -> (r: String)
        ensures
            r@ == spec_network_report(self@.interfaces),
    {
        self.snapshot.format_network_info()
    }

    /// Renders the CPU section of the snapshot.
    pub fn format_cpus_info(&self) -> (r: String)
        ensures
            r@ == spec_cpus_report(self@.cpus),
    {
        self.snapshot.format_cpus_info()
    }

    /// Renders the disk section of the snapshot.
    pub fn format_disks_info(&self) -> (r: String)
        ensures
            r@ == spec_disks_report(self@.disks),
    {
        self.snapshot.format_disks_info()
    }

    /// Renders every section of the snapshot under its header.
    pub fn format_all_info(&self) -> (r: String)
        ensures
            r@ == spec_full_report(self@),
    {
        self.snapshot.format_all_info()
    }

    /// Renders the live process table as read at call time. The table's
    /// contents are the host's to decide, so only the shape is stated: the
    /// text is the process report of some sequence of process records.
    pub fn format_processes(&self) -> (r: String)
        ensures
            exists|ps: Seq<crate::report::ProcessRecordV>| r@ == spec_processes_report(ps),
    {
        let ps = self.get_processes();
        format_processes_report(&ps)
    }
}

} // verus!

