//! Normalization of raw host facts into one cached snapshot: the CPU, disk
//! and interface tables become uniform records, or construction fails on the
//! first mandatory fact that is unavailable, with no partial result.

use vstd::prelude::*;
use vstd::string::StringExecFns;

use crate::facts::AddrFacts;
use crate::facts::AddrFactsV;
use crate::facts::DiskFacts;
use crate::facts::DiskFactsV;
use crate::facts::HostFacts;
use crate::facts::HostFactsV;
use crate::facts::IfaceFacts;
use crate::facts::IfaceFactsV;
use crate::records::Cpu;
use crate::records::CpuV;
use crate::records::Disk;
use crate::records::DiskV;
use crate::records::Interface;
use crate::records::InterfaceV;
use crate::records::SnapshotError;
use crate::records::SystemInfo;
use crate::records::SystemInfoV;
use crate::report::format_cpus_report;
use crate::report::format_disks_report;
use crate::report::format_network_report;
use crate::report::format_system_report;
use crate::report::spec_cpus_report;
use crate::report::spec_disks_report;
use crate::report::spec_network_report;
use crate::report::spec_system_report;

verus! {

/// Why one reported volume cannot become a record: its name or its mount
/// point could not be represented as text. The name is checked first.
pub open spec fn spec_disk_error(d: DiskFactsV) -> Option<SnapshotError> {
    if d.name is None {
        Some(SnapshotError::UnreadableDiskName)
    } else if d.mount_point is None {
        Some(SnapshotError::UnreadableDiskMountPoint)
    } else {
        None
    }
}

/// The error of the first volume, in table order, that cannot become a record.
pub open spec fn spec_first_disk_error(ds: Seq<DiskFactsV>) -> Option<SnapshotError>
    decreases ds.len(),
{
    if ds.len() == 0 {
        None
    } else if spec_disk_error(ds[0]) is Some {
        spec_disk_error(ds[0])
    } else {
        spec_first_disk_error(ds.drop_first())
    }
}

/// The record of one reported volume: names as text, space counters verbatim.
pub open spec fn spec_disk_record(d: DiskFactsV) -> DiskV
    recommends
        spec_disk_error(d) is None,
{
    DiskV {
        name: d.name.unwrap(),
        mount_point: d.mount_point.unwrap(),
        total_space: d.total_space,
        available_space: d.available_space,
    }
}

/// The disk table's records, one per reported volume, in table order.
pub open spec fn spec_disk_records(ds: Seq<DiskFactsV>) -> Seq<DiskV> {
    ds.map_values(|d: DiskFactsV| spec_disk_record(d))
}

/// An interface that binds at least one address must report a MAC address.
pub open spec fn spec_iface_ok(f: IfaceFactsV) -> bool {
    f.addrs.len() > 0 ==> f.mac is Some
}

/// The error of the first interface, in table order, that binds an address
/// but reports no MAC.
pub open spec fn spec_first_iface_error(fs: Seq<IfaceFactsV>) -> Option<SnapshotError>
    decreases fs.len(),
{
    if fs.len() == 0 {
        None
    } else if !spec_iface_ok(fs[0]) {
        Some(SnapshotError::MissingMac)
    } else {
        spec_first_iface_error(fs.drop_first())
    }
}

/// One record per bound address, carrying the interface's shared name and
/// MAC and the family tag of that address.
pub open spec fn spec_addr_record(name: Seq<char>, mac: Seq<char>, a: AddrFactsV) -> InterfaceV {
    match a {
        AddrFactsV::V4 { ip, prefix } => InterfaceV { name, mac, ip, prefix, version: 4 },
        AddrFactsV::V6 { ip, prefix } => InterfaceV { name, mac, ip, prefix, version: 6 },
    }
}

/// The records of one interface: one per bound address, in address order.
/// An interface with no bound address yields no record.
pub open spec fn spec_iface_records(f: IfaceFactsV) -> Seq<InterfaceV>
    recommends
        spec_iface_ok(f),
{
    f.addrs.map_values(|a: AddrFactsV| spec_addr_record(f.name, f.mac.unwrap(), a))
}

/// All interface records, interface by interface, in table order.
pub open spec fn spec_all_iface_records(fs: Seq<IfaceFactsV>) -> Seq<InterfaceV>
    decreases fs.len(),
{
    if fs.len() == 0 {
        Seq::empty()
    } else {
        spec_all_iface_records(fs.drop_last()) + spec_iface_records(fs.last())
    }
}

/// The error of the first missing host identity fact, checked in the order
/// OS name, OS version, hostname, kernel version.
pub open spec fn spec_header_error(f: HostFactsV) -> Option<SnapshotError> {
    if f.os_name is None {
        Some(SnapshotError::MissingOsName)
    } else if f.os_version is None {
        Some(SnapshotError::MissingOsVersion)
    } else if f.hostname is None {
        Some(SnapshotError::MissingHostname)
    } else if f.kernel_version is None {
        Some(SnapshotError::MissingKernelVersion)
    } else {
        None
    }
}

/// The error a collection pass over these facts reports, if any: identity
/// facts first, then the disk table, then the interface table.
pub open spec fn spec_snapshot_error(f: HostFactsV) -> Option<SnapshotError> {
    if spec_header_error(f) is Some {
        spec_header_error(f)
    } else if spec_first_disk_error(f.disks) is Some {
        spec_first_disk_error(f.disks)
    } else {
        spec_first_iface_error(f.interfaces)
    }
}

/// The host-wide record: OS name and version joined by one space, the other
/// identity strings as reported, the core count taken from the CPU table's
/// length, and the six memory counters verbatim.
pub open spec fn spec_system_info(f: HostFactsV) -> SystemInfoV
    recommends
        spec_header_error(f) is None,
{
    SystemInfoV {
        os_version: f.os_name.unwrap() + " "@ + f.os_version.unwrap(),
        kernel_version: f.kernel_version.unwrap(),
        hostname: f.hostname.unwrap(),
        cores_nb: f.cpus.len() as usize,
        total_ram: f.total_ram,
        free_ram: f.free_ram,
        used_ram: f.used_ram,
        total_swap: f.total_swap,
        free_swap: f.free_swap,
        used_swap: f.used_swap,
    }
}

/// The view of a [`Snapshot`].
#[verifier::ext_equal]
pub struct SnapshotV {
    pub systeminfo: SystemInfoV,
    pub cpus: Seq<CpuV>,
    pub disks: Seq<DiskV>,
    pub interfaces: Seq<InterfaceV>,
}

/// The snapshot these facts normalize to, defined when
/// [`spec_snapshot_error`] reports none.
pub open spec fn spec_snapshot(f: HostFactsV) -> SnapshotV
    recommends
        spec_snapshot_error(f) is None,
{
    SnapshotV {
        systeminfo: spec_system_info(f),
        cpus: f.cpus,
        disks: spec_disk_records(f.disks),
        interfaces: spec_all_iface_records(f.interfaces),
    }
}

impl SnapshotV {
    /// The reported core count agrees with the CPU table, and every
    /// interface record's family tag agrees with its prefix length.
    pub open spec fn wf(self) -> bool {
        &&& self.systeminfo.cores_nb == self.cpus.len()
        &&& forall|i: int| 0 <= i < self.interfaces.len() ==> (#[trigger] self.interfaces[i]).wf()
    }
}

/// One immutable-after-construction capture of host state: the four record
/// families, produced by a single normalization pass over plain host facts.
#[derive(Debug)]
pub struct Snapshot {
    pub(crate) systeminfo: SystemInfo,
    pub(crate) cpus: Vec<Cpu>,
    pub(crate) disks: Vec<Disk>,
    pub(crate) interfaces: Vec<Interface>,
}

impl View for Snapshot {
    type V = SnapshotV;

    closed spec fn view(&self) -> SnapshotV {
        SnapshotV {
            systeminfo: self.systeminfo@,
            cpus: self.cpus.deep_view(),
            disks: self.disks.deep_view(),
            interfaces: self.interfaces.deep_view(),
        }
    }
}

/// No volume before position `at` fails, and the one at `at` fails: then the
/// table's first error is the one at `at`.
proof fn lemma_first_disk_error_at(ds: Seq<DiskFactsV>, at: int)
    requires
        0 <= at < ds.len(),
        forall|j: int| 0 <= j < at ==> spec_disk_error(#[trigger] ds[j]) is None,
        spec_disk_error(ds[at]) is Some,
    ensures
        spec_first_disk_error(ds) == spec_disk_error(ds[at]),
    decreases at,
{
    if at > 0 {
        lemma_first_disk_error_at(ds.drop_first(), at - 1);
    }
}

/// A table where no volume fails has no first error.
proof fn lemma_first_disk_error_none(ds: Seq<DiskFactsV>)
    requires
        forall|j: int| 0 <= j < ds.len() ==> spec_disk_error(#[trigger] ds[j]) is None,
    ensures
        spec_first_disk_error(ds) is None,
    decreases ds.len(),
{
    if ds.len() > 0 {
        lemma_first_disk_error_none(ds.drop_first());
    }
}

/// No interface before position `at` fails, and the one at `at` fails: then
/// the table's first error is a missing MAC at `at`.
proof fn lemma_first_iface_error_at(fs: Seq<IfaceFactsV>, at: int)
    requires
        0 <= at < fs.len(),
        forall|j: int| 0 <= j < at ==> spec_iface_ok(#[trigger] fs[j]),
        !spec_iface_ok(fs[at]),
    ensures
        spec_first_iface_error(fs) == Some(SnapshotError::MissingMac),
    decreases at,
{
    if at > 0 {
        lemma_first_iface_error_at(fs.drop_first(), at - 1);
    }
}

/// A table where every addressed interface has a MAC has no first error.
proof fn lemma_first_iface_error_none(fs: Seq<IfaceFactsV>)
    requires
        forall|j: int| 0 <= j < fs.len() ==> spec_iface_ok(#[trigger] fs[j]),
    ensures
        spec_first_iface_error(fs) is None,
    decreases fs.len(),
{
    if fs.len() > 0 {
        lemma_first_iface_error_none(fs.drop_first());
    }
}

/// The disk table's records, or the error of the first volume whose name or
/// mount point is not representable as text.
fn build_disks(ds: Vec<DiskFacts>) -> (r: Result<Vec<Disk>, SnapshotError>)
    ensures
        r is Ok <==> spec_first_disk_error(ds.deep_view()) is None,
        r is Ok ==> r.unwrap().deep_view() == spec_disk_records(ds.deep_view()),
        r is Err ==> Some(r.unwrap_err()) == spec_first_disk_error(ds.deep_view()),
{
    let ghost dsv = ds.deep_view();
    let mut out: Vec<Disk> = Vec::new();
    let mut i: usize = 0;
    while i < ds.len()
        invariant
            0 <= i <= ds.len(),
            dsv == ds.deep_view(),
            dsv.len() == ds.len(),
            forall|j: int| 0 <= j < i ==> spec_disk_error(#[trigger] dsv[j]) is None,
            out@.len() == i as int,
            out.deep_view() == spec_disk_records(dsv.take(i as int)),
        decreases ds.len() - i,
    {
        let d = &ds[i];
        let name = match &d.name {
            Some(s) => s.clone(),
            None => {
                proof {
                    lemma_first_disk_error_at(dsv, i as int);
                }
                return Err(SnapshotError::UnreadableDiskName);
            },
        };
        let mount_point = match &d.mount_point {
            Some(s) => s.clone(),
            None => {
                proof {
                    lemma_first_disk_error_at(dsv, i as int);
                }
                return Err(SnapshotError::UnreadableDiskMountPoint);
            },
        };
        out.push(
            Disk {
                name,
                mount_point,
                total_space: d.total_space,
                available_space: d.available_space,
            },
        );
        proof {
            let ghost k = i as int;
            assert(dsv.take(k + 1) =~= dsv.take(k).push(dsv[k]));
            assert(out.deep_view().len() == k + 1);
            assert(out@[k].deep_view() == spec_disk_record(dsv[k]));
            assert(forall|m: int| 0 <= m < k ==> out.deep_view()[m] == spec_disk_records(
                dsv.take(k),
            )[m]);
            assert(out.deep_view() =~~= spec_disk_records(dsv.take(k + 1)));
        }
        i = i + 1;
    }
    proof {
        assert(dsv.take(i as int) =~= dsv);
        lemma_first_disk_error_none(dsv);
    }
    Ok(out)
}

/// The interface table's records: one per (interface, bound address) pair,
/// or the error of the first interface that binds an address without a MAC.
fn build_interfaces(fs: Vec<IfaceFacts>) -> (r: Result<Vec<Interface>, SnapshotError>)
    ensures
        r is Ok <==> spec_first_iface_error(fs.deep_view()) is None,
        r is Ok ==> r.unwrap().deep_view() == spec_all_iface_records(fs.deep_view()),
        r is Err ==> Some(r.unwrap_err()) == spec_first_iface_error(fs.deep_view()),
{
    let ghost fsv = fs.deep_view();
    let mut out: Vec<Interface> = Vec::new();
    let mut i: usize = 0;
    while i < fs.len()
        invariant
            0 <= i <= fs.len(),
            fsv == fs.deep_view(),
            fsv.len() == fs.len(),
            forall|j: int| 0 <= j < i ==> spec_iface_ok(#[trigger] fsv[j]),
            out@.len() == spec_all_iface_records(fsv.take(i as int)).len(),
            out.deep_view() == spec_all_iface_records(fsv.take(i as int)),
        decreases fs.len() - i,
    {
        let f = &fs[i];
        if f.addrs.len() > 0 {
            let mac = match &f.mac {
                Some(m) => m,
                None => {
                    proof {
                        lemma_first_iface_error_at(fsv, i as int);
                    }
                    return Err(SnapshotError::MissingMac);
                },
            };
            let mut j: usize = 0;
            while j < f.addrs.len()
                invariant
                    0 <= j <= f.addrs.len(),
                    fsv == fs.deep_view(),
                    fsv.len() == fs.len(),
                    0 <= i < fs.len(),
                    f == &fs[i as int],
                    fs[i as int].mac is Some,
                    mac == &fs[i as int].mac.unwrap(),
                    forall|k: int| 0 <= k < i ==> spec_iface_ok(#[trigger] fsv[k]),
                    spec_iface_records(fsv[i as int]).len() == fsv[i as int].addrs.len(),
                    fsv[i as int].addrs.len() == f.addrs.len(),
                    out@.len() == spec_all_iface_records(fsv.take(i as int)).len() + j as int,
                    out.deep_view() == spec_all_iface_records(fsv.take(i as int))
                        + spec_iface_records(fsv[i as int]).take(j as int),
                decreases f.addrs.len() - j,
            {
                let rec = match &f.addrs[j] {
                    AddrFacts::V4 { ip, prefix } => Interface {
                        name: f.name.clone(),
                        mac: mac.clone(),
                        ip: ip.clone(),
                        prefix: *prefix,
                        version: 4,
                    },
                    AddrFacts::V6 { ip, prefix } => Interface {
                        name: f.name.clone(),
                        mac: mac.clone(),
                        ip: ip.clone(),
                        prefix: *prefix,
                        version: 6,
                    },
                };
                proof {
                    assert(rec@ == spec_addr_record(
                        fsv[i as int].name,
                        fsv[i as int].mac.unwrap(),
                        fsv[i as int].addrs[j as int],
                    ));
                }
                out.push(rec);
                proof {
                    let ghost pre = spec_all_iface_records(fsv.take(i as int));
                    let ghost recs = spec_iface_records(fsv[i as int]);
                    let ghost m = pre.len() + j as int;
                    assert(recs.take(j + 1) =~= recs.take(j as int).push(recs[j as int]));
                    assert(out.deep_view().len() == m + 1);
                    assert(out@[m].deep_view() == recs[j as int]);
                    assert(forall|q: int| 0 <= q < m ==> out.deep_view()[q] == (pre + recs.take(
                        j as int,
                    ))[q]);
                    assert(out.deep_view() =~~= pre + recs.take(j + 1));
                }
                j = j + 1;
            }
            proof {
                assert(spec_iface_records(fsv[i as int]).take(j as int) =~= spec_iface_records(
                    fsv[i as int],
                ));
            }
        }
        proof {
            assert(fsv.take(i + 1 as int).drop_last() =~= fsv.take(i as int));
            assert(fsv.take(i + 1 as int).last() == fsv[i as int]);
            if fsv[i as int].addrs.len() == 0 {
                assert(spec_iface_records(fsv[i as int]) =~= Seq::<InterfaceV>::empty());
            }
            assert(out.deep_view() =~~= spec_all_iface_records(fsv.take(i + 1 as int)));
        }
        i = i + 1;
    }
    proof {
        assert(fsv.take(i as int) =~= fsv);
        lemma_first_iface_error_none(fsv);
    }
    Ok(out)
}

/// When every interface's bound addresses carry prefixes that fit their
/// family, every record of the whole table is well formed.
proof fn lemma_all_iface_records_wf(fs: Seq<IfaceFactsV>)
    requires
        forall|i: int| 0 <= i < fs.len() ==> (#[trigger] fs[i]).wf(),
    ensures
        forall|i: int| 0 <= i < spec_all_iface_records(fs).len() ==> (
        #[trigger] spec_all_iface_records(fs)[i]).wf(),
    decreases fs.len(),
{
    if fs.len() > 0 {
        lemma_all_iface_records_wf(fs.drop_last());
        let f = fs.last();
        assert(f.wf());
        assert forall|k: int| 0 <= k < spec_iface_records(f).len() implies (
        #[trigger] spec_iface_records(f)[k]).wf() by {
            assert(f.addrs[k].wf());
            assert(spec_iface_records(f)[k] == spec_addr_record(f.name, f.mac.unwrap(), f.addrs[k]));
        }
        assert forall|i: int| 0 <= i < spec_all_iface_records(fs).len() implies (
        #[trigger] spec_all_iface_records(fs)[i]).wf() by {
            assert(spec_all_iface_records(fs) == spec_all_iface_records(fs.drop_last())
                + spec_iface_records(f));
        }
    }
}

impl Snapshot {
    /// Normalizes one pass of host facts into a snapshot. Returns the
    /// snapshot exactly when no mandatory fact is missing; otherwise the
    /// error names the first missing fact, in collection order, and no
    /// partial snapshot is produced.
    pub fn from_facts(facts: HostFacts) -> (r: Result<Snapshot, SnapshotError>)
        ensures
            r is Ok <==> spec_snapshot_error(facts@) is None,
            r is Ok ==> r.unwrap()@ == spec_snapshot(facts@),
            facts@.wf() && r is Ok ==> r.unwrap()@.wf(),
            r is Err ==> Some(r.unwrap_err()) == spec_snapshot_error(facts@),
    {
        let ghost fv = facts@;
        let HostFacts {
            os_name,
            os_version: os_version_fact,
            kernel_version,
            hostname,
            total_ram,
            free_ram,
            used_ram,
            total_swap,
            free_swap,
            used_swap,
            cpus,
            disks,
            interfaces,
        } = facts;
        let os_name = match os_name {
            Some(s) => s,
            None => {
                return Err(SnapshotError::MissingOsName);
            },
        };
        let os_version_fact = match os_version_fact {
            Some(s) => s,
            None => {
                return Err(SnapshotError::MissingOsVersion);
            },
        };
        let hostname = match hostname {
            Some(s) => s,
            None => {
                return Err(SnapshotError::MissingHostname);
            },
        };
        let kernel_version = match kernel_version {
            Some(s) => s,
            None => {
                return Err(SnapshotError::MissingKernelVersion);
            },
        };
        let mut os_version = os_name;
        os_version.append(" ");
        os_version.append(os_version_fact.as_str());
        let cores_nb = cpus.len();
        let systeminfo = SystemInfo {
            os_version,
            kernel_version,
            hostname,
            cores_nb,
            total_ram,
            free_ram,
            used_ram,
            total_swap,
            free_swap,
            used_swap,
        };
        let disks = match build_disks(disks) {
            Ok(v) => v,
            Err(e) => {
                return Err(e);
            },
        };
        let interfaces = match build_interfaces(interfaces) {
            Ok(v) => v,
            Err(e) => {
                return Err(e);
            },
        };
        let snapshot = Snapshot { systeminfo, cpus, disks, interfaces };
        proof {
            assert(snapshot@.systeminfo =~= spec_system_info(fv));
            assert(snapshot@ =~= spec_snapshot(fv));
            if fv.wf() {
                lemma_all_iface_records_wf(fv.interfaces);
                assert(snapshot@.cpus.len() == cpus@.len());
                assert(snapshot@.wf());
            }
        }
        Ok(snapshot)
    }

    /// A copy of the host-wide record.
    pub fn get_system_info(&self) -> (r: SystemInfo)
        ensures
            r@ == self@.systeminfo,
    {
        self.systeminfo.clone()
    }

    /// A full copy of the cached CPU table, in enumeration order.
    pub fn get_cpus(&self) -> (r: Vec<Cpu>)
        ensures
            r.deep_view() == self@.cpus,
    {
        let mut r: Vec<Cpu> = Vec::new();
        let mut i: usize = 0;
        while i < self.cpus.len()
            invariant
                0 <= i <= self.cpus.len(),
                r@.len() == i as int,
                forall|m: int| 0 <= m < i ==> r@[m] == self.cpus@[m],
            decreases self.cpus.len() - i,
        {
            r.push(self.cpus[i].clone());
            i = i + 1;
        }
        proof {
            assert(r@ =~= self.cpus@);
        }
        r
    }

    /// A full copy of the cached disk table, in enumeration order.
    pub fn get_disks(&self) -> (r: Vec<Disk>)
        ensures
            r.deep_view() == self@.disks,
    {
        let mut r: Vec<Disk> = Vec::new();
        let mut i: usize = 0;
        while i < self.disks.len()
            invariant
                0 <= i <= self.disks.len(),
                r@.len() == i as int,
                forall|m: int| 0 <= m < i ==> r@[m] == self.disks@[m],
            decreases self.disks.len() - i,
        {
            r.push(self.disks[i].clone());
            i = i + 1;
        }
        proof {
            assert(r@ =~= self.disks@);
        }
        r
    }

    /// A full copy of the cached interface records, in enumeration order.
    pub fn get_interfaces(&self) -> (r: Vec<Interface>)
        ensures
            r.deep_view() == self@.interfaces,
    {
        let mut r: Vec<Interface> = Vec::new();
        let mut i: usize = 0;
        while i < self.interfaces.len()
            invariant
                0 <= i <= self.interfaces.len(),
                r@.len() == i as int,
                forall|m: int| 0 <= m < i ==> r@[m] == self.interfaces@[m],
            decreases self.interfaces.len() - i,
        {
            r.push(self.interfaces[i].clone());
            i = i + 1;
        }
        proof {
            assert(r@ =~= self.interfaces@);
        }
        r
    }
}

/// The whole report: the system, network, CPU and disk sections in that
/// order, each under its header line, separated by blank lines.
pub open spec fn spec_full_report(s: SnapshotV) -> Seq<char> {
    "System:\n"@ + spec_system_report(s.systeminfo, true) + "\nNetwork interfaces:\n"@
        + spec_network_report(s.interfaces) + "\nCPUs:\n"@ + spec_cpus_report(s.cpus)
        + "\ndisks:\n"@ + spec_disks_report(s.disks)
}

impl Snapshot {
    /// Renders the system section of this snapshot.
    pub fn format_system_info(&self, do_tab: bool) -> (r: String)
        ensures
            r@ == spec_system_report(self@.systeminfo, do_tab),
    {
        format_system_report(&self.systeminfo, do_tab)
    }

    /// Renders the network section of this snapshot.
    pub fn format_network_info(&self) -> (r: String)
        ensures
            r@ == spec_network_report(self@.interfaces),
    {
        format_network_report(&self.interfaces)
    }

    /// Renders the CPU section of this snapshot.
    pub fn format_cpus_info(&self) -> (r: String)
        ensures
            r@ == spec_cpus_report(self@.cpus),
    {
        format_cpus_report(&self.cpus)
    }

    /// Renders the disk section of this snapshot.
    pub fn format_disks_info(&self) -> (r: String)
        ensures
            r@ == spec_disks_report(self@.disks),
    {
        format_disks_report(&self.disks)
    }

    /// Renders every section of this snapshot under its header.
    pub fn format_all_info(&self) -> (r: String)
        ensures
            r@ == spec_full_report(self@),
    {
        let mut s = String::new();
        s.append("System:\n");
        let sys = self.format_system_info(true);
        s.append(sys.as_str());
        s.append("\nNetwork interfaces:\n");
        let net = self.format_network_info();
        s.append(net.as_str());
        s.append("\nCPUs:\n");
        let cpus = self.format_cpus_info();
        s.append(cpus.as_str());
        s.append("\ndisks:\n");
        let disks = self.format_disks_info();
        s.append(disks.as_str());
        proof {
            assert(s@ =~= spec_full_report(self@));
        }
        s
    }
}

/// An interface with k bound addresses yields exactly k records; every one
/// of them carries the interface's name and MAC, and each record's family
/// tag is 4 or 6 according to the family of the address it was derived
/// from, with a prefix length that fits that family.
pub proof fn lemma_interface_fanout(f: IfaceFactsV)
    requires
        f.wf(),
    ensures
        spec_iface_records(f).len() == f.addrs.len(),
        forall|i: int| 0 <= i < f.addrs.len() ==> {
            let r = (#[trigger] spec_iface_records(f)[i]);
            &&& r.name == f.name
            &&& r.mac == f.mac.unwrap()
            &&& (r.version == 4 <==> f.addrs[i] is V4)
            &&& (r.version == 6 <==> f.addrs[i] is V6)
            &&& r.wf()
        },
{
    assert forall|i: int| 0 <= i < f.addrs.len() implies {
        let r = (#[trigger] spec_iface_records(f)[i]);
        &&& r.name == f.name
        &&& r.mac == f.mac.unwrap()
        &&& (r.version == 4 <==> f.addrs[i] is V4)
        &&& (r.version == 6 <==> f.addrs[i] is V6)
        &&& r.wf()
    } by {
        assert(f.addrs[i].wf());
        assert(spec_iface_records(f)[i] == spec_addr_record(f.name, f.mac.unwrap(), f.addrs[i]));
    }
}

/// Normalization keeps the space bound: when every reported volume has
/// `available_space <= total_space`, so does every record built from it.
pub proof fn lemma_disk_space_bound(ds: Seq<DiskFactsV>)
    requires
        forall|i: int| 0 <= i < ds.len() ==> (#[trigger] ds[i]).available_space <= ds[i].total_space,
    ensures
        forall|i: int| 0 <= i < ds.len() ==> (#[trigger] spec_disk_records(ds)[i]).available_space
            <= spec_disk_records(ds)[i].total_space,
{
    assert forall|i: int| 0 <= i < ds.len() implies (#[trigger] spec_disk_records(
        ds,
    )[i]).available_space <= spec_disk_records(ds)[i].total_space by {
        assert(spec_disk_records(ds)[i] == spec_disk_record(ds[i]));
        assert(ds[i].available_space <= ds[i].total_space);
    }
}

} // verus!
