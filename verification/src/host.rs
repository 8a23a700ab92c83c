//! The trusted boundary to the host: every item here either declares an
//! outside type or wraps exactly one call into `sysinfo`, `pnet_datalink` or
//! `ipnetwork`, converting its result to plain values. What a host reports
//! is outside this library's control, so almost nothing is promised of these
//! results; the one stated fact (a prefix length fits its address family) is
//! an invariant the outside crate maintains.

use vstd::prelude::*;

use sysinfo::Cpu as SysCpu;
use sysinfo::CpuExt;
use sysinfo::Disk as SysDisk;
use sysinfo::DiskExt;
use sysinfo::PidExt;
use sysinfo::ProcessExt;
use sysinfo::SystemExt;

use crate::facts::AddrFacts;

verus! {

#[verifier::external_type_specification]
#[verifier::external_body]
pub struct ExSystem(sysinfo::System);

#[verifier::external_type_specification]
#[verifier::external_body]
pub struct ExSysCpu(SysCpu);

#[verifier::external_type_specification]
#[verifier::external_body]
pub struct ExSysDisk(SysDisk);

#[verifier::external_type_specification]
#[verifier::external_body]
pub struct ExSysProcess(sysinfo::Process);

#[verifier::external_type_specification]
#[verifier::external_body]
pub struct ExPid(sysinfo::Pid);

#[verifier::external_type_specification]
#[verifier::external_body]
pub struct ExNetworkInterface(pnet_datalink::NetworkInterface);

#[verifier::external_type_specification]
#[verifier::external_body]
pub struct ExIpNetwork(ipnetwork::IpNetwork);

/// Relies on sysinfo's `System::new_all`: a handle with every metric
/// category loaded once.
#[verifier::external_body]
pub(crate) fn system_new_all() -> sysinfo::System {
    sysinfo::System::new_all()
}

/// Relies on sysinfo's `System::refresh_all`: re-queries every metric
/// category of the handle in place.
#[verifier::external_body]
pub(crate) fn system_refresh_all(sys: &mut sysinfo::System) {
    sys.refresh_all();
}

/// Relies on sysinfo's `System::name`: the OS name, when the platform
/// reports one.
#[verifier::external_body]
pub(crate) fn sys_os_name(sys: &sysinfo::System) -> Option<String> {
    sys.name()
}

/// Relies on sysinfo's `System::os_version`: the OS version, when the
/// platform reports one.
#[verifier::external_body]
pub(crate) fn sys_os_version(sys: &sysinfo::System) -> Option<String> {
    sys.os_version()
}

/// Relies on sysinfo's `System::kernel_version`, when the platform reports
/// one.
#[verifier::external_body]
pub(crate) fn sys_kernel_version(sys: &sysinfo::System) -> Option<String> {
    sys.kernel_version()
}

/// Relies on sysinfo's `System::host_name`, when the platform reports one.
#[verifier::external_body]
pub(crate) fn sys_hostname(sys: &sysinfo::System) -> Option<String> {
    sys.host_name()
}

/// Relies on sysinfo's `System::total_memory`, in bytes.
#[verifier::external_body]
pub(crate) fn sys_total_memory(sys: &sysinfo::System) -> u64 {
    sys.total_memory()
}

/// Relies on sysinfo's `System::free_memory`, in bytes.
#[verifier::external_body]
pub(crate) fn sys_free_memory(sys: &sysinfo::System) -> u64 {
    sys.free_memory()
}

/// Relies on sysinfo's `System::used_memory`, in bytes.
#[verifier::external_body]
pub(crate) fn sys_used_memory(sys: &sysinfo::System) -> u64 {
    sys.used_memory()
}

/// Relies on sysinfo's `System::total_swap`, in bytes.
#[verifier::external_body]
pub(crate) fn sys_total_swap(sys: &sysinfo::System) -> u64 {
    sys.total_swap()
}

/// Relies on sysinfo's `System::free_swap`, in bytes.
#[verifier::external_body]
pub(crate) fn sys_free_swap(sys: &sysinfo::System) -> u64 {
    sys.free_swap()
}

/// Relies on sysinfo's `System::used_swap`, in bytes.
#[verifier::external_body]
pub(crate) fn sys_used_swap(sys: &sysinfo::System) -> u64 {
    sys.used_swap()
}

/// Relies on sysinfo's `System::cpus`: the logical-core table, in
/// enumeration order.
#[verifier::external_body]
pub(crate) fn sys_cpus<'a>(sys: &'a sysinfo::System) -> &'a [SysCpu] {
    sys.cpus()
}

/// Relies on sysinfo's `Cpu::name`.
#[verifier::external_body]
pub(crate) fn cpu_name(c: &SysCpu) -> String {
    c.name().to_string()
}

/// Relies on sysinfo's `Cpu::cpu_usage`: the reported percentage, truncated
/// to whole points by a saturating cast.
#[verifier::external_body]
pub(crate) fn cpu_usage_pct(c: &SysCpu) -> u64 {
    c.cpu_usage() as u64
}

/// Relies on sysinfo's `Cpu::vendor_id`.
#[verifier::external_body]
pub(crate) fn cpu_vendor_id(c: &SysCpu) -> String {
    c.vendor_id().to_string()
}

/// Relies on sysinfo's `Cpu::brand`.
#[verifier::external_body]
pub(crate) fn cpu_brand(c: &SysCpu) -> String {
    c.brand().to_string()
}

/// Relies on sysinfo's `System::disks`: the mounted-volume table, in
/// enumeration order.
#[verifier::external_body]
pub(crate) fn sys_disks<'a>(sys: &'a sysinfo::System) -> &'a [SysDisk] {
    sys.disks()
}

/// Relies on sysinfo's `Disk::name`, converted to text when the platform
/// string is valid Unicode.
#[verifier::external_body]
pub(crate) fn disk_name_text(d: &SysDisk) -> Option<String> {
    match d.name().to_str() {
        Some(s) => Some(s.to_string()),
        None => None,
    }
}

/// Relies on sysinfo's `Disk::mount_point`, converted to text when the
/// platform path is valid Unicode.
#[verifier::external_body]
pub(crate) fn disk_mount_text(d: &SysDisk) -> Option<String> {
    match d.mount_point().to_str() {
        Some(s) => Some(s.to_string()),
        None => None,
    }
}

/// Relies on sysinfo's `Disk::total_space`, in bytes.
#[verifier::external_body]
pub(crate) fn disk_total_space(d: &SysDisk) -> u64 {
    d.total_space()
}

/// Relies on sysinfo's `Disk::available_space`, in bytes.
#[verifier::external_body]
pub(crate) fn disk_available_space(d: &SysDisk) -> u64 {
    d.available_space()
}

/// Relies on sysinfo's `System::processes`: the live process table, handed
/// out as (pid, process) pairs. The table is a hash map, so the order of
/// the pairs is not stated.
#[verifier::external_body]
pub(crate) fn sys_process_entries<'a>(sys: &'a sysinfo::System) -> Vec<
    (sysinfo::Pid, &'a sysinfo::Process),
> {
    sys.processes().iter().map(|(p, pr)| (*p, pr)).collect()
}

/// Relies on sysinfo's `PidExt::as_u32`.
#[verifier::external_body]
pub(crate) fn pid_u32(p: sysinfo::Pid) -> u32 {
    p.as_u32()
}

/// Relies on sysinfo's `Process::name`.
#[verifier::external_body]
pub(crate) fn proc_name(p: &sysinfo::Process) -> String {
    p.name().to_string()
}

/// Relies on sysinfo's `Process::cpu_usage`: the reported percentage,
/// truncated to whole points by a saturating cast.
#[verifier::external_body]
pub(crate) fn proc_cpu_usage_pct(p: &sysinfo::Process) -> u64 {
    p.cpu_usage() as u64
}

/// Relies on sysinfo's `Process::virtual_memory`, in bytes.
#[verifier::external_body]
pub(crate) fn proc_virtual_memory(p: &sysinfo::Process) -> u64 {
    p.virtual_memory()
}

/// Relies on sysinfo's `Process::status`, rendered to text through its
/// `Display` form.
#[verifier::external_body]
pub(crate) fn proc_status_text(p: &sysinfo::Process) -> String {
    p.status().to_string()
}

/// Relies on pnet_datalink's `interfaces`: the host's network interfaces,
/// in enumeration order.
#[verifier::external_body]
pub(crate) fn net_interfaces() -> Vec<pnet_datalink::NetworkInterface> {
    pnet_datalink::interfaces()
}

/// Relies on pnet_datalink's `NetworkInterface::name` field.
#[verifier::external_body]
pub(crate) fn iface_name(i: &pnet_datalink::NetworkInterface) -> String {
    i.name.clone()
}

/// Relies on pnet_datalink's `NetworkInterface::mac` field, rendered to
/// text through `MacAddr`'s `Display` form when present.
#[verifier::external_body]
pub(crate) fn iface_mac_text(i: &pnet_datalink::NetworkInterface) -> Option<String> {
    match i.mac {
        Some(m) => Some(m.to_string()),
        None => None,
    }
}

/// Relies on pnet_datalink's `NetworkInterface::ips` field: the addresses
/// bound to the interface, in enumeration order.
#[verifier::external_body]
pub(crate) fn iface_addrs(i: &pnet_datalink::NetworkInterface) -> Vec<ipnetwork::IpNetwork> {
    i.ips.clone()
}

/// Relies on ipnetwork's `IpNetwork` variants and on `Ipv4Network::ip` /
/// `Ipv4Network::prefix` and `Ipv6Network::ip` / `Ipv6Network::prefix`. The
/// prefix fields are private and every constructor of those types rejects a
/// prefix over 32 (v4) or 128 (v6), so the returned prefix fits the family.
#[verifier::external_body]
pub(crate) fn addr_facts(n: &ipnetwork::IpNetwork) -> (r: AddrFacts)
    ensures
        r@.wf(),
{
    match n {
        ipnetwork::IpNetwork::V4(v4) => AddrFacts::V4 {
            ip: v4.ip().to_string(),
            prefix: v4.prefix(),
        },
        ipnetwork::IpNetwork::V6(v6) => AddrFacts::V6 {
            ip: v6.ip().to_string(),
            prefix: v6.prefix(),
        },
    }
}

} // verus!
