//! Human-readable reports over the cached records. Every formatter is a pure
//! function of the records it prints; its contract gives the exact text.

use vstd::prelude::*;
use vstd::string::StringExecFns;

use crate::records::Cpu;
use crate::records::CpuV;
use crate::records::Disk;
use crate::records::DiskV;
use crate::records::Interface;
use crate::records::InterfaceV;
use crate::records::SystemInfo;
use crate::records::SystemInfoV;

verus! {

/// One decimal digit as a one-character sequence.
pub open spec fn spec_digit(d: nat) -> Seq<char>
    recommends
        d < 10,
{
    if d == 0 {
        "0"@
    } else if d == 1 {
        "1"@
    } else if d == 2 {
        "2"@
    } else if d == 3 {
        "3"@
    } else if d == 4 {
        "4"@
    } else if d == 5 {
        "5"@
    } else if d == 6 {
        "6"@
    } else if d == 7 {
        "7"@
    } else if d == 8 {
        "8"@
    } else {
        "9"@
    }
}

/// The decimal digits of `n`, most significant first, with no leading zero
/// except for `n == 0` itself.
pub open spec fn spec_dec(n: nat) -> Seq<char>
    decreases n,
{
    if n < 10 {
        spec_digit(n)
    } else {
        spec_dec(n / 10) + spec_digit(n % 10)
    }
}

fn digit_str(d: u64) -> (r: &'static str)
    requires
        d < 10,
    ensures
        r@ == spec_digit(d as nat),
{
    if d == 0 {
        "0"
    } else if d == 1 {
        "1"
    } else if d == 2 {
        "2"
    } else if d == 3 {
        "3"
    } else if d == 4 {
        "4"
    } else if d == 5 {
        "5"
    } else if d == 6 {
        "6"
    } else if d == 7 {
        "7"
    } else if d == 8 {
        "8"
    } else {
        "9"
    }
}

/// Renders `n` in decimal.
pub fn dec_u64(n: u64) -> (r: String)
    ensures
        r@ == spec_dec(n as nat),
    decreases n,
{
    if n < 10 {
        let mut s = String::new();
        s.append(digit_str(n));
        proof {
            assert(s@ =~= spec_dec(n as nat));
        }
        s
    } else {
        let mut s = dec_u64(n / 10);
        s.append(digit_str(n % 10));
        s
    }
}

/// The header indentation: three spaces when enabled, nothing otherwise.
pub open spec fn spec_tab(do_tab: bool) -> Seq<char> {
    if do_tab {
        "   "@
    } else {
        ""@
    }
}

/// The system report: hostname, OS, kernel and core count, then the RAM and
/// swap counters divided by 1000, one value per line.
pub open spec fn spec_system_report(si: SystemInfoV, do_tab: bool) -> Seq<char> {
    spec_tab(do_tab) + "Hosname: "@ + si.hostname + "\n"@ + spec_tab(do_tab) + "OS : "@
        + si.os_version + "\n"@ + spec_tab(do_tab) + "kernel : "@ + si.kernel_version + "\n"@
        + spec_tab(do_tab) + "Cores : "@ + spec_dec(si.cores_nb as nat) + "\n"@ + spec_tab(do_tab)
        + "RAM\n"@ + "   "@ + spec_tab(do_tab) + "Total RAM: "@ + spec_dec(
        (si.total_ram / 1000) as nat,
    ) + "MB\n"@ + "   "@ + spec_tab(do_tab) + "Free  RAM: "@ + spec_dec(
        (si.free_ram / 1000) as nat,
    ) + "MB\n"@ + "   "@ + spec_tab(do_tab) + "Used  RAM: "@ + spec_dec(
        (si.used_ram / 1000) as nat,
    ) + "MB\n"@ + spec_tab(do_tab) + "Swap\n"@ + "   "@ + spec_tab(do_tab) + "Total Swap: "@
        + spec_dec((si.total_swap / 1000) as nat) + "MB\n"@ + "   "@ + spec_tab(do_tab)
        + "Free  Swap: "@ + spec_dec((si.free_swap / 1000) as nat) + "MB\n"@ + "   "@ + spec_tab(
        do_tab,
    ) + "Used  Swap: "@ + spec_dec((si.used_swap / 1000) as nat) + "MB\n"@
}

/// Renders the system report, optionally indenting the header lines.
pub fn format_system_report(si: &SystemInfo, do_tab: bool) -> (r: String)
    ensures
        r@ == spec_system_report(si@, do_tab),
{
    let tab: &'static str = if do_tab {
        "   "
    } else {
        ""
    };
    proof {
        assert(tab@ == spec_tab(do_tab));
    }
    let mut s = String::new();
    s.append(tab);
    s.append("Hosname: ");
    s.append(si.hostname.as_str());
    s.append("\n");
    s.append(tab);
    s.append("OS : ");
    s.append(si.os_version.as_str());
    s.append("\n");
    s.append(tab);
    s.append("kernel : ");
    s.append(si.kernel_version.as_str());
    s.append("\n");
    s.append(tab);
    s.append("Cores : ");
    let cores = dec_u64(si.cores_nb as u64);
    s.append(cores.as_str());
    s.append("\n");
    s.append(tab);
    s.append("RAM\n");
    s.append("   ");
    s.append(tab);
    s.append("Total RAM: ");
    let total_ram = dec_u64(si.total_ram / 1000);
    s.append(total_ram.as_str());
    s.append("MB\n");
    s.append("   ");
    s.append(tab);
    s.append("Free  RAM: ");
    let free_ram = dec_u64(si.free_ram / 1000);
    s.append(free_ram.as_str());
    s.append("MB\n");
    s.append("   ");
    s.append(tab);
    s.append("Used  RAM: ");
    let used_ram = dec_u64(si.used_ram / 1000);
    s.append(used_ram.as_str());
    s.append("MB\n");
    s.append(tab);
    s.append("Swap\n");
    s.append("   ");
    s.append(tab);
    s.append("Total Swap: ");
    let total_swap = dec_u64(si.total_swap / 1000);
    s.append(total_swap.as_str());
    s.append("MB\n");
    s.append("   ");
    s.append(tab);
    s.append("Free  Swap: ");
    let free_swap = dec_u64(si.free_swap / 1000);
    s.append(free_swap.as_str());
    s.append("MB\n");
    s.append("   ");
    s.append(tab);
    s.append("Used  Swap: ");
    let used_swap = dec_u64(si.used_swap / 1000);
    s.append(used_swap.as_str());
    s.append("MB\n");
    proof {
        assert(s@ =~= spec_system_report(si@, do_tab));
    }
    s
}

/// One CPU's lines: its name, then usage, vendor and brand.
pub open spec fn spec_cpu_entry(c: CpuV) -> Seq<char> {
    c.name + "\n"@ + "   Usage: "@ + spec_dec(c.usage as nat) + "%\n"@ + "   Vendor: "@
        + c.vendor_id + "\n"@ + "   Core: "@ + c.brand + "\n"@
}

/// The CPU report: one entry per core, in table order.
pub open spec fn spec_cpus_report(cs: Seq<CpuV>) -> Seq<char>
    decreases cs.len(),
{
    if cs.len() == 0 {
        Seq::empty()
    } else {
        spec_cpus_report(cs.drop_last()) + spec_cpu_entry(cs.last())
    }
}

/// Renders the CPU report.
pub fn format_cpus_report(cs: &Vec<Cpu>) -> (r: String)
    ensures
        r@ == spec_cpus_report(cs.deep_view()),
{
    let ghost csv = cs.deep_view();
    let mut s = String::new();
    let mut i: usize = 0;
    proof {
        assert(s@ =~= spec_cpus_report(csv.take(0)));
    }
    while i < cs.len()
        invariant
            0 <= i <= cs.len(),
            csv == cs.deep_view(),
            csv.len() == cs.len(),
            s@ == spec_cpus_report(csv.take(i as int)),
        decreases cs.len() - i,
    {
        let c = &cs[i];
        s.append(c.name.as_str());
        s.append("\n");
        s.append("   Usage: ");
        let usage = dec_u64(c.usage);
        s.append(usage.as_str());
        s.append("%\n");
        s.append("   Vendor: ");
        s.append(c.vendor_id.as_str());
        s.append("\n");
        s.append("   Core: ");
        s.append(c.brand.as_str());
        s.append("\n");
        proof {
            assert(csv.take(i + 1 as int).drop_last() =~= csv.take(i as int));
            assert(csv.take(i + 1 as int).last() == csv[i as int]);
            assert(s@ =~= spec_cpus_report(csv.take(i + 1 as int)));
        }
        i = i + 1;
    }
    proof {
        assert(csv.take(i as int) =~= csv);
    }
    s
}

/// One disk's lines: its name, mount point, and the two space counters
/// divided down to whole mebibytes.
pub open spec fn spec_disk_entry(d: DiskV) -> Seq<char> {
    d.name + "\n"@ + "   Mount point : "@ + d.mount_point + "\n"@ + "   Available space : "@
        + spec_dec((d.available_space as nat) / (1024 * 1024)) + "MB\n"@ + "   Total space : "@
        + spec_dec((d.total_space as nat) / (1024 * 1024)) + "MB\n"@
}

/// The disk report: one entry per mounted volume, in table order.
pub open spec fn spec_disks_report(ds: Seq<DiskV>) -> Seq<char>
    decreases ds.len(),
{
    if ds.len() == 0 {
        Seq::empty()
    } else {
        spec_disks_report(ds.drop_last()) + spec_disk_entry(ds.last())
    }
}

/// Renders the disk report.
pub fn format_disks_report(ds: &Vec<Disk>) -> (r: String)
    ensures
        r@ == spec_disks_report(ds.deep_view()),
{
    let ghost dsv = ds.deep_view();
    let mut s = String::new();
    let mut i: usize = 0;
    proof {
        assert(s@ =~= spec_disks_report(dsv.take(0)));
    }
    while i < ds.len()
        invariant
            0 <= i <= ds.len(),
            dsv == ds.deep_view(),
            dsv.len() == ds.len(),
            s@ == spec_disks_report(dsv.take(i as int)),
        decreases ds.len() - i,
    {
        let d = &ds[i];
        s.append(d.name.as_str());
        s.append("\n");
        s.append("   Mount point : ");
        s.append(d.mount_point.as_str());
        s.append("\n");
        s.append("   Available space : ");
        let avail = dec_u64(d.available_space / (1024 * 1024));
        s.append(avail.as_str());
        s.append("MB\n");
        s.append("   Total space : ");
        let total = dec_u64(d.total_space / (1024 * 1024));
        s.append(total.as_str());
        s.append("MB\n");
        proof {
            assert(dsv.take(i + 1 as int).drop_last() =~= dsv.take(i as int));
            assert(dsv.take(i + 1 as int).last() == dsv[i as int]);
            assert(s@ =~= spec_disks_report(dsv.take(i + 1 as int)));
        }
        i = i + 1;
    }
    proof {
        assert(dsv.take(i as int) =~= dsv);
    }
    s
}

/// One interface record's lines. A record whose family tag is not 6 opens
/// with the interface name as a header; a tag-6 record opens with a blank
/// line instead, which groups an interface's v6 records under its header.
pub open spec fn spec_iface_entry(r: InterfaceV) -> Seq<char> {
    (if r.version != 6 {
        r.name + "\n"@
    } else {
        "\n"@
    }) + "   "@ + r.ip + "/"@ + spec_dec(r.prefix as nat) + "\n"@ + "   "@ + r.mac + "\n"@
}

/// The network report: one entry per interface record, in record order.
pub open spec fn spec_network_report(rs: Seq<InterfaceV>) -> Seq<char>
    decreases rs.len(),
{
    if rs.len() == 0 {
        Seq::empty()
    } else {
        spec_network_report(rs.drop_last()) + spec_iface_entry(rs.last())
    }
}

/// Renders the network report.
pub fn format_network_report(rs: &Vec<Interface>) -> (r: String)
    ensures
        r@ == spec_network_report(rs.deep_view()),
{
    let ghost rsv = rs.deep_view();
    let mut s = String::new();
    let mut i: usize = 0;
    proof {
        assert(s@ =~= spec_network_report(rsv.take(0)));
    }
    while i < rs.len()
        invariant
            0 <= i <= rs.len(),
            rsv == rs.deep_view(),
            rsv.len() == rs.len(),
            s@ == spec_network_report(rsv.take(i as int)),
        decreases rs.len() - i,
    {
        let rec = &rs[i];
        if rec.version != 6 {
            s.append(rec.name.as_str());
            s.append("\n");
        } else {
            s.append("\n");
        }
        s.append("   ");
        s.append(rec.ip.as_str());
        s.append("/");
        let prefix = dec_u64(rec.prefix as u64);
        s.append(prefix.as_str());
        s.append("\n");
        s.append("   ");
        s.append(rec.mac.as_str());
        s.append("\n");
        proof {
            assert(rsv.take(i + 1 as int).drop_last() =~= rsv.take(i as int));
            assert(rsv.take(i + 1 as int).last() == rsv[i as int]);
            assert(s@ =~= spec_network_report(rsv.take(i + 1 as int)));
        }
        i = i + 1;
    }
    proof {
        assert(rsv.take(i as int) =~= rsv);
    }
    s
}

/// One process of the live process table, as plain values: a pid, a name,
/// CPU usage in whole percentage points, virtual memory in bytes, and a
/// status text.
#[derive(Debug, PartialEq)]
pub struct ProcessRecord {
    pub pid: u32,
    pub name: String,
    pub cpu_usage: u64,
    pub virtual_memory: u64,
    pub status: String,
}

/// The view of a [`ProcessRecord`].
#[verifier::ext_equal]
pub struct ProcessRecordV {
    pub pid: u32,
    pub name: Seq<char>,
    pub cpu_usage: u64,
    pub virtual_memory: u64,
    pub status: Seq<char>,
}

impl View for ProcessRecord {
    type V = ProcessRecordV;

    open spec fn view(&self) -> ProcessRecordV {
        ProcessRecordV {
            pid: self.pid,
            name: self.name@,
            cpu_usage: self.cpu_usage,
            virtual_memory: self.virtual_memory,
            status: self.status@,
        }
    }
}

impl DeepView for ProcessRecord {
    type V = ProcessRecordV;

    open spec fn deep_view(&self) -> ProcessRecordV {
        self.view()
    }
}

/// One process's lines: pid and name, then CPU usage, virtual memory
/// divided by 1000, and status, ended by a blank line.
pub open spec fn spec_process_entry(p: ProcessRecordV) -> Seq<char> {
    spec_dec(p.pid as nat) + " - "@ + p.name + "\n"@ + "   CPU usage: "@ + spec_dec(
        p.cpu_usage as nat,
    ) + "%\n"@ + "   Mem usage: "@ + spec_dec((p.virtual_memory / 1000) as nat) + "MB\n"@
        + "   Status: "@ + p.status + "\n\n"@
}

/// The process report: one entry per listed process, in list order.
pub open spec fn spec_processes_report(ps: Seq<ProcessRecordV>) -> Seq<char>
    decreases ps.len(),
{
    if ps.len() == 0 {
        Seq::empty()
    } else {
        spec_processes_report(ps.drop_last()) + spec_process_entry(ps.last())
    }
}

/// Renders the process report.
#[verifier::rlimit(100)]
pub fn format_processes_report(ps: &Vec<ProcessRecord>) -> (r: String)
    ensures
        r@ == spec_processes_report(ps.deep_view()),
{
    let ghost psv = ps.deep_view();
    let mut s = String::new();
    let mut i: usize = 0;
    proof {
        assert(s@ =~= spec_processes_report(psv.take(0)));
    }
    while i < ps.len()
        invariant
            0 <= i <= ps.len(),
            psv == ps.deep_view(),
            psv.len() == ps.len(),
            s@ == spec_processes_report(psv.take(i as int)),
        decreases ps.len() - i,
    {
        let p = &ps[i];
        let pid = dec_u64(p.pid as u64);
        s.append(pid.as_str());
        s.append(" - ");
        s.append(p.name.as_str());
        s.append("\n");
        s.append("   CPU usage: ");
        let cpu = dec_u64(p.cpu_usage);
        s.append(cpu.as_str());
        s.append("%\n");
        s.append("   Mem usage: ");
        let mem = dec_u64(p.virtual_memory / 1000);
        s.append(mem.as_str());
        s.append("MB\n");
        s.append("   Status: ");
        s.append(p.status.as_str());
        s.append("\n\n");
        proof {
            assert(psv.take(i + 1 as int).drop_last() =~= psv.take(i as int));
            assert(psv.take(i + 1 as int).last() == psv[i as int]);
            assert(s@ =~= spec_processes_report(psv.take(i + 1 as int)));
        }
        i = i + 1;
    }
    proof {
        assert(psv.take(i as int) =~= psv);
    }
    s
}

} // verus!
