//! The four record families a snapshot stores, their mathematical views,
//! and the error naming the mandatory host fact that was unavailable.

use vstd::prelude::*;

verus! {

/// A snapshot cannot be built when a mandatory host fact is unavailable.
/// Each variant names the fact that was missing; construction aborts on the
/// first one found, so a partial snapshot is never produced.
#[derive(Clone, Copy, Debug, PartialEq, Eq, Structural)]
pub enum SnapshotError {
    MissingOsName,
    MissingOsVersion,
    MissingHostname,
    MissingKernelVersion,
    UnreadableDiskName,
    UnreadableDiskMountPoint,
    MissingMac,
}

/// Host-wide identity and memory counters, one per snapshot.
///
/// `used_ram = total_ram - free_ram` is expected from the source but not
/// enforced here: the record stores whatever the source reported.
#[derive(Debug, PartialEq)]
pub struct SystemInfo {
    /// OS name and OS version, joined by a single space.
    pub os_version: String,
    pub kernel_version: String,
    pub hostname: String,
    /// Number of logical cores; always equals the length of the CPU table.
    pub cores_nb: usize,
    pub total_ram: u64,
    pub free_ram: u64,
    pub used_ram: u64,
    pub total_swap: u64,
    pub free_swap: u64,
    pub used_swap: u64,
}

/// The view of a [`SystemInfo`], with strings as character sequences.
#[verifier::ext_equal]
pub struct SystemInfoV {
    pub os_version: Seq<char>,
    pub kernel_version: Seq<char>,
    pub hostname: Seq<char>,
    pub cores_nb: usize,
    pub total_ram: u64,
    pub free_ram: u64,
    pub used_ram: u64,
    pub total_swap: u64,
    pub free_swap: u64,
    pub used_swap: u64,
}

impl View for SystemInfo {
    type V = SystemInfoV;

    open spec fn view(&self) -> SystemInfoV {
        SystemInfoV {
            os_version: self.os_version@,
            kernel_version: self.kernel_version@,
            hostname: self.hostname@,
            cores_nb: self.cores_nb,
            total_ram: self.total_ram,
            free_ram: self.free_ram,
            used_ram: self.used_ram,
            total_swap: self.total_swap,
            free_swap: self.free_swap,
            used_swap: self.used_swap,
        }
    }
}

impl DeepView for SystemInfo {
    type V = SystemInfoV;

    open spec fn deep_view(&self) -> SystemInfoV {
        self.view()
    }
}

impl Clone for SystemInfo {
    fn clone(&self) -> (res: Self)
        ensures
            res == *self,
    {
        SystemInfo {
            os_version: self.os_version.clone(),
            kernel_version: self.kernel_version.clone(),
            hostname: self.hostname.clone(),
            cores_nb: self.cores_nb,
            total_ram: self.total_ram,
            free_ram: self.free_ram,
            used_ram: self.used_ram,
            total_swap: self.total_swap,
            free_swap: self.free_swap,
            used_swap: self.used_swap,
        }
    }
}

/// One logical core of the host's CPU table.
#[derive(Debug, PartialEq)]
pub struct Cpu {
    pub name: String,
    /// Utilization in whole percentage points, truncated from the source's
    /// reading; stored as reported, not clamped to 100.
    pub usage: u64,
    pub vendor_id: String,
    pub brand: String,
}

/// The view of a [`Cpu`].
#[verifier::ext_equal]
pub struct CpuV {
    pub name: Seq<char>,
    pub usage: u64,
    pub vendor_id: Seq<char>,
    pub brand: Seq<char>,
}

impl View for Cpu {
    type V = CpuV;

    open spec fn view(&self) -> CpuV {
        CpuV {
            name: self.name@,
            usage: self.usage,
            vendor_id: self.vendor_id@,
            brand: self.brand@,
        }
    }
}

impl DeepView for Cpu {
    type V = CpuV;

    open spec fn deep_view(&self) -> CpuV {
        self.view()
    }
}

impl Clone for Cpu {
    fn clone(&self) -> (res: Self)
        ensures
            res == *self,
    {
        Cpu {
            name: self.name.clone(),
            usage: self.usage,
            vendor_id: self.vendor_id.clone(),
            brand: self.brand.clone(),
        }
    }
}

/// One mounted volume of the host's disk table.
#[derive(Debug, PartialEq)]
pub struct Disk {
    pub name: String,
    pub mount_point: String,
    pub total_space: u64,
    pub available_space: u64,
}

/// The view of a [`Disk`].
#[verifier::ext_equal]
pub struct DiskV {
    pub name: Seq<char>,
    pub mount_point: Seq<char>,
    pub total_space: u64,
    pub available_space: u64,
}

impl View for Disk {
    type V = DiskV;

    open spec fn view(&self) -> DiskV {
        DiskV {
            name: self.name@,
            mount_point: self.mount_point@,
            total_space: self.total_space,
            available_space: self.available_space,
        }
    }
}

impl DeepView for Disk {
    type V = DiskV;

    open spec fn deep_view(&self) -> DiskV {
        self.view()
    }
}

impl Clone for Disk {
    fn clone(&self) -> (res: Self)
        ensures
            res == *self,
    {
        Disk {
            name: self.name.clone(),
            mount_point: self.mount_point.clone(),
            total_space: self.total_space,
            available_space: self.available_space,
        }
    }
}

/// One (network interface, bound address) pair: an interface with k bound
/// addresses yields k records sharing its name and MAC.
#[derive(Debug, PartialEq)]
pub struct Interface {
    pub name: String,
    /// MAC address in text form; mandatory, so an addressed interface
    /// without one aborts snapshot construction.
    pub mac: String,
    pub ip: String,
    /// Prefix length: at most 32 when `version` is 4, at most 128 when 6.
    pub prefix: u8,
    /// Address-family tag: 4 for IPv4, 6 for IPv6.
    pub version: u8,
}

/// The view of an [`Interface`].
#[verifier::ext_equal]
pub struct InterfaceV {
    pub name: Seq<char>,
    pub mac: Seq<char>,
    pub ip: Seq<char>,
    pub prefix: u8,
    pub version: u8,
}

impl InterfaceV {
    /// The family tag and the prefix length agree.
    pub open spec fn wf(self) -> bool {
        ||| self.version == 4 && self.prefix <= 32
        ||| self.version == 6 && self.prefix <= 128
    }
}

impl View for Interface {
    type V = InterfaceV;

    open spec fn view(&self) -> InterfaceV {
        InterfaceV {
            name: self.name@,
            mac: self.mac@,
            ip: self.ip@,
            prefix: self.prefix,
            version: self.version,
        }
    }
}

impl DeepView for Interface {
    type V = InterfaceV;

    open spec fn deep_view(&self) -> InterfaceV {
        self.view()
    }
}

impl Clone for Interface {
    fn clone(&self) -> (res: Self)
        ensures
            res == *self,
    {
        Interface {
            name: self.name.clone(),
            mac: self.mac.clone(),
            ip: self.ip.clone(),
            prefix: self.prefix,
            version: self.version,
        }
    }
}

} // verus!
