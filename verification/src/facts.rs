//! Plain-valued host facts: what the OS-level collaborators hand the
//! normalization layer. A mandatory fact that a platform could not supply is
//! an `Option` holding `None`; normalization decides whether that is fatal.

use vstd::prelude::*;

use crate::records::CpuV;
use crate::records::Cpu;

verus! {

/// One bound address of a network interface, tagged with its family.
#[derive(Debug, PartialEq)]
pub enum AddrFacts {
    V4 { ip: String, prefix: u8 },
    V6 { ip: String, prefix: u8 },
}

/// The view of an [`AddrFacts`].
#[verifier::ext_equal]
pub enum AddrFactsV {
    V4 { ip: Seq<char>, prefix: u8 },
    V6 { ip: Seq<char>, prefix: u8 },
}

impl AddrFactsV {
    /// The prefix length fits the address family: at most 32 bits of an IPv4
    /// address, at most 128 of an IPv6 address.
    pub open spec fn wf(self) -> bool {
        match self {
            AddrFactsV::V4 { prefix, .. } => prefix <= 32,
            AddrFactsV::V6 { prefix, .. } => prefix <= 128,
        }
    }
}

impl View for AddrFacts {
    type V = AddrFactsV;

    open spec fn view(&self) -> AddrFactsV {
        match self {
            AddrFacts::V4 { ip, prefix } => AddrFactsV::V4 { ip: ip@, prefix: *prefix },
            AddrFacts::V6 { ip, prefix } => AddrFactsV::V6 { ip: ip@, prefix: *prefix },
        }
    }
}

impl DeepView for AddrFacts {
    type V = AddrFactsV;

    open spec fn deep_view(&self) -> AddrFactsV {
        self.view()
    }
}

/// One network interface as the enumerator reports it: a name, an optional
/// MAC address in text form, and its bound addresses in source order.
#[derive(Debug, PartialEq)]
pub struct IfaceFacts {
    pub name: String,
    pub mac: Option<String>,
    pub addrs: Vec<AddrFacts>,
}

/// The view of an [`IfaceFacts`].
#[verifier::ext_equal]
pub struct IfaceFactsV {
    pub name: Seq<char>,
    pub mac: Option<Seq<char>>,
    pub addrs: Seq<AddrFactsV>,
}

impl IfaceFactsV {
    /// Every bound address carries a prefix that fits its family.
    pub open spec fn wf(self) -> bool {
        forall|i: int| 0 <= i < self.addrs.len() ==> (#[trigger] self.addrs[i]).wf()
    }
}

impl View for IfaceFacts {
    type V = IfaceFactsV;

    open spec fn view(&self) -> IfaceFactsV {
        IfaceFactsV { name: self.name@, mac: self.mac.deep_view(), addrs: self.addrs.deep_view() }
    }
}

impl DeepView for IfaceFacts {
    type V = IfaceFactsV;

    open spec fn deep_view(&self) -> IfaceFactsV {
        self.view()
    }
}

/// One mounted volume as the disk table reports it. The name and the mount
/// point are `None` when the platform path could not be represented as text.
#[derive(Debug, PartialEq)]
pub struct DiskFacts {
    pub name: Option<String>,
    pub mount_point: Option<String>,
    pub total_space: u64,
    pub available_space: u64,
}

/// The view of a [`DiskFacts`].
#[verifier::ext_equal]
pub struct DiskFactsV {
    pub name: Option<Seq<char>>,
    pub mount_point: Option<Seq<char>>,
    pub total_space: u64,
    pub available_space: u64,
}

impl View for DiskFacts {
    type V = DiskFactsV;

    open spec fn view(&self) -> DiskFactsV {
        DiskFactsV {
            name: self.name.deep_view(),
            mount_point: self.mount_point.deep_view(),
            total_space: self.total_space,
            available_space: self.available_space,
        }
    }
}

impl DeepView for DiskFacts {
    type V = DiskFactsV;

    open spec fn deep_view(&self) -> DiskFactsV {
        self.view()
    }
}

/// Everything one collection pass reads from the host, as plain values.
/// A per-core fact is already a [`Cpu`] record: nothing about it is optional
/// and nothing is reshaped on the way in.
#[derive(Debug, PartialEq)]
pub struct HostFacts {
    pub os_name: Option<String>,
    pub os_version: Option<String>,
    pub kernel_version: Option<String>,
    pub hostname: Option<String>,
    pub total_ram: u64,
    pub free_ram: u64,
    pub used_ram: u64,
    pub total_swap: u64,
    pub free_swap: u64,
    pub used_swap: u64,
    pub cpus: Vec<Cpu>,
    pub disks: Vec<DiskFacts>,
    pub interfaces: Vec<IfaceFacts>,
}

/// The view of a [`HostFacts`].
#[verifier::ext_equal]
pub struct HostFactsV {
    pub os_name: Option<Seq<char>>,
    pub os_version: Option<Seq<char>>,
    pub kernel_version: Option<Seq<char>>,
    pub hostname: Option<Seq<char>>,
    pub total_ram: u64,
    pub free_ram: u64,
    pub used_ram: u64,
    pub total_swap: u64,
    pub free_swap: u64,
    pub used_swap: u64,
    pub cpus: Seq<CpuV>,
    pub disks: Seq<DiskFactsV>,
    pub interfaces: Seq<IfaceFactsV>,
}

impl HostFactsV {
    /// Every interface's bound addresses carry prefixes that fit their family.
    pub open spec fn wf(self) -> bool {
        forall|i: int| 0 <= i < self.interfaces.len() ==> (#[trigger] self.interfaces[i]).wf()
    }
}

impl View for HostFacts {
    type V = HostFactsV;

    open spec fn view(&self) -> HostFactsV {
        HostFactsV {
            os_name: self.os_name.deep_view(),
            os_version: self.os_version.deep_view(),
            kernel_version: self.kernel_version.deep_view(),
            hostname: self.hostname.deep_view(),
            total_ram: self.total_ram,
            free_ram: self.free_ram,
            used_ram: self.used_ram,
            total_swap: self.total_swap,
            free_swap: self.free_swap,
            used_swap: self.used_swap,
            cpus: self.cpus.deep_view(),
            disks: self.disks.deep_view(),
            interfaces: self.interfaces.deep_view(),
        }
    }
}

impl DeepView for HostFacts {
    type V = HostFactsV;

    open spec fn deep_view(&self) -> HostFactsV {
        self.view()
    }
}

} // verus!
