//! Point-in-time host telemetry: one blocking collection pass normalizes the
//! host's CPU, memory, disk and network-interface tables into uniform records,
//! caches them, and renders them as text reports.

pub mod device;
pub mod facts;
pub mod host;
pub mod records;
pub mod report;
pub mod snapshot;

pub use device::Device;
pub use facts::AddrFacts;
pub use facts::DiskFacts;
pub use facts::HostFacts;
pub use facts::IfaceFacts;
pub use records::Cpu;
pub use records::Disk;
pub use records::Interface;
pub use records::SnapshotError;
pub use records::SystemInfo;
pub use report::ProcessRecord;
pub use snapshot::Snapshot;
