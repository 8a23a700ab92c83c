use sysnet::AddrFacts;
use sysnet::Cpu;
use sysnet::DiskFacts;
use sysnet::HostFacts;
use sysnet::IfaceFacts;
use sysnet::Snapshot;
use sysnet::SnapshotError;

fn cpu(name: &str, usage: u64) -> Cpu {
    Cpu {
        name: name.to_string(),
        usage,
        vendor_id: "GenuineIntel".to_string(),
        brand: "Test CPU".to_string(),
    }
}

fn sample_facts() -> HostFacts {
    HostFacts {
        os_name: Some("Linux".to_string()),
        os_version: Some("6.1.0".to_string()),
        kernel_version: Some("6.1.0-test".to_string()),
        hostname: Some("boxy".to_string()),
        total_ram: 16000,
        free_ram: 8000,
        used_ram: 8000,
        total_swap: 4000,
        free_swap: 3000,
        used_swap: 1000,
        cpus: vec![cpu("cpu0", 42), cpu("cpu1", 7)],
        disks: vec![
            DiskFacts {
                name: Some("/dev/sda1".to_string()),
                mount_point: Some("/".to_string()),
                total_space: 1073741824,
                available_space: 536870912,
            },
        ],
        interfaces: vec![
            IfaceFacts {
                name: "eth0".to_string(),
                mac: Some("aa:bb:cc:dd:ee:ff".to_string()),
                addrs: vec![
                    AddrFacts::V4 { ip: "192.168.1.10".to_string(), prefix: 24 },
                    AddrFacts::V6 { ip: "fe80::1".to_string(), prefix: 64 },
                ],
            },
        ],
    }
}

#[test]
fn from_facts_builds_full_snapshot() {
    let snap = Snapshot::from_facts(sample_facts()).unwrap();
    let si = snap.get_system_info();
    assert_eq!(si.os_version, "Linux 6.1.0");
    assert_eq!(si.kernel_version, "6.1.0-test");
    assert_eq!(si.hostname, "boxy");
    assert_eq!(si.cores_nb, 2);
    assert_eq!(si.total_ram, 16000);
    assert_eq!(si.free_ram, 8000);
    assert_eq!(si.used_ram, 8000);
    assert_eq!(si.total_swap, 4000);
    assert_eq!(si.free_swap, 3000);
    assert_eq!(si.used_swap, 1000);
    let disks = snap.get_disks();
    assert_eq!(disks.len(), 1);
    assert_eq!(disks[0].name, "/dev/sda1");
    assert_eq!(disks[0].mount_point, "/");
    assert_eq!(disks[0].total_space, 1073741824);
    assert_eq!(disks[0].available_space, 536870912);
    let cpus = snap.get_cpus();
    assert_eq!(cpus.len(), 2);
    assert_eq!(cpus[0].name, "cpu0");
    assert_eq!(cpus[0].usage, 42);
    assert_eq!(cpus[1].name, "cpu1");
    assert_eq!(cpus[1].usage, 7);
}

#[test]
fn core_count_matches_cpu_table() {
    let snap = Snapshot::from_facts(sample_facts()).unwrap();
    assert_eq!(snap.get_system_info().cores_nb, snap.get_cpus().len());
}

#[test]
fn one_interface_two_families_fans_out_to_two_records() {
    let snap = Snapshot::from_facts(sample_facts()).unwrap();
    let records = snap.get_interfaces();
    assert_eq!(records.len(), 2);
    for r in &records {
        assert_eq!(r.name, "eth0");
        assert_eq!(r.mac, "aa:bb:cc:dd:ee:ff");
    }
    assert_eq!(records[0].version, 4);
    assert_eq!(records[0].ip, "192.168.1.10");
    assert_eq!(records[0].prefix, 24);
    assert!(records[0].prefix <= 32);
    assert_eq!(records[1].version, 6);
    assert_eq!(records[1].ip, "fe80::1");
    assert_eq!(records[1].prefix, 64);
    assert!(records[1].prefix <= 128);
}

#[test]
fn interface_with_k_addresses_yields_k_records() {
    let mut facts = sample_facts();
    facts.interfaces = vec![
        IfaceFacts {
            name: "wlan0".to_string(),
            mac: Some("11:22:33:44:55:66".to_string()),
            addrs: vec![
                AddrFacts::V4 { ip: "10.0.0.1".to_string(), prefix: 8 },
                AddrFacts::V4 { ip: "10.0.0.2".to_string(), prefix: 16 },
                AddrFacts::V6 { ip: "fe80::2".to_string(), prefix: 128 },
            ],
        },
    ];
    let snap = Snapshot::from_facts(facts).unwrap();
    let records = snap.get_interfaces();
    assert_eq!(records.len(), 3);
    assert!(records.iter().all(|r| r.name == "wlan0" && r.mac == "11:22:33:44:55:66"));
}

#[test]
fn zero_address_interface_yields_no_record() {
    let mut facts = sample_facts();
    facts.interfaces = vec![
        IfaceFacts { name: "dummy0".to_string(), mac: None, addrs: vec![] },
    ];
    let snap = Snapshot::from_facts(facts).unwrap();
    assert_eq!(snap.get_interfaces().len(), 0);
}

#[test]
fn missing_hostname_fails_without_snapshot() {
    let mut facts = sample_facts();
    facts.hostname = None;
    assert_eq!(Snapshot::from_facts(facts).unwrap_err(), SnapshotError::MissingHostname);
}

#[test]
fn missing_os_name_fails() {
    let mut facts = sample_facts();
    facts.os_name = None;
    assert_eq!(Snapshot::from_facts(facts).unwrap_err(), SnapshotError::MissingOsName);
}

#[test]
fn missing_os_version_fails() {
    let mut facts = sample_facts();
    facts.os_version = None;
    assert_eq!(Snapshot::from_facts(facts).unwrap_err(), SnapshotError::MissingOsVersion);
}

#[test]
fn missing_kernel_version_fails() {
    let mut facts = sample_facts();
    facts.kernel_version = None;
    assert_eq!(Snapshot::from_facts(facts).unwrap_err(), SnapshotError::MissingKernelVersion);
}

#[test]
fn unreadable_disk_name_fails() {
    let mut facts = sample_facts();
    facts.disks[0].name = None;
    assert_eq!(Snapshot::from_facts(facts).unwrap_err(), SnapshotError::UnreadableDiskName);
}

#[test]
fn unreadable_disk_mount_point_fails() {
    let mut facts = sample_facts();
    facts.disks[0].mount_point = None;
    assert_eq!(Snapshot::from_facts(facts).unwrap_err(), SnapshotError::UnreadableDiskMountPoint);
}

#[test]
fn addressed_interface_without_mac_fails() {
    let mut facts = sample_facts();
    facts.interfaces[0].mac = None;
    assert_eq!(Snapshot::from_facts(facts).unwrap_err(), SnapshotError::MissingMac);
}

#[test]
fn identity_errors_come_before_table_errors() {
    let mut facts = sample_facts();
    facts.hostname = None;
    facts.disks[0].name = None;
    facts.interfaces[0].mac = None;
    assert_eq!(Snapshot::from_facts(facts).unwrap_err(), SnapshotError::MissingHostname);
}

#[test]
fn disk_errors_come_before_interface_errors() {
    let mut facts = sample_facts();
    facts.disks[0].mount_point = None;
    facts.interfaces[0].mac = None;
    assert_eq!(Snapshot::from_facts(facts).unwrap_err(), SnapshotError::UnreadableDiskMountPoint);
}

#[test]
fn accessors_are_idempotent() {
    let snap = Snapshot::from_facts(sample_facts()).unwrap();
    assert_eq!(snap.get_cpus(), snap.get_cpus());
    assert_eq!(snap.get_disks(), snap.get_disks());
    assert_eq!(snap.get_interfaces(), snap.get_interfaces());
    assert_eq!(snap.get_system_info(), snap.get_system_info());
}

#[test]
fn disk_records_keep_space_bound() {
    let mut facts = sample_facts();
    facts.disks = vec![
        DiskFacts {
            name: Some("a".to_string()),
            mount_point: Some("/a".to_string()),
            total_space: 100,
            available_space: 100,
        },
        DiskFacts {
            name: Some("b".to_string()),
            mount_point: Some("/b".to_string()),
            total_space: 500,
            available_space: 0,
        },
        DiskFacts {
            name: Some("c".to_string()),
            mount_point: Some("/c".to_string()),
            total_space: 1073741824,
            available_space: 42,
        },
    ];
    let snap = Snapshot::from_facts(facts).unwrap();
    for d in snap.get_disks() {
        assert!(d.available_space <= d.total_space);
    }
}
