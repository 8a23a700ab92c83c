use sysnet::report::dec_u64;
use sysnet::report::format_cpus_report;
use sysnet::report::format_disks_report;
use sysnet::report::format_network_report;
use sysnet::report::format_processes_report;
use sysnet::report::format_system_report;
use sysnet::AddrFacts;
use sysnet::Cpu;
use sysnet::Disk;
use sysnet::DiskFacts;
use sysnet::HostFacts;
use sysnet::IfaceFacts;
use sysnet::Interface;
use sysnet::ProcessRecord;
use sysnet::Snapshot;
use sysnet::SystemInfo;

fn sample_system_info() -> SystemInfo {
    SystemInfo {
        os_version: "Linux 6.1.0".to_string(),
        kernel_version: "6.1.0-test".to_string(),
        hostname: "boxy".to_string(),
        cores_nb: 2,
        total_ram: 16000,
        free_ram: 8000,
        used_ram: 8000,
        total_swap: 4000,
        free_swap: 3000,
        used_swap: 1000,
    }
}

#[test]
fn decimal_rendering_is_exact() {
    assert_eq!(dec_u64(0), "0");
    assert_eq!(dec_u64(7), "7");
    assert_eq!(dec_u64(10), "10");
    assert_eq!(dec_u64(1024), "1024");
    assert_eq!(dec_u64(1000000), "1000000");
    assert_eq!(dec_u64(u64::MAX), "18446744073709551615");
}

#[test]
fn system_report_without_tab_is_exact() {
    let text = format_system_report(&sample_system_info(), false);
    assert_eq!(
        text,
        "Hosname: boxy\nOS : Linux 6.1.0\nkernel : 6.1.0-test\nCores : 2\nRAM\n   Total RAM: 16MB\n   Free  RAM: 8MB\n   Used  RAM: 8MB\nSwap\n   Total Swap: 4MB\n   Free  Swap: 3MB\n   Used  Swap: 1MB\n"
    );
    assert!(text.contains("Hosname: boxy"));
    assert!(text.contains("OS : Linux 6.1.0"));
    assert!(text.contains("kernel : 6.1.0-test"));
    assert!(text.contains("Cores : 2"));
}

#[test]
fn system_report_divides_memory_by_1000() {
    let mut si = sample_system_info();
    si.total_ram = 1999;
    si.free_ram = 1000;
    si.used_ram = 999;
    let text = format_system_report(&si, false);
    assert!(text.contains("Total RAM: 1MB"));
    assert!(text.contains("Free  RAM: 1MB"));
    assert!(text.contains("Used  RAM: 0MB"));
}

#[test]
fn system_report_with_tab_indents_every_line() {
    let text = format_system_report(&sample_system_info(), true);
    for line in text.lines() {
        assert!(line.starts_with("   "));
    }
    assert!(text.contains("   Hosname: boxy"));
    assert!(text.contains("      Total RAM: 16MB"));
}

#[test]
fn disk_report_divides_by_mebibytes() {
    let disks = vec![
        Disk {
            name: "/dev/sda1".to_string(),
            mount_point: "/".to_string(),
            total_space: 1073741824,
            available_space: 536870912,
        },
    ];
    let text = format_disks_report(&disks);
    assert_eq!(
        text,
        "/dev/sda1\n   Mount point : /\n   Available space : 512MB\n   Total space : 1024MB\n"
    );
    assert!(text.contains("Total space : 1024MB"));
}

#[test]
fn cpu_report_is_exact() {
    let cpus = vec![
        Cpu {
            name: "cpu0".to_string(),
            usage: 42,
            vendor_id: "GenuineIntel".to_string(),
            brand: "Test CPU".to_string(),
        },
    ];
    let text = format_cpus_report(&cpus);
    assert_eq!(text, "cpu0\n   Usage: 42%\n   Vendor: GenuineIntel\n   Core: Test CPU\n");
}

#[test]
fn network_report_headers_v4_and_blanks_v6() {
    let records = vec![
        Interface {
            name: "eth0".to_string(),
            mac: "aa:bb:cc:dd:ee:ff".to_string(),
            ip: "192.168.1.10".to_string(),
            prefix: 24,
            version: 4,
        },
        Interface {
            name: "eth0".to_string(),
            mac: "aa:bb:cc:dd:ee:ff".to_string(),
            ip: "fe80::1".to_string(),
            prefix: 64,
            version: 6,
        },
    ];
    let text = format_network_report(&records);
    assert_eq!(
        text,
        "eth0\n   192.168.1.10/24\n   aa:bb:cc:dd:ee:ff\n\n   fe80::1/64\n   aa:bb:cc:dd:ee:ff\n"
    );
}

#[test]
fn process_report_is_exact() {
    let procs = vec![
        ProcessRecord {
            pid: 1,
            name: "init".to_string(),
            cpu_usage: 3,
            virtual_memory: 12000,
            status: "Run".to_string(),
        },
    ];
    let text = format_processes_report(&procs);
    assert_eq!(text, "1 - init\n   CPU usage: 3%\n   Mem usage: 12MB\n   Status: Run\n\n");
}

#[test]
fn empty_tables_render_empty_reports() {
    assert_eq!(format_cpus_report(&vec![]), "");
    assert_eq!(format_disks_report(&vec![]), "");
    assert_eq!(format_network_report(&vec![]), "");
    assert_eq!(format_processes_report(&vec![]), "");
}

#[test]
fn full_report_sequences_all_sections() {
    let facts = HostFacts {
        os_name: Some("Linux".to_string()),
        os_version: Some("6.1.0".to_string()),
        kernel_version: Some("6.1.0-test".to_string()),
        hostname: Some("boxy".to_string()),
        total_ram: 16000,
        free_ram: 8000,
        used_ram: 8000,
        total_swap: 4000,
        free_swap: 3000,
        used_swap: 1000,
        cpus: vec![
            Cpu {
                name: "cpu0".to_string(),
                usage: 42,
                vendor_id: "GenuineIntel".to_string(),
                brand: "Test CPU".to_string(),
            },
        ],
        disks: vec![
            DiskFacts {
                name: Some("/dev/sda1".to_string()),
                mount_point: Some("/".to_string()),
                total_space: 1073741824,
                available_space: 536870912,
            },
        ],
        interfaces: vec![
            IfaceFacts {
                name: "eth0".to_string(),
                mac: Some("aa:bb:cc:dd:ee:ff".to_string()),
                addrs: vec![AddrFacts::V4 { ip: "192.168.1.10".to_string(), prefix: 24 }],
            },
        ],
    };
    let snap = Snapshot::from_facts(facts).unwrap();
    let expected = format!(
        "System:\n{}\nNetwork interfaces:\n{}\nCPUs:\n{}\ndisks:\n{}",
        snap.format_system_info(true),
        snap.format_network_info(),
        snap.format_cpus_info(),
        snap.format_disks_info()
    );
    assert_eq!(snap.format_all_info(), expected);
    let text = snap.format_all_info();
    assert!(text.starts_with("System:\n   Hosname: boxy\n"));
    assert!(text.contains("\nNetwork interfaces:\neth0\n"));
    assert!(text.contains("\nCPUs:\ncpu0\n"));
    assert!(text.contains("\ndisks:\n/dev/sda1\n"));
}
