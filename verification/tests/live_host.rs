use sysnet::Device;

#[test]
fn live_snapshot_invariants_hold_when_construction_succeeds() {
    match Device::new() {
        Ok(dev) => {
            let si = dev.get_system_info();
            let cpus = dev.get_cpus();
            assert_eq!(si.cores_nb, cpus.len());
            for r in dev.get_interfaces() {
                assert!(r.version == 4 || r.version == 6);
                if r.version == 4 {
                    assert!(r.prefix <= 32);
                } else {
                    assert!(r.prefix <= 128);
                }
            }
        },
        Err(_) => {
            // A host may legitimately lack a mandatory fact; then no
            // snapshot exists and there is nothing further to check.
        },
    }
}

#[test]
fn live_refresh_keeps_cached_records() {
    match Device::new() {
        Ok(mut dev) => {
            let cpus_before = dev.get_cpus();
            let disks_before = dev.get_disks();
            let ifaces_before = dev.get_interfaces();
            let si_before = dev.get_system_info();
            dev.refresh_all();
            assert_eq!(cpus_before, dev.get_cpus());
            assert_eq!(disks_before, dev.get_disks());
            assert_eq!(ifaces_before, dev.get_interfaces());
            assert_eq!(si_before, dev.get_system_info());
        },
        Err(_) => {},
    }
}

#[test]
fn live_accessors_are_idempotent() {
    match Device::new() {
        Ok(dev) => {
            assert_eq!(dev.get_cpus(), dev.get_cpus());
            assert_eq!(dev.get_disks(), dev.get_disks());
            assert_eq!(dev.get_interfaces(), dev.get_interfaces());
        },
        Err(_) => {},
    }
}

#[test]
fn live_process_listing_formats() {
    match Device::new() {
        Ok(dev) => {
            let procs = dev.get_processes();
            let text = dev.format_processes();
            if !procs.is_empty() {
                assert!(text.contains(" - "));
                assert!(text.contains("   CPU usage: "));
            }
        },
        Err(_) => {},
    }
}

#[test]
fn live_formatters_render_cached_values() {
    match Device::new() {
        Ok(dev) => {
            let si = dev.get_system_info();
            let text = dev.format_system_info(false);
            assert!(text.contains(&format!("Hosname: {}", si.hostname)));
            assert!(text.contains(&format!("OS : {}", si.os_version)));
            assert!(text.contains(&format!("kernel : {}", si.kernel_version)));
            assert!(text.contains(&format!("Cores : {}", si.cores_nb)));
            assert!(text.contains(&format!("Total RAM: {}MB", si.total_ram / 1000)));
        },
        Err(_) => {},
    }
}
