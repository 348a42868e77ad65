use host_snapshot::collect::{
    collect_disks, collect_host, collect_networks, collect_processes, normalize_pid,
};
use host_snapshot::record::{DiskRecord, HostSummary, NetworkRecord, ProcessRecord};
use host_snapshot::source::{DiskReading, HostReading, InterfaceReading, ProcessReading};
use host_snapshot::usage::CpuUsage;

fn usage(percent: f32) -> CpuUsage {
    CpuUsage::from_bits(percent.to_bits())
}

#[test]
fn pid_that_fits_is_kept() {
    assert_eq!(normalize_pid(0), 0);
    assert_eq!(normalize_pid(1), 1);
    assert_eq!(normalize_pid(4242), 4242);
    assert_eq!(normalize_pid(0x7fff_ffff), i32::MAX);
}

#[test]
fn pid_beyond_the_signed_range_keeps_its_bits() {
    assert_eq!(normalize_pid(0x8000_0000), i32::MIN);
    assert_eq!(normalize_pid(0x8000_0001), i32::MIN + 1);
    assert_eq!(normalize_pid(u32::MAX), -1);
    assert_eq!(normalize_pid(u32::MAX - 9), -10);
    for raw in [0u32, 7, 0x7fff_ffff, 0x8000_0000, 0xdead_beef, u32::MAX] {
        assert_eq!(normalize_pid(raw), raw as i32);
    }
}

#[test]
fn disks_keep_order_and_duplicates() {
    let readings = vec![
        DiskReading {
            name: String::from("/dev/sdb1"),
            mount_point: String::from("/data"),
            total_space: 2_000,
            available_space: 500,
        },
        DiskReading {
            name: String::from("/dev/sda1"),
            mount_point: String::from("/"),
            total_space: 1_000,
            available_space: 0,
        },
        DiskReading {
            name: String::from("/dev/sda1"),
            mount_point: String::from("/"),
            total_space: 1_000,
            available_space: 0,
        },
    ];
    let records = collect_disks(&readings);
    assert_eq!(
        records,
        vec![
            DiskRecord {
                name: String::from("/dev/sdb1"),
                mount_point: String::from("/data"),
                total_space: 2_000,
                available_space: 500,
            },
            DiskRecord {
                name: String::from("/dev/sda1"),
                mount_point: String::from("/"),
                total_space: 1_000,
                available_space: 0,
            },
            DiskRecord {
                name: String::from("/dev/sda1"),
                mount_point: String::from("/"),
                total_space: 1_000,
                available_space: 0,
            },
        ]
    );
}

#[test]
fn no_disks_give_no_records() {
    assert_eq!(collect_disks(&Vec::new()), Vec::<DiskRecord>::new());
    assert_eq!(collect_networks(&Vec::new()), Vec::<NetworkRecord>::new());
    assert_eq!(collect_processes(&Vec::new()), Vec::<ProcessRecord>::new());
}

#[test]
fn networks_give_one_record_per_interface() {
    let readings = vec![
        InterfaceReading {
            name: String::from("lo"),
            total_received: 10,
            total_transmitted: 10,
        },
        InterfaceReading {
            name: String::from("eth0"),
            total_received: u64::MAX,
            total_transmitted: 0,
        },
    ];
    let records = collect_networks(&readings);
    assert_eq!(
        records,
        vec![
            NetworkRecord { interface: String::from("lo"), received: 10, transmitted: 10 },
            NetworkRecord { interface: String::from("eth0"), received: u64::MAX, transmitted: 0 },
        ]
    );
}

#[test]
fn processes_are_mapped_whole_and_unranked() {
    let readings = vec![
        ProcessReading {
            pid: 1,
            name: String::from("init"),
            cpu_usage: usage(0.5),
            memory: 4_096,
            status: String::from("Sleep"),
        },
        ProcessReading {
            pid: 0xffff_fffe,
            name: String::from("odd"),
            cpu_usage: usage(99.0),
            memory: 0,
            status: String::from("Run"),
        },
        ProcessReading {
            pid: 300,
            name: String::from(""),
            cpu_usage: usage(f32::NAN),
            memory: 12,
            status: String::from("Zombie"),
        },
    ];
    let records = collect_processes(&readings);
    assert_eq!(
        records,
        vec![
            ProcessRecord {
                pid: 1,
                name: String::from("init"),
                cpu_usage: usage(0.5),
                memory: 4_096,
                status: String::from("Sleep"),
            },
            ProcessRecord {
                pid: -2,
                name: String::from("odd"),
                cpu_usage: usage(99.0),
                memory: 0,
                status: String::from("Run"),
            },
            ProcessRecord {
                pid: 300,
                name: String::from(""),
                cpu_usage: usage(f32::NAN),
                memory: 12,
                status: String::from("Zombie"),
            },
        ]
    );
}

#[test]
fn host_values_are_taken_over_as_read() {
    let summary = collect_host(HostReading {
        hostname: Some(String::from("box")),
        os_version: Some(String::from("Linux 6.1")),
        kernel_version: Some(String::from("6.1.0")),
        uptime: 86_400,
        total_memory: 16_000_000_000,
        used_memory: 4_000_000_000,
        total_swap: 2_000_000_000,
        used_swap: 1,
        cpu_usage: usage(37.5),
        cpu_cores: 8,
    });
    assert_eq!(
        summary,
        HostSummary {
            hostname: Some(String::from("box")),
            os_version: Some(String::from("Linux 6.1")),
            kernel_version: Some(String::from("6.1.0")),
            uptime: 86_400,
            total_memory: 16_000_000_000,
            used_memory: 4_000_000_000,
            total_swap: 2_000_000_000,
            used_swap: 1,
            cpu_usage: usage(37.5),
            cpu_cores: 8,
        }
    );
}

#[test]
fn absent_host_values_stay_absent_and_zero_stays_zero() {
    let summary = collect_host(HostReading {
        hostname: None,
        os_version: Some(String::new()),
        kernel_version: None,
        uptime: 0,
        total_memory: 0,
        used_memory: 0,
        total_swap: 0,
        used_swap: 0,
        cpu_usage: usage(0.0),
        cpu_cores: 0,
    });
    assert_eq!(summary.hostname, None);
    assert_eq!(summary.os_version, Some(String::new()));
    assert_eq!(summary.kernel_version, None);
    assert_eq!(summary.uptime, 0);
    assert_eq!(summary.total_memory, 0);
    assert_eq!(summary.cpu_cores, 0);
    assert_eq!(summary.cpu_usage.to_bits(), 0);
}

#[test]
fn records_and_readings_clone_to_equal_values() {
    let disk = DiskReading {
        name: String::from("d"),
        mount_point: String::from("/m"),
        total_space: 3,
        available_space: 2,
    };
    assert_eq!(disk.clone(), disk);
    let interface =
        InterfaceReading { name: String::from("lo"), total_received: 1, total_transmitted: 2 };
    assert_eq!(interface.clone(), interface);
    let process = ProcessReading {
        pid: 9,
        name: String::from("p"),
        cpu_usage: usage(1.5),
        memory: 7,
        status: String::from("Idle"),
    };
    assert_eq!(process.clone(), process);
    let host = HostReading {
        hostname: Some(String::from("h")),
        os_version: None,
        kernel_version: Some(String::new()),
        uptime: 1,
        total_memory: 2,
        used_memory: 3,
        total_swap: 4,
        used_swap: 5,
        cpu_usage: usage(6.0),
        cpu_cores: 7,
    };
    assert_eq!(host.clone(), host);
    let summary = collect_host(host.clone());
    assert_eq!(summary.clone(), summary);
    let disks = collect_disks(&vec![disk]);
    assert_eq!(disks[0].clone(), disks[0]);
    let networks = collect_networks(&vec![interface]);
    assert_eq!(networks[0].clone(), networks[0]);
    let processes = collect_processes(&vec![process]);
    assert_eq!(processes[0].clone(), processes[0]);
}
