use host_snapshot::record::{DiskRecord, NetworkRecord, ProcessRecord};
use host_snapshot::report::SnapshotReport;
use host_snapshot::source::{
    DiskReading, HostReading, InterfaceReading, ProcessReading, SourceReadings,
};
use host_snapshot::usage::CpuUsage;

fn usage(percent: f32) -> CpuUsage {
    CpuUsage::from_bits(percent.to_bits())
}

fn host() -> HostReading {
    HostReading {
        hostname: Some(String::from("box")),
        os_version: None,
        kernel_version: Some(String::from("6.1.0")),
        uptime: 120,
        total_memory: 8_000,
        used_memory: 3_000,
        total_swap: 0,
        used_swap: 0,
        cpu_usage: usage(12.5),
        cpu_cores: 4,
    }
}

fn processes(percents: &[f32]) -> Vec<ProcessReading> {
    let mut table = Vec::new();
    for (index, percent) in percents.iter().enumerate() {
        table.push(ProcessReading {
            pid: index as u32 + 100,
            name: format!("p{}", index),
            cpu_usage: usage(*percent),
            memory: index as u64,
            status: String::from("Sleep"),
        });
    }
    table
}

fn readings(percents: &[f32]) -> SourceReadings {
    SourceReadings {
        host: host(),
        disks: vec![DiskReading {
            name: String::from("/dev/sda1"),
            mount_point: String::from("/"),
            total_space: 100,
            available_space: 40,
        }],
        networks: vec![
            InterfaceReading { name: String::from("lo"), total_received: 1, total_transmitted: 2 },
            InterfaceReading {
                name: String::from("eth0"),
                total_received: 3,
                total_transmitted: 4,
            },
        ],
        processes: processes(percents),
    }
}

#[test]
fn report_holds_every_part() {
    let report = SnapshotReport::assemble(readings(&[1.0, 3.0, 2.0]));
    assert_eq!(report.host().hostname, Some(String::from("box")));
    assert_eq!(report.host().os_version, None);
    assert_eq!(report.host().kernel_version, Some(String::from("6.1.0")));
    assert_eq!(report.host().uptime, 120);
    assert_eq!(report.host().total_memory, 8_000);
    assert_eq!(report.host().used_memory, 3_000);
    assert_eq!(report.host().total_swap, 0);
    assert_eq!(report.host().used_swap, 0);
    assert_eq!(report.host().cpu_usage, usage(12.5));
    assert_eq!(report.host().cpu_cores, 4);
    assert_eq!(
        *report.disks(),
        vec![DiskRecord {
            name: String::from("/dev/sda1"),
            mount_point: String::from("/"),
            total_space: 100,
            available_space: 40,
        }]
    );
    assert_eq!(
        *report.networks(),
        vec![
            NetworkRecord { interface: String::from("lo"), received: 1, transmitted: 2 },
            NetworkRecord { interface: String::from("eth0"), received: 3, transmitted: 4 },
        ]
    );
    assert_eq!(
        *report.top_processes(),
        vec![
            ProcessRecord {
                pid: 101,
                name: String::from("p1"),
                cpu_usage: usage(3.0),
                memory: 1,
                status: String::from("Sleep"),
            },
            ProcessRecord {
                pid: 102,
                name: String::from("p2"),
                cpu_usage: usage(2.0),
                memory: 2,
                status: String::from("Sleep"),
            },
            ProcessRecord {
                pid: 100,
                name: String::from("p0"),
                cpu_usage: usage(1.0),
                memory: 0,
                status: String::from("Sleep"),
            },
        ]
    );
}

#[test]
fn no_disks_and_no_interfaces_give_empty_lists() {
    let report = SnapshotReport::assemble(SourceReadings {
        host: host(),
        disks: Vec::new(),
        networks: Vec::new(),
        processes: processes(&[1.0]),
    });
    assert!(report.disks().is_empty());
    assert!(report.networks().is_empty());
    assert_eq!(report.disks().len(), 0);
    assert_eq!(report.networks().len(), 0);
    assert_eq!(report.top_processes().len(), 1);
}

#[test]
fn report_lists_at_most_ten_processes() {
    let percents: Vec<f32> = (0..50).map(|i| (i % 17) as f32).collect();
    let report = SnapshotReport::assemble(readings(&percents));
    assert_eq!(report.top_processes().len(), 10);
    for pair in report.top_processes().windows(2) {
        assert!(pair[0].cpu_usage.rank_key() >= pair[1].cpu_usage.rank_key());
    }
    assert_eq!(report.top_processes()[0].cpu_usage, usage(16.0));
}

#[test]
fn absent_host_fields_are_absent_in_the_report() {
    let mut source = readings(&[]);
    source.host.hostname = None;
    source.host.os_version = None;
    source.host.kernel_version = None;
    source.host.uptime = 0;
    source.host.total_memory = 0;
    let report = SnapshotReport::assemble(source);
    assert_eq!(report.host().hostname, None);
    assert_eq!(report.host().os_version, None);
    assert_eq!(report.host().kernel_version, None);
    assert_eq!(report.host().uptime, 0);
    assert_eq!(report.host().total_memory, 0);
    assert!(report.top_processes().is_empty());
}

#[test]
fn two_snapshots_of_an_unchanged_host_have_the_same_shape() {
    let first = SnapshotReport::assemble(readings(&[5.0, 1.0, 9.0, 2.0]));
    let second = SnapshotReport::assemble(readings(&[0.5, 7.0, 3.0, 88.0]));
    assert_eq!(first.disks().len(), second.disks().len());
    assert_eq!(first.networks().len(), second.networks().len());
    assert_eq!(first.top_processes().len(), second.top_processes().len());
    assert_eq!(first.host().hostname.is_some(), second.host().hostname.is_some());
    assert_eq!(first.host().os_version.is_some(), second.host().os_version.is_some());
    assert_eq!(first.host().kernel_version.is_some(), second.host().kernel_version.is_some());
}

#[test]
fn same_readings_give_the_same_report() {
    let first = SnapshotReport::assemble(readings(&[5.0, 1.0, 9.0, 2.0]));
    let second = SnapshotReport::assemble(readings(&[5.0, 1.0, 9.0, 2.0]));
    assert_eq!(first, second);
}

#[test]
fn report_comes_apart_into_its_parts() {
    let report = SnapshotReport::assemble(readings(&[4.0, 6.0]));
    let (host, disks, networks, top) = report.into_parts();
    assert_eq!(host.hostname, Some(String::from("box")));
    assert_eq!(disks.len(), 1);
    assert_eq!(networks.len(), 2);
    assert_eq!(top.len(), 2);
    assert_eq!(top[0].pid, 101);
    assert_eq!(top[1].pid, 100);
}

#[test]
fn process_ids_are_normalised_in_the_report() {
    let mut source = readings(&[]);
    source.processes = vec![ProcessReading {
        pid: u32::MAX,
        name: String::from("wide"),
        cpu_usage: usage(1.0),
        memory: 9,
        status: String::from("Run"),
    }];
    let report = SnapshotReport::assemble(source);
    assert_eq!(report.top_processes()[0].pid, -1);
}

#[test]
fn largest_counts_pass_through_unchanged() {
    let report = SnapshotReport::assemble(SourceReadings {
        host: HostReading {
            hostname: None,
            os_version: None,
            kernel_version: None,
            uptime: u64::MAX,
            total_memory: u64::MAX,
            used_memory: u64::MAX - 1,
            total_swap: u64::MAX,
            used_swap: u64::MAX,
            cpu_usage: usage(100.0),
            cpu_cores: usize::MAX,
        },
        disks: vec![DiskReading {
            name: String::from("big"),
            mount_point: String::from("/big"),
            total_space: u64::MAX,
            available_space: u64::MAX,
        }],
        networks: vec![InterfaceReading {
            name: String::from("fast"),
            total_received: u64::MAX,
            total_transmitted: u64::MAX,
        }],
        processes: vec![ProcessReading {
            pid: 1,
            name: String::from("hog"),
            cpu_usage: usage(100.0),
            memory: u64::MAX,
            status: String::from("Run"),
        }],
    });
    assert_eq!(report.host().uptime, u64::MAX);
    assert_eq!(report.host().total_memory, u64::MAX);
    assert_eq!(report.host().used_memory, u64::MAX - 1);
    assert_eq!(report.host().total_swap, u64::MAX);
    assert_eq!(report.host().used_swap, u64::MAX);
    assert_eq!(report.host().cpu_cores, usize::MAX);
    assert_eq!(report.disks()[0].total_space, u64::MAX);
    assert_eq!(report.disks()[0].available_space, u64::MAX);
    assert_eq!(report.networks()[0].received, u64::MAX);
    assert_eq!(report.networks()[0].transmitted, u64::MAX);
    assert_eq!(report.top_processes()[0].memory, u64::MAX);
}
