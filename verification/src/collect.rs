//! The collectors: one per subsystem, each turning the source's readings
//! into records.
//!
//! A collector maps reading by reading. It keeps the order of the source,
//! drops nothing, merges nothing and invents no value.

use vstd::prelude::*;
use crate::record::{DiskRecord, HostSummary, NetworkRecord, ProcessRecord};
use crate::source::{DiskReading, HostReading, InterfaceReading, ProcessReading};

verus! {

/// The signed process id that stands for the platform's unsigned one: the same
/// number where it fits, and the number with the same 32 bits where it does not.
pub open spec fn pid_of(raw: u32) -> int {
    if raw <= i32::MAX {
        raw as int
    } else {
        raw - 0x1_0000_0000
    }
}

/// The record of one volume.
pub open spec fn disk_record_of(reading: DiskReading) -> DiskRecord {
    DiskRecord {
        name: reading.name,
        mount_point: reading.mount_point,
        total_space: reading.total_space,
        available_space: reading.available_space,
    }
}

/// The record of one network interface.
pub open spec fn network_record_of(reading: InterfaceReading) -> NetworkRecord {
    NetworkRecord {
        interface: reading.name,
        received: reading.total_received,
        transmitted: reading.total_transmitted,
    }
}

/// The record of one process.
pub open spec fn process_record_of(reading: ProcessReading) -> ProcessRecord {
    ProcessRecord {
        pid: pid_of(reading.pid) as i32,
        name: reading.name,
        cpu_usage: reading.cpu_usage,
        memory: reading.memory,
        status: reading.status,
    }
}

/// The host summary of the host scalars: every field as it was read.
pub open spec fn host_summary_of(reading: HostReading) -> HostSummary {
    HostSummary {
        hostname: reading.hostname,
        os_version: reading.os_version,
        kernel_version: reading.kernel_version,
        uptime: reading.uptime,
        total_memory: reading.total_memory,
        used_memory: reading.used_memory,
        total_swap: reading.total_swap,
        used_swap: reading.used_swap,
        cpu_usage: reading.cpu_usage,
        cpu_cores: reading.cpu_cores,
    }
}

/// The records of the listed volumes, in the order of the listing.
pub open spec fn disk_records_of(readings: Seq<DiskReading>) -> Seq<DiskRecord> {
    Seq::new(readings.len(), |i: int| disk_record_of(readings[i]))
}

/// The records of the listed interfaces, in the order of the listing.
pub open spec fn network_records_of(readings: Seq<InterfaceReading>) -> Seq<NetworkRecord> {
    Seq::new(readings.len(), |i: int| network_record_of(readings[i]))
}

/// The records of the process table, in the order of the table.
pub open spec fn process_records_of(readings: Seq<ProcessReading>) -> Seq<ProcessRecord> {
    Seq::new(readings.len(), |i: int| process_record_of(readings[i]))
}

/// Brings a platform process id to a 32-bit signed integer.
pub fn normalize_pid(raw: u32) -> (pid: i32)
    ensures
        pid == pid_of(raw),
{
    if raw <= 0x7fff_ffff {
        raw as i32
    } else {
        let above: u32 = raw - 0x8000_0000;
        (above as i32) + i32::MIN
    }
}

/// Maps each listed volume to its record.
pub fn collect_disks(readings: &Vec<DiskReading>) -> (records: Vec<DiskRecord>)
    ensures
        records@ == disk_records_of(readings@),
{
    let mut records: Vec<DiskRecord> = Vec::new();
    let mut index: usize = 0;
    while index < readings.len()
        invariant
            index <= readings.len(),
            records@.len() == index,
            forall|i: int| 0 <= i < index ==> records@[i] == disk_record_of(readings@[i]),
        decreases readings.len() - index,
    {
        let reading = &readings[index];
        records.push(
            DiskRecord {
                name: reading.name.clone(),
                mount_point: reading.mount_point.clone(),
                total_space: reading.total_space,
                available_space: reading.available_space,
            },
        );
        index += 1;
    }
    assert(records@ =~= disk_records_of(readings@));
    records
}

/// Maps each listed interface to its record: one record per interface.
pub fn collect_networks(readings: &Vec<InterfaceReading>) -> (records: Vec<NetworkRecord>)
    ensures
        records@ == network_records_of(readings@),
{
    let mut records: Vec<NetworkRecord> = Vec::new();
    let mut index: usize = 0;
    while index < readings.len()
        invariant
            index <= readings.len(),
            records@.len() == index,
            forall|i: int| 0 <= i < index ==> records@[i] == network_record_of(readings@[i]),
        decreases readings.len() - index,
    {
        let reading = &readings[index];
        records.push(
            NetworkRecord {
                interface: reading.name.clone(),
                received: reading.total_received,
                transmitted: reading.total_transmitted,
            },
        );
        index += 1;
    }
    assert(records@ =~= network_records_of(readings@));
    records
}

/// Maps every entry of the process table to its record. The result is the
/// whole table, unranked.
pub fn collect_processes(readings: &Vec<ProcessReading>) -> (records: Vec<ProcessRecord>)
    ensures
        records@ == process_records_of(readings@),
{
    let mut records: Vec<ProcessRecord> = Vec::new();
    let mut index: usize = 0;
    while index < readings.len()
        invariant
            index <= readings.len(),
            records@.len() == index,
            forall|i: int| 0 <= i < index ==> records@[i] == process_record_of(readings@[i]),
        decreases readings.len() - index,
    {
        let reading = &readings[index];
        records.push(
            ProcessRecord {
                pid: normalize_pid(reading.pid),
                name: reading.name.clone(),
                cpu_usage: reading.cpu_usage,
                memory: reading.memory,
                status: reading.status.clone(),
            },
        );
        index += 1;
    }
    assert(records@ =~= process_records_of(readings@));
    records
}

/// Takes the host scalars over as they were read. An absent value stays
/// absent, and a zero stays a zero.
pub fn collect_host(reading: HostReading) -> (summary: HostSummary)
    ensures
        summary == host_summary_of(reading),
{
    HostSummary {
        hostname: reading.hostname,
        os_version: reading.os_version,
        kernel_version: reading.kernel_version,
        uptime: reading.uptime,
        total_memory: reading.total_memory,
        used_memory: reading.used_memory,
        total_swap: reading.total_swap,
        used_swap: reading.used_swap,
        cpu_usage: reading.cpu_usage,
        cpu_cores: reading.cpu_cores,
    }
}

} // verus!
