//! The snapshot report and its assembly from one set of readings.

use vstd::prelude::*;
use crate::collect::{
    collect_disks, collect_host, collect_networks, collect_processes, disk_records_of,
    host_summary_of, network_records_of, process_records_of,
};
use crate::rank::{descending, is_top_of, lemma_top_length, rank_processes, top_count, TOP_PROCESS_LIMIT};
use crate::record::{DiskRecord, HostSummary, NetworkRecord, ProcessRecord};
use crate::source::SourceReadings;

verus! {

/// One complete view of the host at one point in time.
///
/// The list of top processes never has more than ten entries and is in
/// descending order of CPU usage; no report exists for which that fails.
#[derive(Debug, PartialEq, Eq)]
pub struct SnapshotReport {
    host: HostSummary,
    disks: Vec<DiskRecord>,
    networks: Vec<NetworkRecord>,
    top_processes: Vec<ProcessRecord>,
}

/// What a report holds, as mathematical values.
pub struct SnapshotView {
    pub host: HostSummary,
    pub disks: Seq<DiskRecord>,
    pub networks: Seq<NetworkRecord>,
    pub top_processes: Seq<ProcessRecord>,
}

/// The shape of a report: which optional host fields are present and how long
/// each list is.
pub struct ReportShape {
    pub has_hostname: bool,
    pub has_os_version: bool,
    pub has_kernel_version: bool,
    pub disks: nat,
    pub networks: nat,
    pub top_processes: nat,
}

impl View for SnapshotReport {
    type V = SnapshotView;

    closed spec fn view(&self) -> SnapshotView {
        SnapshotView {
            host: self.host,
            disks: self.disks@,
            networks: self.networks@,
            top_processes: self.top_processes@,
        }
    }
}

/// `report` is a snapshot of `readings`: the host scalars as read, one record
/// per listed volume and interface in the order of the listing, and a top list
/// of the process table.
pub open spec fn is_snapshot_of(report: SnapshotView, readings: SourceReadings) -> bool {
    &&& report.host == host_summary_of(readings.host)
    &&& report.disks == disk_records_of(readings.disks@)
    &&& report.networks == network_records_of(readings.networks@)
    &&& is_top_of(report.top_processes, process_records_of(readings.processes@))
}

/// The shape of a report.
pub open spec fn shape_of(report: SnapshotView) -> ReportShape {
    ReportShape {
        has_hostname: report.host.hostname is Some,
        has_os_version: report.host.os_version is Some,
        has_kernel_version: report.host.kernel_version is Some,
        disks: report.disks.len(),
        networks: report.networks.len(),
        top_processes: report.top_processes.len(),
    }
}

/// Two sets of readings were taken under the same circumstances: the same
/// optional host values are exposed, as many volumes and interfaces are
/// listed, and the process tables fill the top list to the same length.
pub open spec fn same_circumstances(first: SourceReadings, second: SourceReadings) -> bool {
    &&& first.host.hostname is Some <==> second.host.hostname is Some
    &&& first.host.os_version is Some <==> second.host.os_version is Some
    &&& first.host.kernel_version is Some <==> second.host.kernel_version is Some
    &&& first.disks@.len() == second.disks@.len()
    &&& first.networks@.len() == second.networks@.len()
    &&& top_count(first.processes@.len()) == top_count(second.processes@.len())
}

impl SnapshotReport {
    #[verifier::type_invariant]
    spec fn well_ranked(self) -> bool {
        self.top_processes@.len() <= TOP_PROCESS_LIMIT && descending(self.top_processes@)
    }

    /// Assembles the report of one set of readings: collects each subsystem,
    /// ranks the process table and puts the parts together.
    pub fn assemble(readings: SourceReadings) -> (report: SnapshotReport)
        ensures
            is_snapshot_of(report@, readings),
            report@.top_processes.len() == top_count(readings.processes@.len()),
            descending(report@.top_processes),
    {
        let disks = collect_disks(&readings.disks);
        let networks = collect_networks(&readings.networks);
        let table = collect_processes(&readings.processes);
        let top_processes = rank_processes(table);
        let host = collect_host(readings.host);
        SnapshotReport { host, disks, networks, top_processes }
    }

    /// The host-level scalars.
    pub fn host(&self) -> (host: &HostSummary)
        ensures
            *host == self@.host,
    {
        &self.host
    }

    /// The volumes, in the order the source listed them.
    pub fn disks(&self) -> (disks: &Vec<DiskRecord>)
        ensures
            disks@ == self@.disks,
    {
        &self.disks
    }

    /// The network interfaces, in the order the source listed them.
    pub fn networks(&self) -> (networks: &Vec<NetworkRecord>)
        ensures
            networks@ == self@.networks,
    {
        &self.networks
    }

    /// The processes with the highest CPU usage, highest first: at most ten.
    pub fn top_processes(&self) -> (top: &Vec<ProcessRecord>)
        ensures
            top@ == self@.top_processes,
            top@.len() <= TOP_PROCESS_LIMIT,
            descending(top@),
    {
        proof {
            use_type_invariant(self);
        }
        &self.top_processes
    }

    /// Takes the report apart: host scalars, volumes, interfaces, top processes.
    pub fn into_parts(self) -> (parts: (
        HostSummary,
        Vec<DiskRecord>,
        Vec<NetworkRecord>,
        Vec<ProcessRecord>,
    ))
        ensures
            parts.0 == self@.host,
            parts.1@ == self@.disks,
            parts.2@ == self@.networks,
            parts.3@ == self@.top_processes,
            parts.3@.len() <= TOP_PROCESS_LIMIT,
            descending(parts.3@),
    {
        proof {
            use_type_invariant(&self);
        }
        (self.host, self.disks, self.networks, self.top_processes)
    }
}

/// An optional host value that the source did not expose is absent in the
/// snapshot, and one that it did expose is present with the value read: an
/// empty string in a snapshot was read as an empty string.
pub proof fn lemma_absent_stays_absent(report: SnapshotView, readings: SourceReadings)
    requires
        is_snapshot_of(report, readings),
    ensures
        report.host.hostname == readings.host.hostname,
        report.host.os_version == readings.host.os_version,
        report.host.kernel_version == readings.host.kernel_version,
        report.host.hostname is None <==> readings.host.hostname is None,
        report.host.os_version is None <==> readings.host.os_version is None,
        report.host.kernel_version is None <==> readings.host.kernel_version is None,
{
}

/// No byte count, capacity or counter of a snapshot is negative.
pub proof fn lemma_counts_not_negative(report: SnapshotView)
    ensures
        report.host.uptime >= 0,
        report.host.total_memory >= 0,
        report.host.used_memory >= 0,
        report.host.total_swap >= 0,
        report.host.used_swap >= 0,
        report.host.cpu_cores >= 0,
        forall|i: int|
            0 <= i < report.disks.len() ==> (#[trigger] report.disks[i]).total_space >= 0
                && report.disks[i].available_space >= 0,
        forall|i: int|
            0 <= i < report.networks.len() ==> (#[trigger] report.networks[i]).received >= 0
                && report.networks[i].transmitted >= 0,
        forall|i: int|
            0 <= i < report.top_processes.len() ==> (#[trigger] report.top_processes[i]).memory
                >= 0,
{
}

/// Snapshots taken under the same circumstances have the same shape, whatever
/// the numbers in them.
pub proof fn lemma_shape_repeats(
    first: SnapshotView,
    second: SnapshotView,
    first_readings: SourceReadings,
    second_readings: SourceReadings,
)
    requires
        is_snapshot_of(first, first_readings),
        is_snapshot_of(second, second_readings),
        same_circumstances(first_readings, second_readings),
    ensures
        shape_of(first) == shape_of(second),
{
    lemma_top_length(first.top_processes, process_records_of(first_readings.processes@));
    lemma_top_length(second.top_processes, process_records_of(second_readings.processes@));
}

} // verus!
