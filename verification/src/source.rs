//! What a metric source reports, before any normalisation.
//!
//! A metric source is whatever reads the operating system. It hands its
//! readings over as plain values; a value the system does not expose is
//! absent, never an error.

use vstd::prelude::*;
use crate::record::clone_optional;
use crate::usage::CpuUsage;

verus! {

/// One volume as the source lists it.
#[derive(Debug, PartialEq, Eq)]
pub struct DiskReading {
    pub name: String,
    pub mount_point: String,
    pub total_space: u64,
    pub available_space: u64,
}

/// One network interface as the source lists it, keyed by its name. The
/// counters run since the source began tracking.
#[derive(Debug, PartialEq, Eq)]
pub struct InterfaceReading {
    pub name: String,
    pub total_received: u64,
    pub total_transmitted: u64,
}

/// One entry of the source's process table. The process id is the platform's
/// unsigned number; the status is the source's label for the process state.
#[derive(Debug, PartialEq, Eq)]
pub struct ProcessReading {
    pub pid: u32,
    pub name: String,
    pub cpu_usage: CpuUsage,
    pub memory: u64,
    pub status: String,
}

/// The host-level scalars as the source reads them.
#[derive(Debug, PartialEq, Eq)]
pub struct HostReading {
    pub hostname: Option<String>,
    pub os_version: Option<String>,
    pub kernel_version: Option<String>,
    pub uptime: u64,
    pub total_memory: u64,
    pub used_memory: u64,
    pub total_swap: u64,
    pub used_swap: u64,
    pub cpu_usage: CpuUsage,
    pub cpu_cores: usize,
}

/// Everything one refresh of the source yields.
#[derive(Debug, PartialEq, Eq)]
pub struct SourceReadings {
    pub host: HostReading,
    pub disks: Vec<DiskReading>,
    pub networks: Vec<InterfaceReading>,
    pub processes: Vec<ProcessReading>,
}

impl Clone for DiskReading {
    fn clone(&self) -> (copy: Self)
        ensures
            copy == *self,
    {
        DiskReading {
            name: self.name.clone(),
            mount_point: self.mount_point.clone(),
            total_space: self.total_space,
            available_space: self.available_space,
        }
    }
}

impl Clone for InterfaceReading {
    fn clone(&self) -> (copy: Self)
        ensures
            copy == *self,
    {
        InterfaceReading {
            name: self.name.clone(),
            total_received: self.total_received,
            total_transmitted: self.total_transmitted,
        }
    }
}

impl Clone for ProcessReading {
    fn clone(&self) -> (copy: Self)
        ensures
            copy == *self,
    {
        ProcessReading {
            pid: self.pid,
            name: self.name.clone(),
            cpu_usage: self.cpu_usage,
            memory: self.memory,
            status: self.status.clone(),
        }
    }
}

impl Clone for HostReading {
    fn clone(&self) -> (copy: Self)
        ensures
            copy == *self,
    {
        HostReading {
            hostname: clone_optional(&self.hostname),
            os_version: clone_optional(&self.os_version),
            kernel_version: clone_optional(&self.kernel_version),
            uptime: self.uptime,
            total_memory: self.total_memory,
            used_memory: self.used_memory,
            total_swap: self.total_swap,
            used_swap: self.used_swap,
            cpu_usage: self.cpu_usage,
            cpu_cores: self.cpu_cores,
        }
    }
}

} // verus!
