//! The records a snapshot report is made of.

use vstd::prelude::*;
use crate::usage::CpuUsage;

verus! {

/// One volume: its device name, where it is mounted, and its capacity in bytes.
#[derive(Debug, PartialEq, Eq)]
pub struct DiskRecord {
    pub name: String,
    pub mount_point: String,
    pub total_space: u64,
    pub available_space: u64,
}

/// One network interface with its cumulative byte counters.
#[derive(Debug, PartialEq, Eq)]
pub struct NetworkRecord {
    pub interface: String,
    pub received: u64,
    pub transmitted: u64,
}

/// One running process.
#[derive(Debug, PartialEq, Eq)]
pub struct ProcessRecord {
    pub pid: i32,
    pub name: String,
    pub cpu_usage: CpuUsage,
    pub memory: u64,
    pub status: String,
}

/// The host-level scalars of a snapshot.
///
/// The three optional fields are absent when the host does not expose them;
/// an absent value is never a stand-in for an empty string.
#[derive(Debug, PartialEq, Eq)]
pub struct HostSummary {
    pub hostname: Option<String>,
    pub os_version: Option<String>,
    pub kernel_version: Option<String>,
    pub uptime: u64,
    pub total_memory: u64,
    pub used_memory: u64,
    pub total_swap: u64,
    pub used_swap: u64,
    pub cpu_usage: CpuUsage,
    pub cpu_cores: usize,
}

/// Copies an optional text: absent stays absent.
pub(crate) fn clone_optional(text: &Option<String>) -> (copy: Option<String>)
    ensures
        copy == *text,
{
    match text {
        Some(present) => Some(present.clone()),
        None => None,
    }
}

impl Clone for DiskRecord {
    fn clone(&self) -> (copy: Self)
        ensures
            copy == *self,
    {
        DiskRecord {
            name: self.name.clone(),
            mount_point: self.mount_point.clone(),
            total_space: self.total_space,
            available_space: self.available_space,
        }
    }
}

impl Clone for NetworkRecord {
    fn clone(&self) -> (copy: Self)
        ensures
            copy == *self,
    {
        NetworkRecord {
            interface: self.interface.clone(),
            received: self.received,
            transmitted: self.transmitted,
        }
    }
}

impl Clone for ProcessRecord {
    fn clone(&self) -> (copy: Self)
        ensures
            copy == *self,
    {
        ProcessRecord {
            pid: self.pid,
            name: self.name.clone(),
            cpu_usage: self.cpu_usage,
            memory: self.memory,
            status: self.status.clone(),
        }
    }
}

impl Clone for HostSummary {
    fn clone(&self) -> (copy: Self)
        ensures
            copy == *self,
    {
        HostSummary {
            hostname: clone_optional(&self.hostname),
            os_version: clone_optional(&self.os_version),
            kernel_version: clone_optional(&self.kernel_version),
            uptime: self.uptime,
            total_memory: self.total_memory,
            used_memory: self.used_memory,
            total_swap: self.total_swap,
            used_swap: self.used_swap,
            cpu_usage: self.cpu_usage,
            cpu_cores: self.cpu_cores,
        }
    }
}

} // verus!
