//! The status of the whole machine: its logical processors and its memory.

use vstd::prelude::*;
use crate::error::ApiError;
use crate::error::ApiErrorView;

verus! {

/// What the operating system reports of physical memory, in bytes.
#[derive(Clone, Copy, Debug, PartialEq, Eq, Structural)]
pub struct MemoryReading {
    pub total: u64,
    pub available: u64,
}

/// Physical memory as a client is shown it, in bytes.
#[derive(Clone, Copy, Debug, PartialEq, Eq, Structural)]
pub struct MemorySnapshot {
    pub total: u64,
    pub usage: u64,
}

/// The status of the machine. The two figures that are not measured are
/// `None`, never a made-up zero.
#[derive(Clone, Copy, Debug, PartialEq, Eq, Structural)]
pub struct SystemStatus {
    pub cpu_count: u64,
    pub memory: MemorySnapshot,
    pub uptime_seconds: Option<u64>,
    pub cpu_usage_percent: Option<u8>,
}

/// Bytes in use, given the total and the bytes still available: their
/// difference, or zero where `available` was read ahead of `total`.
pub open spec fn used_bytes(total: u64, available: u64) -> u64 {
    if available <= total {
        (total - available) as u64
    } else {
        0
    }
}

impl MemorySnapshot {
    /// No more is in use than there is.
    pub open spec fn wf(&self) -> bool {
        self.usage <= self.total
    }

    /// The snapshot of one reading.
    pub open spec fn of(reading: MemoryReading) -> MemorySnapshot {
        MemorySnapshot { total: reading.total, usage: used_bytes(reading.total, reading.available) }
    }

    /// Turns a reading into a snapshot.
    pub fn from_reading(reading: MemoryReading) -> (snapshot: MemorySnapshot)
        ensures
            snapshot == Self::of(reading),
            snapshot.wf(),
            reading.available <= reading.total ==> snapshot.usage == reading.total
                - reading.available,
    {
        MemorySnapshot { total: reading.total, usage: memory_usage(reading.total, reading.available) }
    }
}

impl SystemStatus {
    /// At least one processor, a well-formed memory snapshot, and a usage
    /// that is a percentage where it is reported.
    pub open spec fn wf(&self) -> bool {
        &&& self.cpu_count >= 1
        &&& self.memory.wf()
        &&& (self.cpu_usage_percent matches Some(p) ==> p <= 100)
    }
}

/// The status that the two readings amount to: none unless both were
/// answered and at least one processor was counted.
pub open spec fn status_of(memory: Option<MemoryReading>, cpu_count: Option<u64>) -> Result<
    SystemStatus,
    ApiErrorView,
> {
    match (memory, cpu_count) {
        (Some(reading), Some(count)) if count >= 1 => Ok(
            SystemStatus {
                cpu_count: count,
                memory: MemorySnapshot::of(reading),
                uptime_seconds: None,
                cpu_usage_percent: None,
            },
        ),
        _ => Err(ApiErrorView::Unavailable),
    }
}

/// Computes `used_bytes`.
pub fn memory_usage(total: u64, available: u64) -> (usage: u64)
    ensures
        usage == used_bytes(total, available),
        usage <= total,
        available <= total ==> usage == total - available,
{
    if available <= total {
        total - available
    } else {
        0
    }
}

/// Builds the machine's status from the reading of its memory and the count
/// of its logical processors, each `None` where the query failed. A status
/// without either is worth nothing, so any failure fails the request.
pub fn build_status(memory: Option<MemoryReading>, cpu_count: Option<u64>) -> (res: Result<
    SystemStatus,
    ApiError,
>)
    ensures
        match res {
            Ok(status) => status_of(memory, cpu_count) == Ok::<SystemStatus, ApiErrorView>(status),
            Err(err) => status_of(memory, cpu_count) == Err::<SystemStatus, ApiErrorView>(err@),
        },
        res is Ok <==> memory is Some && cpu_count is Some && cpu_count->0 >= 1,
        res matches Ok(status) ==> status.wf(),
        res matches Ok(status) ==> status.memory.usage <= status.memory.total,
        res matches Ok(status) ==> (memory->0.available <= memory->0.total ==> status.memory.usage
            == memory->0.total - memory->0.available),
{
    match (memory, cpu_count) {
        (Some(reading), Some(count)) => {
            if count >= 1 {
                Ok(
                    SystemStatus {
                        cpu_count: count,
                        memory: MemorySnapshot::from_reading(reading),
                        uptime_seconds: None,
                        cpu_usage_percent: None,
                    },
                )
            } else {
                Err(ApiError::Unavailable)
            }
        },
        _ => Err(ApiError::Unavailable),
    }
}

/// Whatever is read, no more memory is shown in use than there is; and
/// where no more is available than there is, what is in use is the rest.
pub proof fn lemma_usage_within_total(reading: MemoryReading)
    ensures
        MemorySnapshot::of(reading).wf(),
        MemorySnapshot::of(reading).total == reading.total,
        reading.available <= reading.total ==> MemorySnapshot::of(reading).usage
            == reading.total - reading.available,
        reading.available >= reading.total ==> MemorySnapshot::of(reading).usage == 0,
{
}

/// A status is built exactly when both readings were answered and a
/// processor was counted, and it is then well formed.
pub proof fn lemma_status_when_read(memory: Option<MemoryReading>, cpu_count: Option<u64>)
    ensures
        status_of(memory, cpu_count) is Ok <==> memory is Some && cpu_count is Some
            && cpu_count->0 >= 1,
        status_of(memory, cpu_count) matches Ok(status) ==> status.wf() && status.memory
            == MemorySnapshot::of(memory->0) && status.cpu_count == cpu_count->0,
        status_of(memory, cpu_count) matches Err(err) ==> err == ApiErrorView::Unavailable,
{
}

} // verus!
