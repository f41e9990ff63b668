//! Records of processes: one by its identifier, and the list of all of them.

use vstd::prelude::*;
use crate::error::ApiError;
use crate::error::ApiErrorView;
use crate::error::ReadError;
use crate::error::fault_of;

verus! {

/// What the operating system reports of one process.
#[derive(Clone, Debug, PartialEq, Eq)]
pub struct ProcessDetails {
    pub pid: u32,
    pub parent_pid: u32,
    pub name: String,
    pub command_line: String,
    pub resident_bytes: u64,
    pub virtual_bytes: u64,
}

/// The memory of one process, in bytes.
#[derive(Clone, Copy, Debug, PartialEq, Eq, Structural)]
pub struct ProcessMemory {
    pub resident: u64,
    pub virtual_: u64,
}

/// One process as a client is shown it. The arguments are the command line
/// as one string, not split.
#[derive(Clone, Debug, PartialEq, Eq)]
pub struct ProcessRecord {
    pub pid: u32,
    pub parent_pid: u32,
    pub command: String,
    pub arguments: String,
    pub memory: ProcessMemory,
}

/// The mathematical value of a `ProcessDetails`.
pub struct ProcessDetailsView {
    pub pid: u32,
    pub parent_pid: u32,
    pub name: Seq<char>,
    pub command_line: Seq<char>,
    pub resident_bytes: u64,
    pub virtual_bytes: u64,
}

/// The mathematical value of a `ProcessRecord`.
pub struct ProcessRecordView {
    pub pid: u32,
    pub parent_pid: u32,
    pub command: Seq<char>,
    pub arguments: Seq<char>,
    pub memory: ProcessMemory,
}

impl View for ProcessDetails {
    type V = ProcessDetailsView;

    open spec fn view(&self) -> ProcessDetailsView {
        ProcessDetailsView {
            pid: self.pid,
            parent_pid: self.parent_pid,
            name: self.name@,
            command_line: self.command_line@,
            resident_bytes: self.resident_bytes,
            virtual_bytes: self.virtual_bytes,
        }
    }
}

impl View for ProcessRecord {
    type V = ProcessRecordView;

    open spec fn view(&self) -> ProcessRecordView {
        ProcessRecordView {
            pid: self.pid,
            parent_pid: self.parent_pid,
            command: self.command@,
            arguments: self.arguments@,
            memory: self.memory,
        }
    }
}

/// One entry of an enumeration: the details of a process, or why they
/// could not be read.
pub type Reading = Result<ProcessDetails, ReadError>;

/// The mathematical value of a `Reading`.
pub type ReadingView = Result<ProcessDetailsView, ReadError>;

/// The record that shows the given details.
pub open spec fn record_of(details: ProcessDetailsView) -> ProcessRecordView {
    ProcessRecordView {
        pid: details.pid,
        parent_pid: details.parent_pid,
        command: details.name,
        arguments: details.command_line,
        memory: ProcessMemory {
            resident: details.resident_bytes,
            virtual_: details.virtual_bytes,
        },
    }
}

/// The value of a reading.
pub open spec fn reading_view(reading: Reading) -> ReadingView {
    match reading {
        Ok(details) => Ok(details@),
        Err(cause) => Err(cause),
    }
}

/// The values of a list of readings, in order.
pub open spec fn readings_view(readings: Seq<Reading>) -> Seq<ReadingView> {
    Seq::new(readings.len(), |i: int| reading_view(readings[i]))
}

/// The values of a list of records, in order.
pub open spec fn records_view(records: Seq<ProcessRecord>) -> Seq<ProcessRecordView> {
    Seq::new(records.len(), |i: int| records[i]@)
}

/// The answer to a request for the process `pid`, given what was read for
/// it: its record if the details are those of `pid`; not found if they are
/// another's or the process is gone; else the reading's own failure.
pub open spec fn process_response(pid: u32, reading: ReadingView) -> Result<
    ProcessRecordView,
    ApiErrorView,
> {
    match reading {
        Ok(details) => if details.pid == pid {
            Ok(record_of(details))
        } else {
            Err(ApiErrorView::NotFound)
        },
        Err(cause) => Err(fault_of(cause)),
    }
}

/// The value of the answer to a request for one process.
pub open spec fn response_view(res: Result<ProcessRecord, ApiError>) -> Result<
    ProcessRecordView,
    ApiErrorView,
> {
    match res {
        Ok(record) => Ok(record@),
        Err(err) => Err(err@),
    }
}

/// The identifier that a number reported by the operating system stands
/// for: itself, where it is one.
pub open spec fn pid_of(raw: i64) -> Result<u32, ReadError> {
    if 0 <= raw <= u32::MAX {
        Ok(raw as u32)
    } else {
        Err(ReadError::Unavailable)
    }
}

/// Takes a number reported as a process identifier. Identifiers are never
/// negative, so a report of one that is, or of one too large, is no answer.
pub fn checked_pid(raw: i64) -> (res: Result<u32, ReadError>)
    ensures
        res == pid_of(raw),
        res matches Ok(pid) ==> pid == raw,
        res is Ok <==> 0 <= raw <= u32::MAX,
{
    if 0 <= raw && raw <= 0xffff_ffff {
        Ok(raw as u32)
    } else {
        Err(ReadError::Unavailable)
    }
}

impl ProcessRecord {
    /// Makes the record that shows `details`.
    pub fn from_details(details: ProcessDetails) -> (record: ProcessRecord)
        ensures
            record@ == record_of(details@),
    {
        ProcessRecord {
            pid: details.pid,
            parent_pid: details.parent_pid,
            command: details.name,
            arguments: details.command_line,
            memory: ProcessMemory {
                resident: details.resident_bytes,
                virtual_: details.virtual_bytes,
            },
        }
    }
}

/// Answers a request for the process `pid` from the one reading made for it.
pub fn build_process(pid: u32, reading: Reading) -> (res: Result<ProcessRecord, ApiError>)
    ensures
        response_view(res) == process_response(pid, reading_view(reading)),
        res matches Ok(record) ==> record.pid == pid,
        res is Ok <==> (reading matches Ok(details) && details.pid == pid),
        reading == Err::<ProcessDetails, ReadError>(ReadError::ProcessGone) ==> res == Err::<
            ProcessRecord,
            ApiError,
        >(ApiError::NotFound),
{
    match reading {
        Ok(details) => {
            if details.pid == pid {
                Ok(ProcessRecord::from_details(details))
            } else {
                Err(ApiError::NotFound)
            }
        },
        Err(cause) => Err(cause.into_fault()),
    }
}

/// A record is given only for the process that was asked for, and shows
/// that process; a process that is gone is not found; and a failed reading
/// never gives a record.
pub proof fn lemma_process_response(pid: u32, reading: ReadingView)
    ensures
        process_response(pid, reading) matches Ok(record) ==> record.pid == pid && reading is Ok
            && record == record_of(reading->Ok_0),
        (reading matches Ok(details) && details.pid == pid) ==> process_response(pid, reading)
            is Ok,
        reading == Err::<ProcessDetailsView, ReadError>(ReadError::ProcessGone)
            ==> process_response(pid, reading) == Err::<ProcessRecordView, ApiErrorView>(
            ApiErrorView::NotFound,
        ),
        reading is Err ==> process_response(pid, reading) is Err,
{
}

} // verus!
