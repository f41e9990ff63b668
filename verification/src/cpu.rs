//! Records of processors: one core by its index, or the whole machine.

use vstd::prelude::*;
use crate::error::ApiError;
use crate::error::ApiErrorView;

verus! {

/// What is measured of one logical core, or of all of them taken together.
/// The usage is a percentage, carried as the bit pattern of a
/// single-precision number and never computed with.
#[derive(Clone, Debug, PartialEq, Eq)]
pub struct CoreReading {
    pub brand: String,
    pub vendor: String,
    /// In MHz.
    pub frequency: u64,
    pub usage_bits: u32,
}

/// A processor as a client is shown it.
#[derive(Clone, Debug, PartialEq, Eq)]
pub struct CpuRecord {
    pub model: String,
    pub manufacturer: String,
    /// In MHz.
    pub speed: u64,
    pub usage_bits: u32,
}

/// One measurement of the machine: the figures of all cores taken together,
/// and those of each core, in the order of their indices.
#[derive(Clone, Debug, PartialEq, Eq)]
pub struct CpuTable {
    pub machine: CoreReading,
    pub cores: Vec<CoreReading>,
}

/// The mathematical value of a `CoreReading`.
pub struct CoreReadingView {
    pub brand: Seq<char>,
    pub vendor: Seq<char>,
    pub frequency: u64,
    pub usage_bits: u32,
}

/// The mathematical value of a `CpuRecord`.
pub struct CpuRecordView {
    pub model: Seq<char>,
    pub manufacturer: Seq<char>,
    pub speed: u64,
    pub usage_bits: u32,
}

/// The mathematical value of a `CpuTable`.
pub struct CpuTableView {
    pub machine: CoreReadingView,
    pub cores: Seq<CoreReadingView>,
}

impl View for CoreReading {
    type V = CoreReadingView;

    open spec fn view(&self) -> CoreReadingView {
        CoreReadingView {
            brand: self.brand@,
            vendor: self.vendor@,
            frequency: self.frequency,
            usage_bits: self.usage_bits,
        }
    }
}

impl View for CpuRecord {
    type V = CpuRecordView;

    open spec fn view(&self) -> CpuRecordView {
        CpuRecordView {
            model: self.model@,
            manufacturer: self.manufacturer@,
            speed: self.speed,
            usage_bits: self.usage_bits,
        }
    }
}

impl View for CpuTable {
    type V = CpuTableView;

    open spec fn view(&self) -> CpuTableView {
        CpuTableView {
            machine: self.machine@,
            cores: Seq::new(self.cores@.len(), |i: int| self.cores@[i]@),
        }
    }
}

/// The record that shows the given reading.
pub open spec fn cpu_record_of(reading: CoreReadingView) -> CpuRecordView {
    CpuRecordView {
        model: reading.brand,
        manufacturer: reading.vendor,
        speed: reading.frequency,
        usage_bits: reading.usage_bits,
    }
}

/// The answer to a request for a processor: without an index the whole
/// machine; with one the core at that position of the table, and not found
/// where the table has no such position.
pub open spec fn cpu_response(table: CpuTableView, core_index: Option<usize>) -> Result<
    CpuRecordView,
    ApiErrorView,
> {
    match core_index {
        None => Ok(cpu_record_of(table.machine)),
        Some(index) => if index < table.cores.len() {
            Ok(cpu_record_of(table.cores[index as int]))
        } else {
            Err(ApiErrorView::NotFound)
        },
    }
}

/// The value of the answer to a request for a processor.
pub open spec fn cpu_response_view(res: Result<CpuRecord, ApiError>) -> Result<
    CpuRecordView,
    ApiErrorView,
> {
    match res {
        Ok(record) => Ok(record@),
        Err(err) => Err(err@),
    }
}

impl CpuRecord {
    /// Makes the record that shows `reading`.
    pub fn from_reading(reading: &CoreReading) -> (record: CpuRecord)
        ensures
            record@ == cpu_record_of(reading@),
    {
        CpuRecord {
            model: reading.brand.clone(),
            manufacturer: reading.vendor.clone(),
            speed: reading.frequency,
            usage_bits: reading.usage_bits,
        }
    }
}

/// Answers a request for a processor from one measured table. The table is
/// indexed by position, once: the core at `core_index` is the one shown.
pub fn build_cpu(table: &CpuTable, core_index: Option<usize>) -> (res: Result<CpuRecord, ApiError>)
    ensures
        cpu_response_view(res) == cpu_response(table@, core_index),
        res is Ok <==> (core_index matches Some(index) ==> index < table.cores.len()),
        res matches Err(err) ==> err == ApiError::NotFound,
        core_index matches Some(index) ==> (res matches Ok(record) ==> record@ == cpu_record_of(
            table.cores[index as int]@,
        )),
        core_index is None ==> (res matches Ok(record) && record@ == cpu_record_of(
            table.machine@,
        )),
{
    match core_index {
        None => Ok(CpuRecord::from_reading(&table.machine)),
        Some(index) => {
            if index < table.cores.len() {
                Ok(CpuRecord::from_reading(&table.cores[index]))
            } else {
                Err(ApiError::NotFound)
            }
        },
    }
}

/// An index within the table gives the core at that very position, and one
/// at or past its end is not found, whatever the table holds.
pub proof fn lemma_core_selection(table: CpuTableView, index: usize)
    ensures
        index < table.cores.len() ==> cpu_response(table, Some(index)) == Ok::<
            CpuRecordView,
            ApiErrorView,
        >(cpu_record_of(table.cores[index as int])),
        index >= table.cores.len() ==> cpu_response(table, Some(index)) == Err::<
            CpuRecordView,
            ApiErrorView,
        >(ApiErrorView::NotFound),
        cpu_response(table, None) == Ok::<CpuRecordView, ApiErrorView>(
            cpu_record_of(table.machine),
        ),
{
}

} // verus!
