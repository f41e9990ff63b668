//! Reading a measured `sysinfo::System` into a `CpuTable`.
//!
//! The measurement itself, which reads the machine and takes its time, is the
//! caller's: these functions only read what a `System` already holds.

use vstd::prelude::*;
use sysinfo::CpuExt;
use sysinfo::SystemExt;
use crate::cpu::CoreReading;
use crate::cpu::CoreReadingView;
use crate::cpu::CpuRecord;
use crate::cpu::CpuTable;
use crate::cpu::CpuTableView;
use crate::cpu::build_cpu;
use crate::cpu::cpu_response;
use crate::cpu::cpu_response_view;
use crate::error::ApiError;

verus! {

/// `sysinfo::System`, of which Verus sees nothing but the two names below.
#[verifier::external_type_specification]
#[verifier::external_body]
pub struct ExSystem(sysinfo::System);

/// The figures of the cores that a `System` holds, in the order of
/// `SystemExt::cpus`: of each its `brand`, `vendor_id`, `frequency` and the
/// bits of its `cpu_usage`.
pub uninterp spec fn measured_cores(sys: sysinfo::System) -> Seq<CoreReadingView>;

/// The same four figures of `SystemExt::global_cpu_info`, which stands for
/// all cores taken together.
pub uninterp spec fn measured_machine(sys: sysinfo::System) -> CoreReadingView;

/// `SystemExt::cpus` and the length of the slice that it returns. Trusted:
/// that this length is the number of cores held.
#[verifier::external_body]
fn core_count(sys: &sysinfo::System) -> (count: usize)
    ensures
        count == measured_cores(*sys).len(),
{
    sys.cpus().len()
}

/// The element at `index` of the slice that `SystemExt::cpus` returns, read
/// through `CpuExt::brand`, `vendor_id`, `frequency` and `cpu_usage`.
/// Trusted: that these are the figures of the core at that position. The
/// index must be within the slice, which is indexed directly.
#[verifier::external_body]
fn core_at(sys: &sysinfo::System, index: usize) -> (reading: CoreReading)
    requires
        index < measured_cores(*sys).len(),
    ensures
        reading@ == measured_cores(*sys)[index as int],
{
    let cpu = &sys.cpus()[index];
    CoreReading {
        brand: cpu.brand().to_string(),
        vendor: cpu.vendor_id().to_string(),
        frequency: cpu.frequency(),
        usage_bits: cpu.cpu_usage().to_bits(),
    }
}

/// `SystemExt::global_cpu_info`, read through the same four getters.
/// Trusted: that these are the figures of the machine as a whole.
#[verifier::external_body]
fn machine_reading(sys: &sysinfo::System) -> (reading: CoreReading)
    ensures
        reading@ == measured_machine(*sys),
{
    let cpu = sys.global_cpu_info();
    CoreReading {
        brand: cpu.brand().to_string(),
        vendor: cpu.vendor_id().to_string(),
        frequency: cpu.frequency(),
        usage_bits: cpu.cpu_usage().to_bits(),
    }
}

/// The table that a `System` holds.
pub open spec fn measured_table(sys: sysinfo::System) -> CpuTableView {
    CpuTableView { machine: measured_machine(sys), cores: measured_cores(sys) }
}

/// Reads the whole table out of a measured `System`, once: the machine, and
/// every core at the position that it has there.
pub fn snapshot_cpus(sys: &sysinfo::System) -> (table: CpuTable)
    ensures
        table@ == measured_table(*sys),
{
    let count = core_count(sys);
    let mut cores: Vec<CoreReading> = Vec::new();
    let mut index: usize = 0;
    while index < count
        invariant
            count == measured_cores(*sys).len(),
            index <= count,
            cores@.len() == index,
            forall|i: int| 0 <= i < index ==> (#[trigger] cores@[i])@ == measured_cores(*sys)[i],
        decreases count - index,
    {
        cores.push(core_at(sys, index));
        index = index + 1;
    }
    let table = CpuTable { machine: machine_reading(sys), cores };
    assert(table@.cores =~= measured_cores(*sys));
    table
}

/// Answers a request for a processor from a measured `System`: the table is
/// read once, then indexed.
pub fn cpu_record(sys: &sysinfo::System, core_index: Option<usize>) -> (res: Result<
    CpuRecord,
    ApiError,
>)
    ensures
        cpu_response_view(res) == cpu_response(measured_table(*sys), core_index),
        res is Ok <==> (core_index matches Some(index) ==> index < measured_cores(*sys).len()),
        res matches Err(err) ==> err == ApiError::NotFound,
{
    let table = snapshot_cpus(sys);
    build_cpu(&table, core_index)
}

} // verus!
