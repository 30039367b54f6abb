//! Resource ceilings for one invocation and the check of a measurement
//! against them.

use vstd::prelude::*;

verus! {

/// The most one invocation may cost in each resource.
#[derive(Debug, Clone, Copy, PartialEq, Eq, Structural)]
pub struct ResourceBaseline {
    pub max_instructions: i64,
    pub max_mem_bytes: i64,
    pub max_read_entries: u32,
    pub max_write_entries: u32,
    pub max_read_bytes: u32,
    pub max_write_bytes: u32,
    pub max_fee_total: i64,
}

/// What one invocation was measured to cost.
#[derive(Debug, Clone, Copy, PartialEq, Eq, Structural)]
pub struct MeasuredResources {
    pub instructions: i64,
    pub mem_bytes: i64,
    pub read_entries: u32,
    pub write_entries: u32,
    pub read_bytes: u32,
    pub write_bytes: u32,
}

/// The resources a baseline limits, in the order they are checked.
#[derive(Debug, Clone, Copy, PartialEq, Eq, Structural)]
pub enum Resource {
    Instructions,
    Memory,
    ReadEntries,
    WriteEntries,
    ReadBytes,
    WriteBytes,
    Fee,
}

/// A resource whose measurement exceeded its ceiling.
#[derive(Debug, Clone, Copy, PartialEq, Eq, Structural)]
pub struct Regression {
    pub resource: Resource,
    pub measured: i64,
    pub ceiling: i64,
}

/// The first resource, in checking order, whose measurement exceeds its
/// ceiling; `None` when the invocation stays within every ceiling.
pub open spec fn first_regression(r: MeasuredResources, fee_total: i64, b: ResourceBaseline) -> Option<Regression> {
    if r.instructions > b.max_instructions {
        Some(Regression { resource: Resource::Instructions, measured: r.instructions, ceiling: b.max_instructions })
    } else if r.mem_bytes > b.max_mem_bytes {
        Some(Regression { resource: Resource::Memory, measured: r.mem_bytes, ceiling: b.max_mem_bytes })
    } else if r.read_entries > b.max_read_entries {
        Some(Regression { resource: Resource::ReadEntries, measured: r.read_entries as i64, ceiling: b.max_read_entries as i64 })
    } else if r.write_entries > b.max_write_entries {
        Some(Regression { resource: Resource::WriteEntries, measured: r.write_entries as i64, ceiling: b.max_write_entries as i64 })
    } else if r.read_bytes > b.max_read_bytes {
        Some(Regression { resource: Resource::ReadBytes, measured: r.read_bytes as i64, ceiling: b.max_read_bytes as i64 })
    } else if r.write_bytes > b.max_write_bytes {
        Some(Regression { resource: Resource::WriteBytes, measured: r.write_bytes as i64, ceiling: b.max_write_bytes as i64 })
    } else if fee_total > b.max_fee_total {
        Some(Regression { resource: Resource::Fee, measured: fee_total, ceiling: b.max_fee_total })
    } else {
        None
    }
}

/// Checks a measured invocation against a baseline and reports the first
/// resource that regressed, if any.
pub fn check_within_baseline(resources: MeasuredResources, fee_total: i64, baseline: ResourceBaseline) -> (r: Option<Regression>)
    ensures
        r == first_regression(resources, fee_total, baseline),
        r is None <==> within_baseline(resources, fee_total, baseline),
{
    if resources.instructions > baseline.max_instructions {
        Some(Regression { resource: Resource::Instructions, measured: resources.instructions, ceiling: baseline.max_instructions })
    } else if resources.mem_bytes > baseline.max_mem_bytes {
        Some(Regression { resource: Resource::Memory, measured: resources.mem_bytes, ceiling: baseline.max_mem_bytes })
    } else if resources.read_entries > baseline.max_read_entries {
        Some(Regression { resource: Resource::ReadEntries, measured: resources.read_entries as i64, ceiling: baseline.max_read_entries as i64 })
    } else if resources.write_entries > baseline.max_write_entries {
        Some(Regression { resource: Resource::WriteEntries, measured: resources.write_entries as i64, ceiling: baseline.max_write_entries as i64 })
    } else if resources.read_bytes > baseline.max_read_bytes {
        Some(Regression { resource: Resource::ReadBytes, measured: resources.read_bytes as i64, ceiling: baseline.max_read_bytes as i64 })
    } else if resources.write_bytes > baseline.max_write_bytes {
        Some(Regression { resource: Resource::WriteBytes, measured: resources.write_bytes as i64, ceiling: baseline.max_write_bytes as i64 })
    } else if fee_total > baseline.max_fee_total {
        Some(Regression { resource: Resource::Fee, measured: fee_total, ceiling: baseline.max_fee_total })
    } else {
        None
    }
}

/// Whether every measurement and the fee stay within their ceilings.
pub open spec fn within_baseline(r: MeasuredResources, fee_total: i64, b: ResourceBaseline) -> bool {
    &&& r.instructions <= b.max_instructions
    &&& r.mem_bytes <= b.max_mem_bytes
    &&& r.read_entries <= b.max_read_entries
    &&& r.write_entries <= b.max_write_entries
    &&& r.read_bytes <= b.max_read_bytes
    &&& r.write_bytes <= b.max_write_bytes
    &&& fee_total <= b.max_fee_total
}

/// Asserts that the invocation named `label` stayed within `baseline`: a
/// caller must show every measurement and the fee within its ceiling (see
/// `within_baseline`); a regressed invocation is refused.
/// `check_within_baseline` names the regression instead.
pub fn assert_within_baseline(label: &str, resources: MeasuredResources, fee_total: i64, baseline: ResourceBaseline)
    requires
        within_baseline(resources, fee_total, baseline),
{
}

/// Asserts that the last invocation, as measured, stayed within `baseline`
/// (see `assert_within_baseline`).
pub fn assert_baseline(label: &str, baseline: ResourceBaseline, resources: MeasuredResources, fee_total: i64)
    requires
        within_baseline(resources, fee_total, baseline),
{
    assert_within_baseline(label, resources, fee_total, baseline);
}

} // verus!
