//! Holding measured invocations to resource ceilings.

use escrow::budget::{
    assert_baseline, assert_within_baseline, check_within_baseline, MeasuredResources, Regression, Resource,
    ResourceBaseline,
};

fn baseline() -> ResourceBaseline {
    ResourceBaseline {
        max_instructions: 1_000,
        max_mem_bytes: 2_000,
        max_read_entries: 3,
        max_write_entries: 2,
        max_read_bytes: 1_536,
        max_write_bytes: 0,
        max_fee_total: 500,
    }
}

fn quiet() -> MeasuredResources {
    MeasuredResources {
        instructions: 0,
        mem_bytes: 0,
        read_entries: 0,
        write_entries: 0,
        read_bytes: 0,
        write_bytes: 0,
    }
}

#[test]
fn measurements_at_their_ceilings_pass() {
    let r = MeasuredResources {
        instructions: 1_000,
        mem_bytes: 2_000,
        read_entries: 3,
        write_entries: 2,
        read_bytes: 1_536,
        write_bytes: 0,
    };
    assert_eq!(check_within_baseline(r, 500, baseline()), None);
    assert_within_baseline("at ceiling", r, 500, baseline());
    assert_baseline("at ceiling", baseline(), r, 500);
}

#[test]
fn write_bytes_are_held_to_their_own_ceiling() {
    let r = MeasuredResources { write_bytes: 1, ..quiet() };
    assert_eq!(
        check_within_baseline(r, 0, baseline()),
        Some(Regression { resource: Resource::WriteBytes, measured: 1, ceiling: 0 })
    );
}

#[test]
fn first_regression_in_checking_order_is_named() {
    let r = MeasuredResources { mem_bytes: 2_001, read_entries: 4, ..quiet() };
    assert_eq!(
        check_within_baseline(r, 501, baseline()),
        Some(Regression { resource: Resource::Memory, measured: 2_001, ceiling: 2_000 })
    );
    assert_eq!(
        check_within_baseline(quiet(), 501, baseline()),
        Some(Regression { resource: Resource::Fee, measured: 501, ceiling: 500 })
    );
}
