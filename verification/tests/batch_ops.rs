//! Tests of the batch operations on the registry surface.

use resource_tuples::registry::{Registry, ResourceSpec};
use resource_tuples::tuples::{InitResources, InsertResources};

fn spec(type_id: u64, value: u64) -> ResourceSpec {
    ResourceSpec { type_id, value }
}

#[test]
fn init_inserts_absent_and_skips_present() {
    let mut reg = Registry::new();
    reg.insert_resource(1, 5);
    let handles = reg.init_resources((spec(1, 99), spec(2, 20)));
    // the present type keeps its value; the absent one gets its default
    assert_eq!(reg.resource(1), Some(5));
    assert_eq!(reg.resource(2), Some(20));
    // one handle per element, positionally aligned
    assert_eq!(handles.len(), 2);
    assert_eq!(Some(handles[0]), reg.resource_handle(1));
    assert_eq!(Some(handles[1]), reg.resource_handle(2));
    assert_eq!(reg.len(), 2);
}

#[test]
fn insert_overwrites_prior_values() {
    let mut reg = Registry::new();
    reg.insert_resource(1, 5);
    reg.insert_resources((spec(1, 7), spec(2, 8)));
    assert_eq!(reg.resource(1), Some(7));
    assert_eq!(reg.resource(2), Some(8));
    assert_eq!(reg.len(), 2);
}

#[test]
fn init_twice_is_idempotent() {
    let mut reg = Registry::new();
    let first = reg.init_resources((spec(4, 40), spec(5, 50), spec(6, 60)));
    let log_after_first = reg.log().clone();
    let second = reg.init_resources((spec(4, 40), spec(5, 50), spec(6, 60)));
    // identical registry contents and identical identifier handles
    assert_eq!(first, second);
    assert_eq!(reg.resource(4), Some(40));
    assert_eq!(reg.resource(5), Some(50));
    assert_eq!(reg.resource(6), Some(60));
    assert_eq!(reg.len(), 3);
    // the second call was a no-op per element: nothing more was written
    assert_eq!(reg.log(), &log_after_first);
}

#[test]
fn init_constructs_in_tuple_order() {
    let mut reg = Registry::new();
    let _ = reg.init_resources((spec(10, 1), spec(20, 2)));
    // side effects occur in the order first element, then second
    assert_eq!(reg.log(), &vec![10, 20]);
}

#[test]
fn insert_writes_in_tuple_order() {
    let mut reg = Registry::new();
    reg.insert_resources((spec(20, 2), spec(10, 1)));
    assert_eq!(reg.log(), &vec![20, 10]);
}

#[test]
fn init_returns_fresh_handles_in_order() {
    let mut reg = Registry::new();
    let handles = reg.init_resources((spec(7, 70), spec(8, 80)));
    assert_eq!(handles, vec![0, 1]);
    let more = reg.init_resources((spec(9, 90), spec(7, 0)));
    // a new type gets the next handle; a present one keeps its old handle
    assert_eq!(more, vec![2, 0]);
}

#[test]
fn single_element_group() {
    let mut reg = Registry::new();
    let handles = reg.init_resources((spec(1, 11),));
    assert_eq!(handles, vec![0]);
    reg.insert_resources((spec(1, 12),));
    assert_eq!(reg.resource(1), Some(12));
}

#[test]
fn largest_supported_arity() {
    let mut reg = Registry::new();
    let group = (
        spec(1, 101),
        spec(2, 102),
        spec(3, 103),
        spec(4, 104),
        spec(5, 105),
        spec(6, 106),
        spec(7, 107),
        spec(8, 108),
        spec(9, 109),
        spec(10, 110),
        spec(11, 111),
        spec(12, 112),
        spec(13, 113),
        spec(14, 114),
        spec(15, 115),
        spec(16, 116),
    );
    let handles = reg.init_resources(group);
    assert_eq!(handles, (0..16).collect::<Vec<usize>>());
    assert_eq!(reg.len(), 16);
    for t in 1..=16u64 {
        assert_eq!(reg.resource(t), Some(100 + t));
    }
}

#[test]
fn getters_reflect_contents() {
    let mut reg = Registry::new();
    assert_eq!(reg.len(), 0);
    assert!(!reg.contains_resource(1));
    assert_eq!(reg.resource(1), None);
    assert_eq!(reg.resource_handle(1), None);
    reg.insert_resource(1, 10);
    assert!(reg.contains_resource(1));
    assert_eq!(reg.resource_handle(1), Some(0));
    let h = reg.init_resource(2, 20);
    assert_eq!(h, 1);
    let again = reg.init_resource(2, 99);
    assert_eq!(again, 1);
    assert_eq!(reg.resource(2), Some(20));
}
