//! Tests of the application and deferred-command surfaces.

use resource_tuples::application::App;
use resource_tuples::commands::{CommandQueue, InitResourcesCommand, InsertResourcesCommand};
use resource_tuples::registry::{Registry, ResourceSpec};
use resource_tuples::tuples::{InitResources, InsertResources};

fn spec(type_id: u64, value: u64) -> ResourceSpec {
    ResourceSpec { type_id, value }
}

#[test]
fn app_calls_chain() {
    let app = App::new()
        .insert_resources((spec(1, 100), spec(2, 200)))
        .init_resources((spec(3, 0), spec(4, 0)));
    assert_eq!(app.registry.resource(1), Some(100));
    assert_eq!(app.registry.resource(2), Some(200));
    assert_eq!(app.registry.resource(3), Some(0));
    assert_eq!(app.registry.resource(4), Some(0));
    assert_eq!(app.registry.len(), 4);
}

#[test]
fn scenario_insert_then_init() {
    // batch-insert of two given values on an empty registry
    let mut reg = Registry::new();
    (spec(1, 100), spec(2, 200)).insert_resources(&mut reg);
    assert_eq!(reg.len(), 2);
    assert_eq!(reg.resource(1), Some(100));
    assert_eq!(reg.resource(2), Some(200));
    // a subsequent batch-init of two absent types adds their default values
    // and returns two identifiers, in that order
    let handles = (spec(3, 0), spec(4, 0)).init_resources(&mut reg);
    assert_eq!(handles, vec![2, 3]);
    assert_eq!(reg.len(), 4);
    assert_eq!(reg.resource(3), Some(0));
    assert_eq!(reg.resource(4), Some(0));
}

#[test]
fn queued_commands_are_deferred() {
    let mut reg = Registry::new();
    let mut queue = CommandQueue::new();
    queue.insert_resources((spec(1, 1), spec(2, 2)));
    queue.init_resources((spec(3, 3),));
    // nothing is applied before the queue is drained
    assert_eq!(queue.len(), 2);
    assert_eq!(reg.len(), 0);
    assert!(!reg.contains_resource(1));
    queue.apply(&mut reg);
    assert_eq!(queue.len(), 0);
    assert_eq!(reg.resource(1), Some(1));
    assert_eq!(reg.resource(2), Some(2));
    assert_eq!(reg.resource(3), Some(3));
}

#[test]
fn queued_commands_apply_in_enqueue_order() {
    let mut reg = Registry::new();
    let mut queue = CommandQueue::new();
    // two batches writing the same type: the later enqueued one must win
    queue.insert_resources((spec(1, 10),));
    queue.insert_resources((spec(1, 20),));
    // batch-init after them must then see the type as present
    queue.init_resources((spec(1, 99),));
    queue.apply(&mut reg);
    assert_eq!(reg.resource(1), Some(20));
    assert_eq!(reg.log(), &vec![1, 1]);
}

#[test]
fn commands_written_directly() {
    let mut reg = Registry::new();
    let insert = InsertResourcesCommand::new((spec(5, 50),));
    insert.write(&mut reg);
    assert_eq!(reg.resource(5), Some(50));
    let init = InitResourcesCommand::new((spec(5, 99), spec(6, 60)));
    init.write(&mut reg);
    assert_eq!(reg.resource(5), Some(50));
    assert_eq!(reg.resource(6), Some(60));
}
