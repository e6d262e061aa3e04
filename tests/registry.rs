use std::sync::{Arc, Mutex};

use rmi::error::{RMIError, RMIResult};
use rmi::registry::Registry;
use rmi::skeleton::RemoteObject;

struct TestObject {}

impl RemoteObject for TestObject {
    fn run(&self, _method_name: &str, _args: Vec<u8>) -> RMIResult<Vec<u8>> {
        Ok(Vec::new())
    }
}

#[test]
fn populate_clear() {
    let reg = Arc::new(Mutex::new(Registry::new()));
    let jobs = 10;
    let per_thread = 42;

    // REGISTER PHASE: the callers take turns on the lock.
    let mut ids_of: Vec<Vec<u16>> = vec![Vec::new(); jobs];
    for _n in 0..per_thread {
        for thread in 0..jobs {
            let r = Arc::clone(&reg);
            let object = TestObject {};
            let mut guard = r.lock().unwrap();
            ids_of[thread].push(guard.register(object));
            drop(guard);
        }
    }
    let num_objects = reg.lock().unwrap().list().unwrap().len();
    assert_eq!(num_objects, jobs * per_thread);

    // DEREGISTER PHASE
    for thread in 0..jobs {
        let r = Arc::clone(&reg);
        for id in ids_of[thread].iter() {
            let mut guard = r.lock().unwrap();
            guard.deregister(*id).expect("should still have this process");
            drop(guard);
        }
    }
    let names = reg.lock().unwrap().list();
    assert_eq!(names.err(), Option::Some(RMIError::EmptyRegistry()));
}

#[test]
fn interleaved_registrations_get_distinct_ids() {
    let reg = Arc::new(Mutex::new(Registry::new()));
    let callers: Vec<Arc<Mutex<Registry<TestObject>>>> = (0..8).map(|_| Arc::clone(&reg)).collect();
    let mut ids: Vec<u16> = Vec::new();
    for _ in 0..50 {
        for c in callers.iter() {
            ids.push(c.lock().unwrap().register(TestObject {}));
        }
    }
    ids.sort();
    ids.dedup();
    assert_eq!(ids.len(), 400);
    assert_eq!(ids[0], 1);
    assert_eq!(ids[399], 400);
}

#[test]
fn ids_start_at_one_and_are_not_reused() {
    let mut reg = Registry::new();
    assert_eq!(reg.register(TestObject {}), 1);
    assert_eq!(reg.register(TestObject {}), 2);
    assert!(reg.deregister(2).is_ok());
    assert_eq!(reg.register(TestObject {}), 3);
    assert_eq!(reg.count(), 2);
    assert_eq!(reg.list().unwrap(), vec![1, 3]);
}

#[test]
fn churn_leaves_nothing() {
    let mut reg = Registry::new();
    let ids: Vec<u16> = (0..25).map(|_| reg.register(TestObject {})).collect();
    for id in ids.iter().rev() {
        assert!(reg.deregister(*id).is_ok());
    }
    assert_eq!(reg.count(), 0);
    for id in ids {
        assert!(matches!(reg.get(id), Err(RMIError::ObjectNotFound(i)) if i == id));
    }
}

#[test]
fn missing_ids_are_reported() {
    let mut reg: Registry<TestObject> = Registry::new();
    assert_eq!(reg.deregister(5), Err(RMIError::ObjectNotFound(5)));
    assert!(matches!(reg.get(0), Err(RMIError::ObjectNotFound(0))));
    assert_eq!(reg.list().err(), Some(RMIError::EmptyRegistry()));
    assert_eq!(reg.count(), 0);
}

#[test]
fn id_space_runs_out_after_the_largest_id() {
    let mut reg = Registry::new();
    let mut last = 0u16;
    while reg.has_free_id() {
        last = reg.register(());
    }
    assert_eq!(last, u16::MAX);
    assert_eq!(reg.count(), 65535);
}
