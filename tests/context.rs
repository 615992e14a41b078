use wdf_umdf::{
    Access, ContextSlot, ContextTypeRegistry, DriverGlobals, EntryPoint, FunctionTable, NtStatus,
    ObjectContexts, ObjectHandle, WdfError, WdfObjectGetTypedContextWorker, STATUS_NOT_FOUND,
};

#[derive(Debug, Clone, PartialEq)]
struct Counter {
    n: i64,
}

const COUNTER_KEY: u64 = 1;
const WORKER: EntryPoint = EntryPoint { index: 0, name: "WdfObjectGetTypedContextWorker" };

fn lookup_by_handle(_g: DriverGlobals, (h, _t): (ObjectHandle, u64)) -> usize {
    h.0 as usize
}

type Worker = fn(DriverGlobals, (ObjectHandle, u64)) -> usize;

fn worker_table() -> FunctionTable<Worker> {
    FunctionTable::new(vec![Some(lookup_by_handle as Worker)], DriverGlobals(3))
}

fn counter_store() -> (ObjectContexts<Counter>, ObjectHandle) {
    let mut registry = ContextTypeRegistry::new();
    let info = registry.register(COUNTER_KEY, "Counter", 8);
    let mut store = ObjectContexts::new(info);
    let at = store.add_object();
    (store, ObjectHandle(at as u64))
}

#[test]
fn one_descriptor_per_type() {
    let mut registry = ContextTypeRegistry::new();
    let first = registry.register(10, "Counter", 8);
    let other = registry.register(20, "Other", 8);
    let again = registry.register(10, "Counter", 8);
    assert_eq!(first, again);
    assert_eq!(registry.lookup(10), Some(first));
    assert_eq!(registry.lookup(20), Some(other));
    assert_ne!(first.unique_type, other.unique_type);
    assert_eq!(registry.lookup(30), None);
}

#[test]
fn equal_fields_do_not_make_equal_identities() {
    let mut registry = ContextTypeRegistry::new();
    let a = registry.register(1, "Same", 4);
    let b = registry.register(2, "Same", 4);
    assert_ne!(a.unique_type, b.unique_type);
}

#[test]
fn counter_scenario() {
    let table = worker_table();
    let (mut store, obj) = counter_store();
    let loc = store.locate(&table, WORKER, obj);
    assert_eq!(store.init(loc, Counter { n: 5 }), Ok(()));

    let shared = match store.get(store.locate(&table, WORKER, obj)) {
        Access::Granted(a) => a,
        other => panic!("{:?}", other),
    };
    assert_eq!(store.read(&shared).n, 5);
    store.release_shared(shared);

    let excl = match store.get_mut(store.locate(&table, WORKER, obj)) {
        Access::Granted(a) => a,
        other => panic!("{:?}", other),
    };
    let n = store.read_exclusive(&excl).n;
    assert_eq!(n, 5);
    store.write(&excl, Counter { n: n + 1 });
    store.release_exclusive(excl);

    let shared = match store.get(store.locate(&table, WORKER, obj)) {
        Access::Granted(a) => a,
        other => panic!("{:?}", other),
    };
    assert_eq!(store.read(&shared).n, 6);
    store.release_shared(shared);

    assert_eq!(store.drop(store.locate(&table, WORKER, obj)), Ok(()));
    assert!(matches!(store.get(store.locate(&table, WORKER, obj)), Access::NoValue));
}

#[test]
fn init_then_get_round_trip() {
    let mut slot = ContextSlot::new();
    slot.init(Counter { n: -3 });
    let g = slot.try_get().unwrap();
    assert_eq!(slot.read(&g), &Counter { n: -3 });
    slot.release_shared(g);
}

#[test]
fn drop_then_get_has_no_value() {
    let mut slot = ContextSlot::new();
    slot.init(Counter { n: 1 });
    slot.drop();
    assert!(!slot.is_initialized());
    assert!(slot.try_get().is_none());
    assert!(slot.try_get_mut().is_none());
    assert!(matches!(slot.get(), Access::NoValue));
    assert!(matches!(slot.get_mut(), Access::NoValue));
}

#[test]
fn fresh_slot_has_no_value() {
    let mut slot: ContextSlot<Counter> = ContextSlot::new();
    assert!(matches!(slot.get(), Access::NoValue));
}

#[test]
fn shared_accesses_coexist_and_exclude_writers() {
    let mut slot = ContextSlot::new();
    slot.init(Counter { n: 0 });
    let mut guards = Vec::new();
    for _ in 0..4 {
        match slot.get() {
            Access::Granted(g) => guards.push(g),
            other => panic!("{:?}", other),
        }
    }
    assert!(slot.try_get_mut().is_none());
    assert!(matches!(slot.get_mut(), Access::Wait));
    while let Some(g) = guards.pop() {
        assert!(slot.try_get_mut().is_none());
        slot.release_shared(g);
    }
    let w = match slot.get_mut() {
        Access::Granted(w) => w,
        other => panic!("{:?}", other),
    };
    assert!(slot.try_get().is_none());
    assert!(matches!(slot.get(), Access::Wait));
    assert!(matches!(slot.get_mut(), Access::Wait));
    slot.write(&w, Counter { n: 9 });
    slot.release_exclusive(w);
    let g = slot.try_get().unwrap();
    assert_eq!(slot.read(&g).n, 9);
    slot.release_shared(g);
}

#[test]
fn second_init_overwrites() {
    let mut slot = ContextSlot::new();
    slot.init(Counter { n: 1 });
    slot.init(Counter { n: 2 });
    let g = slot.try_get().unwrap();
    assert_eq!(slot.read(&g).n, 2);
    slot.release_shared(g);
}

#[test]
fn lookup_failure_is_surfaced_unchanged() {
    let table: FunctionTable<Worker> = FunctionTable::new(vec![None], DriverGlobals(3));
    let (mut store, obj) = counter_store();
    let loc = store.locate(&table, WORKER, obj);
    assert_eq!(loc, Err(WdfError::WdfFunctionNotAvailable("WdfObjectGetTypedContextWorker")));
    assert_eq!(
        store.init(loc, Counter { n: 1 }),
        Err(WdfError::WdfFunctionNotAvailable("WdfObjectGetTypedContextWorker"))
    );
    assert!(store.try_get(loc).is_none());
    assert!(matches!(store.get_mut(loc), Access::NoValue));
}

#[test]
fn location_outside_storage_is_not_found() {
    let table = worker_table();
    let (mut store, _obj) = counter_store();
    let loc = store.locate(&table, WORKER, ObjectHandle(5));
    assert_eq!(loc, Err(WdfError::CallFailed(NtStatus(STATUS_NOT_FOUND))));
    assert_eq!(store.resolve(Ok(0)), Ok(0));
    assert_eq!(store.drop(loc), Err(WdfError::CallFailed(NtStatus(STATUS_NOT_FOUND))));
}

#[test]
fn worker_passes_handle_and_identity() {
    let f = |g: DriverGlobals, (h, t): (ObjectHandle, u64)| (g.0 * 100 + h.0 * 10 + t) as usize;
    let table = FunctionTable::new(vec![Some(f)], DriverGlobals(4));
    let mut registry = ContextTypeRegistry::new();
    registry.register(5, "A", 1);
    let info = registry.register(6, "B", 1);
    assert_eq!(WdfObjectGetTypedContextWorker(&table, WORKER, ObjectHandle(2), &info), Ok(421));
}

#[test]
fn objects_have_separate_contexts() {
    let table = worker_table();
    let (mut store, a) = counter_store();
    let b = ObjectHandle(store.add_object() as u64);
    store.init(store.locate(&table, WORKER, a), Counter { n: 1 }).unwrap();
    store.init(store.locate(&table, WORKER, b), Counter { n: 2 }).unwrap();
    let ga = store.try_get_mut(store.locate(&table, WORKER, a)).unwrap();
    let gb = store.try_get(store.locate(&table, WORKER, b)).unwrap();
    assert_eq!(store.read(&gb).n, 2);
    store.release_exclusive(ga);
    store.release_shared(gb);
    assert_eq!(store.type_info().name, "Counter");
}
