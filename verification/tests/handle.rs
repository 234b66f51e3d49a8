use std::sync::Mutex;

use vita_gl_helpers::handle::{GpuResource, Handle};

// Mock resource for testing
struct MockResource;

static DELETED_IDS: Mutex<Vec<u32>> = Mutex::new(Vec::new());

impl GpuResource for MockResource {
    type Id = u32;

    fn is_null(id: Self::Id) -> bool {
        id == 0
    }

    fn resource_name() -> &'static str {
        "MockResource"
    }
}

/// What a drop of the handle does: delete the id that `release` hands out.
fn drop_handle(handle: &mut Handle<MockResource>) {
    if let Some(id) = handle.release() {
        DELETED_IDS.lock().unwrap().push(id);
    }
}

#[test]
fn test_handle_creation() {
    let handle = Handle::<MockResource>::from_raw(42);
    assert!(handle.is_valid());
    assert_eq!(handle.id(), Some(42));
}

#[test]
fn test_null_handle() {
    let handle = Handle::<MockResource>::null();
    assert!(handle.is_null());
    assert_eq!(handle.id(), None);
}

#[test]
fn test_into_raw_prevents_deletion() {
    DELETED_IDS.lock().unwrap().clear();

    let handle = Handle::<MockResource>::from_raw(123);
    let raw = handle.into_raw();

    assert_eq!(raw, Some(123));
    assert!(DELETED_IDS.lock().unwrap().is_empty());
}

#[test]
fn handle_from_null_id_is_null() {
    let handle = Handle::<MockResource>::from_raw(0);
    assert!(handle.is_null());
    assert!(!handle.is_valid());
    assert_eq!(handle.into_raw(), None);
}

#[test]
fn handle_id_unwrap_gives_owned_id() {
    let handle = Handle::<MockResource>::from_raw(7);
    assert_eq!(handle.id_unwrap(), 7);
}

#[test]
fn handle_release_hands_out_the_id_once() {
    let mut handle = Handle::<MockResource>::from_raw(9);
    assert_eq!(handle.release(), Some(9));
    assert!(handle.is_null());
    assert_eq!(handle.release(), None);
}

#[test]
fn handle_drop_deletes_exactly_once() {
    let mut handle = Handle::<MockResource>::from_raw(77);
    drop_handle(&mut handle);
    drop_handle(&mut handle);
    let deleted = DELETED_IDS.lock().unwrap();
    assert_eq!(deleted.iter().filter(|&&id| id == 77).count(), 1);
}

#[test]
fn handle_default_is_null() {
    let handle: Handle<MockResource> = Default::default();
    assert!(handle.is_null());
}
