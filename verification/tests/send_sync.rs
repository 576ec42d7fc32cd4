use gbm::{BufferObject, Device, Registry, Surface};

fn is_send<T: Send>() {}

fn is_sync<T: Sync>() {}

#[test]
fn unmapped_bo_is_send() {
    is_send::<BufferObject<()>>();
}

#[test]
fn unmapped_bo_is_sync() {
    is_sync::<BufferObject<()>>();
}

#[test]
fn handles_and_registry_are_send_and_sync() {
    is_send::<Device<i32>>();
    is_sync::<Device<i32>>();
    is_send::<Surface<i32>>();
    is_sync::<Surface<i32>>();
    is_send::<Registry<String>>();
    is_sync::<Registry<String>>();
}
