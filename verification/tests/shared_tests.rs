use piksell::shared::PiksellWrapper;

#[test]
fn wrapper_gives_read_access_to_its_resource() {
    let handle = PiksellWrapper::new(String::from("texture"));
    assert_eq!(handle.as_ref(), "texture");
    assert_eq!(handle.len(), 7);
    assert_eq!(*handle, "texture");
}

#[test]
fn sole_handle_gives_the_resource_back() {
    let handle = PiksellWrapper::new(vec![1u8, 2, 3]);
    assert_eq!(handle.try_unwrap(), Some(vec![1u8, 2, 3]));
}

#[test]
fn shared_handle_gives_nothing_back() {
    let handle = PiksellWrapper::new(42u32);
    let other = handle.clone();
    assert_eq!(handle.try_unwrap(), None);
    assert_eq!(*other, 42);
}

#[test]
fn last_handle_gives_the_resource_back_once_the_others_are_gone() {
    let handle = PiksellWrapper::new(String::from("buffer"));
    let second = handle.clone();
    let third = second.clone();
    drop(second);
    drop(third);
    assert_eq!(handle.try_unwrap(), Some(String::from("buffer")));
}

#[test]
fn clones_observe_the_same_resource() {
    let handle = PiksellWrapper::new(vec![7u32; 4]);
    let other = handle.clone();
    assert!(std::ptr::eq(handle.as_ref(), other.as_ref()));
    assert_eq!(*handle, *other);
}

#[test]
fn handle_that_lost_the_race_leaves_the_resource_to_the_other() {
    let handle = PiksellWrapper::new(5u8);
    let other = handle.clone();
    assert_eq!(handle.try_unwrap(), None);
    assert_eq!(other.try_unwrap(), Some(5));
}

fn crosses_threads<T: Send + Sync>(_: &T) -> bool {
    true
}

#[test]
fn handle_to_a_shareable_resource_is_shareable() {
    let handle = PiksellWrapper::new(vec![1u8, 2, 3]);
    assert!(crosses_threads(&handle));
    assert!(crosses_threads(&handle.clone()));
}

#[test]
fn handle_borrows_through_as_ref() {
    let handle = PiksellWrapper::new(12u64);
    let borrowed: &u64 = handle.as_ref();
    assert_eq!(*borrowed, 12);
}

#[test]
fn recovered_resource_is_the_one_that_came_out() {
    let outcome: Result<u8, std::sync::Arc<u8>> = Ok(5);
    assert_eq!(PiksellWrapper::recovered(outcome), Some(5));
}

#[test]
fn nothing_is_recovered_while_handles_are_left() {
    let outcome: Result<u8, std::sync::Arc<u8>> = Err(std::sync::Arc::new(5));
    assert_eq!(PiksellWrapper::recovered(outcome), None);
}
