use pike::pike_program::PikeProgram;
use pike::storage::{ObjectStorage, PROG_EVENT_EXIT, PROG_EVENT_INIT};

#[test]
fn exit_twice_frees_only_once() {
    let mut slot: ObjectStorage<String> = ObjectStorage::new_uninit();
    slot.attach(String::from("state"));

    let first = slot.on_exit();
    assert_eq!(first, Some(String::from("state")));

    // A double notification from the collector: the second delivery finds
    // the slot empty and is a no-op.
    let second = slot.on_exit();
    assert_eq!(second, None);
    assert!(slot.released);
    assert!(slot.value.is_none());
}

#[test]
fn exit_on_a_never_attached_slot_is_tolerated() {
    let mut slot: ObjectStorage<u64> = ObjectStorage::new_uninit();
    let taken = slot.on_exit();
    assert_eq!(taken, None);
}

#[test]
fn event_callback_drives_the_lifecycle() {
    let mut slot: ObjectStorage<u64> = ObjectStorage::new_uninit();
    PikeProgram::<u64>::prog_event_callback(PROG_EVENT_INIT, &mut slot);
    assert!(slot.value.is_none());
    slot.attach(11);
    assert_eq!(*slot.wrapped(), 11);
    PikeProgram::<u64>::prog_event_callback(PROG_EVENT_EXIT, &mut slot);
    assert!(slot.value.is_none());
    PikeProgram::<u64>::prog_event_callback(PROG_EVENT_EXIT, &mut slot);
    assert!(slot.value.is_none());
    // An unknown event changes nothing.
    PikeProgram::<u64>::prog_event_callback(7, &mut slot);
    assert!(slot.released);
}

#[test]
fn default_init_attaches_the_default_value() {
    let mut slot: ObjectStorage<u64> = ObjectStorage::new_uninit();
    PikeProgram::<u64>::prog_event_callback_default(PROG_EVENT_INIT, &mut slot);
    assert_eq!(*slot.wrapped(), 0);
}
