use mod_queue::service::{DaemonFlag, HandleSlot};

#[test]
fn starting_twice_spawns_once() {
    let mut f = DaemonFlag::new();
    assert!(!f.is_running());
    assert!(f.try_start());
    assert!(f.is_running());
    assert!(!f.try_start());
    assert!(f.is_running());
}

#[test]
fn handle_slot_lifecycle() {
    let mut slot: HandleSlot<u32> = HandleSlot::new();
    assert!(!slot.has_handle());
    assert_eq!(slot.get(), None);
    assert_eq!(slot.install(Err::<u32, String>("no client".to_string())), Err("no client".to_string()));
    assert!(!slot.has_handle());
    assert_eq!(slot.install(Ok::<u32, String>(17)), Ok(()));
    assert!(slot.has_handle());
    assert_eq!(slot.get(), Some(&17));
    assert_eq!(slot.take(), Some(17));
    assert!(!slot.has_handle());
    assert_eq!(slot.take(), None);
}
