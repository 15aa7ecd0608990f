use greeting_bot::registry::{Capabilities, RegistryError, Slot};

#[test]
fn an_empty_slot_cannot_be_read() {
    let slot: Slot<u32> = Slot::new();
    assert!(!slot.is_bound());
    assert_eq!(slot.get(), Err(RegistryError::Unbound));
}

#[test]
fn a_slot_is_filled_once() {
    let mut slot = Slot::new();
    assert_eq!(slot.bind("first"), Ok(()));
    assert!(slot.is_bound());
    assert_eq!(slot.get(), Ok(&"first"));
    assert_eq!(slot.bind("second"), Err(RegistryError::AlreadyBound));
    assert_eq!(slot.get(), Ok(&"first"));
}

#[test]
fn a_registry_is_complete_when_all_four_are_bound() {
    let mut registry: Capabilities<u8, u16, u32, u64> = Capabilities::new();
    assert!(!registry.is_complete());
    assert_eq!(registry.platform.bind(1), Ok(()));
    assert_eq!(registry.database.bind(2), Ok(()));
    assert_eq!(registry.ai.bind(3), Ok(()));
    assert!(!registry.is_complete());
    assert_eq!(registry.weather.get(), Err(RegistryError::Unbound));
    assert_eq!(registry.weather.bind(4), Ok(()));
    assert!(registry.is_complete());
    assert_eq!(registry.platform.bind(9), Err(RegistryError::AlreadyBound));
    assert_eq!(registry.platform.get(), Ok(&1));
    assert_eq!(registry.database.get(), Ok(&2));
    assert_eq!(registry.ai.get(), Ok(&3));
    assert_eq!(registry.weather.get(), Ok(&4));
}
