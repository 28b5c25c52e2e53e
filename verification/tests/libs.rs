use spe::libs::{Mutex, OnceLock, OnceLockState};

#[test]
fn try_lock_provides_mutable_access() {
    let mut m = Mutex::new(0u32);
    let result = m.try_lock(|v| {
        *v = 42;
    });
    assert!(result.is_ok());
    assert_eq!(m.try_lock(|v| *v), Ok(42));
}

#[test]
fn try_lock_returns_closure_result() {
    let mut m = Mutex::new(10u32);
    let result = m.try_lock(|v| *v + 5);
    assert_eq!(result, Ok(15));
}

#[test]
fn lock_is_released_after_closure() {
    let mut m = Mutex::new(1u32);
    m.try_lock(|v| *v = 2).unwrap();
    // Lock should be free again.
    assert_eq!(m.try_lock(|v| *v), Ok(2));
}

#[test]
fn once_lock_starts_uninitialized() {
    let cell: OnceLock<u32> = OnceLock::new();
    assert!(matches!(cell.try_get(), Err(OnceLockState::Uninitialized)));
}

#[test]
fn once_lock_set_then_get() {
    let mut cell = OnceLock::new();
    assert_eq!(cell.try_set(7u32), Ok(()));
    assert_eq!(cell.try_get(), Ok(&7));
}

#[test]
fn once_lock_is_written_once() {
    let mut cell = OnceLock::new();
    assert_eq!(cell.try_set(String::from("first")), Ok(()));
    assert_eq!(cell.try_set(String::from("second")), Err(String::from("second")));
    assert_eq!(cell.try_get().map(|s| s.as_str()), Ok("first"));
}

#[test]
fn once_lock_first_write_wins_over_a_run() {
    let mut cell = OnceLock::new();
    assert!(matches!(cell.try_get(), Err(OnceLockState::Uninitialized)));
    assert_eq!(cell.try_set(3u8), Ok(()));
    assert_eq!(cell.try_get(), Ok(&3));
    assert_eq!(cell.try_set(4u8), Err(4));
    assert_eq!(cell.try_get(), Ok(&3));
    assert_eq!(cell.try_set(5u8), Err(5));
    assert_eq!(cell.try_get(), Ok(&3));
}
