use std::sync::Mutex;
use taple_sdk::error::{NotificationError, TapleError};
use taple_sdk::lifecycle::LifecycleCell;

#[test]
fn first_take_gets_the_engine() {
    let mut cell = LifecycleCell::new(42u32);
    assert!(cell.is_present());
    assert_eq!(cell.take(), Ok(42));
    assert!(!cell.is_present());
}

#[test]
fn every_later_take_is_unavailable() {
    let mut cell = LifecycleCell::new("engine".to_string());
    assert!(cell.take().is_ok());
    for _ in 0..5 {
        assert_eq!(cell.take(), Err(TapleError::NodeUnavailable));
    }
}

#[test]
fn racing_takes_have_one_winner() {
    let cell = Mutex::new(LifecycleCell::new(7u64));
    let n = 16;
    let results: Vec<Result<u64, TapleError>> =
        (0..n).map(|_| cell.lock().unwrap().take()).collect();
    let winners = results.iter().filter(|r| r.is_ok()).count();
    assert_eq!(winners, 1);
    assert_eq!(results[0], Ok(7));
    assert_eq!(
        results.iter().filter(|r| **r == Err(TapleError::NodeUnavailable)).count(),
        n - 1
    );
}

#[test]
fn receive_borrows_without_taking() {
    let mut cell = LifecycleCell::new(vec![1u8]);
    {
        let h = cell.handle_mut().unwrap();
        h.push(2);
    }
    assert!(cell.is_present());
    assert_eq!(cell.take(), Ok(vec![1, 2]));
    assert!(matches!(cell.handle_mut(), Err(NotificationError::NoConnection)));
}
