use bulb_manager::messages::Message;
use bulb_manager::refreshable::{RefreshableData, FIFTEEN_SECONDS_MILLIS, HOUR_MILLIS};

#[test]
fn stale_immediately_after_creation() {
    let f: RefreshableData<u16> = RefreshableData::empty(FIFTEEN_SECONDS_MILLIS, Message::GetPower, 0);
    assert!(f.needs_refresh(0));
    assert!(f.needs_refresh(100));
    assert!(f.as_ref().is_none());
}

#[test]
fn fresh_after_update_then_stale_once_window_elapses() {
    let mut f: RefreshableData<u16> = RefreshableData::empty(FIFTEEN_SECONDS_MILLIS, Message::GetPower, 0);
    f.update(7, 1_000);
    assert!(!f.needs_refresh(1_000));
    // exactly max_age later: not yet stale
    assert!(!f.needs_refresh(16_000));
    // one millisecond past the window: stale again
    assert!(f.needs_refresh(16_001));
}

#[test]
fn hour_window_for_metadata() {
    let mut f: RefreshableData<String> = RefreshableData::empty(HOUR_MILLIS, Message::GetLabel, 0);
    f.update("desk".to_string(), 0);
    assert!(!f.needs_refresh(3_600_000));
    assert!(f.needs_refresh(3_600_001));
}

#[test]
fn current_reflects_most_recent_update() {
    let mut f: RefreshableData<u16> = RefreshableData::empty(FIFTEEN_SECONDS_MILLIS, Message::GetPower, 0);
    assert_eq!(f.as_ref(), None);
    f.update(1, 10);
    assert_eq!(f.as_ref(), Some(&1));
    f.update(2, 20);
    assert_eq!(f.as_ref(), Some(&2));
    // replaying the same value is a plain overwrite, never a merge
    f.update(2, 30);
    assert_eq!(f.as_ref(), Some(&2));
    assert_eq!(f.last_updated, 30);
}
