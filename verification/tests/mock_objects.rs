use primer::mock_objects::{classify_quota, LimitTracker, Messenger, QuotaLevel};
use std::cell::RefCell;

// A mock messenger that logs every message it is asked to send.
struct MockMessenger {
    sent_messages: RefCell<Vec<String>>,
}

impl MockMessenger {
    fn new() -> MockMessenger {
        MockMessenger {
            sent_messages: RefCell::new(Vec::new()),
        }
    }
}

impl Messenger for MockMessenger {
    fn send(&self, message: &str) {
        self.sent_messages.borrow_mut().push(String::from(message));
    }
}

#[test]
fn send_an_over_75_percent_warning_message() {
    let mock_messenger = MockMessenger::new();
    let mut limit_tracker = LimitTracker::new(&mock_messenger, 100);

    limit_tracker.set_value(80);

    assert_eq!(
        *mock_messenger.sent_messages.borrow(),
        vec![String::from(
            "Warning: You've used up over 75% of your quota!"
        )]
    );
}

#[test]
fn send_an_over_90_percent_warning_message() {
    let mock_messenger = MockMessenger::new();
    let mut limit_tracker = LimitTracker::new(&mock_messenger, 100);

    limit_tracker.set_value(95);

    assert_eq!(
        *mock_messenger.sent_messages.borrow(),
        vec![String::from(
            "Urgent warning: You've used up over 90% of your quota!"
        )]
    );
}

#[test]
fn send_an_over_100_percent_warning_message() {
    let mock_messenger = MockMessenger::new();
    let mut limit_tracker = LimitTracker::new(&mock_messenger, 100);

    limit_tracker.set_value(105);

    assert_eq!(
        *mock_messenger.sent_messages.borrow(),
        vec![String::from("Error: You are over your quota!")]
    );
}

#[test]
fn low_usage_stays_quiet() {
    let mock_messenger = MockMessenger::new();
    let mut limit_tracker = LimitTracker::new(&mock_messenger, 100);

    limit_tracker.set_value(50);

    assert!(mock_messenger.sent_messages.borrow().is_empty());
}

#[test]
fn quota_levels_at_their_edges() {
    assert_eq!(classify_quota(0, 0), QuotaLevel::Quiet);
    assert_eq!(classify_quota(1, 0), QuotaLevel::OverLimit);
    assert_eq!(classify_quota(74, 100), QuotaLevel::Quiet);
    assert_eq!(classify_quota(75, 100), QuotaLevel::NearLimit);
    assert_eq!(classify_quota(89, 100), QuotaLevel::NearLimit);
    assert_eq!(classify_quota(90, 100), QuotaLevel::VeryNearLimit);
    assert_eq!(classify_quota(99, 100), QuotaLevel::VeryNearLimit);
    assert_eq!(classify_quota(100, 100), QuotaLevel::OverLimit);
}
