use rust_basics::smart_pointers::{
    warning_for, BoxList, CustomSmartPointer, LimitTracker, Messenger, MyBox, QuotaWarning,
    RcList,
};
use std::cell::RefCell;
use std::rc::Rc;

struct MockMessenger {
    sent_messages: RefCell<Vec<String>>,
}

impl MockMessenger {
    fn new() -> MockMessenger {
        MockMessenger {
            sent_messages: RefCell::new(vec![]),
        }
    }
}

impl Messenger for MockMessenger {
    fn send(&self, msg: &str) {
        self.sent_messages.borrow_mut().push(String::from(msg));
    }
}

#[test]
fn it_sends_an_over_75_percent_warning_message() {
    let mock_messenger = MockMessenger::new();

    let mut limit_tracker = LimitTracker::new(&mock_messenger, 100);

    limit_tracker.set_value(80);

    assert_eq!(mock_messenger.sent_messages.borrow().len(), 1);
}

#[test]
fn tracker_sends_the_matching_message() {
    let mock_messenger = MockMessenger::new();
    let mut limit_tracker = LimitTracker::new(&mock_messenger, 100);

    assert_eq!(limit_tracker.set_value(50), None);
    assert_eq!(limit_tracker.set_value(75), Some(QuotaWarning::Approaching));
    assert_eq!(limit_tracker.set_value(95), Some(QuotaWarning::Urgent));
    assert_eq!(limit_tracker.set_value(100), Some(QuotaWarning::OverQuota));

    let sent = mock_messenger.sent_messages.borrow();
    assert_eq!(
        *sent,
        vec![
            String::from("Warning: You've used up over 75% of your quota!"),
            String::from("Urgent warning: You've used up over 90% of your quota!"),
            String::from("You are over your quota"),
        ]
    );
}

#[test]
fn warning_thresholds() {
    assert_eq!(warning_for(74, 100), None);
    assert_eq!(warning_for(75, 100), Some(QuotaWarning::Approaching));
    assert_eq!(warning_for(89, 100), Some(QuotaWarning::Approaching));
    assert_eq!(warning_for(9, 10), Some(QuotaWarning::Urgent));
    assert_eq!(warning_for(99, 100), Some(QuotaWarning::Urgent));
    assert_eq!(warning_for(100, 100), Some(QuotaWarning::OverQuota));
    assert_eq!(warning_for(250, 100), Some(QuotaWarning::OverQuota));
}

#[test]
fn warning_with_zero_maximum() {
    assert_eq!(warning_for(0, 0), None);
    assert_eq!(warning_for(1, 0), Some(QuotaWarning::OverQuota));
}

#[test]
fn warning_near_the_largest_values() {
    assert_eq!(warning_for(usize::MAX, usize::MAX), Some(QuotaWarning::OverQuota));
    assert_eq!(warning_for(usize::MAX - 1, usize::MAX), Some(QuotaWarning::Urgent));
    assert_eq!(warning_for(usize::MAX / 2, usize::MAX), None);
}

#[test]
fn box_deref_gives_the_value() {
    let b = MyBox::new(5);
    assert_eq!(*b, 5);
}

#[test]
fn lists_and_pointer_hold_their_data() {
    let list = BoxList::Cons(1, Box::new(BoxList::Cons(2, Box::new(BoxList::Nil))));
    assert!(matches!(list, BoxList::Cons(1, _)));
    let shared = Rc::new(RcList::Cons(5, Rc::new(RcList::Nil)));
    let a = RcList::Cons(3, Rc::clone(&shared));
    let b = RcList::Cons(4, Rc::clone(&shared));
    assert_eq!(Rc::strong_count(&shared), 3);
    assert!(matches!(a, RcList::Cons(3, _)));
    assert!(matches!(b, RcList::Cons(4, _)));
    let p = CustomSmartPointer { data: String::from("my stuff") };
    assert_eq!(p.data, "my stuff");
}
