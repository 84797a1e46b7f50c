//! Recursive lists behind pointers, a one-field box, and a tracker that warns
//! as a value nears its quota.
use vstd::prelude::*;
use std::rc::Rc;

verus! {

/// A cons list whose tail is owned through a `Box`.
pub enum BoxList {
    Cons(i32, Box<BoxList>),
    Nil,
}

/// A cons list whose tail may be shared through an `Rc`.
pub enum RcList {
    Cons(i32, Rc<RcList>),
    Nil,
}

/// A box that holds one value inline.
pub struct MyBox<T>(T);

impl<T> MyBox<T> {
    /// The value held.
    pub closed spec fn inner(&self) -> T {
        self.0
    }

    pub fn new(x: T) -> (b: MyBox<T>)
        ensures
            b.inner() == x,
    {
        MyBox(x)
    }
}

impl<T> std::ops::Deref for MyBox<T> {
    type Target = T;

    fn deref(&self) -> (r: &T) {
        &self.0
    }
}

/// Carries a piece of text.
pub struct CustomSmartPointer {
    pub data: String,
}

/// How close a tracked value has come to its maximum.
#[derive(Debug, Clone, Copy, PartialEq, Eq, Structural)]
pub enum QuotaWarning {
    /// At or over the maximum.
    OverQuota,
    /// At or over nine tenths of the maximum.
    Urgent,
    /// At or over three quarters of the maximum.
    Approaching,
}

/// The warning owed for `value` against `max`, judged on the exact ratio
/// `value / max`. With a zero maximum any positive value is over quota and
/// zero owes nothing.
pub open spec fn quota_warning(value: usize, max: usize) -> Option<QuotaWarning> {
    if value >= max && value > 0 {
        Some(QuotaWarning::OverQuota)
    } else if max > 0 && 10 * value >= 9 * max {
        Some(QuotaWarning::Urgent)
    } else if max > 0 && 4 * value >= 3 * max {
        Some(QuotaWarning::Approaching)
    } else {
        None
    }
}

impl QuotaWarning {
    /// The message sent for this warning.
    pub fn message(&self) -> (m: &'static str)
        ensures
            m@ == match *self {
                QuotaWarning::OverQuota => "You are over your quota"@,
                QuotaWarning::Urgent => "Urgent warning: You've used up over 90% of your quota!"@,
                QuotaWarning::Approaching => "Warning: You've used up over 75% of your quota!"@,
            },
    {
        match self {
            QuotaWarning::OverQuota => "You are over your quota",
            QuotaWarning::Urgent => "Urgent warning: You've used up over 90% of your quota!",
            QuotaWarning::Approaching => "Warning: You've used up over 75% of your quota!",
        }
    }
}

/// The warning owed for `value` against `max`, if any.
pub fn warning_for(value: usize, max: usize) -> (w: Option<QuotaWarning>)
    ensures
        w == quota_warning(value, max),
{
    let (v, m) = (value as u128, max as u128);
    if value >= max && value > 0 {
        Some(QuotaWarning::OverQuota)
    } else if max > 0 && 10 * v >= 9 * m {
        Some(QuotaWarning::Urgent)
    } else if max > 0 && 4 * v >= 3 * m {
        Some(QuotaWarning::Approaching)
    } else {
        None
    }
}

/// Receives the messages of a [`LimitTracker`].
pub trait Messenger {
    fn send(&self, msg: &str);
}

/// Tracks a value against a maximum and tells its messenger when the value
/// comes near or over it.
pub struct LimitTracker<'a, T: Messenger> {
    messenger: &'a T,
    value: usize,
    max: usize,
}

impl<'a, T: Messenger> LimitTracker<'a, T> {
    pub closed spec fn value(&self) -> usize {
        self.value
    }

    pub closed spec fn max(&self) -> usize {
        self.max
    }

    pub closed spec fn messenger(&self) -> &'a T {
        self.messenger
    }

    pub fn new(messenger: &'a T, max: usize) -> (t: LimitTracker<'a, T>)
        ensures
            t.messenger() == messenger,
            t.value() == 0,
            t.max() == max,
    {
        LimitTracker { messenger, value: 0, max }
    }

    /// Records `value`, sends the messenger the message of
    /// `quota_warning(value, max)` when there is one, and returns that warning.
    pub fn set_value(&mut self, value: usize) -> (w: Option<QuotaWarning>)
        ensures
            final(self).value() == value,
            final(self).max() == old(self).max(),
            final(self).messenger() == old(self).messenger(),
            w == quota_warning(value, old(self).max()),
    {
        self.value = value;
        let w = warning_for(self.value, self.max);
        match w {
            Some(level) => self.messenger.send(level.message()),
            None => {},
        }
        w
    }
}

} // verus!
