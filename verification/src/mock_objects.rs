//! A quota tracker that warns through a pluggable messenger as usage
//! approaches and passes its limit. The messenger is a trait for the
//! caller to implement — a console printer, a mock that records what was
//! sent, whatever the surroundings need.

use vstd::prelude::*;

verus! {

/// The warning a given usage level calls for, if any.
#[derive(Clone, Copy, Debug, PartialEq, Eq, Structural)]
pub enum QuotaLevel {
    Quiet,
    NearLimit,
    VeryNearLimit,
    OverLimit,
}

/// Which warning a value `value` out of a maximum `max` calls for: at or
/// over the maximum the quota is spent; from nine tenths, and from three
/// quarters, earlier warnings apply. A maximum of zero with no usage stays
/// quiet.
pub open spec fn quota_level(value: nat, max: nat) -> QuotaLevel {
    if value == 0 && max == 0 {
        QuotaLevel::Quiet
    } else if value >= max {
        QuotaLevel::OverLimit
    } else if 10 * value >= 9 * max {
        QuotaLevel::VeryNearLimit
    } else if 4 * value >= 3 * max {
        QuotaLevel::NearLimit
    } else {
        QuotaLevel::Quiet
    }
}

/// Computes [`quota_level`] for concrete numbers.
pub fn classify_quota(value: usize, max: usize) -> (level: QuotaLevel)
    ensures
        level == quota_level(value as nat, max as nat),
{
    if value == 0 && max == 0 {
        QuotaLevel::Quiet
    } else if value >= max {
        QuotaLevel::OverLimit
    } else if (value as u128) * 10 >= (max as u128) * 9 {
        QuotaLevel::VeryNearLimit
    } else if (value as u128) * 4 >= (max as u128) * 3 {
        QuotaLevel::NearLimit
    } else {
        QuotaLevel::Quiet
    }
}

/// Whoever wants to hear the warnings implements this.
pub trait Messenger {
    fn send(&self, msg: &str);
}

/// A messenger that would print to the console; in this library, where
/// printing is the host's business, it swallows the message.
pub struct ConsolePrinter {}

impl ConsolePrinter {
    pub fn new() -> ConsolePrinter {
        ConsolePrinter {  }
    }
}

impl Messenger for ConsolePrinter {
    fn send(&self, _msg: &str) {
    }
}

/// Tracks a value against a maximum and warns the messenger whenever the
/// value is set.
pub struct LimitTracker<'a, T: Messenger> {
    messenger: &'a T,
    value: usize,
    max: usize,
}

impl<'a, T> LimitTracker<'a, T> where T: Messenger {
    /// The current value.
    pub closed spec fn spec_value(&self) -> usize {
        self.value
    }

    /// The maximum the value is measured against.
    pub closed spec fn spec_max(&self) -> usize {
        self.max
    }

    /// A fresh tracker at zero.
    pub fn new(messenger: &T, max: usize) -> (t: LimitTracker<T>)
        ensures
            t.spec_value() == 0,
            t.spec_max() == max,
    {
        LimitTracker { messenger, value: 0, max }
    }

    /// Stores `value` and sends the warning, if any, that the new level
    /// calls for: over the quota, over nine tenths of it, or over three
    /// quarters of it.
    pub fn set_value(&mut self, value: usize)
        ensures
            final(self).spec_value() == value,
            final(self).spec_max() == old(self).spec_max(),
    {
        self.value = value;
        match classify_quota(value, self.max) {
            QuotaLevel::OverLimit => {
                self.messenger.send("Error: You are over your quota!");
            },
            QuotaLevel::VeryNearLimit => {
                self.messenger.send("Urgent warning: You've used up over 90% of your quota!");
            },
            QuotaLevel::NearLimit => {
                self.messenger.send("Warning: You've used up over 75% of your quota!");
            },
            QuotaLevel::Quiet => (),
        }
    }
}

} // verus!
