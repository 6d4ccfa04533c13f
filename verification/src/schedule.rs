//! When a scheduled service runs.

use vstd::prelude::*;

verus! {

/// A time of day in local time, to the second.
#[derive(Debug, Clone, Copy, PartialEq, Eq)]
pub struct TimeOfDay {
    hour: u8,
    minute: u8,
    second: u8,
}

impl TimeOfDay {
    #[verifier::type_invariant]
    spec fn in_range(self) -> bool {
        self.hour < 24 && self.minute < 60 && self.second < 60
    }

    /// The hour, minute and second as numbers.
    pub closed spec fn parts(self) -> (nat, nat, nat) {
        (self.hour as nat, self.minute as nat, self.second as nat)
    }

    /// The time with the given hour, minute and second, where there is such
    /// a time of day.
    pub fn new(hour: u8, minute: u8, second: u8) -> (time: Option<TimeOfDay>)
        ensures
            time is Some <==> hour < 24 && minute < 60 && second < 60,
            time matches Some(t) ==> t.parts() == (hour as nat, minute as nat, second as nat),
    {
        if hour < 24 && minute < 60 && second < 60 {
            Some(TimeOfDay { hour, minute, second })
        } else {
            None
        }
    }

    /// The hour of the day, from 0 to 23.
    pub fn hour(&self) -> (h: u8)
        ensures
            h == self.parts().0,
            h < 24,
    {
        proof {
            use_type_invariant(self);
        }
        self.hour
    }

    /// The minute of the hour, from 0 to 59.
    pub fn minute(&self) -> (m: u8)
        ensures
            m == self.parts().1,
            m < 60,
    {
        proof {
            use_type_invariant(self);
        }
        self.minute
    }

    /// The second of the minute, from 0 to 59.
    pub fn second(&self) -> (s: u8)
        ensures
            s == self.parts().2,
            s < 60,
    {
        proof {
            use_type_invariant(self);
        }
        self.second
    }
}

/// The times at which a scheduled service is started.
#[derive(Debug, Clone, Copy, PartialEq, Eq)]
pub enum Schedule {
    /// Every day at this local time.
    Daily(TimeOfDay),
}

} // verus!
