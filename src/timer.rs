use vstd::prelude::*;

verus! {

/// The lifecycle phase of one countdown.
#[derive(Debug, Clone, Copy, PartialEq, Eq, Structural)]
pub enum TimeStatus {
    Paused,
    Running,
    Finished,
}

/// The status that a one-byte status code stands for: 0 is paused, 1 is
/// running, and every other code is finished.
pub open spec fn status_of_code(value: u8) -> TimeStatus {
    if value == 0 {
        TimeStatus::Paused
    } else if value == 1 {
        TimeStatus::Running
    } else {
        TimeStatus::Finished
    }
}

impl TimeStatus {
    /// The one-byte code of this status.
    pub open spec fn spec_code(self) -> u8 {
        match self {
            TimeStatus::Paused => 0,
            TimeStatus::Running => 1,
            TimeStatus::Finished => 2,
        }
    }

    pub fn code(self) -> (r: u8)
        ensures
            r == self.spec_code(),
            status_of_code(r) == self,
    {
        match self {
            TimeStatus::Paused => 0,
            TimeStatus::Running => 1,
            TimeStatus::Finished => 2,
        }
    }
}

impl From<u8> for TimeStatus {
    fn from(value: u8) -> (r: TimeStatus) {
        if value == 0 {
            TimeStatus::Paused
        } else if value == 1 {
            TimeStatus::Running
        } else {
            TimeStatus::Finished
        }
    }
}

impl vstd::std_specs::convert::FromSpecImpl<u8> for TimeStatus {
    open spec fn obeys_from_spec() -> bool {
        true
    }

    open spec fn from_spec(v: u8) -> TimeStatus {
        status_of_code(v)
    }
}

/// The state of one countdown: its key, the seconds that remain, and its
/// status. A copy of it is what each tick reports.
#[derive(Debug, Clone, Copy, PartialEq, Eq, Structural)]
pub struct TimeData {
    pub key: u64,
    pub seconds: u32,
    pub status: TimeStatus,
}

impl TimeData {
    /// A fresh record for `key`: no seconds left, paused.
    pub fn new(key: u64) -> (r: TimeData)
        ensures
            r == (TimeData { key, seconds: 0, status: TimeStatus::Paused }),
    {
        TimeData { key, seconds: 0, status: TimeStatus::Paused }
    }

    pub fn get_seconds(&self) -> (r: u32)
        ensures
            r == self.seconds,
    {
        self.seconds
    }

    pub fn set_seconds(&mut self, seconds: u32)
        ensures
            *final(self) == (TimeData { seconds, ..*old(self) }),
    {
        self.seconds = seconds;
    }

    pub fn get_status(&self) -> (r: TimeStatus)
        ensures
            r == self.status,
    {
        self.status
    }

    pub fn set_status(&mut self, status: TimeStatus)
        ensures
            *final(self) == (TimeData { status, ..*old(self) }),
    {
        self.status = status;
    }
}

} // verus!
