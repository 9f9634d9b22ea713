//! Eastern-time clock values and the new-entry window.
use vstd::prelude::*;

verus! {

/// A time of day in US Eastern time, held as seconds after midnight.
#[derive(Debug, Clone, Copy, PartialEq, Eq, PartialOrd, Ord, Structural)]
pub struct EtTime(u32);

/// First second at which new entries are allowed (09:30:00).
pub const ENTRY_START_SECONDS: u32 = 34200;

/// First second at which new entries are no longer allowed (11:00:00).
pub const ENTRY_END_SECONDS: u32 = 39600;

/// First second of the regular session (09:30:00).
pub const SESSION_OPEN_SECONDS: u32 = 34200;

impl EtTime {
    /// Seconds after midnight.
    pub closed spec fn secs(self) -> int {
        self.0 as int
    }

    /// The clock value for a valid hour, minute and second; `None` otherwise.
    pub fn from_hms(hour: u8, minute: u8, second: u8) -> (r: Option<Self>)
        ensures
            (hour > 23 || minute > 59 || second > 59) ==> r.is_none(),
            !(hour > 23 || minute > 59 || second > 59) ==> r.is_some() && r.unwrap().secs()
                == hour * 3600 + minute * 60 + second,
    {
        if hour > 23 || minute > 59 || second > 59 {
            return None;
        }
        Some(EtTime(hour as u32 * 3600 + minute as u32 * 60 + second as u32))
    }

    /// Seconds after midnight.
    pub fn seconds(self) -> (r: u32)
        ensures
            r == self.secs(),
    {
        self.0
    }

    /// A clock value is never negative.
    pub proof fn lemma_nonnegative(self)
        ensures
            0 <= self.secs(),
    {
    }

    /// Two clock values with the same seconds are the same value.
    pub proof fn lemma_secs_injective(self, other: EtTime)
        ensures
            self.secs() == other.secs() ==> self == other,
    {
    }
}

/// What the session clock permits.
#[derive(Debug, Clone, Copy, PartialEq, Eq, Structural)]
pub struct SessionPermissions {
    pub allow_new_entries: bool,
    pub allow_position_management: bool,
    pub allow_position_adds: bool,
}

/// New entries are allowed from 09:30:00 inclusive to 11:00:00 exclusive.
pub open spec fn in_entry_window(t: EtTime) -> bool {
    ENTRY_START_SECONDS <= t.secs() < ENTRY_END_SECONDS
}

impl SessionPermissions {
    /// Permissions at an Eastern time: new entries and adds only inside the entry window;
    /// management of existing positions always.
    #[must_use]
    pub fn at(time_et: EtTime) -> (r: Self)
        ensures
            r.allow_new_entries == in_entry_window(time_et),
            r.allow_position_adds == in_entry_window(time_et),
            r.allow_position_management,
    {
        let allow_new_entries = ENTRY_START_SECONDS <= time_et.0 && time_et.0 < ENTRY_END_SECONDS;
        SessionPermissions {
            allow_new_entries,
            allow_position_management: true,
            allow_position_adds: allow_new_entries,
        }
    }
}

} // verus!
