//! When an output is due for new content.
//!
//! The time content is shown for counts from the end of the transition that
//! brought it in. Until then a fallback deadline stands, so that content
//! which never finishes loading is replaced all the same.

use crate::timing::elapsed_between;
use crate::timing::elapsed_since;
use vstd::prelude::*;

verus! {

/// Time granted for loading, added to the fallback deadline.
pub const LOADING_GRACE_US: u64 = 5_000_000;

/// The timetable of one output.
#[derive(Debug, Clone, Copy, PartialEq, Eq, Structural)]
pub struct OutputSchedule {
    /// Whether content has been picked for the output.
    pub has_content: bool,
    /// Time content is shown for, in microseconds.
    pub duration_us: u64,
    /// Fallback deadline for the next change.
    pub next_change: Option<u64>,
    /// When the content on show started to be displayed.
    pub display_start_time: Option<u64>,
}

/// `a + b`, kept at the top of the range.
pub open spec fn capped_sum(a: u64, b: u64) -> u64 {
    if a + b > u64::MAX {
        u64::MAX
    } else {
        (a + b) as u64
    }
}

impl OutputSchedule {
    /// Whether new content is due at `now`: the content on show has been
    /// displayed for its time; or, while it is not yet displayed, the
    /// fallback deadline has passed; or nothing was ever picked.
    pub open spec fn is_due(self, now: u64) -> bool {
        match self.display_start_time {
            Some(start) => elapsed_between(start, now) >= self.duration_us,
            None => match self.next_change {
                Some(deadline) => now >= deadline,
                None => !self.has_content,
            },
        }
    }

    /// The timetable after content was picked at `now`.
    pub open spec fn after_pick(self, now: u64) -> OutputSchedule {
        OutputSchedule {
            has_content: true,
            display_start_time: None,
            next_change: Some(capped_sum(capped_sum(now, self.duration_us), LOADING_GRACE_US)),
            ..self
        }
    }

    /// The timetable after the transition to the picked content ended at `now`.
    pub open spec fn after_transition_completed(self, now: u64) -> OutputSchedule {
        if self.display_start_time.is_none() && self.has_content {
            OutputSchedule { display_start_time: Some(now), ..self }
        } else {
            self
        }
    }

    /// The timetable of an output for which nothing has been picked yet.
    pub fn new(duration_us: u64) -> (schedule: OutputSchedule)
        ensures
            schedule == (OutputSchedule {
                has_content: false,
                duration_us,
                next_change: None,
                display_start_time: None,
            }),
            forall|now: u64| schedule.is_due(now),
    {
        OutputSchedule { has_content: false, duration_us, next_change: None, display_start_time: None }
    }

    /// Whether new content is due at `now`.
    pub fn tick(&self, now: u64) -> (due: bool)
        ensures
            due == self.is_due(now),
    {
        match self.display_start_time {
            Some(start) => elapsed_since(start, now) >= self.duration_us,
            None => match self.next_change {
                Some(deadline) => now >= deadline,
                None => !self.has_content,
            },
        }
    }

    /// Notes that content was picked at `now`: its display time has not
    /// begun, and the fallback deadline is the display time and the grace for
    /// loading from now.
    pub fn pick_next(&mut self, now: u64)
        ensures
            *final(self) == old(self).after_pick(now),
    {
        let shown_until = if now > u64::MAX - self.duration_us {
            u64::MAX
        } else {
            now + self.duration_us
        };
        let deadline = if shown_until > u64::MAX - LOADING_GRACE_US {
            u64::MAX
        } else {
            shown_until + LOADING_GRACE_US
        };
        self.has_content = true;
        self.display_start_time = None;
        self.next_change = Some(deadline);
    }

    /// Notes that the transition to the picked content ended at `now`: the
    /// display time starts to count, unless it already does.
    pub fn mark_transition_completed(&mut self, now: u64)
        ensures
            *final(self) == old(self).after_transition_completed(now),
    {
        if self.display_start_time.is_none() && self.has_content {
            self.display_start_time = Some(now);
        }
    }
}

/// Content whose transition has ended is replaced exactly when it has been
/// on display for its time, whatever the fallback deadline says.
pub proof fn lemma_display_time_counts_from_completion(
    schedule: OutputSchedule,
    picked_at: u64,
    completed_at: u64,
    now: u64,
)
    requires
        now >= completed_at,
    ensures
        schedule.after_pick(picked_at).after_transition_completed(completed_at).is_due(now) <==> now
            - completed_at >= schedule.duration_us,
{
}

} // verus!
