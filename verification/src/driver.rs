//! Rules of the loop that drives the outputs: when the connection to the
//! display counts as dead, how long the loop sleeps, what becomes of a resize
//! and of a video player that reports back, and how sessions are numbered.

use crate::content::ContentType;
use crate::renderer::Renderer;
use crate::text::str_eq;
use crate::timing::elapsed_between;
use crate::timing::elapsed_since;
use vstd::prelude::*;

verus! {

/// Time the loop aims to spend on one round: a sixtieth of a second.
pub const TARGET_FRAME_TIME_US: u64 = 16_667;

/// Broken-pipe errors in a row after which the connection counts as dead.
pub const MAX_CONSECUTIVE_ERRORS: u32 = 3;

/// A dead connection is tried again once its last error is six whole seconds old.
pub const RECONNECT_AFTER_US: u64 = 6_000_000;

/// Time the loop sleeps while the connection is dead.
pub const DEAD_CONNECTION_SLEEP_US: u64 = 100_000;

/// Time between two summaries of the metrics.
pub const METRICS_LOG_INTERVAL_US: u64 = 10_000_000;

/// The first session that is handed out.
pub const FIRST_SESSION_ID: u64 = 1;

/// Whether the connection to the display is in working order.
#[derive(Debug, Clone, Copy, PartialEq, Eq, Structural)]
pub struct ConnectionHealth {
    pub error_count: u32,
    pub dead: bool,
    pub last_error_time: u64,
}

/// What the loop does about the connection at the start of a round.
#[derive(Debug, Clone, Copy, PartialEq, Eq, Structural)]
pub enum ConnectionGate {
    /// The round goes ahead.
    Proceed,
    /// The connection is dead: sleep this long and start the next round.
    Wait { sleep_us: u64 },
}

/// Hands out session numbers, each larger than the one before.
#[derive(Debug, Clone, Copy, PartialEq, Eq, Structural)]
pub struct SessionCounter {
    pub next_session_id: u64,
}

/// What becomes of a video player that has been started in the background.
#[derive(Debug, Clone, Copy, PartialEq, Eq, Structural)]
pub enum PlayerVerdict {
    /// The player belongs to the session the output waits for: keep it.
    Keep,
    /// The output has moved on meanwhile: stop the player, or forget its failure.
    Stale,
    /// The player of the awaited session failed: the transition is aborted.
    Abort,
}

/// Whether something that happens every `interval_us` is due at `now`.
pub open spec fn is_due(last: u64, now: u64, interval_us: u64) -> bool {
    elapsed_between(last, now) >= interval_us
}

/// Time left of a round that has taken `elapsed_us`, if any.
pub open spec fn budget_left(elapsed_us: u64) -> Option<u64> {
    if elapsed_us < TARGET_FRAME_TIME_US {
        Some((TARGET_FRAME_TIME_US - elapsed_us) as u64)
    } else {
        None
    }
}

/// The size a resize leads to: a side reported as zero keeps its length.
pub open spec fn resized(requested: (u32, u32), current: (u32, u32)) -> (u32, u32) {
    (
        if requested.0 == 0 {
            current.0
        } else {
            requested.0
        },
        if requested.1 == 0 {
            current.1
        } else {
            requested.1
        },
    )
}

impl ConnectionHealth {
    /// The state after an error of the connection at `now`: only a broken pipe counts.
    pub open spec fn after_error(self, broken_pipe: bool, now: u64) -> ConnectionHealth {
        if !broken_pipe {
            self
        } else {
            let count = if self.error_count < u32::MAX {
                (self.error_count + 1) as u32
            } else {
                self.error_count
            };
            ConnectionHealth {
                error_count: count,
                last_error_time: now,
                dead: self.dead || count >= MAX_CONSECUTIVE_ERRORS,
            }
        }
    }

    /// Whether a dead connection is tried again at `now`.
    pub open spec fn recovers_at(self, now: u64) -> bool {
        elapsed_between(self.last_error_time, now) >= RECONNECT_AFTER_US
    }

    /// The state after the start of a round at `now`.
    pub open spec fn after_round_start(self, now: u64) -> ConnectionHealth {
        if self.dead && self.recovers_at(now) {
            ConnectionHealth { dead: false, error_count: 0, ..self }
        } else {
            self
        }
    }

    /// A connection without errors.
    pub fn new(now: u64) -> (health: ConnectionHealth)
        ensures
            health == (ConnectionHealth { error_count: 0, dead: false, last_error_time: now }),
    {
        ConnectionHealth { error_count: 0, dead: false, last_error_time: now }
    }

    /// Notes an error of the connection. A broken pipe is counted; the third
    /// in a row makes the connection dead.
    pub fn record_error(&mut self, broken_pipe: bool, now: u64)
        ensures
            *final(self) == old(self).after_error(broken_pipe, now),
    {
        if broken_pipe {
            if self.error_count < u32::MAX {
                self.error_count = self.error_count + 1;
            }
            self.last_error_time = now;
            if self.error_count >= MAX_CONSECUTIVE_ERRORS {
                self.dead = true;
            }
        }
    }

    /// Opens a round: a dead connection holds the loop back until its last
    /// error is old enough, and then starts over without errors.
    pub fn begin_round(&mut self, now: u64) -> (gate: ConnectionGate)
        ensures
            *final(self) == old(self).after_round_start(now),
            gate == if old(self).dead && !old(self).recovers_at(now) {
                ConnectionGate::Wait { sleep_us: DEAD_CONNECTION_SLEEP_US }
            } else {
                ConnectionGate::Proceed
            },
            gate == ConnectionGate::Proceed <==> !final(self).dead,
    {
        if self.dead {
            if elapsed_since(self.last_error_time, now) >= RECONNECT_AFTER_US {
                self.dead = false;
                self.error_count = 0;
                ConnectionGate::Proceed
            } else {
                ConnectionGate::Wait { sleep_us: DEAD_CONNECTION_SLEEP_US }
            }
        } else {
            ConnectionGate::Proceed
        }
    }
}

impl SessionCounter {
    /// A counter that starts with the first session.
    pub fn new() -> (counter: SessionCounter)
        ensures
            counter.next_session_id == FIRST_SESSION_ID,
    {
        SessionCounter { next_session_id: FIRST_SESSION_ID }
    }

    /// Hands out the next session. The counter stops at its top: the last
    /// number is then handed out again.
    pub fn allocate(&mut self) -> (session_id: u64)
        ensures
            session_id == old(self).next_session_id,
            final(self).next_session_id == if old(self).next_session_id < u64::MAX {
                (old(self).next_session_id + 1) as u64
            } else {
                old(self).next_session_id
            },
            old(self).next_session_id < u64::MAX ==> final(self).next_session_id > session_id,
    {
        let id = self.next_session_id;
        if self.next_session_id < u64::MAX {
            self.next_session_id = self.next_session_id + 1;
        }
        id
    }
}

/// Whether something that happens every `interval_us` is due at `now`, having last happened at `last`.
pub fn due(last: u64, now: u64, interval_us: u64) -> (yes: bool)
    ensures
        yes == is_due(last, now, interval_us),
{
    elapsed_since(last, now) >= interval_us
}

/// How long the loop sleeps after a round that took `elapsed_us`, to keep its pace.
pub fn remaining_frame_budget(elapsed_us: u64) -> (sleep_us: Option<u64>)
    ensures
        sleep_us == budget_left(elapsed_us),
{
    if elapsed_us < TARGET_FRAME_TIME_US {
        Some(TARGET_FRAME_TIME_US - elapsed_us)
    } else {
        None
    }
}

/// The size a resize leads to: a side reported as zero keeps its length.
pub fn effective_size(requested: (u32, u32), current: (u32, u32)) -> (size: (u32, u32))
    ensures
        size == resized(requested, current),
{
    (
        if requested.0 == 0 {
            current.0
        } else {
            requested.0
        },
        if requested.1 == 0 {
            current.1
        } else {
            requested.1
        },
    )
}

impl<T, B> Renderer<T, B> {
    /// The state after `start_switch`.
    pub open spec fn after_start_switch(
        self,
        kind: ContentType,
        session_id: u64,
        batch_id: Option<u64>,
        batch_anchor: Option<u64>,
    ) -> Self {
        let switched = (Renderer { valid_content_type: kind, ..self }).after_switch_content();
        let joined = Renderer {
            active_batch_id: batch_id,
            batch_start_time: batch_anchor,
            ..switched
        };
        match kind {
            ContentType::Image => joined.with_expected_session(ContentType::Image, session_id),
            ContentType::Video => joined.with_expected_session(
                ContentType::Video,
                session_id,
            ).with_expected_session(ContentType::Image, session_id),
        }
    }

    /// What becomes of a video player of `session_id` that reports back.
    pub open spec fn player_verdict(self, session_id: u64, started: bool) -> PlayerVerdict {
        if !self.video_session_expected || self.active_video_session_id != session_id {
            PlayerVerdict::Stale
        } else if started {
            PlayerVerdict::Keep
        } else {
            PlayerVerdict::Abort
        }
    }

    /// Whether the connection has to be flushed: a redraw is due or a transition is active.
    pub open spec fn wants_flush(self) -> bool {
        self.needs_redraw || self.transition_active
    }

    /// Begins the move of the output to new content of the given kind and
    /// session, as part of a batch where there is one.
    ///
    /// The output expects the kind from now on and switches; then it joins
    /// the batch, so that the batch anchor outlives the switch; and the
    /// session is the one from which frames of the kind are taken. A switch
    /// to video announces the session for images as well, so that an image
    /// of an older session, arriving late, is dropped.
    pub fn start_switch(
        &mut self,
        kind: ContentType,
        session_id: u64,
        batch_id: Option<u64>,
        batch_anchor: Option<u64>,
    )
        ensures
            *final(self) == old(self).after_start_switch(kind, session_id, batch_id, batch_anchor),
            final(self).batch_start_time == batch_anchor,
            final(self).active_batch_id == batch_id,
            final(self).valid_content_type == kind,
            final(self).accepted_session(kind) == session_id,
            final(self).active_image_session_id == session_id,
            kind == ContentType::Image ==> final(self).active_video_session_id == old(
                self,
            ).active_video_session_id,
            old(self).inv() ==> final(self).inv(),
    {
        self.set_content_type(kind);
        self.switch_content();
        self.join_batch(batch_id, batch_anchor);
        self.expect_session(kind, session_id);
        match kind {
            ContentType::Video => {
                self.expect_session(ContentType::Image, session_id);
            },
            ContentType::Image => {},
        }
    }

    /// Settles what becomes of a video player of `session_id` that was
    /// started in the background and now reports whether it runs. A player of
    /// another session than the awaited one is stale. The failure of the
    /// awaited player aborts the transition.
    pub fn video_player_result(&mut self, session_id: u64, started: bool) -> (verdict:
        PlayerVerdict)
        ensures
            verdict == old(self).player_verdict(session_id, started),
            *final(self) == if verdict == PlayerVerdict::Abort {
                old(self).after_abort()
            } else {
                *old(self)
            },
            old(self).inv() ==> final(self).inv(),
    {
        if !self.video_session_expected || self.active_video_session_id != session_id {
            PlayerVerdict::Stale
        } else if started {
            PlayerVerdict::Keep
        } else {
            self.abort_transition();
            PlayerVerdict::Abort
        }
    }

    /// Whether the connection has to be flushed on account of this output.
    pub fn needs_flush(&self) -> (flush: bool)
        ensures
            flush == self.wants_flush(),
    {
        self.needs_redraw || self.transition_active
    }
}

/// Whether the frame at `i` is the last that its source delivered.
pub open spec fn is_latest<F>(frames: Seq<(String, F)>, i: int) -> bool {
    &&& 0 <= i < frames.len()
    &&& forall|j: int| i < j < frames.len() ==> (#[trigger] frames[j]).0@ != frames[i].0@
}

/// Whether `kept` holds a frame of the source `source`.
pub open spec fn names_source<F>(kept: Seq<(String, F)>, source: Seq<char>) -> bool {
    exists|k: int| 0 <= k < kept.len() && (#[trigger] kept[k]).0@ == source
}

/// Whether `frame` is, among `frames`, the last frame of its source, at a place not before `from`.
pub open spec fn is_latest_from<F>(frames: Seq<(String, F)>, from: int, frame: (String, F)) -> bool {
    exists|i: int| from <= i && is_latest(frames, i) && #[trigger] frames[i] == frame
}

/// Whether no source has two frames in `kept`.
pub open spec fn one_frame_each<F>(kept: Seq<(String, F)>) -> bool {
    forall|a: int, b: int|
        0 <= a < kept.len() && 0 <= b < kept.len() && a != b ==> (#[trigger] kept[a]).0@ != (
        #[trigger] kept[b]).0@
}

/// Whether `latest` holds, of the frames that were delivered, the last of
/// each source and nothing else.
pub open spec fn holds_latest<F>(frames: Seq<(String, F)>, latest: Seq<(String, F)>) -> bool {
    &&& one_frame_each(latest)
    &&& forall|k: int| 0 <= k < latest.len() ==> is_latest_from(frames, 0, #[trigger] latest[k])
    &&& forall|i: int| 0 <= i < frames.len() ==> names_source(latest, (#[trigger] frames[i]).0@)
}

fn has_source<F>(latest: &Vec<(String, F)>, source: &str) -> (found: bool)
    ensures
        found == names_source(latest@, source@),
{
    let mut k: usize = 0;
    while k < latest.len()
        invariant
            k <= latest@.len(),
            forall|j: int| 0 <= j < k ==> (#[trigger] latest@[j]).0@ != source@,
        decreases latest@.len() - k,
    {
        if str_eq(latest[k].0.as_str(), source) {
            return true;
        }
        k = k + 1;
    }
    false
}

proof fn lemma_kept_after_push<F>(kept: Seq<(String, F)>, frame: (String, F), source: Seq<char>)
    ensures
        names_source(kept, source) ==> names_source(kept.push(frame), source),
        names_source(kept.push(frame), frame.0@),
{
    let grown = kept.push(frame);
    assert(grown[kept.len() as int].0@ == frame.0@);
    if names_source(kept, source) {
        let k = choose|k: int| 0 <= k < kept.len() && (#[trigger] kept[k]).0@ == source;
        assert(grown[k].0@ == source);
    }
}

proof fn lemma_latest_from_earlier<F>(frames: Seq<(String, F)>, from: int, frame: (String, F))
    requires
        is_latest_from(frames, from + 1, frame),
    ensures
        is_latest_from(frames, from, frame),
{
    let i = choose|i: int| from + 1 <= i && is_latest(frames, i) && #[trigger] frames[i] == frame;
    assert(from <= i && is_latest(frames, i) && frames[i] == frame);
}

/// Keeps, of the frames that arrived in one round, the latest of each
/// source: a frame that a later frame of the same source has overtaken is
/// dropped unseen. Each frame is named by its source; the latest frames come
/// out newest first.
pub fn latest_frames<F>(frames: Vec<(String, F)>) -> (latest: Vec<(String, F)>)
    ensures
        holds_latest(frames@, latest@),
{
    let ghost all = frames@;
    let mut rest = frames;
    let mut latest: Vec<(String, F)> = Vec::new();
    while rest.len() > 0
        invariant
            rest@.len() <= all.len(),
            rest@ == all.take(rest@.len() as int),
            one_frame_each(latest@),
            forall|k: int|
                0 <= k < latest@.len() ==> is_latest_from(
                    all,
                    rest@.len() as int,
                    #[trigger] latest@[k],
                ),
            forall|i: int|
                rest@.len() <= i < all.len() ==> names_source(latest@, (#[trigger] all[i]).0@),
        decreases rest@.len(),
    {
        let ghost n = rest@.len() - 1;
        let ghost before = latest@;
        let popped = rest.pop();
        proof {
            assert(rest@ =~= all.take(n));
        }
        match popped {
            Some(frame) => {
                proof {
                    assert(frame == all[n]);
                    assert forall|k: int| 0 <= k < before.len() implies is_latest_from(
                        all,
                        n,
                        #[trigger] before[k],
                    ) by {
                        lemma_latest_from_earlier(all, n, before[k]);
                    }
                }
                if !has_source(&latest, frame.0.as_str()) {
                    latest.push(frame);
                    proof {
                        let last = before.len() as int;
                        assert(latest@ == before.push(frame));
                        assert forall|j: int| n < j < all.len() implies (#[trigger] all[j]).0@
                            != all[n].0@ by {
                            assert(names_source(before, all[j].0@));
                        }
                        assert(is_latest(all, n));
                        assert(is_latest_from(all, n, frame));
                        assert forall|k: int| 0 <= k < latest@.len() implies is_latest_from(
                            all,
                            n,
                            #[trigger] latest@[k],
                        ) by {
                            if k < last {
                                assert(latest@[k] == before[k]);
                            }
                        }
                        assert forall|i: int| n <= i < all.len() implies names_source(
                            latest@,
                            (#[trigger] all[i]).0@,
                        ) by {
                            lemma_kept_after_push(before, frame, all[i].0@);
                        }
                        assert forall|a: int, b: int|
                            0 <= a < latest@.len() && 0 <= b < latest@.len() && a != b implies (
                        #[trigger] latest@[a]).0@ != (#[trigger] latest@[b]).0@ by {
                            if a < last {
                                assert(latest@[a] == before[a]);
                            }
                            if b < last {
                                assert(latest@[b] == before[b]);
                            }
                        }
                    }
                }
            },
            None => {},
        }
    }
    latest
}

} // verus!
