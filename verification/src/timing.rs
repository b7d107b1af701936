//! Transition timing: progress as an exact fraction, and the choice of the
//! instant a transition is anchored to.

use vstd::prelude::*;

verus! {

/// How far a transition has advanced: `elapsed_us / duration_us`, never above one.
#[derive(Clone, Copy, Debug, PartialEq, Eq, Structural)]
pub struct Progress {
    /// Microseconds of the transition that have passed, at most `duration_us`.
    pub elapsed_us: u64,
    /// Length of the transition in microseconds.
    pub duration_us: u64,
}

/// When a shared batch anchor counts as too old to be reused, and where the
/// transition is anchored instead.
#[derive(Clone, Copy, Debug, PartialEq, Eq, Structural)]
pub struct AnchorPolicy {
    /// A shared anchor older than this share of the duration, in percent, is not reused.
    pub stale_percent: u64,
    /// A transition that cannot reuse the shared anchor starts this long before now.
    pub reanchor_offset_us: u64,
}

/// Share of the duration, in percent, after which a shared anchor is stale.
pub const DEFAULT_STALE_PERCENT: u64 = 80;

/// How far before now a transition is anchored when the shared anchor is stale.
pub const DEFAULT_REANCHOR_OFFSET_US: u64 = 100_000;

/// Shortest duration a transition can be configured with, in milliseconds.
pub const MIN_TRANSITION_MS: u32 = 1;

/// Microseconds between `start` and `now`, zero when `now` is not after `start`.
pub open spec fn elapsed_between(start: u64, now: u64) -> u64 {
    if now >= start {
        (now - start) as u64
    } else {
        0
    }
}

/// Progress of a transition of length `duration_us` anchored at `anchor`, seen at `now`.
pub open spec fn progress_at(anchor: u64, now: u64, duration_us: u64) -> Progress {
    Progress::spec_from_elapsed(elapsed_between(anchor, now), duration_us)
}

/// Whether a shared anchor of the given age is too old for a transition of `duration_us`.
pub open spec fn anchor_is_stale(policy: AnchorPolicy, age_us: u64, duration_us: u64) -> bool {
    age_us * 100 > duration_us * policy.stale_percent
}

/// The instant a transition first drawn at `now` is anchored to.
pub open spec fn anchor_for(
    policy: AnchorPolicy,
    batch_start: Option<u64>,
    now: u64,
    duration_us: u64,
) -> u64 {
    match batch_start {
        Some(start) => if anchor_is_stale(policy, elapsed_between(start, now), duration_us) {
            if now >= policy.reanchor_offset_us {
                (now - policy.reanchor_offset_us) as u64
            } else {
                now
            }
        } else {
            start
        },
        None => now,
    }
}

/// Length in microseconds of a transition configured as `transition_time_ms`.
pub open spec fn duration_us_of(transition_time_ms: u32) -> u64 {
    if transition_time_ms < MIN_TRANSITION_MS {
        (MIN_TRANSITION_MS * 1000) as u64
    } else {
        (transition_time_ms * 1000) as u64
    }
}

impl Progress {
    /// The fraction is well formed: a positive length, and no more elapsed than that.
    pub open spec fn wf(self) -> bool {
        0 < self.duration_us && self.elapsed_us <= self.duration_us
    }

    /// The transition has reached its end.
    pub open spec fn is_complete(self) -> bool {
        self.elapsed_us >= self.duration_us
    }

    /// Nothing of the transition has passed yet.
    pub open spec fn is_zero(self) -> bool {
        self.elapsed_us == 0 && self.duration_us > 0
    }

    /// `self <= other` as fractions.
    pub open spec fn le(self, other: Progress) -> bool {
        self.elapsed_us * other.duration_us <= other.elapsed_us * self.duration_us
    }

    /// The fraction `min(elapsed_us, duration_us) / duration_us`; one when the length is zero.
    pub open spec fn spec_from_elapsed(elapsed_us: u64, duration_us: u64) -> Progress {
        if duration_us == 0 {
            Progress { elapsed_us: 1, duration_us: 1 }
        } else if elapsed_us >= duration_us {
            Progress { elapsed_us: duration_us, duration_us }
        } else {
            Progress { elapsed_us, duration_us }
        }
    }

    /// Progress zero.
    pub fn zero() -> (p: Progress)
        ensures
            p == (Progress { elapsed_us: 0, duration_us: 1 }),
            p.wf(),
            p.is_zero(),
            !p.is_complete(),
    {
        Progress { elapsed_us: 0, duration_us: 1 }
    }

    /// Progress one.
    pub fn complete() -> (p: Progress)
        ensures
            p == (Progress { elapsed_us: 1, duration_us: 1 }),
            p.wf(),
            p.is_complete(),
            !p.is_zero(),
    {
        Progress { elapsed_us: 1, duration_us: 1 }
    }

    /// Progress after `elapsed_us` of a transition of `duration_us`, clamped to one.
    pub fn from_elapsed(elapsed_us: u64, duration_us: u64) -> (p: Progress)
        ensures
            p == Progress::spec_from_elapsed(elapsed_us, duration_us),
            p.wf(),
            p.is_complete() <==> elapsed_us >= duration_us,
    {
        if duration_us == 0 {
            Progress { elapsed_us: 1, duration_us: 1 }
        } else if elapsed_us >= duration_us {
            Progress { elapsed_us: duration_us, duration_us }
        } else {
            Progress { elapsed_us, duration_us }
        }
    }

    /// Whether the transition has reached its end.
    pub fn finished(&self) -> (b: bool)
        ensures
            b == self.is_complete(),
    {
        self.elapsed_us >= self.duration_us
    }

    /// Whether nothing of the transition has passed yet.
    pub fn at_start(&self) -> (b: bool)
        ensures
            b == self.is_zero(),
    {
        self.elapsed_us == 0 && self.duration_us > 0
    }

    /// Progress in parts per million, rounded down: what a shader is handed as a fraction.
    pub fn parts_per_million(&self) -> (ppm: u32)
        requires
            self.wf(),
        ensures
            ppm as int == (self.elapsed_us as int * 1_000_000) / (self.duration_us as int),
            ppm <= 1_000_000,
            ppm == 1_000_000 <==> self.is_complete(),
    {
        let scaled: u128 = (self.elapsed_us as u128) * 1_000_000u128;
        let q: u128 = scaled / (self.duration_us as u128);
        proof {
            let e = self.elapsed_us as int;
            let d = self.duration_us as int;
            assert(e * 1_000_000 <= d * 1_000_000) by (nonlinear_arith)
                requires
                    e <= d,
            ;
            assert((e * 1_000_000) / d <= 1_000_000) by (nonlinear_arith)
                requires
                    e * 1_000_000 <= d * 1_000_000,
                    d > 0,
            ;
            assert(e < d ==> (e * 1_000_000) / d < 1_000_000) by (nonlinear_arith)
                requires
                    d > 0,
                    e >= 0,
            ;
            assert(e == d ==> (e * 1_000_000) / d == 1_000_000) by (nonlinear_arith)
                requires
                    d > 0,
            ;
        }
        q as u32
    }
}

impl AnchorPolicy {
    /// The policy the engine starts with: stale past 80 % of the duration, re-anchored 100 ms back.
    pub fn standard() -> (p: AnchorPolicy)
        ensures
            p.stale_percent == DEFAULT_STALE_PERCENT,
            p.reanchor_offset_us == DEFAULT_REANCHOR_OFFSET_US,
    {
        AnchorPolicy {
            stale_percent: DEFAULT_STALE_PERCENT,
            reanchor_offset_us: DEFAULT_REANCHOR_OFFSET_US,
        }
    }
}

/// Microseconds from `start` to `now`; zero when the clock reads earlier than `start`.
pub fn elapsed_since(start: u64, now: u64) -> (e: u64)
    ensures
        e == elapsed_between(start, now),
{
    if now >= start {
        now - start
    } else {
        0
    }
}

/// Length in microseconds of a transition configured in milliseconds, at least one millisecond.
pub fn transition_duration_us(transition_time_ms: u32) -> (d: u64)
    ensures
        d == duration_us_of(transition_time_ms),
        d >= 1000,
{
    let ms: u32 = if transition_time_ms < MIN_TRANSITION_MS {
        MIN_TRANSITION_MS
    } else {
        transition_time_ms
    };
    (ms as u64) * 1000
}

/// Whether a shared anchor that is `age_us` old is too old for a transition of `duration_us`.
pub fn is_stale_anchor(policy: &AnchorPolicy, age_us: u64, duration_us: u64) -> (stale: bool)
    ensures
        stale == anchor_is_stale(*policy, age_us, duration_us),
{
    proof {
        assert(duration_us as int * policy.stale_percent as int
            <= 0xffff_ffff_ffff_ffff * 0xffff_ffff_ffff_ffff) by (nonlinear_arith)
            requires
                0 <= duration_us as int <= 0xffff_ffff_ffff_ffff,
                0 <= policy.stale_percent as int <= 0xffff_ffff_ffff_ffff,
        ;
    }
    let lhs: u128 = (age_us as u128) * 100u128;
    let rhs: u128 = (duration_us as u128) * (policy.stale_percent as u128);
    lhs > rhs
}

/// Picks the instant a transition first drawn at `now` is anchored to.
///
/// Without a shared anchor the transition starts now. A shared anchor is
/// reused unless it is stale; a stale one is replaced by `now` less the
/// policy's offset (or `now`, where the clock has not yet run that long).
pub fn choose_anchor(
    policy: &AnchorPolicy,
    batch_start: Option<u64>,
    now: u64,
    duration_us: u64,
) -> (anchor: u64)
    ensures
        anchor == anchor_for(*policy, batch_start, now, duration_us),
{
    match batch_start {
        Some(start) => {
            let age = elapsed_since(start, now);
            if is_stale_anchor(policy, age, duration_us) {
                if now >= policy.reanchor_offset_us {
                    now - policy.reanchor_offset_us
                } else {
                    now
                }
            } else {
                start
            }
        },
        None => now,
    }
}

/// Progress never regresses while the anchor is fixed: a later clock reading
/// gives at least as much progress.
pub proof fn lemma_progress_monotonic(anchor: u64, earlier: u64, later: u64, duration_us: u64)
    requires
        earlier <= later,
    ensures
        progress_at(anchor, earlier, duration_us).le(progress_at(anchor, later, duration_us)),
        progress_at(anchor, earlier, duration_us).elapsed_us <= progress_at(
            anchor,
            later,
            duration_us,
        ).elapsed_us,
        progress_at(anchor, earlier, duration_us).is_complete() ==> progress_at(
            anchor,
            later,
            duration_us,
        ).is_complete(),
{
    let a = progress_at(anchor, earlier, duration_us);
    let b = progress_at(anchor, later, duration_us);
    assert(a.duration_us == b.duration_us);
    assert(a.elapsed_us <= b.elapsed_us);
    assert(a.elapsed_us * b.duration_us <= b.elapsed_us * a.duration_us) by (nonlinear_arith)
        requires
            a.duration_us == b.duration_us,
            a.elapsed_us <= b.elapsed_us,
    ;
}

/// A transition is complete exactly from the instant that lies its whole
/// duration after the anchor.
pub proof fn lemma_complete_after_duration(anchor: u64, now: u64, duration_us: u64)
    ensures
        progress_at(anchor, now, duration_us).wf(),
        progress_at(anchor, now, duration_us).is_complete() <==> now as int >= anchor as int
            + duration_us as int || duration_us == 0,
{
}

/// A stale shared anchor never hides the transition: re-anchored, a transition
/// longer than the policy's offset is short of its end on its first frame.
pub proof fn lemma_reanchor_keeps_transition_visible(
    policy: AnchorPolicy,
    batch_start: u64,
    now: u64,
    duration_us: u64,
)
    requires
        anchor_is_stale(policy, elapsed_between(batch_start, now), duration_us),
        duration_us > policy.reanchor_offset_us,
    ensures
        !progress_at(
            anchor_for(policy, Some(batch_start), now, duration_us),
            now,
            duration_us,
        ).is_complete(),
        elapsed_between(anchor_for(policy, Some(batch_start), now, duration_us), now)
            <= policy.reanchor_offset_us,
{
}

/// A shared anchor that is not stale is kept, so outputs of one batch run in step.
pub proof fn lemma_fresh_anchor_is_shared(
    policy: AnchorPolicy,
    batch_start: u64,
    now: u64,
    duration_us: u64,
)
    requires
        !anchor_is_stale(policy, elapsed_between(batch_start, now), duration_us),
    ensures
        anchor_for(policy, Some(batch_start), now, duration_us) == batch_start,
{
}

} // verus!
