//! What the engine guarantees across calls, proved from the rules of the
//! output state and of the timing.

use crate::content::ContentFrame;
use crate::content::ContentType;
use crate::renderer::later_progress;
use crate::renderer::Renderer;
use crate::renderer::TransitionEvent;
use crate::renderer::TransitionState;
use crate::timing::anchor_for;
use crate::timing::elapsed_between;
use crate::timing::progress_at;
use crate::timing::AnchorPolicy;
use vstd::prelude::*;

verus! {

/// The anchor a transition gets is never later than the tick that sets it,
/// unless the batch anchor itself lies in the future.
pub proof fn lemma_anchor_not_after_tick(
    policy: AnchorPolicy,
    batch_start: Option<u64>,
    now: u64,
    duration_us: u64,
)
    requires
        batch_start matches Some(start) ==> start <= now,
    ensures
        anchor_for(policy, batch_start, now, duration_us) <= now,
{
}

/// A transition that is starting, with content to fade to, is over once the
/// clock has moved on by its duration: a tick at `start` followed by a tick
/// at `start` plus the duration leaves the output idle at progress one,
/// without previous content, and says so.
///
/// A batch anchor that lies after `start` would postpone the transition, so
/// it is left out.
pub proof fn lemma_transition_completes_after_duration<T, B>(r: Renderer<T, B>, start: u64)
    requires
        r.state() == TransitionState::Starting,
        r.current_texture.is_some(),
        r.transition_duration > 0,
        start + r.transition_duration <= u64::MAX,
        r.batch_start_time matches Some(batch) ==> batch <= start,
    ensures
        ({
            let end = (start + r.transition_duration) as u64;
            let done = r.after_advance(start).after_advance(end);
            &&& done.transition_progress.is_complete()
            &&& done.prev_texture.is_none()
            &&& done.state() == TransitionState::Idle
            &&& done.transition_just_completed
            &&& done.current_texture == r.current_texture
        }),
{
    let end = (start + r.transition_duration) as u64;
    let first = r.after_advance(start);
    let anchor = r.anchor_at(start);
    lemma_anchor_not_after_tick(
        r.anchor_policy,
        r.batch_start_time,
        start,
        r.transition_duration,
    );
    if r.completes_at(start) {
        assert(first.after_advance(end) == first);
    } else {
        assert(first.transition_start_time == Some(anchor));
        assert(first.transition_active);
        let computed = progress_at(anchor, end, first.transition_duration);
        assert(elapsed_between(anchor, end) >= first.transition_duration);
        assert(computed.is_complete());
        lemma_later_progress_keeps_completion(first.transition_progress, computed);
        assert(first.completes_at(end));
    }
}

/// A running transition with content to fade to ends on the first tick that
/// comes its whole duration after the anchor, whenever that tick comes.
pub proof fn lemma_running_transition_ends<T, B>(r: Renderer<T, B>, frame_time: u64)
    requires
        r.state() == TransitionState::Running,
        r.current_texture.is_some(),
        r.transition_duration > 0,
        frame_time >= r.transition_start_time.unwrap() + r.transition_duration,
    ensures
        r.after_advance(frame_time).state() == TransitionState::Idle,
        r.after_advance(frame_time).prev_texture.is_none(),
        r.after_advance(frame_time).transition_progress.is_complete(),
        r.after_advance(frame_time).transition_stats.is_none(),
{
    let anchor = r.transition_start_time.unwrap();
    let computed = progress_at(anchor, frame_time, r.transition_duration);
    assert(computed.is_complete());
    lemma_later_progress_keeps_completion(r.transition_progress, computed);
}

/// Whichever of two fractions is the later, it is complete where the computed one is.
proof fn lemma_later_progress_keeps_completion(
    held: crate::timing::Progress,
    computed: crate::timing::Progress,
)
    requires
        computed.is_complete(),
        computed.duration_us > 0,
    ensures
        later_progress(held, computed).is_complete(),
{
    if computed.le(held) {
        assert(held.elapsed_us >= held.duration_us) by (nonlinear_arith)
            requires
                computed.elapsed_us * held.duration_us <= held.elapsed_us * computed.duration_us,
                computed.elapsed_us >= computed.duration_us,
                computed.duration_us > 0,
        ;
    }
}

/// Progress never regresses: whatever the clock says on a tick, a running
/// transition has at least the progress it had.
pub proof fn lemma_progress_never_regresses<T, B>(r: Renderer<T, B>, frame_time: u64)
    requires
        r.state() == TransitionState::Running,
    ensures
        r.transition_progress.le(r.after_advance(frame_time).transition_progress),
{
    let held = r.transition_progress;
    let computed = progress_at(r.anchor_at(frame_time), frame_time, r.transition_duration);
    let kept = later_progress(held, computed);
    assert(r.after_advance(frame_time).transition_progress == kept);
    if computed.le(held) {
        assert(held.le(held));
    } else {
        assert(held.le(computed));
    }
}

/// A frame of an older session than the accepted one of its kind alters
/// nothing: not the current content, nor anything else of the output.
pub proof fn lemma_stale_frame_changes_nothing<T, B>(
    r: Renderer<T, B>,
    frame: ContentFrame,
    texture: T,
    now: u64,
)
    requires
        frame.session_id < r.accepted_session(frame.kind),
    ensures
        !r.accepts(frame),
        r.after_apply_frame(frame, texture) == r,
        r.after_upload_frame(frame, now) == r,
        r.after_apply_frame(frame, texture).current_texture == r.current_texture,
{
}

/// A cleared output takes no video frame, whatever its session: video has
/// to be announced anew.
pub proof fn lemma_clear_closes_video<T, B>(r: Renderer<T, B>, frame: ContentFrame)
    requires
        frame.kind == ContentType::Video,
    ensures
        !r.after_clear().accepts(frame),
        r.after_clear().active_video_session_id == 0,
        !r.after_clear().after_clear().accepts(frame),
{
}

/// The session that a switch announces is the session whose frames are
/// taken, whatever went before: the frames of that session are accepted, the
/// frames of older sessions are not, and after a switch to video an image of
/// an older session is not either.
pub proof fn lemma_switch_opens_its_session<T, B>(
    r: Renderer<T, B>,
    kind: ContentType,
    session_id: u64,
    batch_id: Option<u64>,
    batch_anchor: Option<u64>,
    frame: ContentFrame,
)
    ensures
        ({
            let switched = r.after_start_switch(kind, session_id, batch_id, batch_anchor);
            &&& switched.accepted_session(kind) == session_id
            &&& frame.kind == kind ==> (switched.accepts(frame) <==> frame.session_id >= session_id)
            &&& frame.kind == ContentType::Image ==> (switched.accepts(frame) <==> frame.session_id
                >= session_id)
        }),
{
}

/// An image is taken on the strength of its session alone, and images are
/// what the output expects once one is taken.
pub proof fn lemma_image_is_taken_by_its_session<T, B>(
    r: Renderer<T, B>,
    frame: ContentFrame,
    texture: T,
)
    requires
        frame.kind == ContentType::Image,
        frame.session_id >= r.active_image_session_id,
    ensures
        r.accepts(frame),
        r.after_apply_frame(frame, texture).current_texture == Some(texture),
        r.after_apply_frame(frame, texture).valid_content_type == ContentType::Image,
        r.after_apply_frame(frame, texture).needs_redraw,
        r.after_apply_frame(frame, texture).active_image_session_id == frame.session_id,
{
}

/// Switching twice without a frame in between is switching once: the second
/// call finds no current content and leaves the previous content, and all
/// else, as the first call left it.
pub proof fn lemma_switch_content_idempotent<T, B>(r: Renderer<T, B>)
    ensures
        r.after_switch_content().after_switch_content() == r.after_switch_content(),
        r.after_switch_content().after_switch_content().prev_texture
            == r.after_switch_content().prev_texture,
        r.current_texture.is_some() ==> r.after_switch_content().prev_texture
            == r.current_texture,
{
}

/// Without previous content there is nothing to fade from: the first frame
/// after a switch completes the switch at once.
pub proof fn lemma_first_content_shows_at_once<T, B>(
    r: Renderer<T, B>,
    frame: ContentFrame,
    texture: T,
)
    requires
        r.accepts(frame),
        r.frame_decides_transition(frame),
        r.prev_texture.is_none(),
    ensures
        r.after_apply_frame(frame, texture).state() == TransitionState::Idle,
        r.after_apply_frame(frame, texture).transition_progress.is_complete(),
        r.after_apply_frame(frame, texture).transition_just_completed,
        r.after_apply_frame(frame, texture).prev_texture.is_none(),
        r.after_apply_frame(frame, texture).current_texture == Some(texture),
{
}

/// With previous content the first frame after a switch starts the
/// transition anew: active, without anchor, at progress zero.
pub proof fn lemma_frame_after_switch_starts_transition<T, B>(
    r: Renderer<T, B>,
    frame: ContentFrame,
    texture: T,
)
    requires
        r.accepts(frame),
        r.frame_decides_transition(frame),
        r.prev_texture.is_some(),
    ensures
        r.after_apply_frame(frame, texture).state() == TransitionState::Starting,
        r.after_apply_frame(frame, texture).transition_progress.is_zero(),
        r.after_apply_frame(frame, texture).prev_texture == r.prev_texture,
        r.after_apply_frame(frame, texture).current_texture == Some(texture),
{
}

/// Previous content leaves on the tick that ends the transition, and on no
/// other tick.
pub proof fn lemma_previous_cleared_exactly_at_completion<T, B>(r: Renderer<T, B>, frame_time: u64)
    ensures
        r.completes_at(frame_time) ==> r.after_advance(frame_time).prev_texture.is_none()
            && r.after_advance(frame_time).transition_stats.is_none() && !r.after_advance(
            frame_time,
        ).transition_active,
        !r.completes_at(frame_time) ==> r.after_advance(frame_time).prev_texture == r.prev_texture
            && r.after_advance(frame_time).transition_active == r.transition_active,
{
}

/// The end of a transition is reported once: the tick that ends it says so,
/// and the ticks after it find no transition.
pub proof fn lemma_completion_is_reported_once<T, B>(r: Renderer<T, B>, ended_at: u64, later: u64)
    requires
        r.completes_at(ended_at),
    ensures
        r.event_at(ended_at) is Completed,
        r.after_advance(ended_at).event_at(later) == TransitionEvent::Inactive,
        r.after_advance(ended_at).after_advance(later) == r.after_advance(ended_at),
{
}

/// Every rule keeps what holds of a new output; here for the rules that
/// bring content in and take a transition through its states.
pub proof fn lemma_rules_keep_the_invariant<T, B>(
    r: Renderer<T, B>,
    frame: ContentFrame,
    texture: T,
    now: u64,
)
    requires
        r.inv(),
    ensures
        r.after_switch_content().inv(),
        r.after_apply_frame(frame, texture).inv(),
        r.after_upload_frame(frame, now).inv(),
        r.after_advance(now).inv(),
        r.after_abort().inv(),
        r.after_clear().inv(),
        r.after_present(now).inv(),
{
}

/// While a transition can be drawn the composition is shown; with the
/// composition buffer missing the previous content stands in; idle, the
/// current content is shown.
pub proof fn lemma_blit_source_follows_state<T, B>(r: Renderer<T, B>)
    ensures
        r.renders_transition() ==> r.blit_source() == Some(crate::renderer::BlitSource::Composition),
        r.transition_active && r.prev_texture.is_some() && r.current_texture.is_some()
            && r.composition_texture.is_none() ==> r.blit_source() == Some(
            crate::renderer::BlitSource::Prev,
        ),
        !r.transition_active && r.current_texture.is_some() ==> r.blit_source() == Some(
            crate::renderer::BlitSource::Current,
        ),
        r.blit_source().is_none() <==> r.current_texture.is_none() && r.prev_texture.is_none(),
{
}

} // verus!
