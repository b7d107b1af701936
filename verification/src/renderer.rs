//! The state of one output and the rules that move it.
//!
//! An output shows its current content and, while a transition runs, fades
//! from its previous content. The state machine is
//!
//! - idle: no transition;
//! - starting: a switch was asked for, the transition has no anchor yet;
//! - running: the transition is anchored and its progress follows the clock.
//!
//! Every rule is a function of the state and of what the caller reports; the
//! caller owns the device and does what the returned value asks for. Textures
//! and bind groups are values of the caller's types `T` and `B`: the state
//! keeps them, hands them out and drops them, and never looks inside.
//!
//! A tick of an output goes through the rules in this order:
//!
//! 1. `begin_render` says whether anything is drawn. An unconfigured surface
//!    is configured first (`resize_checked`, `finish_resize`) and the tick
//!    goes on with `resume_render`.
//! 2. The caller acquires a presentation target; if it cannot,
//!    `surface_error` takes note and the tick is over.
//! 3. `advance_transition` moves the transition to the time of the tick.
//! 4. `composition_plan` says whether a composition buffer has to be made,
//!    and `install_composition` takes it.
//! 5. `draw_plan` says what is drawn. The caller encodes the passes, keeps
//!    the bind groups it had to make with `set_transition_bind_group` and
//!    `set_blit_bind_group`, and asks for a frame callback through
//!    `request_frame_callback` where the plan says so.
//! 6. The caller submits and presents, and `finish_render` closes the tick.
//!
//! Content arrives between ticks: `switch_content` begins the move to new
//! content, `upload_frame` and `apply_frame` bring a decoded frame in, and
//! `abort_transition` gives up on content that failed to load.

use crate::content::ContentFrame;
use crate::content::ContentType;
use crate::texture_pool::bumped;
use crate::texture_pool::fresh_entries;
use crate::texture_pool::released_into;
use crate::texture_pool::TexturePool;
use crate::texture_pool::TexturePoolEntry;
use crate::texture_pool::TEXTURE_TTL_US;
use crate::timing::anchor_for;
use crate::timing::choose_anchor;
use crate::timing::duration_us_of;
use crate::timing::elapsed_between;
use crate::timing::elapsed_since;
use crate::timing::progress_at;
use crate::timing::transition_duration_us;
use crate::timing::AnchorPolicy;
use crate::timing::Progress;
use crate::timing::DEFAULT_REANCHOR_OFFSET_US;
use crate::timing::DEFAULT_STALE_PERCENT;
use crate::transition::Transition;
use vstd::prelude::*;

verus! {

/// A frame callback that has been outstanding for longer than this is taken as lost.
pub const FRAME_CALLBACK_TIMEOUT_US: u64 = 500_000;

/// Length of a transition on an output that was never configured.
pub const DEFAULT_TRANSITION_US: u64 = 1_000_000;

/// Where a transition stands.
#[derive(Debug, Clone, Copy, PartialEq, Eq, Structural)]
pub enum TransitionState {
    Idle,
    Starting,
    Running,
}

/// Which texture is copied to the presentation surface.
#[derive(Debug, Clone, Copy, PartialEq, Eq, Structural)]
pub enum BlitSource {
    Current,
    Prev,
    Composition,
}

/// Why no presentation target could be had.
#[derive(Debug, Clone, Copy, PartialEq, Eq, Structural)]
pub enum SurfaceError {
    Lost,
    Outdated,
    Timeout,
    Other,
}

/// Bookkeeping of the transition that runs.
#[derive(Debug, Clone, Copy, PartialEq, Eq, Structural)]
pub struct TransitionStats {
    pub start_time: u64,
    pub frame_count: u64,
    pub target_duration: u64,
    pub batch_id: Option<u64>,
}

/// What is said once about a transition that has ended.
#[derive(Debug, Clone, Copy, PartialEq, Eq, Structural)]
pub struct TransitionReport {
    /// Time from the anchor to the tick that ended the transition.
    pub elapsed_us: u64,
    /// Frames drawn after the one that anchored the transition.
    pub frame_count: u64,
    /// The length the transition was meant to have.
    pub target_duration_us: u64,
    pub batch_id: Option<u64>,
}

/// What a tick did to the transition.
#[derive(Debug, Clone, Copy, PartialEq, Eq, Structural)]
pub enum TransitionEvent {
    /// No transition was active.
    Inactive,
    /// The transition got its anchor on this tick.
    Started { anchor: u64 },
    /// The transition moved on.
    Advanced,
    /// The transition ended on this tick and the previous content is gone.
    Completed { report: TransitionReport },
}

/// What `begin_render` lets the caller do.
#[derive(Debug, Clone, Copy, PartialEq, Eq, Structural)]
pub enum RenderGate {
    /// The surface is not configured but has a size: configure it, then ask again with `resume_render`.
    Reconfigure { width: u32, height: u32 },
    /// Nothing is drawn on this tick.
    Skip,
    /// Acquire a presentation target and draw.
    Acquire,
}

/// What a resize asks of the caller.
#[derive(Debug, Clone, Copy, PartialEq, Eq, Structural)]
pub enum ResizePlan {
    /// A side is zero: nothing changes.
    Ignored,
    /// The surface offers no format yet: it stays unconfigured.
    NotReady,
    /// Configure the surface with this size and format, make a composition
    /// texture of this size and hand it to `finish_resize`.
    Configure { width: u32, height: u32, format: u32 },
}

/// What the composition buffer needs before a transition can be drawn.
#[derive(Debug, Clone, Copy, PartialEq, Eq, Structural)]
pub enum CompositionPlan {
    /// Nothing to do.
    Ready,
    /// Make a composition texture of this size and hand it to `install_composition`.
    Create { width: u32, height: u32 },
    /// The surface has no size: no buffer can be made.
    InvalidDimensions,
}

/// What a tick draws.
#[derive(Debug, Clone, Copy, PartialEq, Eq, Structural)]
pub enum DrawPlan {
    /// Nothing is drawn and nothing presented.
    Nothing,
    Draw {
        /// The transition effect is drawn into the composition buffer first.
        transition_pass: bool,
        /// The bind group for the transition pass has to be made.
        bind_transition: bool,
        /// The texture that is copied to the surface.
        source: BlitSource,
        /// The bind group for the copy has to be made.
        bind_blit: bool,
        /// The frame asks for the next frame callback.
        request_callback: bool,
    },
}

/// Where the pixels of an accepted frame go.
pub enum UploadTarget<T> {
    /// The frame is stale: drop it.
    Discarded,
    /// Write into the current texture; nothing else is to be done.
    WriteCurrent,
    /// Write into this texture, which came from the pool, then apply the frame with it.
    Write { texture: T },
    /// Make a texture of the frame's size, write into it, then apply the frame with it.
    Allocate,
}

/// What became of a frame handed to `apply_frame`.
pub enum FrameOutcome<T> {
    /// The frame was stale. Nothing changed; the texture comes back.
    Rejected { texture: T },
    /// The frame is the current content. What it displaced comes back.
    Applied { displaced: Option<T>, first_frame_latency_us: Option<u64> },
}

/// The state of one output.
pub struct Renderer<T, B> {
    pub name: String,
    /// Size the surface is configured with, or will be.
    pub width: u32,
    pub height: u32,
    /// Format the surface is configured with, as the caller numbers its formats.
    pub format: u32,
    pub configured: bool,
    pub needs_redraw: bool,
    pub last_present_time: u64,
    pub frame_callback_pending: bool,
    pub last_frame_request: Option<u64>,
    pub composition_texture: Option<T>,
    pub current_texture: Option<T>,
    /// Width and height of the current content: its aspect ratio.
    pub current_aspect: (u32, u32),
    pub prev_texture: Option<T>,
    pub prev_aspect: (u32, u32),
    pub transition_progress: Progress,
    pub transition_start_time: Option<u64>,
    pub transition_active: bool,
    pub transition_just_completed: bool,
    pub active_transition: Transition,
    /// Length of a transition in microseconds.
    pub transition_duration: u64,
    pub transition_stats: Option<TransitionStats>,
    /// Size of the texture that holds, or last held, the current content.
    pub current_texture_size: Option<(u32, u32)>,
    pub transition_bind_group: Option<B>,
    pub blit_bind_group: Option<B>,
    pub blit_source_is_composition: bool,
    pub blit_source_is_prev: bool,
    pub transition_rendered_this_frame: bool,
    pub valid_content_type: ContentType,
    /// Video frames of an older session than this are dropped.
    pub active_video_session_id: u64,
    /// Whether a video session has been announced since the output was made
    /// or cleared. Until one is, no video frame is taken.
    pub video_session_expected: bool,
    /// Images of an older session than this are dropped.
    pub active_image_session_id: u64,
    pub active_batch_id: Option<u64>,
    pub batch_start_time: Option<u64>,
    pub anchor_policy: AnchorPolicy,
    pub video_first_frame_time: Option<u64>,
    /// No frame has become the current content since the last switch.
    pub awaiting_first_frame: bool,
}

/// Which texture is shown, given what exists: the composition while a
/// transition can be drawn, else the previous content while one is under way,
/// else the current content; without current content the previous, and
/// nothing where there is neither.
pub open spec fn blit_source_for(
    transition_active: bool,
    has_prev: bool,
    has_current: bool,
    has_composition: bool,
) -> Option<BlitSource> {
    if has_current {
        if !transition_active || !has_prev {
            Some(BlitSource::Current)
        } else if has_composition {
            Some(BlitSource::Composition)
        } else {
            Some(BlitSource::Prev)
        }
    } else if has_prev {
        Some(BlitSource::Prev)
    } else {
        None
    }
}

/// Whether an output goes on asking for redraws once a frame is presented:
/// always while a transition is active, never for a still image, and for
/// video as before.
pub open spec fn redraw_after_present(
    transition_active: bool,
    kind: ContentType,
    needs_redraw: bool,
) -> bool {
    if transition_active {
        true
    } else if kind != ContentType::Video {
        false
    } else {
        needs_redraw
    }
}

/// The larger of two fractions, the first where they are equal.
pub open spec fn later_progress(held: Progress, computed: Progress) -> Progress {
    if computed.le(held) {
        held
    } else {
        computed
    }
}

/// One more frame counted.
pub open spec fn stats_after_frame(stats: Option<TransitionStats>) -> Option<TransitionStats> {
    match stats {
        Some(s) => Some(TransitionStats { frame_count: bumped(s.frame_count), ..s }),
        None => None,
    }
}

impl<T, B> Renderer<T, B> {
    /// Where the transition stands.
    pub open spec fn state(self) -> TransitionState {
        if !self.transition_active {
            TransitionState::Idle
        } else if self.transition_start_time.is_none() {
            TransitionState::Starting
        } else {
            TransitionState::Running
        }
    }

    /// What holds of every state that the rules below reach from a new output.
    ///
    /// Previous content is kept only while a transition is active or while
    /// there is no current content to show in its place; anchor and
    /// bookkeeping exist only while a transition is active; progress is a
    /// well-formed fraction, zero in a transition that has no anchor yet;
    /// the aspect of the current content is the size of its texture; and no
    /// bind group outlives a texture it binds.
    pub open spec fn inv(self) -> bool {
        &&& self.transition_progress.wf()
        &&& self.transition_duration > 0
        &&& (self.prev_texture.is_some() ==> self.transition_active
            || self.current_texture.is_none())
        &&& (self.transition_start_time.is_some() ==> self.transition_active)
        &&& (self.transition_stats.is_some() ==> self.transition_start_time.is_some())
        &&& (self.transition_start_time.is_some() ==> self.transition_stats.is_some())
        &&& (self.state() == TransitionState::Starting ==> self.transition_progress.is_zero())
        &&& (self.current_texture.is_some() ==> !self.awaiting_first_frame)
        &&& (self.current_texture.is_some() ==> self.current_texture_size == Some(
            self.current_aspect,
        ))
        &&& self.bindings_live()
    }

    /// The texture that the bind group for the blit was made from, going by the flags kept with it.
    pub open spec fn blit_bound_texture(self) -> Option<T> {
        if self.blit_source_is_composition {
            self.composition_texture
        } else if self.blit_source_is_prev {
            self.prev_texture
        } else {
            self.current_texture
        }
    }

    /// No bind group outlives a texture it binds: the one for the transition
    /// is kept only while previous and current content exist, the one for
    /// the blit only while the texture it was made from does.
    pub open spec fn bindings_live(self) -> bool {
        &&& (self.transition_bind_group.is_some() ==> self.prev_texture.is_some()
            && self.current_texture.is_some())
        &&& (self.blit_bind_group.is_some() ==> self.blit_bound_texture().is_some())
    }

    /// The texture that `source` names.
    pub open spec fn source_texture(self, source: BlitSource) -> Option<T> {
        match source {
            BlitSource::Current => self.current_texture,
            BlitSource::Prev => self.prev_texture,
            BlitSource::Composition => self.composition_texture,
        }
    }

    /// The session below which frames of `kind` are dropped.
    pub open spec fn accepted_session(self, kind: ContentType) -> u64 {
        match kind {
            ContentType::Image => self.active_image_session_id,
            ContentType::Video => self.active_video_session_id,
        }
    }

    /// Whether `frame` may become the current content. An image may, unless
    /// it is of an older session than the accepted one for images. A video
    /// frame may, unless it is of an older session than the accepted one for
    /// video; and only while the output expects video and a video session
    /// has been announced.
    pub open spec fn accepts(self, frame: ContentFrame) -> bool {
        match frame.kind {
            ContentType::Image => frame.session_id >= self.active_image_session_id,
            ContentType::Video => self.valid_content_type == ContentType::Video
                && self.video_session_expected && frame.session_id
                >= self.active_video_session_id,
        }
    }

    /// Whether applying `frame` decides the fate of the transition: an image
    /// always does, a video frame only when it is the first after a switch.
    pub open spec fn frame_decides_transition(self, frame: ContentFrame) -> bool {
        frame.kind == ContentType::Image || self.awaiting_first_frame
    }

    /// Whether `frame` can be written into the texture of the current content.
    pub open spec fn reuses_current(self, frame: ContentFrame) -> bool {
        frame.kind == ContentType::Video && self.current_texture.is_some()
            && self.current_texture_size == Some((frame.width, frame.height))
    }

    /// The state with `frame` noted as accepted for its kind. An image that
    /// is taken makes images the kind the output expects.
    pub open spec fn with_session(self, frame: ContentFrame) -> Self {
        match frame.kind {
            ContentType::Image => Renderer {
                active_image_session_id: frame.session_id,
                valid_content_type: ContentType::Image,
                ..self
            },
            ContentType::Video => Renderer { active_video_session_id: frame.session_id, ..self },
        }
    }

    /// The state with the session `session_id` announced for `kind`: frames
    /// of the kind are taken from that session on.
    pub open spec fn with_expected_session(self, kind: ContentType, session_id: u64) -> Self {
        match kind {
            ContentType::Image => Renderer { active_image_session_id: session_id, ..self },
            ContentType::Video => Renderer {
                active_video_session_id: session_id,
                video_session_expected: true,
                ..self
            },
        }
    }

    /// The state after `switch_content`.
    pub open spec fn after_switch_content(self) -> Self {
        Renderer {
            prev_texture: if self.current_texture.is_some() {
                self.current_texture
            } else {
                self.prev_texture
            },
            prev_aspect: if self.current_texture.is_some() {
                self.current_aspect
            } else {
                self.prev_aspect
            },
            current_texture: None,
            transition_progress: Progress { elapsed_us: 0, duration_us: 1 },
            transition_start_time: None,
            transition_active: true,
            transition_just_completed: false,
            transition_stats: None,
            transition_bind_group: None,
            blit_bind_group: None,
            batch_start_time: None,
            video_first_frame_time: None,
            awaiting_first_frame: true,
            needs_redraw: true,
            ..self
        }
    }

    /// The state after `abort_transition`.
    pub open spec fn after_abort(self) -> Self {
        if self.transition_active || self.current_texture.is_none() {
            Renderer {
                transition_active: false,
                transition_just_completed: false,
                transition_progress: Progress { elapsed_us: 1, duration_us: 1 },
                transition_start_time: None,
                transition_stats: None,
                prev_texture: if self.current_texture.is_some() {
                    None
                } else {
                    self.prev_texture
                },
                transition_bind_group: if self.current_texture.is_some() {
                    None
                } else {
                    self.transition_bind_group
                },
                blit_bind_group: if self.current_texture.is_some() {
                    None
                } else {
                    self.blit_bind_group
                },
                needs_redraw: true,
                ..self
            }
        } else {
            self
        }
    }

    /// The state after `clear`.
    pub open spec fn after_clear(self) -> Self {
        Renderer {
            current_texture: None,
            prev_texture: None,
            composition_texture: None,
            current_texture_size: None,
            transition_progress: Progress { elapsed_us: 1, duration_us: 1 },
            transition_active: false,
            transition_just_completed: false,
            transition_start_time: None,
            transition_stats: None,
            transition_bind_group: None,
            blit_bind_group: None,
            needs_redraw: true,
            active_video_session_id: 0,
            video_session_expected: false,
            configured: false,
            awaiting_first_frame: true,
            ..self
        }
    }

    /// The state after `apply_frame` has taken `texture` for `frame`.
    pub open spec fn after_apply_frame(self, frame: ContentFrame, texture: T) -> Self {
        if !self.accepts(frame) {
            self
        } else {
            let shown = Renderer {
                current_texture: Some(texture),
                current_aspect: (frame.width, frame.height),
                current_texture_size: Some((frame.width, frame.height)),
                needs_redraw: true,
                transition_bind_group: None,
                blit_bind_group: None,
                blit_source_is_composition: false,
                blit_source_is_prev: false,
                awaiting_first_frame: false,
                ..self.with_session(frame)
            };
            if !self.frame_decides_transition(frame) {
                if self.transition_active {
                    shown
                } else {
                    Renderer { prev_texture: None, ..shown }
                }
            } else if self.prev_texture.is_some() {
                Renderer {
                    transition_start_time: None,
                    transition_progress: Progress { elapsed_us: 0, duration_us: 1 },
                    transition_active: true,
                    transition_stats: None,
                    video_first_frame_time: None,
                    ..shown
                }
            } else {
                Renderer {
                    transition_start_time: None,
                    transition_progress: Progress { elapsed_us: 1, duration_us: 1 },
                    transition_active: false,
                    transition_just_completed: true,
                    transition_stats: None,
                    video_first_frame_time: None,
                    ..shown
                }
            }
        }
    }

    /// The size under which `upload_frame` gives the texture of the current
    /// content back to the pool, where it does.
    pub open spec fn released_size(self, frame: ContentFrame) -> Option<(u32, u32)> {
        if self.accepts(frame) && frame.kind == ContentType::Video && !self.reuses_current(frame)
            && self.current_texture.is_some() {
            self.current_texture_size
        } else {
            None
        }
    }

    /// Whether `upload_frame` asks the pool for a texture.
    pub open spec fn asks_pool(self, frame: ContentFrame) -> bool {
        self.accepts(frame) && frame.kind == ContentType::Video && !self.reuses_current(frame)
    }

    /// The state after `upload_frame` at `now`.
    pub open spec fn after_upload_frame(self, frame: ContentFrame, now: u64) -> Self {
        if !self.accepts(frame) || frame.kind == ContentType::Image {
            self
        } else if self.reuses_current(frame) {
            Renderer {
                needs_redraw: true,
                current_aspect: (frame.width, frame.height),
                ..self.with_session(frame)
            }
        } else {
            Renderer {
                current_texture: None,
                transition_bind_group: None,
                blit_bind_group: None,
                video_first_frame_time: if self.awaiting_first_frame
                    && self.video_first_frame_time.is_none() {
                    Some(now)
                } else {
                    self.video_first_frame_time
                },
                ..self
            }
        }
    }

    /// Time from the first request for a texture to the first frame of a
    /// video becoming the current content, where `apply_frame` at `now` has one to report.
    pub open spec fn first_frame_latency(self, frame: ContentFrame, now: u64) -> Option<u64> {
        if frame.kind == ContentType::Video && self.awaiting_first_frame {
            match self.video_first_frame_time {
                Some(since) => Some(elapsed_between(since, now)),
                None => None,
            }
        } else {
            None
        }
    }

    /// The state after a resize to `width` by `height` was asked for, the
    /// surface offering `formats`.
    pub open spec fn after_resize(self, width: u32, height: u32, formats: Seq<u32>) -> Self {
        if width == 0 || height == 0 {
            self
        } else if formats.len() == 0 {
            Renderer { configured: false, ..self }
        } else {
            Renderer {
                width,
                height,
                format: if formats.contains(self.format) {
                    self.format
                } else {
                    formats[0]
                },
                ..self
            }
        }
    }

    /// What a resize to `width` by `height` asks of the caller.
    pub open spec fn resize_plan(self, width: u32, height: u32, formats: Seq<u32>) -> ResizePlan {
        if width == 0 || height == 0 {
            ResizePlan::Ignored
        } else if formats.len() == 0 {
            ResizePlan::NotReady
        } else {
            ResizePlan::Configure {
                width,
                height,
                format: self.after_resize(width, height, formats).format,
            }
        }
    }

    /// The state after the surface was configured and `composition` made for it.
    pub open spec fn after_finish_resize(self, composition: T) -> Self {
        Renderer {
            composition_texture: Some(composition),
            transition_bind_group: None,
            blit_bind_group: None,
            configured: true,
            needs_redraw: true,
            ..self
        }
    }

    /// The anchor the transition has after a tick at `frame_time`.
    pub open spec fn anchor_at(self, frame_time: u64) -> u64 {
        match self.transition_start_time {
            Some(anchor) => anchor,
            None => anchor_for(
                self.anchor_policy,
                self.batch_start_time,
                frame_time,
                self.transition_duration,
            ),
        }
    }

    /// The progress the transition has after a tick at `frame_time`: what the
    /// clock gives, but never less than what it had.
    pub open spec fn progress_after_tick(self, frame_time: u64) -> Progress {
        let computed = progress_at(self.anchor_at(frame_time), frame_time, self.transition_duration);
        match self.transition_start_time {
            Some(_) => later_progress(self.transition_progress, computed),
            None => computed,
        }
    }

    /// Whether a tick at `frame_time` ends the transition: it is active, its
    /// progress has reached one, and there is current content to show.
    pub open spec fn completes_at(self, frame_time: u64) -> bool {
        self.transition_active && self.progress_after_tick(frame_time).is_complete()
            && self.current_texture.is_some()
    }

    /// The bookkeeping the transition has after a tick at `frame_time`.
    pub open spec fn stats_after_tick(self, frame_time: u64) -> Option<TransitionStats> {
        match self.transition_start_time {
            Some(_) => stats_after_frame(self.transition_stats),
            None => Some(
                TransitionStats {
                    start_time: self.anchor_at(frame_time),
                    frame_count: 0,
                    target_duration: self.transition_duration,
                    batch_id: self.active_batch_id,
                },
            ),
        }
    }

    /// What is reported of a transition that a tick at `frame_time` ends.
    pub open spec fn report_at(self, frame_time: u64) -> TransitionReport {
        match self.stats_after_tick(frame_time) {
            Some(s) => TransitionReport {
                elapsed_us: elapsed_between(s.start_time, frame_time),
                frame_count: s.frame_count,
                target_duration_us: s.target_duration,
                batch_id: s.batch_id,
            },
            None => TransitionReport {
                elapsed_us: elapsed_between(self.anchor_at(frame_time), frame_time),
                frame_count: 0,
                target_duration_us: self.transition_duration,
                batch_id: self.active_batch_id,
            },
        }
    }

    /// The state after `advance_transition` at `frame_time`.
    pub open spec fn after_advance(self, frame_time: u64) -> Self {
        if !self.transition_active {
            self
        } else if self.completes_at(frame_time) {
            Renderer {
                transition_progress: self.progress_after_tick(frame_time),
                transition_active: false,
                transition_just_completed: true,
                transition_start_time: None,
                transition_stats: None,
                prev_texture: None,
                transition_bind_group: None,
                blit_bind_group: None,
                ..self
            }
        } else {
            Renderer {
                transition_progress: self.progress_after_tick(frame_time),
                transition_start_time: Some(self.anchor_at(frame_time)),
                transition_stats: self.stats_after_tick(frame_time),
                ..self
            }
        }
    }

    /// What `advance_transition` at `frame_time` reports.
    pub open spec fn event_at(self, frame_time: u64) -> TransitionEvent {
        if !self.transition_active {
            TransitionEvent::Inactive
        } else if self.completes_at(frame_time) {
            TransitionEvent::Completed { report: self.report_at(frame_time) }
        } else if self.transition_start_time.is_none() {
            TransitionEvent::Started { anchor: self.anchor_at(frame_time) }
        } else {
            TransitionEvent::Advanced
        }
    }

    /// Which texture a tick copies to the surface.
    pub open spec fn blit_source(self) -> Option<BlitSource> {
        blit_source_for(
            self.transition_active,
            self.prev_texture.is_some(),
            self.current_texture.is_some(),
            self.composition_texture.is_some(),
        )
    }

    /// Whether the transition effect itself can be drawn on this tick.
    pub open spec fn renders_transition(self) -> bool {
        self.transition_active && self.prev_texture.is_some() && self.current_texture.is_some()
            && self.composition_texture.is_some()
    }

    /// What `begin_render` answers.
    pub open spec fn gate(self) -> RenderGate {
        if !self.configured {
            if self.width > 0 && self.height > 0 {
                RenderGate::Reconfigure { width: self.width, height: self.height }
            } else {
                RenderGate::Skip
            }
        } else if !self.transition_active && !self.needs_redraw {
            RenderGate::Skip
        } else {
            RenderGate::Acquire
        }
    }

    /// What `resume_render` answers.
    pub open spec fn resumed_gate(self) -> RenderGate {
        if !self.configured || (!self.transition_active && !self.needs_redraw) {
            RenderGate::Skip
        } else {
            RenderGate::Acquire
        }
    }

    /// The state after a presentation target could not be had.
    pub open spec fn after_surface_error(self, error: SurfaceError) -> Self {
        match error {
            SurfaceError::Lost | SurfaceError::Outdated => Renderer {
                configured: false,
                needs_redraw: true,
                frame_callback_pending: false,
                ..self
            },
            SurfaceError::Timeout => Renderer { needs_redraw: true, ..self },
            SurfaceError::Other => self,
        }
    }

    /// What the composition buffer needs.
    pub open spec fn composition_need(self) -> CompositionPlan {
        if !self.transition_active {
            CompositionPlan::Ready
        } else if self.width == 0 || self.height == 0 {
            CompositionPlan::InvalidDimensions
        } else if self.composition_texture.is_none() {
            CompositionPlan::Create { width: self.width, height: self.height }
        } else {
            CompositionPlan::Ready
        }
    }

    /// Whether the bind group for the blit has to be made anew for `source`.
    pub open spec fn blit_binding_is_stale(self, source: BlitSource) -> bool {
        self.blit_bind_group.is_none() || self.blit_source_is_composition != (source
            == BlitSource::Composition) || self.blit_source_is_prev != (source == BlitSource::Prev)
    }

    /// What a tick draws, `program_available` saying whether there is a
    /// program for the effect. A transition that could be drawn but has no
    /// program leaves the frame out; so does an output with nothing to show.
    pub open spec fn draw_plan_for(self, program_available: bool) -> DrawPlan {
        if self.renders_transition() && !program_available {
            DrawPlan::Nothing
        } else {
            match self.blit_source() {
                None => DrawPlan::Nothing,
                Some(source) => DrawPlan::Draw {
                    transition_pass: self.renders_transition(),
                    bind_transition: self.renders_transition()
                        && self.transition_bind_group.is_none(),
                    source,
                    bind_blit: self.blit_binding_is_stale(source),
                    request_callback: self.frame_wants_callback(),
                },
            }
        }
    }

    /// Whether a request for a frame callback is still outstanding at `now`.
    pub open spec fn callback_outstanding(self, now: u64) -> bool {
        self.frame_callback_pending && match self.last_frame_request {
            Some(at) => elapsed_between(at, now) <= FRAME_CALLBACK_TIMEOUT_US,
            None => false,
        }
    }

    /// The state after `request_frame_callback` at `now`.
    pub open spec fn after_frame_request(self, now: u64) -> Self {
        if self.callback_outstanding(now) {
            self
        } else {
            Renderer { frame_callback_pending: true, last_frame_request: Some(now), ..self }
        }
    }

    /// Whether a drawn frame asks for the next frame callback: when none is
    /// pending, and always on the first frame of a transition.
    pub open spec fn frame_wants_callback(self) -> bool {
        !self.frame_callback_pending || self.transition_progress.is_zero()
    }

    /// Whether the loop has to ask for a frame callback between draws.
    pub open spec fn loop_wants_callback(self) -> bool {
        (self.needs_redraw || self.transition_active || self.valid_content_type
            == ContentType::Video) && !self.frame_callback_pending
    }

    /// The state after a frame was presented at `now`.
    pub open spec fn after_present(self, now: u64) -> Self {
        Renderer {
            transition_start_time: if self.transition_active {
                self.transition_start_time
            } else {
                None
            },
            last_present_time: now,
            needs_redraw: redraw_after_present(
                self.transition_active,
                self.valid_content_type,
                self.needs_redraw,
            ),
            ..self
        }
    }
}

impl TransitionReport {
    /// How much longer than meant the transition took; negative where it was shorter.
    pub open spec fn drift(self) -> int {
        self.elapsed_us - self.target_duration_us
    }

    /// How much longer than meant the transition took, in microseconds;
    /// negative where it was shorter.
    pub fn drift_us(&self) -> (drift: i128)
        ensures
            drift == self.drift(),
    {
        (self.elapsed_us as i128) - (self.target_duration_us as i128)
    }
}

/// Picks the texture that is copied to the surface, from what exists.
pub fn select_blit_source(
    transition_active: bool,
    has_prev: bool,
    has_current: bool,
    has_composition: bool,
) -> (source: Option<BlitSource>)
    ensures
        source == blit_source_for(transition_active, has_prev, has_current, has_composition),
{
    if has_current {
        if !transition_active || !has_prev {
            Some(BlitSource::Current)
        } else if has_composition {
            Some(BlitSource::Composition)
        } else {
            Some(BlitSource::Prev)
        }
    } else if has_prev {
        Some(BlitSource::Prev)
    } else {
        None
    }
}

/// Whether an output goes on asking for redraws once a frame is presented.
pub fn keeps_redrawing(transition_active: bool, kind: ContentType, needs_redraw: bool) -> (again:
    bool)
    ensures
        again == redraw_after_present(transition_active, kind, needs_redraw),
{
    if transition_active {
        true
    } else {
        match kind {
            ContentType::Video => needs_redraw,
            ContentType::Image => false,
        }
    }
}

/// Whether `format` is among `formats`.
fn offers_format(formats: &Vec<u32>, format: u32) -> (offered: bool)
    ensures
        offered == formats@.contains(format),
{
    let mut i: usize = 0;
    while i < formats.len()
        invariant
            i <= formats@.len(),
            forall|j: int| 0 <= j < i ==> formats@[j] != format,
        decreases formats@.len() - i,
    {
        if formats[i] == format {
            return true;
        }
        i = i + 1;
    }
    false
}

/// The larger of two fractions, the held one where they are equal.
fn max_progress(held: Progress, computed: Progress) -> (p: Progress)
    ensures
        p == later_progress(held, computed),
{
    proof {
        assert(computed.elapsed_us as int * held.duration_us as int <= 0xffff_ffff_ffff_ffff
            * 0xffff_ffff_ffff_ffff) by (nonlinear_arith)
            requires
                0 <= computed.elapsed_us as int <= 0xffff_ffff_ffff_ffff,
                0 <= held.duration_us as int <= 0xffff_ffff_ffff_ffff,
        ;
        assert(held.elapsed_us as int * computed.duration_us as int <= 0xffff_ffff_ffff_ffff
            * 0xffff_ffff_ffff_ffff) by (nonlinear_arith)
            requires
                0 <= held.elapsed_us as int <= 0xffff_ffff_ffff_ffff,
                0 <= computed.duration_us as int <= 0xffff_ffff_ffff_ffff,
        ;
    }
    let lhs: u128 = (computed.elapsed_us as u128) * (held.duration_us as u128);
    let rhs: u128 = (held.elapsed_us as u128) * (computed.duration_us as u128);
    if lhs <= rhs {
        held
    } else {
        computed
    }
}

impl<T, B> Renderer<T, B> {
    /// The state of an output that has shown nothing yet: unconfigured, idle,
    /// expecting images, fading for one second.
    pub fn new(name: String) -> (r: Self)
        ensures
            r.name == name,
            r.inv(),
            r.state() == TransitionState::Idle,
            !r.configured,
            r.needs_redraw,
            r.width == 1 && r.height == 1,
            r.current_texture.is_none() && r.prev_texture.is_none()
                && r.composition_texture.is_none(),
            r.transition_bind_group.is_none() && r.blit_bind_group.is_none(),
            r.transition_progress.is_complete(),
            !r.transition_just_completed,
            r.active_transition == Transition::Fade,
            r.transition_duration == DEFAULT_TRANSITION_US,
            r.valid_content_type == ContentType::Image,
            r.active_video_session_id == 0 && r.active_image_session_id == 0,
            !r.video_session_expected,
            r.active_batch_id.is_none() && r.batch_start_time.is_none(),
            !r.frame_callback_pending && r.last_frame_request.is_none(),
            r.anchor_policy.stale_percent == DEFAULT_STALE_PERCENT,
            r.anchor_policy.reanchor_offset_us == DEFAULT_REANCHOR_OFFSET_US,
            r.awaiting_first_frame,
            r.current_texture_size.is_none(),
            r.last_present_time == 0,
    {
        Renderer {
            name,
            width: 1,
            height: 1,
            format: 0,
            configured: false,
            needs_redraw: true,
            last_present_time: 0,
            frame_callback_pending: false,
            last_frame_request: None,
            composition_texture: None,
            current_texture: None,
            current_aspect: (1, 1),
            prev_texture: None,
            prev_aspect: (1, 1),
            transition_progress: Progress::complete(),
            transition_start_time: None,
            transition_active: false,
            transition_just_completed: false,
            active_transition: Transition::Fade,
            transition_duration: DEFAULT_TRANSITION_US,
            transition_stats: None,
            current_texture_size: None,
            transition_bind_group: None,
            blit_bind_group: None,
            blit_source_is_composition: false,
            blit_source_is_prev: false,
            transition_rendered_this_frame: false,
            valid_content_type: ContentType::Image,
            active_video_session_id: 0,
            video_session_expected: false,
            active_image_session_id: 0,
            active_batch_id: None,
            batch_start_time: None,
            anchor_policy: AnchorPolicy::standard(),
            video_first_frame_time: None,
            awaiting_first_frame: true,
        }
    }

    /// Where the transition stands.
    pub fn transition_state(&self) -> (st: TransitionState)
        ensures
            st == self.state(),
    {
        if !self.transition_active {
            TransitionState::Idle
        } else if self.transition_start_time.is_none() {
            TransitionState::Starting
        } else {
            TransitionState::Running
        }
    }

    /// Sets the effect and the length of the transitions to come. A length
    /// under one millisecond counts as one millisecond.
    pub fn set_transition_config(&mut self, transition: Transition, transition_time_ms: u32)
        ensures
            *final(self) == (Renderer {
                active_transition: transition,
                transition_duration: duration_us_of(transition_time_ms),
                needs_redraw: true,
                ..*old(self)
            }),
            old(self).inv() ==> final(self).inv(),
    {
        self.active_transition = transition;
        self.transition_duration = transition_duration_us(transition_time_ms);
        self.needs_redraw = true;
    }

    /// Sets the kind of content the output expects. Video frames are dropped
    /// while images are expected; an image is taken at any time and makes
    /// images the expected kind.
    pub fn set_content_type(&mut self, content_type: ContentType)
        ensures
            *final(self) == (Renderer { valid_content_type: content_type, ..*old(self) }),
            old(self).inv() ==> final(self).inv(),
    {
        self.valid_content_type = content_type;
    }

    /// Announces the session from which frames of `kind` are taken: frames of
    /// older sessions of the kind are dropped from now on. Announcing a video
    /// session opens the output for video frames.
    pub fn expect_session(&mut self, kind: ContentType, session_id: u64)
        ensures
            *final(self) == old(self).with_expected_session(kind, session_id),
            final(self).accepted_session(kind) == session_id,
            old(self).inv() ==> final(self).inv(),
    {
        match kind {
            ContentType::Image => {
                self.active_image_session_id = session_id;
            },
            ContentType::Video => {
                self.active_video_session_id = session_id;
                self.video_session_expected = true;
            },
        }
    }

    /// Makes the transition to come part of a batch of outputs that switch
    /// together, `anchor` being the instant the batch was triggered at.
    pub fn join_batch(&mut self, batch_id: Option<u64>, anchor: Option<u64>)
        ensures
            *final(self) == (Renderer {
                active_batch_id: batch_id,
                batch_start_time: anchor,
                ..*old(self)
            }),
            old(self).inv() ==> final(self).inv(),
    {
        self.active_batch_id = batch_id;
        self.batch_start_time = anchor;
    }

    /// Begins the move to new content, which need not exist yet.
    ///
    /// The current content, where there is any, becomes the previous content;
    /// without current content the previous content stays what it was. The
    /// transition is then starting: active, without anchor, at progress zero.
    /// Cached bind groups are dropped, and so is the batch anchor.
    pub fn switch_content(&mut self)
        ensures
            *final(self) == old(self).after_switch_content(),
            final(self).state() == TransitionState::Starting,
            old(self).inv() ==> final(self).inv(),
    {
        let current = self.current_texture.take();
        if current.is_some() {
            self.prev_texture = current;
            self.prev_aspect = self.current_aspect;
        }
        self.transition_progress = Progress::zero();
        self.transition_start_time = None;
        self.transition_active = true;
        self.transition_just_completed = false;
        self.transition_stats = None;
        self.transition_bind_group = None;
        self.blit_bind_group = None;
        self.batch_start_time = None;
        self.video_first_frame_time = None;
        self.awaiting_first_frame = true;
        self.needs_redraw = true;
    }

    /// Ends the transition at once, for content that failed to load.
    ///
    /// With a transition active, or without current content, the output
    /// becomes idle at progress one. Previous content is dropped where there
    /// is current content to show; where there is none it stays, so that the
    /// output keeps showing something.
    pub fn abort_transition(&mut self)
        ensures
            *final(self) == old(self).after_abort(),
            old(self).transition_active || old(self).current_texture.is_none() ==> final(self).state() == TransitionState::Idle && final(self).transition_progress.is_complete(),
            old(self).inv() ==> final(self).inv(),
    {
        if self.transition_active || self.current_texture.is_none() {
            self.transition_active = false;
            self.transition_just_completed = false;
            self.transition_progress = Progress::complete();
            self.transition_start_time = None;
            self.transition_stats = None;
            if self.current_texture.is_some() {
                self.prev_texture = None;
                self.transition_bind_group = None;
                self.blit_bind_group = None;
            }
            self.needs_redraw = true;
        }
    }

    /// Empties the output: all textures and bind groups are dropped, the
    /// transition is idle, the surface counts as unconfigured, and no video
    /// frame is taken until a video session is announced again.
    pub fn clear(&mut self)
        ensures
            *final(self) == old(self).after_clear(),
            old(self).inv() ==> final(self).inv(),
    {
        self.current_texture = None;
        self.prev_texture = None;
        self.composition_texture = None;
        self.current_texture_size = None;
        self.transition_progress = Progress::complete();
        self.transition_active = false;
        self.transition_just_completed = false;
        self.transition_start_time = None;
        self.transition_stats = None;
        self.transition_bind_group = None;
        self.blit_bind_group = None;
        self.needs_redraw = true;
        self.active_video_session_id = 0;
        self.video_session_expected = false;
        self.configured = false;
        self.awaiting_first_frame = true;
    }

    /// Notes that the presentation surface was replaced: it has to be configured again.
    pub fn recreate_surface(&mut self)
        ensures
            *final(self) == (Renderer { configured: false, needs_redraw: true, ..*old(self) }),
            old(self).inv() ==> final(self).inv(),
    {
        self.configured = false;
        self.needs_redraw = true;
    }

    /// Whether `frame` may become the current content.
    pub fn accepts_frame(&self, frame: &ContentFrame) -> (ok: bool)
        ensures
            ok == self.accepts(*frame),
    {
        match frame.kind {
            ContentType::Image => frame.session_id >= self.active_image_session_id,
            ContentType::Video => {
                let expects_video = match self.valid_content_type {
                    ContentType::Video => true,
                    ContentType::Image => false,
                };
                expects_video && self.video_session_expected && frame.session_id
                    >= self.active_video_session_id
            },
        }
    }

    /// Decides where the pixels of `frame` go.
    ///
    /// A stale frame is discarded and nothing changes. An image always gets a
    /// texture of its own, which the caller makes. A video frame of the size
    /// of the current texture is written into that texture; the session and
    /// the aspect of the frame are taken over and a redraw is due. Any other video
    /// frame gets a texture from the pool, or a new one where the pool has
    /// none; the texture of the current content first goes back to the pool
    /// under its own size, and the bind groups that bound it are dropped.
    pub fn upload_frame(&mut self, pool: &mut TexturePool<T>, frame: &ContentFrame, now: u64) -> (target:
        UploadTarget<T>)
        requires
            old(pool).wf(),
        ensures
            final(pool).wf(),
            *final(self) == old(self).after_upload_frame(*frame, now),
            old(self).inv() ==> final(self).inv(),
            !old(self).accepts(*frame) ==> target is Discarded,
            old(self).accepts(*frame) && frame.kind == ContentType::Image ==> target is Allocate,
            old(self).accepts(*frame) && old(self).reuses_current(*frame)
                ==> target is WriteCurrent,
            !old(self).asks_pool(*frame) ==> forall|w: u32, h: u32| #[trigger]
                final(pool).bucket(w, h) == old(pool).bucket(w, h),
            !old(self).asks_pool(*frame) ==> final(pool).hit_count() == old(pool).hit_count()
                && final(pool).miss_count() == old(pool).miss_count(),
            old(self).asks_pool(*frame) ==> {
                let size = (frame.width, frame.height);
                let back = old(self).released_size(*frame);
                let waiting = if back == Some(size) {
                    released_into(
                        old(pool).bucket(size.0, size.1),
                        old(self).current_texture.unwrap(),
                        now,
                    )
                } else {
                    old(pool).bucket(size.0, size.1)
                };
                let fresh = fresh_entries(waiting, now, TEXTURE_TTL_US);
                &&& match target {
                    UploadTarget::Write { texture } => fresh.len() > 0 && texture
                        == fresh.last().texture && final(pool).bucket(size.0, size.1)
                        == fresh.drop_last() && final(pool).hit_count() == bumped(
                        old(pool).hit_count(),
                    ) && final(pool).miss_count() == old(pool).miss_count(),
                    UploadTarget::Allocate => fresh.len() == 0 && final(pool).bucket(
                        size.0,
                        size.1,
                    ) == Seq::<TexturePoolEntry<T>>::empty() && final(pool).hit_count() == old(pool).hit_count() && final(pool).miss_count() == bumped(old(pool).miss_count()),
                    _ => false,
                }
                &&& forall|w: u32, h: u32|
                    !(w == size.0 && h == size.1) ==> #[trigger] final(pool).bucket(w, h) == if back
                        == Some((w, h)) {
                        released_into(
                            old(pool).bucket(w, h),
                            old(self).current_texture.unwrap(),
                            now,
                        )
                    } else {
                        old(pool).bucket(w, h)
                    }
            },
    {
        if !self.accepts_frame(frame) {
            return UploadTarget::Discarded;
        }
        match frame.kind {
            ContentType::Image => {
                return UploadTarget::Allocate;
            },
            ContentType::Video => {},
        }
        let same_size = match self.current_texture_size {
            Some((w, h)) => w == frame.width && h == frame.height,
            None => false,
        };
        if self.current_texture.is_some() && same_size {
            self.active_video_session_id = frame.session_id;
            self.current_aspect = (frame.width, frame.height);
            self.needs_redraw = true;
            return UploadTarget::WriteCurrent;
        }
        if self.awaiting_first_frame && self.video_first_frame_time.is_none() {
            self.video_first_frame_time = Some(now);
        }
        self.transition_bind_group = None;
        self.blit_bind_group = None;
        match self.current_texture.take() {
            Some(texture) => {
                match self.current_texture_size {
                    Some((w, h)) => {
                        let _excess = pool.return_texture_to_pool(texture, w, h, now);
                    },
                    None => {},
                }
            },
            None => {},
        }
        match pool.get_texture_from_pool(frame.width, frame.height, now) {
            Some(texture) => UploadTarget::Write { texture },
            None => UploadTarget::Allocate,
        }
    }

    /// Makes `texture`, which holds the pixels of `frame`, the current content.
    ///
    /// A stale frame changes nothing and its texture comes back. Otherwise the
    /// session of the frame is the accepted one from now on, bind groups are
    /// dropped and a redraw is due; an image makes images the kind that the
    /// output expects. An image, and the first video frame after
    /// a switch, decide the transition: with previous content it is starting
    /// again, at progress zero and without anchor; without previous content
    /// the switch is complete at once, at progress one. Any other frame
    /// leaves the transition alone; with no transition active it leaves no
    /// previous content behind.
    pub fn apply_frame(&mut self, frame: &ContentFrame, texture: T, now: u64) -> (outcome:
        FrameOutcome<T>)
        ensures
            *final(self) == old(self).after_apply_frame(*frame, texture),
            old(self).inv() ==> final(self).inv(),
            outcome == if old(self).accepts(*frame) {
                FrameOutcome::Applied {
                    displaced: old(self).current_texture,
                    first_frame_latency_us: old(self).first_frame_latency(*frame, now),
                }
            } else {
                FrameOutcome::Rejected { texture }
            },
    {
        if !self.accepts_frame(frame) {
            return FrameOutcome::Rejected { texture };
        }
        let decides = match frame.kind {
            ContentType::Image => true,
            ContentType::Video => self.awaiting_first_frame,
        };
        let latency = match frame.kind {
            ContentType::Image => None,
            ContentType::Video => {
                if self.awaiting_first_frame {
                    match self.video_first_frame_time {
                        Some(since) => Some(elapsed_since(since, now)),
                        None => None,
                    }
                } else {
                    None
                }
            },
        };
        let displaced = self.current_texture.take();
        self.current_texture = Some(texture);
        self.current_aspect = (frame.width, frame.height);
        self.current_texture_size = Some((frame.width, frame.height));
        self.needs_redraw = true;
        self.transition_bind_group = None;
        self.blit_bind_group = None;
        self.blit_source_is_composition = false;
        self.blit_source_is_prev = false;
        self.awaiting_first_frame = false;
        match frame.kind {
            ContentType::Image => {
                self.active_image_session_id = frame.session_id;
                self.valid_content_type = ContentType::Image;
            },
            ContentType::Video => {
                self.active_video_session_id = frame.session_id;
            },
        }
        if decides {
            self.transition_start_time = None;
            self.transition_stats = None;
            self.video_first_frame_time = None;
            if self.prev_texture.is_some() {
                self.transition_progress = Progress::zero();
                self.transition_active = true;
            } else {
                self.transition_progress = Progress::complete();
                self.transition_active = false;
                self.transition_just_completed = true;
            }
        } else if !self.transition_active {
            self.prev_texture = None;
        }
        FrameOutcome::Applied { displaced, first_frame_latency_us: latency }
    }

    /// Makes `texture`, which holds a decoded image of the given size and
    /// session, the current content: `apply_frame` for an image.
    pub fn upload_image_data(
        &mut self,
        texture: T,
        width: u32,
        height: u32,
        session_id: u64,
        now: u64,
    ) -> (outcome: FrameOutcome<T>)
        ensures
            *final(self) == old(self).after_apply_frame(
                ContentFrame { width, height, kind: ContentType::Image, session_id },
                texture,
            ),
            old(self).inv() ==> final(self).inv(),
            outcome == if old(self).accepts(
                ContentFrame { width, height, kind: ContentType::Image, session_id },
            ) {
                FrameOutcome::Applied { displaced: old(self).current_texture, first_frame_latency_us: None }
            } else {
                FrameOutcome::Rejected { texture }
            },
    {
        let frame = ContentFrame { width, height, kind: ContentType::Image, session_id };
        self.apply_frame(&frame, texture, now)
    }

    /// Plans a resize of the surface to `width` by `height`, `formats` being
    /// what the surface offers, numbered by the caller.
    ///
    /// A zero side changes nothing. Without formats the surface is not ready
    /// and counts as unconfigured. Otherwise the size is taken over, and the
    /// format too unless the one in use is still offered, in which case it stays.
    #[verifier::rlimit(50)]
    pub fn resize_checked(&mut self, width: u32, height: u32, formats: &Vec<u32>) -> (plan:
        ResizePlan)
        ensures
            *final(self) == old(self).after_resize(width, height, formats@),
            plan == old(self).resize_plan(width, height, formats@),
            old(self).inv() ==> final(self).inv(),
    {
        if width == 0 || height == 0 {
            return ResizePlan::Ignored;
        }
        if formats.len() == 0 {
            self.configured = false;
            return ResizePlan::NotReady;
        }
        if !offers_format(formats, self.format) {
            self.format = formats[0];
        }
        self.width = width;
        self.height = height;
        ResizePlan::Configure { width, height, format: self.format }
    }

    /// Notes that the surface was configured as planned and takes the
    /// composition texture made for it. The texture it replaces comes back.
    pub fn finish_resize(&mut self, composition: T) -> (displaced: Option<T>)
        ensures
            *final(self) == old(self).after_finish_resize(composition),
            displaced == old(self).composition_texture,
            old(self).inv() ==> final(self).inv(),
    {
        let displaced = self.composition_texture.take();
        self.composition_texture = Some(composition);
        self.transition_bind_group = None;
        self.blit_bind_group = None;
        self.configured = true;
        self.needs_redraw = true;
        displaced
    }

    /// Opens a tick: says whether anything is drawn.
    ///
    /// An unconfigured surface with a size is to be configured first; one
    /// without a size is skipped. A configured surface is drawn to while a
    /// transition is active or a redraw is due, and skipped otherwise.
    pub fn begin_render(&mut self) -> (gate: RenderGate)
        ensures
            *final(self) == (Renderer { transition_rendered_this_frame: false, ..*old(self) }),
            gate == old(self).gate(),
            old(self).inv() ==> final(self).inv(),
    {
        self.transition_rendered_this_frame = false;
        if !self.configured {
            if self.width > 0 && self.height > 0 {
                RenderGate::Reconfigure { width: self.width, height: self.height }
            } else {
                RenderGate::Skip
            }
        } else if !self.transition_active && !self.needs_redraw {
            RenderGate::Skip
        } else {
            RenderGate::Acquire
        }
    }

    /// Goes on with a tick after the surface was to be configured: a surface
    /// that is still unconfigured is skipped.
    pub fn resume_render(&self) -> (gate: RenderGate)
        ensures
            gate == self.resumed_gate(),
            gate != (RenderGate::Reconfigure { width: self.width, height: self.height }),
    {
        if !self.configured || (!self.transition_active && !self.needs_redraw) {
            RenderGate::Skip
        } else {
            RenderGate::Acquire
        }
    }

    /// Notes that no presentation target could be had. None of the errors is
    /// fatal: a lost or outdated surface is configured again on the next tick,
    /// a timeout is simply tried again.
    pub fn surface_error(&mut self, error: SurfaceError)
        ensures
            *final(self) == old(self).after_surface_error(error),
            old(self).inv() ==> final(self).inv(),
    {
        match error {
            SurfaceError::Lost | SurfaceError::Outdated => {
                self.configured = false;
                self.needs_redraw = true;
                self.frame_callback_pending = false;
            },
            SurfaceError::Timeout => {
                self.needs_redraw = true;
            },
            SurfaceError::Other => {},
        }
    }

    /// Moves the transition to `frame_time`.
    ///
    /// A starting transition gets its anchor: the batch anchor unless that is
    /// stale, else a point shortly before `frame_time`. A running one keeps
    /// its anchor. Progress is what the clock gives since the anchor, clamped
    /// to one and never less than before. When progress has reached one and
    /// there is current content, the transition ends on this tick: the output
    /// is idle, the previous content and the bookkeeping are gone, and the
    /// report of the transition is handed out, once.
    pub fn advance_transition(&mut self, frame_time: u64) -> (event: TransitionEvent)
        ensures
            *final(self) == old(self).after_advance(frame_time),
            event == old(self).event_at(frame_time),
            old(self).inv() ==> final(self).inv(),
    {
        if !self.transition_active {
            return TransitionEvent::Inactive;
        }
        let was_starting = self.transition_start_time.is_none();
        let anchor = match self.transition_start_time {
            Some(anchor) => anchor,
            None => choose_anchor(
                &self.anchor_policy,
                self.batch_start_time,
                frame_time,
                self.transition_duration,
            ),
        };
        let computed = Progress::from_elapsed(
            elapsed_since(anchor, frame_time),
            self.transition_duration,
        );
        let progress = if was_starting {
            computed
        } else {
            max_progress(self.transition_progress, computed)
        };
        let stats = if was_starting {
            Some(
                TransitionStats {
                    start_time: anchor,
                    frame_count: 0,
                    target_duration: self.transition_duration,
                    batch_id: self.active_batch_id,
                },
            )
        } else {
            match self.transition_stats {
                Some(s) => Some(
                    TransitionStats {
                        start_time: s.start_time,
                        frame_count: if s.frame_count < u64::MAX {
                            s.frame_count + 1
                        } else {
                            s.frame_count
                        },
                        target_duration: s.target_duration,
                        batch_id: s.batch_id,
                    },
                ),
                None => None,
            }
        };
        self.transition_progress = progress;
        if progress.finished() && self.current_texture.is_some() {
            let report = match stats {
                Some(s) => TransitionReport {
                    elapsed_us: elapsed_since(s.start_time, frame_time),
                    frame_count: s.frame_count,
                    target_duration_us: s.target_duration,
                    batch_id: s.batch_id,
                },
                None => TransitionReport {
                    elapsed_us: elapsed_since(anchor, frame_time),
                    frame_count: 0,
                    target_duration_us: self.transition_duration,
                    batch_id: self.active_batch_id,
                },
            };
            self.transition_active = false;
            self.transition_just_completed = true;
            self.transition_start_time = None;
            self.transition_stats = None;
            self.prev_texture = None;
            self.transition_bind_group = None;
            self.blit_bind_group = None;
            TransitionEvent::Completed { report }
        } else {
            self.transition_start_time = Some(anchor);
            self.transition_stats = stats;
            if was_starting {
                TransitionEvent::Started { anchor }
            } else {
                TransitionEvent::Advanced
            }
        }
    }

    /// Says what the composition buffer needs before the transition is drawn.
    pub fn composition_plan(&self) -> (plan: CompositionPlan)
        ensures
            plan == self.composition_need(),
    {
        if !self.transition_active {
            CompositionPlan::Ready
        } else if self.width == 0 || self.height == 0 {
            CompositionPlan::InvalidDimensions
        } else if self.composition_texture.is_none() {
            CompositionPlan::Create { width: self.width, height: self.height }
        } else {
            CompositionPlan::Ready
        }
    }

    /// Takes a composition texture made for the surface's size. Bind groups
    /// are dropped; the texture it replaces comes back.
    pub fn install_composition(&mut self, composition: T) -> (displaced: Option<T>)
        ensures
            *final(self) == (Renderer {
                composition_texture: Some(composition),
                transition_bind_group: None,
                blit_bind_group: None,
                ..*old(self)
            }),
            displaced == old(self).composition_texture,
            old(self).inv() ==> final(self).inv(),
    {
        let displaced = self.composition_texture.take();
        self.composition_texture = Some(composition);
        self.transition_bind_group = None;
        self.blit_bind_group = None;
        displaced
    }

    /// Whether the transition effect is drawn on this tick: a transition is
    /// active and previous content, current content and composition buffer exist.
    pub fn should_render_transition(&self) -> (draw: bool)
        ensures
            draw == self.renders_transition(),
    {
        self.transition_active && self.prev_texture.is_some() && self.current_texture.is_some()
            && self.composition_texture.is_some()
    }

    /// Says what this tick draws, once the transition has been moved on and
    /// the composition buffer seen to. It is a function of the state alone.
    pub fn draw_plan(&self, program_available: bool) -> (plan: DrawPlan)
        ensures
            plan == self.draw_plan_for(program_available),
    {
        let transition_pass = self.should_render_transition();
        if transition_pass && !program_available {
            return DrawPlan::Nothing;
        }
        match self.blit_source_now() {
            None => DrawPlan::Nothing,
            Some(source) => DrawPlan::Draw {
                transition_pass,
                bind_transition: transition_pass && self.transition_bind_group.is_none(),
                source,
                bind_blit: self.blit_binding_stale(source),
                request_callback: self.wants_frame_callback(),
            },
        }
    }

    /// The effects whose programs are worth making before they are first needed.
    pub fn precompile_common_shaders() -> (common: Vec<Transition>)
        ensures
            common@ == seq![
                Transition::Fade,
                Transition::CrossZoom,
                Transition::Radial,
                Transition::Circle,
                Transition::Directional,
                Transition::SimpleZoom,
                Transition::Ripple,
                Transition::Swirl,
                Transition::Pixelize,
                Transition::Mosaic,
            ],
    {
        let mut common: Vec<Transition> = Vec::new();
        common.push(Transition::Fade);
        common.push(Transition::CrossZoom);
        common.push(Transition::Radial);
        common.push(Transition::Circle);
        common.push(Transition::Directional);
        common.push(Transition::SimpleZoom);
        common.push(Transition::Ripple);
        common.push(Transition::Swirl);
        common.push(Transition::Pixelize);
        common.push(Transition::Mosaic);
        proof {
            assert(common@ =~= seq![
                Transition::Fade,
                Transition::CrossZoom,
                Transition::Radial,
                Transition::Circle,
                Transition::Directional,
                Transition::SimpleZoom,
                Transition::Ripple,
                Transition::Swirl,
                Transition::Pixelize,
                Transition::Mosaic,
            ]);
        }
        common
    }

    /// Keeps the bind group made for the transition pass. Without previous
    /// or without current content there is nothing it could bind, and it is dropped.
    pub fn set_transition_bind_group(&mut self, bind_group: B)
        ensures
            *final(self) == (Renderer {
                transition_bind_group: if old(self).prev_texture.is_some() && old(
                    self,
                ).current_texture.is_some() {
                    Some(bind_group)
                } else {
                    None
                },
                ..*old(self)
            }),
            old(self).inv() ==> final(self).inv(),
    {
        if self.prev_texture.is_some() && self.current_texture.is_some() {
            self.transition_bind_group = Some(bind_group);
        } else {
            self.transition_bind_group = None;
        }
    }

    /// Notes that the transition effect was drawn into the composition buffer on this tick.
    pub fn mark_transition_rendered(&mut self)
        ensures
            *final(self) == (Renderer { transition_rendered_this_frame: true, ..*old(self) }),
            old(self).inv() ==> final(self).inv(),
    {
        self.transition_rendered_this_frame = true;
    }

    /// Picks the texture that this tick copies to the surface; `None` where there is nothing to show.
    pub fn blit_source_now(&self) -> (source: Option<BlitSource>)
        ensures
            source == self.blit_source(),
    {
        select_blit_source(
            self.transition_active,
            self.prev_texture.is_some(),
            self.current_texture.is_some(),
            self.composition_texture.is_some(),
        )
    }

    /// Whether the bind group for the blit has to be made anew for `source`:
    /// there is none, or the one kept was made for another source.
    pub fn blit_binding_stale(&self, source: BlitSource) -> (stale: bool)
        ensures
            stale == self.blit_binding_is_stale(source),
    {
        let is_composition = match source {
            BlitSource::Composition => true,
            _ => false,
        };
        let is_prev = match source {
            BlitSource::Prev => true,
            _ => false,
        };
        self.blit_bind_group.is_none() || self.blit_source_is_composition != is_composition
            || self.blit_source_is_prev != is_prev
    }

    /// Keeps the bind group made for the blit from `source`. Where the
    /// texture that `source` names does not exist, there is nothing it could
    /// bind, and it is dropped.
    pub fn set_blit_bind_group(&mut self, source: BlitSource, bind_group: B)
        ensures
            *final(self) == (Renderer {
                blit_bind_group: if old(self).source_texture(source).is_some() {
                    Some(bind_group)
                } else {
                    None
                },
                blit_source_is_composition: source == BlitSource::Composition,
                blit_source_is_prev: source == BlitSource::Prev,
                ..*old(self)
            }),
            old(self).source_texture(source).is_some() ==> !final(self).blit_binding_is_stale(
                source,
            ),
            old(self).inv() ==> final(self).inv(),
    {
        let exists = match source {
            BlitSource::Current => self.current_texture.is_some(),
            BlitSource::Prev => self.prev_texture.is_some(),
            BlitSource::Composition => self.composition_texture.is_some(),
        };
        if exists {
            self.blit_bind_group = Some(bind_group);
        } else {
            self.blit_bind_group = None;
        }
        self.blit_source_is_composition = match source {
            BlitSource::Composition => true,
            _ => false,
        };
        self.blit_source_is_prev = match source {
            BlitSource::Prev => true,
            _ => false,
        };
    }

    /// Whether the frame being drawn asks for the next frame callback.
    pub fn wants_frame_callback(&self) -> (ask: bool)
        ensures
            ask == self.frame_wants_callback(),
    {
        !self.frame_callback_pending || self.transition_progress.at_start()
    }

    /// Whether the loop has to ask for a frame callback between draws: a
    /// redraw is due, a transition is active or video plays, and no request is pending.
    pub fn needs_frame_callback(&self) -> (ask: bool)
        ensures
            ask == self.loop_wants_callback(),
    {
        let video = match self.valid_content_type {
            ContentType::Video => true,
            ContentType::Image => false,
        };
        (self.needs_redraw || self.transition_active || video) && !self.frame_callback_pending
    }

    /// Asks for a frame callback at `now`, unless one is outstanding.
    ///
    /// A request that has been pending for more than
    /// `FRAME_CALLBACK_TIMEOUT_US` counts as lost and is made again. `true`
    /// tells the caller to place the request with the display.
    pub fn request_frame_callback(&mut self, now: u64) -> (place: bool)
        ensures
            *final(self) == old(self).after_frame_request(now),
            place == !old(self).callback_outstanding(now),
            place ==> final(self).frame_callback_pending && final(self).last_frame_request == Some(
                now,
            ),
            old(self).inv() ==> final(self).inv(),
    {
        if self.frame_callback_pending {
            match self.last_frame_request {
                Some(at) => {
                    if elapsed_since(at, now) <= FRAME_CALLBACK_TIMEOUT_US {
                        return false;
                    }
                },
                None => {},
            }
        }
        self.frame_callback_pending = true;
        self.last_frame_request = Some(now);
        true
    }

    /// Notes that the display has sent the frame callback that was asked for.
    pub fn frame_callback_received(&mut self)
        ensures
            *final(self) == (Renderer {
                frame_callback_pending: false,
                last_frame_request: None,
                ..*old(self)
            }),
            old(self).inv() ==> final(self).inv(),
    {
        self.frame_callback_pending = false;
        self.last_frame_request = None;
    }

    /// Closes a tick whose frame was presented at `now`: a redraw stays due
    /// while a transition is active, is no longer due for a still image, and
    /// is left as it was for video.
    pub fn finish_render(&mut self, now: u64)
        ensures
            *final(self) == old(self).after_present(now),
            old(self).inv() ==> final(self).inv(),
    {
        if !self.transition_active {
            self.transition_start_time = None;
        }
        self.last_present_time = now;
        self.needs_redraw = keeps_redrawing(
            self.transition_active,
            self.valid_content_type,
            self.needs_redraw,
        );
    }

    /// Takes note that the completion of a transition was seen: `true` once per completion.
    pub fn take_transition_completed(&mut self) -> (completed: bool)
        ensures
            completed == old(self).transition_just_completed,
            *final(self) == (Renderer { transition_just_completed: false, ..*old(self) }),
            old(self).inv() ==> final(self).inv(),
    {
        let completed = self.transition_just_completed;
        self.transition_just_completed = false;
        completed
    }
}

} // verus!
