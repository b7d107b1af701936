use kaleidux::content::{ContentFrame, ContentType};
use kaleidux::renderer::{
    select_blit_source, keeps_redrawing, BlitSource, CompositionPlan, FrameOutcome, RenderGate,
    Renderer, ResizePlan, SurfaceError, TransitionEvent, TransitionState, UploadTarget,
};
use kaleidux::texture_pool::TexturePool;
use kaleidux::timing::Progress;
use kaleidux::transition::Transition;

type Surface = Renderer<u32, u32>;

const SECOND: u64 = 1_000_000;

fn image(session_id: u64) -> ContentFrame {
    ContentFrame { width: 1920, height: 1080, kind: ContentType::Image, session_id }
}

fn video(width: u32, height: u32, session_id: u64) -> ContentFrame {
    ContentFrame { width, height, kind: ContentType::Video, session_id }
}

fn surface() -> Surface {
    let mut r = Surface::new("DP-1".to_string());
    r.set_transition_config(Transition::Fade, 1000);
    r
}

/// A surface that shows image 100 of session 1, idle.
fn surface_showing_a() -> Surface {
    let mut r = surface();
    match r.apply_frame(&image(1), 100, 0) {
        FrameOutcome::Applied { displaced, .. } => assert_eq!(displaced, None),
        FrameOutcome::Rejected { .. } => panic!("first image was rejected"),
    }
    r
}

#[test]
fn new_surface_is_idle_and_unconfigured() {
    let r = Surface::new("HDMI-A-1".to_string());
    assert_eq!(r.name, "HDMI-A-1");
    assert_eq!(r.transition_state(), TransitionState::Idle);
    assert!(!r.configured);
    assert!(r.needs_redraw);
    assert_eq!((r.width, r.height), (1, 1));
    assert_eq!(r.current_texture, None);
    assert_eq!(r.prev_texture, None);
    assert_eq!(r.transition_progress, Progress { elapsed_us: 1, duration_us: 1 });
    assert_eq!(r.transition_duration, 1_000_000);
    assert_eq!(r.valid_content_type, ContentType::Image);
    assert_eq!(r.active_video_session_id, 0);
}

#[test]
fn first_image_on_empty_surface_completes_instantly() {
    let mut r = surface();
    assert_eq!(r.current_texture, None);
    let outcome = r.apply_frame(&image(1), 100, 5);
    assert!(matches!(
        outcome,
        FrameOutcome::Applied { displaced: None, first_frame_latency_us: None }
    ));
    assert_eq!(r.current_texture, Some(100));
    assert_eq!(r.prev_texture, None);
    assert!(r.transition_progress.finished());
    assert_eq!(r.transition_progress, Progress { elapsed_us: 1, duration_us: 1 });
    assert!(!r.transition_active);
    assert!(r.transition_just_completed);
    assert_eq!(r.transition_state(), TransitionState::Idle);
    assert_eq!(r.active_image_session_id, 1);
    assert_eq!(r.current_aspect, (1920, 1080));
}

#[test]
fn crossfade_from_a_to_b_ends_after_the_duration() {
    let mut r = surface_showing_a();
    r.switch_content();
    assert_eq!(r.prev_texture, Some(100));
    assert_eq!(r.current_texture, None);
    assert_eq!(r.transition_state(), TransitionState::Starting);

    let outcome = r.apply_frame(&image(2), 200, 10);
    assert!(matches!(outcome, FrameOutcome::Applied { displaced: None, .. }));
    assert_eq!(r.transition_state(), TransitionState::Starting);
    assert!(r.transition_progress.at_start());
    assert_eq!(r.current_texture, Some(200));
    assert_eq!(r.prev_texture, Some(100));

    let t0 = 50 * SECOND;
    assert_eq!(r.advance_transition(t0), TransitionEvent::Started { anchor: t0 });
    assert_eq!(r.transition_state(), TransitionState::Running);
    assert_eq!(r.transition_progress, Progress { elapsed_us: 0, duration_us: SECOND });

    assert_eq!(r.advance_transition(t0 + 250_000), TransitionEvent::Advanced);
    assert_eq!(r.transition_progress, Progress { elapsed_us: 250_000, duration_us: SECOND });
    assert_eq!(r.transition_progress.parts_per_million(), 250_000);
    assert_eq!(r.prev_texture, Some(100));

    assert_eq!(r.advance_transition(t0 + 999_999), TransitionEvent::Advanced);
    assert!(!r.transition_progress.finished());

    match r.advance_transition(t0 + SECOND) {
        TransitionEvent::Completed { report } => {
            assert_eq!(report.elapsed_us, SECOND);
            assert_eq!(report.target_duration_us, SECOND);
            assert_eq!(report.frame_count, 3);
            assert_eq!(report.batch_id, None);
            assert_eq!(report.drift_us(), 0);
        }
        other => panic!("transition did not complete: {:?}", other),
    }
    assert_eq!(r.current_texture, Some(200));
    assert_eq!(r.prev_texture, None);
    assert_eq!(r.transition_state(), TransitionState::Idle);
    assert!(r.transition_progress.finished());
    assert_eq!(r.transition_progress.parts_per_million(), 1_000_000);
    assert_eq!(r.transition_stats, None);
    assert!(r.take_transition_completed());
    assert!(!r.take_transition_completed());
    assert_eq!(r.advance_transition(t0 + 2 * SECOND), TransitionEvent::Inactive);
}

#[test]
fn every_duration_completes_exactly_at_its_end() {
    for ms in [1u32, 16, 100, 999, 1000, 2500, 60_000] {
        let mut r = surface_showing_a();
        r.set_transition_config(Transition::Fade, ms);
        r.switch_content();
        r.apply_frame(&image(2), 200, 0);
        let start = 7 * SECOND;
        let duration = ms as u64 * 1000;
        assert_eq!(r.transition_duration, duration);
        assert_eq!(r.advance_transition(start), TransitionEvent::Started { anchor: start });
        assert!(matches!(
            r.advance_transition(start + duration),
            TransitionEvent::Completed { .. }
        ));
        assert!(r.transition_progress.finished());
        assert_eq!(r.prev_texture, None);
        assert_eq!(r.transition_state(), TransitionState::Idle);
    }
}

#[test]
fn zero_length_transition_counts_as_one_millisecond() {
    let mut r = surface();
    r.set_transition_config(Transition::CrossZoom, 0);
    assert_eq!(r.transition_duration, 1000);
    assert!(r.needs_redraw);
}

#[test]
fn stale_session_does_not_alter_current() {
    let mut r = surface_showing_a();
    r.switch_content();
    r.apply_frame(&image(5), 500, 0);
    assert_eq!(r.active_image_session_id, 5);
    for stale in [0u64, 1, 4] {
        match r.apply_frame(&image(stale), 900, 1) {
            FrameOutcome::Rejected { texture } => assert_eq!(texture, 900),
            FrameOutcome::Applied { .. } => panic!("stale frame {} was applied", stale),
        }
        assert_eq!(r.current_texture, Some(500));
        assert_eq!(r.prev_texture, Some(100));
        assert_eq!(r.active_image_session_id, 5);
    }
    assert!(!r.accepts_frame(&image(4)));
    assert!(r.accepts_frame(&image(5)));
    assert!(r.accepts_frame(&image(6)));
}

#[test]
fn video_frame_is_dropped_while_images_are_expected() {
    let mut r = surface_showing_a();
    let mut pool = TexturePool::new();
    r.expect_session(ContentType::Video, 9);
    assert!(!r.accepts_frame(&video(640, 480, 9)));
    assert!(matches!(r.upload_frame(&mut pool, &video(640, 480, 9), 0), UploadTarget::Discarded));
    assert!(matches!(
        r.apply_frame(&video(640, 480, 9), 77, 0),
        FrameOutcome::Rejected { texture: 77 }
    ));
    assert_eq!(r.current_texture, Some(100));
    r.set_content_type(ContentType::Video);
    assert!(r.accepts_frame(&video(640, 480, 9)));
    assert!(!r.accepts_frame(&video(640, 480, 8)));
}

#[test]
fn image_is_taken_while_video_is_expected() {
    let mut r = surface();
    r.set_content_type(ContentType::Video);
    r.expect_session(ContentType::Video, 3);
    // The session is the only test for an image.
    assert!(r.accepts_frame(&image(0)));
    let outcome = r.upload_image_data(100, 800, 600, 1, 0);
    assert!(matches!(outcome, FrameOutcome::Applied { displaced: None, first_frame_latency_us: None }));
    assert_eq!(r.current_texture, Some(100));
    assert_eq!(r.current_aspect, (800, 600));
    assert!(r.needs_redraw);
    assert!(r.transition_progress.finished());
    assert!(!r.transition_active);
    assert!(r.transition_just_completed);
    // Images are what the output expects from now on.
    assert_eq!(r.valid_content_type, ContentType::Image);
    assert!(!r.accepts_frame(&video(640, 480, 3)));
}

#[test]
fn image_after_a_switch_starts_the_transition_whatever_was_expected() {
    let mut r = surface_showing_a();
    r.set_content_type(ContentType::Video);
    r.switch_content();
    let outcome = r.upload_image_data(200, 640, 480, 2, 0);
    assert!(matches!(outcome, FrameOutcome::Applied { .. }));
    assert!(r.transition_active);
    assert!(r.transition_progress.at_start());
    assert_eq!(r.transition_start_time, None);
    assert_eq!(r.current_texture_size, Some((640, 480)));
    assert_eq!(r.prev_texture, Some(100));
    assert_eq!(r.valid_content_type, ContentType::Image);
}

#[test]
fn late_image_does_not_overtake_a_switch_to_video() {
    let mut r = surface_showing_a();
    r.start_switch(ContentType::Video, 5, None, None);
    assert_eq!(r.active_image_session_id, 5);
    assert!(matches!(
        r.upload_image_data(900, 640, 480, 4, 0),
        FrameOutcome::Rejected { texture: 900 }
    ));
    assert_eq!(r.valid_content_type, ContentType::Video);
    assert_eq!(r.current_texture, None);
    assert!(r.accepts_frame(&video(640, 480, 5)));
}

#[test]
fn switching_twice_keeps_the_first_previous() {
    let mut r = surface_showing_a();
    r.switch_content();
    assert_eq!(r.prev_texture, Some(100));
    assert_eq!(r.prev_aspect, (1920, 1080));
    r.switch_content();
    assert_eq!(r.prev_texture, Some(100));
    assert_eq!(r.prev_aspect, (1920, 1080));
    assert_eq!(r.current_texture, None);
    assert_eq!(r.transition_state(), TransitionState::Starting);
    assert!(r.transition_progress.at_start());
}

#[test]
fn switch_on_an_empty_surface_has_no_previous() {
    let mut r = surface();
    r.switch_content();
    assert_eq!(r.prev_texture, None);
    assert_eq!(r.transition_state(), TransitionState::Starting);
    r.apply_frame(&image(1), 100, 0);
    assert_eq!(r.transition_state(), TransitionState::Idle);
    assert!(r.transition_progress.finished());
}

#[test]
fn switch_resets_batch_anchor_and_bind_groups() {
    let mut r = surface_showing_a();
    r.set_transition_bind_group(1);
    assert_eq!(r.transition_bind_group, None);
    r.set_blit_bind_group(BlitSource::Current, 2);
    assert_eq!(r.blit_bind_group, Some(2));
    r.join_batch(Some(7), Some(123));
    r.switch_content();
    assert_eq!(r.batch_start_time, None);
    assert_eq!(r.active_batch_id, Some(7));
    assert_eq!(r.transition_bind_group, None);
    assert_eq!(r.blit_bind_group, None);
    assert!(r.needs_redraw);
    assert!(!r.transition_just_completed);
}

#[test]
fn shared_batch_anchor_is_kept_while_fresh() {
    let anchor = 100 * SECOND;
    let mut r = surface_showing_a();
    r.switch_content();
    r.join_batch(Some(42), Some(anchor));
    r.apply_frame(&image(2), 200, anchor);
    let now = anchor + 50_000;
    assert_eq!(r.advance_transition(now), TransitionEvent::Started { anchor });
    assert_eq!(r.transition_start_time, Some(anchor));
    assert_eq!(r.transition_progress, Progress { elapsed_us: 50_000, duration_us: SECOND });
    assert_eq!(r.transition_stats.unwrap().batch_id, Some(42));
    assert_eq!(r.transition_stats.unwrap().start_time, anchor);
}

#[test]
fn stale_batch_anchor_is_reset_to_just_before_now() {
    let anchor = 100 * SECOND;
    let mut r = surface_showing_a();
    r.switch_content();
    r.join_batch(Some(42), Some(anchor));
    r.apply_frame(&image(2), 200, anchor);
    let now = anchor + 900_000;
    assert_eq!(r.advance_transition(now), TransitionEvent::Started { anchor: now - 100_000 });
    assert_eq!(r.transition_start_time, Some(now - 100_000));
    assert_eq!(r.transition_progress, Progress { elapsed_us: 100_000, duration_us: SECOND });
    assert!(!r.transition_progress.finished());
}

#[test]
fn batch_anchor_at_exactly_eighty_percent_is_still_shared() {
    let anchor = 10 * SECOND;
    let mut r = surface_showing_a();
    r.switch_content();
    r.join_batch(Some(1), Some(anchor));
    r.apply_frame(&image(2), 200, anchor);
    assert_eq!(
        r.advance_transition(anchor + 800_000),
        TransitionEvent::Started { anchor }
    );

    let mut late = surface_showing_a();
    late.switch_content();
    late.join_batch(Some(1), Some(anchor));
    late.apply_frame(&image(2), 200, anchor);
    assert_eq!(
        late.advance_transition(anchor + 800_001),
        TransitionEvent::Started { anchor: anchor + 700_001 }
    );
}

#[test]
fn progress_never_regresses_when_the_clock_jumps_back() {
    let mut r = surface_showing_a();
    r.switch_content();
    r.apply_frame(&image(2), 200, 0);
    r.advance_transition(10 * SECOND);
    r.advance_transition(10 * SECOND + 600_000);
    assert_eq!(r.transition_progress.elapsed_us, 600_000);
    r.advance_transition(10 * SECOND + 200_000);
    assert_eq!(r.transition_progress.elapsed_us, 600_000);
    r.advance_transition(9 * SECOND);
    assert_eq!(r.transition_progress.elapsed_us, 600_000);
    assert_eq!(r.transition_state(), TransitionState::Running);
}

#[test]
fn transition_without_current_content_does_not_end() {
    let mut r = surface_showing_a();
    r.switch_content();
    assert_eq!(r.advance_transition(SECOND), TransitionEvent::Started { anchor: SECOND });
    assert_eq!(r.advance_transition(5 * SECOND), TransitionEvent::Advanced);
    assert!(r.transition_progress.finished());
    assert_eq!(r.prev_texture, Some(100));
    assert!(r.transition_active);
    // The frame that arrives starts the fade from the beginning.
    r.apply_frame(&image(2), 200, 5 * SECOND);
    assert_eq!(r.transition_state(), TransitionState::Starting);
    assert!(r.transition_progress.at_start());
    assert_eq!(r.transition_stats, None);
}

#[test]
fn abort_without_current_keeps_previous_on_screen() {
    let mut r = surface_showing_a();
    r.switch_content();
    r.abort_transition();
    assert_eq!(r.transition_state(), TransitionState::Idle);
    assert!(r.transition_progress.finished());
    assert_eq!(r.prev_texture, Some(100));
    assert_eq!(r.current_texture, None);
    assert!(!r.transition_just_completed);
    assert!(r.needs_redraw);
    assert_eq!(r.blit_source_now(), Some(BlitSource::Prev));
}

#[test]
fn abort_while_running_drops_previous() {
    let mut r = surface_showing_a();
    r.switch_content();
    r.apply_frame(&image(2), 200, 0);
    r.advance_transition(SECOND);
    r.abort_transition();
    assert_eq!(r.transition_state(), TransitionState::Idle);
    assert_eq!(r.prev_texture, None);
    assert_eq!(r.current_texture, Some(200));
    assert_eq!(r.transition_start_time, None);
    assert_eq!(r.transition_stats, None);
    assert!(r.transition_progress.finished());
}

#[test]
fn abort_when_idle_with_content_changes_nothing() {
    let mut r = surface_showing_a();
    r.finish_render(10);
    assert!(!r.needs_redraw);
    r.abort_transition();
    assert!(!r.needs_redraw);
    assert_eq!(r.current_texture, Some(100));
}

#[test]
fn clear_empties_the_surface() {
    let mut r = surface_showing_a();
    r.set_content_type(ContentType::Video);
    r.expect_session(ContentType::Video, 3);
    r.finish_resize(9);
    r.switch_content();
    r.clear();
    assert_eq!(r.current_texture, None);
    assert_eq!(r.prev_texture, None);
    assert_eq!(r.composition_texture, None);
    assert_eq!(r.current_texture_size, None);
    assert!(!r.configured);
    assert!(r.needs_redraw);
    assert_eq!(r.transition_state(), TransitionState::Idle);
    assert!(r.transition_progress.finished());
    assert_eq!(r.active_video_session_id, 0);
    // No video frame is taken until a session is announced again.
    assert_eq!(r.valid_content_type, ContentType::Video);
    for session in [0u64, 3, 4, u64::MAX] {
        assert!(!r.accepts_frame(&video(10, 10, session)));
    }
    assert_eq!(r.blit_source_now(), None);
}

#[test]
fn cleared_twice_an_output_still_takes_the_next_session() {
    let mut r = surface();
    let mut sessions = kaleidux::driver::SessionCounter::new();
    r.clear();
    r.clear();
    assert_eq!(r.active_video_session_id, 0);
    let session = sessions.allocate();
    assert_eq!(session, 1);
    r.start_switch(ContentType::Video, session, None, None);
    assert_eq!(r.active_video_session_id, 1);
    assert!(r.accepts_frame(&video(10, 10, 1)));
    assert!(!r.accepts_frame(&video(10, 10, 0)));
    assert!(matches!(r.apply_frame(&video(10, 10, 1), 7, 0), FrameOutcome::Applied { .. }));
    assert_eq!(r.current_texture, Some(7));
}

#[test]
fn expect_session_sets_the_accepted_session() {
    let mut r = surface();
    assert!(!r.video_session_expected);
    r.expect_session(ContentType::Video, 5);
    assert_eq!(r.active_video_session_id, 5);
    assert!(r.video_session_expected);
    r.expect_session(ContentType::Video, 3);
    assert_eq!(r.active_video_session_id, 3);
    r.expect_session(ContentType::Image, 2);
    assert_eq!(r.active_image_session_id, 2);
    assert_eq!(r.active_video_session_id, 3);
}

#[test]
fn blit_source_follows_the_fallback_order() {
    // (active, prev, current, composition)
    assert_eq!(select_blit_source(true, true, true, true), Some(BlitSource::Composition));
    assert_eq!(select_blit_source(true, true, true, false), Some(BlitSource::Prev));
    assert_eq!(select_blit_source(true, false, true, true), Some(BlitSource::Current));
    assert_eq!(select_blit_source(true, false, true, false), Some(BlitSource::Current));
    assert_eq!(select_blit_source(false, true, true, true), Some(BlitSource::Current));
    assert_eq!(select_blit_source(false, true, true, false), Some(BlitSource::Current));
    assert_eq!(select_blit_source(false, false, true, true), Some(BlitSource::Current));
    assert_eq!(select_blit_source(false, false, true, false), Some(BlitSource::Current));
    assert_eq!(select_blit_source(true, true, false, true), Some(BlitSource::Prev));
    assert_eq!(select_blit_source(true, true, false, false), Some(BlitSource::Prev));
    assert_eq!(select_blit_source(false, true, false, true), Some(BlitSource::Prev));
    assert_eq!(select_blit_source(false, true, false, false), Some(BlitSource::Prev));
    assert_eq!(select_blit_source(true, false, false, true), None);
    assert_eq!(select_blit_source(true, false, false, false), None);
    assert_eq!(select_blit_source(false, false, false, true), None);
    assert_eq!(select_blit_source(false, false, false, false), None);
}

#[test]
fn missing_composition_falls_back_to_previous_mid_transition() {
    let mut r = surface_showing_a();
    r.switch_content();
    r.apply_frame(&image(2), 200, 0);
    r.advance_transition(SECOND);
    assert!(!r.should_render_transition());
    assert_eq!(r.blit_source_now(), Some(BlitSource::Prev));
    r.resize_checked(1920, 1080, &vec![7]);
    assert_eq!(r.composition_plan(), CompositionPlan::Create { width: 1920, height: 1080 });
    assert_eq!(r.install_composition(300), None);
    assert_eq!(r.composition_plan(), CompositionPlan::Ready);
    assert!(r.should_render_transition());
    assert_eq!(r.blit_source_now(), Some(BlitSource::Composition));
}

#[test]
fn composition_cannot_be_made_without_a_size() {
    let mut r = surface_showing_a();
    r.width = 0;
    assert_eq!(r.composition_plan(), CompositionPlan::Ready);
    r.switch_content();
    assert_eq!(r.composition_plan(), CompositionPlan::InvalidDimensions);
}

#[test]
fn redraw_policy_after_present() {
    assert!(keeps_redrawing(true, ContentType::Image, false));
    assert!(keeps_redrawing(true, ContentType::Video, false));
    assert!(!keeps_redrawing(false, ContentType::Image, true));
    assert!(keeps_redrawing(false, ContentType::Video, true));
    assert!(!keeps_redrawing(false, ContentType::Video, false));
}

#[test]
fn static_image_stops_redrawing_once_presented() {
    let mut r = surface_showing_a();
    r.resize_checked(800, 600, &vec![1]);
    r.finish_resize(9);
    assert_eq!(r.begin_render(), RenderGate::Acquire);
    assert_eq!(r.advance_transition(10), TransitionEvent::Inactive);
    assert_eq!(r.blit_source_now(), Some(BlitSource::Current));
    r.finish_render(20);
    assert!(!r.needs_redraw);
    assert_eq!(r.last_present_time, 20);
    assert_eq!(r.begin_render(), RenderGate::Skip);
}

#[test]
fn render_gate_asks_for_configuration_first() {
    let mut r = surface();
    assert_eq!(r.begin_render(), RenderGate::Reconfigure { width: 1, height: 1 });
    assert_eq!(r.resume_render(), RenderGate::Skip);
    r.width = 0;
    assert_eq!(r.begin_render(), RenderGate::Skip);
    r.width = 1;
    r.finish_resize(5);
    assert!(r.configured);
    assert_eq!(r.begin_render(), RenderGate::Acquire);
    assert_eq!(r.resume_render(), RenderGate::Acquire);
}

#[test]
fn active_transition_is_drawn_even_without_redraw_flag() {
    let mut r = surface_showing_a();
    r.finish_resize(9);
    r.finish_render(0);
    assert!(!r.needs_redraw);
    r.switch_content();
    r.needs_redraw = false;
    assert_eq!(r.begin_render(), RenderGate::Acquire);
    r.finish_render(1);
    assert!(r.needs_redraw);
}

#[test]
fn surface_errors_are_recoverable() {
    let mut r = surface_showing_a();
    r.finish_resize(9);
    r.finish_render(0);
    r.request_frame_callback(0);
    r.surface_error(SurfaceError::Timeout);
    assert!(r.configured);
    assert!(r.needs_redraw);
    assert!(r.frame_callback_pending);

    r.finish_render(0);
    r.surface_error(SurfaceError::Lost);
    assert!(!r.configured);
    assert!(r.needs_redraw);
    assert!(!r.frame_callback_pending);

    r.finish_resize(9);
    r.finish_render(0);
    r.request_frame_callback(0);
    r.surface_error(SurfaceError::Outdated);
    assert!(!r.configured);
    assert!(r.needs_redraw);
    assert!(!r.frame_callback_pending);

    r.finish_resize(9);
    r.finish_render(0);
    r.surface_error(SurfaceError::Other);
    assert!(r.configured);
    assert!(!r.needs_redraw);
}

#[test]
fn resize_plans() {
    let mut r = surface();
    assert_eq!(r.resize_checked(0, 600, &vec![1]), ResizePlan::Ignored);
    assert_eq!(r.resize_checked(800, 0, &vec![1]), ResizePlan::Ignored);
    assert_eq!((r.width, r.height), (1, 1));

    r.configured = true;
    assert_eq!(r.resize_checked(800, 600, &vec![]), ResizePlan::NotReady);
    assert!(!r.configured);
    assert_eq!((r.width, r.height), (1, 1));

    assert_eq!(
        r.resize_checked(800, 600, &vec![4, 5]),
        ResizePlan::Configure { width: 800, height: 600, format: 4 }
    );
    assert_eq!((r.width, r.height, r.format), (800, 600, 4));
    assert!(!r.configured);
    assert_eq!(r.finish_resize(11), None);
    assert!(r.configured);
    assert!(r.needs_redraw);
    assert_eq!(r.composition_texture, Some(11));

    // The format in use stays while the surface still offers it.
    assert_eq!(
        r.resize_checked(1024, 768, &vec![5, 4]),
        ResizePlan::Configure { width: 1024, height: 768, format: 4 }
    );
    assert_eq!(r.finish_resize(12), Some(11));
    assert_eq!(r.recreate_surface(), ());
    assert!(!r.configured);
}

#[test]
fn frame_callback_is_requested_once_and_again_after_timeout() {
    let mut r = surface_showing_a();
    assert!(r.needs_frame_callback());
    assert!(r.request_frame_callback(1_000));
    assert!(r.frame_callback_pending);
    assert_eq!(r.last_frame_request, Some(1_000));
    assert!(!r.needs_frame_callback());
    assert!(!r.request_frame_callback(1_000 + 500_000));
    assert_eq!(r.last_frame_request, Some(1_000));
    assert!(r.request_frame_callback(1_000 + 500_001));
    assert_eq!(r.last_frame_request, Some(501_001));
    r.frame_callback_received();
    assert!(!r.frame_callback_pending);
    assert_eq!(r.last_frame_request, None);
}

#[test]
fn first_frame_of_a_transition_always_asks_for_a_callback() {
    let mut r = surface_showing_a();
    r.request_frame_callback(0);
    assert!(!r.wants_frame_callback());
    r.switch_content();
    assert!(r.frame_callback_pending);
    assert!(r.wants_frame_callback());
    r.apply_frame(&image(2), 200, 0);
    r.advance_transition(10);
    r.advance_transition(20);
    assert!(!r.wants_frame_callback());
}

#[test]
fn blit_bind_group_is_remade_when_the_source_changes() {
    let mut r = surface_showing_a();
    assert!(r.blit_binding_stale(BlitSource::Current));
    r.set_blit_bind_group(BlitSource::Current, 1);
    assert!(!r.blit_binding_stale(BlitSource::Current));
    assert!(r.blit_binding_stale(BlitSource::Prev));
    assert!(r.blit_binding_stale(BlitSource::Composition));
    // Without a composition buffer there is nothing to bind.
    r.set_blit_bind_group(BlitSource::Composition, 2);
    assert_eq!(r.blit_bind_group, None);
    assert!(r.blit_binding_stale(BlitSource::Composition));
    r.install_composition(9);
    r.set_blit_bind_group(BlitSource::Composition, 2);
    assert_eq!(r.blit_bind_group, Some(2));
    assert!(r.blit_source_is_composition);
    assert!(!r.blit_source_is_prev);
    assert!(!r.blit_binding_stale(BlitSource::Composition));
    r.mark_transition_rendered();
    assert!(r.transition_rendered_this_frame);
    r.begin_render();
    assert!(!r.transition_rendered_this_frame);
}

#[test]
fn video_frames_reuse_the_current_texture() {
    let mut r = surface();
    let mut pool: TexturePool<u32> = TexturePool::new();
    r.set_content_type(ContentType::Video);
    r.expect_session(ContentType::Video, 1);
    r.switch_content();

    // First frame: nothing to reuse, nothing pooled.
    assert!(matches!(r.upload_frame(&mut pool, &video(640, 480, 1), 1_000), UploadTarget::Allocate));
    assert_eq!(pool.misses(), 1);
    assert_eq!(r.video_first_frame_time, Some(1_000));
    match r.apply_frame(&video(640, 480, 1), 10, 4_000) {
        FrameOutcome::Applied { displaced, first_frame_latency_us } => {
            assert_eq!(displaced, None);
            assert_eq!(first_frame_latency_us, Some(3_000));
        }
        FrameOutcome::Rejected { .. } => panic!("first video frame rejected"),
    }
    assert_eq!(r.transition_state(), TransitionState::Idle);
    assert!(r.transition_just_completed);
    assert_eq!(r.video_first_frame_time, None);

    // Same size: written in place, no pool traffic, transition untouched.
    r.set_blit_bind_group(BlitSource::Current, 1);
    r.needs_redraw = false;
    assert!(matches!(
        r.upload_frame(&mut pool, &video(640, 480, 1), 5_000),
        UploadTarget::WriteCurrent
    ));
    assert_eq!(r.current_texture, Some(10));
    assert!(r.needs_redraw);
    assert_eq!(r.blit_bind_group, Some(1));
    assert_eq!((pool.hits(), pool.misses()), (0, 1));

    // Other size: the old texture goes to the pool, a new one is needed.
    assert!(matches!(r.upload_frame(&mut pool, &video(1280, 720, 1), 6_000), UploadTarget::Allocate));
    assert_eq!(r.current_texture, None);
    assert_eq!((pool.hits(), pool.misses()), (0, 2));
    r.apply_frame(&video(1280, 720, 1), 11, 6_500);
    assert_eq!(r.current_texture, Some(11));
    assert_eq!(r.blit_bind_group, None);
    // A change of size in mid-stream decides no transition.
    assert_eq!(r.transition_state(), TransitionState::Idle);

    // Back to the first size within the time limit: the pooled texture returns.
    match r.upload_frame(&mut pool, &video(640, 480, 1), 7_000) {
        UploadTarget::Write { texture } => assert_eq!(texture, 10),
        _ => panic!("expected the pooled texture"),
    }
    assert_eq!((pool.hits(), pool.misses()), (1, 2));
}

#[test]
fn first_video_frame_after_switch_starts_the_fade() {
    let mut r = surface_showing_a();
    let mut pool: TexturePool<u32> = TexturePool::new();
    r.set_content_type(ContentType::Video);
    r.switch_content();
    r.expect_session(ContentType::Video, 2);
    assert!(matches!(r.upload_frame(&mut pool, &video(640, 480, 1), 0), UploadTarget::Discarded));
    assert!(matches!(r.upload_frame(&mut pool, &video(640, 480, 2), 0), UploadTarget::Allocate));
    r.apply_frame(&video(640, 480, 2), 20, 0);
    assert_eq!(r.transition_state(), TransitionState::Starting);
    assert_eq!(r.prev_texture, Some(100));
    // Later frames leave the running transition alone.
    r.advance_transition(100);
    r.advance_transition(500_100);
    assert!(matches!(r.upload_frame(&mut pool, &video(640, 480, 2), 0), UploadTarget::WriteCurrent));
    assert_eq!(r.transition_state(), TransitionState::Running);
    assert_eq!(r.transition_progress.elapsed_us, 500_000);
}

#[test]
fn image_upload_is_apply_frame_for_an_image() {
    let mut r = surface();
    let outcome = r.upload_image_data(100, 800, 600, 1, 0);
    assert!(matches!(outcome, FrameOutcome::Applied { displaced: None, first_frame_latency_us: None }));
    assert_eq!(r.current_texture_size, Some((800, 600)));
    assert_eq!(r.current_aspect, (800, 600));
    let outcome = r.upload_image_data(101, 800, 600, 0, 0);
    assert!(matches!(outcome, FrameOutcome::Rejected { texture: 101 }));
    // A second image without a switch replaces the first and hands it back.
    let outcome = r.upload_image_data(102, 400, 300, 1, 0);
    assert!(matches!(outcome, FrameOutcome::Applied { displaced: Some(100), .. }));
    assert_eq!(r.current_texture, Some(102));
}

#[test]
fn two_surfaces_of_one_batch() {
    let t = 500 * SECOND;
    let duration = SECOND;
    let mut first = surface_showing_a();
    let mut second = surface_showing_a();
    for r in [&mut first, &mut second] {
        r.start_switch(ContentType::Image, 2, Some(0xBA7C), Some(t));
        assert_eq!(r.batch_start_time, Some(t));
    }
    // The first surface has its content at once and draws 50 ms after the trigger.
    first.apply_frame(&image(2), 200, t);
    assert_eq!(first.advance_transition(t + 50_000), TransitionEvent::Started { anchor: t });
    assert_eq!(first.transition_start_time, Some(t));
    assert_eq!(first.transition_progress.parts_per_million(), 50_000);

    // The second surface gets its content late: its first frame comes at 90 % of the duration.
    let late = t + duration / 10 * 9;
    second.apply_frame(&image(2), 201, late);
    assert_eq!(second.advance_transition(late), TransitionEvent::Started { anchor: late - 100_000 });
    assert_eq!(second.transition_start_time, Some(late - 100_000));
    assert!(!second.transition_progress.finished());
    assert_eq!(second.transition_progress.parts_per_million(), 100_000);

    // Both end a full duration after their anchors.
    assert!(matches!(first.advance_transition(t + duration), TransitionEvent::Completed { .. }));
    assert_eq!(second.advance_transition(t + duration), TransitionEvent::Advanced);
    assert!(matches!(
        second.advance_transition(late - 100_000 + duration),
        TransitionEvent::Completed { report } if report.batch_id == Some(0xBA7C)
    ));
}

#[test]
fn common_effects_are_listed_for_precompilation() {
    let common = Surface::precompile_common_shaders();
    let names: Vec<String> = common.iter().map(|t| t.name()).collect();
    assert_eq!(
        names,
        vec![
            "fade", "CrossZoom", "Radial", "circle", "Directional", "SimpleZoom", "ripple", "Swirl",
            "pixelize", "Mosaic"
        ]
    );
}

#[test]
fn bind_groups_do_not_outlive_their_textures() {
    let mut r = surface_showing_a();
    r.install_composition(9);
    r.switch_content();
    r.apply_frame(&image(2), 200, 0);
    r.set_transition_bind_group(1);
    r.set_blit_bind_group(BlitSource::Composition, 2);
    assert_eq!((r.transition_bind_group, r.blit_bind_group), (Some(1), Some(2)));
    // The end of the transition takes the previous content away, and the bindings with it.
    r.advance_transition(0);
    assert!(matches!(r.advance_transition(SECOND), TransitionEvent::Completed { .. }));
    assert_eq!((r.transition_bind_group, r.blit_bind_group), (None, None));

    // A video frame of another size takes the current texture away.
    let mut pool: TexturePool<u32> = TexturePool::new();
    let mut v = surface();
    v.set_content_type(ContentType::Video);
    v.expect_session(ContentType::Video, 0);
    v.apply_frame(&video(64, 64, 0), 10, 0);
    v.set_blit_bind_group(BlitSource::Current, 3);
    assert!(matches!(v.upload_frame(&mut pool, &video(32, 32, 0), 0), UploadTarget::Allocate));
    assert_eq!(v.blit_bind_group, None);
    assert_eq!(v.current_texture, None);
}

#[test]
fn late_completion_reports_its_drift() {
    let mut r = surface_showing_a();
    r.switch_content();
    r.apply_frame(&image(2), 200, 0);
    r.advance_transition(SECOND);
    match r.advance_transition(2 * SECOND + 30_000) {
        TransitionEvent::Completed { report } => {
            assert_eq!(report.elapsed_us, SECOND + 30_000);
            assert_eq!(report.drift_us(), 30_000);
            assert_eq!(report.frame_count, 1);
        }
        other => panic!("{:?}", other),
    }
    // Re-anchored, a transition shorter than the offset is over on its first frame.
    let mut short = surface_showing_a();
    short.set_transition_config(Transition::Fade, 50);
    short.switch_content();
    short.join_batch(None, Some(0));
    short.apply_frame(&image(2), 200, 0);
    match short.advance_transition(10 * SECOND) {
        TransitionEvent::Completed { report } => {
            assert_eq!(report.elapsed_us, 100_000);
            assert_eq!(report.target_duration_us, 50_000);
            assert_eq!(report.drift_us(), 50_000);
            assert_eq!(report.frame_count, 0);
        }
        other => panic!("{:?}", other),
    }
    assert_eq!(short.prev_texture, None);
}
