use kaleidux::content::ContentType;
use kaleidux::driver::{
    due, effective_size, remaining_frame_budget, ConnectionGate, ConnectionHealth, PlayerVerdict,
    SessionCounter, METRICS_LOG_INTERVAL_US, TARGET_FRAME_TIME_US,
};
use kaleidux::metrics::{
    average_of, find_leak, push_sample, ComponentTime, Growth, LeakReport, PerformanceMetrics,
};
use kaleidux::renderer::{Renderer, TransitionState};
use kaleidux::schedule::OutputSchedule;

const SECOND: u64 = 1_000_000;

#[test]
fn third_broken_pipe_kills_the_connection_for_six_seconds() {
    let mut c = ConnectionHealth::new(0);
    assert_eq!(c.begin_round(0), ConnectionGate::Proceed);
    c.record_error(false, 1);
    assert_eq!(c.error_count, 0);
    c.record_error(true, 10);
    c.record_error(true, 20);
    assert!(!c.dead);
    assert_eq!(c.begin_round(25), ConnectionGate::Proceed);
    c.record_error(true, 30);
    assert!(c.dead);
    assert_eq!(c.error_count, 3);
    assert_eq!(c.last_error_time, 30);
    assert_eq!(c.begin_round(30 + 6 * SECOND - 1), ConnectionGate::Wait { sleep_us: 100_000 });
    assert!(c.dead);
    assert_eq!(c.begin_round(30 + 6 * SECOND), ConnectionGate::Proceed);
    assert!(!c.dead);
    assert_eq!(c.error_count, 0);
}

#[test]
fn loop_pacing() {
    assert_eq!(TARGET_FRAME_TIME_US, 16_667);
    assert_eq!(remaining_frame_budget(0), Some(16_667));
    assert_eq!(remaining_frame_budget(16_000), Some(667));
    assert_eq!(remaining_frame_budget(16_667), None);
    assert_eq!(remaining_frame_budget(1_000_000), None);
    assert!(!due(0, METRICS_LOG_INTERVAL_US - 1, METRICS_LOG_INTERVAL_US));
    assert!(due(0, METRICS_LOG_INTERVAL_US, METRICS_LOG_INTERVAL_US));
    assert!(due(5, 5, 0));
}

#[test]
fn resize_keeps_a_side_reported_as_zero() {
    assert_eq!(effective_size((0, 0), (800, 600)), (800, 600));
    assert_eq!(effective_size((1024, 0), (800, 600)), (1024, 600));
    assert_eq!(effective_size((0, 768), (800, 600)), (800, 768));
    assert_eq!(effective_size((1024, 768), (800, 600)), (1024, 768));
}

#[test]
fn sessions_are_numbered_upwards_from_one() {
    let mut s = SessionCounter::new();
    assert_eq!(s.allocate(), 1);
    assert_eq!(s.allocate(), 2);
    assert_eq!(s.allocate(), 3);
    let mut top = SessionCounter { next_session_id: u64::MAX };
    assert_eq!(top.allocate(), u64::MAX);
    assert_eq!(top.allocate(), u64::MAX);
}

#[test]
fn start_switch_keeps_the_batch_anchor() {
    let mut r: Renderer<u32, u32> = Renderer::new("DP-1".to_string());
    r.start_switch(ContentType::Video, 4, Some(9), Some(1234));
    assert_eq!(r.valid_content_type, ContentType::Video);
    assert_eq!(r.active_video_session_id, 4);
    assert_eq!(r.active_batch_id, Some(9));
    assert_eq!(r.batch_start_time, Some(1234));
    assert_eq!(r.transition_state(), TransitionState::Starting);
    assert!(r.needs_flush());
    assert_eq!(r.active_image_session_id, 4);
    // The session of the switch is the accepted one, whatever was accepted before.
    r.start_switch(ContentType::Video, 2, None, None);
    assert_eq!(r.active_video_session_id, 2);
    assert_eq!(r.batch_start_time, None);
    // A switch to images leaves the video session alone.
    r.start_switch(ContentType::Image, 7, None, None);
    assert_eq!(r.active_image_session_id, 7);
    assert_eq!(r.active_video_session_id, 2);
    assert_eq!(r.valid_content_type, ContentType::Image);
}

#[test]
fn video_player_results() {
    let mut r: Renderer<u32, u32> = Renderer::new("DP-1".to_string());
    r.start_switch(ContentType::Video, 4, None, None);
    assert_eq!(r.video_player_result(3, true), PlayerVerdict::Stale);
    assert_eq!(r.video_player_result(3, false), PlayerVerdict::Stale);
    assert_eq!(r.transition_state(), TransitionState::Starting);
    assert_eq!(r.video_player_result(4, true), PlayerVerdict::Keep);
    assert_eq!(r.transition_state(), TransitionState::Starting);
    assert_eq!(r.video_player_result(4, false), PlayerVerdict::Abort);
    assert_eq!(r.transition_state(), TransitionState::Idle);
    assert!(r.transition_progress.finished());
}

#[test]
fn content_is_due_after_its_display_time() {
    let mut s = OutputSchedule::new(300 * SECOND);
    assert!(s.tick(0));
    s.pick_next(10 * SECOND);
    assert!(s.has_content);
    assert_eq!(s.next_change, Some(315 * SECOND));
    assert!(!s.tick(314 * SECOND));
    assert!(s.tick(315 * SECOND));
    s.mark_transition_completed(12 * SECOND);
    assert_eq!(s.display_start_time, Some(12 * SECOND));
    assert!(!s.tick(312 * SECOND - 1));
    assert!(s.tick(312 * SECOND));
    // Only the first completion starts the clock.
    s.mark_transition_completed(50 * SECOND);
    assert_eq!(s.display_start_time, Some(12 * SECOND));
    s.pick_next(312 * SECOND);
    assert_eq!(s.display_start_time, None);
    assert_eq!(s.next_change, Some(617 * SECOND));
}

#[test]
fn schedule_without_content_ignores_completions() {
    let mut s = OutputSchedule::new(SECOND);
    s.mark_transition_completed(5);
    assert_eq!(s.display_start_time, None);
    let mut far = OutputSchedule::new(u64::MAX);
    far.pick_next(10);
    assert_eq!(far.next_change, Some(u64::MAX));
}

#[test]
fn sample_windows_keep_the_latest() {
    let mut w: Vec<u32> = Vec::new();
    for i in 0..5 {
        push_sample(&mut w, i, 3);
    }
    assert_eq!(w, vec![2, 3, 4]);
    let mut none: Vec<u32> = Vec::new();
    push_sample(&mut none, 1, 0);
    assert!(none.is_empty());
}

#[test]
fn averages_round_down() {
    assert_eq!(average_of(&vec![]), 0);
    assert_eq!(average_of(&vec![5]), 5);
    assert_eq!(average_of(&vec![1, 2]), 1);
    assert_eq!(average_of(&vec![10, 20, 31]), 20);
    assert_eq!(average_of(&vec![u64::MAX, u64::MAX, u64::MAX]), u64::MAX);
}

#[test]
fn counters_and_rates() {
    let mut m = PerformanceMetrics::new(100);
    m.record_texture_pool_hit();
    m.record_texture_pool_hit();
    m.record_texture_pool_miss();
    assert_eq!(m.get_texture_pool_hit_rate(), (2, 3));
    assert_eq!(m.get_cache_hit_rate(), (0, 0));
    m.record_cache_hit();
    m.record_cache_miss();
    m.record_cache_miss();
    assert_eq!(m.get_cache_hit_rate(), (1, 3));
    m.record_transition(1_000_500);
    m.record_transition(999_000);
    assert_eq!(m.transition_count, 2);
    assert_eq!(m.transition_times, vec![1_000_500, 999_000]);
    m.record_video_first_frame(42);
    assert_eq!(m.video_first_frame_times, vec![42]);
    assert_eq!(m.get_uptime(100 + 3 * SECOND + 7), 3 * SECOND + 7);
    assert_eq!(m.get_uptime_seconds(100 + 3 * SECOND + 7), 3);
    assert_eq!(m.get_uptime(5), 0);
}

#[test]
fn frame_times_and_their_average() {
    let mut m = PerformanceMetrics::new(0);
    m.record_frame_time(10);
    m.record_frame_time(21);
    assert_eq!(m.get_avg_frame_time(), 15);
    for _ in 0..100 {
        m.record_frame_time(7);
    }
    assert_eq!(m.frame_times.len(), 100);
    assert_eq!(m.get_avg_frame_time(), 7);
}

#[test]
fn errors_are_counted_and_kept() {
    let mut m = PerformanceMetrics::new(0);
    assert_eq!(m.get_error_rate(), None);
    m.record_error("shader_compile", 10);
    assert_eq!(m.get_error_count(), 1);
    assert_eq!(m.get_error_rate(), None);
    m.record_error("shader_compile_fatal", 10);
    assert_eq!(m.get_error_rate(), None);
    m.record_error("surface", 2 * SECOND + 10);
    assert_eq!(m.get_error_rate(), Some((3, 2 * SECOND)));
    assert_eq!(m.error_samples[0], (10, "shader_compile".to_string()));
    assert_eq!(m.error_samples[2].1, "surface");
    for i in 0..200 {
        m.record_error("again", 3 * SECOND + i);
    }
    assert_eq!(m.get_error_count(), 203);
    assert_eq!(m.error_samples.len(), 100);
    assert_eq!(m.error_samples[0].0, 3 * SECOND + 100);
}

#[test]
fn component_times() {
    let mut c = ComponentTime::new(2);
    assert_eq!(c.average_us(), 0);
    assert_eq!(c.recent_average_us(), 0);
    c.record(10);
    c.record(20);
    c.record(60);
    assert_eq!(c.total_us, 90);
    assert_eq!(c.ops, 3);
    assert_eq!(c.average_us(), 30);
    assert_eq!(c.samples, vec![20, 60]);
    assert_eq!(c.recent_average_us(), 40);
    c.record(u64::MAX);
    assert_eq!(c.total_us, u64::MAX);

    let mut m = PerformanceMetrics::new(0);
    m.record_renderer_cpu_time(5);
    m.record_video_cpu_time(6);
    m.record_file_discovery_cpu_time(7);
    m.record_shader_compile_cpu_time(8);
    assert_eq!(m.renderer.total_us, 5);
    assert_eq!(m.video.total_us, 6);
    assert_eq!(m.file_discovery.total_us, 7);
    assert_eq!(m.shader_compile.total_us, 8);
    assert_eq!(m.shader_compile.ops, 1);
}

#[test]
fn startup_times() {
    let mut m = PerformanceMetrics::new(1_000);
    m.record_gstreamer_init(30);
    m.record_wgpu_init(40);
    m.record_first_frame(1_500);
    m.record_first_frame(9_000);
    m.record_full_init(2_000);
    m.record_full_init(3_000);
    let s = m.startup_metrics;
    assert_eq!(s.startup_start, Some(1_000));
    assert_eq!(s.gstreamer_init_duration, Some(30));
    assert_eq!(s.wgpu_init_duration, Some(40));
    assert_eq!(s.file_discovery_duration, None);
    assert_eq!(s.time_to_first_frame, Some(500));
    assert_eq!(s.time_to_full_init, Some(2_000));
    m.record_startup_start(5_000);
    assert_eq!(m.startup_metrics.startup_start, Some(5_000));
}

#[test]
fn leaks_need_growth_over_time() {
    assert_eq!(find_leak(&vec![], 50), None);
    assert_eq!(find_leak(&vec![(0, 10), (61 * SECOND, 61)], 50), Some(Growth { grown_by: 51, seconds: 61 }));
    assert_eq!(find_leak(&vec![(0, 10), (61 * SECOND, 60)], 50), None);
    assert_eq!(find_leak(&vec![(0, 10), (61 * SECOND - 1, 61)], 50), None);
    assert_eq!(find_leak(&vec![(0, 100), (61 * SECOND, 10)], 50), None);

    let mut m = PerformanceMetrics::new(0);
    for i in 0..9u64 {
        m.record_texture_count(i as usize * 100, i * 10 * SECOND);
        m.record_pipeline_count(1, i * 10 * SECOND);
    }
    assert_eq!(m.check_resource_leaks(), None);
    m.record_texture_count(900, 90 * SECOND);
    assert_eq!(m.check_resource_leaks(), None);
    m.record_pipeline_count(1, 90 * SECOND);
    assert_eq!(
        m.check_resource_leaks(),
        Some(LeakReport { textures: Some(Growth { grown_by: 900, seconds: 90 }), pipelines: None })
    );
    m.record_pipeline_count(22, 100 * SECOND);
    assert_eq!(
        m.check_resource_leaks().unwrap().pipelines,
        Some(Growth { grown_by: 21, seconds: 100 })
    );
}

#[test]
fn only_the_latest_frame_of_each_source_is_kept() {
    use_latest(vec![], vec![]);
    use_latest(vec![("a", 1)], vec![("a", 1)]);
    use_latest(vec![("a", 1), ("a", 2), ("a", 3)], vec![("a", 3)]);
    use_latest(
        vec![("a", 1), ("b", 2), ("a", 3), ("c", 4), ("b", 5)],
        vec![("b", 5), ("c", 4), ("a", 3)],
    );
    use_latest(vec![("a", 1), ("A", 2)], vec![("A", 2), ("a", 1)]);
}

fn use_latest(frames: Vec<(&str, u32)>, expected: Vec<(&str, u32)>) {
    let owned = |v: Vec<(&str, u32)>| -> Vec<(String, u32)> {
        v.into_iter().map(|(s, f)| (s.to_string(), f)).collect()
    };
    assert_eq!(kaleidux::driver::latest_frames(owned(frames)), owned(expected));
}
