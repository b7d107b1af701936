//! Counts and recent samples that the engine reports: pool hits and misses,
//! transitions, errors, frame times, and the watch for leaking resources.
//!
//! Times are microseconds. Rates and averages that need fractions are left to
//! the reader of the numbers: a rate is given as a count and what it is out of.

use crate::texture_pool::bumped;
use crate::timing::elapsed_between;
use crate::timing::elapsed_since;
use vstd::prelude::*;
use vstd::string::*;

verus! {

/// Frame times, renderer times and video times that are kept.
pub const FRAME_WINDOW: usize = 100;

/// Transition times and shader compile times that are kept.
pub const TRANSITION_WINDOW: usize = 50;

/// First-frame times of videos and file discovery times that are kept.
pub const FIRST_FRAME_WINDOW: usize = 20;

/// Resource counts and errors that are kept.
pub const SAMPLE_WINDOW: usize = 100;

/// Resource counts needed before the watch for leaks says anything.
pub const LEAK_MIN_SAMPLES: usize = 10;

/// Growth in textures that counts as a leak.
pub const TEXTURE_LEAK_GROWTH: usize = 50;

/// Growth in programs that counts as a leak.
pub const PIPELINE_LEAK_GROWTH: usize = 20;

/// Whole seconds that the growth has to span to count as a leak.
pub const LEAK_MIN_SECONDS: u64 = 60;

/// How long the parts of the start took.
#[derive(Debug, Clone, Copy, PartialEq, Eq, Structural)]
pub struct StartupMetrics {
    pub startup_start: Option<u64>,
    pub gstreamer_init_duration: Option<u64>,
    pub wgpu_init_duration: Option<u64>,
    pub file_discovery_duration: Option<u64>,
    pub time_to_first_frame: Option<u64>,
    pub time_to_full_init: Option<u64>,
}

/// Work done by one part of the engine: total time, number of operations, and the latest times.
#[derive(Debug)]
pub struct ComponentTime {
    pub total_us: u64,
    pub ops: u64,
    pub samples: Vec<u64>,
    pub window: usize,
}

/// A resource count that grew: by how much, over how many whole seconds.
#[derive(Debug, Clone, Copy, PartialEq, Eq, Structural)]
pub struct Growth {
    pub grown_by: usize,
    pub seconds: u64,
}

/// What the watch for leaks has found.
#[derive(Debug, Clone, Copy, PartialEq, Eq, Structural)]
pub struct LeakReport {
    pub textures: Option<Growth>,
    pub pipelines: Option<Growth>,
}

/// The numbers the engine keeps of itself.
#[derive(Debug)]
pub struct PerformanceMetrics {
    pub frame_times: Vec<u64>,
    pub avg_frame_time: u64,
    pub texture_pool_hits: u64,
    pub texture_pool_misses: u64,
    pub transition_count: u64,
    pub transition_times: Vec<u64>,
    pub video_first_frame_times: Vec<u64>,
    pub cache_hits: u64,
    pub cache_misses: u64,
    pub texture_count_samples: Vec<(u64, usize)>,
    pub pipeline_count_samples: Vec<(u64, usize)>,
    pub start_time: u64,
    pub startup_metrics: StartupMetrics,
    pub error_count: u64,
    pub error_samples: Vec<(u64, String)>,
    pub renderer: ComponentTime,
    pub video: ComponentTime,
    pub file_discovery: ComponentTime,
    pub shader_compile: ComponentTime,
}

/// A window of the latest samples after one more: the oldest leaves once
/// there are more than `limit`.
pub open spec fn pushed<X>(window: Seq<X>, sample: X, limit: nat) -> Seq<X> {
    if window.len() + 1 > limit {
        window.push(sample).skip(1)
    } else {
        window.push(sample)
    }
}

/// Sum of the samples.
pub open spec fn total(samples: Seq<u64>) -> nat
    decreases samples.len(),
{
    if samples.len() == 0 {
        0
    } else {
        total(samples.drop_last()) + samples.last() as nat
    }
}

/// Average of the samples, rounded down; zero of none.
pub open spec fn average(samples: Seq<u64>) -> nat {
    if samples.len() == 0 {
        0
    } else {
        total(samples) / samples.len()
    }
}

/// `a + b`, kept at the top of the range.
pub open spec fn saturating_sum(a: u64, b: u64) -> u64 {
    if a + b > u64::MAX {
        u64::MAX
    } else {
        (a + b) as u64
    }
}

/// The growth between the first and the last of the counts, if it is a
/// leak: more than `threshold` over more than `LEAK_MIN_SECONDS` whole seconds.
pub open spec fn leak_in(samples: Seq<(u64, usize)>, threshold: usize) -> Option<Growth> {
    if samples.len() == 0 {
        None
    } else {
        let first = samples.first();
        let last = samples.last();
        let grown_by = if last.1 >= first.1 {
            (last.1 - first.1) as usize
        } else {
            0usize
        };
        let seconds = elapsed_between(first.0, last.0) / 1_000_000;
        if grown_by > threshold && seconds > LEAK_MIN_SECONDS {
            Some(Growth { grown_by, seconds })
        } else {
            None
        }
    }
}

/// Adds `sample` to a window of the latest `limit` samples.
pub fn push_sample<X>(window: &mut Vec<X>, sample: X, limit: usize)
    ensures
        final(window)@ == pushed(old(window)@, sample, limit as nat),
{
    let ghost before = window@;
    window.push(sample);
    if window.len() > limit {
        let _oldest = window.remove(0);
        assert(window@ =~= before.push(sample).skip(1));
    }
}

proof fn lemma_total_bound(samples: Seq<u64>)
    ensures
        total(samples) <= samples.len() * 0xffff_ffff_ffff_ffff,
    decreases samples.len(),
{
    if samples.len() > 0 {
        lemma_total_bound(samples.drop_last());
        assert((samples.len() - 1) * 0xffff_ffff_ffff_ffff + 0xffff_ffff_ffff_ffff == samples.len()
            * 0xffff_ffff_ffff_ffff) by (nonlinear_arith);
    }
}

/// Average of the samples, rounded down; zero of none.
pub fn average_of(samples: &Vec<u64>) -> (avg: u64)
    ensures
        avg as nat == average(samples@),
{
    if samples.len() == 0 {
        return 0;
    }
    let mut sum: u128 = 0;
    let mut i: usize = 0;
    while i < samples.len()
        invariant
            i <= samples@.len(),
            sum as nat == total(samples@.take(i as int)),
            sum <= i * 0xffff_ffff_ffff_ffff,
        decreases samples@.len() - i,
    {
        proof {
            assert(samples@.take(i as int + 1).drop_last() =~= samples@.take(i as int));
            assert((i + 1) * 0xffff_ffff_ffff_ffff == i * 0xffff_ffff_ffff_ffff
                + 0xffff_ffff_ffff_ffff) by (nonlinear_arith);
            assert(i * 0xffff_ffff_ffff_ffff <= 0xffff_ffff_ffff_ffff * 0xffff_ffff_ffff_ffff)
                by (nonlinear_arith)
                requires
                    i <= 0xffff_ffff_ffff_ffff,
            ;
        }
        sum = sum + samples[i] as u128;
        i = i + 1;
    }
    proof {
        assert(samples@.take(i as int) =~= samples@);
        lemma_total_bound(samples@);
        assert(total(samples@) / samples@.len() <= 0xffff_ffff_ffff_ffff) by (nonlinear_arith)
            requires
                total(samples@) <= samples@.len() * 0xffff_ffff_ffff_ffff,
                samples@.len() > 0,
        ;
    }
    (sum / (samples.len() as u128)) as u64
}

/// Looks for a leak in a series of resource counts.
pub fn find_leak(samples: &Vec<(u64, usize)>, threshold: usize) -> (leak: Option<Growth>)
    ensures
        leak == leak_in(samples@, threshold),
{
    if samples.len() == 0 {
        return None;
    }
    let first = samples[0];
    let last = samples[samples.len() - 1];
    let grown_by: usize = if last.1 >= first.1 {
        last.1 - first.1
    } else {
        0
    };
    let seconds = elapsed_since(first.0, last.0) / 1_000_000;
    if grown_by > threshold && seconds > LEAK_MIN_SECONDS {
        Some(Growth { grown_by, seconds })
    } else {
        None
    }
}

impl ComponentTime {
    /// No work done yet; the latest `window` times are kept.
    pub fn new(window: usize) -> (c: ComponentTime)
        ensures
            c.total_us == 0 && c.ops == 0 && c.samples@.len() == 0 && c.window == window,
    {
        ComponentTime { total_us: 0, ops: 0, samples: Vec::new(), window }
    }

    /// Counts one operation that took `duration_us`.
    pub fn record(&mut self, duration_us: u64)
        ensures
            final(self).total_us == saturating_sum(old(self).total_us, duration_us),
            final(self).ops == bumped(old(self).ops),
            final(self).samples@ == pushed(old(self).samples@, duration_us, old(self).window as nat),
            final(self).window == old(self).window,
    {
        self.total_us = if self.total_us > u64::MAX - duration_us {
            u64::MAX
        } else {
            self.total_us + duration_us
        };
        if self.ops < u64::MAX {
            self.ops = self.ops + 1;
        }
        push_sample(&mut self.samples, duration_us, self.window);
    }

    /// Average time of all operations, rounded down; zero before the first.
    pub fn average_us(&self) -> (avg: u64)
        ensures
            avg == if self.ops == 0 {
                0
            } else {
                self.total_us / self.ops
            },
    {
        if self.ops == 0 {
            0
        } else {
            self.total_us / self.ops
        }
    }

    /// Average of the latest times, rounded down; zero of none.
    pub fn recent_average_us(&self) -> (avg: u64)
        ensures
            avg as nat == average(self.samples@),
    {
        average_of(&self.samples)
    }
}

impl StartupMetrics {
    /// The start as begun at `now`, nothing else known.
    pub fn started(now: u64) -> (m: StartupMetrics)
        ensures
            m == (StartupMetrics {
                startup_start: Some(now),
                gstreamer_init_duration: None,
                wgpu_init_duration: None,
                file_discovery_duration: None,
                time_to_first_frame: None,
                time_to_full_init: None,
            }),
    {
        StartupMetrics {
            startup_start: Some(now),
            gstreamer_init_duration: None,
            wgpu_init_duration: None,
            file_discovery_duration: None,
            time_to_first_frame: None,
            time_to_full_init: None,
        }
    }
}

impl PerformanceMetrics {
    /// Metrics of an engine started at `now`.
    pub fn new(now: u64) -> (m: PerformanceMetrics)
        ensures
            m.start_time == now,
            m.startup_metrics.startup_start == Some(now),
            m.texture_pool_hits == 0 && m.texture_pool_misses == 0,
            m.cache_hits == 0 && m.cache_misses == 0,
            m.transition_count == 0 && m.error_count == 0,
            m.avg_frame_time == 0,
            m.frame_times@.len() == 0 && m.transition_times@.len() == 0,
            m.video_first_frame_times@.len() == 0 && m.error_samples@.len() == 0,
            m.texture_count_samples@.len() == 0 && m.pipeline_count_samples@.len() == 0,
            m.renderer.window == FRAME_WINDOW && m.video.window == FRAME_WINDOW,
            m.file_discovery.window == FIRST_FRAME_WINDOW,
            m.shader_compile.window == TRANSITION_WINDOW,
            m.renderer.ops == 0 && m.video.ops == 0 && m.file_discovery.ops == 0
                && m.shader_compile.ops == 0,
    {
        PerformanceMetrics {
            frame_times: Vec::new(),
            avg_frame_time: 0,
            texture_pool_hits: 0,
            texture_pool_misses: 0,
            transition_count: 0,
            transition_times: Vec::new(),
            video_first_frame_times: Vec::new(),
            cache_hits: 0,
            cache_misses: 0,
            texture_count_samples: Vec::new(),
            pipeline_count_samples: Vec::new(),
            start_time: now,
            startup_metrics: StartupMetrics::started(now),
            error_count: 0,
            error_samples: Vec::new(),
            renderer: ComponentTime::new(FRAME_WINDOW),
            video: ComponentTime::new(FRAME_WINDOW),
            file_discovery: ComponentTime::new(FIRST_FRAME_WINDOW),
            shader_compile: ComponentTime::new(TRANSITION_WINDOW),
        }
    }

    /// Counts an error of the given kind at `now` and keeps it among the latest.
    pub fn record_error(&mut self, error_type: &str, now: u64)
        ensures
            final(self).error_count == bumped(old(self).error_count),
            final(self).error_samples@.len() > 0,
            final(self).error_samples@.drop_last() == if old(self).error_samples@.len() + 1
                > SAMPLE_WINDOW {
                old(self).error_samples@.skip(1)
            } else {
                old(self).error_samples@
            },
            final(self).error_samples@.last().0 == now,
            final(self).error_samples@.last().1@ == error_type@,
            final(self).texture_pool_hits == old(self).texture_pool_hits,
            final(self).texture_pool_misses == old(self).texture_pool_misses,
            final(self).transition_count == old(self).transition_count,
    {
        if self.error_count < u64::MAX {
            self.error_count = self.error_count + 1;
        }
        let kind = String::from_str(error_type);
        let ghost before = self.error_samples@;
        let ghost sample = (now, kind);
        push_sample(&mut self.error_samples, (now, kind), SAMPLE_WINDOW);
        proof {
            if before.len() + 1 > SAMPLE_WINDOW {
                assert(before.push(sample).skip(1).drop_last() =~= before.skip(1));
            } else {
                assert(before.push(sample).drop_last() =~= before);
            }
        }
    }

    /// Errors counted so far.
    pub fn get_error_count(&self) -> (n: u64)
        ensures
            n == self.error_count,
    {
        self.error_count
    }

    /// The latest errors as a count and the time they span, from which the
    /// rate of errors follows; `None` of fewer than two errors or of no time.
    pub fn get_error_rate(&self) -> (rate: Option<(usize, u64)>)
        ensures
            rate == if self.error_samples@.len() < 2 || elapsed_between(
                self.error_samples@.first().0,
                self.error_samples@.last().0,
            ) == 0 {
                None
            } else {
                Some(
                    (
                        self.error_samples@.len() as usize,
                        elapsed_between(
                            self.error_samples@.first().0,
                            self.error_samples@.last().0,
                        ),
                    ),
                )
            },
    {
        let n = self.error_samples.len();
        if n < 2 {
            return None;
        }
        let span = elapsed_since(self.error_samples[0].0, self.error_samples[n - 1].0);
        if span == 0 {
            None
        } else {
            Some((n, span))
        }
    }

    /// Keeps the time of one round of the loop and brings the average up to date.
    pub fn record_frame_time(&mut self, duration_us: u64)
        ensures
            final(self).frame_times@ == pushed(
                old(self).frame_times@,
                duration_us,
                FRAME_WINDOW as nat,
            ),
            final(self).avg_frame_time as nat == average(final(self).frame_times@),
            final(self).error_count == old(self).error_count,
            final(self).texture_pool_hits == old(self).texture_pool_hits,
            final(self).texture_pool_misses == old(self).texture_pool_misses,
            final(self).transition_count == old(self).transition_count,
    {
        push_sample(&mut self.frame_times, duration_us, FRAME_WINDOW);
        self.avg_frame_time = average_of(&self.frame_times);
    }

    /// Average time of the latest rounds of the loop.
    pub fn get_avg_frame_time(&self) -> (avg: u64)
        ensures
            avg == self.avg_frame_time,
    {
        self.avg_frame_time
    }

    /// Counts a request for a texture that the pool served.
    pub fn record_texture_pool_hit(&mut self)
        ensures
            final(self).texture_pool_hits == bumped(old(self).texture_pool_hits),
            final(self).texture_pool_misses == old(self).texture_pool_misses,
            final(self).error_count == old(self).error_count,
    {
        if self.texture_pool_hits < u64::MAX {
            self.texture_pool_hits = self.texture_pool_hits + 1;
        }
    }

    /// Counts a request for a texture that the pool could not serve.
    pub fn record_texture_pool_miss(&mut self)
        ensures
            final(self).texture_pool_misses == bumped(old(self).texture_pool_misses),
            final(self).texture_pool_hits == old(self).texture_pool_hits,
            final(self).error_count == old(self).error_count,
    {
        if self.texture_pool_misses < u64::MAX {
            self.texture_pool_misses = self.texture_pool_misses + 1;
        }
    }

    /// Counts a transition that has ended after `duration_us`.
    pub fn record_transition(&mut self, duration_us: u64)
        ensures
            final(self).transition_count == bumped(old(self).transition_count),
            final(self).transition_times@ == pushed(
                old(self).transition_times@,
                duration_us,
                TRANSITION_WINDOW as nat,
            ),
            final(self).error_count == old(self).error_count,
    {
        if self.transition_count < u64::MAX {
            self.transition_count = self.transition_count + 1;
        }
        push_sample(&mut self.transition_times, duration_us, TRANSITION_WINDOW);
    }

    /// Keeps the time a video took to show its first frame.
    pub fn record_video_first_frame(&mut self, duration_us: u64)
        ensures
            final(self).video_first_frame_times@ == pushed(
                old(self).video_first_frame_times@,
                duration_us,
                FIRST_FRAME_WINDOW as nat,
            ),
    {
        push_sample(&mut self.video_first_frame_times, duration_us, FIRST_FRAME_WINDOW);
    }

    /// Counts a lookup that the file cache served.
    pub fn record_cache_hit(&mut self)
        ensures
            final(self).cache_hits == bumped(old(self).cache_hits),
            final(self).cache_misses == old(self).cache_misses,
    {
        if self.cache_hits < u64::MAX {
            self.cache_hits = self.cache_hits + 1;
        }
    }

    /// Counts a lookup that the file cache could not serve.
    pub fn record_cache_miss(&mut self)
        ensures
            final(self).cache_misses == bumped(old(self).cache_misses),
            final(self).cache_hits == old(self).cache_hits,
    {
        if self.cache_misses < u64::MAX {
            self.cache_misses = self.cache_misses + 1;
        }
    }

    /// Requests for a texture that the pool served, and all requests.
    pub fn get_texture_pool_hit_rate(&self) -> (rate: (u64, u64))
        ensures
            rate.0 == self.texture_pool_hits,
            rate.1 == saturating_sum(self.texture_pool_hits, self.texture_pool_misses),
    {
        let all = if self.texture_pool_hits > u64::MAX - self.texture_pool_misses {
            u64::MAX
        } else {
            self.texture_pool_hits + self.texture_pool_misses
        };
        (self.texture_pool_hits, all)
    }

    /// Lookups that the file cache served, and all lookups.
    pub fn get_cache_hit_rate(&self) -> (rate: (u64, u64))
        ensures
            rate.0 == self.cache_hits,
            rate.1 == saturating_sum(self.cache_hits, self.cache_misses),
    {
        let all = if self.cache_hits > u64::MAX - self.cache_misses {
            u64::MAX
        } else {
            self.cache_hits + self.cache_misses
        };
        (self.cache_hits, all)
    }

    /// Keeps the number of textures alive at `now`.
    pub fn record_texture_count(&mut self, count: usize, now: u64)
        ensures
            final(self).texture_count_samples@ == pushed(
                old(self).texture_count_samples@,
                (now, count),
                SAMPLE_WINDOW as nat,
            ),
            final(self).pipeline_count_samples == old(self).pipeline_count_samples,
    {
        push_sample(&mut self.texture_count_samples, (now, count), SAMPLE_WINDOW);
    }

    /// Keeps the number of programs alive at `now`.
    pub fn record_pipeline_count(&mut self, count: usize, now: u64)
        ensures
            final(self).pipeline_count_samples@ == pushed(
                old(self).pipeline_count_samples@,
                (now, count),
                SAMPLE_WINDOW as nat,
            ),
            final(self).texture_count_samples == old(self).texture_count_samples,
    {
        push_sample(&mut self.pipeline_count_samples, (now, count), SAMPLE_WINDOW);
    }

    /// Looks for resources that keep growing. With fewer than
    /// `LEAK_MIN_SAMPLES` counts of either kind nothing is said.
    pub fn check_resource_leaks(&self) -> (report: Option<LeakReport>)
        ensures
            report == if self.texture_count_samples@.len() < LEAK_MIN_SAMPLES
                || self.pipeline_count_samples@.len() < LEAK_MIN_SAMPLES {
                None
            } else {
                let textures = leak_in(self.texture_count_samples@, TEXTURE_LEAK_GROWTH);
                let pipelines = leak_in(self.pipeline_count_samples@, PIPELINE_LEAK_GROWTH);
                if textures.is_none() && pipelines.is_none() {
                    None
                } else {
                    Some(LeakReport { textures, pipelines })
                }
            },
    {
        if self.texture_count_samples.len() < LEAK_MIN_SAMPLES || self.pipeline_count_samples.len()
            < LEAK_MIN_SAMPLES {
            return None;
        }
        let textures = find_leak(&self.texture_count_samples, TEXTURE_LEAK_GROWTH);
        let pipelines = find_leak(&self.pipeline_count_samples, PIPELINE_LEAK_GROWTH);
        if textures.is_none() && pipelines.is_none() {
            None
        } else {
            Some(LeakReport { textures, pipelines })
        }
    }

    /// Time since the engine was started.
    pub fn get_uptime(&self, now: u64) -> (us: u64)
        ensures
            us == elapsed_between(self.start_time, now),
    {
        elapsed_since(self.start_time, now)
    }

    /// Whole seconds since the engine was started.
    pub fn get_uptime_seconds(&self, now: u64) -> (secs: u64)
        ensures
            secs == elapsed_between(self.start_time, now) / 1_000_000,
    {
        elapsed_since(self.start_time, now) / 1_000_000
    }

    /// Notes that the start begins at `now`.
    pub fn record_startup_start(&mut self, now: u64)
        ensures
            final(self).startup_metrics == (StartupMetrics {
                startup_start: Some(now),
                ..old(self).startup_metrics
            }),
    {
        self.startup_metrics.startup_start = Some(now);
    }

    /// Notes how long the media framework took to start.
    pub fn record_gstreamer_init(&mut self, duration_us: u64)
        ensures
            final(self).startup_metrics == (StartupMetrics {
                gstreamer_init_duration: Some(duration_us),
                ..old(self).startup_metrics
            }),
    {
        self.startup_metrics.gstreamer_init_duration = Some(duration_us);
    }

    /// Notes how long the GPU took to start.
    pub fn record_wgpu_init(&mut self, duration_us: u64)
        ensures
            final(self).startup_metrics == (StartupMetrics {
                wgpu_init_duration: Some(duration_us),
                ..old(self).startup_metrics
            }),
    {
        self.startup_metrics.wgpu_init_duration = Some(duration_us);
    }

    /// Notes at `now` that the first frame is on screen. Only the first note counts.
    pub fn record_first_frame(&mut self, now: u64)
        ensures
            final(self).startup_metrics == match (
                old(self).startup_metrics.startup_start,
                old(self).startup_metrics.time_to_first_frame,
            ) {
                (Some(start), None) => StartupMetrics {
                    time_to_first_frame: Some(elapsed_between(start, now)),
                    ..old(self).startup_metrics
                },
                _ => old(self).startup_metrics,
            },
    {
        match self.startup_metrics.startup_start {
            Some(start) => {
                if self.startup_metrics.time_to_first_frame.is_none() {
                    self.startup_metrics.time_to_first_frame = Some(elapsed_since(start, now));
                }
            },
            None => {},
        }
    }

    /// Notes at `now` that the start is over.
    pub fn record_full_init(&mut self, now: u64)
        ensures
            final(self).startup_metrics == match old(self).startup_metrics.startup_start {
                Some(start) => StartupMetrics {
                    time_to_full_init: Some(elapsed_between(start, now)),
                    ..old(self).startup_metrics
                },
                None => old(self).startup_metrics,
            },
    {
        match self.startup_metrics.startup_start {
            Some(start) => {
                self.startup_metrics.time_to_full_init = Some(elapsed_since(start, now));
            },
            None => {},
        }
    }

    /// Counts time the renderer spent.
    pub fn record_renderer_cpu_time(&mut self, duration_us: u64)
        ensures
            final(self).renderer.total_us == saturating_sum(old(self).renderer.total_us, duration_us),
            final(self).renderer.ops == bumped(old(self).renderer.ops),
            final(self).renderer.samples@ == pushed(
                old(self).renderer.samples@,
                duration_us,
                old(self).renderer.window as nat,
            ),
    {
        self.renderer.record(duration_us);
    }

    /// Counts time spent on video.
    pub fn record_video_cpu_time(&mut self, duration_us: u64)
        ensures
            final(self).video.total_us == saturating_sum(old(self).video.total_us, duration_us),
            final(self).video.ops == bumped(old(self).video.ops),
            final(self).video.samples@ == pushed(
                old(self).video.samples@,
                duration_us,
                old(self).video.window as nat,
            ),
    {
        self.video.record(duration_us);
    }

    /// Counts time spent on finding files.
    pub fn record_file_discovery_cpu_time(&mut self, duration_us: u64)
        ensures
            final(self).file_discovery.total_us == saturating_sum(
                old(self).file_discovery.total_us,
                duration_us,
            ),
            final(self).file_discovery.ops == bumped(old(self).file_discovery.ops),
            final(self).file_discovery.samples@ == pushed(
                old(self).file_discovery.samples@,
                duration_us,
                old(self).file_discovery.window as nat,
            ),
    {
        self.file_discovery.record(duration_us);
    }

    /// Counts time spent on compiling shaders.
    pub fn record_shader_compile_cpu_time(&mut self, duration_us: u64)
        ensures
            final(self).shader_compile.total_us == saturating_sum(
                old(self).shader_compile.total_us,
                duration_us,
            ),
            final(self).shader_compile.ops == bumped(old(self).shader_compile.ops),
            final(self).shader_compile.samples@ == pushed(
                old(self).shader_compile.samples@,
                duration_us,
                old(self).shader_compile.window as nat,
            ),
    {
        self.shader_compile.record(duration_us);
    }
}

} // verus!
