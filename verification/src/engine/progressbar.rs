//! The supervision of one running encode: a state machine that is fed
//! snapshots of the frame counter and decides whether the encode is healthy,
//! done, overloaded or stalled.

use crate::text::{replace, replaced};
use vstd::prelude::*;

verus! {

/// The template of the progress bar; each `%` stands for the colour.
pub const BAR_TEMPLATE: &'static str =
    "{spinner:.%} [{elapsed_precise}] [{wide_bar:.%}] {pos}/{len} frames ({eta_precise})";

/// How long the throughput may stay under the target before the encoder
/// counts as overloaded, in milliseconds.
pub const OVERLOAD_WINDOW_MS: u64 = 5_000;

/// How long the frame counter may stand still before the encoder counts as
/// stalled, in milliseconds.
pub const STALL_WINDOW_MS: u64 = 10_000;

/// How long the encoder may take to open its progress connection, in
/// milliseconds.
pub const CONNECT_TIMEOUT_MS: u64 = 10_000;

/// How long to wait between two attempts to accept the connection when the
/// attempts are being logged, in milliseconds.
pub const CONNECT_RETRY_PAUSE_MS: u64 = 1_000;

/// What a trial leaves behind: the accepted throughput samples, whether the
/// encoder could not keep up, and whether the encoder itself failed.
pub struct TrialResult {
    pub all_fps: Vec<u16>,
    pub was_overloaded: bool,
    pub ffmpeg_error: bool,
}

impl Default for TrialResult {
    fn default() -> (r: Self)
        ensures
            r.all_fps@ == Seq::<u16>::empty(),
            !r.was_overloaded,
            !r.ffmpeg_error,
    {
        TrialResult { all_fps: Vec::new(), was_overloaded: false, ffmpeg_error: false }
    }
}

/// The states of the supervision. The first two go on; the others end it.
#[derive(Clone, Copy, Debug, PartialEq, Eq, Structural)]
pub enum MonitorState {
    /// The encoder has not opened its progress connection yet.
    AwaitingStream,
    /// Frame counts are coming in.
    Streaming,
    /// The frame counter reached the frame count of the input.
    Complete,
    /// The throughput stayed under the target for longer than the window.
    OverloadDetected,
    /// The frame counter stood still for longer than the window.
    StallDetected,
    /// The connection did not come within its time.
    ConnectTimeout,
    /// The run was cancelled from outside.
    Cancelled,
}

/// What to do after an attempt to accept the progress connection.
#[derive(Clone, Copy, Debug, PartialEq, Eq, Structural)]
pub enum ListenAction {
    /// Give the whole run up: the encoder or the environment is broken.
    Abort,
    /// Start reading frame counts from the connection.
    StartReading,
    /// Try again, after a pause of so many milliseconds.
    Retry { pause_ms: u64 },
}

/// What one trial is measured against.
#[derive(Clone, Copy, Debug, PartialEq, Eq, Structural)]
pub struct MonitorConfig {
    /// The frame count of the input.
    pub total_frames: u64,
    /// Whether a sustained throughput under the target ends the trial.
    pub detect_overload: bool,
    /// The frame rate of the input, which real time encoding must sustain.
    pub target_fps: u32,
    /// The period at which the encoder reports its frame count, in
    /// milliseconds.
    pub stats_period_ms: u32,
}

/// One snapshot of what the evaluator sees: the frame counter and its value
/// one report earlier, the clock, and the cancellation signal.
#[derive(Clone, Copy, Debug, PartialEq, Eq, Structural)]
pub struct Observation {
    pub frame: u64,
    pub previous_frame: u64,
    pub now_ms: u64,
    pub cancelled: bool,
}

/// What the evaluator remembers between two snapshots.
#[derive(Clone, Copy, Debug, PartialEq, Eq, Structural)]
pub struct Watch {
    pub state: MonitorState,
    /// Since when the throughput has been under the target without a break.
    pub overload_since: Option<u64>,
    /// Since when the frame counter has stood still.
    pub stall_since: Option<u64>,
    /// The frame count of the snapshot before.
    pub last_frame: u64,
}

/// The supervision of one trial.
pub struct ProgressMonitor {
    pub config: MonitorConfig,
    pub watch: Watch,
    pub all_fps: Vec<u16>,
}

/// The time from `since` to `now`; none if the clock went back.
pub open spec fn elapsed_ms(since: u64, now: u64) -> nat {
    if now >= since {
        (now - since) as nat
    } else {
        0
    }
}

impl MonitorState {
    /// Whether a trial that ended in this state counts as overloaded:
    /// every end but completion.
    pub open spec fn overloaded(&self) -> bool {
        *self != MonitorState::Complete
    }

    /// Whether the encoder itself failed: it stalled or never connected.
    pub open spec fn hard_error(&self) -> bool {
        *self == MonitorState::StallDetected || *self == MonitorState::ConnectTimeout
    }
}

impl MonitorConfig {
    /// The throughput that a snapshot shows, in frames per second: the
    /// frames since the report before, over the reporting period.
    pub open spec fn instant_fps(&self, obs: Observation) -> nat {
        ((obs.frame - obs.previous_frame) * 1000 / (self.stats_period_ms as int)) as nat
    }

    /// Whether the sample counts for the statistics: one under a quarter of
    /// the target is noise, and one too large for the width of a sample is
    /// left out rather than cut down.
    pub open spec fn accepts(&self, obs: Observation) -> bool {
        self.target_fps / 4 <= self.instant_fps(obs) <= u16::MAX
    }

    /// Whether the snapshot feeds the suspicion of an overload.
    pub open spec fn suspects(&self, obs: Observation) -> bool {
        self.detect_overload && self.instant_fps(obs) < self.target_fps
    }

    /// The sample as it is stored: the throughput itself, which fits where
    /// the sample is accepted.
    pub open spec fn stored_sample(&self, obs: Observation) -> u16 {
        self.instant_fps(obs) as u16
    }

    /// Whether `sample` is a sample that counts for the statistics: the
    /// throughput that one of `observations` shows, and no noise.
    pub open spec fn is_sample_of(&self, sample: u16, observations: Seq<Observation>) -> bool {
        sample >= self.target_fps / 4 && exists|k: int|
            0 <= k < observations.len() && self.instant_fps(#[trigger] observations[k]) == sample
    }
}

impl Watch {
    /// The memory at the start of a trial.
    pub open spec fn start() -> Watch {
        Watch {
            state: MonitorState::AwaitingStream,
            overload_since: None,
            stall_since: None,
            last_frame: 0,
        }
    }

    /// Since when the suspicion of an overload has lasted once `obs` is
    /// taken in: it starts with the first sample under the target and ends
    /// with the first one at or above it.
    pub open spec fn suspicion_after(&self, config: MonitorConfig, obs: Observation) -> Option<
        u64,
    > {
        if config.suspects(obs) {
            match self.overload_since {
                Some(since) => Some(since),
                None => Some(obs.now_ms),
            }
        } else {
            None
        }
    }

    /// Whether `obs` shows an overload: the suspicion has lasted longer than
    /// the window.
    pub open spec fn overload_shown(&self, config: MonitorConfig, obs: Observation) -> bool {
        match self.suspicion_after(config, obs) {
            Some(since) => elapsed_ms(since, obs.now_ms) > OVERLOAD_WINDOW_MS,
            None => false,
        }
    }

    /// Since when the frame counter has stood still once `obs` is taken in.
    pub open spec fn standstill_after(&self, obs: Observation) -> Option<u64> {
        if obs.frame != self.last_frame {
            None
        } else {
            match self.stall_since {
                Some(since) => Some(since),
                None => Some(obs.now_ms),
            }
        }
    }

    /// Whether `obs` shows a stall: the counter has stood still for longer
    /// than the window.
    pub open spec fn stall_shown(&self, obs: Observation) -> bool {
        match self.standstill_after(obs) {
            Some(since) => elapsed_ms(since, obs.now_ms) > STALL_WINDOW_MS,
            None => false,
        }
    }

    /// The memory after one snapshot. Only a streaming supervision moves.
    /// Cancellation comes before everything, an overload before completion,
    /// completion before a stall.
    pub open spec fn next(&self, config: MonitorConfig, obs: Observation) -> Watch {
        if self.state != MonitorState::Streaming {
            *self
        } else if obs.cancelled {
            Watch { state: MonitorState::Cancelled, ..*self }
        } else if self.overload_shown(config, obs) {
            Watch {
                state: MonitorState::OverloadDetected,
                overload_since: self.suspicion_after(config, obs),
                ..*self
            }
        } else if obs.frame >= config.total_frames {
            Watch {
                state: MonitorState::Complete,
                overload_since: self.suspicion_after(config, obs),
                ..*self
            }
        } else {
            Watch {
                state: if self.stall_shown(obs) {
                    MonitorState::StallDetected
                } else {
                    MonitorState::Streaming
                },
                overload_since: self.suspicion_after(config, obs),
                stall_since: self.standstill_after(obs),
                last_frame: obs.frame,
            }
        }
    }

    /// The samples after one snapshot: the sample of the snapshot is added
    /// where the supervision was streaming, was not cancelled, and the
    /// sample is no noise.
    pub open spec fn samples_after(
        &self,
        config: MonitorConfig,
        samples: Seq<u16>,
        obs: Observation,
    ) -> Seq<u16> {
        if self.state == MonitorState::Streaming && !obs.cancelled && config.accepts(obs) {
            samples.push(config.stored_sample(obs))
        } else {
            samples
        }
    }

    /// A frame counter that reaches the frame count of the input before an
    /// overload is shown completes the trial, and a completed trial is not
    /// overloaded.
    pub proof fn lemma_completion_is_no_overload(
        &self,
        config: MonitorConfig,
        obs: Observation,
    )
        requires
            self.state == MonitorState::Streaming,
            !obs.cancelled,
            obs.frame >= config.total_frames,
            !self.overload_shown(config, obs),
        ensures
            self.next(config, obs).state == MonitorState::Complete,
            !self.next(config, obs).state.overloaded(),
            !self.next(config, obs).state.hard_error(),
    {
    }

    /// A throughput that has been under a quarter of the target for longer
    /// than the overload window, with overload detection on, ends the trial
    /// as overloaded; none of its samples counted for the statistics.
    pub proof fn lemma_sustained_low_throughput_is_overload(
        &self,
        config: MonitorConfig,
        samples: Seq<u16>,
        obs: Observation,
    )
        requires
            self.state == MonitorState::Streaming,
            !obs.cancelled,
            config.detect_overload,
            config.instant_fps(obs) < config.target_fps / 4,
            self.overload_since is Some,
            elapsed_ms(self.overload_since.unwrap(), obs.now_ms) > OVERLOAD_WINDOW_MS,
        ensures
            self.next(config, obs).state == MonitorState::OverloadDetected,
            self.next(config, obs).state.overloaded(),
            !self.next(config, obs).state.hard_error(),
            self.samples_after(config, samples, obs) == samples,
    {
    }
}

/// What follows an attempt to accept the progress connection `elapsed_ms`
/// after listening began: past the time limit the run is given up, even if
/// the attempt succeeded; a logged failure is followed by a pause.
pub open spec fn listen_action(elapsed_ms: u64, accepted: bool, verbose: bool) -> ListenAction {
    if elapsed_ms > CONNECT_TIMEOUT_MS {
        ListenAction::Abort
    } else if accepted {
        ListenAction::StartReading
    } else if verbose {
        ListenAction::Retry { pause_ms: CONNECT_RETRY_PAUSE_MS }
    } else {
        ListenAction::Retry { pause_ms: 0 }
    }
}

impl ProgressMonitor {
    /// The supervision of a trial that has not connected yet.
    pub fn new(
        total_frames: u64,
        detect_overload: bool,
        target_fps: u32,
        stats_period_ms: u32,
    ) -> (r: Self)
        ensures
            r.config == (MonitorConfig {
                total_frames,
                detect_overload,
                target_fps,
                stats_period_ms,
            }),
            r.watch == Watch::start(),
            r.all_fps@ == Seq::<u16>::empty(),
    {
        ProgressMonitor {
            config: MonitorConfig { total_frames, detect_overload, target_fps, stats_period_ms },
            watch: Watch {
                state: MonitorState::AwaitingStream,
                overload_since: None,
                stall_since: None,
                last_frame: 0,
            },
            all_fps: Vec::new(),
        }
    }

    /// Takes in the outcome of one attempt to accept the progress
    /// connection. While the connection is awaited, the state follows the
    /// action: streaming once accepted, timed out past the limit.
    pub fn start_listening_to_ffmpeg_stats(
        &mut self,
        elapsed_ms: u64,
        accepted: bool,
        verbose: bool,
    ) -> (r: ListenAction)
        ensures
            r == listen_action(elapsed_ms, accepted, verbose),
            final(self).config == old(self).config,
            final(self).all_fps@ == old(self).all_fps@,
            final(self).watch.overload_since == old(self).watch.overload_since,
            final(self).watch.stall_since == old(self).watch.stall_since,
            final(self).watch.last_frame == old(self).watch.last_frame,
            final(self).watch.state == (if old(self).watch.state != MonitorState::AwaitingStream {
                old(self).watch.state
            } else if r == ListenAction::Abort {
                MonitorState::ConnectTimeout
            } else if r == ListenAction::StartReading {
                MonitorState::Streaming
            } else {
                MonitorState::AwaitingStream
            }),
    {
        let action = if elapsed_ms > CONNECT_TIMEOUT_MS {
            ListenAction::Abort
        } else if accepted {
            ListenAction::StartReading
        } else if verbose {
            ListenAction::Retry { pause_ms: CONNECT_RETRY_PAUSE_MS }
        } else {
            ListenAction::Retry { pause_ms: 0 }
        };
        if self.watch.state == MonitorState::AwaitingStream {
            match action {
                ListenAction::Abort => {
                    self.watch.state = MonitorState::ConnectTimeout;
                },
                ListenAction::StartReading => {
                    self.watch.state = MonitorState::Streaming;
                },
                ListenAction::Retry { pause_ms } => {},
            }
        }
        action
    }

    /// Takes in one snapshot and returns the state it leads to.
    pub fn observe(&mut self, obs: Observation) -> (r: MonitorState)
        requires
            obs.previous_frame <= obs.frame,
            old(self).config.stats_period_ms > 0,
        ensures
            final(self).config == old(self).config,
            final(self).watch == old(self).watch.next(old(self).config, obs),
            final(self).all_fps@ == old(self).watch.samples_after(
                old(self).config,
                old(self).all_fps@,
                obs,
            ),
            r == final(self).watch.state,
    {
        if self.watch.state != MonitorState::Streaming {
            return self.watch.state;
        }
        if obs.cancelled {
            self.watch.state = MonitorState::Cancelled;
            return MonitorState::Cancelled;
        }
        let config = self.config;
        let fps: u128 = (obs.frame - obs.previous_frame) as u128 * 1000
            / config.stats_period_ms as u128;
        assert(fps == config.instant_fps(obs));
        // A sample far under the target is noise; it still counts as a sign
        // of an overload.
        if fps >= (config.target_fps / 4) as u128 && fps <= 0xffff {
            self.all_fps.push(fps as u16);
        }
        let suspicion: Option<u64> = if config.detect_overload && fps < config.target_fps as u128 {
            match self.watch.overload_since {
                Some(since) => Some(since),
                None => Some(obs.now_ms),
            }
        } else {
            None
        };
        self.watch.overload_since = suspicion;
        if let Some(since) = suspicion {
            if obs.now_ms >= since && obs.now_ms - since > OVERLOAD_WINDOW_MS {
                self.watch.state = MonitorState::OverloadDetected;
                return MonitorState::OverloadDetected;
            }
        }
        if obs.frame >= config.total_frames {
            self.watch.state = MonitorState::Complete;
            return MonitorState::Complete;
        }
        if obs.frame != self.watch.last_frame {
            self.watch.last_frame = obs.frame;
            self.watch.stall_since = None;
        } else {
            let since = match self.watch.stall_since {
                Some(since) => since,
                None => obs.now_ms,
            };
            self.watch.stall_since = Some(since);
            // Standing still for this long is no slowness: the encoder has
            // failed.
            if obs.now_ms >= since && obs.now_ms - since > STALL_WINDOW_MS {
                self.watch.state = MonitorState::StallDetected;
            }
        }
        self.watch.state
    }

    /// Ends the supervision: returns what the trial leaves behind, as its
    /// state says, and puts the frame counter back to zero for the next
    /// trial.
    pub fn finish(self, counter: &mut ProgressSample) -> (r: TrialResult)
        ensures
            r.all_fps@ == self.all_fps@,
            r.was_overloaded == self.watch.state.overloaded(),
            r.ffmpeg_error == self.watch.state.hard_error(),
            *final(counter) == (ProgressSample { frame: 0, previous_frame: 0 }),
    {
        counter.reset();
        let state = self.watch.state;
        TrialResult {
            all_fps: self.all_fps,
            was_overloaded: state != MonitorState::Complete,
            ffmpeg_error: state == MonitorState::StallDetected || state
                == MonitorState::ConnectTimeout,
        }
    }
}

/// The template of the progress bar in a colour.
pub fn set_bar_style(color: &str) -> (r: String)
    ensures
        r@ == replaced(BAR_TEMPLATE@, "%"@, color@),
{
    replace(BAR_TEMPLATE, "%", color)
}

/// The memory and the samples after all of `observations`, taken in one
/// after the other.
pub open spec fn watch_all(
    config: MonitorConfig,
    watch: Watch,
    samples: Seq<u16>,
    observations: Seq<Observation>,
) -> (Watch, Seq<u16>)
    decreases observations.len(),
{
    if observations.len() == 0 {
        (watch, samples)
    } else {
        let before = watch_all(config, watch, samples, observations.drop_last());
        (
            before.0.next(config, observations.last()),
            before.0.samples_after(config, before.1, observations.last()),
        )
    }
}

/// The memory of a supervision whose stream has just connected.
pub open spec fn connected() -> Watch {
    Watch { state: MonitorState::Streaming, ..Watch::start() }
}

/// Every sample that the statistics get is the throughput that one of the
/// snapshots showed, and at least a quarter of the target.
pub proof fn lemma_samples_are_no_noise(
    config: MonitorConfig,
    watch: Watch,
    observations: Seq<Observation>,
)
    ensures
        forall|i: int|
            0 <= i < watch_all(config, watch, Seq::<u16>::empty(), observations).1.len()
                ==> config.is_sample_of(
                #[trigger] watch_all(config, watch, Seq::<u16>::empty(), observations).1[i],
                observations,
            ),
    decreases observations.len(),
{
    if observations.len() > 0 {
        let earlier = observations.drop_last();
        let last = observations.last();
        lemma_samples_are_no_noise(config, watch, earlier);
        let before = watch_all(config, watch, Seq::<u16>::empty(), earlier);
        let after = watch_all(config, watch, Seq::<u16>::empty(), observations).1;
        assert(after == before.0.samples_after(config, before.1, last));
        assert forall|i: int| 0 <= i < after.len() implies config.is_sample_of(
            #[trigger] after[i],
            observations,
        ) by {
            if i < before.1.len() {
                assert(after[i] == before.1[i]);
                assert(config.is_sample_of(before.1[i], earlier));
                let k = choose|k: int|
                    0 <= k < earlier.len() && config.instant_fps(#[trigger] earlier[k])
                        == before.1[i];
                assert(observations[k] == earlier[k]);
            } else {
                assert(after[i] == config.stored_sample(last));
                assert(observations[observations.len() - 1] == last);
            }
        }
    }
}

/// Supervises an encode whose snapshots are all known: takes them in one
/// after the other from the moment the stream has connected, and returns
/// what the trial leaves behind, the frame counter put back to zero. An
/// encode that has not come to an end with the last snapshot counts as
/// overloaded. Every sample that is returned is the throughput of one of
/// the snapshots and at least a quarter of the target.
pub fn watch_encode_progress(
    total_frames: u64,
    detect_overload: bool,
    target_fps: u32,
    stats_period_ms: u32,
    observations: &Vec<Observation>,
    counter: &mut ProgressSample,
) -> (r: TrialResult)
    requires
        stats_period_ms > 0,
        forall|i: int|
            0 <= i < observations@.len() ==> (#[trigger] observations@[i]).previous_frame
                <= observations@[i].frame,
    ensures
        r.all_fps@ == watch_all(
            MonitorConfig { total_frames, detect_overload, target_fps, stats_period_ms },
            connected(),
            Seq::<u16>::empty(),
            observations@,
        ).1,
        r.was_overloaded == watch_all(
            MonitorConfig { total_frames, detect_overload, target_fps, stats_period_ms },
            connected(),
            Seq::<u16>::empty(),
            observations@,
        ).0.state.overloaded(),
        r.ffmpeg_error == watch_all(
            MonitorConfig { total_frames, detect_overload, target_fps, stats_period_ms },
            connected(),
            Seq::<u16>::empty(),
            observations@,
        ).0.state.hard_error(),
        forall|i: int|
            0 <= i < r.all_fps@.len() ==> (MonitorConfig {
                total_frames,
                detect_overload,
                target_fps,
                stats_period_ms,
            }).is_sample_of(#[trigger] r.all_fps@[i], observations@),
        *final(counter) == (ProgressSample { frame: 0, previous_frame: 0 }),
{
    proof {
        lemma_samples_are_no_noise(
            MonitorConfig { total_frames, detect_overload, target_fps, stats_period_ms },
            connected(),
            observations@,
        );
    }
    let mut monitor = ProgressMonitor::new(
        total_frames,
        detect_overload,
        target_fps,
        stats_period_ms,
    );
    monitor.start_listening_to_ffmpeg_stats(0, true, false);
    let ghost config = monitor.config;
    let n = observations.len();
    let mut i: usize = 0;
    assert(observations@.take(0) =~= Seq::<Observation>::empty());
    while i < n
        invariant
            i <= n,
            n == observations@.len(),
            monitor.config == config,
            config.stats_period_ms > 0,
            forall|k: int|
                0 <= k < observations@.len() ==> (#[trigger] observations@[k]).previous_frame
                    <= observations@[k].frame,
            (monitor.watch, monitor.all_fps@) == watch_all(
                config,
                connected(),
                Seq::<u16>::empty(),
                observations@.take(i as int),
            ),
        decreases n - i,
    {
        proof {
            assert(observations@.take(i + 1).drop_last() =~= observations@.take(i as int));
            assert(observations@.take(i + 1).last() == observations@[i as int]);
        }
        monitor.observe(observations[i]);
        i += 1;
    }
    assert(observations@.take(n as int) =~= observations@);
    monitor.finish(counter)
}

/// The frame counter that the stream reader writes and the evaluator reads,
/// with its value one report earlier.
#[derive(Clone, Copy, Debug, PartialEq, Eq, Structural)]
pub struct ProgressSample {
    pub frame: u64,
    pub previous_frame: u64,
}

impl ProgressSample {
    /// The counter at the start of a trial.
    pub fn new() -> (r: Self)
        ensures
            r == (ProgressSample { frame: 0, previous_frame: 0 }),
    {
        ProgressSample { frame: 0, previous_frame: 0 }
    }

    /// Puts the counter back to zero.
    pub fn reset(&mut self)
        ensures
            *final(self) == (ProgressSample { frame: 0, previous_frame: 0 }),
    {
        self.frame = 0;
        self.previous_frame = 0;
    }

    /// Takes in a frame count.
    pub fn record(&mut self, frame: u64)
        ensures
            *final(self) == (ProgressSample { frame, previous_frame: old(self).frame }),
    {
        self.previous_frame = self.frame;
        self.frame = frame;
    }

    /// The snapshot of the counter at a time.
    pub fn observed(&self, now_ms: u64, cancelled: bool) -> (r: Observation)
        ensures
            r == (Observation {
                frame: self.frame,
                previous_frame: self.previous_frame,
                now_ms,
                cancelled,
            }),
    {
        Observation { frame: self.frame, previous_frame: self.previous_frame, now_ms, cancelled }
    }
}

} // verus!
