use encoder_benchmark::engine::benchmark_engine::BenchmarkEngine;
use encoder_benchmark::engine::engine::{
    calculate_eta, calculate_fps_statistics, encode_args, log_benchmark_header,
    log_permutation_header, run_encode, run_overload_benchmark, spawn_ffmpeg_child, IgnoreFactor,
    TrialDecision, TrialStep,
};
use encoder_benchmark::engine::fps_stats::FpsStats;
use encoder_benchmark::engine::permutation_engine::{
    calc_vmaf_args, calc_vmaf_score, check_encode_quality, did_all_permutions_fail, failed_report_file_name,
    insert_format_from, should_check_quality, will_be_duplicate, PermutationEngine, QualityStep, SearchStep, TCP_OUTPUT,
};
use encoder_benchmark::engine::progressbar::{
    set_bar_style, watch_encode_progress, ListenAction, MonitorState, Observation,
    ProgressMonitor, ProgressSample, TrialResult,
};
use encoder_benchmark::engine::result::{
    log_results_to_file, report_file_name, PermutationResult,
};
use encoder_benchmark::engine::stat_tcp_listener::{
    extract_frame, is_frame_line, read_progress_line,
};
use encoder_benchmark::ffmpeg::metadata::MetaData;
use encoder_benchmark::ffmpeg::report_files::QualityScore;
use encoder_benchmark::permutation::Permutation;
use encoder_benchmark::text::ParseError;

fn metadata() -> MetaData {
    MetaData { fps: 60, frames: 1923, width: 1920, height: 1080 }
}

fn result_with(settings: &str, bitrate: u32, micros: u64, overloaded: bool) -> PermutationResult {
    let mut result =
        PermutationResult::new(&metadata(), bitrate, &settings.to_string(), "h264_nvenc");
    result.vmaf_score = QualityScore { micros };
    result.was_overloaded = overloaded;
    result
}

fn trial(settings: &str, bitrate: u32) -> Permutation {
    let mut p = Permutation::new("1080-60.y4m".to_string(), "h264_nvenc".to_string());
    p.encoder_settings = settings.to_string();
    p.bitrate = bitrate;
    p.check_quality = true;
    p.metadata = metadata();
    p
}

fn obs(frame: u64, previous_frame: u64, now_ms: u64) -> Observation {
    Observation { frame, previous_frame, now_ms, cancelled: false }
}

#[test]
fn percentiles_of_a_hundred_samples() {
    let mut trial = TrialResult::default();
    for i in 0..100u16 {
        trial.all_fps.push((i + 1) * 10);
    }
    let sorted = trial.all_fps.clone();
    let mut result = result_with("s", 10, 0, false);
    calculate_fps_statistics(&mut result, &mut trial);
    assert_eq!(result.fps_stats.one_perc_low, sorted[1]);
    assert_eq!(result.fps_stats.one_perc_low, 20);
    assert_eq!(result.fps_stats.ninety_perc, sorted[90]);
    assert_eq!(result.fps_stats.ninety_perc, 910);
    assert_eq!(result.fps_stats.avg, 505);
}

#[test]
fn statistics_sort_the_samples() {
    let mut trial = TrialResult::default();
    trial.all_fps = vec![70, 10, 90, 30, 50, 100, 20, 80, 60, 40, 65535];
    let mut result = result_with("s", 10, 0, false);
    calculate_fps_statistics(&mut result, &mut trial);
    assert_eq!(trial.all_fps, vec![10, 20, 30, 40, 50, 60, 70, 80, 90, 100, 65535]);
    // 11 samples: rank of the first percentile is 1, of the ninetieth 10
    assert_eq!(
        result.fps_stats,
        FpsStats { avg: ((550 + 65535) / 11) as u16, one_perc_low: 20, ninety_perc: 65535 }
    );
    let mut ten = TrialResult::default();
    ten.all_fps = vec![9, 8, 7, 6, 5, 4, 3, 2, 1, 0];
    calculate_fps_statistics(&mut result, &mut ten);
    assert_eq!(result.fps_stats, FpsStats { avg: 4, one_perc_low: 1, ninety_perc: 9 });
    assert_eq!(FpsStats::default(), FpsStats { avg: 0, one_perc_low: 0, ninety_perc: 0 });
}

#[test]
fn mean_of_many_large_samples() {
    let mut trial = TrialResult::default();
    trial.all_fps = vec![65535; 70000];
    let mut result = result_with("s", 10, 0, false);
    calculate_fps_statistics(&mut result, &mut trial);
    assert_eq!(
        result.fps_stats,
        FpsStats { avg: 65535, one_perc_low: 65535, ninety_perc: 65535 }
    );
}

#[test]
fn eta_values() {
    let whole = IgnoreFactor::whole();
    assert_eq!(calculate_eta(10, 1, 21, whole), 210);
    assert_eq!(calculate_eta(10, 21, 21, whole), 10);
    assert_eq!(calculate_eta(10, 5, 21, whole), 170);
    assert_eq!(calculate_eta(0, 5, 21, whole), 0);
    let third = IgnoreFactor { kept: 7, seen: 21 };
    assert_eq!(calculate_eta(10, 1, 21, third), 70);
    assert_eq!(calculate_eta(10, 20, 21, third), 6);
    assert_eq!(calculate_eta(7, 3, 4, IgnoreFactor { kept: 2, seen: 3 }), 9);
    assert_eq!(calculate_eta(u64::MAX, 1, 2, whole), u64::MAX);
    assert_eq!(calculate_eta(u64::MAX, 1, 2, IgnoreFactor { kept: 1, seen: 2 }), u64::MAX);
    assert_eq!(calculate_eta(u64::MAX, 2, 2, IgnoreFactor { kept: 1, seen: 2 }), u64::MAX / 2);
    assert_eq!(calculate_eta(5, 1, 1, IgnoreFactor { kept: 0, seen: 4 }), 0);
}

#[test]
fn remaining_is_positive_for_every_valid_index() {
    for total in 1..30usize {
        for current in 1..=total {
            let remaining = total - (current - 1);
            assert!(remaining >= 1);
            assert_eq!(calculate_eta(1, current, total, IgnoreFactor::whole()), remaining as u64);
        }
    }
}

#[test]
fn completes_without_overload() {
    let mut counter = ProgressSample { frame: 77, previous_frame: 70 };
    let observations = vec![
        obs(30, 0, 0),
        obs(60, 30, 500),
        obs(90, 60, 1000),
        obs(120, 90, 1500),
    ];
    let result = watch_encode_progress(120, true, 60, 500, &observations, &mut counter);
    assert!(!result.was_overloaded);
    assert!(!result.ffmpeg_error);
    assert_eq!(result.all_fps, vec![60, 60, 60, 60]);
    assert_eq!(counter, ProgressSample { frame: 0, previous_frame: 0 });
}

#[test]
fn completes_after_a_short_dip() {
    let mut counter = ProgressSample::new();
    // under the target from 0 to 4000 ms: shorter than the window
    let observations = vec![
        obs(10, 0, 0),
        obs(20, 10, 2000),
        obs(30, 20, 4000),
        obs(60, 30, 4500),
        obs(70, 60, 9000),
        obs(100, 70, 9500),
    ];
    let result = watch_encode_progress(100, true, 60, 500, &observations, &mut counter);
    assert!(!result.was_overloaded);
    assert_eq!(result.all_fps, vec![20, 20, 20, 60, 20, 60]);
}

#[test]
fn sustained_low_throughput_is_overload() {
    let mut counter = ProgressSample::new();
    // 7 frames per period of 500 ms are 14 frames per second: under 60 / 4
    let mut observations = Vec::new();
    let mut frame = 0;
    for step in 0..12u64 {
        observations.push(obs(frame + 7, frame, step * 500));
        frame += 7;
    }
    let result = watch_encode_progress(100_000, true, 60, 500, &observations, &mut counter);
    assert!(result.was_overloaded);
    assert!(!result.ffmpeg_error);
    assert!(result.all_fps.is_empty());

    let mut monitor = ProgressMonitor::new(100_000, true, 60, 500);
    assert_eq!(monitor.start_listening_to_ffmpeg_stats(10, true, false), ListenAction::StartReading);
    let mut states = Vec::new();
    for o in &observations {
        states.push(monitor.observe(*o));
    }
    // the window is exceeded by the first snapshot later than 5000 ms
    assert_eq!(states[10], MonitorState::Streaming);
    assert_eq!(states[11], MonitorState::OverloadDetected);
    assert_eq!(monitor.watch.overload_since, Some(0));
}

#[test]
fn low_throughput_is_ignored_without_detection() {
    let mut counter = ProgressSample::new();
    let mut observations = Vec::new();
    let mut frame = 0;
    for step in 0..20u64 {
        observations.push(obs(frame + 7, frame, step * 500));
        frame += 7;
    }
    observations.push(obs(200, frame, 10_000));
    let result = watch_encode_progress(200, false, 60, 500, &observations, &mut counter);
    assert!(!result.was_overloaded);
    assert_eq!(result.all_fps, vec![((200 - 140) * 2) as u16]);
}

#[test]
fn stall_is_a_hard_error() {
    let mut monitor = ProgressMonitor::new(1000, false, 60, 500);
    monitor.start_listening_to_ffmpeg_stats(0, true, false);
    assert_eq!(monitor.observe(obs(30, 0, 0)), MonitorState::Streaming);
    assert_eq!(monitor.observe(obs(30, 0, 500)), MonitorState::Streaming);
    assert_eq!(monitor.watch.stall_since, Some(500));
    assert_eq!(monitor.observe(obs(30, 0, 10_500)), MonitorState::Streaming);
    assert_eq!(monitor.observe(obs(30, 0, 10_501)), MonitorState::StallDetected);
    assert_eq!(monitor.observe(obs(1000, 30, 10_600)), MonitorState::StallDetected);
    let mut counter = ProgressSample { frame: 30, previous_frame: 0 };
    let result = monitor.finish(&mut counter);
    assert!(result.ffmpeg_error);
    assert!(result.was_overloaded);
    assert_eq!(counter, ProgressSample::new());
}

#[test]
fn progress_resets_the_stall_clock() {
    let mut monitor = ProgressMonitor::new(1000, false, 60, 500);
    monitor.start_listening_to_ffmpeg_stats(0, true, false);
    monitor.observe(obs(30, 0, 0));
    monitor.observe(obs(30, 0, 9000));
    assert_eq!(monitor.watch.stall_since, Some(9000));
    monitor.observe(obs(31, 30, 9500));
    assert_eq!(monitor.watch.stall_since, None);
    assert_eq!(monitor.observe(obs(31, 30, 10_000)), MonitorState::Streaming);
    assert_eq!(monitor.watch.stall_since, Some(10_000));
    assert_eq!(monitor.observe(obs(31, 30, 20_000)), MonitorState::Streaming);
    assert_eq!(monitor.observe(obs(31, 30, 20_001)), MonitorState::StallDetected);
}

#[test]
fn cancellation_comes_first() {
    let mut monitor = ProgressMonitor::new(100, true, 60, 500);
    monitor.start_listening_to_ffmpeg_stats(0, true, false);
    let cancelled = Observation { frame: 100, previous_frame: 40, now_ms: 0, cancelled: true };
    assert_eq!(monitor.observe(cancelled), MonitorState::Cancelled);
    assert!(monitor.all_fps.is_empty());
    assert_eq!(monitor.observe(obs(100, 40, 10)), MonitorState::Cancelled);
}

#[test]
fn overload_comes_before_completion() {
    let mut monitor = ProgressMonitor::new(100, true, 60, 500);
    monitor.start_listening_to_ffmpeg_stats(0, true, false);
    monitor.observe(obs(10, 0, 0));
    assert_eq!(monitor.observe(obs(100, 90, 5001)), MonitorState::OverloadDetected);
    let mut counter = ProgressSample::new();
    assert!(monitor.finish(&mut counter).was_overloaded);
}

#[test]
fn sample_too_large_for_its_width_is_left_out() {
    let mut monitor = ProgressMonitor::new(1_000_000, true, 60, 500);
    monitor.start_listening_to_ffmpeg_stats(0, true, false);
    // 80000 frames per second
    monitor.observe(obs(40_000, 0, 0));
    assert!(monitor.all_fps.is_empty());
    assert_eq!(monitor.watch.overload_since, None);
    // 65534 frames per second fit, 65536 do not
    monitor.observe(obs(72_767, 40_000, 500));
    monitor.observe(obs(105_535, 72_767, 1000));
    assert_eq!(monitor.all_fps, vec![65_534]);
    let mut exact = ProgressMonitor::new(1_000_000, true, 60, 1000);
    exact.start_listening_to_ffmpeg_stats(0, true, false);
    exact.observe(obs(65_535, 0, 0));
    exact.observe(obs(131_071, 65_535, 1000));
    assert_eq!(exact.all_fps, vec![65_535]);
}

#[test]
fn no_stored_sample_is_noise() {
    let mut counter = ProgressSample::new();
    // 65536 frames per second at a target of 400
    let result = watch_encode_progress(1_000_000, true, 400, 500, &vec![obs(32_768, 0, 0)], &mut counter);
    assert!(result.all_fps.is_empty());
    let observations = vec![
        obs(49, 0, 0),
        obs(99, 49, 500),
        obs(300, 99, 1000),
        obs(40_000, 300, 1500),
        obs(40_050, 40_000, 2000),
    ];
    let result = watch_encode_progress(1_000_000, false, 400, 500, &observations, &mut counter);
    assert_eq!(result.all_fps, vec![100, 402, 100]);
    assert!(result.all_fps.iter().all(|x| *x as u32 >= 400 / 4));
}

#[test]
fn awaiting_the_stream() {
    let mut monitor = ProgressMonitor::new(100, true, 60, 500);
    assert_eq!(monitor.watch.state, MonitorState::AwaitingStream);
    assert_eq!(monitor.observe(obs(100, 0, 0)), MonitorState::AwaitingStream);
    assert_eq!(
        monitor.start_listening_to_ffmpeg_stats(100, false, false),
        ListenAction::Retry { pause_ms: 0 }
    );
    assert_eq!(
        monitor.start_listening_to_ffmpeg_stats(100, false, true),
        ListenAction::Retry { pause_ms: 1000 }
    );
    assert_eq!(monitor.watch.state, MonitorState::AwaitingStream);
    assert_eq!(monitor.start_listening_to_ffmpeg_stats(10_000, true, true), ListenAction::StartReading);
    assert_eq!(monitor.watch.state, MonitorState::Streaming);
    let mut late = ProgressMonitor::new(100, true, 60, 500);
    assert_eq!(late.start_listening_to_ffmpeg_stats(10_001, true, false), ListenAction::Abort);
    assert_eq!(late.watch.state, MonitorState::ConnectTimeout);
    let mut counter = ProgressSample::new();
    let result = late.finish(&mut counter);
    assert!(result.ffmpeg_error);
}

#[test]
fn frame_lines() {
    assert!(is_frame_line("frame=12"));
    assert!(is_frame_line("drop_frame=1"));
    assert!(!is_frame_line("fps=59.9"));
    assert_eq!(extract_frame("frame=123"), Ok(123));
    assert_eq!(extract_frame("frame=123 fps=60"), Ok(123));
    assert_eq!(extract_frame("frame=18446744073709551615"), Ok(u64::MAX));
    assert_eq!(extract_frame("frame=18446744073709551616"), Err(ParseError::Overflow));
    assert_eq!(extract_frame("frame= 12"), Err(ParseError::Empty));
    assert_eq!(extract_frame("xframe=12"), Err(ParseError::Empty));
    assert_eq!(extract_frame("fps=60"), Err(ParseError::Empty));
}

#[test]
fn progress_lines_move_the_counter() {
    let mut counter = ProgressSample::new();
    read_progress_line(&mut counter, "frame=30\n");
    assert_eq!(counter, ProgressSample { frame: 30, previous_frame: 0 });
    read_progress_line(&mut counter, "fps=60.0\n");
    read_progress_line(&mut counter, "out_time=00:00:01\n");
    read_progress_line(&mut counter, "drop_frames=0\n");
    read_progress_line(&mut counter, "some_frame=9\n");
    assert_eq!(counter, ProgressSample { frame: 30, previous_frame: 0 });
    read_progress_line(&mut counter, "frame=61\n");
    assert_eq!(counter, ProgressSample { frame: 61, previous_frame: 30 });
    assert_eq!(
        counter.observed(5, false),
        Observation { frame: 61, previous_frame: 30, now_ms: 5, cancelled: false }
    );
    counter.reset();
    assert_eq!(counter, ProgressSample::new());
}

#[test]
fn what_follows_an_encode() {
    let mut outcome = TrialResult::default();
    let accept = TrialDecision { step: TrialStep::Accept, kill_child: false };
    assert_eq!(run_overload_benchmark(&outcome, false, true, 0), accept);
    outcome.was_overloaded = true;
    assert_eq!(
        run_overload_benchmark(&outcome, false, true, 0),
        TrialDecision { step: TrialStep::RetryEncode, kill_child: true }
    );
    assert_eq!(
        run_overload_benchmark(&outcome, false, true, 1),
        TrialDecision { step: TrialStep::Accept, kill_child: true }
    );
    assert_eq!(
        run_overload_benchmark(&outcome, false, false, 0),
        TrialDecision { step: TrialStep::Accept, kill_child: true }
    );
    outcome.ffmpeg_error = true;
    assert_eq!(
        run_overload_benchmark(&outcome, false, true, 0),
        TrialDecision { step: TrialStep::DiagnoseAndAbort, kill_child: true }
    );
    assert_eq!(
        run_overload_benchmark(&outcome, true, true, 0),
        TrialDecision { step: TrialStep::Cancelled, kill_child: true }
    );
}

#[test]
fn arguments_of_a_trial() {
    let p = trial("-preset p1", 15);
    let args = encode_args(&p);
    assert_eq!(
        args.to_string(),
        "-progress tcp://localhost:1234 -stats_period 0.5 -i 1080-60.y4m -b:v 15M -c:v h264_nvenc -preset p1 -f null -"
    );
    let (same, shown) = spawn_ffmpeg_child(&args, None);
    assert!(!shown);
    assert_eq!(same.to_string(), args.to_string());
    let (quiet, shown) = spawn_ffmpeg_child(&args, Some(false));
    assert!(!shown);
    assert!(quiet.send_progress);
    let (diagnosis, shown) = spawn_ffmpeg_child(&args, Some(true));
    assert!(shown);
    assert_eq!(
        diagnosis.to_string(),
        "-i 1080-60.y4m -b:v 15M -c:v h264_nvenc -preset p1 -f null -"
    );
}

#[test]
fn result_of_an_encode() {
    let p = trial("-preset p2", 20);
    let mut outcome = TrialResult::default();
    outcome.all_fps = vec![61, 59, 60, 62, 58, 60, 60, 57, 63, 60];
    outcome.was_overloaded = true;
    let result = run_encode(&p, &metadata(), &mut outcome, 42);
    assert_eq!(result.encoder, "h264_nvenc");
    assert_eq!(result.encoder_settings, "-preset p2");
    assert_eq!(result.bitrate, 20);
    assert_eq!(result.metadata, metadata());
    assert!(result.was_overloaded);
    assert_eq!(result.encode_time, 42);
    assert_eq!(result.vmaf_score, QualityScore { micros: 0 });
    assert_eq!(result.fps_stats, FpsStats { avg: 60, one_perc_low: 58, ninety_perc: 63 });
    assert_eq!(outcome.all_fps, vec![57, 58, 59, 60, 60, 60, 60, 61, 62, 63]);
}

#[test]
fn durations() {
    let encode_time_text = |seconds: u64| -> String {
        let mut result = result_with("s", 10, 0, false);
        result.encode_time = seconds;
        result.to_string().split("\t\t").nth(1).unwrap().to_string()
    };
    assert_eq!(encode_time_text(0), "0s");
    assert_eq!(encode_time_text(59), "59s");
    assert_eq!(encode_time_text(60), "1m");
    assert_eq!(encode_time_text(7259), "2h59s");
    assert_eq!(encode_time_text(6_000_000), "69d10h40m");
    assert_eq!(encode_time_text(90_061), "1d1h1m1s");
}

#[test]
fn report_line_of_a_result() {
    let mut result = result_with("-preset p1", 10, 98_644_736, false);
    result.encode_time = 65;
    result.vmaf_calculation_time = 3600;
    result.fps_stats = FpsStats { avg: 61, one_perc_low: 50, ninety_perc: 70 };
    assert_eq!(
        result.to_string(),
        "   1920x1080\t60\t10Mb/s\t\t1m5s\t\t1h\t\t98.64474\t61\t\t50\t\t70\t\t-preset p1"
    );
    result.vmaf_score = QualityScore { micros: 0 };
    assert_eq!(
        result.to_string(),
        "   1920x1080\t60\t10Mb/s\t\t1m5s\t\t1h\t\t0.00000\t\t61\t\t50\t\t70\t\t-preset p1"
    );
    result.was_overloaded = true;
    result.vmaf_score = QualityScore { micros: 5 };
    assert_eq!(
        result.to_string(),
        "[O]1920x1080\t60\t10Mb/s\t\t1m5s\t\t1h\t\t0.00001\t\t61\t\t50\t\t70\t\t-preset p1"
    );
    let copy = result.clone();
    assert_eq!(copy.to_string(), result.to_string());
}

#[test]
fn report_of_a_search() {
    let rule = "=".repeat(162);
    let kept_a = result_with("a", 10, 90_500_000, false);
    let kept_b = result_with("b", 10, 91_000_000, false);
    let kept_c = result_with("c", 15, 90_500_000, false);
    let dup_1 = result_with("a1", 10, 90_500_000, false);
    let dup_2 = result_with("a2", 10, 90_500_000, false);
    let results = vec![kept_a.clone(), kept_b.clone(), kept_c.clone()];
    let dups = vec![dup_1, dup_2];
    let lines = log_results_to_file(&results, &"1m".to_string(), &dups, 10);
    let expected = vec![
        "Results from entire permutation:".to_string(),
        rule.clone(),
        "   [Resolution]\t[FPS]\t[Bitrate]\t[Encode Time]\t[VMAF Time]\t[VMAF Score]\t[Average FPS]\t[1%'ile]\t[90%'ile]\t[Encoder Settings]".to_string(),
        kept_a.to_string(),
        kept_b.to_string(),
        kept_c.to_string(),
        rule.clone(),
        "Benchmark runtime: 1m\n".to_string(),
        "Encoder settings that produced identical scores:".to_string(),
        rule.clone(),
        "Identical score: 90.5".to_string(),
        "\tEncoded: [a]".to_string(),
        "\tIgnored: [a1]".to_string(),
        "\tIgnored: [a2]".to_string(),
        "\n".to_string(),
        rule.clone(),
    ];
    assert_eq!(lines, expected);
    let plain = log_results_to_file(&results, &"1m".to_string(), &vec![], 10);
    assert_eq!(plain.len(), 9);
    let empty = log_results_to_file(&vec![], &"0s".to_string(), &vec![], 10);
    assert_eq!(empty.len(), 6);
    assert_eq!(report_file_name(&results, false), "h264_nvenc-1920x1080-60.log");
    assert_eq!(report_file_name(&results, true), "h264_nvenc-benchmark.log");
}

#[test]
fn known_duplicates_by_settings() {
    let dups = vec![result_with("a", 10, 1, false), result_with("b", 10, 1, false)];
    assert!(will_be_duplicate(&dups, &trial("b", 15)));
    assert!(!will_be_duplicate(&dups, &trial("c", 15)));
    assert!(!will_be_duplicate(&vec![], &trial("a", 15)));
}

#[test]
fn duplicate_skip_in_first_tier() {
    let mut engine = PermutationEngine::new("logs".to_string());
    engine.add(trial("a", 10));
    engine.add(trial("a", 10));
    engine.add(trial("c", 10));
    assert_eq!(
        engine.finish_permutation(0, Some(result_with("a", 10, 90_000_000, false))),
        SearchStep::Continue
    );
    assert!(!engine.should_skip(1));
    assert_eq!(
        engine.finish_permutation(1, Some(result_with("a", 10, 90_000_000, false))),
        SearchStep::Continue
    );
    assert_eq!(engine.results.len(), 1);
    assert_eq!(engine.dup_results.len(), 1);
    assert_eq!(engine.dup_results[0].encoder_settings, "a");
    assert!(engine.vmaf_scores.contains(&90_000_000));
    assert_eq!(engine.vmaf_scores.len(), 1);
}

#[test]
fn overloaded_and_unchecked_results_are_always_kept() {
    let mut engine = PermutationEngine::new(String::new());
    engine.add_result(result_with("a", 10, 0, true), true, false);
    engine.add_result(result_with("b", 10, 0, true), true, false);
    engine.add_result(result_with("c", 10, 0, false), false, false);
    engine.add_result(result_with("d", 10, 0, false), false, false);
    engine.add_result(result_with("e", 10, 7, false), true, true);
    engine.add_result(result_with("f", 10, 7, false), true, true);
    assert_eq!(engine.results.len(), 6);
    assert!(engine.dup_results.is_empty());
    assert!(engine.vmaf_scores.is_empty());
}

#[test]
fn later_tiers_skip_what_scored_alike() {
    let mut engine = PermutationEngine::new(String::new());
    for bitrate in [10, 15] {
        for settings in ["a", "b", "c"] {
            engine.add(trial(settings, bitrate));
        }
    }
    assert!(!engine.is_tier_boundary(0));
    assert!(engine.is_tier_boundary(2));
    assert!(!engine.is_tier_boundary(3));
    assert!(engine.is_tier_boundary(5));
    engine.finish_permutation(0, Some(result_with("a", 10, 80_000_000, false)));
    engine.finish_permutation(1, Some(result_with("b", 10, 80_000_000, false)));
    assert_eq!(engine.ignore_factor, IgnoreFactor { kept: 1, seen: 1 });
    assert_eq!(
        engine.finish_permutation(2, Some(result_with("c", 10, 81_000_000, false))),
        SearchStep::Continue
    );
    assert_eq!(engine.tier_index, 1);
    assert_eq!(engine.ignore_factor, IgnoreFactor { kept: 2, seen: 3 });
    assert!(!engine.should_skip(3));
    assert!(engine.should_skip(4));
    assert!(!engine.should_skip(5));
    engine.finish_permutation(3, Some(result_with("a", 15, 85_000_000, false)));
    assert_eq!(engine.finish_permutation(4, None), SearchStep::Continue);
    // a score seen before is kept all the same once the first tier is over
    assert_eq!(
        engine.finish_permutation(5, Some(result_with("c", 15, 85_000_000, false))),
        SearchStep::Continue
    );
    assert_eq!(engine.results.len(), 4);
    assert_eq!(engine.dup_results.len(), 1);
    assert_eq!(engine.vmaf_scores.len(), 2);
    assert_eq!(engine.tier_index, 2);
    assert_eq!(engine.ignore_factor, IgnoreFactor { kept: 4, seen: 5 });
    engine.permutations[4].allow_duplicates = true;
    assert!(!engine.should_skip(4));
}

#[test]
fn search_stops_at_the_end_of_the_tier_that_reached_the_target() {
    let mut engine = PermutationEngine::new(String::new());
    let bitrates = [10u32, 15, 20, 25];
    for bitrate in bitrates {
        for k in 0..21 {
            let mut p = trial(&format!("s{}", k), bitrate);
            p.allow_duplicates = true;
            engine.add(p);
        }
    }
    let mut ran = Vec::new();
    let total = engine.permutations.len();
    for i in 0..total {
        assert!(!engine.should_skip(i));
        let bitrate = engine.permutations[i].bitrate;
        // the target is reached by permutation 5 of 21 at bitrate 20
        let micros = if bitrate == 20 && i % 21 == 4 { 95_000_000 } else { 94_999_999 };
        let settings = engine.permutations[i].encoder_settings.clone();
        ran.push(i);
        let step = engine.finish_permutation(i, Some(result_with(&settings, bitrate, micros, false)));
        if step == SearchStep::Stop {
            break;
        }
    }
    assert_eq!(ran.len(), 63);
    assert_eq!(*ran.last().unwrap(), 62);
    assert!(engine.target_quality_found);
    assert_eq!(engine.results.len(), 63);
    assert!(engine.results.iter().all(|r| r.bitrate <= 20));
    assert_eq!(engine.tier_index, 3);
}

#[test]
fn whole_search_stops_with_the_tier_that_reached_the_target() {
    let mut engine = PermutationEngine::new(String::new());
    let mut trials = Vec::new();
    for bitrate in [10u32, 15, 20, 25] {
        for k in 0..21 {
            let settings = format!("s{}", k);
            engine.add(trial(&settings, bitrate));
            let micros = if bitrate == 20 && k == 4 { 95_000_000 } else { 80_000_000 + k };
            trials.push(result_with(&settings, bitrate, micros, false));
        }
    }
    assert_eq!(engine.run(&trials), 63);
    assert!(engine.target_quality_found);
    assert_eq!(engine.results.len(), 63);
    assert!(engine.dup_results.is_empty());
    assert_eq!(engine.results.last().unwrap().bitrate, 20);
    assert_eq!(engine.tier_index, 3);
}

#[test]
fn whole_search_without_the_target_runs_every_tier() {
    let mut engine = PermutationEngine::new(String::new());
    let mut trials = Vec::new();
    for bitrate in [10u32, 15] {
        for settings in ["a", "b", "c"] {
            engine.add(trial(settings, bitrate));
            // a and b score alike
            let micros = if settings == "c" { 70_000_000 } else { 60_000_000 };
            trials.push(result_with(settings, bitrate, micros, false));
        }
    }
    assert_eq!(engine.run(&trials), 6);
    let kept: Vec<(String, u32)> =
        engine.results.iter().map(|r| (r.encoder_settings.clone(), r.bitrate)).collect();
    assert_eq!(
        kept,
        vec![
            ("a".to_string(), 10),
            ("c".to_string(), 10),
            ("a".to_string(), 15),
            ("c".to_string(), 15)
        ]
    );
    assert_eq!(engine.dup_results.len(), 1);
    assert_eq!(engine.dup_results[0].encoder_settings, "b");
    assert_eq!(engine.ignore_factor, IgnoreFactor { kept: 4, seen: 5 });
    let mut short = PermutationEngine::new(String::new());
    short.add(trial("a", 10));
    short.add(trial("b", 10));
    assert_eq!(short.run(&vec![result_with("a", 10, 1, false)]), 1);
    assert_eq!(short.run(&vec![]), 0);
}

#[test]
fn quality_is_measured_where_asked_and_worth_it() {
    let mut p = trial("a", 10);
    assert!(should_check_quality(&result_with("a", 10, 0, false), &p));
    assert!(!should_check_quality(&result_with("a", 10, 0, true), &p));
    p.check_quality = false;
    assert!(!should_check_quality(&result_with("a", 10, 0, false), &p));
    assert!(!should_check_quality(&result_with("a", 10, 0, true), &p));
}

#[test]
fn all_trials_overloaded() {
    assert!(did_all_permutions_fail(&vec![]));
    assert!(did_all_permutions_fail(&vec![result_with("a", 10, 0, true)]));
    assert!(!did_all_permutions_fail(&vec![
        result_with("a", 10, 0, true),
        result_with("b", 10, 0, false)
    ]));
}

#[test]
fn overloaded_score_does_not_reach_the_target() {
    let mut engine = PermutationEngine::new(String::new());
    engine.add(trial("a", 10));
    engine.add(trial("b", 10));
    assert_eq!(
        engine.finish_permutation(0, Some(result_with("a", 10, 99_000_000, true))),
        SearchStep::Continue
    );
    assert!(!engine.target_quality_found);
    assert_eq!(
        engine.finish_permutation(1, Some(result_with("b", 10, 99_000_000, false))),
        SearchStep::Stop
    );
}

#[test]
fn skipped_last_permutation_still_ends_the_tier() {
    let mut engine = PermutationEngine::new(String::new());
    for bitrate in [10, 15, 20] {
        for settings in ["a", "b"] {
            engine.add(trial(settings, bitrate));
        }
    }
    engine.finish_permutation(0, Some(result_with("a", 10, 80_000_000, false)));
    engine.finish_permutation(1, Some(result_with("b", 10, 80_000_000, false)));
    assert!(engine.should_skip(3));
    engine.finish_permutation(2, Some(result_with("a", 15, 96_000_000, false)));
    assert_eq!(engine.finish_permutation(3, None), SearchStep::Stop);
}

#[test]
fn measuring_quality_up_to_three_times() {
    let score = QualityScore { micros: 96_000_000 };
    assert_eq!(check_encode_quality(0, Some(score)), QualityStep::Scored(score));
    assert_eq!(check_encode_quality(2, Some(score)), QualityStep::Scored(score));
    assert_eq!(check_encode_quality(0, None), QualityStep::Retry);
    assert_eq!(check_encode_quality(1, None), QualityStep::Retry);
    assert_eq!(check_encode_quality(2, None), QualityStep::GiveUp);
    assert_eq!(check_encode_quality(u32::MAX, None), QualityStep::GiveUp);
    let line = "[Parsed_libvmaf_0 @ 00000169cf14fc00] VMAF score: 98.644730";
    assert_eq!(calc_vmaf_score(true, line), Some(QualityScore { micros: 98_644_730 }));
    assert_eq!(calc_vmaf_score(false, line), None);
    assert_eq!(calc_vmaf_score(true, "no score here"), None);
    assert_eq!(
        failed_report_file_name("ffmpeg-20240101-120000", 4, 0),
        "ffmpeg-20240101-120000-perm-5-attempt-1.log"
    );
}

#[test]
fn arguments_of_a_quality_measurement() {
    let args = encode_args(&trial("-preset p1", 15));
    let (scoring, encoding) = calc_vmaf_args(&args, 60);
    assert_eq!(
        scoring.render(8),
        "-report -r 60 -i tcp://localhost:2000?listen -r 60 -i 1080-60.y4m -filter_complex libvmaf='n_threads=8:n_subsample=5' -f null -"
    );
    assert_eq!(
        encoding.to_string(),
        "-progress tcp://localhost:1234 -stats_period 0.5 -i 1080-60.y4m -b:v 15M -c:v h264_nvenc -preset p1 -f h264 tcp://localhost:2000"
    );
}

#[test]
fn stream_format_of_an_encoder() {
    assert_eq!(
        insert_format_from(TCP_OUTPUT, &"h264_nvenc".to_string()),
        "-f h264 tcp://localhost:2000"
    );
    assert_eq!(
        insert_format_from(TCP_OUTPUT, &"hevc_amf".to_string()),
        "-f hevc tcp://localhost:2000"
    );
    assert_eq!(
        insert_format_from(TCP_OUTPUT, &"av1_qsv".to_string()),
        "-f ivf tcp://localhost:2000"
    );
    assert_eq!(insert_format_from("{}{} {", &"hevc".to_string()), "hevchevc {");
    assert_eq!(insert_format_from("none", &"hevc".to_string()), "none");
}

#[test]
fn headers() {
    let mut decode = trial("-preset p1", 10);
    decode.is_decoding = true;
    decode.decode_run = true;
    let permutations = vec![trial("-preset p1", 10), decode];
    assert_eq!(
        log_permutation_header(0, &permutations, None, IgnoreFactor::whole()),
        vec![
            "[ETR: Unknown until first permutation is done]",
            "[Permutation:\t1/2]",
            "[Resolution:\t1920x1080]",
            "[Encoder:\th264_nvenc]",
            "[FPS:\t\t60]",
            "[Bitrate:\t10Mb/s]",
            "[-preset p1]"
        ]
    );
    assert_eq!(
        log_permutation_header(1, &permutations, Some(61), IgnoreFactor { kept: 1, seen: 2 })[0],
        "[ETR: 1m1s]"
    );
    assert_eq!(
        log_benchmark_header(1, &permutations),
        vec![
            "[Permutation:\t2/2]",
            "[Decode Benchmark]",
            "[Resolution:\t1920x1080]",
            "[Encoder:\th264_nvenc]",
            "[FPS:\t\t60]",
            "[Bitrate:\t10Mb/s]",
            "[-preset p1]"
        ]
    );
}

#[test]
fn bar_template_in_a_colour() {
    assert_eq!(
        set_bar_style("green"),
        "{spinner:.green} [{elapsed_precise}] [{wide_bar:.green}] {pos}/{len} frames ({eta_precise})"
    );
}

#[test]
fn benchmark_engine_keeps_every_result() {
    let mut engine = BenchmarkEngine::new("out".to_string());
    assert_eq!(engine.next_trial(), None);
    engine.add(trial("a", 10));
    engine.add(trial("b", 10));
    assert_eq!(engine.next_trial(), Some(0));
    engine.add_result(result_with("a", 10, 0, true));
    assert_eq!(engine.next_trial(), Some(1));
    engine.add_result(result_with("b", 10, 0, false));
    assert_eq!(engine.next_trial(), None);
    assert_eq!(engine.results.len(), 2);
    assert_eq!(engine.log_files_directory, "out");
    let mut replay = BenchmarkEngine::new(String::new());
    replay.add(trial("a", 10));
    replay.add(trial("b", 10));
    replay.add(trial("c", 10));
    replay.add_result(result_with("a", 10, 0, false));
    replay.run(&vec![
        result_with("x", 10, 0, false),
        result_with("b", 10, 0, true),
        result_with("c", 10, 0, false),
        result_with("d", 10, 0, false),
    ]);
    let kept: Vec<&str> = replay.results.iter().map(|r| r.encoder_settings.as_str()).collect();
    assert_eq!(kept, vec!["a", "b", "c"]);
    replay.run(&vec![]);
    assert_eq!(replay.results.len(), 3);
}

#[test]
fn permutation_metadata_is_probed_once() {
    let mut p = Permutation::new("file.y4m".to_string(), "hevc_amf".to_string());
    assert!(p.needs_probe());
    assert_eq!(p.encoder_settings, "");
    assert_eq!(p.bitrate, 0);
    assert_eq!(p.get_metadata(metadata()), metadata());
    assert!(!p.needs_probe());
    let other = MetaData { fps: 30, frames: 5, width: 1, height: 2 };
    assert_eq!(p.get_metadata(other), metadata());
    assert_eq!(p.clone().metadata, metadata());
}
