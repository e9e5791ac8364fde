use encoder_benchmark::ffmpeg::args::{Cli, FfmpegArgs, NO_OUTPUT, TCP_LISTEN};
use encoder_benchmark::ffmpeg::ffprobe::{extract_metadata, try_extract_metadata};
use encoder_benchmark::ffmpeg::metadata::MetaData;
use encoder_benchmark::ffmpeg::report_files::{
    capture_group, extract_vmaf_score, get_latest_log, is_report_file, parse_score,
    read_last_line_at, score_line_number, FileStamp, QualityScore,
};
use encoder_benchmark::text::ParseError;

static PROBE_LINE: &str = "1920,1080,60/1,1923";
static INPUT_ONE: &str = "1080-60.y4m";
static INPUT_TWO: &str = "1080-60-2.y4m";
static BITRATE: u32 = 6;
static FPS_LIMIT: u32 = 60;
static ENCODER: &str = "h264_nvenc";
static ENCODER_ARGS: &str =
    "-preset hq -tune hq -profile:v high -rc cbr -multipass qres -rc-lookahead 8";
static VMAF_LINE: &str = "[Parsed_libvmaf_0 @ 00000169cf14fc00] VMAF score: 98.644730";

fn equals(original: &MetaData, other: &MetaData) -> bool {
    original.fps == other.fps
        && original.frames == other.frames
        && original.height == other.height
        && original.width == other.width
}

fn get_one_input_args() -> FfmpegArgs {
    let args = Cli {
        encoder: ENCODER.to_string(),
        bitrate: BITRATE,
        check_quality: false,
        detect_overload: false,
        source_file: INPUT_ONE.to_string(),
        test_run: false,
        max_bitrate_permutation: None,
        allow_duplicate_scores: false,
        verbose: false,
        list_supported_encoders: false,
    };

    FfmpegArgs::build_ffmpeg_args(
        args.source_file,
        args.encoder,
        &ENCODER_ARGS.to_string(),
        args.bitrate,
    )
}

fn get_two_input_args() -> FfmpegArgs {
    let mut args = get_one_input_args();
    args.second_input = INPUT_TWO.to_string();
    args
}

#[test]
fn ffprobe_extract_metadata_test() {
    let extracted = extract_metadata(String::from(PROBE_LINE));

    let expected = MetaData { fps: 60, frames: 1923, width: 1920, height: 1080 };

    assert_eq!(equals(&expected, &extracted), true);
}

#[test]
fn probe_line_with_line_end_and_rate_fraction() {
    let read = try_extract_metadata(" 3840 ,2160, 120000/1001 ,7200\n");
    assert_eq!(read, Some(MetaData { fps: 120000, frames: 7200, width: 3840, height: 2160 }));
    assert_eq!(
        try_extract_metadata("1280,720,60,100,extra"),
        Some(MetaData { fps: 60, frames: 100, width: 1280, height: 720 })
    );
}

#[test]
fn probe_line_that_is_broken() {
    assert_eq!(try_extract_metadata(""), None);
    assert_eq!(try_extract_metadata("1920,1080,60/1"), None);
    assert_eq!(try_extract_metadata("1920,1080,sixty/1,1923"), None);
    assert_eq!(try_extract_metadata("1920,1080,60/1,-3"), None);
    assert_eq!(try_extract_metadata("4294967296,1080,60/1,1923"), None);
    assert_eq!(try_extract_metadata("1920,1080,/1,1923"), None);
    assert_eq!(try_extract_metadata("1920,,60/1,1923"), None);
    assert_eq!(
        try_extract_metadata("4294967295,1080,60/1,18446744073709551615"),
        Some(MetaData { fps: 60, frames: u64::MAX, width: u32::MAX, height: 1080 })
    );
}

#[test]
fn metadata_texts() {
    let metadata = MetaData { fps: 60, frames: 1923, width: 1920, height: 1080 };
    assert_eq!(
        metadata.to_string(),
        "Video metadata: fps: 60, total_frames: 1923, resolution: 1920x1080"
    );
    assert_eq!(metadata.get_res(), "1920x1080");
    assert!(!metadata.is_empty());
    let empty = MetaData::new();
    assert!(empty.is_empty());
    assert_eq!(empty.get_res(), "0x0");
    assert_eq!(empty, MetaData { fps: 0, frames: 0, width: 0, height: 0 });
}

#[test]
fn default_args_test() {
    let args = FfmpegArgs::default();

    // check fields that have defaults
    assert_eq!(args.fps_limit, 0);
    assert_eq!(args.send_progress, true);
    assert_eq!(args.report, false);
    assert_eq!(args.bitrate, u32::default());
    assert_eq!(args.output_args, "-f null -");
    assert_eq!(args.is_vmaf, false);
    assert_eq!(args.stats_period_ms, 500);
    assert_eq!(args.stats_period_ms as f32 / 1000.0, 0.5);

    // check fields that do not
    assert!(args.first_input.is_empty());
    assert!(args.second_input.is_empty());
    assert!(args.encoder.is_empty());
    assert!(args.encoder_args.is_empty());
}

#[test]
fn build_all_args_test() {
    let ffmpeg_args = get_two_input_args();

    assert_eq!(ffmpeg_args.first_input, INPUT_ONE);
    assert_eq!(ffmpeg_args.second_input, INPUT_TWO);
    assert_eq!(ffmpeg_args.bitrate, BITRATE);
    assert_eq!(ffmpeg_args.encoder, ENCODER);
    assert_eq!(ffmpeg_args.encoder_args, ENCODER_ARGS);
}

#[test]
fn build_only_one_input_test() {
    let ffmpeg_args = get_one_input_args();

    assert_eq!(ffmpeg_args.first_input, INPUT_ONE);
    assert_eq!(ffmpeg_args.second_input, "");
    assert_eq!(ffmpeg_args.bitrate, BITRATE);
    assert_eq!(ffmpeg_args.encoder, ENCODER);
    assert_eq!(ffmpeg_args.encoder_args, ENCODER_ARGS);
}

#[test]
fn to_string_one_input_test() {
    assert_eq!(get_one_input_args().to_string(),
               "-progress tcp://localhost:1234 -stats_period 0.5 -i 1080-60.y4m -b:v 6M -c:v h264_nvenc -preset hq -tune hq -profile:v high -rc cbr -multipass qres -rc-lookahead 8 -f null -"
    );
}

#[test]
fn to_string_two_input_test() {
    assert_eq!(get_two_input_args().to_string(),
               "-progress tcp://localhost:1234 -stats_period 0.5 -i 1080-60.y4m -i 1080-60-2.y4m -b:v 6M -c:v h264_nvenc -preset hq -tune hq -profile:v high -rc cbr -multipass qres -rc-lookahead 8 -f null -"
    );
}

#[test]
fn map_to_vmaf_test() {
    let args = get_two_input_args();
    let vmaf_args = args.map_to_vmaf(FPS_LIMIT);

    assert_eq!(vmaf_args.fps_limit, FPS_LIMIT);
    assert_eq!(vmaf_args.first_input, String::from(TCP_LISTEN));
    assert_eq!(vmaf_args.second_input, args.first_input);
    assert_eq!(vmaf_args.output_args, String::from(NO_OUTPUT));
    assert_eq!(vmaf_args.is_vmaf, true);
    assert_eq!(vmaf_args.send_progress, false);
    assert_eq!(vmaf_args.report, true);
}

#[test]
fn map_to_vmaf_to_string_test() {
    let vmaf_args = get_two_input_args().map_to_vmaf(FPS_LIMIT);
    assert_eq!(vmaf_args.to_string(),
               format!("-report -r {} -i tcp://localhost:2000?listen -r {} -i 1080-60.y4m -filter_complex libvmaf='n_threads={}:n_subsample=5' -f null -", FPS_LIMIT, FPS_LIMIT, num_cpus::get().to_string())
    );
}

#[test]
fn render_for_a_given_machine() {
    let vmaf_args = get_one_input_args().map_to_vmaf(120);
    assert_eq!(
        vmaf_args.render(16),
        "-report -r 120 -i tcp://localhost:2000?listen -r 120 -i 1080-60.y4m -filter_complex libvmaf='n_threads=16:n_subsample=5' -f null -"
    );
}

#[test]
fn stats_period_rendering() {
    let mut args = get_one_input_args();
    args.encoder_args = String::new();
    let expect = |period: &str| {
        format!(
            "-progress tcp://localhost:1234 -stats_period {} -i 1080-60.y4m -b:v 6M -c:v h264_nvenc  -f null -",
            period
        )
    };
    args.stats_period_ms = 1000;
    assert_eq!(args.to_string(), expect("1"));
    args.stats_period_ms = 250;
    assert_eq!(args.to_string(), expect("0.25"));
    args.stats_period_ms = 1050;
    assert_eq!(args.to_string(), expect("1.05"));
    args.stats_period_ms = 2001;
    assert_eq!(args.to_string(), expect("2.001"));
    args.stats_period_ms = 100;
    assert_eq!(args.to_string(), expect("0.1"));
    args.stats_period_ms = 0;
    assert_eq!(args.to_string(), expect("0"));
}

#[test]
fn args_for_error_run_and_words() {
    let mut args = get_one_input_args();
    args.output_args = "-f h264 tcp://localhost:2000".to_string();
    args.set_no_output_for_error();
    assert_eq!(args.output_args, NO_OUTPUT);
    assert!(!args.send_progress);
    assert_eq!(
        args.to_vec(),
        vec![
            "-i", "1080-60.y4m", "-b:v", "6M", "-c:v", "h264_nvenc", "-preset", "hq", "-tune",
            "hq", "-profile:v", "high", "-rc", "cbr", "-multipass", "qres", "-rc-lookahead", "8",
            "-f", "null", "-"
        ]
    );
    assert_eq!(FfmpegArgs::words("a  b "), vec!["a", "", "b", ""]);
    assert_eq!(FfmpegArgs::words(""), vec![""]);
    let copy = args.clone();
    assert_eq!(copy.to_string(), args.to_string());
}

#[test]
fn cli_special_options() {
    let mut cli = Cli {
        encoder: ENCODER.to_string(),
        bitrate: BITRATE,
        check_quality: false,
        detect_overload: false,
        source_file: INPUT_ONE.to_string(),
        test_run: true,
        max_bitrate_permutation: None,
        allow_duplicate_scores: false,
        verbose: true,
        list_supported_encoders: false,
    };
    assert!(!cli.has_special_options());
    cli.allow_duplicate_scores = true;
    assert!(cli.has_special_options());
}

#[test]
fn extract_vmaf_score_test() {
    let score = extract_vmaf_score(VMAF_LINE);
    assert!(score.is_ok());
    assert_eq!(score.unwrap(), QualityScore { micros: 98_644_730 });
    assert_eq!((score.unwrap().micros as f64 / 1_000_000.0) as f32, 98.64473);
}

#[test]
fn score_lines_without_score() {
    assert_eq!(extract_vmaf_score("frame=12"), Err(ParseError::Empty));
    assert_eq!(extract_vmaf_score("VMAF score: 98"), Err(ParseError::Empty));
    assert_eq!(extract_vmaf_score(""), Err(ParseError::Empty));
    assert_eq!(extract_vmaf_score("xx VMAF score: 7.5 yy"), Ok(QualityScore { micros: 7_500_000 }));
}

#[test]
fn score_texts() {
    assert_eq!(parse_score("95.0"), Ok(QualityScore { micros: 95_000_000 }));
    assert_eq!(parse_score("0.000001"), Ok(QualityScore { micros: 1 }));
    assert_eq!(parse_score("100.1234569"), Ok(QualityScore { micros: 100_123_456 }));
    assert_eq!(parse_score("007.25"), Ok(QualityScore { micros: 7_250_000 }));
    assert_eq!(parse_score(""), Err(ParseError::Empty));
    assert_eq!(parse_score("95"), Err(ParseError::InvalidDigit));
    assert_eq!(parse_score("95."), Err(ParseError::InvalidDigit));
    assert_eq!(parse_score(".5"), Err(ParseError::InvalidDigit));
    assert_eq!(parse_score("9.5.1"), Err(ParseError::InvalidDigit));
    assert_eq!(parse_score("+9.5"), Err(ParseError::InvalidDigit));
    assert_eq!(parse_score("9.5e3"), Err(ParseError::InvalidDigit));
    assert_eq!(parse_score("٩.٥"), Err(ParseError::InvalidDigit));
    assert_eq!(
        parse_score("18446744073709.551615"),
        Ok(QualityScore { micros: u64::MAX })
    );
    assert_eq!(parse_score("18446744073709.551616"), Err(ParseError::Overflow));
    assert_eq!(parse_score("18446744073710.0"), Err(ParseError::Overflow));
    assert_eq!(parse_score("99999999999999999999999.0"), Err(ParseError::Overflow));
}

#[test]
fn first_group_of_a_match() {
    assert_eq!(capture_group("frame=123", "^frame=([0-9]+)"), "123");
    assert_eq!(capture_group("nothing here", "^frame=([0-9]+)"), "");
    assert_eq!(capture_group("abc", "(unclosed"), "");
    assert_eq!(capture_group("abc", "a(x)?bc"), "");
    assert_eq!(capture_group("abc", "abc"), "");
    assert_eq!(capture_group("say 'hey' now", "'([^']+)'"), "hey");
}

#[test]
fn report_files_by_name() {
    assert!(is_report_file("ffmpeg-1.log", true));
    assert!(is_report_file("ffmpeg-20240101-120000.log", true));
    assert!(is_report_file("ffmpeg.log", true));
    assert!(!is_report_file("ffmpeg-1.log", false));
    assert!(!is_report_file("some-other.log", true));
    assert!(!is_report_file("diff-file-ext.txt", true));
    assert!(!is_report_file("ffmpeg-1.log.txt", true));
    assert!(!is_report_file("my-ffmpeg-1.log", true));
}

#[test]
fn latest_of_the_reports() {
    let stamp = |seconds: i64, nanos: u32| FileStamp { seconds, nanos };
    assert_eq!(get_latest_log(&vec![]), None);
    assert_eq!(get_latest_log(&vec![stamp(10, 0), stamp(20, 0)]), Some(1));
    assert_eq!(get_latest_log(&vec![stamp(20, 5), stamp(20, 4), stamp(20, 5)]), Some(0));
    assert_eq!(get_latest_log(&vec![stamp(0, 0), stamp(-5, 10)]), None);
    assert_eq!(get_latest_log(&vec![stamp(0, 0), stamp(0, 1)]), Some(1));
    assert_eq!(get_latest_log(&vec![stamp(3, 0), stamp(2, 999_999_999), stamp(3, 1)]), Some(2));
    assert!(stamp(1, 0).is_later_than(&stamp(0, 999)));
    assert!(!stamp(1, 0).is_later_than(&stamp(1, 0)));
}

#[test]
fn lines_from_the_end() {
    let lines = vec!["last".to_string(), "second to last".to_string(), "third".to_string()];
    assert_eq!(read_last_line_at(&lines, 1), Some("last".to_string()));
    assert_eq!(read_last_line_at(&lines, 3), Some("third".to_string()));
    assert_eq!(read_last_line_at(&lines, 4), None);
    assert_eq!(read_last_line_at(&lines, 0), None);
    assert_eq!(read_last_line_at(&lines, -1), None);
    assert_eq!(score_line_number("hevc_videotoolbox"), 15);
    assert_eq!(score_line_number("hevc_nvenc"), 3);
}

#[test]
fn extract_metadata_test() {
    let extracted = extract_metadata(String::from(PROBE_LINE));

    let expected = MetaData { fps: 60, frames: 1923, width: 1920, height: 1080 };

    assert_eq!(equals(&expected, &extracted), true);
}
