use encoder_benchmark::cli::benchmark::{
    benchmark, get_benchmark_settings_for, get_bitrate_for, get_input_files, is_numeric, map_file,
    parse_choice, print_options, Dialogue, Prompt,
};
use encoder_benchmark::cli::benchmark_cli::BenchmarkCli;
use encoder_benchmark::cli::cli_util::{
    are_all_source_files_present, effective_file_path, fail_if_environment_not_setup,
    get_repo_url, get_video_files, header_lines, is_dev, log_cli_header, log_total_permutations,
    standard_cli_check, CliCheck,
};
use encoder_benchmark::cli::permutor::{
    build_amf_setting_permutations, build_intel_av1_permutations, build_intel_igpu_permutations,
    build_nvenc_setting_permutations, build_setting_permutations, get_bitrate_permutations,
    log_special_arguments,
};
use encoder_benchmark::cli::permutor_cli::PermutorCli;
use encoder_benchmark::cli::supported::{
    get_supported_encoders, get_supported_inputs, is_encoder_supported,
};
use encoder_benchmark::engine::permutation_engine::PermutationEngine;
use encoder_benchmark::ffmpeg::args::Cli;
use encoder_benchmark::ffmpeg::metadata::MetaData;

fn permutor_cli(encoder: &str) -> PermutorCli {
    PermutorCli {
        encoder: encoder.to_string(),
        bitrate: 10,
        check_quality: true,
        allow_duplicate_scores: false,
        detect_overload: true,
        source_file: "1080-60.y4m".to_string(),
        files_directory: String::new(),
        log_output_directory: String::new(),
        test_run: false,
        max_bitrate_permutation: None,
        verbose: false,
        list_supported_encoders: false,
        gpu: 0,
    }
}

#[test]
fn supported_lists() {
    assert_eq!(
        get_supported_encoders(),
        ["h264_nvenc", "hevc_nvenc", "h264_amf", "hevc_amf", "h264_qsv", "hevc_qsv", "av1_qsv"]
    );
    assert_eq!(get_supported_inputs().len(), 8);
    assert_eq!(get_supported_inputs()[7], "4k-120.y4m");
    assert!(is_encoder_supported(&"av1_qsv".to_string()));
    assert!(is_encoder_supported(&"h264_nvenc".to_string()));
    assert!(!is_encoder_supported(&"h264_nvenc ".to_string()));
    assert!(!is_encoder_supported(&"encoder".to_string()));
    assert!(!is_encoder_supported(&"".to_string()));
    assert!(!is_encoder_supported(&"hevc_videotoolbox".to_string()));
}

#[test]
fn shared_check() {
    let s = |v: &str| v.to_string();
    assert_eq!(standard_cli_check(true, &s("encoder"), &s(""), false), CliCheck::ListEncoders);
    assert_eq!(standard_cli_check(false, &s("encoder"), &s(""), true), CliCheck::NoEncoder);
    assert_eq!(standard_cli_check(false, &s("x265"), &s(""), true), CliCheck::UnsupportedEncoder);
    assert_eq!(
        standard_cli_check(false, &s("hevc_amf"), &s("a.y4m"), false),
        CliCheck::MissingSourceFile
    );
    assert_eq!(standard_cli_check(false, &s("hevc_amf"), &s("a.y4m"), true), CliCheck::Passed);
    assert_eq!(standard_cli_check(false, &s("hevc_amf"), &s(""), false), CliCheck::Passed);
    assert_eq!(CliCheck::Passed.exit_code(), None);
    assert_eq!(CliCheck::ListEncoders.exit_code(), Some(0));
    assert_eq!(CliCheck::NoEncoder.exit_code(), Some(1));
    assert_eq!(CliCheck::MissingStandardFiles.exit_code(), Some(1));
    assert_eq!(fail_if_environment_not_setup(false, false), CliCheck::NoFfmpeg);
    assert_eq!(fail_if_environment_not_setup(true, false), CliCheck::NoFfprobe);
    assert_eq!(fail_if_environment_not_setup(true, true), CliCheck::Passed);
}

#[test]
fn paths_and_places() {
    assert_eq!(effective_file_path(&"a.y4m".to_string(), &"dir".to_string()), "dir/a.y4m");
    assert_eq!(effective_file_path(&"a.y4m".to_string(), &"".to_string()), "a.y4m");
    assert!(is_dev("/home/me/project/target/debug/benchmark"));
    assert!(!is_dev("/usr/bin/benchmark"));
    assert_eq!(get_video_files("videos", true), "videos");
    assert_eq!(get_video_files("", true), "../");
    assert_eq!(get_video_files("", false), ".");
    assert_eq!(get_repo_url(), "https://github.com/Proryanator/encoder-benchmark");
    assert_eq!(
        header_lines("ART".to_string(), "0.4.2"),
        vec![
            "ART\n",
            "Version: 0.4.2",
            "Source code: https://github.com/Proryanator/encoder-benchmark\n"
        ]
    );
}

#[test]
fn title_is_drawn() {
    let lines = log_cli_header("Hi".to_string(), "1.0").unwrap();
    assert_eq!(lines.len(), 3);
    assert_eq!(lines[1], "Version: 1.0");
    // a drawing takes several rows and is no mere copy of the title
    assert!(lines[0].lines().count() > 2);
    assert!(!lines[0].contains("Hi"));
    assert!(lines[0].ends_with('\n'));
    let other = log_cli_header("Ho".to_string(), "1.0").unwrap();
    assert_ne!(lines[0], other[0]);
}

#[test]
fn summary_above_a_run() {
    let mut cli = Cli {
        encoder: "hevc_nvenc".to_string(),
        bitrate: 10,
        check_quality: true,
        detect_overload: false,
        source_file: "a.y4m".to_string(),
        test_run: false,
        max_bitrate_permutation: Some(20),
        allow_duplicate_scores: true,
        verbose: false,
        list_supported_encoders: false,
    };
    let metadata = MetaData { fps: 60, frames: 100, width: 1920, height: 1080 };
    assert_eq!(
        log_total_permutations(&cli, &metadata, 63, 3, false, 10),
        vec![
            "=".repeat(84).as_str(),
            "Permutations:\t63",
            "Resolution:\t1920x1080",
            "Encoder:\thevc_nvenc",
            "Min bitrate:\t10Mb/s",
            "Max bitrate:\t20Mb/s",
            "FPS:\t\t60",
            "\nOptions:",
            "  -calculating vmaf score",
            "  -allowing duplicate vmaf scores",
            ""
        ]
    );
    cli.max_bitrate_permutation = None;
    assert_eq!(
        log_total_permutations(&cli, &metadata, 21, 1, true, 25),
        vec![
            "=".repeat(84).as_str(),
            "Resolution:\t1920x1080",
            "Encoder:\thevc_nvenc",
            "Bitrate:\t25Mb/s",
            "FPS:\t\t60",
            ""
        ]
    );
}

#[test]
fn standard_inputs_present() {
    let mut files: Vec<String> = get_supported_inputs().iter().map(|s| s.to_string()).collect();
    files.push("notes.txt".to_string());
    assert!(are_all_source_files_present(&files));
    files.remove(3);
    assert!(!are_all_source_files_present(&files));
    assert!(!are_all_source_files_present(&vec![]));
}

#[test]
fn benchmark_options() {
    let mut cli = BenchmarkCli::new();
    assert_eq!(cli.encoder, "");
    assert_eq!(cli.gpu, 0);
    assert!(!cli.was_ui_opened);
    cli.set_ui_opened();
    assert!(cli.was_ui_opened);
    assert_eq!(cli.validate(true, true), CliCheck::UnsupportedEncoder);
    cli.encoder = "hevc_nvenc".to_string();
    assert_eq!(cli.validate(false, false), CliCheck::MissingStandardFiles);
    assert_eq!(cli.source_file, "");
    cli.files_directory = "videos".to_string();
    assert_eq!(cli.validate(false, true), CliCheck::Passed);
    assert_eq!(cli.source_file, "videos/");
    let mut named = BenchmarkCli::new();
    named.encoder = "hevc_nvenc".to_string();
    named.source_file = "a.y4m".to_string();
    named.files_directory = "videos".to_string();
    assert_eq!(named.validate(false, true), CliCheck::MissingSourceFile);
    assert_eq!(named.validate(true, false), CliCheck::Passed);
    assert_eq!(named.source_file, "a.y4m");
}

#[test]
fn search_options() {
    let mut cli = permutor_cli("hevc_amf");
    assert!(cli.has_special_options());
    assert_eq!(cli.validate(true), CliCheck::Passed);
    assert_eq!(cli.max_bitrate_permutation, Some(10));
    cli.max_bitrate_permutation = Some(30);
    cli.bitrate = 20;
    assert_eq!(cli.validate(true), CliCheck::Passed);
    assert_eq!(cli.max_bitrate_permutation, Some(30));
    cli.source_file = String::new();
    cli.max_bitrate_permutation = None;
    assert_eq!(cli.validate(true), CliCheck::NoSourceFile);
    assert_eq!(cli.max_bitrate_permutation, None);
    cli.check_quality = false;
    cli.detect_overload = false;
    assert!(!cli.has_special_options());
    cli.test_run = true;
    assert!(cli.has_special_options());
    let mut plain = Cli {
        encoder: "h264_nvenc".to_string(),
        bitrate: 6,
        check_quality: false,
        detect_overload: false,
        source_file: String::new(),
        test_run: false,
        max_bitrate_permutation: None,
        allow_duplicate_scores: false,
        verbose: false,
        list_supported_encoders: false,
    };
    assert_eq!(plain.validate(false), CliCheck::Passed);
    assert_eq!(plain.max_bitrate_permutation, Some(6));
    plain.list_supported_encoders = true;
    assert_eq!(plain.validate(false), CliCheck::ListEncoders);
}

#[test]
fn special_argument_lines() {
    let mut cli = permutor_cli("hevc_amf");
    assert_eq!(
        log_special_arguments(&cli),
        vec![
            "\nOptions:",
            "  -encoding will stop if overload detected",
            "  -calculating vmaf score"
        ]
    );
    cli.allow_duplicate_scores = true;
    cli.verbose = true;
    cli.test_run = true;
    assert_eq!(log_special_arguments(&cli).len(), 6);
    cli = permutor_cli("hevc_amf");
    cli.check_quality = false;
    cli.detect_overload = false;
    assert!(log_special_arguments(&cli).is_empty());
}

#[test]
fn bitrate_tiers() {
    assert_eq!(get_bitrate_permutations(10, 10), vec![10]);
    assert_eq!(get_bitrate_permutations(10, 14), vec![10]);
    assert_eq!(get_bitrate_permutations(10, 15), vec![10, 15]);
    assert_eq!(get_bitrate_permutations(10, 27), vec![10, 15, 20, 25]);
    assert_eq!(get_bitrate_permutations(0, 0), vec![0]);
    assert_eq!(
        get_bitrate_permutations(u32::MAX - 7, u32::MAX),
        vec![u32::MAX - 7, u32::MAX - 2]
    );
}

#[test]
fn trials_of_a_tier() {
    let mut engine = PermutationEngine::new(String::new());
    let cli = permutor_cli("hevc_nvenc");
    build_nvenc_setting_permutations(&mut engine, &cli, 10);
    build_setting_permutations(&mut engine, &cli, 15);
    assert_eq!(engine.permutations.len(), 42);
    let first = &engine.permutations[0];
    assert_eq!(
        first.encoder_settings,
        "-preset p1 -tune hq -profile:v main -rc cbr -cbr true -gpu 0"
    );
    assert_eq!(first.bitrate, 10);
    assert_eq!(first.video_file, "1080-60.y4m");
    assert_eq!(first.encoder, "hevc_nvenc");
    assert!(first.check_quality && first.detect_overload && !first.allow_duplicates);
    assert_eq!(engine.permutations[21].bitrate, 15);
    assert_eq!(engine.permutations[21].encoder_settings, first.encoder_settings);
    assert_eq!(
        engine.permutations[41].encoder_settings,
        "-preset p7 -tune ull -profile:v main -rc cbr -cbr true -gpu 0"
    );
}

#[test]
fn trials_of_the_other_families() {
    let mut engine = PermutationEngine::new(String::new());
    let mut cli = permutor_cli("h264_amf");
    cli.gpu = 2;
    build_setting_permutations(&mut engine, &cli, 10);
    assert_eq!(engine.permutations.len(), 48);
    assert_eq!(
        engine.permutations[0].encoder_settings,
        "-usage transcoding -quality balanced -profile:v main -rc cbr -cbr true -gpu 2"
    );
    build_amf_setting_permutations(&mut engine, &permutor_cli("hevc_amf"), 10);
    assert_eq!(engine.permutations.len(), 48 + 24);
    build_intel_av1_permutations(&mut engine, &permutor_cli("av1_qsv"), 10);
    assert_eq!(engine.permutations.len(), 72 + 7);
    build_intel_igpu_permutations(&mut engine, &permutor_cli("hevc_qsv"), 10);
    assert_eq!(engine.permutations.len(), 79 + 21);
    build_setting_permutations(&mut engine, &permutor_cli("h264_qsv"), 10);
    assert_eq!(engine.permutations.len(), 100 + 28);
    build_setting_permutations(&mut engine, &permutor_cli("av1_qsv"), 10);
    assert_eq!(engine.permutations.len(), 128 + 7);
    build_setting_permutations(&mut engine, &permutor_cli("hevc_videotoolbox"), 10);
    build_setting_permutations(&mut engine, &permutor_cli("libx264"), 10);
    assert_eq!(engine.permutations.len(), 135);
    let mut test_run = permutor_cli("h264_qsv");
    test_run.test_run = true;
    build_setting_permutations(&mut engine, &test_run, 30);
    assert_eq!(engine.permutations.len(), 136);
    assert_eq!(engine.permutations[135].encoder_settings, "-preset veryfast -profile:v unknown");
    assert_eq!(engine.permutations[135].bitrate, 30);
}

#[test]
fn numeric_input() {
    assert!(is_numeric(&"123".to_string()));
    assert!(is_numeric(&"".to_string()));
    assert!(is_numeric(&"٣".to_string()));
    assert!(is_numeric(&"½".to_string()));
    assert!(!is_numeric(&"12a".to_string()));
    assert!(!is_numeric(&"-1".to_string()));
    assert_eq!(parse_choice("3", 7), Some(3));
    assert_eq!(parse_choice("06", 7), Some(6));
    assert_eq!(parse_choice("7", 7), None);
    assert_eq!(parse_choice("", 7), None);
    assert_eq!(parse_choice("٣", 7), None);
    assert_eq!(parse_choice("99999999999999999999999", 7), None);
    assert_eq!(parse_choice("0", 0), None);
    assert_eq!(print_options(&vec!["a", "b"]), vec!["[0] - a", "[1] - b"]);
    assert!(print_options(&vec![]).is_empty());
}

#[test]
fn asking_for_the_options() {
    let mut cli = BenchmarkCli::new();
    let mut dialogue = Dialogue::start(2);
    assert_eq!(dialogue.prompt, Prompt::ChooseGpu);
    assert!(!dialogue.read_user_input(&mut cli, "2", 2, false));
    assert!(!dialogue.read_user_input(&mut cli, "x", 2, false));
    assert_eq!(dialogue.prompt, Prompt::ChooseGpu);
    assert!(dialogue.read_user_input(&mut cli, "1", 2, false));
    assert_eq!(cli.gpu, 1);
    assert_eq!(dialogue.prompt, Prompt::ChooseEncoder);
    assert!(!dialogue.read_user_input(&mut cli, "7", 2, false));
    assert!(dialogue.read_user_input(&mut cli, "3", 2, false));
    assert_eq!(cli.encoder, "hevc_amf");
    assert_eq!(dialogue.prompt, Prompt::AskDecode);
    assert!(!dialogue.read_user_input(&mut cli, "yes", 2, false));
    assert!(dialogue.read_user_input(&mut cli, "y", 2, false));
    assert!(cli.decode);
    assert_eq!(dialogue.prompt, Prompt::AskFullBenchmark);
    assert!(dialogue.read_user_input(&mut cli, "n", 2, false));
    assert!(!dialogue.full_bench);
    assert_eq!(dialogue.prompt, Prompt::AskCurrentDirectory);
    // anything but a yes is a no here
    assert!(dialogue.read_user_input(&mut cli, "maybe", 2, false));
    assert!(!dialogue.in_current_dir);
    assert_eq!(dialogue.prompt, Prompt::AskDirectory);
    assert!(!dialogue.read_user_input(&mut cli, "nowhere", 2, false));
    assert!(dialogue.read_user_input(&mut cli, "videos", 2, true));
    assert_eq!(cli.files_directory, "videos");
    assert_eq!(dialogue.prompt, Prompt::ChooseFile);
    assert!(!dialogue.read_user_input(&mut cli, "8", 2, true));
    assert!(dialogue.read_user_input(&mut cli, "2", 2, true));
    assert_eq!(cli.source_file, "1080-60.y4m");
    assert_eq!(dialogue.prompt, Prompt::AskVerbose);
    assert!(dialogue.read_user_input(&mut cli, "n", 2, true));
    assert!(!cli.verbose);
    assert_eq!(dialogue.prompt, Prompt::Done);
    assert!(!dialogue.read_user_input(&mut cli, "y", 2, true));
}

#[test]
fn asking_for_a_full_benchmark_here() {
    let mut cli = BenchmarkCli::new();
    let mut dialogue = Dialogue::start(1);
    assert_eq!(dialogue.prompt, Prompt::ChooseEncoder);
    assert!(dialogue.read_user_input(&mut cli, "0", 1, false));
    assert!(dialogue.read_user_input(&mut cli, "n", 1, false));
    assert!(!cli.decode);
    assert!(dialogue.read_user_input(&mut cli, "y", 1, false));
    assert!(dialogue.full_bench);
    assert!(dialogue.read_user_input(&mut cli, "y", 1, false));
    assert!(dialogue.in_current_dir);
    assert_eq!(dialogue.prompt, Prompt::AskVerbose);
    assert!(dialogue.read_user_input(&mut cli, "y", 1, false));
    assert!(cli.verbose);
    assert_eq!(dialogue.prompt, Prompt::Done);
    assert_eq!(cli.source_file, "");
    assert_eq!(cli.encoder, "h264_nvenc");
}

#[test]
fn settings_of_the_benchmark() {
    let mut cli = BenchmarkCli::new();
    cli.gpu = 1;
    let mut settings = |encoder: &str| {
        cli.encoder = encoder.to_string();
        get_benchmark_settings_for(&cli)
    };
    assert_eq!(
        settings("h264_nvenc"),
        "-preset p1 -tune ll -profile:v high -rc cbr -cbr true -gpu 1"
    );
    assert_eq!(
        settings("hevc_nvenc"),
        "-preset p1 -tune ll -profile:v main -rc cbr -cbr true -gpu 1"
    );
    assert_eq!(
        settings("hevc_amf"),
        "-usage ultralowlatency -quality speed -profile:v main -rc cbr -cbr true -gpu 1"
    );
    assert_eq!(settings("av1_qsv"), "-preset veryfast -profile:v main");
    assert_eq!(settings("h264_qsv"), "-preset faster -profile main");
    assert_eq!(
        settings("h264_videotoolbox"),
        "-profile:v baseline -coder vlc -constant_bit_rate true "
    );
    assert_eq!(settings("hevc_videotoolbox"), "-profile:v main -constant_bit_rate true ");
    assert_eq!(settings("prores_videotoolbox"), "-profile:v auto ");
    assert_eq!(settings("libx264"), "");
}

#[test]
fn bitrate_of_the_benchmark() {
    let full_hd = MetaData { fps: 60, frames: 1, width: 1920, height: 1080 };
    assert_eq!(get_bitrate_for(&full_hd, "hevc_nvenc".to_string()), Some(20));
    assert_eq!(get_bitrate_for(&full_hd, "hevc_amf".to_string()), Some(35));
    assert_eq!(get_bitrate_for(&full_hd, "av1_qsv".to_string()), Some(35));
    let fast = MetaData { fps: 120, frames: 1, width: 3840, height: 2160 };
    assert_eq!(get_bitrate_for(&fast, "h264_nvenc".to_string()), Some(110));
    let odd = MetaData { fps: 60, frames: 1, width: 640, height: 480 };
    assert_eq!(get_bitrate_for(&odd, "h264_nvenc".to_string()), None);
}

#[test]
fn inputs_of_the_benchmark() {
    assert_eq!(map_file(true, &"dir".to_string(), "a.y4m"), "dir/a.y4m");
    assert_eq!(map_file(true, &"".to_string(), "a.y4m"), "../a.y4m");
    assert_eq!(map_file(false, &"".to_string(), "a.y4m"), "a.y4m");
    assert_eq!(get_input_files("one.y4m".to_string(), "dir".to_string(), true), vec!["one.y4m"]);
    let all = get_input_files(String::new(), "dir".to_string(), false);
    assert_eq!(all.len(), 8);
    assert_eq!(all[0], "dir/720-60.y4m");
    assert_eq!(all[7], "dir/4k-120.y4m");
    assert_eq!(get_input_files(String::new(), String::new(), true)[2], "../1080-60.y4m");
}

#[test]
fn trials_of_the_benchmark() {
    let mut cli = BenchmarkCli::new();
    cli.encoder = "hevc_nvenc".to_string();
    cli.verbose = true;
    let metadata = MetaData { fps: 120, frames: 900, width: 2560, height: 1440 };
    let trials = benchmark(&cli, "2k-120.y4m".to_string(), metadata).unwrap();
    assert_eq!(trials.len(), 1);
    assert_eq!(trials[0].bitrate, 50);
    assert_eq!(trials[0].video_file, "2k-120.y4m");
    assert_eq!(
        trials[0].encoder_settings,
        "-preset p1 -tune ll -profile:v main -rc cbr -cbr true -gpu 0"
    );
    assert!(trials[0].verbose && !trials[0].is_decoding && !trials[0].decode_run);
    assert_eq!(trials[0].metadata, metadata);
    cli.decode = true;
    let both = benchmark(&cli, "2k-120.y4m".to_string(), metadata).unwrap();
    assert_eq!(both.len(), 2);
    assert!(both[0].is_decoding && !both[0].decode_run);
    assert!(both[1].is_decoding && both[1].decode_run);
    assert_eq!(both[1].bitrate, 50);
    let odd = MetaData { fps: 60, frames: 1, width: 640, height: 480 };
    assert!(benchmark(&cli, "odd.y4m".to_string(), odd).is_none());
}
