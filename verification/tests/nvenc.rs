use encoder_benchmark::codecs::nvenc::{Nvenc, NvencSettings};

fn get_expected_len(nvenc: &Nvenc) -> usize {
    nvenc.presets().len()
        * nvenc.tunes().len()
        * nvenc.profiles().len()
        * nvenc.rate_controls().len()
}

#[test]
fn nvenc_create_h264_test() {
    let nvenc = Nvenc::new(false, 0);
    assert!(nvenc.profiles().contains(&"high"));
}

#[test]
fn nvenc_create_hevc_test() {
    let nvenc = Nvenc::new(true, 0);
    assert!(nvenc.profiles().contains(&"main"));
}

#[test]
fn nvenc_iterate_to_end_test() {
    let mut nvenc = Nvenc::new(false, 0);
    let perm_count = nvenc.init().len();

    let mut total = 0;
    while let Some((_usize, _string)) = nvenc.next() {
        total += 1
    }

    // determine if we iterated over all the permutations correctly
    assert_eq!(total, perm_count);
}

#[test]
fn total_permutations_test() {
    let mut nvenc = Nvenc::new(false, 0);
    assert_eq!(nvenc.init().len(), get_expected_len(&nvenc));
}

#[test]
fn init_twice_not_double_test() {
    let mut nvenc = Nvenc::new(false, 0);
    nvenc.init();
    assert_eq!(nvenc.init().len(), get_expected_len(&nvenc));
}

#[test]
fn nvenc_init_twice_same_content() {
    let mut nvenc = Nvenc::new(true, 3);
    let first = nvenc.init().clone();
    let second = nvenc.init().clone();
    assert_eq!(first, second);
    assert_eq!(first.len(), 21);
}

#[test]
fn nvenc_generation_order() {
    let mut nvenc = Nvenc::new(true, 0);
    let all = nvenc.init().clone();
    assert_eq!(all.len(), 21);
    assert_eq!(all[0], "-preset p1 -tune hq -profile:v main -rc cbr -cbr true -gpu 0");
    assert_eq!(all[1], "-preset p1 -tune ll -profile:v main -rc cbr -cbr true -gpu 0");
    assert_eq!(all[2], "-preset p1 -tune ull -profile:v main -rc cbr -cbr true -gpu 0");
    assert_eq!(all[3], "-preset p2 -tune hq -profile:v main -rc cbr -cbr true -gpu 0");
    assert_eq!(all[20], "-preset p7 -tune ull -profile:v main -rc cbr -cbr true -gpu 0");
    let presets = ["p1", "p2", "p3", "p4", "p5", "p6", "p7"];
    let tunes = ["hq", "ll", "ull"];
    for (i, text) in all.iter().enumerate() {
        let expected = format!(
            "-preset {} -tune {} -profile:v main -rc cbr -cbr true -gpu 0",
            presets[i / 3],
            tunes[i % 3]
        );
        assert_eq!(*text, expected);
    }
}

#[test]
fn nvenc_next_yields_each_index_once() {
    let mut nvenc = Nvenc::new(false, 1);
    let all = nvenc.init().clone();
    assert!(nvenc.has_next());
    let mut seen = Vec::new();
    while let Some((index, settings)) = nvenc.next() {
        assert_eq!(index, seen.len());
        assert_eq!(settings, all[index]);
        seen.push(index);
    }
    assert_eq!(seen.len(), all.len());
    assert!(!nvenc.has_next());
    assert_eq!(nvenc.next(), None);
}

#[test]
fn nvenc_remaining_after_two() {
    let mut nvenc = Nvenc::new(false, 0);
    let all = nvenc.init().clone();
    nvenc.next();
    nvenc.next();
    let rest = nvenc.remaining();
    assert_eq!(rest.len(), all.len() - 2);
    assert_eq!(rest[0], (2, all[2].clone()));
    assert_eq!(rest[18], (20, all[20].clone()));
    assert!(nvenc.remaining().is_empty());
}

#[test]
fn nvenc_standard_only() {
    let mut nvenc = Nvenc::new(false, 2);
    nvenc.init();
    let only = nvenc.run_standard_only().clone();
    assert_eq!(only, vec!["-preset p1 -tune ll -profile:v high -rc cbr -cbr true -gpu 2".to_string()]);
    assert_eq!(nvenc.next(), Some((0, only[0].clone())));
    assert_eq!(nvenc.next(), None);
}

#[test]
fn nvenc_settings_text() {
    let settings = NvencSettings {
        preset: "p4",
        tune: "ll",
        profile: "high",
        rate_control: "cbr",
        gpu: 255,
    };
    assert_eq!(
        settings.to_string(),
        "-preset p4 -tune ll -profile:v high -rc cbr -cbr true -gpu 255"
    );
}

#[test]
fn nvenc_bitrate_table() {
    let base = Nvenc::get_resolution_to_bitrate_map(60);
    assert_eq!(base.get("1280x720"), Some(&10));
    assert_eq!(base.get("1920x1080"), Some(&20));
    assert_eq!(base.get("2560x1440"), Some(&25));
    assert_eq!(base.get("3840x2160"), Some(&55));
    assert_eq!(base.len(), 4);
    let doubled = Nvenc::get_resolution_to_bitrate_map(120);
    assert_eq!(doubled.get("1280x720"), Some(&20));
    assert_eq!(doubled.get("1920x1080"), Some(&40));
    assert_eq!(doubled.get("2560x1440"), Some(&50));
    assert_eq!(doubled.get("3840x2160"), Some(&110));
    let other = Nvenc::get_resolution_to_bitrate_map(30);
    assert_eq!(other.get("3840x2160"), Some(&55));
    assert_eq!(other.get("640x480"), None);
}
