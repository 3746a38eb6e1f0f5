use camera_app::capabilities::{
    fps_for_label, fps_presets, probe_capabilities, resolution_for_label, resolution_presets,
    CapsSupport,
};

fn strings(v: &[&str]) -> Vec<String> {
    v.iter().map(|s| s.to_string()).collect()
}

#[test]
fn presets_table() {
    let r: Vec<(i32, i32, String)> =
        resolution_presets().into_iter().map(|p| (p.width, p.height, p.label)).collect();
    assert_eq!(
        r,
        vec![
            (640, 480, "480p".to_string()),
            (1280, 720, "720p".to_string()),
            (1920, 1080, "1080p".to_string()),
            (2560, 1440, "2K".to_string()),
            (3840, 2160, "4K".to_string()),
        ]
    );
    let f: Vec<(i32, String)> = fps_presets().into_iter().map(|p| (p.fps, p.label)).collect();
    assert_eq!(f, vec![(30, "30 FPS".to_string()), (60, "60 FPS".to_string())]);
}

#[test]
fn nothing_probed_offers_starting_settings() {
    let (res, fps) = probe_capabilities(None);
    assert_eq!(res, strings(&["720p"]));
    assert_eq!(fps, strings(&["30 FPS"]));
    assert_eq!(resolution_for_label(&res[0]), (1280, 720));
    assert_eq!(fps_for_label(&fps[0]), 30);
}

#[test]
fn supported_presets_are_offered_in_order() {
    let support = CapsSupport {
        resolutions: vec![true, false, true, false, true],
        frame_rates: vec![false, true],
    };
    let (res, fps) = probe_capabilities(Some(&support));
    assert_eq!(res, strings(&["480p", "1080p", "4K"]));
    assert_eq!(fps, strings(&["60 FPS"]));
}

#[test]
fn all_presets_supported() {
    let support = CapsSupport { resolutions: vec![true; 5], frame_rates: vec![true; 2] };
    let (res, fps) = probe_capabilities(Some(&support));
    assert_eq!(res, strings(&["480p", "720p", "1080p", "2K", "4K"]));
    assert_eq!(fps, strings(&["30 FPS", "60 FPS"]));
}

#[test]
fn nothing_supported_offers_nothing() {
    let support = CapsSupport { resolutions: vec![false; 5], frame_rates: vec![false; 2] };
    let (res, fps) = probe_capabilities(Some(&support));
    assert!(res.is_empty());
    assert!(fps.is_empty());
}

#[test]
fn missing_flags_count_as_unsupported() {
    let support = CapsSupport { resolutions: vec![false, false, true], frame_rates: vec![] };
    let (res, fps) = probe_capabilities(Some(&support));
    assert_eq!(res, strings(&["1080p"]));
    assert!(fps.is_empty());
}

#[test]
fn resolution_labels_select_sizes() {
    assert_eq!(resolution_for_label("480p"), (640, 480));
    assert_eq!(resolution_for_label("720p"), (1280, 720));
    assert_eq!(resolution_for_label("1080p"), (1920, 1080));
    assert_eq!(resolution_for_label("2K"), (2560, 1440));
    assert_eq!(resolution_for_label("4K"), (3840, 2160));
    assert_eq!(resolution_for_label("8K"), (1280, 720));
    assert_eq!(resolution_for_label(""), (1280, 720));
}

#[test]
fn fps_labels_select_rates() {
    assert_eq!(fps_for_label("30 FPS"), 30);
    assert_eq!(fps_for_label("60 FPS"), 60);
    assert_eq!(fps_for_label("24 FPS"), 60);
    assert_eq!(fps_for_label("30"), 60);
}

#[test]
fn offered_labels_round_trip() {
    for mask in 0u32..32 {
        for fmask in 0u32..4 {
            let support = CapsSupport {
                resolutions: (0..5).map(|i| mask & (1 << i) != 0).collect(),
                frame_rates: (0..2).map(|i| fmask & (1 << i) != 0).collect(),
            };
            let (res, fps) = probe_capabilities(Some(&support));
            assert_eq!(res.len(), mask.count_ones() as usize);
            assert_eq!(fps.len(), fmask.count_ones() as usize);
            for label in &res {
                let index = resolution_presets().iter().position(|p| &p.label == label).unwrap();
                assert!(support.resolutions[index]);
                let preset = resolution_presets().into_iter().find(|p| &p.label == label).unwrap();
                assert_eq!(resolution_for_label(label), (preset.width, preset.height));
            }
            for label in &fps {
                let index = fps_presets().iter().position(|p| &p.label == label).unwrap();
                assert!(support.frame_rates[index]);
                let preset = fps_presets().into_iter().find(|p| &p.label == label).unwrap();
                assert_eq!(fps_for_label(label), preset.fps);
            }
        }
    }
}

#[test]
fn more_support_keeps_labels() {
    for fewer in 0u32..32 {
        for more in 0u32..32 {
            if fewer & !more != 0 {
                continue;
            }
            let flags = |m: u32| (0..5).map(|i| m & (1 << i) != 0).collect::<Vec<bool>>();
            let a = probe_capabilities(Some(&CapsSupport { resolutions: flags(fewer), frame_rates: vec![] })).0;
            let b = probe_capabilities(Some(&CapsSupport { resolutions: flags(more), frame_rates: vec![] })).0;
            let mut rest = b.iter();
            for label in &a {
                assert!(rest.any(|l| l == label));
            }
        }
    }
}
