use smallvil::text::{append_decimal, breaks_with_overlays, has_word, is_nvidia};

#[test]
fn decimal_numbers() {
    for value in [0, 7, 10, 42, 100, 4_294_967_295] {
        let mut text = String::from("HDMI-A-");
        append_decimal(&mut text, value);
        assert_eq!(text, format!("HDMI-A-{}", value));
    }
}

#[test]
fn words_are_found_anywhere() {
    assert!(has_word("nvidia-drm", "nvidia"));
    assert!(has_word("the nvidia", "nvidia"));
    assert!(has_word("nnvidia", "nvidia"));
    assert!(has_word("abc", ""));
    assert!(has_word("", ""));
    assert!(!has_word("nvidi", "nvidia"));
    assert!(!has_word("nvi dia", "nvidia"));
    assert!(!has_word("", "nvidia"));
    assert!(has_word("\u{e9}\u{df}nvidia", "nvidia"));
}

#[test]
fn nvidia_in_lower_case() {
    assert!(is_nvidia("nvidia-drm"));
    assert!(!is_nvidia("NVIDIA DRM driver"));
}

#[test]
fn drivers_that_break_with_overlays() {
    assert!(breaks_with_overlays("NVIDIA-drm", "anything"));
    assert!(breaks_with_overlays("nvidia-drm", ""));
    assert!(breaks_with_overlays("drm", "the nViDiA driver"));
    assert!(!breaks_with_overlays("i915", "Intel Graphics"));
    assert!(!breaks_with_overlays("", ""));
    assert!(!breaks_with_overlays("amdgpu", "AMD GPU"));
}
