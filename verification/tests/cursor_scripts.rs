use page_recording::cursor_overlay::scripts::{MotionMode, Theme};
use page_recording::cursor_overlay::build_install_script;

#[test]
fn theme_round_trip() {
    for theme in [Theme::Arrow, Theme::Dot, Theme::Hand] {
        assert_eq!(Theme::from_str_ci(theme.as_str()).unwrap(), theme);
    }
}

#[test]
fn theme_parse_is_case_insensitive() {
    assert_eq!(Theme::from_str_ci("Arrow").unwrap(), Theme::Arrow);
    assert_eq!(Theme::from_str_ci("DOT").unwrap(), Theme::Dot);
}

#[test]
fn theme_parse_empty_is_default() {
    assert_eq!(Theme::from_str_ci("").unwrap(), Theme::default());
    assert_eq!(Theme::default(), Theme::Arrow);
}

#[test]
fn theme_parse_unknown_is_error() {
    let err = Theme::from_str_ci("rainbow").unwrap_err();
    assert!(err.contains("rainbow"));
    assert!(err.contains("arrow"));
    assert!(err.contains("dot"));
    assert!(err.contains("hand"));
}

#[test]
fn motion_mode_round_trip() {
    for mode in [MotionMode::Auto, MotionMode::Always, MotionMode::Off] {
        assert_eq!(MotionMode::from_str_ci(mode.as_str()).unwrap(), mode);
    }
}

#[test]
fn motion_mode_parse_unknown_is_error() {
    let err = MotionMode::from_str_ci("sometimes").unwrap_err();
    assert!(err.contains("sometimes"));
    assert!(err.contains("auto"));
    assert!(err.contains("always"));
    assert!(err.contains("off"));
}

#[test]
fn build_install_script_contains_config_keys() {
    let script = build_install_script(Theme::Arrow, 28, 250, 150, MotionMode::Auto);
    assert!(script.contains("__ab_cursor_config"));
    assert!(script.contains("\"size\":28"));
    assert!(script.contains("\"tweenMs\":250"));
    assert!(script.contains("\"clickMs\":150"));
    assert!(script.contains("\"motion\":\"auto\""));
    assert!(script.contains("__ab_cursor_root__"));
}

#[test]
fn build_install_script_inlines_chosen_theme_svg() {
    let arrow = build_install_script(Theme::Arrow, 28, 250, 150, MotionMode::Auto);
    let dot = build_install_script(Theme::Dot, 28, 250, 150, MotionMode::Auto);

    // Arrow has a path; dot uses circles.
    assert!(arrow.contains("<path"));
    assert!(dot.contains("<circle"));
    assert!(!arrow.contains("<circle"));
    assert!(!dot.contains("<path"));
}

#[test]
fn build_install_script_with_zero_durations_is_valid_js_shape() {
    let script = build_install_script(Theme::Dot, 8, 0, 0, MotionMode::Off);
    assert!(script.contains("\"tweenMs\":0"));
    assert!(script.contains("\"clickMs\":0"));
    assert!(script.contains("\"motion\":\"off\""));
    let first_line = script.lines().next().unwrap();
    let stripped = first_line
        .strip_prefix("window.__ab_cursor_config = ")
        .unwrap()
        .trim_end_matches(';');
    let config: serde_json::Value = serde_json::from_str(stripped).expect("valid JSON config");
    assert_eq!(config["svg"].as_str().unwrap(), Theme::Dot.svg());
    assert_eq!(config["size"].as_u64(), Some(8));
}

/// The controller and the themes use none of the forms that a strict `style-src`
/// blocks (inline `<style>`, a `style` attribute that is set, `cssText`).
#[test]
fn install_script_avoids_csp_blocked_style_forms() {
    let script = build_install_script(Theme::Arrow, 28, 250, 150, MotionMode::Auto);
    assert!(
        !script.contains("<style"),
        "controller or themes leaked a <style> tag: triggers style-src"
    );
    assert!(!script.contains("cssText"), "controller used cssText: triggers style-src");
    assert!(
        !script.contains("setAttribute('style'"),
        "controller used setAttribute('style', ...): triggers style-src"
    );
    assert!(
        !script.contains("setAttribute(\"style\""),
        "controller used setAttribute(\"style\", ...): triggers style-src"
    );
}

#[test]
fn install_script_contains_no_emoji_glyphs() {
    let script = build_install_script(Theme::Arrow, 28, 250, 150, MotionMode::Auto);
    for ch in script.chars() {
        let cp = ch as u32;
        let in_emoji_block = matches!(cp,
            0x1F300..=0x1FAFF
            | 0x2600..=0x27BF
            | 0x1F000..=0x1F2FF
        );
        assert!(
            !in_emoji_block,
            "install script contains emoji-block codepoint U+{:X}",
            cp
        );
    }
}

#[test]
fn theme_svgs_are_non_empty_and_look_like_svg() {
    for theme in [Theme::Arrow, Theme::Dot, Theme::Hand] {
        let svg = theme.svg();
        assert!(svg.contains("<svg"), "theme {} missing <svg root", theme.as_str());
        assert!(
            !svg.contains("<style"),
            "theme {} embedded a <style> tag (would trip style-src)",
            theme.as_str()
        );
        assert!(
            !svg.contains("<script"),
            "theme {} embedded a <script> tag",
            theme.as_str()
        );
    }
}

#[test]
fn motion_parse_is_case_insensitive_and_empty_is_default() {
    assert_eq!(MotionMode::from_str_ci("ALWAYS").unwrap(), MotionMode::Always);
    assert_eq!(MotionMode::from_str_ci("oFF").unwrap(), MotionMode::Off);
    assert_eq!(MotionMode::from_str_ci("").unwrap(), MotionMode::default());
    assert_eq!(MotionMode::default(), MotionMode::Auto);
}

#[test]
fn names_with_surrounding_space_or_other_scripts_are_unknown() {
    assert!(Theme::from_str_ci(" arrow").is_err());
    assert!(Theme::from_str_ci("DÖT").is_err());
    assert!(MotionMode::from_str_ci("auto ").is_err());
}
