use better_man_viewer::number::Number;
use better_man_viewer::settings::{
    loaded_settings, merge_settings, sanitized_settings, settings_file_name, ViewerSettings,
    ViewerSettingsPatch, WindowState, WindowStatePatch,
};

fn num(value: f64) -> Number {
    Number::from_bits(value.to_bits())
}

fn value(n: Number) -> f64 {
    f64::from_bits(n.to_bits())
}

fn no_patch() -> ViewerSettingsPatch {
    ViewerSettingsPatch {
        theme: None,
        font_scale: None,
        minimap_visible: None,
        last_search_mode: None,
        window_state: None,
    }
}

fn no_window_patch() -> WindowStatePatch {
    WindowStatePatch { width: None, height: None, x: None, y: None, maximized: None }
}

fn samples() -> Vec<f64> {
    vec![
        0.0, -0.0, 0.1, 0.5, 0.75, 0.7500000000000001, 0.7499999999999999, 1.0, 1.5, 2.25,
        2.2500000000000004, 5.0, 10.0, 100.0, 419.99, 420.0, 420.5, 639.0, 640.0, 640.25, 1280.0,
        -1.0, -640.0, -1e300, 1e300, 5e-324, -5e-324, f64::MIN_POSITIVE, f64::MAX, f64::MIN,
        f64::INFINITY, f64::NEG_INFINITY, f64::NAN, -f64::NAN,
    ]
}

#[test]
fn defaults() {
    let s = ViewerSettings::default();
    assert_eq!(s.theme, "dark");
    assert_eq!(value(s.font_scale), 1.0);
    assert!(s.minimap_visible);
    assert_eq!(s.last_search_mode, "find");
    assert_eq!(value(s.window_state.width), 1280.0);
    assert_eq!(value(s.window_state.height), 820.0);
    assert_eq!(s.window_state.x, None);
    assert_eq!(s.window_state.y, None);
    assert_eq!(s.window_state.maximized, None);
    assert_eq!(s.window_state, WindowState::default());
}

#[test]
fn sanitize_clamps_font_scale() {
    let mut s = ViewerSettings::default();
    s.font_scale = num(0.1);
    assert_eq!(value(sanitized_settings(s.clone()).font_scale), 0.75);
    s.font_scale = num(5.0);
    assert_eq!(value(sanitized_settings(s.clone()).font_scale), 2.25);
    s.font_scale = num(1.3);
    assert_eq!(value(sanitized_settings(s.clone()).font_scale), 1.3);
    s.font_scale = num(-3.0);
    assert_eq!(value(sanitized_settings(s).font_scale), 0.75);
}

#[test]
fn sanitize_raises_window_size() {
    let mut s = ViewerSettings::default();
    s.window_state.width = num(100.0);
    s.window_state.height = num(10.0);
    let r = sanitized_settings(s.clone());
    assert_eq!(value(r.window_state.width), 640.0);
    assert_eq!(value(r.window_state.height), 420.0);
    s.window_state.width = num(3000.0);
    s.window_state.height = num(2000.0);
    let r = sanitized_settings(s);
    assert_eq!(value(r.window_state.width), 3000.0);
    assert_eq!(value(r.window_state.height), 2000.0);
}

#[test]
fn sanitize_coerces_names() {
    let mut s = ViewerSettings::default();
    s.theme = "blue".to_string();
    s.last_search_mode = "x".to_string();
    let r = sanitized_settings(s.clone());
    assert_eq!(r.theme, "dark");
    assert_eq!(r.last_search_mode, "find");
    s.theme = "light".to_string();
    s.last_search_mode = "filter".to_string();
    let r = sanitized_settings(s.clone());
    assert_eq!(r.theme, "light");
    assert_eq!(r.last_search_mode, "filter");
    s.theme = "Light".to_string();
    s.last_search_mode = String::new();
    let r = sanitized_settings(s);
    assert_eq!(r.theme, "dark");
    assert_eq!(r.last_search_mode, "find");
}

#[test]
fn sanitize_passes_position_through() {
    let mut s = ViewerSettings::default();
    s.window_state.x = Some(num(-50000.0));
    s.window_state.y = Some(num(f64::INFINITY));
    s.window_state.maximized = Some(false);
    s.minimap_visible = false;
    let r = sanitized_settings(s.clone());
    assert_eq!(r, s);
}

#[test]
fn sanitize_is_idempotent_on_samples() {
    for a in samples() {
        for theme in ["dark", "light", "blue", ""] {
            let s = ViewerSettings {
                theme: theme.to_string(),
                font_scale: num(a),
                minimap_visible: false,
                last_search_mode: theme.to_string(),
                window_state: WindowState {
                    width: num(a),
                    height: num(-a),
                    x: Some(num(a)),
                    y: None,
                    maximized: Some(true),
                },
            };
            let once = sanitized_settings(s);
            let twice = sanitized_settings(once.clone());
            assert_eq!(once, twice);
            let scale = value(once.font_scale);
            assert!((0.75..=2.25).contains(&scale));
            assert!(value(once.window_state.width) >= 640.0);
            assert!(value(once.window_state.height) >= 420.0);
            if (0.75..=2.25).contains(&a) {
                assert_eq!(scale, a);
            }
        }
    }
}

#[test]
fn numbers_are_ordered_as_their_values() {
    for a in samples() {
        for b in samples() {
            assert_eq!(num(a).lt(num(b)), a < b, "{} < {}", a, b);
        }
        assert_eq!(num(a).not_a_number(), a.is_nan());
    }
}

#[test]
fn clamping_agrees_with_the_values() {
    for a in samples() {
        let clamped = value(num(a).clamp_to(num(0.75), num(2.25)));
        let expected = a.clamp(0.75, 2.25);
        assert_eq!(clamped.to_bits(), expected.to_bits(), "{}", a);
        let width = value(num(a).at_least(num(640.0)));
        assert_eq!(width.to_bits(), a.max(640.0).to_bits(), "{}", a);
        let height = value(num(a).at_least(num(420.0)));
        assert_eq!(height.to_bits(), a.max(420.0).to_bits(), "{}", a);
    }
}

#[test]
fn patch_of_font_scale_on_defaults() {
    let mut s = loaded_settings(None);
    let mut p = no_patch();
    p.font_scale = Some(num(1.5));
    merge_settings(&mut s, p);
    let mut expected = ViewerSettings::default();
    expected.font_scale = num(1.5);
    assert_eq!(s, expected);
    assert_eq!(loaded_settings(Some(s.clone())), s);
}

#[test]
fn empty_patch_changes_nothing() {
    let mut s = ViewerSettings::default();
    merge_settings(&mut s, no_patch());
    assert_eq!(s, ViewerSettings::default());
    let mut p = no_patch();
    p.window_state = Some(no_window_patch());
    merge_settings(&mut s, p);
    assert_eq!(s, ViewerSettings::default());
}

#[test]
fn patch_distinguishes_absent_from_false() {
    let mut s = ViewerSettings::default();
    let mut p = no_patch();
    p.minimap_visible = Some(false);
    let mut w = no_window_patch();
    w.maximized = Some(false);
    w.x = Some(num(0.0));
    p.window_state = Some(w);
    merge_settings(&mut s, p);
    assert!(!s.minimap_visible);
    assert_eq!(s.window_state.maximized, Some(false));
    assert_eq!(s.window_state.x, Some(num(0.0)));
    assert_eq!(s.window_state.y, None);
    merge_settings(&mut s, no_patch());
    assert!(!s.minimap_visible);
    assert_eq!(s.window_state.maximized, Some(false));
    assert_eq!(s.window_state.x, Some(num(0.0)));
}

#[test]
fn patch_values_are_brought_within_limits() {
    let mut s = ViewerSettings::default();
    let p = ViewerSettingsPatch {
        theme: Some("solarized".to_string()),
        font_scale: Some(num(9.0)),
        minimap_visible: None,
        last_search_mode: Some("filter".to_string()),
        window_state: Some(WindowStatePatch {
            width: Some(num(10.0)),
            height: Some(num(900.0)),
            x: None,
            y: Some(num(-12.5)),
            maximized: None,
        }),
    };
    merge_settings(&mut s, p);
    assert_eq!(s.theme, "dark");
    assert_eq!(value(s.font_scale), 2.25);
    assert!(s.minimap_visible);
    assert_eq!(s.last_search_mode, "filter");
    assert_eq!(value(s.window_state.width), 640.0);
    assert_eq!(value(s.window_state.height), 900.0);
    assert_eq!(s.window_state.x, None);
    assert_eq!(s.window_state.y, Some(num(-12.5)));
    assert_eq!(s.window_state.maximized, None);
}

#[test]
fn patch_of_theme() {
    let mut s = ViewerSettings::default();
    let mut p = no_patch();
    p.theme = Some("light".to_string());
    merge_settings(&mut s, p);
    assert_eq!(s.theme, "light");
    assert_eq!(s.last_search_mode, "find");
}

#[test]
fn patch_sanitizes_what_it_does_not_touch() {
    let mut s = ViewerSettings::default();
    s.theme = "blue".to_string();
    s.window_state.width = num(1.0);
    merge_settings(&mut s, no_patch());
    assert_eq!(s.theme, "dark");
    assert_eq!(value(s.window_state.width), 640.0);
}

#[test]
fn missing_or_unreadable_file_gives_defaults() {
    assert_eq!(loaded_settings(None), ViewerSettings::default());
}

#[test]
fn loaded_settings_are_sanitized() {
    let mut s = ViewerSettings::default();
    s.font_scale = num(0.1);
    s.theme = "blue".to_string();
    let r = loaded_settings(Some(s));
    assert_eq!(value(r.font_scale), 0.75);
    assert_eq!(r.theme, "dark");
}

#[test]
fn not_a_number() {
    let mut s = ViewerSettings::default();
    s.font_scale = num(f64::NAN);
    s.window_state.width = num(f64::NAN);
    let r = sanitized_settings(s);
    assert_eq!(value(r.font_scale), 0.75);
    assert_eq!(value(r.window_state.width), 640.0);
    let mut p = no_patch();
    p.font_scale = Some(num(f64::NAN));
    let mut current = ViewerSettings::default();
    merge_settings(&mut current, p);
    assert_eq!(value(current.font_scale), 0.75);
}

#[test]
fn file_name() {
    assert_eq!(settings_file_name(), "viewer-settings.json");
}
