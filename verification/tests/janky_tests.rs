use stache_tiling::borders::janky::{
    CommandCache, apply_config, border_color_to_janky, border_config_args, clear_cache, filter_changed_args, hex_to_janky,
    refresh, rgba_to_hex, set_active_color, update_colors_for_state, set_ax_focus, set_background_color, set_blacklist,
    set_hidpi, set_inactive_color, set_order, set_style, set_whitelist,
};
use stache_tiling::config::{BorderColor, Rgba, parse_hex_color};

#[test]
fn test_rgba_to_hex_opaque_red() {
    let rgba = Rgba { r: 255, g: 0, b: 0, a: 255 };
    assert_eq!(rgba_to_hex(&rgba), "0xFFFF0000");
}

#[test]
fn test_rgba_to_hex_transparent_green() {
    // Alpha 0.5 is the channel value 128.
    let rgba = Rgba { r: 0, g: 255, b: 0, a: 128 };
    assert_eq!(rgba_to_hex(&rgba), "0x8000FF00");
}

#[test]
fn test_rgba_to_hex_opaque_blue() {
    let rgba = Rgba { r: 0, g: 0, b: 255, a: 255 };
    assert_eq!(rgba_to_hex(&rgba), "0xFF0000FF");
}

#[test]
fn test_hex_to_janky_valid() {
    assert_eq!(hex_to_janky("#FF0000"), Some("0xFFFF0000".to_string()));
    assert_eq!(hex_to_janky("#00FF00"), Some("0xFF00FF00".to_string()));
    assert_eq!(hex_to_janky("#0000FF"), Some("0xFF0000FF".to_string()));
}

#[test]
fn test_hex_to_janky_with_alpha() {
    assert_eq!(hex_to_janky("#80FF0000"), Some("0x0080FF00".to_string()));
    assert_eq!(hex_to_janky("#FF000080"), Some("0x80FF0000".to_string()));
}

#[test]
fn test_hex_to_janky_invalid() {
    assert_eq!(hex_to_janky("invalid"), None);
    assert_eq!(hex_to_janky(""), None);
}

#[test]
fn test_hex_to_janky_short_format() {
    assert_eq!(hex_to_janky("#F00"), Some("0xFFFF0000".to_string()));
}

#[test]
fn test_border_color_to_janky_solid() {
    let color = BorderColor::Solid("#FF0000".to_string());
    assert_eq!(border_color_to_janky(&color), Some("0xFFFF0000".to_string()));
}

#[test]
fn test_border_color_to_janky_gradient_default_angle() {
    let color = BorderColor::Gradient {
        from: "#FF0000".to_string(),
        to: "#0000FF".to_string(),
        angle: None,
    };
    assert_eq!(
        border_color_to_janky(&color),
        Some("gradient(top_left=0xFFFF0000,bottom_right=0xFF0000FF)".to_string())
    );
}

#[test]
fn test_border_color_to_janky_gradient_45_degrees() {
    let color = BorderColor::Gradient {
        from: "#FF0000".to_string(),
        to: "#0000FF".to_string(),
        angle: Some(45),
    };
    assert_eq!(
        border_color_to_janky(&color),
        Some("gradient(top_right=0xFFFF0000,bottom_left=0xFF0000FF)".to_string())
    );
}

#[test]
fn test_border_color_to_janky_glow() {
    let color = BorderColor::Glow("#89b4fa".to_string());
    let result = border_color_to_janky(&color);
    assert!(result.is_some());
    assert!(result.unwrap().starts_with("glow("));
}

#[test]
fn test_filter_changed_args_all_new() {
    let mut cache = CommandCache::new();
    let args = &["active_color=0xFFFF0000", "width=6.0"];
    let changed = filter_changed_args(&mut cache, args);
    assert_eq!(changed.len(), 2);
    assert!(changed.contains(&"active_color=0xFFFF0000"));
    assert!(changed.contains(&"width=6.0"));
}

#[test]
fn test_filter_changed_args_duplicate() {
    let mut cache = CommandCache::new();
    let args = &["active_color=0xFFFF0000"];
    let changed1 = filter_changed_args(&mut cache, args);
    assert_eq!(changed1.len(), 1);
    let changed2 = filter_changed_args(&mut cache, args);
    assert!(changed2.is_empty());
}

#[test]
fn test_filter_changed_args_value_changed() {
    let mut cache = CommandCache::new();
    let args1 = &["active_color=0xFFFF0000"];
    let changed1 = filter_changed_args(&mut cache, args1);
    assert_eq!(changed1.len(), 1);
    let args2 = &["active_color=0xFF00FF00"];
    let changed2 = filter_changed_args(&mut cache, args2);
    assert_eq!(changed2.len(), 1);
    assert!(changed2.contains(&"active_color=0xFF00FF00"));
}

#[test]
fn test_filter_changed_args_partial_change() {
    let mut cache = CommandCache::new();
    let args1 = &["active_color=0xFFFF0000", "width=6.0"];
    let changed1 = filter_changed_args(&mut cache, args1);
    assert_eq!(changed1.len(), 2);
    let args2 = &["active_color=0xFFFF0000", "width=8.0"];
    let changed2 = filter_changed_args(&mut cache, args2);
    assert_eq!(changed2.len(), 1);
    assert!(changed2.contains(&"width=8.0"));
}

#[test]
fn test_clear_cache() {
    let mut cache = CommandCache::new();
    clear_cache(&mut cache);
    let args = &["active_color=0xFFFF0000"];
    filter_changed_args(&mut cache, args);
    clear_cache(&mut cache);
    let changed = filter_changed_args(&mut cache, args);
    assert_eq!(changed.len(), 1);
}

#[test]
fn filter_keeps_arguments_without_key() {
    let mut cache = CommandCache::new();
    let args = &["hidpi", "hidpi"];
    let changed = filter_changed_args(&mut cache, args);
    assert_eq!(changed, vec!["hidpi", "hidpi"]);
}

#[test]
fn filter_keys_on_text_before_first_equals() {
    let mut cache = CommandCache::new();
    assert_eq!(filter_changed_args(&mut cache, &["a=b=c"]), vec!["a=b=c"]);
    assert!(filter_changed_args(&mut cache, &["a=b=c"]).is_empty());
    assert_eq!(filter_changed_args(&mut cache, &["a=b=d"]), vec!["a=b=d"]);
    // The same argument twice in one batch is sent once.
    let mut fresh = CommandCache::new();
    assert_eq!(filter_changed_args(&mut fresh, &["x=1", "x=1"]), vec!["x=1"]);
}

#[test]
fn setters_build_their_arguments() {
    let mut cache = CommandCache::new();
    assert_eq!(set_active_color(&mut cache, "0xFFFF0000"), vec!["active_color=0xFFFF0000".to_string()]);
    assert!(set_active_color(&mut cache, "0xFFFF0000").is_empty());
    assert_eq!(set_inactive_color(&mut cache, "0x00000000"), vec!["inactive_color=0x00000000".to_string()]);
    assert_eq!(set_background_color(&mut cache, "0x11223344"), vec!["background_color=0x11223344".to_string()]);
    assert_eq!(set_style(&mut cache, 'r'), vec!["style=r".to_string()]);
    assert_eq!(set_style(&mut cache, 's'), vec!["style=s".to_string()]);
    assert_eq!(set_order(&mut cache, true), vec!["order=a".to_string()]);
    assert_eq!(set_order(&mut cache, false), vec!["order=b".to_string()]);
    assert_eq!(set_hidpi(&mut cache, true), vec!["hidpi=on".to_string()]);
    assert_eq!(set_hidpi(&mut cache, false), vec!["hidpi=off".to_string()]);
    assert_eq!(set_ax_focus(&mut cache, true), vec!["ax_focus=on".to_string()]);
    assert_eq!(set_ax_focus(&mut cache, false), vec!["ax_focus=off".to_string()]);
    assert_eq!(set_blacklist(&mut cache, "Finder,Dock"), vec!["blacklist=Finder,Dock".to_string()]);
    assert_eq!(set_whitelist(&mut cache, "Safari"), vec!["whitelist=Safari".to_string()]);
    assert!(set_whitelist(&mut cache, "Safari").is_empty());
    refresh(&mut cache, None, None, None, None, None);
    assert_eq!(set_whitelist(&mut cache, "Safari"), vec!["whitelist=Safari".to_string()]);
}

#[test]
fn gradient_direction_by_angle() {
    let make = |angle: Option<i64>| BorderColor::Gradient {
        from: "#000".to_string(),
        to: "#FFF".to_string(),
        angle,
    };
    let tr = "gradient(top_right=0xFF000000,bottom_left=0xFFFFFFFF)".to_string();
    let tl = "gradient(top_left=0xFF000000,bottom_right=0xFFFFFFFF)".to_string();
    assert_eq!(border_color_to_janky(&make(Some(0))), Some(tr.clone()));
    assert_eq!(border_color_to_janky(&make(Some(90))), Some(tl.clone()));
    assert_eq!(border_color_to_janky(&make(Some(225))), Some(tr.clone()));
    assert_eq!(border_color_to_janky(&make(Some(315))), Some(tl.clone()));
    assert_eq!(border_color_to_janky(&make(Some(405))), Some(tr.clone()));
    assert_eq!(border_color_to_janky(&make(Some(-45))), Some(tl.clone()));
    assert_eq!(border_color_to_janky(&make(Some(-135))), Some(tr.clone()));
    assert_eq!(border_color_to_janky(&make(Some(i64::MIN))), Some(tl.clone()));
}

#[test]
fn border_colors_with_bad_hex_are_rejected() {
    assert_eq!(border_color_to_janky(&BorderColor::Solid("#12".to_string())), None);
    assert_eq!(border_color_to_janky(&BorderColor::Glow("nope".to_string())), None);
    let g = BorderColor::Gradient { from: "#FFF".to_string(), to: "#GGG".to_string(), angle: None };
    assert_eq!(border_color_to_janky(&g), None);
    assert_eq!(
        border_color_to_janky(&BorderColor::Glow("#89b4fa".to_string())),
        Some("glow(0xFF89B4FA)".to_string())
    );
}

#[test]
fn hex_colors_parse_in_every_form() {
    assert_eq!(parse_hex_color("#ABC"), Some(Rgba { r: 0xAA, g: 0xBB, b: 0xCC, a: 255 }));
    assert_eq!(parse_hex_color("abc"), Some(Rgba { r: 0xAA, g: 0xBB, b: 0xCC, a: 255 }));
    assert_eq!(parse_hex_color("#aabbcc"), parse_hex_color("#ABC"));
    assert_eq!(parse_hex_color("#01020304"), Some(Rgba { r: 1, g: 2, b: 3, a: 4 }));
    assert_eq!(parse_hex_color("#12345"), None);
    assert_eq!(parse_hex_color("#"), None);
    assert_eq!(parse_hex_color("##FFF"), None);
    assert_eq!(parse_hex_color("#ÿÿÿ"), None);
}

#[test]
fn border_config_args_use_defaults_and_given_values() {
    assert_eq!(
        border_config_args(None, None, None, None, None),
        vec!["width=4".to_string(), "style=r".to_string(), "hidpi=on".to_string()]
    );
    assert_eq!(
        border_config_args(Some(6), Some("square"), Some(false), Some("0xffff0000"), None),
        vec![
            "width=6".to_string(),
            "style=s".to_string(),
            "hidpi=off".to_string(),
            "active_color=0xffff0000".to_string(),
        ]
    );
    assert_eq!(
        border_config_args(Some(0), Some("round"), Some(true), None, Some("0x00000000")),
        vec![
            "width=0".to_string(),
            "style=r".to_string(),
            "hidpi=on".to_string(),
            "inactive_color=0x00000000".to_string(),
        ]
    );
}

#[test]
fn applying_a_configuration_sends_what_changed_and_refresh_sends_all() {
    let mut cache = CommandCache::new();
    let all = vec![
        "width=6".to_string(),
        "style=s".to_string(),
        "hidpi=on".to_string(),
        "active_color=0xFF89B4FA".to_string(),
        "inactive_color=0x00000000".to_string(),
    ];
    let first = apply_config(&mut cache, Some(6), Some("square"), None, Some("0xFF89B4FA"), Some("0x00000000"));
    assert_eq!(first, all);
    let again = apply_config(&mut cache, Some(6), Some("square"), None, Some("0xFF89B4FA"), Some("0x00000000"));
    assert!(again.is_empty());
    let wider = apply_config(&mut cache, Some(8), Some("square"), None, Some("0xFF89B4FA"), Some("0x00000000"));
    assert_eq!(wider, vec!["width=8".to_string()]);
    let refreshed = refresh(&mut cache, Some(6), Some("square"), None, Some("0xFF89B4FA"), Some("0x00000000"));
    assert_eq!(refreshed, all);
    assert!(set_style(&mut cache, 's').is_empty());
}

#[test]
fn the_active_color_follows_the_layout_state() {
    let focused = BorderColor::Solid("#89b4fa".to_string());
    let monocle = BorderColor::Glow("#f38ba8".to_string());
    let broken = BorderColor::Solid("#12".to_string());
    let mut cache = CommandCache::new();
    assert_eq!(
        update_colors_for_state(&mut cache, false, false, Some(&focused), Some(&monocle), None),
        vec!["active_color=0xFF89B4FA".to_string()]
    );
    assert_eq!(
        update_colors_for_state(&mut cache, true, false, Some(&focused), Some(&monocle), None),
        vec!["active_color=glow(0xFFF38BA8)".to_string()]
    );
    assert!(update_colors_for_state(&mut cache, false, true, Some(&focused), Some(&monocle), None).is_empty());
    assert!(update_colors_for_state(&mut cache, false, true, Some(&focused), None, Some(&broken)).is_empty());
    assert!(update_colors_for_state(&mut cache, true, false, Some(&focused), Some(&monocle), None).is_empty());
}

#[test]
fn cached_color_survives_other_settings() {
    let mut cache = CommandCache::new();
    assert_eq!(set_active_color(&mut cache, "0xFFFF0000"), vec!["active_color=0xFFFF0000".to_string()]);
    assert_eq!(set_inactive_color(&mut cache, "0x00000000"), vec!["inactive_color=0x00000000".to_string()]);
    assert_eq!(set_style(&mut cache, 'r'), vec!["style=r".to_string()]);
    assert_eq!(set_hidpi(&mut cache, true), vec!["hidpi=on".to_string()]);
    assert!(set_active_color(&mut cache, "0xFFFF0000").is_empty());
    assert_eq!(set_active_color(&mut cache, "0xFF00FF00"), vec!["active_color=0xFF00FF00".to_string()]);
}

#[test]
fn gradient_angle_rounded_down_keeps_direction() {
    let just_below_quarter = BorderColor::Gradient {
        from: "#FF0000".to_string(),
        to: "#0000FF".to_string(),
        angle: Some(89),
    };
    assert_eq!(
        border_color_to_janky(&just_below_quarter),
        Some("gradient(top_right=0xFFFF0000,bottom_left=0xFF0000FF)".to_string())
    );
    let just_below_zero = BorderColor::Gradient {
        from: "#FF0000".to_string(),
        to: "#0000FF".to_string(),
        angle: Some(-1),
    };
    assert_eq!(
        border_color_to_janky(&just_below_zero),
        Some("gradient(top_left=0xFFFF0000,bottom_right=0xFF0000FF)".to_string())
    );
}
