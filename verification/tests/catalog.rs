use rom_browser_scripts::appearance::{
    color_name, is_bare_color_path, default_colors, default_fonts, default_game_list, parse_bool, parse_config_path, parse_u32,
    ConfigKey, DEFAULT_THEME,
};
use rom_browser_scripts::catalog::{
    get_game_name_suffixes, get_platform_mappings, NAME_SUFFIXES, PLATFORM_CODES,
};

#[test]
fn platform_codes_are_found_by_name() {
    let platforms = get_platform_mappings();
    assert_eq!(platforms.len(), 103);
    assert_eq!(platforms.code_of("Nintendo - Nintendo Entertainment System").map(|s| s.as_str()), Some("NES"));
    assert_eq!(platforms.code_of("Sony - PlayStation 2").map(|s| s.as_str()), Some("PS2"));
    assert_eq!(platforms.code_of("Sega - Mega Drive - Genesis").map(|s| s.as_str()), Some("MD"));
    assert_eq!(platforms.code_of("Microsoft - Xbox Series X|S").map(|s| s.as_str()), Some("XSX"));
    assert_eq!(platforms.code_of("NEC - PC Engine CD - TurboGrafx-CD").map(|s| s.as_str()), Some("PCE-CD"));
    assert_eq!(platforms.code_of("IBM - PC Other").map(|s| s.as_str()), Some("OTHER"));
    assert_eq!(platforms.code_of("IBM - PC Adults Only 18+").map(|s| s.as_str()), Some("AO18+"));
    assert!(platforms.code_of("Sony - PlayStation 6").is_none());
    assert!(platforms.code_of("sony - playstation 2").is_none());
    assert!(platforms.code_of("").is_none());
}

#[test]
fn every_row_of_the_catalog_is_in_the_mapping() {
    let platforms = get_platform_mappings();
    for (name, code) in PLATFORM_CODES {
        assert_eq!(platforms.code_of(name).map(|s| s.as_str()), Some(code));
    }
}

#[test]
fn title_noise_in_order() {
    let suffixes = get_game_name_suffixes();
    assert_eq!(suffixes.len(), 30);
    assert_eq!(suffixes, NAME_SUFFIXES.to_vec());
    assert_eq!(suffixes[0], " (ModEngine)");
    assert_eq!(suffixes[7], " (Mod - Eldenring)");
    assert_eq!(suffixes[23], " (Atari2600)");
    assert_eq!(&suffixes[24..], &["Launch ", " - ", ":", ";", "!", "?"]);
}

#[test]
fn config_paths_address_settings() {
    assert!(matches!(parse_config_path("appearance.theme"), Some(ConfigKey::Theme)));
    match parse_config_path("appearance.colors.accent") {
        Some(ConfigKey::Color(name)) => assert_eq!(name, "accent"),
        other => panic!("unexpected: {:?}", other),
    }
    match parse_config_path("appearance.colors.") {
        Some(ConfigKey::Color(name)) => assert_eq!(name, ""),
        other => panic!("unexpected: {:?}", other),
    }
    assert!(matches!(
        parse_config_path("behavior.auto_refresh_ratings"),
        Some(ConfigKey::AutoRefreshRatings)
    ));
    assert!(matches!(
        parse_config_path("behavior.confirm_rating_changes"),
        Some(ConfigKey::ConfirmRatingChanges)
    ));
    assert!(matches!(parse_config_path("behavior.rating_precision"), Some(ConfigKey::RatingPrecision)));
    assert!(matches!(parse_config_path("behavior.default_rating"), Some(ConfigKey::DefaultRating)));
    assert!(matches!(parse_config_path("behavior.rating_range.min"), Some(ConfigKey::RatingRangeMin)));
    assert!(matches!(parse_config_path("behavior.rating_range.max"), Some(ConfigKey::RatingRangeMax)));
}

#[test]
fn other_config_paths_address_nothing() {
    for path in [
        "",
        "appearance",
        "appearance.theme.dark",
        "appearance.colors",
        "appearance.colors.a.b",
        "appearance.fonts.default",
        "behavior.rating_range",
        "behavior.rating_range.mid",
        "behavior.unknown",
        "Behavior.default_rating",
        ".appearance.theme",
        "appearance..theme",
    ] {
        assert!(parse_config_path(path).is_none(), "path {:?}", path);
    }
}

#[test]
fn color_paths_name_colors() {
    assert_eq!(color_name("appearance.colors.accent"), Some("accent".to_string()));
    assert_eq!(color_name("appearance.colors.accent.more"), Some("accent".to_string()));
    assert_eq!(color_name("appearance.colors."), Some(String::new()));
    assert_eq!(color_name("appearance.theme"), None);
    assert_eq!(color_name("appearance"), None);
    assert_eq!(color_name("colors.appearance.x"), None);
    assert_eq!(color_name(""), None);
    assert!(is_bare_color_path("appearance.colors"));
    assert!(!is_bare_color_path("appearance.colors.accent"));
    assert!(!is_bare_color_path("appearance.theme"));
    assert!(!is_bare_color_path("appearance"));
}

#[test]
fn values_are_read_as_written() {
    assert_eq!(parse_bool("true"), Some(true));
    assert_eq!(parse_bool("false"), Some(false));
    for value in ["", "True", "1", " true", "yes"] {
        assert_eq!(parse_bool(value), None);
        assert_eq!(parse_bool(value), value.parse::<bool>().ok());
    }
    for value in ["0", "7", "+7", "007", "4294967295", "4294967296", "-1", "", " 1", "1e3"] {
        assert_eq!(parse_u32(value), value.parse::<u32>().ok(), "value {:?}", value);
    }
    assert_eq!(parse_u32("4294967295"), Some(u32::MAX));
    assert_eq!(parse_u32("4294967296"), None);
}

#[test]
fn default_looks() {
    assert_eq!(DEFAULT_THEME, "dark");
    let colors = default_colors();
    assert_eq!(colors.len(), 12);
    assert_eq!(colors[0], ("background".to_string(), "#1e1e1e".to_string()));
    assert_eq!(colors[5], ("accent_hover".to_string(), "#106ebe".to_string()));
    assert_eq!(colors[11], ("selection_background".to_string(), "#1a4a6b".to_string()));
    let fonts = default_fonts();
    let got: Vec<(&str, &str, u32, &str)> = fonts
        .iter()
        .map(|(name, font)| (name.as_str(), font.family.as_str(), font.size, font.weight.as_str()))
        .collect();
    assert_eq!(
        got,
        vec![
            ("default", "Segoe UI", 9, "normal"),
            ("heading", "Segoe UI", 10, "bold"),
            ("small", "Segoe UI", 8, "normal"),
            ("large", "Segoe UI", 12, "normal"),
        ]
    );
    let list = default_game_list();
    assert_eq!(list.row_height, 20);
    assert!(list.alternating_colors);
    assert_eq!(list.alternating_color, "#252525");
    assert_eq!(list.hover_color, "#3a3a3a");
    assert_eq!(list.selected_color, "#0078d4");
    assert_eq!(list.rating_color, "#b0b0b0");
    assert_eq!(list.custom_rating_color, "#ffd700");
    assert_eq!(list.favorite_color, "#ffd700");
}
