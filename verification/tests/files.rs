use rom_browser_scripts::files::{
    cover_download_url, has_safe_filename, safe_filename, shortcut_game_name, COVER_HOST,
    MAX_NAME_BYTES,
};

#[test]
fn forbidden_characters_become_underscores() {
    assert_eq!(safe_filename(r#"a<b>c:d"e/f\g|h?i*j"#), "a_b_c_d_e_f_g_h_i_j");
    assert_eq!(safe_filename("Halo: Combat Evolved"), "Halo_ Combat Evolved");
    assert_eq!(safe_filename("plain name.ext"), "plain name.ext");
    assert_eq!(safe_filename(""), "");
}

#[test]
fn long_names_are_cut_to_the_limit() {
    let long = "x".repeat(150);
    assert!(has_safe_filename(&long));
    assert_eq!(safe_filename(&long), "x".repeat(100));
    let exact = "y".repeat(100);
    assert_eq!(safe_filename(&exact), exact);
    let mixed = format!("{}{}", "é".repeat(50), "z".repeat(10));
    assert!(has_safe_filename(&mixed));
    assert_eq!(safe_filename(&mixed), "é".repeat(50));
    assert_eq!(MAX_NAME_BYTES, 100);
}

#[test]
fn safe_names_agree_with_truncation_by_bytes() {
    let samples = ["short".to_string(), "a/b".repeat(40), format!("{}é", "q".repeat(98)), "日本".repeat(16)];
    for name in samples {
        assert!(has_safe_filename(&name));
        let mut expected = name.clone();
        for c in ['<', '>', ':', '"', '/', '\\', '|', '?', '*'] {
            expected = expected.replace(c, "_");
        }
        if expected.len() > 100 {
            expected.truncate(100);
        }
        assert_eq!(safe_filename(&name), expected);
    }
}

#[test]
fn names_that_cannot_be_cut_between_characters_are_told_apart() {
    let split = format!("{}é", "q".repeat(99));
    assert!(!has_safe_filename(&split));
    let wide = "日".repeat(34);
    assert!(!has_safe_filename(&wide));
    let fits = "日".repeat(33);
    assert!(has_safe_filename(&fits));
    assert_eq!(safe_filename(&fits), fits);
}

#[test]
fn cover_addresses_are_made_absolute() {
    assert_eq!(cover_download_url(""), None);
    assert_eq!(
        cover_download_url("//cdn.example.org/a.jpg"),
        Some("https://cdn.example.org/a.jpg".to_string())
    );
    assert_eq!(
        cover_download_url("/medias/a.jpg"),
        Some("https://www.screenscraper.fr/medias/a.jpg".to_string())
    );
    assert_eq!(
        cover_download_url("medias/a.jpg"),
        Some("https://www.screenscraper.frmedias/a.jpg".to_string())
    );
    assert_eq!(
        cover_download_url("https://example.org/a.jpg"),
        Some("https://example.org/a.jpg".to_string())
    );
    assert_eq!(
        cover_download_url("http://example.org/a.jpg"),
        Some("http://example.org/a.jpg".to_string())
    );
    assert_eq!(COVER_HOST, "https://www.screenscraper.fr");
}

#[test]
fn shortcuts_name_games() {
    assert_eq!(shortcut_game_name("Elden Ring (ModEngine).lnk"), Some("Elden Ring".to_string()));
    assert_eq!(shortcut_game_name("Halo.lnk"), Some("Halo".to_string()));
    assert_eq!(shortcut_game_name("a.b.lnk"), Some("a.b".to_string()));
    assert_eq!(shortcut_game_name(".hidden.lnk"), Some(".hidden".to_string()));
    assert_eq!(shortcut_game_name("  Doom (PS2) .lnk"), Some("Doom".to_string()));
}

#[test]
fn other_files_name_no_game() {
    for name in ["Halo.exe", "Halo", "Halo.LNK", ".lnk", "lnk", "Halo.lnk.bak", "Halo.", ""] {
        assert_eq!(shortcut_game_name(name), None, "file {:?}", name);
    }
}

#[test]
fn shortcut_names_agree_with_the_standard_path_functions() {
    let samples = ["a.lnk", ".lnk", "a.b.lnk", "a.", "a", ".a.lnk", "..lnk", "a..lnk", "x.lnk.lnk"];
    for name in samples {
        let path = std::path::Path::new(name);
        let expected = if path.extension().and_then(|s| s.to_str()) == Some("lnk") {
            path.file_stem().and_then(|s| s.to_str()).map(|s| s.trim().to_string())
        } else {
            None
        };
        assert_eq!(shortcut_game_name(name), expected, "file {:?}", name);
    }
}
