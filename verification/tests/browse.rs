use rom_browser_scripts::browse::{
    browse_listing, browse_url, entries_of, get_platforms, locate_platform, platforms_of,
    resolve_platform, search_dataset, search_matches, BrowseError, BrowseTarget, FILES_URL,
    NO_INTRO_URL, REDUMP_URL, SEARCH_ROOTS,
};
use rom_browser_scripts::catalog::dataset_of_name;
use rom_browser_scripts::listing::{parse_items_from_index, PatternError};
use rom_browser_scripts::model::{Dataset, PlatformInfo};

const TOP: &str = r#"<a href="../">Up</a>
<a href="Sony%20-%20PlayStation%202%20%28Redump%29/">Sony - PlayStation 2 (Redump)/</a>
<a href="Nintendo%20-%20NES%20%28No-Intro%29/">Nintendo - NES (No-Intro)/</a>
<a href="Misc/">Misc/</a>
<a href="readme.zip">readme.zip</a>"#;

fn ok(text: &str) -> Result<String, String> {
    Ok(text.to_string())
}

#[test]
fn dataset_tagging_examples() {
    assert_eq!(dataset_of_name("Sony - PlayStation 2 (Redump)"), Dataset::Redump);
    assert_eq!(dataset_of_name("Nintendo - NES (No-Intro)"), Dataset::NoIntro);
    assert_eq!(dataset_of_name("Misc"), Dataset::Unknown);
}

#[test]
fn dataset_tagging_ignores_letter_case_and_prefers_redump() {
    assert_eq!(dataset_of_name("REDUMP"), Dataset::Redump);
    assert_eq!(dataset_of_name("x NO-INTRO y"), Dataset::NoIntro);
    assert_eq!(dataset_of_name("No-Intro and Redump"), Dataset::Redump);
    assert_eq!(dataset_of_name("No Intro"), Dataset::Unknown);
    assert_eq!(dataset_of_name(""), Dataset::Unknown);
}

#[test]
fn dataset_names_are_the_exported_ones() {
    assert_eq!(Dataset::Redump.as_str(), "redump");
    assert_eq!(Dataset::NoIntro.as_str(), "no-intro");
    assert_eq!(Dataset::Unknown.as_str(), "unknown");
}

#[test]
fn platforms_are_the_directories_of_the_index() {
    let platforms = get_platforms(ok(TOP)).unwrap();
    let got: Vec<(&str, &str, Dataset)> =
        platforms.iter().map(|p| (p.id.as_str(), p.name.as_str(), p.dataset)).collect();
    assert_eq!(
        got,
        vec![
            (
                "Sony%20-%20PlayStation%202%20%28Redump%29",
                "Sony - PlayStation 2 (Redump)",
                Dataset::Redump
            ),
            ("Nintendo%20-%20NES%20%28No-Intro%29", "Nintendo - NES (No-Intro)", Dataset::NoIntro),
            ("Misc", "Misc", Dataset::Unknown),
        ]
    );
}

#[test]
fn platforms_of_skips_files() {
    let items = parse_items_from_index(r#"<a href="a.zip">a</a>"#).unwrap();
    assert!(platforms_of(&items).is_empty());
}

#[test]
fn failed_fetch_is_a_transport_error() {
    let failed: Result<String, String> = Err("connection refused".to_string());
    match get_platforms(failed.clone()) {
        Err(BrowseError::Transport(m)) => assert_eq!(m, "connection refused"),
        other => panic!("unexpected: {:?}", other),
    }
    match locate_platform(failed.clone(), "Misc", None) {
        Err(BrowseError::Transport(m)) => assert_eq!(m, "connection refused"),
        other => panic!("unexpected: {:?}", other),
    }
    let target = BrowseTarget { platform_name: "Misc".to_string(), url: "u/".to_string() };
    match browse_listing(failed.clone(), &target) {
        Err(BrowseError::Transport(m)) => assert_eq!(m, "connection refused"),
        other => panic!("unexpected: {:?}", other),
    }
    match search_dataset(failed, "x", Dataset::Redump, Vec::new()) {
        Err(BrowseError::Transport(m)) => assert_eq!(m, "connection refused"),
        other => panic!("unexpected: {:?}", other),
    }
}

#[test]
fn unresolvable_platform_is_not_found() {
    match locate_platform(ok(TOP), "Sega - Saturn", None) {
        Err(BrowseError::PlatformNotFound(id)) => assert_eq!(id, "Sega - Saturn"),
        other => panic!("unexpected: {:?}", other),
    }
    match locate_platform(ok(""), "Misc", None) {
        Err(BrowseError::PlatformNotFound(id)) => assert_eq!(id, "Misc"),
        other => panic!("unexpected: {:?}", other),
    }
    match locate_platform(ok(TOP), "readme.zip", None) {
        Err(BrowseError::PlatformNotFound(id)) => assert_eq!(id, "readme.zip"),
        other => panic!("unexpected: {:?}", other),
    }
}

#[test]
fn error_messages() {
    assert_eq!(
        BrowseError::PlatformNotFound("Sega".to_string()).message(),
        "Platform not found: Sega"
    );
    assert_eq!(BrowseError::Transport("timed out".to_string()).message(), "timed out");
    let refused = PatternError { pattern: "(".to_string(), message: "unclosed group".to_string() };
    assert_eq!(BrowseError::Pattern(refused).message(), "Failed to create regex: unclosed group");
}

#[test]
fn failed_second_fetch_gives_up_the_whole_search() {
    let redump = r#"<a href="Sony%20-%20PlayStation%202/">x</a>"#;
    let found = search_dataset(ok(redump), "sony", Dataset::Redump, Vec::new()).unwrap();
    assert_eq!(found.len(), 1);
    let failed: Result<String, String> = Err("HTTP status server error (503)".to_string());
    match search_dataset(failed, "sony", Dataset::NoIntro, found) {
        Err(BrowseError::Transport(m)) => assert_eq!(m, "HTTP status server error (503)"),
        other => panic!("unexpected: {:?}", other),
    }
}

#[test]
fn platform_is_resolved_by_id_or_by_name() {
    let by_id = locate_platform(ok(TOP), "Sony%20-%20PlayStation%202%20%28Redump%29", None).unwrap();
    let by_name = locate_platform(ok(TOP), "Sony - PlayStation 2 (Redump)", None).unwrap();
    for target in [by_id, by_name] {
        assert_eq!(target.platform_name, "Sony - PlayStation 2 (Redump)");
        assert_eq!(
            target.url,
            "https://myrient.erista.me/files/Sony%20-%20PlayStation%202%20%28Redump%29/"
        );
    }
}

#[test]
fn path_is_appended_with_a_slash() {
    let target = locate_platform(ok(TOP), "Misc", Some("A/B")).unwrap();
    assert_eq!(target.url, "https://myrient.erista.me/files/Misc/A/B/");
    assert_eq!(browse_url("http://h/p/", Some("sub")), "http://h/p/sub/");
    assert_eq!(browse_url("http://h/p/", Some("")), "http://h/p//");
    assert_eq!(browse_url("http://h/p/", None), "http://h/p/");
}

#[test]
fn first_matching_directory_wins() {
    let items = parse_items_from_index(
        r#"<a href="x.zip">x</a><a href="A%20B/">1</a><a href="A B/">2</a><a href="C/">3</a>"#,
    )
    .unwrap();
    assert_eq!(resolve_platform(&items, "A B"), Some(0));
    assert_eq!(resolve_platform(&items, "A%20B"), Some(0));
    assert_eq!(resolve_platform(&items, "C"), Some(2));
    assert_eq!(resolve_platform(&items, "x.zip"), None);
    assert_eq!(resolve_platform(&items, "D"), None);
}

#[test]
fn browse_entries_carry_url_or_path() {
    let target = BrowseTarget {
        platform_name: "Misc".to_string(),
        url: "https://myrient.erista.me/files/Misc/".to_string(),
    };
    let page = r#"<a href="Sub%20Dir/">Sub Dir/</a><a href="Halo%20%28USA%29.zip">Halo</a>"#;
    let entries = browse_listing(ok(page), &target).unwrap();
    assert_eq!(entries.len(), 2);
    assert_eq!(entries[0].name, "Sub Dir");
    assert_eq!(entries[0].platform, "Misc");
    assert_eq!(entries[0].size, None);
    assert_eq!(entries[0].url, None);
    assert!(entries[0].is_directory);
    assert_eq!(entries[0].path, Some("Sub%20Dir/".to_string()));
    assert_eq!(entries[1].name, "Halo (USA).zip");
    assert_eq!(entries[1].platform, "Misc");
    assert_eq!(
        entries[1].url,
        Some("https://myrient.erista.me/files/Misc/Halo%20%28USA%29.zip".to_string())
    );
    assert!(!entries[1].is_directory);
    assert_eq!(entries[1].path, None);
    let items = parse_items_from_index(page).unwrap();
    assert_eq!(entries_of(&items, &target).len(), 2);
}

#[test]
fn search_keeps_directories_that_hold_the_query() {
    let redump = r#"<a href="Sony%20-%20PlayStation%202/">x</a><a href="Sega%20-%20Saturn/">x</a>
        <a href="playstation.zip">x</a>"#;
    let no_intro = r#"<a href="Sony%20-%20PlayStation%20Portable/">x</a><a href="Atari%20-%202600/">x</a>"#;
    let found = search_dataset(ok(redump), "PLAYstation", Dataset::Redump, Vec::new()).unwrap();
    let found = search_dataset(ok(no_intro), "PLAYstation", Dataset::NoIntro, found).unwrap();
    let got: Vec<(&str, &str, Dataset)> =
        found.iter().map(|p| (p.id.as_str(), p.name.as_str(), p.dataset)).collect();
    assert_eq!(
        got,
        vec![
            ("Sony%20-%20PlayStation%202", "Sony - PlayStation 2", Dataset::Redump),
            ("Sony%20-%20PlayStation%20Portable", "Sony - PlayStation Portable", Dataset::NoIntro),
        ]
    );
}

#[test]
fn search_with_empty_query_keeps_every_directory() {
    let items = parse_items_from_index(r#"<a href="A/">x</a><a href="b.zip">x</a><a href="C/">x</a>"#)
        .unwrap();
    let before = vec![PlatformInfo {
        id: "Z".to_string(),
        name: "Z".to_string(),
        dataset: Dataset::Redump,
    }];
    let found = search_matches(&items, "", Dataset::NoIntro, before);
    let names: Vec<&str> = found.iter().map(|p| p.name.as_str()).collect();
    assert_eq!(names, vec!["Z", "A", "C"]);
}

#[test]
fn index_addresses() {
    assert_eq!(FILES_URL, "https://myrient.erista.me/files/");
    assert_eq!(REDUMP_URL, "https://myrient.erista.me/files/Redump/");
    assert_eq!(NO_INTRO_URL, "https://myrient.erista.me/files/No-Intro/");
    assert_eq!(SEARCH_ROOTS, [(REDUMP_URL, Dataset::Redump), (NO_INTRO_URL, Dataset::NoIntro)]);
}
