use rom_browser_scripts::search::{
    candidates_for, keep_matching, patterns_for, search_game, ARCHIVE_PATTERN,
};

fn strings(list: &[&str]) -> Vec<String> {
    list.iter().map(|s| s.to_string()).collect()
}

#[test]
fn four_patterns_from_strict_to_loose() {
    assert_eq!(
        patterns_for("Halo 2: Anniversary"),
        vec![
            "Halo 2: Anniversary",
            "Halo.*2:.*Anniversary",
            "Halo.*2.*.*Anniversary",
            ".*Halo 2: Anniversary.*"
        ]
    );
}

#[test]
fn literal_patterns_escape_what_means_something() {
    let patterns = patterns_for(r"a.b+c*d?(e)|[f]{g}^$#&-~\");
    assert_eq!(patterns[0], r"a\.b\+c\*d\?\(e\)\|\[f\]\{g\}\^\$\#\&\-\~\\");
    assert_eq!(patterns[3], format!(".*{}.*", patterns[0]));
    assert_eq!(patterns[1], r"a.b+c*d?(e)|[f]{g}^$#&-~\");
    assert_eq!(patterns[2], "a.*b.*c.*d.*.*e.*.*.*f.*.*g.*.*.*.*.*.*.*.*");
}

#[test]
fn literal_pattern_is_the_engine_s_own_escape() {
    for key in ["", "plain", "Tom & Jerry (USA)", "100% *new*", "é-ü"] {
        assert_eq!(patterns_for(key)[0], regex::escape(key));
    }
}

#[test]
fn loose_pattern_is_the_engine_s_own_replacement() {
    let class = regex::Regex::new(r"[^a-zA-Z0-9]").unwrap();
    for key in ["", "plain", "Tom & Jerry (USA)", "a\nb", "é-ü Z9", "$1 ${x}"] {
        assert_eq!(patterns_for(key)[2], class.replace_all(key, ".*").to_string());
    }
}

#[test]
fn patterns_of_the_empty_key() {
    assert_eq!(patterns_for(""), vec!["", "", "", ".*.*"]);
}

#[test]
fn verdicts_pick_the_targets() {
    let hrefs = strings(&["a.zip", "b.zip", "c.zip"]);
    assert_eq!(keep_matching(&hrefs, &vec![true, false, true]), strings(&["a.zip", "c.zip"]));
    assert!(keep_matching(&hrefs, &vec![false, false, false]).is_empty());
    assert!(keep_matching(&Vec::new(), &Vec::new()).is_empty());
}

#[test]
fn strictest_pattern_that_matches_decides() {
    let hrefs = strings(&["Halo (USA).zip", "Halo 2 (USA).zip", "Doom.zip", "Ha-lo 2.7z"]);
    assert_eq!(
        candidates_for("Halo 2", &hrefs).unwrap(),
        strings(&["Halo 2 (USA).zip"])
    );
    assert_eq!(
        candidates_for("Halo", &hrefs).unwrap(),
        strings(&["Halo (USA).zip", "Halo 2 (USA).zip"])
    );
    assert_eq!(
        candidates_for("Ha lo", &hrefs).unwrap(),
        strings(&["Halo (USA).zip", "Halo 2 (USA).zip", "Ha-lo 2.7z"])
    );
    assert_eq!(candidates_for("Ha-lo", &hrefs).unwrap(), strings(&["Ha-lo 2.7z"]));
    assert!(candidates_for("Quake", &hrefs).unwrap().is_empty());
}

#[test]
fn encoded_targets_are_matched_as_written() {
    let hrefs = strings(&["Gran%20Turismo%204%20%28USA%29.zip"]);
    assert!(candidates_for("Gran Turismo 4", &hrefs).is_ok());
    assert_eq!(candidates_for("Gran Turismo 4", &hrefs).unwrap(), hrefs);
    assert_eq!(candidates_for("Gran", &hrefs).unwrap(), hrefs);
}

#[test]
fn refused_pattern_is_an_error() {
    let hrefs = strings(&["a.zip"]);
    let error = candidates_for("Foo (Bar", &hrefs).unwrap_err();
    assert_eq!(error.pattern, "Foo.*(Bar");
    assert!(!error.message.is_empty());
}

#[test]
fn refused_pattern_is_not_tried_without_targets() {
    assert!(candidates_for("Foo (Bar", &Vec::new()).unwrap().is_empty());
}

#[test]
fn refused_pattern_is_not_reached_after_a_match() {
    let hrefs = strings(&["Foo (Bar.zip"]);
    assert_eq!(candidates_for("Foo (Bar", &hrefs).unwrap(), hrefs);
}

#[test]
fn search_reads_the_file_targets_of_an_index() {
    let html = r#"<a href="../">up</a><a href="Sub/">Sub</a>
        <a href="Halo%20(USA).zip">1</a><a href="Halo 2 (Europe).zip">2</a>
        <a href="Doom.7z">3</a><a href=".zip">4</a><a href="notes.txt">5</a>"#;
    assert_eq!(search_game("Halo", html).unwrap(), vec!["Halo%20(USA).zip", "Halo 2 (Europe).zip"]);
    assert_eq!(search_game("Launch Doom!", html).unwrap(), vec!["Doom.7z"]);
    assert_eq!(search_game("", html).unwrap().len(), 4);
    assert!(search_game("Quake", html).unwrap().is_empty());
    assert!(search_game("Halo", "").unwrap().is_empty());
}

#[test]
fn search_cleans_the_title_first() {
    let html = r#"<a href="Elden Ring.zip">x</a>"#;
    assert_eq!(search_game("Elden Ring (ModEngine)", html).unwrap(), vec!["Elden Ring.zip"]);
}

#[test]
fn archive_pattern_is_the_documented_one() {
    assert_eq!(ARCHIVE_PATTERN, "href=\"([^\"]*\\.(?:zip|7z))\"");
}
