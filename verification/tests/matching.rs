use rom_browser_scripts::matching::{score_match, select_best_match};
use rom_browser_scripts::title::{clean_game_name, clean_title, strip_archive_extensions};

fn strings(list: &[&str]) -> Vec<String> {
    list.iter().map(|s| s.to_string()).collect()
}

#[test]
fn usa_beats_europe_beats_japan() {
    let candidates = strings(&["Halo (USA).zip", "Halo (Europe).zip", "Halo (Japan).zip"]);
    let usa = score_match("Halo", &candidates[0]);
    let europe = score_match("Halo", &candidates[1]);
    let japan = score_match("Halo", &candidates[2]);
    assert_eq!(usa, 11);
    assert_eq!(europe, 3);
    assert_eq!(japan, 1);
    assert!(usa > europe && europe > japan);
    assert_eq!(select_best_match("Halo", &candidates), Some("Halo (USA).zip".to_string()));
}

#[test]
fn best_match_is_the_raw_target() {
    let candidates = strings(&["Halo%20%28Europe%29.zip", "Halo%20%28USA%29.zip"]);
    assert_eq!(score_match("Halo", &candidates[1]), 11);
    assert_eq!(select_best_match("Halo", &candidates), Some("Halo%20%28USA%29.zip".to_string()));
}

#[test]
fn first_of_equal_scores_wins() {
    let candidates = strings(&["Halo 2 (USA).zip", "Halo 3 (USA).zip", "Halo (USA) (Rev 1).zip"]);
    assert_eq!(select_best_match("Halo", &candidates), Some("Halo 2 (USA).zip".to_string()));
}

#[test]
fn no_candidates_no_match() {
    assert_eq!(select_best_match("Halo", &Vec::new()), None);
}

#[test]
fn candidate_without_any_score_is_still_the_best_of_one() {
    let candidates = strings(&["Other.zip"]);
    assert_eq!(score_match("Halo", &candidates[0]), 0);
    assert_eq!(select_best_match("Halo", &candidates), Some("Other.zip".to_string()));
}

#[test]
fn region_bonuses_exclude_each_other() {
    assert_eq!(score_match("x", "a (USA).zip"), 10);
    assert_eq!(score_match("x", "a (US).zip"), 10);
    assert_eq!(score_match("x", "a (North America).zip"), 8);
    assert_eq!(score_match("x", "a (Europe).zip"), 2);
    assert_eq!(score_match("x", "a (Asia).zip"), 1);
    assert_eq!(score_match("x", "a (Japan).zip"), 0);
    assert_eq!(score_match("x", "a (USA) (Europe) (Asia).zip"), 10);
    assert_eq!(score_match("x", "a (Europe) (North America).zip"), 8);
    assert_eq!(score_match("x", "a (usa).zip"), 0);
}

#[test]
fn language_bonus_adds_to_region_bonus() {
    assert_eq!(score_match("x", "a (En).7z"), 3);
    assert_eq!(score_match("x", "a (USA) (En).7z"), 13);
    assert_eq!(score_match("x", "a (Europe) (En).7z"), 5);
}

#[test]
fn words_are_compared_in_lower_case_and_counted_once() {
    assert_eq!(score_match("HALO halo Halo", "halo.zip"), 1);
    assert_eq!(score_match("Gran Turismo 4", "gran turismo 4 (Japan).zip"), 3);
    assert_eq!(score_match("Gran Turismo 4", "Gran Turismo 3.zip"), 2);
    assert_eq!(score_match("Gran  Turismo\t4", "4 Turismo Gran.7z"), 3);
    assert_eq!(score_match("", "anything.zip"), 0);
}

#[test]
fn extension_is_stripped_before_words_are_split() {
    assert_eq!(score_match("halo", "halo.zip"), 1);
    assert_eq!(score_match("halo", "halo.7z"), 1);
    assert_eq!(score_match("halo", "halo.rar"), 0);
    assert_eq!(score_match("halo", "ha.ziplo"), 1);
}

#[test]
fn archive_extensions_are_taken_out_everywhere() {
    assert_eq!(strip_archive_extensions("Game.zip"), "Game");
    assert_eq!(strip_archive_extensions("Game.7z"), "Game");
    assert_eq!(strip_archive_extensions("a.zip.7z.zip"), "a");
    assert_eq!(strip_archive_extensions("a.z.7zip"), "a.zip");
    assert_eq!(strip_archive_extensions("Game.rar"), "Game.rar");
}

#[test]
fn title_cleaner_examples() {
    assert_eq!(clean_title("Elden Ring (ModEngine)"), "Elden Ring");
    assert_eq!(clean_title("God of War: Ragnarok"), "God of War Ragnarok");
}

#[test]
fn title_cleaner_takes_out_every_noise_substring() {
    assert_eq!(clean_title("Launch Halo - Combat Evolved! (MCC Launcher)"), "Halo Combat Evolved");
    assert_eq!(clean_title("  What?;  Really!  "), "What Really");
    assert_eq!(clean_title("Gran Turismo 4 (PS2) (PS2)"), "Gran Turismo 4");
    assert_eq!(clean_title("Zelda(NES)"), "Zelda(NES)");
    assert_eq!(clean_title(""), "");
    assert_eq!(clean_title(" \t\n "), "");
}

#[test]
fn game_name_cleaner_takes_out_tags_only() {
    assert_eq!(clean_game_name("Elden Ring (ModEngine)"), "Elden Ring");
    assert_eq!(clean_game_name("  Halo (MCC Launcher) (Startup)  "), "Halo");
    assert_eq!(clean_game_name("God of War: Ragnarok"), "God of War: Ragnarok");
    assert_eq!(clean_game_name("Launch Doom - Eternal!"), "Launch Doom - Eternal!");
    assert_eq!(clean_game_name("A  (PS2) B"), "A  B");
    assert_eq!(clean_game_name(""), "");
}
