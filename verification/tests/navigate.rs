use rom_browser_scripts::model::{DirectoryItem, ItemKind};
use rom_browser_scripts::navigate::{
    directory_step, entries_of_kind, file_step, folder_prompt, parent_path, read_choice, Choice,
    FileStep, FolderPrompt, FolderStep,
};

fn dir(name: &str) -> DirectoryItem {
    DirectoryItem {
        name: name.to_string(),
        href: format!("{}/", name),
        item_type: ItemKind::Directory,
        size: None,
    }
}

fn file(name: &str) -> DirectoryItem {
    DirectoryItem {
        name: name.to_string(),
        href: name.replace(' ', "%20"),
        item_type: ItemKind::File,
        size: None,
    }
}

#[test]
fn choice_reads_quit_up_and_numbers() {
    assert_eq!(read_choice("q"), Choice::Quit);
    assert_eq!(read_choice("  q\n"), Choice::Quit);
    assert_eq!(read_choice(".."), Choice::Up);
    assert_eq!(read_choice("..\r\n"), Choice::Up);
    assert_eq!(read_choice("7"), Choice::Number(7));
    assert_eq!(read_choice(" 42 \n"), Choice::Number(42));
    assert_eq!(read_choice("+5"), Choice::Number(5));
    assert_eq!(read_choice("007"), Choice::Number(7));
    assert_eq!(read_choice("0"), Choice::Number(0));
}

#[test]
fn choice_reads_anything_else_as_other() {
    for input in ["", " ", "Q", "quit", "...", "-1", "+", "1.5", "1 2", "12a", "0x10", "٣"] {
        assert_eq!(read_choice(input), Choice::Other, "input {:?}", input);
    }
}

#[test]
fn choice_agrees_with_the_standard_number_parser() {
    let max = usize::MAX.to_string();
    let over = format!("{}0", max);
    let samples =
        ["0", "1", "10", "+0", "+12", "00012", "-0", "++1", "1+", " ", "", "184467440737095516160"];
    for s in samples.iter().copied().chain([max.as_str(), over.as_str()]) {
        let expected = match s.parse::<usize>() {
            Ok(n) => Choice::Number(n),
            Err(_) => Choice::Other,
        };
        assert_eq!(read_choice(s), expected, "input {:?}", s);
    }
}

#[test]
fn parent_of_a_path_drops_its_last_segment() {
    assert_eq!(parent_path(""), "");
    assert_eq!(parent_path("A/"), "");
    assert_eq!(parent_path("A//"), "");
    assert_eq!(parent_path("A/B/"), "A/");
    assert_eq!(parent_path("A//B//"), "A//");
    assert_eq!(parent_path("A/B/C"), "A/B/");
    assert_eq!(parent_path("/"), "");
    assert_eq!(parent_path("/A/"), "/");
}

#[test]
fn entries_are_split_by_kind() {
    let items = vec![file("a.zip"), dir("D"), file("b.7z"), dir("E")];
    let dirs = entries_of_kind(&items, ItemKind::Directory);
    let files = entries_of_kind(&items, ItemKind::File);
    assert_eq!(dirs.iter().map(|i| i.name.as_str()).collect::<Vec<_>>(), vec!["D", "E"]);
    assert_eq!(files.iter().map(|i| i.name.as_str()).collect::<Vec<_>>(), vec!["a.zip", "b.7z"]);
    assert!(entries_of_kind(&Vec::new(), ItemKind::File).is_empty());
}

#[test]
fn directory_step_enters_the_chosen_directory() {
    let dirs = vec![dir("A"), dir("B")];
    match directory_step("X//", &dirs, "2\n") {
        FolderStep::Enter(path) => assert_eq!(path, "X//B//"),
        other => panic!("unexpected: {:?}", other),
    }
    match directory_step("", &dirs, "1") {
        FolderStep::Enter(path) => assert_eq!(path, "A//"),
        other => panic!("unexpected: {:?}", other),
    }
}

#[test]
fn directory_step_goes_up_quits_or_shows_files() {
    let dirs = vec![dir("A")];
    assert!(matches!(directory_step("X/Y/", &dirs, "q"), FolderStep::Quit));
    match directory_step("X/Y/", &dirs, "..") {
        FolderStep::Enter(path) => assert_eq!(path, "X/"),
        other => panic!("unexpected: {:?}", other),
    }
    for input in ["0", "2", "", "help"] {
        assert!(matches!(directory_step("X/", &dirs, input), FolderStep::ShowFiles));
    }
}

#[test]
fn file_step_selects_the_chosen_file() {
    let files = vec![file("Halo (USA).zip"), file("Doom.7z")];
    match file_step("X/", &files, "1") {
        FileStep::Selected { title, href } => {
            assert_eq!(title, "Halo (USA)");
            assert_eq!(href, "Halo%20(USA).zip");
        }
        other => panic!("unexpected: {:?}", other),
    }
    match file_step("X/", &files, " 2 ") {
        FileStep::Selected { title, href } => {
            assert_eq!(title, "Doom");
            assert_eq!(href, "Doom.7z");
        }
        other => panic!("unexpected: {:?}", other),
    }
}

#[test]
fn file_step_goes_up_quits_or_asks_again() {
    let files = vec![file("a.zip")];
    assert!(matches!(file_step("X/", &files, "q"), FileStep::Quit));
    match file_step("X/Y/", &files, "..") {
        FileStep::Enter(path) => assert_eq!(path, "X/"),
        other => panic!("unexpected: {:?}", other),
    }
    for input in ["0", "2", "", "a.zip"] {
        assert!(matches!(file_step("X/", &files, input), FileStep::Retry));
    }
}

#[test]
fn folder_shows_directories_then_files_then_nothing() {
    assert_eq!(folder_prompt(2, 3, false), FolderPrompt::Directories);
    assert_eq!(folder_prompt(2, 0, false), FolderPrompt::Directories);
    assert_eq!(folder_prompt(2, 3, true), FolderPrompt::Files);
    assert_eq!(folder_prompt(0, 3, false), FolderPrompt::Files);
    assert_eq!(folder_prompt(0, 3, true), FolderPrompt::Files);
}

#[test]
fn folder_without_files_ends_the_walk() {
    assert_eq!(folder_prompt(0, 0, false), FolderPrompt::Nothing);
    assert_eq!(folder_prompt(0, 0, true), FolderPrompt::Nothing);
    assert_eq!(folder_prompt(4, 0, true), FolderPrompt::Nothing);
}
