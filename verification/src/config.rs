//! Configuration: the defaults of the command-line tools, and the file that
//! lists the directories to scan.
//!
//! The file holds one directory per line. A line that begins with `#` is a
//! comment; the line `OUTPUT_DIR = <path>` names where shortcuts go. The file
//! is read whole and written whole.

use vstd::prelude::*;
use vstd::string::StringExecFns;
use crate::text::{
    chars_of, has_prefix, lines, split_lines, starts_with, string_of, trim, trimmed,
};

verus! {

/// Where the tools read and write, and how much they show at a time.
#[derive(Clone, Debug)]
pub struct Config {
    pub base_url_redump: String,
    pub base_url_no_intro: String,
    pub temp_dir: String,
    pub downloads_dir: String,
    pub log_file: String,
    pub queue_file: String,
    pub page_size: usize,
    pub filter_file: String,
    pub history_file: String,
}

impl Default for Config {
    fn default() -> (config: Self)
        ensures
            config.base_url_redump@ == "https://myrient.erista.me/files/Redump/"@,
            config.base_url_no_intro@ == "https://myrient.erista.me/files/No-Intro/"@,
            config.temp_dir@ == "./temp"@,
            config.downloads_dir@ == "../downloads"@,
            config.log_file@ == "./rom-browse.log"@,
            config.queue_file@ == "./download_queue"@,
            config.page_size == 50,
            config.filter_file@ == "../config/rom-filter.txt"@,
            config.history_file@ == "./rom-browse-history.txt"@,
    {
        Config {
            base_url_redump: "https://myrient.erista.me/files/Redump/".to_owned(),
            base_url_no_intro: "https://myrient.erista.me/files/No-Intro/".to_owned(),
            temp_dir: "./temp".to_owned(),
            downloads_dir: "../downloads".to_owned(),
            log_file: "./rom-browse.log".to_owned(),
            queue_file: "./download_queue".to_owned(),
            page_size: 50,
            filter_file: "../config/rom-filter.txt".to_owned(),
            history_file: "./rom-browse-history.txt".to_owned(),
        }
    }
}

/// The settings that the shell shows and saves.
#[derive(Clone, Debug)]
pub struct SettingsData {
    pub rom_directories: Vec<String>,
    pub download_directory: String,
    pub metadata_api_key: String,
    pub auto_scan: bool,
    pub scan_interval: u32,
    pub max_concurrent_downloads: u32,
}

/// The comment that begins a saved configuration file.
pub const CONFIG_HEADER: &'static str =
    "# Game Shortcut Creator Configuration\n# This file contains all game installation directories across all drives\n# Format: One directory per line, comments start with #\n\n";

/// What stands between the directories and the output directory in a saved
/// configuration file.
pub const OUTPUT_DIR_LINE: &'static str = "\n# Output directory for shortcuts\nOUTPUT_DIR = ";

/// The directory that a line of the configuration file names: the line
/// trimmed, unless that is empty, a comment, or the output directory's line.
pub open spec fn directory_line(line: Seq<char>) -> Option<Seq<char>> {
    if trimmed(line).len() > 0 && !starts_with(trimmed(line), "#"@) && !starts_with(
        trimmed(line),
        "OUTPUT_DIR"@,
    ) {
        Some(trimmed(line))
    } else {
        None
    }
}

/// The directories that a configuration file names, in order.
pub open spec fn config_directories(content: Seq<char>) -> Seq<Seq<char>> {
    lines(content).filter_map(|line: Seq<char>| directory_line(line))
}

/// The directories, each on a line of its own.
pub open spec fn directory_lines(directories: Seq<Seq<char>>) -> Seq<char>
    decreases directories.len(),
{
    if directories.len() == 0 {
        Seq::empty()
    } else {
        directory_lines(directories.drop_last()) + directories.last() + seq!['\n']
    }
}

/// The text of a configuration file that names these directories and this
/// output directory.
pub open spec fn rendered_config(directories: Seq<Seq<char>>, output: Seq<char>) -> Seq<char> {
    CONFIG_HEADER@ + directory_lines(directories) + OUTPUT_DIR_LINE@ + output + seq!['\n']
}

/// Reads the directories that a configuration file names.
pub fn read_directories(content: &str) -> (directories: Vec<String>)
    ensures
        directories.deep_view() == config_directories(content@),
{
    let all = split_lines(&chars_of(content));
    let ghost listed = all.deep_view();
    let comment = chars_of("#");
    let output = chars_of("OUTPUT_DIR");
    let mut directories: Vec<String> = Vec::new();
    let mut i: usize = 0;
    while i < all.len()
        invariant
            i <= all.len(),
            listed == all.deep_view(),
            comment@ == "#"@,
            output@ == "OUTPUT_DIR"@,
            directories.deep_view() == listed.take(i as int).filter_map(
                |line: Seq<char>| directory_line(line),
            ),
        decreases all.len() - i,
    {
        assert(listed.take(i + 1).drop_last() =~= listed.take(i as int));
        assert(listed.take(i + 1).last() =~= all[i as int]@);
        let line = trim(&all[i]);
        if line.len() > 0 && !has_prefix(&line, &comment) && !has_prefix(&line, &output) {
            directories.push(string_of(&line));
        }
        i += 1;
    }
    assert(listed.take(all.len() as int) =~= listed);
    directories
}

/// The settings that a configuration file gives: the directories it names,
/// beside the fixed defaults. Without a file there are no directories.
pub fn settings_from_config(content: Option<&str>) -> (settings: SettingsData)
    ensures
        settings.rom_directories.deep_view() == (match content {
            Some(text) => config_directories(text@),
            None => Seq::empty(),
        }),
        settings.download_directory@ == "../../downloads"@,
        settings.metadata_api_key@ == ""@,
        settings.auto_scan,
        settings.scan_interval == 30,
        settings.max_concurrent_downloads == 3,
{
    let rom_directories = match content {
        Some(text) => read_directories(text),
        None => {
            let none: Vec<String> = Vec::new();
            none
        },
    };
    SettingsData {
        rom_directories,
        download_directory: "../../downloads".to_owned(),
        metadata_api_key: "".to_owned(),
        auto_scan: true,
        scan_interval: 30,
        max_concurrent_downloads: 3,
    }
}

/// Writes the configuration file that holds these settings: the header, the
/// directories one per line, and the output directory's line.
pub fn render_config(settings: &SettingsData) -> (content: String)
    ensures
        content@ == rendered_config(
            settings.rom_directories.deep_view(),
            settings.download_directory@,
        ),
{
    let ghost directories = settings.rom_directories.deep_view();
    let mut content = CONFIG_HEADER.to_owned();
    let mut i: usize = 0;
    proof {
        reveal_strlit("\n");
    }
    while i < settings.rom_directories.len()
        invariant
            i <= settings.rom_directories.len(),
            directories == settings.rom_directories.deep_view(),
            "\n"@ == seq!['\n'],
            content@ == CONFIG_HEADER@ + directory_lines(directories.take(i as int)),
        decreases settings.rom_directories.len() - i,
    {
        assert(directories.take(i + 1).drop_last() =~= directories.take(i as int));
        content.append(settings.rom_directories[i].as_str());
        content.append("\n");
        i += 1;
    }
    assert(directories.take(settings.rom_directories.len() as int) =~= directories);
    content.append(OUTPUT_DIR_LINE);
    content.append(settings.download_directory.as_str());
    content.append("\n");
    content
}

} // verus!
