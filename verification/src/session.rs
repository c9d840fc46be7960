//! The decisions of a session of the command-line tools: which dataset to
//! read, where a platform lives, which platform a line of input means, and
//! when to pause.

use vstd::prelude::*;
use crate::codec::{encode_chars, encoded};
use crate::config::Config;
use crate::model::PlatformInfo;
use crate::navigate::{choice_of, read_choice, Choice};
use crate::providers::{is_real_description, real_description, text_view};
use crate::text::{
    chars_of, followed_by, contains, has_infix, lowercase, same_chars, string_of, to_lower, trim,
    trimmed,
};

verus! {

/// How many seconds pass between two downloads of a queue, out of courtesy
/// to the server.
pub const DOWNLOAD_DELAY_SECONDS: u64 = 3;

/// `name` names a dataset that the tools know.
pub open spec fn known_dataset(name: Seq<char>) -> bool {
    name == "redump"@ || name == "no-intro"@
}

/// The index that a dataset's platforms are listed in. A name that is not
/// known stands for Redump.
pub open spec fn base_url_of(config: Config, dataset: Seq<char>) -> Seq<char> {
    if dataset == "no-intro"@ {
        config.base_url_no_intro@
    } else {
        config.base_url_redump@
    }
}

/// The address of a platform's index below a dataset's index.
pub open spec fn platform_url_of(base_url: Seq<char>, platform: Seq<char>) -> Seq<char> {
    base_url + encoded(platform) + seq!['/']
}

/// What a line of input means when a platform is to be chosen.
#[derive(Clone, Copy, Debug, PartialEq, Eq, Structural)]
pub enum PlatformChoice {
    /// Give up.
    Quit,
    /// The platform at this position, counted from 0.
    Platform(usize),
    /// A number that no platform bears.
    InvalidNumber,
    /// A name that no platform holds.
    NotFound,
}

/// The platform's name holds `query`, letter case set aside.
pub open spec fn name_holds(platform: PlatformInfo, query: Seq<char>) -> bool {
    contains(lowercase(platform.name@), lowercase(query))
}

/// Platform `i` is the first whose name holds `query`.
pub open spec fn first_named(platforms: Seq<PlatformInfo>, query: Seq<char>, i: int) -> bool {
    &&& 0 <= i < platforms.len()
    &&& name_holds(platforms[i], query)
    &&& forall|j: int| 0 <= j < i ==> !name_holds(#[trigger] platforms[j], query)
}

/// What a line of input means among these platforms: `q` gives up; a number
/// picks the platform that bears it, counted from 1; anything else picks the
/// first platform whose name holds it.
pub open spec fn platform_choice_of(
    platforms: Seq<PlatformInfo>,
    input: Seq<char>,
    choice: PlatformChoice,
) -> bool {
    match choice_of(input) {
        Choice::Quit => choice == PlatformChoice::Quit,
        Choice::Number(n) => if 1 <= n <= platforms.len() {
            choice == PlatformChoice::Platform((n - 1) as usize)
        } else {
            choice == PlatformChoice::InvalidNumber
        },
        _ => match choice {
            PlatformChoice::Platform(i) => first_named(platforms, trimmed(input), i as int),
            PlatformChoice::NotFound => forall|j: int|
                0 <= j < platforms.len() ==> !name_holds(#[trigger] platforms[j], trimmed(input)),
            _ => false,
        },
    }
}

/// A title of the queue is done with, and leaves the queue, where a file was
/// found for it and that file was downloaded. Any other title stays in the
/// queue and counts as failed.
pub open spec fn download_completed(found: bool, downloaded: bool) -> bool {
    found && downloaded
}

/// A game counts as found: it has a rating, or a summary that is a real one.
pub open spec fn counts_as_found(has_rating: bool, summary: Option<Seq<char>>) -> bool {
    has_rating || real_description(summary)
}

/// Whether `name` names a dataset that the tools know.
pub fn is_known_dataset(name: &str) -> (known: bool)
    ensures
        known == known_dataset(name@),
{
    let chars = chars_of(name);
    same_chars(&chars, &chars_of("redump")) || same_chars(&chars, &chars_of("no-intro"))
}

/// The index that a dataset's platforms are listed in.
pub fn base_url(config: &Config, dataset: &str) -> (url: String)
    ensures
        url@ == base_url_of(*config, dataset@),
{
    if same_chars(&chars_of(dataset), &chars_of("no-intro")) {
        config.base_url_no_intro.clone()
    } else {
        config.base_url_redump.clone()
    }
}

/// The address of a platform's index below a dataset's index.
pub fn platform_url(base_url: &str, platform: &str) -> (url: String)
    ensures
        url@ == platform_url_of(base_url@, platform@),
{
    let id = string_of(&encode_chars(&chars_of(platform)));
    let begun = followed_by(base_url, id.as_str());
    let url = followed_by(begun.as_str(), "/");
    proof {
        reveal_strlit("/");
    }
    url
}

/// The address that a file of a platform is downloaded from.
pub fn download_url(platform_url: &str, filename: &str) -> (url: String)
    ensures
        url@ == platform_url@ + filename@,
{
    followed_by(platform_url, filename)
}

/// Whether to pause after the download at position `index`, counted from 0,
/// of a queue of `total`: after every one but the last.
pub fn needs_delay(index: usize, total: usize) -> (pause: bool)
    ensures
        pause == (index + 1 < total),
{
    total > 0 && index < total - 1
}

/// Decides what follows the work on one title of the queue: whether the
/// title leaves the queue and counts as a success. `found` says whether a
/// file was chosen for the title, `downloaded` whether its download came
/// through.
pub fn after_download(found: bool, downloaded: bool) -> (remove: bool)
    ensures
        remove == download_completed(found, downloaded),
{
    found && downloaded
}

/// Reads which platform a line of input means.
pub fn choose_platform(platforms: &Vec<PlatformInfo>, input: &str) -> (choice: PlatformChoice)
    ensures
        platform_choice_of(platforms@, input@, choice),
{
    match read_choice(input) {
        Choice::Quit => PlatformChoice::Quit,
        Choice::Number(n) => {
            if n >= 1 && n <= platforms.len() {
                PlatformChoice::Platform(n - 1)
            } else {
                PlatformChoice::InvalidNumber
            }
        },
        _ => {
            let query = to_lower(&trim(&chars_of(input)));
            let mut i: usize = 0;
            while i < platforms.len()
                invariant
                    i <= platforms.len(),
                    query@ == lowercase(trimmed(input@)),
                    choice_of(input@) is Up || choice_of(input@) is Other,
                    forall|j: int|
                        0 <= j < i ==> !name_holds(#[trigger] platforms@[j], trimmed(input@)),
                decreases platforms.len() - i,
            {
                let name = to_lower(&chars_of(platforms[i].name.as_str()));
                if has_infix(&name, &query) {
                    return PlatformChoice::Platform(i);
                }
                i += 1;
            }
            PlatformChoice::NotFound
        },
    }
}

/// Whether a game counts as found by a batch of downloads.
pub fn is_found(has_rating: bool, summary: &Option<String>) -> (found: bool)
    ensures
        found == counts_as_found(has_rating, text_view(*summary)),
{
    has_rating || is_real_description(summary)
}

} // verus!
