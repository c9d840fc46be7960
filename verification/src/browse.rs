//! The browse and search orchestrator: what to answer, given what a fetch of
//! an index brought back.
//!
//! Nothing here fetches. The caller fetches a page and hands over the
//! outcome, the text or the transport's complaint; each function decides what
//! follows from it. A failed fetch always ends the request: there is no
//! partial answer.

use vstd::prelude::*;
use crate::catalog::{dataset_of, dataset_of_name};
use crate::codec::{encode_chars, encoded};
use crate::listing::{
    parse_items_from_index, parsed_listing, targets, PatternError, DIRECTORY_PATTERN, FILE_PATTERN,
};
use crate::model::{
    Dataset, DirectoryItem, DirectoryItemView, ItemKind, PlatformInfo, PlatformInfoView,
};
use crate::text::{chars_of, followed_by, contains, has_infix, lowercase, same_chars, string_of, to_lower};

verus! {

/// The index that lists every platform directory.
pub const FILES_URL: &'static str = "https://myrient.erista.me/files/";

/// The index of the Redump dataset, the first that a search reads.
pub const REDUMP_URL: &'static str = "https://myrient.erista.me/files/Redump/";

/// The index of the No-Intro dataset, the second that a search reads.
pub const NO_INTRO_URL: &'static str = "https://myrient.erista.me/files/No-Intro/";

/// The indices that a search reads, in this order, each with the dataset
/// that its platforms are tagged with.
pub const SEARCH_ROOTS: [(&'static str, Dataset); 2] = [
    ("https://myrient.erista.me/files/Redump/", Dataset::Redump),
    ("https://myrient.erista.me/files/No-Intro/", Dataset::NoIntro),
];

/// Why a request was given up.
#[derive(Clone, Debug)]
pub enum BrowseError {
    /// The page could not be fetched; the transport's own words.
    Transport(String),
    /// The index was fetched, and no directory in it goes by this id or name.
    PlatformNotFound(String),
    /// The pattern engine refused a pattern.
    Pattern(PatternError),
}

/// Where the entries of a platform, or of a path below it, are listed.
#[derive(Clone, Debug)]
pub struct BrowseTarget {
    /// The platform's name as displayed.
    pub platform_name: String,
    /// The address of the index to fetch next.
    pub url: String,
}

/// One entry of a platform's listing, ready to be shown.
#[derive(Clone, Debug)]
pub struct BrowseEntry {
    pub name: String,
    pub platform: String,
    pub size: Option<String>,
    /// Where to download the entry; set for files only.
    pub url: Option<String>,
    pub is_directory: bool,
    /// The relative path to browse next; set for directories only.
    pub path: Option<String>,
}

/// A [`BrowseEntry`] as plain values.
pub struct BrowseEntryView {
    pub name: Seq<char>,
    pub platform: Seq<char>,
    pub size: Option<Seq<char>>,
    pub url: Option<Seq<char>>,
    pub is_directory: bool,
    pub path: Option<Seq<char>>,
}

impl View for BrowseEntry {
    type V = BrowseEntryView;

    open spec fn view(&self) -> BrowseEntryView {
        BrowseEntryView {
            name: self.name@,
            platform: self.platform@,
            size: match self.size {
                Some(s) => Some(s@),
                None => None,
            },
            url: match self.url {
                Some(s) => Some(s@),
                None => None,
            },
            is_directory: self.is_directory,
            path: match self.path {
                Some(s) => Some(s@),
                None => None,
            },
        }
    }
}

impl DeepView for BrowseEntry {
    type V = BrowseEntryView;

    open spec fn deep_view(&self) -> BrowseEntryView {
        self@
    }
}

/// The platform descriptor of a directory entry; a file has none.
pub open spec fn platform_of(item: DirectoryItemView) -> Option<PlatformInfoView> {
    if item.item_type == ItemKind::Directory {
        Some(
            PlatformInfoView {
                id: encoded(item.name),
                name: item.name,
                dataset: dataset_of(item.name),
            },
        )
    } else {
        None
    }
}

/// The platforms among the entries of the top-level index, in order.
pub open spec fn platforms_in(items: Seq<DirectoryItemView>) -> Seq<PlatformInfoView> {
    items.filter_map(|item: DirectoryItemView| platform_of(item))
}

/// The entry is the platform that `id` asks for: a directory whose encoded
/// name, or whose name as it stands, is `id`.
pub open spec fn names_platform(item: DirectoryItemView, id: Seq<char>) -> bool {
    item.item_type == ItemKind::Directory && (encoded(item.name) == id || item.name == id)
}

/// Entry `i` is the first that `id` asks for.
pub open spec fn resolves_at(items: Seq<DirectoryItemView>, id: Seq<char>, i: int) -> bool {
    &&& 0 <= i < items.len()
    &&& names_platform(items[i], id)
    &&& forall|j: int| 0 <= j < i ==> !names_platform(#[trigger] items[j], id)
}

/// No entry is the platform that `id` asks for.
pub open spec fn unresolved(items: Seq<DirectoryItemView>, id: Seq<char>) -> bool {
    forall|j: int| 0 <= j < items.len() ==> !names_platform(#[trigger] items[j], id)
}

/// The address of the index to browse: the platform's own, or that of a path
/// below it, which always ends in a slash.
pub open spec fn target_url(platform_url: Seq<char>, path: Option<Seq<char>>) -> Seq<char> {
    match path {
        Some(p) => platform_url + p + seq!['/'],
        None => platform_url,
    }
}

/// What is shown for one entry of the listing that was fetched from `url`.
pub open spec fn browse_entry(item: DirectoryItemView, platform: Seq<char>, url: Seq<char>)
    -> BrowseEntryView {
    BrowseEntryView {
        name: item.name,
        platform,
        size: item.size,
        url: if item.item_type == ItemKind::File {
            Some(url + item.href)
        } else {
            None
        },
        is_directory: item.item_type == ItemKind::Directory,
        path: if item.item_type == ItemKind::Directory {
            Some(item.href)
        } else {
            None
        },
    }
}

/// What is shown for the entries of a listing, one for one.
pub open spec fn browse_entries(items: Seq<DirectoryItemView>, platform: Seq<char>, url: Seq<char>)
    -> Seq<BrowseEntryView> {
    items.map_values(|item: DirectoryItemView| browse_entry(item, platform, url))
}

/// The search hit that a directory entry gives: its name holds the query,
/// letter case set aside. It is tagged with the dataset that was searched.
pub open spec fn search_hit(item: DirectoryItemView, query: Seq<char>, dataset: Dataset) -> Option<
    PlatformInfoView,
> {
    if item.item_type == ItemKind::Directory && contains(lowercase(item.name), lowercase(query)) {
        Some(PlatformInfoView { id: encoded(item.name), name: item.name, dataset })
    } else {
        None
    }
}

/// The search hits among the entries of one dataset's index, in order.
pub open spec fn search_hits(items: Seq<DirectoryItemView>, query: Seq<char>, dataset: Dataset)
    -> Seq<PlatformInfoView> {
    items.filter_map(|item: DirectoryItemView| search_hit(item, query, dataset))
}

/// The listing that the outcome of a fetch holds, if it holds one.
pub open spec fn page_listing(page: Result<String, String>) -> Option<Seq<DirectoryItemView>> {
    match page {
        Ok(content) => parsed_listing(content@),
        Err(_) => None,
    }
}

/// `error` is how a request ends on a page that holds no listing: with the
/// transport's complaint where the fetch failed, with the first pattern that
/// is refused where the text could not be searched.
pub open spec fn page_failure(page: Result<String, String>, error: BrowseError) -> bool {
    match page {
        Err(complaint) => error matches BrowseError::Transport(m) && m@ == complaint@,
        Ok(content) => {
            &&& parsed_listing(content@) is None
            &&& error matches BrowseError::Pattern(refused)
            &&& refused.pattern@ == (if targets(DIRECTORY_PATTERN@, content@) is None {
                DIRECTORY_PATTERN@
            } else {
                FILE_PATTERN@
            })
        },
    }
}

/// `target` is where the platform that `id` asks for is browsed: it bears the
/// name of the first entry that `id` asks for, and its address is that
/// entry's target below [`FILES_URL`], followed by the path if there is one.
pub open spec fn locates(
    items: Seq<DirectoryItemView>,
    id: Seq<char>,
    path: Option<Seq<char>>,
    target: BrowseTarget,
) -> bool {
    exists|i: int|
        {
            &&& resolves_at(items, id, i)
            &&& target.platform_name@ == (#[trigger] items[i]).name
            &&& target.url@ == target_url(FILES_URL@ + items[i].href, path)
        }
}

/// A path as plain values.
pub open spec fn path_view(path: Option<&str>) -> Option<Seq<char>> {
    match path {
        Some(p) => Some(p@),
        None => None,
    }
}

/// At most one entry is the first that `id` asks for.
pub proof fn lemma_resolution_is_unique(items: Seq<DirectoryItemView>, id: Seq<char>, i: int, j: int)
    requires
        resolves_at(items, id, i),
        resolves_at(items, id, j),
    ensures
        i == j,
{
}

/// An id that some entry answers to is not unresolved, and the other way
/// round.
pub proof fn lemma_resolved_or_unresolved(items: Seq<DirectoryItemView>, id: Seq<char>)
    ensures
        unresolved(items, id) <==> !exists|i: int| resolves_at(items, id, i),
{
    if !unresolved(items, id) {
        let k = choose|k: int| 0 <= k < items.len() && names_platform(#[trigger] items[k], id);
        lemma_first_resolution(items, id, k);
    }
}

/// Every platform that is listed can be browsed: its id, and its name as
/// well, asks for some entry of the index that listed it.
pub proof fn lemma_listed_platform_resolves(items: Seq<DirectoryItemView>, k: int)
    requires
        0 <= k < items.len(),
        items[k].item_type == ItemKind::Directory,
    ensures
        exists|i: int| resolves_at(items, encoded(items[k].name), i),
        exists|i: int| resolves_at(items, items[k].name, i),
{
    lemma_first_resolution(items, encoded(items[k].name), k);
    lemma_first_resolution(items, items[k].name, k);
}

/// Where some entry answers to an id, one entry is the first to.
proof fn lemma_first_resolution(items: Seq<DirectoryItemView>, id: Seq<char>, k: int)
    requires
        0 <= k < items.len(),
        names_platform(items[k], id),
    ensures
        exists|i: int| resolves_at(items, id, i),
    decreases k,
{
    if exists|j: int| 0 <= j < k && names_platform(#[trigger] items[j], id) {
        let j = choose|j: int| 0 <= j < k && names_platform(#[trigger] items[j], id);
        lemma_first_resolution(items, id, j);
    } else {
        assert(resolves_at(items, id, k));
    }
}

impl BrowseError {
    /// The error in words, for a caller that shows it.
    pub fn message(&self) -> (text: String)
        ensures
            text@ == (match *self {
                BrowseError::Transport(m) => m@,
                BrowseError::PlatformNotFound(id) => "Platform not found: "@ + id@,
                BrowseError::Pattern(e) => "Failed to create regex: "@ + e.message@,
            }),
    {
        match self {
            BrowseError::Transport(m) => m.clone(),
            BrowseError::PlatformNotFound(id) => followed_by("Platform not found: ", id.as_str()),
            BrowseError::Pattern(e) => followed_by("Failed to create regex: ", e.message.as_str()),
        }
    }
}

/// The platforms among the entries of the top-level index, in order.
pub fn platforms_of(items: &Vec<DirectoryItem>) -> (platforms: Vec<PlatformInfo>)
    ensures
        platforms.deep_view() == platforms_in(items.deep_view()),
{
    let ghost all = items.deep_view();
    let mut platforms: Vec<PlatformInfo> = Vec::new();
    let mut i: usize = 0;
    while i < items.len()
        invariant
            i <= items.len(),
            all == items.deep_view(),
            platforms.deep_view() == platforms_in(all.take(i as int)),
        decreases items.len() - i,
    {
        assert(all.take(i + 1).drop_last() =~= all.take(i as int));
        let item = &items[i];
        if item.item_type == ItemKind::Directory {
            let name = chars_of(item.name.as_str());
            let platform = PlatformInfo {
                id: string_of(&encode_chars(&name)),
                name: item.name.clone(),
                dataset: dataset_of_name(item.name.as_str()),
            };
            platforms.push(platform);
        }
        i += 1;
    }
    assert(all.take(items.len() as int) =~= all);
    platforms
}

/// Appends to `found` the search hits among the entries of one dataset's
/// index, in order.
pub fn search_matches(
    items: &Vec<DirectoryItem>,
    query: &str,
    dataset: Dataset,
    found: Vec<PlatformInfo>,
) -> (platforms: Vec<PlatformInfo>)
    ensures
        platforms.deep_view() == found.deep_view() + search_hits(
            items.deep_view(),
            query@,
            dataset,
        ),
{
    let ghost all = items.deep_view();
    let ghost start = found.deep_view();
    let needle = to_lower(&chars_of(query));
    let mut platforms = found;
    let mut i: usize = 0;
    while i < items.len()
        invariant
            i <= items.len(),
            all == items.deep_view(),
            needle@ == lowercase(query@),
            platforms.deep_view() == start + search_hits(all.take(i as int), query@, dataset),
        decreases items.len() - i,
    {
        let ghost before = platforms.deep_view();
        assert(all.take(i + 1).drop_last() =~= all.take(i as int));
        let item = &items[i];
        if item.item_type == ItemKind::Directory {
            let name = chars_of(item.name.as_str());
            if has_infix(&to_lower(&name), &needle) {
                let platform = PlatformInfo {
                    id: string_of(&encode_chars(&name)),
                    name: item.name.clone(),
                    dataset,
                };
                platforms.push(platform);
                assert(platforms.deep_view() =~= before + seq![
                    search_hit(item@, query@, dataset)->0,
                ]);
            }
        }
        i += 1;
    }
    assert(all.take(items.len() as int) =~= all);
    platforms
}

/// Finds the platform that `platform_id` asks for: the first directory whose
/// encoded name, or whose name as it stands, is `platform_id`.
pub fn resolve_platform(items: &Vec<DirectoryItem>, platform_id: &str) -> (found: Option<usize>)
    ensures
        match found {
            Some(i) => resolves_at(items.deep_view(), platform_id@, i as int),
            None => unresolved(items.deep_view(), platform_id@),
        },
{
    let ghost all = items.deep_view();
    let id = chars_of(platform_id);
    let mut i: usize = 0;
    while i < items.len()
        invariant
            i <= items.len(),
            all == items.deep_view(),
            id@ == platform_id@,
            forall|j: int| 0 <= j < i ==> !names_platform(#[trigger] all[j], platform_id@),
        decreases items.len() - i,
    {
        let item = &items[i];
        if item.item_type == ItemKind::Directory {
            let name = chars_of(item.name.as_str());
            if same_chars(&encode_chars(&name), &id) || same_chars(&name, &id) {
                return Some(i);
            }
        }
        i += 1;
    }
    None
}

/// The address of the index to browse for a platform, or for a path below it.
pub fn browse_url(platform_url: &str, path: Option<&str>) -> (url: String)
    ensures
        url@ == target_url(platform_url@, path_view(path)),
{
    match path {
        Some(p) => {
            let below = followed_by(platform_url, p);
            let url = followed_by(below.as_str(), "/");
            proof {
                reveal_strlit("/");
            }
            url
        },
        None => platform_url.to_owned(),
    }
}

/// What is shown for the entries of a listing, one for one.
pub fn entries_of(items: &Vec<DirectoryItem>, target: &BrowseTarget) -> (entries: Vec<BrowseEntry>)
    ensures
        entries.deep_view() == browse_entries(
            items.deep_view(),
            target.platform_name@,
            target.url@,
        ),
{
    let ghost all = items.deep_view();
    let mut entries: Vec<BrowseEntry> = Vec::new();
    let mut i: usize = 0;
    while i < items.len()
        invariant
            i <= items.len(),
            all == items.deep_view(),
            entries.len() == i,
            forall|k: int|
                0 <= k < i ==> (#[trigger] entries[k])@ == browse_entry(
                    all[k],
                    target.platform_name@,
                    target.url@,
                ),
        decreases items.len() - i,
    {
        let item = &items[i];
        let is_file = item.item_type == ItemKind::File;
        let entry = BrowseEntry {
            name: item.name.clone(),
            platform: target.platform_name.clone(),
            size: item.size.clone(),
            url: if is_file {
                Some(followed_by(target.url.as_str(), item.href.as_str()))
            } else {
                None
            },
            is_directory: !is_file,
            path: if is_file {
                None
            } else {
                Some(item.href.clone())
            },
        };
        entries.push(entry);
        i += 1;
    }
    entries
}

/// Turns the outcome of a fetch into the listing of the page.
fn listing_of_page(page: Result<String, String>) -> (r: Result<Vec<DirectoryItem>, BrowseError>)
    ensures
        match r {
            Ok(items) => {
                &&& page_listing(page) == Some(items.deep_view())
                &&& forall|i: int| 0 <= i < items.len() ==> (#[trigger] items[i])@.well_formed()
            },
            Err(e) => page_listing(page) is None && page_failure(page, e),
        },
{
    match page {
        Err(complaint) => Err(BrowseError::Transport(complaint)),
        Ok(content) => match parse_items_from_index(content.as_str()) {
            Ok(items) => Ok(items),
            Err(e) => Err(BrowseError::Pattern(e)),
        },
    }
}

/// Lists the platforms, given the outcome of fetching [`FILES_URL`]: every
/// directory of the index, with its encoded id and its dataset.
pub fn get_platforms(page: Result<String, String>) -> (r: Result<Vec<PlatformInfo>, BrowseError>)
    ensures
        match r {
            Ok(platforms) => page_listing(page) matches Some(items) && platforms.deep_view()
                == platforms_in(items),
            Err(e) => page_listing(page) is None && page_failure(page, e),
        },
{
    match listing_of_page(page) {
        Ok(items) => Ok(platforms_of(&items)),
        Err(e) => Err(e),
    }
}

/// Resolves a platform, given the outcome of fetching [`FILES_URL`], and
/// says which index to fetch next.
///
/// Where the index was fetched and holds no directory that `platform_id`
/// asks for, the error is [`BrowseError::PlatformNotFound`] with that id,
/// never a transport error.
pub fn locate_platform(page: Result<String, String>, platform_id: &str, path: Option<&str>) -> (r:
    Result<BrowseTarget, BrowseError>)
    ensures
        match r {
            Ok(target) => page_listing(page) matches Some(items) && locates(
                items,
                platform_id@,
                path_view(path),
                target,
            ),
            Err(BrowseError::PlatformNotFound(missing)) => {
                &&& page_listing(page) matches Some(items)
                &&& unresolved(items, platform_id@)
                &&& missing@ == platform_id@
            },
            Err(e) => page_listing(page) is None && page_failure(page, e),
        },
{
    let items = match listing_of_page(page) {
        Ok(items) => items,
        Err(e) => {
            return Err(e);
        },
    };
    match resolve_platform(&items, platform_id) {
        Some(i) => {
            let item = &items[i];
            let platform_url = followed_by(FILES_URL, item.href.as_str());
            let target = BrowseTarget {
                platform_name: item.name.clone(),
                url: browse_url(platform_url.as_str(), path),
            };
            Ok(target)
        },
        None => Err(BrowseError::PlatformNotFound(platform_id.to_owned())),
    }
}

/// Lists the entries of a platform, given the outcome of fetching the index
/// that [`locate_platform`] named. A file gets its download address, a
/// directory the relative path to browse next.
pub fn browse_listing(page: Result<String, String>, target: &BrowseTarget) -> (r: Result<
    Vec<BrowseEntry>,
    BrowseError,
>)
    ensures
        match r {
            Ok(entries) => page_listing(page) matches Some(items) && entries.deep_view()
                == browse_entries(items, target.platform_name@, target.url@),
            Err(e) => page_listing(page) is None && page_failure(page, e),
        },
{
    match listing_of_page(page) {
        Ok(items) => Ok(entries_of(&items, target)),
        Err(e) => Err(e),
    }
}

/// Searches one dataset, given the outcome of fetching its index, and
/// appends what it finds to what the datasets before it gave.
///
/// A search reads the indices of [`SEARCH_ROOTS`] in their order, each for
/// its dataset. An error ends the search, and what was found so far is
/// dropped.
pub fn search_dataset(
    page: Result<String, String>,
    query: &str,
    dataset: Dataset,
    found: Vec<PlatformInfo>,
) -> (r: Result<Vec<PlatformInfo>, BrowseError>)
    ensures
        match r {
            Ok(platforms) => page_listing(page) matches Some(items) && platforms.deep_view()
                == found.deep_view() + search_hits(items, query@, dataset),
            Err(e) => page_listing(page) is None && page_failure(page, e),
        },
{
    match listing_of_page(page) {
        Ok(items) => Ok(search_matches(&items, query, dataset, found)),
        Err(e) => Err(e),
    }
}

} // verus!
