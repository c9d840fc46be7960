//! What the metadata providers answer, and what is made of it: which
//! provider's answer is taken, and the record that is kept of a game.
//!
//! Providers are asked one after the other, in a fixed order. The first that
//! returns a description which is no placeholder gives the record; where none
//! does, a placeholder record is made.

use vstd::prelude::*;
use crate::text::{chars_of, followed_by, has_prefix, starts_with};

verus! {

/// A genre as Steam reports it.
#[derive(Clone, Debug)]
pub struct SteamGenre {
    pub description: String,
}

/// A release date as Steam reports it.
#[derive(Clone, Debug)]
pub struct SteamReleaseDate {
    pub date: String,
}

/// A game as Steam reports it.
#[derive(Clone, Debug)]
pub struct SteamGameData {
    pub steam_appid: Option<i64>,
    pub name: String,
    pub header_image: Option<String>,
    pub short_description: Option<String>,
    pub genres: Vec<SteamGenre>,
    pub release_date: Option<SteamReleaseDate>,
    pub developers: Vec<String>,
    pub publishers: Vec<String>,
}

/// A genre as RAWG reports it.
#[derive(Clone, Debug)]
pub struct RawgGenre {
    pub name: String,
}

/// The platform inside a RAWG platform entry.
#[derive(Clone, Debug)]
pub struct RawgPlatformInfo {
    pub name: String,
}

/// A platform entry as RAWG reports it.
#[derive(Clone, Debug)]
pub struct RawgPlatform {
    pub platform: RawgPlatformInfo,
}

/// A developer as RAWG reports it.
#[derive(Clone, Debug)]
pub struct RawgDeveloper {
    pub name: String,
}

/// A publisher as RAWG reports it.
#[derive(Clone, Debug)]
pub struct RawgPublisher {
    pub name: String,
}

/// A screenshot as RAWG reports it.
#[derive(Clone, Debug)]
pub struct RawgScreenshot {
    pub image: String,
}

/// The release dates of a Screenscraper game, by region.
#[derive(Clone, Debug)]
pub struct ScreenscraperDates {
    pub us: Option<String>,
}

/// A picture or video of a Screenscraper game.
#[derive(Clone, Debug)]
pub struct ScreenscraperMedia {
    /// The kind of media; `ss` is a screenshot.
    pub media_type: String,
    pub region: Option<String>,
    pub url: Option<String>,
}

/// A game as Screenscraper reports it.
#[derive(Clone, Debug)]
pub struct ScreenscraperGame {
    pub id: i64,
    pub nom: String,
    pub synopsis: Option<String>,
    pub genre: Option<String>,
    pub developpeur: Option<String>,
    pub editeur: Option<String>,
    pub dates: Option<ScreenscraperDates>,
    pub medias: Option<Vec<ScreenscraperMedia>>,
}

/// The body of a Screenscraper answer: a list of games, or one game.
#[derive(Clone, Debug)]
pub struct ScreenscraperData {
    pub jeux: Option<Vec<ScreenscraperGame>>,
    pub jeu: Option<ScreenscraperGame>,
}

/// A Screenscraper answer.
#[derive(Clone, Debug)]
pub struct ScreenscraperResponse {
    pub response: ScreenscraperData,
}

/// A genre as GOG reports it.
#[derive(Clone, Debug)]
pub struct GogGenre {
    pub name: String,
}

/// A developer as GOG reports it.
#[derive(Clone, Debug)]
pub struct GogDeveloper {
    pub name: String,
}

/// A publisher as GOG reports it.
#[derive(Clone, Debug)]
pub struct GogPublisher {
    pub name: String,
}

/// What is kept of a game, whichever provider it came from.
#[derive(Clone, Debug)]
pub struct GameRecord {
    pub name: String,
    pub cover_url: Option<String>,
    pub cover_path: Option<String>,
    pub summary: Option<String>,
    pub genres: Vec<String>,
    pub platforms: Vec<String>,
    pub release_date: Option<String>,
    pub developer: Vec<String>,
    pub publisher: Vec<String>,
    pub steam_id: Option<i64>,
}

/// A [`GameRecord`] as plain values.
pub struct GameRecordView {
    pub name: Seq<char>,
    pub cover_url: Option<Seq<char>>,
    pub cover_path: Option<Seq<char>>,
    pub summary: Option<Seq<char>>,
    pub genres: Seq<Seq<char>>,
    pub platforms: Seq<Seq<char>>,
    pub release_date: Option<Seq<char>>,
    pub developer: Seq<Seq<char>>,
    pub publisher: Seq<Seq<char>>,
    pub steam_id: Option<i64>,
}

/// An optional string as plain values.
pub open spec fn text_view(text: Option<String>) -> Option<Seq<char>> {
    match text {
        Some(s) => Some(s@),
        None => None,
    }
}

impl View for GameRecord {
    type V = GameRecordView;

    open spec fn view(&self) -> GameRecordView {
        GameRecordView {
            name: self.name@,
            cover_url: text_view(self.cover_url),
            cover_path: text_view(self.cover_path),
            summary: text_view(self.summary),
            genres: self.genres.deep_view(),
            platforms: self.platforms.deep_view(),
            release_date: text_view(self.release_date),
            developer: self.developer.deep_view(),
            publisher: self.publisher.deep_view(),
            steam_id: self.steam_id,
        }
    }
}

/// The providers, in the order in which they are asked.
#[derive(Clone, Copy, Debug, PartialEq, Eq, Structural)]
pub enum Provider {
    Steam,
    Gog,
    Rawg,
    Screenscraper,
}

/// What follows a provider's answer.
#[derive(Clone, Copy, Debug, PartialEq, Eq, Structural)]
pub enum ProviderStep {
    /// The answer gives the record.
    Accept(Provider),
    /// The next provider is asked.
    Ask(Provider),
    /// No provider is left: a placeholder record is made.
    Placeholder,
}

/// What begins a summary that was made up for want of a real one.
pub const PLACEHOLDER_PREFIX: &'static str = "Game: ";

/// What follows the name in the summary of a placeholder record.
pub const PLACEHOLDER_BODY: &'static str =
    "\n\nNo detailed information available. Install API credentials to get full metadata.";

/// The platform that every record of a desktop game bears.
pub const PC_PLATFORM: &'static str = "PC";

/// The description is a real one: there is one, and it does not begin like a
/// placeholder.
pub open spec fn real_description(description: Option<Seq<char>>) -> bool {
    match description {
        Some(text) => !starts_with(text, PLACEHOLDER_PREFIX@),
        None => false,
    }
}

/// The provider that is asked after `asked`, if any is left.
pub open spec fn provider_after(asked: Provider) -> Option<Provider> {
    match asked {
        Provider::Steam => Some(Provider::Gog),
        Provider::Gog => Some(Provider::Rawg),
        Provider::Rawg => Some(Provider::Screenscraper),
        Provider::Screenscraper => None,
    }
}

/// What follows the answer of `asked`, of which `description` is the
/// description, or `None` where the provider had no game or no description.
pub open spec fn step_after(asked: Provider, description: Option<Seq<char>>) -> ProviderStep {
    if real_description(description) {
        ProviderStep::Accept(asked)
    } else {
        match provider_after(asked) {
            Some(next) => ProviderStep::Ask(next),
            None => ProviderStep::Placeholder,
        }
    }
}

/// The summary of a placeholder record for the game `name`.
pub open spec fn placeholder_summary(name: Seq<char>) -> Seq<char> {
    PLACEHOLDER_PREFIX@ + name + PLACEHOLDER_BODY@
}

/// The first screenshot for the region `us` decides the cover: its address,
/// if it has one. Later media are not looked at.
pub open spec fn cover_of(medias: Seq<ScreenscraperMedia>) -> Option<Seq<char>>
    decreases medias.len(),
{
    if medias.len() == 0 {
        None
    } else if is_us_screenshot(medias[0]) {
        text_view(medias[0].url)
    } else {
        cover_of(medias.skip(1))
    }
}

/// The media is a screenshot for the region `us`.
pub open spec fn is_us_screenshot(media: ScreenscraperMedia) -> bool {
    media.media_type@ == "ss"@ && text_view(media.region) == Some("us"@)
}

/// A list of one string, or of none.
pub open spec fn one_or_none(text: Option<String>) -> Seq<Seq<char>> {
    match text {
        Some(s) => seq![s@],
        None => Seq::empty(),
    }
}

/// Something that goes by a name.
pub trait Named {
    /// The name as plain values.
    spec fn name_view(&self) -> Seq<char>;

    /// The name.
    fn name_text(&self) -> (name: &String)
        ensures
            name@ == self.name_view(),
    ;

    /// The thing that goes by `name` and has nothing else to it.
    fn named(name: String) -> (thing: Self) where Self: Sized
        ensures
            thing.name_view() == name@,
    ;
}

impl Named for SteamGenre {
    open spec fn name_view(&self) -> Seq<char> {
        self.description@
    }

    fn name_text(&self) -> (name: &String) {
        &self.description
    }

    fn named(name: String) -> (thing: Self) {
        SteamGenre { description: name }
    }
}

impl Named for RawgGenre {
    open spec fn name_view(&self) -> Seq<char> {
        self.name@
    }

    fn name_text(&self) -> (name: &String) {
        &self.name
    }

    fn named(name: String) -> (thing: Self) {
        RawgGenre { name }
    }
}

impl Named for RawgPlatform {
    open spec fn name_view(&self) -> Seq<char> {
        self.platform.name@
    }

    fn name_text(&self) -> (name: &String) {
        &self.platform.name
    }

    fn named(name: String) -> (thing: Self) {
        RawgPlatform { platform: RawgPlatformInfo { name } }
    }
}

impl Named for RawgDeveloper {
    open spec fn name_view(&self) -> Seq<char> {
        self.name@
    }

    fn name_text(&self) -> (name: &String) {
        &self.name
    }

    fn named(name: String) -> (thing: Self) {
        RawgDeveloper { name }
    }
}

impl Named for RawgPublisher {
    open spec fn name_view(&self) -> Seq<char> {
        self.name@
    }

    fn name_text(&self) -> (name: &String) {
        &self.name
    }

    fn named(name: String) -> (thing: Self) {
        RawgPublisher { name }
    }
}

impl Named for RawgScreenshot {
    open spec fn name_view(&self) -> Seq<char> {
        self.image@
    }

    fn name_text(&self) -> (name: &String) {
        &self.image
    }

    fn named(name: String) -> (thing: Self) {
        RawgScreenshot { image: name }
    }
}

impl Named for GogGenre {
    open spec fn name_view(&self) -> Seq<char> {
        self.name@
    }

    fn name_text(&self) -> (name: &String) {
        &self.name
    }

    fn named(name: String) -> (thing: Self) {
        GogGenre { name }
    }
}

impl Named for GogDeveloper {
    open spec fn name_view(&self) -> Seq<char> {
        self.name@
    }

    fn name_text(&self) -> (name: &String) {
        &self.name
    }

    fn named(name: String) -> (thing: Self) {
        GogDeveloper { name }
    }
}

impl Named for GogPublisher {
    open spec fn name_view(&self) -> Seq<char> {
        self.name@
    }

    fn name_text(&self) -> (name: &String) {
        &self.name
    }

    fn named(name: String) -> (thing: Self) {
        GogPublisher { name }
    }
}

/// The names of the things in `list`, in order.
pub fn names_of<T: Named>(list: &Vec<T>) -> (names: Vec<String>)
    ensures
        names.deep_view() == list@.map_values(|item: T| item.name_view()),
{
    let mut names: Vec<String> = Vec::new();
    let mut i: usize = 0;
    while i < list.len()
        invariant
            i <= list.len(),
            names.len() == i,
            forall|k: int| 0 <= k < i ==> (#[trigger] names[k])@ == list[k].name_view(),
        decreases list.len() - i,
    {
        names.push(list[i].name_text().clone());
        i += 1;
    }
    names
}

/// A copy of a list of strings.
pub fn copy_of(list: &Vec<String>) -> (copy: Vec<String>)
    ensures
        copy.deep_view() == list.deep_view(),
{
    let mut copy: Vec<String> = Vec::new();
    let mut i: usize = 0;
    while i < list.len()
        invariant
            i <= list.len(),
            copy.len() == i,
            forall|k: int| 0 <= k < i ==> (#[trigger] copy[k])@ == list[k]@,
        decreases list.len() - i,
    {
        copy.push(list[i].clone());
        i += 1;
    }
    copy
}

/// A list of one string, or of none.
fn list_of(text: &Option<String>) -> (list: Vec<String>)
    ensures
        list.deep_view() == one_or_none(*text),
{
    let mut list: Vec<String> = Vec::new();
    match text {
        Some(s) => {
            list.push(s.clone());
        },
        None => {
        },
    }
    list
}

/// The platforms of a desktop game: `PC` alone.
fn pc_only() -> (list: Vec<String>)
    ensures
        list.deep_view() == seq![PC_PLATFORM@],
{
    let mut list: Vec<String> = Vec::new();
    list.push(PC_PLATFORM.to_owned());
    list
}

/// Whether a description is a real one.
pub fn is_real_description(description: &Option<String>) -> (genuine: bool)
    ensures
        genuine == real_description(text_view(*description)),
{
    match description {
        Some(text) => !has_prefix(&chars_of(text.as_str()), &chars_of(PLACEHOLDER_PREFIX)),
        None => false,
    }
}

/// The provider that is asked first.
pub fn first_provider() -> (provider: Provider)
    ensures
        provider == Provider::Steam,
{
    Provider::Steam
}

/// Decides what follows a provider's answer.
pub fn next_step(asked: Provider, description: &Option<String>) -> (step: ProviderStep)
    ensures
        step == step_after(asked, text_view(*description)),
{
    if is_real_description(description) {
        ProviderStep::Accept(asked)
    } else {
        match asked {
            Provider::Steam => ProviderStep::Ask(Provider::Gog),
            Provider::Gog => ProviderStep::Ask(Provider::Rawg),
            Provider::Rawg => ProviderStep::Ask(Provider::Screenscraper),
            Provider::Screenscraper => ProviderStep::Placeholder,
        }
    }
}

/// The address of the cover among the media of a Screenscraper game.
pub fn screenshot_url(medias: &Vec<ScreenscraperMedia>) -> (url: Option<String>)
    ensures
        text_view(url) == cover_of(medias@),
{
    let kind = chars_of("ss");
    let region = chars_of("us");
    let mut i: usize = 0;
    assert(medias@.skip(0) =~= medias@);
    while i < medias.len()
        invariant
            i <= medias.len(),
            kind@ == "ss"@,
            region@ == "us"@,
            cover_of(medias@.skip(i as int)) == cover_of(medias@),
        decreases medias.len() - i,
    {
        let media = &medias[i];
        assert(medias@.skip(i as int).skip(1) =~= medias@.skip(i + 1));
        let is_shot = crate::text::same_chars(&chars_of(media.media_type.as_str()), &kind);
        let is_us = match &media.region {
            Some(r) => crate::text::same_chars(&chars_of(r.as_str()), &region),
            None => false,
        };
        if is_shot && is_us {
            return media.url.clone();
        }
        i += 1;
    }
    None
}

/// The record of a game that Steam reported.
pub fn steam_record(game: &SteamGameData) -> (record: GameRecord)
    ensures
        record@ == (GameRecordView {
            name: game.name@,
            cover_url: text_view(game.header_image),
            cover_path: None,
            summary: text_view(game.short_description),
            genres: game.genres@.map_values(|g: SteamGenre| g.name_view()),
            platforms: seq![PC_PLATFORM@],
            release_date: match game.release_date {
                Some(d) => Some(d.date@),
                None => None,
            },
            developer: game.developers.deep_view(),
            publisher: game.publishers.deep_view(),
            steam_id: game.steam_appid,
        }),
{
    GameRecord {
        name: game.name.clone(),
        cover_url: game.header_image.clone(),
        cover_path: None,
        summary: game.short_description.clone(),
        genres: names_of(&game.genres),
        platforms: pc_only(),
        release_date: match &game.release_date {
            Some(d) => Some(d.date.clone()),
            None => None,
        },
        developer: copy_of(&game.developers),
        publisher: copy_of(&game.publishers),
        steam_id: game.steam_appid,
    }
}

/// The record of a game that Screenscraper reported.
pub fn screenscraper_record(game: &ScreenscraperGame) -> (record: GameRecord)
    ensures
        record@ == (GameRecordView {
            name: game.nom@,
            cover_url: match game.medias {
                Some(medias) => cover_of(medias@),
                None => None,
            },
            cover_path: None,
            summary: text_view(game.synopsis),
            genres: one_or_none(game.genre),
            platforms: seq![PC_PLATFORM@],
            release_date: match game.dates {
                Some(d) => text_view(d.us),
                None => None,
            },
            developer: one_or_none(game.developpeur),
            publisher: one_or_none(game.editeur),
            steam_id: None,
        }),
{
    GameRecord {
        name: game.nom.clone(),
        cover_url: match &game.medias {
            Some(medias) => screenshot_url(medias),
            None => None,
        },
        cover_path: None,
        summary: game.synopsis.clone(),
        genres: list_of(&game.genre),
        platforms: pc_only(),
        release_date: match &game.dates {
            Some(d) => d.us.clone(),
            None => None,
        },
        developer: list_of(&game.developpeur),
        publisher: list_of(&game.editeur),
        steam_id: None,
    }
}

/// The placeholder record of a game of which no provider knew anything real.
pub fn placeholder_record(name: &str, cover_path: Option<String>) -> (record: GameRecord)
    ensures
        record@ == (GameRecordView {
            name: name@,
            cover_url: None,
            cover_path: text_view(cover_path),
            summary: Some(placeholder_summary(name@)),
            genres: Seq::empty(),
            platforms: seq![PC_PLATFORM@],
            release_date: None,
            developer: Seq::empty(),
            publisher: Seq::empty(),
            steam_id: None,
        }),
{
    let begun = followed_by(PLACEHOLDER_PREFIX, name);
    let summary = followed_by(begun.as_str(), PLACEHOLDER_BODY);
    let genres: Vec<String> = Vec::new();
    let developer: Vec<String> = Vec::new();
    let publisher: Vec<String> = Vec::new();
    assert(publisher.deep_view() =~= Seq::<Seq<char>>::empty());
    GameRecord {
        name: name.to_owned(),
        cover_url: None,
        cover_path,
        summary: Some(summary),
        genres,
        platforms: pc_only(),
        release_date: None,
        developer,
        publisher,
        steam_id: None,
    }
}

} // verus!
