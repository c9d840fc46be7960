//! Reading the answers of the metadata providers: from the JSON that a
//! provider sent to the game it describes.
//!
//! A field that is missing, or is of another kind than expected, reads as
//! absent; a name that is absent reads as empty. Nothing here fails.

use vstd::prelude::*;
use crate::json::JsonValue;
use crate::providers::{
    text_view, Named, RawgPlatform, ScreenscraperDates, ScreenscraperGame, ScreenscraperMedia,
    SteamGameData, SteamGenre, SteamReleaseDate,
};
use crate::text::string_of;

verus! {

/// The text of a value that may be absent; `None` unless it is a string.
pub open spec fn text_in(value: Option<JsonValue>) -> Option<Seq<char>> {
    match value {
        Some(v) => v.text(),
        None => None,
    }
}

/// The text of a value that may be absent; empty unless it is a string.
pub open spec fn text_or_empty(value: Option<JsonValue>) -> Seq<char> {
    match text_in(value) {
        Some(text) => text,
        None => Seq::empty(),
    }
}

/// The whole number that a value which may be absent holds.
pub open spec fn integer_in(value: Option<JsonValue>) -> Option<i64> {
    match value {
        Some(v) => v.integer(),
        None => None,
    }
}

/// The items of a value that may be absent; `None` unless it is a list.
pub open spec fn items_in(value: Option<JsonValue>) -> Option<Seq<JsonValue>> {
    match value {
        Some(v) => v.items(),
        None => None,
    }
}

/// The member under `key` of a value that may be absent.
pub open spec fn member_in(value: Option<JsonValue>, key: Seq<char>) -> Option<JsonValue> {
    match value {
        Some(v) => v.member(key),
        None => None,
    }
}

/// The first item of a value that may be absent, if it is a list with items.
pub open spec fn first_in(value: Option<JsonValue>) -> Option<JsonValue> {
    match items_in(value) {
        Some(items) => if items.len() > 0 {
            Some(items[0])
        } else {
            None
        },
        None => None,
    }
}

/// The name that an item of a list of objects goes by: the text under `key`,
/// or the empty name. An item that is no object has no name.
pub open spec fn name_of_item(item: JsonValue, key: Seq<char>) -> Option<Seq<char>> {
    if item is Object {
        Some(text_or_empty(item.member(key)))
    } else {
        None
    }
}

/// The names of the objects in a list, in order.
pub open spec fn names_in(items: Seq<JsonValue>, key: Seq<char>) -> Seq<Seq<char>> {
    items.filter_map(|item: JsonValue| name_of_item(item, key))
}

/// The strings in a list, in order.
pub open spec fn strings_in(items: Seq<JsonValue>) -> Seq<Seq<char>> {
    items.filter_map(|item: JsonValue| item.text())
}

/// The name of the platform inside a platform entry: the text under `name`
/// of the object under `platform`, or the empty name.
pub open spec fn platform_name_of_item(item: JsonValue) -> Option<Seq<char>> {
    if item is Object {
        match item.member("platform"@) {
            Some(platform) => Some(name_of_item(platform, "name"@).unwrap_or(Seq::empty())),
            None => Some(Seq::empty()),
        }
    } else {
        None
    }
}

/// The decimal digit for a number below ten.
pub open spec fn digit_char(d: nat) -> char {
    if d == 0 {
        '0'
    } else if d == 1 {
        '1'
    } else if d == 2 {
        '2'
    } else if d == 3 {
        '3'
    } else if d == 4 {
        '4'
    } else if d == 5 {
        '5'
    } else if d == 6 {
        '6'
    } else if d == 7 {
        '7'
    } else if d == 8 {
        '8'
    } else {
        '9'
    }
}

/// The decimal digits of a natural number, without leading zeros.
pub open spec fn digits_of(n: nat) -> Seq<char>
    decreases n,
{
    if n < 10 {
        seq![digit_char(n)]
    } else {
        digits_of(n / 10).push(digit_char(n % 10))
    }
}

/// A whole number in decimal, with a minus sign where it is negative.
pub open spec fn integer_text(n: int) -> Seq<char> {
    if n < 0 {
        seq!['-'] + digits_of((-n) as nat)
    } else {
        digits_of(n as nat)
    }
}

/// The part of Steam's answer to a request for details that describes the
/// game `steam_id`: the member `data` of the member that bears the id, where
/// its member `success` is true.
pub open spec fn steam_details_in(answer: JsonValue, steam_id: i64) -> Option<JsonValue> {
    let entry = answer.member(integer_text(steam_id as int));
    match member_in(entry, "success"@) {
        Some(JsonValue::Bool(true)) => member_in(entry, "data"@),
        _ => None,
    }
}

/// The names under `name_key` of the objects in the list under `list_key`;
/// none where there is no such list.
pub open spec fn names_under(value: JsonValue, list_key: Seq<char>, name_key: Seq<char>) -> Seq<
    Seq<char>,
> {
    match items_in(value.member(list_key)) {
        Some(items) => names_in(items, name_key),
        None => Seq::empty(),
    }
}

/// The strings in the list under `key`; none where there is no such list.
pub open spec fn strings_under(value: JsonValue, key: Seq<char>) -> Seq<Seq<char>> {
    match items_in(value.member(key)) {
        Some(items) => strings_in(items),
        None => Seq::empty(),
    }
}

/// The objects in a list, in order.
pub open spec fn objects_in(items: Seq<JsonValue>) -> Seq<JsonValue> {
    items.filter_map(
        |item: JsonValue|
            if item is Object {
                Some(item)
            } else {
                None
            },
    )
}

/// `game` is what the part `data` of Steam's details says of the game
/// `steam_id`.
pub open spec fn is_steam_game(game: SteamGameData, steam_id: i64, data: JsonValue) -> bool {
    &&& game.steam_appid == Some(steam_id)
    &&& game.name@ == text_or_empty(data.member("name"@))
    &&& text_view(game.header_image) == text_in(data.member("header_image"@))
    &&& text_view(game.short_description) == text_in(data.member("short_description"@))
    &&& game.genres@.map_values(|g: SteamGenre| g.name_view()) == names_under(
        data,
        "genres"@,
        "description"@,
    )
    &&& match game.release_date {
        Some(release) => data.member("release_date"@) matches Some(found) && found is Object
            && release.date@ == text_or_empty(found.member("date"@)),
        None => !(data.member("release_date"@) matches Some(found) && found is Object),
    }
    &&& game.developers.deep_view() == strings_under(data, "developers"@)
    &&& game.publishers.deep_view() == strings_under(data, "publishers"@)
}

/// `game` is what a hit of Steam's search says of the game `steam_id`, for
/// want of details: its name and its small picture.
pub open spec fn is_steam_hit(game: SteamGameData, steam_id: i64, hit: JsonValue) -> bool {
    &&& game.steam_appid == Some(steam_id)
    &&& game.name@ == text_or_empty(hit.member("name"@))
    &&& text_view(game.header_image) == text_in(hit.member("tiny_image"@))
    &&& game.short_description is None
    &&& game.genres@.len() == 0
    &&& game.release_date is None
    &&& game.developers@.len() == 0
    &&& game.publishers@.len() == 0
}

/// `media` is what the object `item` says of a picture or video.
pub open spec fn is_media(media: ScreenscraperMedia, item: JsonValue) -> bool {
    &&& media.media_type@ == text_or_empty(item.member("type"@))
    &&& text_view(media.region) == text_in(item.member("region"@))
    &&& text_view(media.url) == text_in(item.member("url"@))
}

/// `medias` is what the objects of a list say, one for one.
pub open spec fn are_medias(medias: Seq<ScreenscraperMedia>, items: Seq<JsonValue>) -> bool {
    &&& medias.len() == objects_in(items).len()
    &&& forall|i: int| 0 <= i < medias.len() ==> is_media(#[trigger] medias[i], objects_in(items)[i])
}

/// `game` is what the object `jeu` of Screenscraper's answer says of a game.
pub open spec fn is_screenscraper_game(game: ScreenscraperGame, jeu: JsonValue) -> bool {
    &&& game.id == integer_in(jeu.member("id"@)).unwrap_or(0)
    &&& game.nom@ == text_or_empty(jeu.member("nom"@))
    &&& text_view(game.synopsis) == text_in(jeu.member("synopsis"@))
    &&& text_view(game.genre) == text_in(jeu.member("genre"@))
    &&& text_view(game.developpeur) == text_in(jeu.member("developpeur"@))
    &&& text_view(game.editeur) == text_in(jeu.member("editeur"@))
    &&& match game.dates {
        Some(dates) => jeu.member("dates"@) matches Some(found) && found is Object && text_view(
            dates.us,
        ) == text_in(found.member("us"@)),
        None => !(jeu.member("dates"@) matches Some(found) && found is Object),
    }
    &&& match game.medias {
        Some(medias) => items_in(jeu.member("medias"@)) matches Some(items) && are_medias(
            medias@,
            items,
        ),
        None => items_in(jeu.member("medias"@)) is None,
    }
}

/// The game that Screenscraper's answer to a search names first: the id of
/// the first of the games under `response`.
pub open spec fn first_jeu_id(answer: JsonValue) -> Option<i64> {
    integer_in(
        member_in(first_in(member_in(answer.member("response"@), "jeux"@)), "id"@),
    )
}

/// The text under `key`, if there is one.
pub fn text_field(value: &JsonValue, key: &str) -> (text: Option<String>)
    ensures
        text_view(text) == text_in(value.member(key@)),
{
    match value.get(key) {
        Some(v) => match v.as_str() {
            Some(s) => Some(s.clone()),
            None => None,
        },
        None => None,
    }
}

/// The text under `key`, or the empty text.
pub fn text_field_or_empty(value: &JsonValue, key: &str) -> (text: String)
    ensures
        text@ == text_or_empty(value.member(key@)),
{
    match text_field(value, key) {
        Some(s) => s,
        None => String::new(),
    }
}

/// The whole number under `key`, if there is one.
pub fn integer_field(value: &JsonValue, key: &str) -> (number: Option<i64>)
    ensures
        number == integer_in(value.member(key@)),
{
    match value.get(key) {
        Some(v) => v.as_i64(),
        None => None,
    }
}

/// The first item of the list under `key`, if there is one.
pub fn first_item<'a>(value: &'a JsonValue, key: &str) -> (first: Option<&'a JsonValue>)
    ensures
        (match first {
            Some(v) => Some(*v),
            None => None,
        }) == first_in(value.member(key@)),
{
    match value.get(key) {
        Some(list) => match list.as_array() {
            Some(items) => if items.len() > 0 {
                Some(&items[0])
            } else {
                None
            },
            None => None,
        },
        None => None,
    }
}

/// The things that the objects of the list under `list_key` name, each by its
/// text under `name_key`; `None` where there is no list under `list_key`.
pub fn named_items<T: Named>(value: &JsonValue, list_key: &str, name_key: &str) -> (things: Option<
    Vec<T>,
>)
    ensures
        match things {
            Some(list) => items_in(value.member(list_key@)) matches Some(items) && list@.map_values(
                |thing: T| thing.name_view(),
            ) == names_in(items, name_key@),
            None => items_in(value.member(list_key@)) is None,
        },
{
    let items = match value.get(list_key) {
        Some(list) => match list.as_array() {
            Some(items) => items,
            None => {
                return None;
            },
        },
        None => {
            return None;
        },
    };
    let mut things: Vec<T> = Vec::new();
    let mut i: usize = 0;
    while i < items.len()
        invariant
            i <= items.len(),
            things@.map_values(|thing: T| thing.name_view()) == names_in(
                items@.take(i as int),
                name_key@,
            ),
        decreases items.len() - i,
    {
        assert(items@.take(i + 1).drop_last() =~= items@.take(i as int));
        match &items[i] {
            JsonValue::Object(_) => {
                let thing = T::named(text_field_or_empty(&items[i], name_key));
                things.push(thing);
            },
            _ => {},
        }
        i += 1;
    }
    assert(items@.take(items.len() as int) =~= items@);
    Some(things)
}

/// The strings of the list under `key`; `None` where there is no list.
pub fn string_items(value: &JsonValue, key: &str) -> (strings: Option<Vec<String>>)
    ensures
        match strings {
            Some(list) => items_in(value.member(key@)) matches Some(items) && list.deep_view()
                == strings_in(items),
            None => items_in(value.member(key@)) is None,
        },
{
    let items = match value.get(key) {
        Some(list) => match list.as_array() {
            Some(items) => items,
            None => {
                return None;
            },
        },
        None => {
            return None;
        },
    };
    let mut strings: Vec<String> = Vec::new();
    let mut i: usize = 0;
    while i < items.len()
        invariant
            i <= items.len(),
            strings.deep_view() == strings_in(items@.take(i as int)),
        decreases items.len() - i,
    {
        assert(items@.take(i + 1).drop_last() =~= items@.take(i as int));
        match items[i].as_str() {
            Some(s) => {
                strings.push(s.clone());
            },
            None => {},
        }
        i += 1;
    }
    assert(items@.take(items.len() as int) =~= items@);
    Some(strings)
}

/// The platforms that RAWG lists for a game; none where it lists none.
pub fn rawg_platforms(game: &JsonValue) -> (platforms: Vec<RawgPlatform>)
    ensures
        platforms@.map_values(|p: RawgPlatform| p.name_view()) == (match items_in(
            game.member("platforms"@),
        ) {
            Some(items) => items.filter_map(|item: JsonValue| platform_name_of_item(item)),
            None => Seq::empty(),
        }),
{
    let mut platforms: Vec<RawgPlatform> = Vec::new();
    let items = match game.get("platforms") {
        Some(list) => match list.as_array() {
            Some(items) => items,
            None => {
                return platforms;
            },
        },
        None => {
            return platforms;
        },
    };
    let mut i: usize = 0;
    while i < items.len()
        invariant
            i <= items.len(),
            platforms@.map_values(|p: RawgPlatform| p.name_view()) == items@.take(
                i as int,
            ).filter_map(|item: JsonValue| platform_name_of_item(item)),
        decreases items.len() - i,
    {
        assert(items@.take(i + 1).drop_last() =~= items@.take(i as int));
        match &items[i] {
            JsonValue::Object(_) => {
                let name = match items[i].get("platform") {
                    Some(platform) => match platform {
                        JsonValue::Object(_) => text_field_or_empty(platform, "name"),
                        _ => String::new(),
                    },
                    None => String::new(),
                };
                let platform = RawgPlatform::named(name);
                platforms.push(platform);
            },
            _ => {},
        }
        i += 1;
    }
    assert(items@.take(items.len() as int) =~= items@);
    platforms
}

/// Writes a whole number in decimal.
pub fn integer_to_text(n: i64) -> (text: String)
    ensures
        text@ == integer_text(n as int),
{
    let mut magnitude: u64 = if n < 0 {
        (-(n + 1)) as u64 + 1
    } else {
        n as u64
    };
    let ghost whole: nat = magnitude as nat;
    let mut reversed: Vec<char> = Vec::new();
    while magnitude >= 10
        invariant
            digits_of(whole) == digits_of(magnitude as nat) + reversed@.reverse(),
        decreases magnitude,
    {
        let d = (magnitude % 10) as u8;
        reversed.push(digit_for(d));
        magnitude = magnitude / 10;
    }
    let mut digits: Vec<char> = Vec::new();
    if n < 0 {
        digits.push('-');
    }
    let ghost sign = digits@;
    digits.push(digit_for(magnitude as u8));
    let mut i: usize = reversed.len();
    while i > 0
        invariant
            i <= reversed.len(),
            digits@ == sign + seq![digit_char(magnitude as nat)] + reversed@.reverse().take(
                reversed.len() - i,
            ),
        decreases i,
    {
        i -= 1;
        digits.push(reversed[i]);
    }
    string_of(&digits)
}

/// The decimal digit for a number below ten.
fn digit_for(d: u8) -> (c: char)
    requires
        d < 10,
    ensures
        c == digit_char(d as nat),
{
    if d == 0 {
        '0'
    } else if d == 1 {
        '1'
    } else if d == 2 {
        '2'
    } else if d == 3 {
        '3'
    } else if d == 4 {
        '4'
    } else if d == 5 {
        '5'
    } else if d == 6 {
        '6'
    } else if d == 7 {
        '7'
    } else if d == 8 {
        '8'
    } else {
        '9'
    }
}

/// Finds, in Steam's answer to a request for details, the part that
/// describes the game `steam_id`.
pub fn steam_details<'a>(answer: &'a JsonValue, steam_id: i64) -> (details: Option<&'a JsonValue>)
    ensures
        (match details {
            Some(v) => Some(*v),
            None => None,
        }) == steam_details_in(*answer, steam_id),
{
    let key = integer_to_text(steam_id);
    match answer.get(key.as_str()) {
        Some(entry) => match entry.get("success") {
            Some(JsonValue::Bool(true)) => entry.get("data"),
            _ => None,
        },
        None => None,
    }
}

/// Reads the game that the part `data` of Steam's details describes.
pub fn steam_game(steam_id: i64, data: &JsonValue) -> (game: SteamGameData)
    ensures
        is_steam_game(game, steam_id, *data),
{
    let genres: Vec<SteamGenre> = match named_items(data, "genres", "description") {
        Some(list) => list,
        None => {
            let none: Vec<SteamGenre> = Vec::new();
            assert(none@.map_values(|g: SteamGenre| g.name_view()) =~= Seq::<Seq<char>>::empty());
            none
        },
    };
    let release_date = match data.get("release_date") {
        Some(found) => match found {
            JsonValue::Object(_) => Some(
                SteamReleaseDate { date: text_field_or_empty(found, "date") },
            ),
            _ => None,
        },
        None => None,
    };
    SteamGameData {
        steam_appid: Some(steam_id),
        name: text_field_or_empty(data, "name"),
        header_image: text_field(data, "header_image"),
        short_description: text_field(data, "short_description"),
        genres,
        release_date,
        developers: strings_or_none(data, "developers"),
        publishers: strings_or_none(data, "publishers"),
    }
}

/// Reads a game from a hit of Steam's search, for want of details.
pub fn steam_game_from_hit(steam_id: i64, hit: &JsonValue) -> (game: SteamGameData)
    ensures
        is_steam_hit(game, steam_id, *hit),
{
    SteamGameData {
        steam_appid: Some(steam_id),
        name: text_field_or_empty(hit, "name"),
        header_image: text_field(hit, "tiny_image"),
        short_description: None,
        genres: Vec::new(),
        release_date: None,
        developers: Vec::new(),
        publishers: Vec::new(),
    }
}

/// The strings of the list under `key`; none where there is no list.
fn strings_or_none(value: &JsonValue, key: &str) -> (strings: Vec<String>)
    ensures
        strings.deep_view() == strings_under(*value, key@),
{
    match string_items(value, key) {
        Some(list) => list,
        None => {
            let none: Vec<String> = Vec::new();
            none
        },
    }
}

/// Reads the pictures and videos that the objects of a list describe.
fn medias_of(items: &Vec<JsonValue>) -> (medias: Vec<ScreenscraperMedia>)
    ensures
        are_medias(medias@, items@),
{
    let mut medias: Vec<ScreenscraperMedia> = Vec::new();
    let mut i: usize = 0;
    while i < items.len()
        invariant
            i <= items.len(),
            are_medias(medias@, items@.take(i as int)),
        decreases items.len() - i,
    {
        assert(items@.take(i + 1).drop_last() =~= items@.take(i as int));
        match &items[i] {
            JsonValue::Object(_) => {
                let media = ScreenscraperMedia {
                    media_type: text_field_or_empty(&items[i], "type"),
                    region: text_field(&items[i], "region"),
                    url: text_field(&items[i], "url"),
                };
                medias.push(media);
            },
            _ => {
            },
        }
        i += 1;
    }
    assert(items@.take(items.len() as int) =~= items@);
    medias
}

/// Reads the game that the object `jeu` of Screenscraper's answer describes.
pub fn screenscraper_game(jeu: &JsonValue) -> (game: ScreenscraperGame)
    ensures
        is_screenscraper_game(game, *jeu),
{
    let dates = match jeu.get("dates") {
        Some(found) => match found {
            JsonValue::Object(_) => Some(ScreenscraperDates { us: text_field(found, "us") }),
            _ => None,
        },
        None => None,
    };
    let medias = match jeu.get("medias") {
        Some(list) => match list.as_array() {
            Some(items) => Some(medias_of(items)),
            None => None,
        },
        None => None,
    };
    ScreenscraperGame {
        id: match integer_field(jeu, "id") {
            Some(id) => id,
            None => 0,
        },
        nom: text_field_or_empty(jeu, "nom"),
        synopsis: text_field(jeu, "synopsis"),
        genre: text_field(jeu, "genre"),
        developpeur: text_field(jeu, "developpeur"),
        editeur: text_field(jeu, "editeur"),
        dates,
        medias,
    }
}

/// Finds the id of the game that Screenscraper's answer to a search names
/// first.
pub fn screenscraper_first_id(answer: &JsonValue) -> (id: Option<i64>)
    ensures
        id == first_jeu_id(*answer),
{
    match answer.get("response") {
        Some(response) => match first_item(response, "jeux") {
            Some(jeu) => integer_field(jeu, "id"),
            None => None,
        },
        None => None,
    }
}

/// Finds the game in Screenscraper's answer to a request for one game: the
/// member `jeu` of the member `response`.
pub fn screenscraper_jeu<'a>(answer: &'a JsonValue) -> (jeu: Option<&'a JsonValue>)
    ensures
        (match jeu {
            Some(v) => Some(*v),
            None => None,
        }) == member_in(answer.member("response"@), "jeu"@),
{
    match answer.get("response") {
        Some(response) => response.get("jeu"),
        None => None,
    }
}

} // verus!
