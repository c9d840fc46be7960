//! The settings of the launcher's looks and behaviour: the paths by which
//! they are addressed, the values that are read for them, and the defaults
//! of the looks.

use vstd::prelude::*;
use crate::navigate::{parse_number, parsed_number};
use crate::text::{chars_of, fields, same_chars, split_fields, string_of};

verus! {

/// A setting that can be read and written by its path.
#[derive(Clone, Debug)]
pub enum ConfigKey {
    /// `appearance.theme`
    Theme,
    /// `appearance.colors.<name>`
    Color(String),
    /// `behavior.auto_refresh_ratings`
    AutoRefreshRatings,
    /// `behavior.confirm_rating_changes`
    ConfirmRatingChanges,
    /// `behavior.rating_precision`
    RatingPrecision,
    /// `behavior.default_rating`
    DefaultRating,
    /// `behavior.rating_range.min`
    RatingRangeMin,
    /// `behavior.rating_range.max`
    RatingRangeMax,
}

/// A [`ConfigKey`] as plain values.
pub enum ConfigKeyView {
    Theme,
    Color(Seq<char>),
    AutoRefreshRatings,
    ConfirmRatingChanges,
    RatingPrecision,
    DefaultRating,
    RatingRangeMin,
    RatingRangeMax,
}

impl View for ConfigKey {
    type V = ConfigKeyView;

    open spec fn view(&self) -> ConfigKeyView {
        match *self {
            ConfigKey::Theme => ConfigKeyView::Theme,
            ConfigKey::Color(name) => ConfigKeyView::Color(name@),
            ConfigKey::AutoRefreshRatings => ConfigKeyView::AutoRefreshRatings,
            ConfigKey::ConfirmRatingChanges => ConfigKeyView::ConfirmRatingChanges,
            ConfigKey::RatingPrecision => ConfigKeyView::RatingPrecision,
            ConfigKey::DefaultRating => ConfigKeyView::DefaultRating,
            ConfigKey::RatingRangeMin => ConfigKeyView::RatingRangeMin,
            ConfigKey::RatingRangeMax => ConfigKeyView::RatingRangeMax,
        }
    }
}

/// A font of the launcher.
#[derive(Clone, Debug)]
pub struct FontConfig {
    pub family: String,
    pub size: u32,
    pub weight: String,
}

/// The looks of the list of games.
#[derive(Clone, Debug)]
pub struct GameListConfig {
    pub row_height: u32,
    pub alternating_colors: bool,
    pub alternating_color: String,
    pub hover_color: String,
    pub selected_color: String,
    pub rating_color: String,
    pub custom_rating_color: String,
    pub favorite_color: String,
}

/// The theme that the launcher starts with.
pub const DEFAULT_THEME: &'static str = "dark";

/// The colours that the launcher starts with, by name.
pub const DEFAULT_COLORS: [(&'static str, &'static str); 12] = [
    ("background", "#1e1e1e"),
    ("foreground", "#ffffff"),
    ("secondary_background", "#2d2d2d"),
    ("secondary_foreground", "#cccccc"),
    ("accent", "#0078d4"),
    ("accent_hover", "#106ebe"),
    ("success", "#107c10"),
    ("warning", "#ff8c00"),
    ("error", "#d13438"),
    ("border", "#404040"),
    ("selection", "#0078d4"),
    ("selection_background", "#1a4a6b"),
];

/// The fonts that the launcher starts with: name, family, size and weight.
pub const DEFAULT_FONTS: [(&'static str, &'static str, u32, &'static str); 4] = [
    ("default", "Segoe UI", 9, "normal"),
    ("heading", "Segoe UI", 10, "bold"),
    ("small", "Segoe UI", 8, "normal"),
    ("large", "Segoe UI", 12, "normal"),
];

/// The setting that the fields of a path address.
pub open spec fn key_of(parts: Seq<Seq<char>>) -> Option<ConfigKeyView> {
    if parts.len() == 2 {
        if parts[0] == "appearance"@ {
            if parts[1] == "theme"@ {
                Some(ConfigKeyView::Theme)
            } else {
                None
            }
        } else if parts[0] == "behavior"@ {
            if parts[1] == "auto_refresh_ratings"@ {
                Some(ConfigKeyView::AutoRefreshRatings)
            } else if parts[1] == "confirm_rating_changes"@ {
                Some(ConfigKeyView::ConfirmRatingChanges)
            } else if parts[1] == "rating_precision"@ {
                Some(ConfigKeyView::RatingPrecision)
            } else if parts[1] == "default_rating"@ {
                Some(ConfigKeyView::DefaultRating)
            } else {
                None
            }
        } else {
            None
        }
    } else if parts.len() == 3 {
        if parts[0] == "appearance"@ && parts[1] == "colors"@ {
            Some(ConfigKeyView::Color(parts[2]))
        } else if parts[0] == "behavior"@ && parts[1] == "rating_range"@ {
            if parts[2] == "min"@ {
                Some(ConfigKeyView::RatingRangeMin)
            } else if parts[2] == "max"@ {
                Some(ConfigKeyView::RatingRangeMax)
            } else {
                None
            }
        } else {
            None
        }
    } else {
        None
    }
}

/// The setting that a path addresses. The fields of a path are separated by
/// dots.
pub open spec fn config_key_of(path: Seq<char>) -> Option<ConfigKeyView> {
    key_of(fields(path, '.'))
}

/// The fields address the colours: they begin with `appearance` and
/// `colors`.
pub open spec fn addresses_colors(parts: Seq<Seq<char>>) -> bool {
    parts.len() >= 2 && parts[0] == "appearance"@ && parts[1] == "colors"@
}

/// A path that addresses the colours and names none: `appearance.colors`.
pub open spec fn lacks_color_name(path: Seq<char>) -> bool {
    addresses_colors(fields(path, '.')) && fields(path, '.').len() == 2
}

/// The colour that a path names: the field after `appearance.colors`. What
/// follows that field is not looked at.
pub open spec fn color_name_of(path: Seq<char>) -> Option<Seq<char>> {
    if addresses_colors(fields(path, '.')) {
        Some(fields(path, '.')[2])
    } else {
        None
    }
}

/// The truth value that `value` writes: `true` or `false`, as written.
pub open spec fn parsed_bool(value: Seq<char>) -> Option<bool> {
    if value == "true"@ {
        Some(true)
    } else if value == "false"@ {
        Some(false)
    } else {
        None
    }
}

/// The number that `value` writes, where 32 bits hold it.
pub open spec fn parsed_u32(value: Seq<char>) -> Option<u32> {
    match parsed_number(value) {
        Some(n) => if n <= u32::MAX {
            Some(n as u32)
        } else {
            None
        },
        None => None,
    }
}

/// Reads the setting that a path addresses.
pub fn parse_config_path(path: &str) -> (key: Option<ConfigKey>)
    ensures
        (match key {
            Some(k) => Some(k@),
            None => None,
        }) == config_key_of(path@),
{
    let parts = split_fields(&chars_of(path), '.');
    let ghost seen = parts.deep_view();
    if parts.len() == 2 {
        assert(seen[0] =~= parts[0]@ && seen[1] =~= parts[1]@);
        if same_chars(&parts[0], &chars_of("appearance")) {
            if same_chars(&parts[1], &chars_of("theme")) {
                Some(ConfigKey::Theme)
            } else {
                None
            }
        } else if same_chars(&parts[0], &chars_of("behavior")) {
            if same_chars(&parts[1], &chars_of("auto_refresh_ratings")) {
                Some(ConfigKey::AutoRefreshRatings)
            } else if same_chars(&parts[1], &chars_of("confirm_rating_changes")) {
                Some(ConfigKey::ConfirmRatingChanges)
            } else if same_chars(&parts[1], &chars_of("rating_precision")) {
                Some(ConfigKey::RatingPrecision)
            } else if same_chars(&parts[1], &chars_of("default_rating")) {
                Some(ConfigKey::DefaultRating)
            } else {
                None
            }
        } else {
            None
        }
    } else if parts.len() == 3 {
        assert(seen[0] =~= parts[0]@ && seen[1] =~= parts[1]@ && seen[2] =~= parts[2]@);
        if same_chars(&parts[0], &chars_of("appearance")) && same_chars(
            &parts[1],
            &chars_of("colors"),
        ) {
            Some(ConfigKey::Color(string_of(&parts[2])))
        } else if same_chars(&parts[0], &chars_of("behavior")) && same_chars(
            &parts[1],
            &chars_of("rating_range"),
        ) {
            if same_chars(&parts[2], &chars_of("min")) {
                Some(ConfigKey::RatingRangeMin)
            } else if same_chars(&parts[2], &chars_of("max")) {
                Some(ConfigKey::RatingRangeMax)
            } else {
                None
            }
        } else {
            None
        }
    } else {
        None
    }
}

/// Whether a path addresses the colours and names none.
pub fn is_bare_color_path(path: &str) -> (bare: bool)
    ensures
        bare == lacks_color_name(path@),
{
    let parts = split_fields(&chars_of(path), '.');
    if parts.len() != 2 {
        return false;
    }
    assert(parts.deep_view()[0] =~= parts[0]@ && parts.deep_view()[1] =~= parts[1]@);
    same_chars(&parts[0], &chars_of("appearance")) && same_chars(&parts[1], &chars_of("colors"))
}

/// Reads the colour that a path names.
pub fn color_name(path: &str) -> (name: Option<String>)
    requires
        !lacks_color_name(path@),
    ensures
        (match name {
            Some(n) => Some(n@),
            None => None,
        }) == color_name_of(path@),
{
    let parts = split_fields(&chars_of(path), '.');
    if parts.len() < 2 {
        return None;
    }
    assert(parts.deep_view()[0] =~= parts[0]@ && parts.deep_view()[1] =~= parts[1]@);
    if same_chars(&parts[0], &chars_of("appearance")) && same_chars(
        &parts[1],
        &chars_of("colors"),
    ) {
        Some(string_of(&parts[2]))
    } else {
        None
    }
}

/// Reads a truth value.
pub fn parse_bool(value: &str) -> (parsed: Option<bool>)
    ensures
        parsed == parsed_bool(value@),
{
    let chars = chars_of(value);
    if same_chars(&chars, &chars_of("true")) {
        Some(true)
    } else if same_chars(&chars, &chars_of("false")) {
        Some(false)
    } else {
        None
    }
}

/// Reads a number that 32 bits hold.
pub fn parse_u32(value: &str) -> (parsed: Option<u32>)
    ensures
        parsed == parsed_u32(value@),
{
    match parse_number(&chars_of(value)) {
        Some(n) => if n <= u32::MAX as usize {
            Some(n as u32)
        } else {
            None
        },
        None => None,
    }
}

/// The colours that the launcher starts with, each with its name, in the
/// order of [`DEFAULT_COLORS`].
pub fn default_colors() -> (colors: Vec<(String, String)>)
    ensures
        colors.len() == DEFAULT_COLORS@.len(),
        forall|i: int|
            0 <= i < colors.len() ==> {
                &&& (#[trigger] colors[i]).0@ == DEFAULT_COLORS@[i].0@
                &&& colors[i].1@ == DEFAULT_COLORS@[i].1@
            },
{
    let mut colors: Vec<(String, String)> = Vec::new();
    let mut i: usize = 0;
    while i < DEFAULT_COLORS.len()
        invariant
            i <= DEFAULT_COLORS@.len(),
            colors.len() == i,
            forall|k: int|
                0 <= k < i ==> {
                    &&& (#[trigger] colors[k]).0@ == DEFAULT_COLORS@[k].0@
                    &&& colors[k].1@ == DEFAULT_COLORS@[k].1@
                },
        decreases DEFAULT_COLORS@.len() - i,
    {
        let (name, color) = DEFAULT_COLORS[i];
        colors.push((name.to_owned(), color.to_owned()));
        i += 1;
    }
    colors
}

/// The fonts that the launcher starts with, each with its name, in the order
/// of [`DEFAULT_FONTS`].
pub fn default_fonts() -> (fonts: Vec<(String, FontConfig)>)
    ensures
        fonts.len() == DEFAULT_FONTS@.len(),
        forall|i: int|
            0 <= i < fonts.len() ==> {
                &&& (#[trigger] fonts[i]).0@ == DEFAULT_FONTS@[i].0@
                &&& fonts[i].1.family@ == DEFAULT_FONTS@[i].1@
                &&& fonts[i].1.size == DEFAULT_FONTS@[i].2
                &&& fonts[i].1.weight@ == DEFAULT_FONTS@[i].3@
            },
{
    let mut fonts: Vec<(String, FontConfig)> = Vec::new();
    let mut i: usize = 0;
    while i < DEFAULT_FONTS.len()
        invariant
            i <= DEFAULT_FONTS@.len(),
            fonts.len() == i,
            forall|k: int|
                0 <= k < i ==> {
                    &&& (#[trigger] fonts[k]).0@ == DEFAULT_FONTS@[k].0@
                    &&& fonts[k].1.family@ == DEFAULT_FONTS@[k].1@
                    &&& fonts[k].1.size == DEFAULT_FONTS@[k].2
                    &&& fonts[k].1.weight@ == DEFAULT_FONTS@[k].3@
                },
        decreases DEFAULT_FONTS@.len() - i,
    {
        let (name, family, size, weight) = DEFAULT_FONTS[i];
        fonts.push(
            (
                name.to_owned(),
                FontConfig { family: family.to_owned(), size, weight: weight.to_owned() },
            ),
        );
        i += 1;
    }
    fonts
}

/// The looks that the list of games starts with.
pub fn default_game_list() -> (list: GameListConfig)
    ensures
        list.row_height == 20,
        list.alternating_colors,
        list.alternating_color@ == "#252525"@,
        list.hover_color@ == "#3a3a3a"@,
        list.selected_color@ == "#0078d4"@,
        list.rating_color@ == "#b0b0b0"@,
        list.custom_rating_color@ == "#ffd700"@,
        list.favorite_color@ == "#ffd700"@,
{
    GameListConfig {
        row_height: 20,
        alternating_colors: true,
        alternating_color: "#252525".to_owned(),
        hover_color: "#3a3a3a".to_owned(),
        selected_color: "#0078d4".to_owned(),
        rating_color: "#b0b0b0".to_owned(),
        custom_rating_color: "#ffd700".to_owned(),
        favorite_color: "#ffd700".to_owned(),
    }
}

} // verus!
