//! The platform catalog: the short code of each known platform directory,
//! the dataset that a directory name belongs to, and the noise that titles
//! carry.

use vstd::hash_map::StringHashMap;
use vstd::prelude::*;
use crate::model::Dataset;
use crate::text::{chars_of, contains, has_infix, lowercase, to_lower};

verus! {

/// The known platform directories, each with its short code.
pub const PLATFORM_CODES: [(&'static str, &'static str); 103] = [
    ("Nintendo - Nintendo Entertainment System", "NES"),
    ("Nintendo - Super Nintendo Entertainment System", "SNES"),
    ("Nintendo - Nintendo 64", "N64"),
    ("Nintendo - Nintendo GameCube", "NGC"),
    ("Nintendo - Nintendo Wii", "WII"),
    ("Nintendo - Nintendo Wii U", "WIIU"),
    ("Nintendo - Nintendo Switch", "NSW"),
    ("Sony - PlayStation", "PS1"),
    ("Sony - PlayStation 2", "PS2"),
    ("Sony - PlayStation 3", "PS3"),
    ("Sony - PlayStation 4", "PS4"),
    ("Sony - PlayStation 5", "PS5"),
    ("Sony - PlayStation Portable", "PSP"),
    ("Sony - PlayStation Vita", "PSV"),
    ("Microsoft - Xbox", "XBOX"),
    ("Microsoft - Xbox 360", "X360"),
    ("Microsoft - Xbox One", "XONE"),
    ("Microsoft - Xbox Series X|S", "XSX"),
    ("Sega - Master System", "SMS"),
    ("Sega - Mega Drive - Genesis", "MD"),
    ("Sega - Sega CD", "SCD"),
    ("Sega - Sega 32X", "32X"),
    ("Sega - Sega Saturn", "SAT"),
    ("Sega - Dreamcast", "DC"),
    ("Atari - 2600", "A2600"),
    ("Atari - 5200", "A5200"),
    ("Atari - 7800", "A7800"),
    ("Atari - Jaguar", "JAG"),
    ("Atari - Lynx", "LYNX"),
    ("NEC - PC Engine - TurboGrafx-16", "PCE"),
    ("NEC - PC Engine CD - TurboGrafx-CD", "PCE-CD"),
    ("NEC - PC Engine SuperGrafx", "SGX"),
    ("NEC - PC-FX", "PCFX"),
    ("SNK - Neo Geo", "NEO"),
    ("SNK - Neo Geo CD", "NGCD"),
    ("SNK - Neo Geo Pocket", "NGP"),
    ("SNK - Neo Geo Pocket Color", "NGPC"),
    ("Bandai - WonderSwan", "WS"),
    ("Bandai - WonderSwan Color", "WSC"),
    ("Commodore - Amiga", "AMIGA"),
    ("Commodore - Commodore 64", "C64"),
    ("Commodore - Amiga CD32", "CD32"),
    ("Apple - Apple II", "APPLE2"),
    ("Apple - Macintosh", "MAC"),
    ("IBM - PC", "PC"),
    ("IBM - PC DOS", "DOS"),
    ("IBM - PC Windows", "WIN"),
    ("IBM - PC Linux", "LINUX"),
    ("IBM - PC macOS", "MACOS"),
    ("IBM - PC Android", "ANDROID"),
    ("IBM - PC iOS", "IOS"),
    ("IBM - PC Web", "WEB"),
    ("IBM - PC VR", "VR"),
    ("IBM - PC AR", "AR"),
    ("IBM - PC Cloud", "CLOUD"),
    ("IBM - PC Mobile", "MOBILE"),
    ("IBM - PC Handheld", "HANDHELD"),
    ("IBM - PC Console", "CONSOLE"),
    ("IBM - PC Arcade", "ARCADE"),
    ("IBM - PC Pinball", "PINBALL"),
    ("IBM - PC Casino", "CASINO"),
    ("IBM - PC Educational", "EDU"),
    ("IBM - PC Sports", "SPORTS"),
    ("IBM - PC Racing", "RACING"),
    ("IBM - PC Fighting", "FIGHTING"),
    ("IBM - PC Shooter", "SHOOTER"),
    ("IBM - PC Adventure", "ADV"),
    ("IBM - PC RPG", "RPG"),
    ("IBM - PC Strategy", "STRAT"),
    ("IBM - PC Simulation", "SIM"),
    ("IBM - PC Puzzle", "PUZZLE"),
    ("IBM - PC Platformer", "PLAT"),
    ("IBM - PC Action", "ACTION"),
    ("IBM - PC Horror", "HORROR"),
    ("IBM - PC Comedy", "COMEDY"),
    ("IBM - PC Drama", "DRAMA"),
    ("IBM - PC Sci-Fi", "SCIFI"),
    ("IBM - PC Fantasy", "FANTASY"),
    ("IBM - PC Historical", "HIST"),
    ("IBM - PC Military", "MIL"),
    ("IBM - PC Western", "WESTERN"),
    ("IBM - PC Crime", "CRIME"),
    ("IBM - PC Mystery", "MYSTERY"),
    ("IBM - PC Thriller", "THRILLER"),
    ("IBM - PC Romance", "ROMANCE"),
    ("IBM - PC Musical", "MUSICAL"),
    ("IBM - PC Documentary", "DOC"),
    ("IBM - PC Animation", "ANIM"),
    ("IBM - PC Family", "FAMILY"),
    ("IBM - PC Children", "CHILDREN"),
    ("IBM - PC Teen", "TEEN"),
    ("IBM - PC Adult", "ADULT"),
    ("IBM - PC Mature", "MATURE"),
    ("IBM - PC Everyone", "EVERYONE"),
    ("IBM - PC Everyone 10+", "E10+"),
    ("IBM - PC Teen 13+", "T13+"),
    ("IBM - PC Mature 17+", "M17+"),
    ("IBM - PC Adults Only 18+", "AO18+"),
    ("IBM - PC Rating Pending", "RP"),
    ("IBM - PC Not Rated", "NR"),
    ("IBM - PC Unrated", "UR"),
    ("IBM - PC Unknown", "UNK"),
    ("IBM - PC Other", "OTHER"),
];

/// The substrings that are taken out of a raw title before it is used as a
/// search key, in the order in which they are taken out: engine and mod tags,
/// platform tags, then separators.
pub const NAME_SUFFIXES: [&'static str; 30] = [
    " (ModEngine)",
    " (Protected)",
    " (MCC Launcher)",
    " (Startup)",
    " (Pre-Launcher)",
    " (Mod - Armoredcore6)",
    " (Mod - Darksouls3)",
    " (Mod - Eldenring)",
    " (PS2)",
    " (PSX)",
    " (N64)",
    " (GameCube)",
    " (Wii)",
    " (Dreamcast)",
    " (Genesis)",
    " (SNES)",
    " (NES)",
    " (GBA)",
    " (NDS)",
    " (PSP)",
    " (MAME)",
    " (C64)",
    " (Amiga)",
    " (Atari2600)",
    "Launch ",
    " - ",
    ":",
    ";",
    "!",
    "?",
];

/// The platform catalog as plain values: directory name and short code.
pub open spec fn platform_table() -> Seq<(Seq<char>, Seq<char>)> {
    Seq::new(PLATFORM_CODES@.len(), |i: int| (PLATFORM_CODES@[i].0@, PLATFORM_CODES@[i].1@))
}

/// The map that holds each row's code under its name; of two rows with one
/// name the later one stays.
pub open spec fn table_map(rows: Seq<(Seq<char>, Seq<char>)>) -> Map<Seq<char>, Seq<char>>
    decreases rows.len(),
{
    if rows.len() == 0 {
        Map::empty()
    } else {
        table_map(rows.drop_last()).insert(rows.last().0, rows.last().1)
    }
}

/// The title noise as plain values.
pub open spec fn name_suffixes() -> Seq<Seq<char>> {
    Seq::new(NAME_SUFFIXES@.len(), |i: int| NAME_SUFFIXES@[i]@)
}

/// The dataset that a directory of this name belongs to: Redump where the
/// name holds `redump` in any letter case, else No-Intro where it holds
/// `no-intro`, else unknown.
pub open spec fn dataset_of(name: Seq<char>) -> Dataset {
    if contains(lowercase(name), "redump"@) {
        Dataset::Redump
    } else if contains(lowercase(name), "no-intro"@) {
        Dataset::NoIntro
    } else {
        Dataset::Unknown
    }
}

/// The platform catalog: the short code of each known platform directory,
/// found by the directory's name.
pub struct PlatformCatalog {
    codes: StringHashMap<String>,
}

impl View for PlatformCatalog {
    type V = Map<Seq<char>, Seq<char>>;

    closed spec fn view(&self) -> Map<Seq<char>, Seq<char>> {
        self.codes@.map_values(|code: String| code@)
    }
}

impl PlatformCatalog {
    /// The short code of the platform directory `name`, if the catalog knows
    /// it. Names are compared as written.
    pub fn code_of(&self, name: &str) -> (code: Option<&String>)
        ensures
            match code {
                Some(c) => self@.contains_key(name@) && c@ == self@[name@],
                None => !self@.contains_key(name@),
            },
    {
        self.codes.get(name)
    }

    /// How many platform directories the catalog knows.
    pub fn len(&self) -> (count: usize)
        ensures
            count == self@.len(),
    {
        assert(self@.dom() =~= self.codes@.dom());
        self.codes.len()
    }
}

/// The mapping from each known platform directory name to its short code.
pub fn get_platform_mappings() -> (platforms: PlatformCatalog)
    ensures
        platforms@ == table_map(platform_table()),
{
    let mut codes: StringHashMap<String> = StringHashMap::new();
    let ghost rows = platform_table();
    let mut i: usize = 0;
    while i < PLATFORM_CODES.len()
        invariant
            i <= PLATFORM_CODES@.len(),
            rows == platform_table(),
            codes@.map_values(|code: String| code@) == table_map(rows.take(i as int)),
        decreases PLATFORM_CODES@.len() - i,
    {
        let (name, code) = PLATFORM_CODES[i];
        assert(rows.take(i + 1).drop_last() =~= rows.take(i as int));
        codes.insert(name.to_owned(), code.to_owned());
        i += 1;
    }
    assert(rows.take(PLATFORM_CODES@.len() as int) =~= rows);
    PlatformCatalog { codes }
}

/// The substrings that are taken out of a raw title, in order.
pub fn get_game_name_suffixes() -> (suffixes: Vec<&'static str>)
    ensures
        suffixes@.len() == name_suffixes().len(),
        forall|i: int| 0 <= i < suffixes@.len() ==> (#[trigger] suffixes@[i])@ == name_suffixes()[i],
{
    let mut suffixes: Vec<&'static str> = Vec::new();
    let mut i: usize = 0;
    while i < NAME_SUFFIXES.len()
        invariant
            i <= NAME_SUFFIXES@.len(),
            suffixes@.len() == i,
            forall|k: int| 0 <= k < i ==> (#[trigger] suffixes@[k])@ == name_suffixes()[k],
        decreases NAME_SUFFIXES@.len() - i,
    {
        suffixes.push(NAME_SUFFIXES[i]);
        i += 1;
    }
    suffixes
}

/// The dataset that a directory of this name belongs to.
pub fn dataset_of_name(name: &str) -> (dataset: Dataset)
    ensures
        dataset == dataset_of(name@),
{
    let lower = to_lower(&chars_of(name));
    if has_infix(&lower, &chars_of("redump")) {
        Dataset::Redump
    } else if has_infix(&lower, &chars_of("no-intro")) {
        Dataset::NoIntro
    } else {
        Dataset::Unknown
    }
}

} // verus!
