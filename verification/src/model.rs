//! The data that a browse request produces: directory entries and platform
//! descriptors, each with the mathematical view that the contracts speak of.

use vstd::prelude::*;

verus! {

/// What a listing entry points to.
#[derive(Clone, Copy, Debug, PartialEq, Eq, Structural)]
pub enum ItemKind {
    Directory,
    File,
}

impl ItemKind {
    /// The kind's name as it is written in exported records.
    pub fn as_str(&self) -> (r: &'static str)
        ensures
            r@ == (match *self {
                ItemKind::Directory => "directory"@,
                ItemKind::File => "file"@,
            }),
    {
        match self {
            ItemKind::Directory => "directory",
            ItemKind::File => "file",
        }
    }
}

/// One entry of a directory listing.
#[derive(Clone, Debug)]
pub struct DirectoryItem {
    /// The name to display: the target, decoded.
    pub name: String,
    /// The target as the listing wrote it, still encoded.
    pub href: String,
    pub item_type: ItemKind,
    pub size: Option<String>,
}

/// A [`DirectoryItem`] as plain values.
pub struct DirectoryItemView {
    pub name: Seq<char>,
    pub href: Seq<char>,
    pub item_type: ItemKind,
    pub size: Option<Seq<char>>,
}

impl DirectoryItem {
    /// A copy of the entry.
    pub fn clone_item(&self) -> (copy: DirectoryItem)
        ensures
            copy@ == self@,
    {
        DirectoryItem {
            name: self.name.clone(),
            href: self.href.clone(),
            item_type: self.item_type,
            size: self.size.clone(),
        }
    }
}

impl View for DirectoryItem {
    type V = DirectoryItemView;

    open spec fn view(&self) -> DirectoryItemView {
        DirectoryItemView {
            name: self.name@,
            href: self.href@,
            item_type: self.item_type,
            size: match self.size {
                Some(s) => Some(s@),
                None => None,
            },
        }
    }
}

impl DeepView for DirectoryItem {
    type V = DirectoryItemView;

    open spec fn deep_view(&self) -> DirectoryItemView {
        self@
    }
}

/// The archive collection a platform belongs to.
#[derive(Clone, Copy, Debug, PartialEq, Eq, Structural)]
pub enum Dataset {
    Redump,
    NoIntro,
    Unknown,
}

impl Dataset {
    /// The dataset's name as it is written in exported records.
    pub fn as_str(&self) -> (r: &'static str)
        ensures
            r@ == (match *self {
                Dataset::Redump => "redump"@,
                Dataset::NoIntro => "no-intro"@,
                Dataset::Unknown => "unknown"@,
            }),
    {
        match self {
            Dataset::Redump => "redump",
            Dataset::NoIntro => "no-intro",
            Dataset::Unknown => "unknown",
        }
    }
}

/// A platform directory of the archive.
#[derive(Clone, Debug)]
pub struct PlatformInfo {
    /// The platform's name, percent-encoded.
    pub id: String,
    /// The platform's name as displayed.
    pub name: String,
    pub dataset: Dataset,
}

/// A [`PlatformInfo`] as plain values.
pub struct PlatformInfoView {
    pub id: Seq<char>,
    pub name: Seq<char>,
    pub dataset: Dataset,
}

impl View for PlatformInfo {
    type V = PlatformInfoView;

    open spec fn view(&self) -> PlatformInfoView {
        PlatformInfoView { id: self.id@, name: self.name@, dataset: self.dataset }
    }
}

impl DeepView for PlatformInfo {
    type V = PlatformInfoView;

    open spec fn deep_view(&self) -> PlatformInfoView {
        self@
    }
}

} // verus!
