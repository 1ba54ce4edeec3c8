//! The flat documents of the search index: one per anime, character or
//! promotional video, each naming its parent anime where it has one.

use vstd::prelude::*;

verus! {

/// The kind of a search document. Stored as a number: 0 for `Unspecified`,
/// then 1, 2 and 3 in the order of the variants.
#[derive(Clone, Copy, Debug, PartialEq, Eq, Structural)]
pub enum ItemType {
    Unspecified,
    Anime,
    Character,
    YVideo,
}

/// The kind of a search document under the name the item kinds of a run
/// convert to.
pub type ItemType32 = ItemType;

/// The rating of a search document: `G` for all ages, `X` for restricted.
#[derive(Clone, Copy, Debug, PartialEq, Eq, Structural)]
pub enum Rating32 {
    G,
    X,
}

impl ItemType {
    /// The number a kind is stored as.
    pub open spec fn spec_code(self) -> i32 {
        match self {
            ItemType::Unspecified => 0,
            ItemType::Anime => 1,
            ItemType::Character => 2,
            ItemType::YVideo => 3,
        }
    }

    /// The number the kind is stored as.
    pub fn to_i32(&self) -> (r: i32)
        ensures
            r == self.spec_code(),
    {
        match self {
            ItemType::Unspecified => 0,
            ItemType::Anime => 1,
            ItemType::Character => 2,
            ItemType::YVideo => 3,
        }
    }

    /// The kind stored as `code`, if any.
    pub open spec fn spec_from_code(code: i32) -> Option<ItemType> {
        if code == 0 {
            Some(ItemType::Unspecified)
        } else if code == 1 {
            Some(ItemType::Anime)
        } else if code == 2 {
            Some(ItemType::Character)
        } else if code == 3 {
            Some(ItemType::YVideo)
        } else {
            None
        }
    }

    /// Reading back the number a kind is stored as gives the kind again, and
    /// a number read as a kind is that kind's number.
    pub proof fn lemma_code_round_trip(t: ItemType, code: i32)
        ensures
            Self::spec_from_code(t.spec_code()) == Some(t),
            Self::spec_from_code(code) matches Some(u) ==> u.spec_code() == code,
    {
    }

    /// The kind stored as `code`, if any.
    pub fn from_i32(code: i32) -> (r: Option<ItemType>)
        ensures
            r == Self::spec_from_code(code),
    {
        if code == 0 {
            Some(ItemType::Unspecified)
        } else if code == 1 {
            Some(ItemType::Anime)
        } else if code == 2 {
            Some(ItemType::Character)
        } else if code == 3 {
            Some(ItemType::YVideo)
        } else {
            None
        }
    }

    /// The displayed name of a kind; `Unspecified` has none.
    pub open spec fn spec_name(self) -> Option<Seq<char>> {
        match self {
            ItemType::Unspecified => None,
            ItemType::Anime => Some(seq!['a', 'n', 'i', 'm', 'e']),
            ItemType::Character => Some(seq!['c', 'h', 'a', 'r', 'a', 'c', 't', 'e', 'r']),
            ItemType::YVideo => Some(seq!['y', 'v', 'i', 'd', 'e', 'o']),
        }
    }

    /// The displayed name of the kind: "anime", "character" or "yvideo";
    /// `None` for `Unspecified`, which has no displayed form.
    pub fn to_display_string(&self) -> (r: Option<String>)
        ensures
            r is Some <==> self.spec_name() is Some,
            r matches Some(s) ==> Some(s@) == self.spec_name(),
    {
        proof {
            reveal_strlit("anime");
            reveal_strlit("character");
            reveal_strlit("yvideo");
        }
        match self {
            ItemType::Unspecified => None,
            ItemType::Anime => Some(String::from_str("anime")),
            ItemType::Character => Some(String::from_str("character")),
            ItemType::YVideo => Some(String::from_str("yvideo")),
        }
    }
}

/// The anime a character or a video belongs to.
#[derive(Clone, Debug, PartialEq, Eq)]
pub struct Parent {
    pub name: String,
    pub name_japanese: Option<String>,
}

/// A document of the search index.
#[derive(Clone, Debug, PartialEq, Eq)]
pub struct FlatDocument {
    /// Milliseconds since the Unix epoch.
    pub updated_at: u64,
    pub item_type: ItemType,
    pub unique: Option<String>,
    pub img: Option<String>,
    pub src: Option<String>,
    pub name: Option<String>,
    pub name_english: Option<String>,
    pub name_japanese: Option<String>,
    pub parent: Option<Parent>,
}

impl FlatDocument {
    /// The document of an anime: image, source page and names, no parent.
    pub fn new_anime(
        updated_at: u64,
        img: String,
        src: String,
        name: String,
        name_english: Option<String>,
        name_japanese: Option<String>,
    ) -> (r: Self)
        ensures
            r == (FlatDocument {
                updated_at,
                item_type: ItemType::Anime,
                unique: None,
                img: Some(img),
                src: Some(src),
                name: Some(name),
                name_english,
                name_japanese,
                parent: None,
            }),
    {
        Self {
            updated_at,
            item_type: ItemType::Anime,
            img: Some(img),
            src: Some(src),
            name: Some(name),
            name_english,
            name_japanese,
            parent: None,
            unique: None,
        }
    }

    /// The document of a character: image, source page, names and the anime
    /// it appears in; characters have no English name.
    pub fn new_character(
        updated_at: u64,
        img: String,
        src: String,
        name: String,
        name_japanese: Option<String>,
        parent: Parent,
    ) -> (r: Self)
        ensures
            r == (FlatDocument {
                updated_at,
                item_type: ItemType::Character,
                unique: None,
                img: Some(img),
                src: Some(src),
                name: Some(name),
                name_english: None,
                name_japanese,
                parent: Some(parent),
            }),
    {
        Self {
            updated_at,
            item_type: ItemType::Character,
            img: Some(img),
            src: Some(src),
            name: Some(name),
            name_japanese,
            parent: Some(parent),
            name_english: None,
            unique: None,
        }
    }

    /// The document of a promotional video: its unique video id and the anime
    /// it promotes, nothing else.
    pub fn new_yvideo(updated_at: u64, unique: String, parent: Parent) -> (r: Self)
        ensures
            r == (FlatDocument {
                updated_at,
                item_type: ItemType::YVideo,
                unique: Some(unique),
                img: None,
                src: None,
                name: None,
                name_english: None,
                name_japanese: None,
                parent: Some(parent),
            }),
    {
        Self {
            updated_at,
            item_type: ItemType::YVideo,
            unique: Some(unique),
            parent: Some(parent),
            img: None,
            src: None,
            name: None,
            name_english: None,
            name_japanese: None,
        }
    }
}

} // verus!
