//! The documents of the catalogue and the two choices that select what a run
//! works on: the audience rating and the kind of item.

pub mod anime;
pub mod anime_raw;
pub mod anime_search;
pub mod anime_src;
pub mod id;
pub mod local;

use crate::documents::anime_search::{ItemType32, Rating32};
use crate::text::{seq_contains, str_contains};
use vstd::prelude::*;

verus! {

/// The marker that a rating string carries for restricted titles ("Rx - Hentai").
pub open spec fn rx_marker() -> Seq<char> {
    seq!['R', 'x']
}

/// The other marker of a restricted title.
pub open spec fn hentai_marker() -> Seq<char> {
    seq!['H', 'e', 'n', 't', 'a', 'i']
}

/// A rating string names a restricted title when it holds either marker.
pub open spec fn spec_is_hentai_str(s: Seq<char>) -> bool {
    seq_contains(s, rx_marker()) || seq_contains(s, hentai_marker())
}

/// The audience a run is made for.
#[derive(Clone, Copy, Debug, PartialEq, Eq, Structural)]
pub enum Rating {
    AllAges,
    Hentai,
}

impl Rating {
    /// The name of a rating as it appears in collection names.
    pub open spec fn spec_name(self) -> Seq<char> {
        match self {
            Rating::AllAges => seq!['a', 'l', 'l', '_', 'a', 'g', 'e', 's'],
            Rating::Hentai => seq!['h', 'e', 'n', 't', 'a', 'i'],
        }
    }

    /// The name of the rating: "all_ages" or "hentai".
    pub fn to_string(&self) -> (r: String)
        ensures
            r@ == self.spec_name(),
    {
        proof {
            reveal_strlit("all_ages");
            reveal_strlit("hentai");
        }
        match self {
            Rating::AllAges => String::from_str("all_ages"),
            Rating::Hentai => String::from_str("hentai"),
        }
    }

    /// `source` followed by an underscore and the rating's name, such as
    /// "anime_all_ages".
    pub fn as_suffix(&self, source: &str) -> (r: String)
        ensures
            r@ == source@ + seq!['_'] + self.spec_name(),
    {
        proof {
            reveal_strlit("_");
        }
        let mut s = String::from_str(source);
        s.append("_");
        let name = self.to_string();
        s.append(name.as_str());
        s
    }

    /// The rating in the numbering of the search documents.
    pub fn to_32(&self) -> (r: Rating32)
        ensures
            r == (match *self {
                Rating::AllAges => Rating32::G,
                Rating::Hentai => Rating32::X,
            }),
    {
        match self {
            Rating::AllAges => Rating32::G,
            Rating::Hentai => Rating32::X,
        }
    }

    /// Whether a rating string names a restricted title: it contains "Rx" or
    /// "Hentai".
    pub fn is_hentai_str(rating_str: &str) -> (r: bool)
        ensures
            r == spec_is_hentai_str(rating_str@),
    {
        proof {
            reveal_strlit("Rx");
            reveal_strlit("Hentai");
            assert("Rx"@ =~= rx_marker());
            assert("Hentai"@ =~= hentai_marker());
        }
        str_contains(rating_str, "Rx") || str_contains(rating_str, "Hentai")
    }

    /// Whether a rating string belongs to this audience: restricted titles for
    /// `Hentai`, all others for `AllAges`.
    pub open spec fn spec_match_str(self, rating_str: Seq<char>) -> bool {
        match self {
            Rating::AllAges => !spec_is_hentai_str(rating_str),
            Rating::Hentai => spec_is_hentai_str(rating_str),
        }
    }

    /// Every rating string belongs to exactly one of the two audiences.
    pub proof fn lemma_audiences_partition(rating_str: Seq<char>)
        ensures
            Rating::AllAges.spec_match_str(rating_str) != Rating::Hentai.spec_match_str(rating_str),
    {
    }

    /// Whether a rating string belongs to this audience: restricted titles for
    /// `Hentai`, all others for `AllAges`.
    pub fn match_str(&self, rating_str: &str) -> (r: bool)
        ensures
            r == self.spec_match_str(rating_str@),
    {
        match self {
            Rating::AllAges => !Self::is_hentai_str(rating_str),
            Rating::Hentai => Self::is_hentai_str(rating_str),
        }
    }
}

/// The kind of item a run works on.
#[derive(Clone, Copy, Debug, PartialEq, Eq, Structural)]
pub enum ItemType {
    Anime,
    Chara,
}

impl ItemType {
    /// The name of an item kind: "anime" or "character".
    pub open spec fn spec_name(self) -> Seq<char> {
        match self {
            ItemType::Anime => seq!['a', 'n', 'i', 'm', 'e'],
            ItemType::Chara => seq!['c', 'h', 'a', 'r', 'a', 'c', 't', 'e', 'r'],
        }
    }

    /// The name of the item kind.
    pub fn to_string(&self) -> (r: String)
        ensures
            r@ == self.spec_name(),
    {
        proof {
            reveal_strlit("anime");
            reveal_strlit("character");
        }
        match self {
            ItemType::Anime => String::from_str("anime"),
            ItemType::Chara => String::from_str("character"),
        }
    }

    /// The item kind in the numbering of the search documents.
    pub fn to_32(&self) -> (r: ItemType32)
        ensures
            r == (match *self {
                ItemType::Anime => ItemType32::Anime,
                ItemType::Chara => ItemType32::Character,
            }),
    {
        match self {
            ItemType::Anime => ItemType32::Anime,
            ItemType::Chara => ItemType32::Character,
        }
    }
}

} // verus!
