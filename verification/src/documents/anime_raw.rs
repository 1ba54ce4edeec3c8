//! Raw answers of the catalogue's web API, kept as the JSON values they came
//! as, under the id of the anime they were asked for; and the seasons of a year.

use crate::api::AnimeApiRawDocument;
use vstd::prelude::*;

verus! {

/// The cast list of an anime.
#[derive(Debug)]
pub struct AnimeCharacters {
    pub mal_id: i64,
    pub characters: Vec<serde_json::Value>,
}

impl AnimeApiRawDocument for AnimeCharacters {
    open spec fn spec_mal_id(&self) -> i64 {
        self.mal_id
    }

    open spec fn spec_values(&self) -> Seq<serde_json::Value> {
        self.characters@
    }

    fn from_value_list(mal_id: i64, val: Vec<serde_json::Value>) -> (r: Self) {
        Self { mal_id, characters: val }
    }
}

/// The staff list of an anime.
#[derive(Debug)]
pub struct AnimeStaffs {
    pub mal_id: i64,
    pub staffs: Vec<serde_json::Value>,
}

impl AnimeApiRawDocument for AnimeStaffs {
    open spec fn spec_mal_id(&self) -> i64 {
        self.mal_id
    }

    open spec fn spec_values(&self) -> Seq<serde_json::Value> {
        self.staffs@
    }

    fn from_value_list(mal_id: i64, val: Vec<serde_json::Value>) -> (r: Self) {
        Self { mal_id, staffs: val }
    }
}

/// The external links of an anime.
#[derive(Debug)]
pub struct AnimeLinks {
    pub mal_id: i64,
    pub links: Vec<serde_json::Value>,
}

impl AnimeApiRawDocument for AnimeLinks {
    open spec fn spec_mal_id(&self) -> i64 {
        self.mal_id
    }

    open spec fn spec_values(&self) -> Seq<serde_json::Value> {
        self.links@
    }

    fn from_value_list(mal_id: i64, val: Vec<serde_json::Value>) -> (r: Self) {
        Self { mal_id, links: val }
    }
}

/// The videos of an anime.
#[derive(Debug)]
pub struct AnimeVideos {
    pub mal_id: i64,
    pub videos: Vec<serde_json::Value>,
}

impl AnimeApiRawDocument for AnimeVideos {
    open spec fn spec_mal_id(&self) -> i64 {
        self.mal_id
    }

    open spec fn spec_values(&self) -> Seq<serde_json::Value> {
        self.videos@
    }

    fn from_value_list(mal_id: i64, val: Vec<serde_json::Value>) -> (r: Self) {
        Self { mal_id, videos: val }
    }
}

/// The pictures of an anime.
#[derive(Debug)]
pub struct AnimePictures {
    pub mal_id: i64,
    pub pictures: Vec<serde_json::Value>,
}

impl AnimeApiRawDocument for AnimePictures {
    open spec fn spec_mal_id(&self) -> i64 {
        self.mal_id
    }

    open spec fn spec_values(&self) -> Seq<serde_json::Value> {
        self.pictures@
    }

    fn from_value_list(mal_id: i64, val: Vec<serde_json::Value>) -> (r: Self) {
        Self { mal_id, pictures: val }
    }
}

/// A season of the broadcasting year.
#[derive(Clone, Copy, Debug, PartialEq, Eq, Structural)]
pub enum Season {
    Winter,
    Spring,
    Summer,
    Fall,
}

impl Season {
    /// The name of a season in the API's paths.
    pub open spec fn spec_name(self) -> Seq<char> {
        match self {
            Season::Winter => seq!['w', 'i', 'n', 't', 'e', 'r'],
            Season::Spring => seq!['s', 'p', 'r', 'i', 'n', 'g'],
            Season::Summer => seq!['s', 'u', 'm', 'm', 'e', 'r'],
            Season::Fall => seq!['f', 'a', 'l', 'l'],
        }
    }

    /// The name of the season: "winter", "spring", "summer" or "fall".
    pub fn to_string(&self) -> (r: String)
        ensures
            r@ == self.spec_name(),
    {
        proof {
            reveal_strlit("winter");
            reveal_strlit("spring");
            reveal_strlit("summer");
            reveal_strlit("fall");
        }
        match self {
            Season::Winter => String::from_str("winter"),
            Season::Spring => String::from_str("spring"),
            Season::Summer => String::from_str("summer"),
            Season::Fall => String::from_str("fall"),
        }
    }
}

} // verus!
