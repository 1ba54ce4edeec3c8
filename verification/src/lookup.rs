//! Looking items up by their catalogue id: the first item with a given id.

use crate::documents::anime_raw::AnimeCharacters;
use crate::documents::anime_src::{AniCharaBridge, AnimeSrc, CharacterSrc, ImgExSrc, VideoSrc};
use vstd::prelude::*;

verus! {

/// An item that carries a catalogue id.
pub trait Keyed {
    /// The id of the item.
    spec fn spec_key(&self) -> i64;

    /// The id of the item.
    fn key(&self) -> (r: i64)
        ensures
            r == self.spec_key(),
    ;
}

impl Keyed for AnimeSrc {
    open spec fn spec_key(&self) -> i64 {
        self.mal_id
    }

    fn key(&self) -> (r: i64) {
        self.mal_id
    }
}

impl Keyed for CharacterSrc {
    open spec fn spec_key(&self) -> i64 {
        self.mal_id
    }

    fn key(&self) -> (r: i64) {
        self.mal_id
    }
}

impl Keyed for AniCharaBridge {
    open spec fn spec_key(&self) -> i64 {
        self.mal_id
    }

    fn key(&self) -> (r: i64) {
        self.mal_id
    }
}

impl Keyed for AnimeCharacters {
    open spec fn spec_key(&self) -> i64 {
        self.mal_id
    }

    fn key(&self) -> (r: i64) {
        self.mal_id
    }
}

impl Keyed for ImgExSrc {
    open spec fn spec_key(&self) -> i64 {
        self.mal_id
    }

    fn key(&self) -> (r: i64) {
        self.mal_id
    }
}

impl Keyed for (i64, Vec<VideoSrc>) {
    open spec fn spec_key(&self) -> i64 {
        self.0
    }

    fn key(&self) -> (r: i64) {
        self.0
    }
}

/// The ids of some items, in order.
pub open spec fn keys_of<T: Keyed>(items: Seq<T>) -> Seq<i64> {
    items.map_values(|x: T| x.spec_key())
}

/// The first index of `id` in `keys`, if any.
pub open spec fn first_index(keys: Seq<i64>, id: i64) -> Option<int> {
    if exists|i: int| 0 <= i < keys.len() && keys[i] == id {
        Some(choose|i: int| 0 <= i < keys.len() && keys[i] == id && forall|j: int| 0 <= j < i ==> keys[j] != id)
    } else {
        None
    }
}

/// An index at which `id` first occurs is the first index of `id`.
pub proof fn lemma_first_index(keys: Seq<i64>, id: i64, i: int)
    requires
        0 <= i < keys.len(),
        keys[i] == id,
        forall|j: int| 0 <= j < i ==> keys[j] != id,
    ensures
        first_index(keys, id) == Some(i),
{
    let c = choose|k: int| 0 <= k < keys.len() && keys[k] == id && forall|j: int| 0 <= j < k ==> keys[j] != id;
    assert(0 <= c < keys.len() && keys[c] == id && forall|j: int| 0 <= j < c ==> keys[j] != id);
    if c < i {
        assert(keys[c] != id);
    } else if c > i {
        assert(keys[i] != id);
    }
}

/// Where `id` occurs in `keys`, it has a first index, which holds `id`.
pub proof fn lemma_first_index_found(keys: Seq<i64>, id: i64, k: int)
    requires
        0 <= k < keys.len(),
        keys[k] == id,
    ensures
        first_index(keys, id) matches Some(i) && 0 <= i <= k && keys[i] == id,
    decreases k,
{
    if exists|j: int| 0 <= j < k && keys[j] == id {
        let j = choose|j: int| 0 <= j < k && keys[j] == id;
        lemma_first_index_found(keys, id, j);
    } else {
        lemma_first_index(keys, id, k);
    }
}

/// Where ids occur once each, taking out the entry at the first index of
/// `id` leaves no entry of `id`: such an entry serves once.
pub proof fn lemma_taken_once(keys: Seq<i64>, id: i64, i: int)
    requires
        keys.no_duplicates(),
        first_index(keys, id) == Some(i),
    ensures
        first_index(keys.remove(i), id) is None,
{
    let w = choose|k: int| 0 <= k < keys.len() && keys[k] == id;
    lemma_first_index_found(keys, id, w);
    let rest = keys.remove(i);
    if exists|k: int| 0 <= k < rest.len() && rest[k] == id {
        let k = choose|k: int| 0 <= k < rest.len() && rest[k] == id;
        if k < i {
            assert(rest[k] == keys[k]);
        } else {
            assert(rest[k] == keys[k + 1]);
        }
    }
}

/// The index of the first item with id `id`.
pub fn find_first<T: Keyed>(v: &Vec<T>, id: i64) -> (r: Option<usize>)
    ensures
        r matches Some(i) ==> i < v.len() && v@[i as int].spec_key() == id && first_index(keys_of(v@), id)
            == Some(i as int),
        r is None <==> first_index(keys_of(v@), id) is None,
{
    let ghost keys = keys_of(v@);
    let mut i: usize = 0;
    while i < v.len()
        invariant
            i <= v.len(),
            keys == keys_of(v@),
            forall|j: int| 0 <= j < i ==> keys[j] != id,
        decreases v.len() - i,
    {
        if v[i].key() == id {
            proof {
                lemma_first_index(keys, id, i as int);
            }
            return Some(i);
        }
        i = i + 1;
    }
    None
}

/// The first index of an id, where there is one, is an index of the keys
/// that holds the id.
pub proof fn lemma_first_index_found_in(keys: Seq<i64>, id: i64)
    ensures
        first_index(keys, id) matches Some(i) ==> 0 <= i < keys.len() && keys[i] == id,
{
    if first_index(keys, id) is Some {
        let w = choose|k: int| 0 <= k < keys.len() && keys[k] == id;
        lemma_first_index_found(keys, id, w);
    }
}

} // verus!
