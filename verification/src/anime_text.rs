//! Anime texts: each anime beside the characters of its cast, the record a
//! full-text search is built from. The cast of an anime is its raw cast list
//! from the web API, read entry by entry; batches are handed out to the
//! caller, who stores them.

use crate::documents::anime_raw::AnimeCharacters;
use crate::documents::anime_src::{AnimeSrc, CharacterSrc, ImageUrls, Images};
use crate::flatten::clone_opt_string;
use crate::json::{json_as_i64, json_field, json_get, json_i64_of, json_kind, json_kind_of, JsonKind};
use crate::lookup::{find_first, first_index, keys_of};
use vstd::prelude::*;

verus! {

/// The key of the character of a cast entry.
pub open spec fn character_key() -> Seq<char> {
    seq!['c', 'h', 'a', 'r', 'a', 'c', 't', 'e', 'r']
}

/// The key of an id.
pub open spec fn mal_id_key() -> Seq<char> {
    seq!['m', 'a', 'l', '_', 'i', 'd']
}

/// The character id of a raw cast entry: the integer `mal_id` of its
/// `character` object; `None` where the entry has no such object or the id
/// is not an integer (a missing id reads as null).
pub open spec fn cast_entry_id(entry: serde_json::Value) -> Option<i64> {
    let character = json_field(entry, character_key());
    if json_kind_of(character) != JsonKind::Object {
        None
    } else {
        json_i64_of(json_field(character, mal_id_key()))
    }
}

/// The characters of a raw cast list, in cast order: for each entry with a
/// character id, the first character of that id; entries without an id, or
/// whose id no character has, give nothing.
pub open spec fn spec_cast_characters(cast: Seq<serde_json::Value>, charas: Seq<CharacterSrc>) -> Seq<
    CharacterSrc,
>
    decreases cast.len(),
{
    if cast.len() == 0 {
        Seq::empty()
    } else {
        let r = spec_cast_characters(cast.drop_last(), charas);
        match cast_entry_id(cast.last()) {
            None => r,
            Some(id) => match first_index(keys_of(charas), id) {
                None => r,
                Some(i) => r.push(charas[i]),
            },
        }
    }
}

/// The character id of a raw cast entry (see `cast_entry_id`).
pub fn entry_id(entry: &serde_json::Value) -> (r: Option<i64>)
    ensures
        r == cast_entry_id(*entry),
{
    proof {
        reveal_strlit("character");
        reveal_strlit("mal_id");
        assert("character"@ =~= character_key());
        assert("mal_id"@ =~= mal_id_key());
    }
    let character = json_get(entry, "character");
    match json_kind(&character) {
        JsonKind::Object => {
            let id = json_get(&character, "mal_id");
            json_as_i64(&id)
        },
        _ => None,
    }
}

/// A copy of some images.
pub fn clone_images(images: &Option<Images>) -> (r: Option<Images>)
    ensures
        r == *images,
{
    match images {
        Some(Images { jpg: Some(ImageUrls { image_url }) }) => Some(
            Images { jpg: Some(ImageUrls { image_url: clone_opt_string(image_url) }) },
        ),
        Some(Images { jpg: None }) => Some(Images { jpg: None }),
        None => None,
    }
}

/// A copy of a character.
pub fn clone_character(c: &CharacterSrc) -> (r: CharacterSrc)
    ensures
        r == *c,
{
    CharacterSrc {
        mal_id: c.mal_id,
        url: c.url.clone(),
        images: clone_images(&c.images),
        name: c.name.clone(),
        name_kanji: clone_opt_string(&c.name_kanji),
        about: clone_opt_string(&c.about),
        favorites: c.favorites,
    }
}

/// The characters of a raw cast list (see `spec_cast_characters`).
pub fn cast_characters(cast: &Vec<serde_json::Value>, charas: &Vec<CharacterSrc>) -> (r: Vec<CharacterSrc>)
    ensures
        r@ == spec_cast_characters(cast@, charas@),
{
    let mut r: Vec<CharacterSrc> = Vec::new();
    let mut i: usize = 0;
    while i < cast.len()
        invariant
            i <= cast.len(),
            r@ == spec_cast_characters(cast@.take(i as int), charas@),
        decreases cast.len() - i,
    {
        proof {
            assert(cast@.take(i + 1).drop_last() =~= cast@.take(i as int));
            assert(cast@.take(i + 1).last() == cast@[i as int]);
        }
        match entry_id(&cast[i]) {
            Some(id) => match find_first(charas, id) {
                Some(k) => {
                    r.push(clone_character(&charas[k]));
                },
                None => {},
            },
            None => {},
        }
        i = i + 1;
    }
    assert(cast@.take(i as int) =~= cast@);
    r
}

/// An anime beside the characters of its cast.
#[derive(Debug)]
pub struct AnimeText {
    pub anime: AnimeSrc,
    pub characters: Vec<CharacterSrc>,
}

/// An anime text as values.
pub struct AnimeTextView {
    pub anime: AnimeSrc,
    pub characters: Seq<CharacterSrc>,
}

/// The view of an anime text.
pub open spec fn text_view(t: AnimeText) -> AnimeTextView {
    AnimeTextView { anime: t.anime, characters: t.characters@ }
}

/// The views of some anime texts, in order.
pub open spec fn text_views(ts: Seq<AnimeText>) -> Seq<AnimeTextView> {
    ts.map_values(|t: AnimeText| text_view(t))
}

/// The text of `anime`: its characters are those of the first cast list of
/// its id, none where it has no cast list.
pub open spec fn anime_text_of(casts: Seq<AnimeCharacters>, charas: Seq<CharacterSrc>, anime: AnimeSrc) -> AnimeTextView {
    AnimeTextView {
        anime,
        characters: match first_index(keys_of(casts), anime.mal_id) {
            Some(i) => spec_cast_characters(casts[i].characters@, charas),
            None => Seq::empty(),
        },
    }
}

/// The number of texts from which a batch is handed out.
pub const TEXT_BATCH_SIZE: usize = 100;

/// A run that makes the text of each anime it is given, in order, and hands
/// out a batch once it holds `TEXT_BATCH_SIZE` texts.
pub struct AnimeTextMaker {
    casts: Vec<AnimeCharacters>,
    charas: Vec<CharacterSrc>,
    batch: Vec<AnimeText>,
    flushed: Ghost<Seq<AnimeTextView>>,
}

impl AnimeTextMaker {
    /// The cast lists the run looks anime up in.
    pub closed spec fn casts(&self) -> Seq<AnimeCharacters> {
        self.casts@
    }

    /// The characters the run looks cast entries up in.
    pub closed spec fn charas(&self) -> Seq<CharacterSrc> {
        self.charas@
    }

    /// The texts made and not handed out yet, in order.
    pub closed spec fn batch(&self) -> Seq<AnimeTextView> {
        text_views(self.batch@)
    }

    /// The texts handed out, in order.
    pub closed spec fn flushed(&self) -> Seq<AnimeTextView> {
        self.flushed@
    }

    /// A run over the cast lists and the characters.
    pub fn new(casts: Vec<AnimeCharacters>, charas: Vec<CharacterSrc>) -> (r: Self)
        ensures
            r.casts() == casts@,
            r.charas() == charas@,
            r.batch() == Seq::<AnimeTextView>::empty(),
            r.flushed() == Seq::<AnimeTextView>::empty(),
    {
        let r = AnimeTextMaker { casts, charas, batch: Vec::new(), flushed: Ghost(Seq::empty()) };
        assert(r.batch() =~= Seq::<AnimeTextView>::empty());
        r
    }

    /// Makes the text of `anime`; hands the batch out once it holds
    /// `TEXT_BATCH_SIZE` texts.
    pub fn on_anime(&mut self, anime: AnimeSrc) -> (r: Option<Vec<AnimeText>>)
        ensures
            final(self).casts() == old(self).casts(),
            final(self).charas() == old(self).charas(),
            ({
                let b = old(self).batch().push(anime_text_of(old(self).casts(), old(self).charas(), anime));
                if b.len() >= TEXT_BATCH_SIZE {
                    &&& r matches Some(v) && text_views(v@) == b
                    &&& final(self).batch() == Seq::<AnimeTextView>::empty()
                    &&& final(self).flushed() == old(self).flushed() + b
                } else {
                    &&& r is None
                    &&& final(self).batch() == b
                    &&& final(self).flushed() == old(self).flushed()
                }
            }),
    {
        let ghost a = anime;
        let characters = match find_first(&self.casts, anime.mal_id) {
            Some(i) => cast_characters(&self.casts[i].characters, &self.charas),
            None => Vec::new(),
        };
        let text = AnimeText { anime, characters };
        assert(text_view(text) == anime_text_of(self.casts@, self.charas@, a));
        let ghost before = self.batch@;
        self.batch.push(text);
        assert(text_views(self.batch@) =~= text_views(before).push(text_view(text)));
        if self.batch.len() >= TEXT_BATCH_SIZE {
            let mut docs: Vec<AnimeText> = Vec::new();
            core::mem::swap(&mut docs, &mut self.batch);
            self.flushed = Ghost(self.flushed@ + text_views(docs@));
            assert(text_views(self.batch@) =~= Seq::<AnimeTextView>::empty());
            Some(docs)
        } else {
            None
        }
    }

    /// Ends the run: the texts not yet handed out.
    pub fn finish(self) -> (r: Vec<AnimeText>)
        ensures
            text_views(r@) == self.batch(),
    {
        self.batch
    }
}

/// The character a cast entry names: the first stored character with the
/// entry's id.
pub open spec fn entry_names(entry: serde_json::Value, charas: Seq<CharacterSrc>, c: CharacterSrc) -> bool {
    match cast_entry_id(entry) {
        Some(id) => match first_index(keys_of(charas), id) {
            Some(k) => c == charas[k],
            None => false,
        },
        None => false,
    }
}

/// The characters of a cast are stored characters, unchanged: each one is
/// the first stored character with the id of some entry of the cast, and
/// there are no more of them than entries.
pub proof fn lemma_cast_characters_stored(cast: Seq<serde_json::Value>, charas: Seq<CharacterSrc>)
    ensures
        spec_cast_characters(cast, charas).len() <= cast.len(),
        forall|i: int|
            0 <= i < spec_cast_characters(cast, charas).len() ==> charas.contains(
                #[trigger] spec_cast_characters(cast, charas)[i],
            ),
        forall|i: int|
            0 <= i < spec_cast_characters(cast, charas).len() ==> exists|e: int|
                0 <= e < cast.len() && entry_names(cast[e], charas, #[trigger] spec_cast_characters(cast, charas)[i]),
    decreases cast.len(),
{
    if cast.len() > 0 {
        let front = cast.drop_last();
        lemma_cast_characters_stored(front, charas);
        let r0 = spec_cast_characters(front, charas);
        let r = spec_cast_characters(cast, charas);
        assert forall|i: int| 0 <= i < r.len() implies charas.contains(#[trigger] r[i]) && exists|e: int|
            0 <= e < cast.len() && entry_names(cast[e], charas, r[i]) by {
            if i < r0.len() {
                assert(r[i] == r0[i]);
                let e = choose|e: int| 0 <= e < front.len() && entry_names(front[e], charas, r0[i]);
                assert(cast[e] == front[e]);
            } else {
                let e = cast.len() - 1;
                let id = cast_entry_id(cast.last()).unwrap();
                crate::lookup::lemma_first_index_found_in(keys_of(charas), id);
                let k = first_index(keys_of(charas), id).unwrap();
                assert(cast[e] == cast.last());
                assert(0 <= k < charas.len());
                assert(charas.contains(charas[k]));
                assert(entry_names(cast[e], charas, r[i]));
            }
        }
    }
}

/// Reading a cast list in two parts gives the characters of the first part
/// followed by those of the second: the characters keep cast order.
pub proof fn lemma_cast_characters_concat(
    a: Seq<serde_json::Value>,
    b: Seq<serde_json::Value>,
    charas: Seq<CharacterSrc>,
)
    ensures
        spec_cast_characters(a + b, charas) == spec_cast_characters(a, charas) + spec_cast_characters(b, charas),
    decreases b.len(),
{
    if b.len() == 0 {
        assert(a + b =~= a);
        assert(spec_cast_characters(a, charas) + spec_cast_characters(b, charas) =~= spec_cast_characters(a, charas));
    } else {
        lemma_cast_characters_concat(a, b.drop_last(), charas);
        assert((a + b).drop_last() =~= a + b.drop_last());
        assert((a + b).last() == b.last());
        let ra = spec_cast_characters(a, charas);
        let rb0 = spec_cast_characters(b.drop_last(), charas);
        match cast_entry_id(b.last()) {
            None => {},
            Some(id) => match first_index(keys_of(charas), id) {
                None => {},
                Some(i) => {
                    assert(ra + rb0.push(charas[i]) =~= (ra + rb0).push(charas[i]));
                },
            },
        }
    }
}

/// The text of an anime is that anime beside stored characters, unchanged;
/// an anime without a cast list has no characters.
pub proof fn lemma_anime_text_of(casts: Seq<AnimeCharacters>, charas: Seq<CharacterSrc>, anime: AnimeSrc)
    ensures
        anime_text_of(casts, charas, anime).anime == anime,
        forall|i: int|
            0 <= i < anime_text_of(casts, charas, anime).characters.len() ==> charas.contains(
                #[trigger] anime_text_of(casts, charas, anime).characters[i],
            ),
        (forall|k: int| 0 <= k < casts.len() ==> casts[k].mal_id != anime.mal_id) ==> anime_text_of(
            casts,
            charas,
            anime,
        ).characters.len() == 0,
{
    match first_index(keys_of(casts), anime.mal_id) {
        Some(i) => {
            lemma_cast_characters_stored(casts[i].characters@, charas);
            crate::lookup::lemma_first_index_found_in(keys_of(casts), anime.mal_id);
        },
        None => {},
    }
}

} // verus!
