//! Flattening the catalogue into the search index: which anime and characters
//! are kept, and the order and deduplication in which their documents are made.
//! Images may have to be published and the clock read on the way; those are
//! the caller's, who hands the answers back to a `Flattener`.

use crate::data::{is_expected_media_type, is_hentai_str, spec_is_expected_media_type};
use crate::documents::anime_search::{FlatDocument, ItemType, Parent};
use crate::documents::anime_src::{
    AniCharaBridge, AnimeSrc, CharacterCast, CharacterSrc, ImageUrls, Images,
};
use crate::documents::spec_is_hentai_str;
use crate::api::is_fetched;
use crate::text::{i64_to_decimal, int_decimal, str_eq};
use crate::lookup::{find_first, first_index, keys_of};
use vstd::prelude::*;

verus! {

/// The year of the date that `chrono::NaiveDate::parse_from_str` parses from
/// a text with a format, or `None` where it fails.
pub uninterp spec fn chrono_date_year(text: Seq<char>, fmt: Seq<char>) -> Option<i32>;

/// Calls `chrono::NaiveDate::parse_from_str` and reads the year of the date
/// (`Datelike::year`). Claims that the result is the named year. Of the date
/// nothing else is kept: it is only ever compared with the first day of a
/// year, and `NaiveDate`'s ordering puts a date before the first day of year
/// `y` exactly when its year is below `y`.
#[verifier::external_body]
pub fn parse_date_year(text: &str, fmt: &str) -> (r: Option<i32>)
    ensures
        r == chrono_date_year(text@, fmt@),
{
    match chrono::NaiveDate::parse_from_str(text, fmt) {
        Ok(d) => Some(chrono::Datelike::year(&d)),
        Err(_) => None,
    }
}

/// The years whose first day `NaiveDate` can hold (`MIN_YEAR` to `MAX_YEAR`
/// in chrono's source).
pub open spec fn spec_year_has_first_day(year: i32) -> bool {
    -262143 <= year <= 262142
}

/// Calls `chrono::NaiveDate::from_yo_opt(year, 1)` and tells whether it gives
/// a date. Claims what the source shows: it does exactly for the years from
/// `MIN_YEAR` (-262143) to `MAX_YEAR` (262142).
#[verifier::external_body]
pub fn year_has_first_day(year: i32) -> (r: bool)
    ensures
        r == spec_year_has_first_day(year),
{
    chrono::NaiveDate::from_yo_opt(year, 1).is_some()
}

/// The format of the dates an anime aired from.
pub open spec fn aired_date_fmt() -> Seq<char> {
    seq!['%', 'Y', '-', '%', 'm', '-', '%', 'd', 'T', '%', 'H', ':', '%', 'M', ':', '%', 'S', '%', 'z']
}

/// The season name of a tag: "Winter", "Spring", "Summer" or "Fall" for that
/// season's name written lower-case or capitalised; `None` otherwise.
pub open spec fn spec_season_name(s: Seq<char>) -> Option<Seq<char>> {
    if s == seq!['w', 'i', 'n', 't', 'e', 'r'] || s == seq!['W', 'i', 'n', 't', 'e', 'r'] {
        Some(seq!['W', 'i', 'n', 't', 'e', 'r'])
    } else if s == seq!['s', 'p', 'r', 'i', 'n', 'g'] || s == seq!['S', 'p', 'r', 'i', 'n', 'g'] {
        Some(seq!['S', 'p', 'r', 'i', 'n', 'g'])
    } else if s == seq!['s', 'u', 'm', 'm', 'e', 'r'] || s == seq!['S', 'u', 'm', 'm', 'e', 'r'] {
        Some(seq!['S', 'u', 'm', 'm', 'e', 'r'])
    } else if s == seq!['f', 'a', 'l', 'l'] || s == seq!['F', 'a', 'l', 'l'] {
        Some(seq!['F', 'a', 'l', 'l'])
    } else {
        None
    }
}

/// The airing tag of an anime: "<year> <Season>" where its season is one of
/// the four, otherwise the year alone.
pub open spec fn spec_season_tag(year: i32, season: Option<Seq<char>>) -> Seq<char> {
    match season {
        Some(s) => match spec_season_name(s) {
            Some(n) => int_decimal(year as int) + seq![' '] + n,
            None => int_decimal(year as int),
        },
        None => int_decimal(year as int),
    }
}

/// The airing tag of an anime that aired in `year`, in `season` if known.
pub fn season_tag(year: i32, season: Option<&str>) -> (r: String)
    ensures
        r@ == spec_season_tag(
            year,
            match season {
                Some(s) => Some(s@),
                None => None,
            },
        ),
{
    proof {
        reveal_strlit("winter");
        reveal_strlit("Winter");
        reveal_strlit("spring");
        reveal_strlit("Spring");
        reveal_strlit("summer");
        reveal_strlit("Summer");
        reveal_strlit("fall");
        reveal_strlit("Fall");
        reveal_strlit(" Winter");
        reveal_strlit(" Spring");
        reveal_strlit(" Summer");
        reveal_strlit(" Fall");
        assert("winter"@ =~= seq!['w', 'i', 'n', 't', 'e', 'r']);
        assert("Winter"@ =~= seq!['W', 'i', 'n', 't', 'e', 'r']);
        assert("spring"@ =~= seq!['s', 'p', 'r', 'i', 'n', 'g']);
        assert("Spring"@ =~= seq!['S', 'p', 'r', 'i', 'n', 'g']);
        assert("summer"@ =~= seq!['s', 'u', 'm', 'm', 'e', 'r']);
        assert("Summer"@ =~= seq!['S', 'u', 'm', 'm', 'e', 'r']);
        assert("fall"@ =~= seq!['f', 'a', 'l', 'l']);
        assert("Fall"@ =~= seq!['F', 'a', 'l', 'l']);
        assert(" Winter"@ =~= seq![' '] + seq!['W', 'i', 'n', 't', 'e', 'r']);
        assert(" Spring"@ =~= seq![' '] + seq!['S', 'p', 'r', 'i', 'n', 'g']);
        assert(" Summer"@ =~= seq![' '] + seq!['S', 'u', 'm', 'm', 'e', 'r']);
        assert(" Fall"@ =~= seq![' '] + seq!['F', 'a', 'l', 'l']);
    }
    let mut r = i64_to_decimal(year as i64);
    let ghost y = r@;
    match season {
        Some(s) => {
            if str_eq(s, "winter") || str_eq(s, "Winter") {
                r.append(" Winter");
            } else if str_eq(s, "spring") || str_eq(s, "Spring") {
                r.append(" Spring");
            } else if str_eq(s, "summer") || str_eq(s, "Summer") {
                r.append(" Summer");
            } else if str_eq(s, "fall") || str_eq(s, "Fall") {
                r.append(" Fall");
            }
            assert(r@ =~= spec_season_tag(year, Some(s@)));
        },
        None => {},
    }
    r
}

/// The image url of a source document, where it has one.
pub open spec fn spec_img_url(images: Option<Images>) -> Option<String> {
    match images {
        Some(Images { jpg: Some(ImageUrls { image_url: Some(s) }) }) => Some(s),
        _ => None,
    }
}

/// An anime is kept when it started airing in year `oldest` or later, is of
/// a kept media type, has a rating that is not restricted, has between
/// `likes.0` and `likes.1` favorites, and has a non-empty synopsis.
pub open spec fn spec_is_expected_anime(anime: AnimeSrc, oldest: i32, likes: (u64, u64)) -> bool {
    &&& anime.aired.from matches Some(s) && chrono_date_year(s@, aired_date_fmt()) matches Some(
        y,
    ) && y >= oldest
    &&& anime.media_type matches Some(t) && spec_is_expected_media_type(t@)
    &&& anime.rating matches Some(r) && !spec_is_hentai_str(r@)
    &&& likes.0 <= anime.favorites <= likes.1
    &&& anime.synopsis matches Some(s) && s@.len() > 0
}

/// A character is kept when it has between `likes.0` and `likes.1` favorites
/// and a non-empty description.
pub open spec fn spec_is_expected_chara(chara: CharacterSrc, likes: (u64, u64)) -> bool {
    &&& likes.0 <= chara.favorites <= likes.1
    &&& chara.about matches Some(s) && s@.len() > 0
}

/// Whether an anime is kept (see `spec_is_expected_anime`); `oldest` is the
/// first year kept.
pub fn is_expected_anime(anime: &AnimeSrc, oldest: i32, likes: (u64, u64)) -> (r: bool)
    ensures
        r == spec_is_expected_anime(*anime, oldest, likes),
{
    match &anime.aired.from {
        Some(s) => {
            proof {
                reveal_strlit("%Y-%m-%dT%H:%M:%S%z");
                assert("%Y-%m-%dT%H:%M:%S%z"@ =~= aired_date_fmt());
            }
            match parse_date_year(s.as_str(), "%Y-%m-%dT%H:%M:%S%z") {
                Some(y) => {
                    if y < oldest {
                        return false;
                    }
                },
                None => {
                    return false;
                },
            }
        },
        None => {
            return false;
        },
    }
    match &anime.media_type {
        Some(s) => {
            if !is_expected_media_type(s.as_str()) {
                return false;
            }
        },
        None => {
            return false;
        },
    }
    match &anime.rating {
        Some(s) => {
            if is_hentai_str(s.as_str()) {
                return false;
            }
        },
        None => {
            return false;
        },
    }
    if anime.favorites < likes.0 || anime.favorites > likes.1 {
        return false;
    }
    match &anime.synopsis {
        Some(s) => s.as_str().unicode_len() > 0,
        None => false,
    }
}

/// Whether a character is kept (see `spec_is_expected_chara`).
pub fn is_expected_chara(chara: &CharacterSrc, likes: (u64, u64)) -> (r: bool)
    ensures
        r == spec_is_expected_chara(*chara, likes),
{
    if chara.favorites < likes.0 || chara.favorites > likes.1 {
        return false;
    }
    match &chara.about {
        Some(s) => s.as_str().unicode_len() > 0,
        None => false,
    }
}

/// The jpg image url of some images, copied.
pub fn jpg_url(images: &Images) -> (r: Option<String>)
    ensures
        r == spec_img_url(Some(*images)),
{
    match &images.jpg {
        Some(ImageUrls { image_url: Some(s) }) => Some(s.clone()),
        _ => None,
    }
}

/// The image url of a source document, copied.
pub fn img_url_of(images: &Option<Images>) -> (r: Option<String>)
    ensures
        r == spec_img_url(*images),
{
    match images {
        Some(im) => jpg_url(im),
        None => None,
    }
}

/// A copy of an optional string.
pub fn clone_opt_string(o: &Option<String>) -> (r: Option<String>)
    ensures
        r == *o,
{
    match o {
        Some(s) => Some(s.clone()),
        None => None,
    }
}

/// A copy of a parent.
pub fn clone_parent(p: &Parent) -> (r: Parent)
    ensures
        r == *p,
{
    Parent { name: p.name.clone(), name_japanese: clone_opt_string(&p.name_japanese) }
}

// ----------------------------------------------------------------------------
// The order in which anime are visited.

/// `order` lists the first `n` indices of `animes` each once, in ascending
/// order of their anime's id, and indices of equal ids in ascending order.
pub open spec fn is_order_of_first(animes: Seq<AnimeSrc>, order: Seq<usize>, n: int) -> bool {
    &&& order.len() == n
    &&& order.no_duplicates()
    &&& forall|k: int| 0 <= k < order.len() ==> #[trigger] order[k] < n
    &&& forall|i: int| 0 <= i < n ==> #[trigger] order.contains(i as usize)
    &&& forall|i: int, j: int|
        #![trigger order[i], order[j]]
        0 <= i < j < order.len() ==> animes[order[i] as int].mal_id <= animes[order[j] as int].mal_id
    &&& forall|i: int, j: int|
        #![trigger order[i], order[j]]
        0 <= i < j < order.len() && animes[order[i] as int].mal_id == animes[order[j] as int].mal_id
            ==> order[i] < order[j]
}

/// `order` is the visiting order of `animes`: every index once, ascending by
/// id, ties in input order.
pub open spec fn is_visit_order(animes: Seq<AnimeSrc>, order: Seq<usize>) -> bool {
    is_order_of_first(animes, order, animes.len() as int)
}

/// The visiting order of `animes` (a stable sort of their indices by id).
#[verifier::spinoff_prover]
pub fn visit_order(animes: &Vec<AnimeSrc>) -> (order: Vec<usize>)
    ensures
        is_visit_order(animes@, order@),
{
    let mut order: Vec<usize> = Vec::new();
    let mut n: usize = 0;
    while n < animes.len()
        invariant
            n <= animes.len(),
            is_order_of_first(animes@, order@, n as int),
        decreases animes.len() - n,
    {
        let key = animes[n].mal_id;
        let mut lo: usize = 0;
        let mut hi: usize = order.len();
        while lo < hi
            invariant
                0 <= lo <= hi <= order.len(),
                order.len() == n,
                n < animes.len(),
                key == animes@[n as int].mal_id,
                is_order_of_first(animes@, order@, n as int),
                forall|k: int| 0 <= k < lo ==> animes@[#[trigger] order@[k] as int].mal_id <= key,
                forall|k: int| hi <= k < order.len() ==> animes@[#[trigger] order@[k] as int].mal_id > key,
            decreases hi - lo,
        {
            let mid = lo + (hi - lo) / 2;
            let m = order[mid];
            if animes[m].mal_id <= key {
                proof {
                    assert forall|k: int| 0 <= k < mid + 1 implies animes@[#[trigger] order@[k] as int].mal_id <= key by {
                        if k < mid {
                            assert(animes@[order@[k] as int].mal_id <= animes@[order@[mid as int] as int].mal_id);
                        }
                    }
                }
                lo = mid + 1;
            } else {
                proof {
                    assert forall|k: int| mid <= k < order.len() implies animes@[#[trigger] order@[k] as int].mal_id > key by {
                        if k > mid {
                            assert(animes@[order@[mid as int] as int].mal_id <= animes@[order@[k] as int].mal_id);
                        }
                    }
                }
                hi = mid;
            }
        }
        let ghost before = order@;
        order.insert(lo, n);
        proof {
            before.insert_ensures(lo as int, n);
            let after = order@;
            assert forall|k: int| 0 <= k < after.len() implies #[trigger] after[k] < n + 1 by {
                if k < lo {
                    assert(after[k] == before[k]);
                } else if k > lo {
                    assert(after[k] == before[k - 1]);
                }
            }
            assert forall|i: int| 0 <= i < n + 1 implies #[trigger] after.contains(i as usize) by {
                if i == n {
                    assert(after[lo as int] == n);
                } else {
                    assert(before.contains(i as usize));
                    let j = choose|j: int| 0 <= j < before.len() && before[j] == i as usize;
                    if j < lo {
                        assert(after[j] == before[j]);
                    } else {
                        assert(after[j + 1] == before[j]);
                    }
                }
            }
            assert forall|i: int, j: int| 0 <= i < after.len() && 0 <= j < after.len() && i != j
                implies after[i] != after[j] by {
                if i != lo as int && j != lo as int {
                    let bi = if i < lo { i } else { i - 1 };
                    let bj = if j < lo { j } else { j - 1 };
                    assert(after[i] == before[bi]);
                    assert(after[j] == before[bj]);
                } else if i == lo as int {
                    let bj = if j < lo { j } else { j - 1 };
                    assert(after[j] == before[bj]);
                    assert(before[bj] < n);
                } else {
                    let bi = if i < lo { i } else { i - 1 };
                    assert(after[i] == before[bi]);
                    assert(before[bi] < n);
                }
            }
            assert forall|i: int, j: int|
                #![trigger after[i], after[j]]
                0 <= i < j < after.len() implies animes@[after[i] as int].mal_id <= animes@[after[j] as int].mal_id
                && (animes@[after[i] as int].mal_id == animes@[after[j] as int].mal_id ==> after[i] < after[j]) by {
                if j < lo {
                    assert(after[i] == before[i] && after[j] == before[j]);
                } else if j == lo as int {
                    assert(after[i] == before[i]);
                    assert(before[i] < n);
                } else if i < lo {
                    assert(after[i] == before[i] && after[j] == before[j - 1]);
                } else if i == lo as int {
                    assert(after[j] == before[j - 1]);
                } else {
                    assert(after[i] == before[i - 1] && after[j] == before[j - 1]);
                }
            }
        }
        n = n + 1;
    }
    order
}

// ----------------------------------------------------------------------------
// The model of a run.

/// The settings of a flattening run.
#[derive(Clone, Copy, Debug)]
pub struct FlattenParams {
    /// The first year of airing kept.
    pub oldest: i32,
    /// The least and most favorites of a kept anime.
    pub anime_likes: (u64, u64),
    /// The least and most favorites of a kept character.
    pub chara_likes: (u64, u64),
    /// Whether images are published under new names (else their urls are
    /// used as they are).
    pub new_img: bool,
    /// The number of documents from which a batch is inserted.
    pub batch_size: usize,
}

/// What a run is given and never changes: its settings, the anime and the
/// order in which they are visited.
pub struct FlattenInput {
    pub params: FlattenParams,
    pub animes: Seq<AnimeSrc>,
    pub order: Seq<usize>,
}

/// The anime visited at step `i`.
pub open spec fn visit(input: FlattenInput, i: int) -> AnimeSrc {
    input.animes[input.order[i] as int]
}

/// Where a run stands.
pub enum StageView {
    /// Between anime.
    Scan,
    /// The anime visited at step `index` waits for its image.
    AnimeImage { index: nat },
    /// The anime visited at step `index` waits for the clock; `img` is its image.
    AnimeClock { index: nat, img: String },
    /// A character of a cast waits for its image.
    CharaImage { parent: Parent, updated_at: u64, cast: Seq<i64>, pos: nat, chara: CharacterSrc },
    /// The run is over.
    Done,
}

/// The state of a run.
pub struct FlattenView {
    /// The next step of the visiting order.
    pub next: nat,
    /// The anime-to-cast bridges not used yet.
    pub bridges: Seq<AniCharaBridge>,
    /// The characters not claimed yet.
    pub charas: Seq<CharacterSrc>,
    /// The ids of the anime documented, in order.
    pub ins_ani: Seq<i64>,
    /// The ids of the characters documented, in order.
    pub ins_chara: Seq<i64>,
    /// The documents handed out, in order.
    pub flushed: Seq<FlatDocument>,
    /// The documents made and not handed out yet, in order.
    pub batch: Seq<FlatDocument>,
    pub stage: StageView,
}

/// An action seen as values.
pub enum ActionView {
    ResolveImage { url: Seq<char>, item_type: ItemType },
    ReadClock,
    Insert(Seq<FlatDocument>),
    Finish,
}

/// An anime is kept and has an image.
pub open spec fn kept_with_image(a: AnimeSrc, params: FlattenParams) -> bool {
    &&& spec_is_expected_anime(a, params.oldest, params.anime_likes)
    &&& spec_img_url(a.images) is Some
}

/// An anime is documented when visited if it is kept, has an image and its
/// id is not documented yet.
pub open spec fn anime_qualifies(a: AnimeSrc, ins_ani: Seq<i64>, params: FlattenParams) -> bool {
    &&& !ins_ani.contains(a.mal_id)
    &&& spec_is_expected_anime(a, params.oldest, params.anime_likes)
    &&& spec_img_url(a.images) is Some
}

/// The first step from `from` on whose anime qualifies, or the number of
/// steps when there is none.
pub open spec fn first_qualifying(input: FlattenInput, from: nat, ins_ani: Seq<i64>) -> nat
    decreases input.order.len() - from,
{
    if from >= input.order.len() {
        input.order.len()
    } else if anime_qualifies(visit(input, from as int), ins_ani, input.params) {
        from
    } else {
        first_qualifying(input, from + 1, ins_ani)
    }
}

/// The document of an anime.
pub open spec fn anime_doc(updated_at: u64, img: String, a: AnimeSrc) -> FlatDocument {
    FlatDocument {
        updated_at,
        item_type: ItemType::Anime,
        unique: None,
        img: Some(img),
        src: Some(a.url),
        name: Some(a.title),
        name_english: a.title_english,
        name_japanese: a.title_japanese,
        parent: None,
    }
}

/// The document of a character of the anime `parent`.
pub open spec fn chara_doc(updated_at: u64, img: String, c: CharacterSrc, parent: Parent) -> FlatDocument {
    FlatDocument {
        updated_at,
        item_type: ItemType::Character,
        unique: None,
        img: Some(img),
        src: Some(c.url),
        name: Some(c.name),
        name_english: None,
        name_japanese: c.name_kanji,
        parent: Some(parent),
    }
}

/// The parent of the characters of an anime.
pub open spec fn anime_parent(a: AnimeSrc) -> Parent {
    Parent { name: a.title, name_japanese: a.title_japanese }
}

/// The ids of the characters of a cast, in order.
pub open spec fn cast_ids(cast: Seq<CharacterCast>) -> Seq<i64> {
    cast.map_values(|cc: CharacterCast| cc.character.mal_id)
}

/// Going on from between anime: the next qualifying anime waits for its
/// image (or for the clock, when images are used as they are), or the run is
/// over.
pub open spec fn scan_spec(input: FlattenInput, v: FlattenView) -> (FlattenView, ActionView) {
    let i = first_qualifying(input, v.next, v.ins_ani);
    if i >= input.order.len() {
        (FlattenView { next: input.order.len(), stage: StageView::Done, ..v }, ActionView::Finish)
    } else {
        let url = spec_img_url(visit(input, i as int).images).unwrap();
        if input.params.new_img {
            (
                FlattenView { next: i + 1, stage: StageView::AnimeImage { index: i }, ..v },
                ActionView::ResolveImage { url: url@, item_type: ItemType::Anime },
            )
        } else {
            (
                FlattenView { next: i + 1, stage: StageView::AnimeClock { index: i, img: url }, ..v },
                ActionView::ReadClock,
            )
        }
    }
}

/// After an anime and its cast: a batch of at least `batch_size` documents is
/// handed out, else the run goes on to the next anime.
pub open spec fn after_cast_spec(input: FlattenInput, v: FlattenView) -> (FlattenView, ActionView) {
    if v.batch.len() >= input.params.batch_size {
        (
            FlattenView { flushed: v.flushed + v.batch, batch: Seq::empty(), stage: StageView::Scan, ..v },
            ActionView::Insert(v.batch),
        )
    } else {
        scan_spec(input, v)
    }
}

/// Going through a cast from position `pos`: each character id claims the
/// first unclaimed character of that id; a claimed character that is not
/// documented yet, is kept and has an image is documented (after its image is
/// published, when images are published).
pub open spec fn cast_spec(
    input: FlattenInput,
    v: FlattenView,
    parent: Parent,
    updated_at: u64,
    cast: Seq<i64>,
    pos: nat,
) -> (FlattenView, ActionView)
    decreases cast.len() - pos,
{
    if pos >= cast.len() {
        after_cast_spec(input, FlattenView { stage: StageView::Scan, ..v })
    } else {
        match first_index(keys_of(v.charas), cast[pos as int]) {
            None => cast_spec(input, v, parent, updated_at, cast, pos + 1),
            Some(ci) => {
                let c = v.charas[ci];
                let v1 = FlattenView { charas: v.charas.remove(ci), ..v };
                if v.ins_chara.contains(c.mal_id) || !spec_is_expected_chara(c, input.params.chara_likes)
                    || spec_img_url(c.images) is None {
                    cast_spec(input, v1, parent, updated_at, cast, pos + 1)
                } else if input.params.new_img {
                    (
                        FlattenView {
                            stage: StageView::CharaImage { parent, updated_at, cast, pos: pos + 1, chara: c },
                            ..v1
                        },
                        ActionView::ResolveImage {
                            url: spec_img_url(c.images).unwrap()@,
                            item_type: ItemType::Character,
                        },
                    )
                } else {
                    cast_spec(
                        input,
                        FlattenView {
                            ins_chara: v1.ins_chara.push(c.mal_id),
                            batch: v1.batch.push(
                                chara_doc(updated_at, spec_img_url(c.images).unwrap(), c, parent),
                            ),
                            ..v1
                        },
                        parent,
                        updated_at,
                        cast,
                        pos + 1,
                    )
                }
            },
        }
    }
}

/// What `on_image` does: an anime with a published image waits for the
/// clock, one without is left out; a character with a published image is
/// documented, one without is left out; then the cast is gone on with.
pub open spec fn on_image_spec(input: FlattenInput, v: FlattenView, img: Option<String>) -> (
    FlattenView,
    ActionView,
) {
    match v.stage {
        StageView::AnimeImage { index } => match img {
            Some(name) => (
                FlattenView { stage: StageView::AnimeClock { index, img: name }, ..v },
                ActionView::ReadClock,
            ),
            None => scan_spec(input, FlattenView { stage: StageView::Scan, ..v }),
        },
        StageView::CharaImage { parent, updated_at, cast, pos, chara } => {
            let v1 = match img {
                Some(name) => FlattenView {
                    ins_chara: v.ins_chara.push(chara.mal_id),
                    batch: v.batch.push(chara_doc(updated_at, name, chara, parent)),
                    stage: StageView::Scan,
                    ..v
                },
                None => FlattenView { stage: StageView::Scan, ..v },
            };
            cast_spec(input, v1, parent, updated_at, cast, pos)
        },
        _ => (v, ActionView::Finish),
    }
}

/// What `on_clock` does: the anime waiting is documented at that time, its
/// first unused bridge is used up, and its cast is gone through.
pub open spec fn on_clock_spec(input: FlattenInput, v: FlattenView, now: u64) -> (FlattenView, ActionView) {
    match v.stage {
        StageView::AnimeClock { index, img } => {
            let a = visit(input, index as int);
            let v1 = FlattenView {
                ins_ani: v.ins_ani.push(a.mal_id),
                batch: v.batch.push(anime_doc(now, img, a)),
                stage: StageView::Scan,
                ..v
            };
            match first_index(keys_of(v.bridges), a.mal_id) {
                Some(bi) => cast_spec(
                    input,
                    FlattenView { bridges: v.bridges.remove(bi), ..v1 },
                    anime_parent(a),
                    now,
                    cast_ids(v.bridges[bi].characters@),
                    0,
                ),
                None => cast_spec(input, v1, anime_parent(a), now, Seq::empty(), 0),
            }
        },
        _ => (v, ActionView::Finish),
    }
}

// ----------------------------------------------------------------------------
// The run.

/// Why a run cannot start.
#[derive(Clone, Copy, Debug, PartialEq, Eq, Structural)]
pub enum FlattenError {
    /// The first year kept has no first day on the calendar.
    NoFirstDay,
}

/// What the caller is to do next.
#[derive(Debug)]
pub enum FlattenAction {
    /// Publish the image at `url` for an item of kind `item_type` and hand
    /// back its new name, or `None` when the item is to be left out.
    ResolveImage { url: String, item_type: ItemType },
    /// Read the clock (milliseconds since the Unix epoch) and hand it back.
    ReadClock,
    /// Insert these documents, then proceed.
    Insert(Vec<FlatDocument>),
    /// The run is over; the last documents are taken with `finish`.
    Finish,
}

/// An action as values.
pub open spec fn action_view(a: FlattenAction) -> ActionView {
    match a {
        FlattenAction::ResolveImage { url, item_type } => ActionView::ResolveImage { url: url@, item_type },
        FlattenAction::ReadClock => ActionView::ReadClock,
        FlattenAction::Insert(docs) => ActionView::Insert(docs@),
        FlattenAction::Finish => ActionView::Finish,
    }
}

/// What a run waits for.
#[derive(Clone, Copy, Debug, PartialEq, Eq, Structural)]
pub enum Awaiting {
    /// A call of `proceed` (at the start, and after an insert).
    Proceed,
    /// The answer to `ResolveImage`.
    Image,
    /// The answer to `ReadClock`.
    Clock,
    /// Nothing: the run is over.
    Finished,
}

/// What a run in state `v` waits for.
pub open spec fn awaiting_of(v: FlattenView) -> Awaiting {
    match v.stage {
        StageView::Scan => Awaiting::Proceed,
        StageView::AnimeImage { .. } => Awaiting::Image,
        StageView::CharaImage { .. } => Awaiting::Image,
        StageView::AnimeClock { .. } => Awaiting::Clock,
        StageView::Done => Awaiting::Finished,
    }
}

enum Stage {
    Scan,
    AnimeImage { index: usize },
    AnimeClock { index: usize, img: String },
    CharaImage {
        parent: Parent,
        updated_at: u64,
        cast: Vec<CharacterCast>,
        pos: usize,
        chara: CharacterSrc,
    },
    Done,
}

spec fn stage_view(s: Stage) -> StageView {
    match s {
        Stage::Scan => StageView::Scan,
        Stage::AnimeImage { index } => StageView::AnimeImage { index: index as nat },
        Stage::AnimeClock { index, img } => StageView::AnimeClock { index: index as nat, img },
        Stage::CharaImage { parent, updated_at, cast, pos, chara } => StageView::CharaImage {
            parent,
            updated_at,
            cast: cast_ids(cast@),
            pos: pos as nat,
            chara,
        },
        Stage::Done => StageView::Done,
    }
}

/// `id` is the id of an anime of `animes` that is kept under `params`.
pub open spec fn kept_anime_id(animes: Seq<AnimeSrc>, params: FlattenParams, id: i64) -> bool {
    exists|a: AnimeSrc|
        #![trigger animes.contains(a)]
        animes.contains(a) && a.mal_id == id && spec_is_expected_anime(
            a,
            params.oldest,
            params.anime_likes,
        )
}

/// `id` is the id of a character of `charas` that is kept under `params`.
pub open spec fn kept_chara_id(charas: Seq<CharacterSrc>, params: FlattenParams, id: i64) -> bool {
    exists|c: CharacterSrc|
        #![trigger charas.contains(c)]
        charas.contains(c) && c.mal_id == id && spec_is_expected_chara(c, params.chara_likes)
}

/// A flattening run. Anime are visited in ascending order of id (ties in
/// input order) and documented each id once; after an anime its first unused
/// bridge gives its cast, whose characters are documented each id once; a
/// batch is handed out after an anime and its cast once it holds
/// `batch_size` documents. The caller publishes images and reads the clock
/// when asked, and inserts the batches handed out.
pub struct Flattener {
    params: FlattenParams,
    animes: Vec<AnimeSrc>,
    order: Vec<usize>,
    next: usize,
    bridges: Vec<AniCharaBridge>,
    charas: Vec<CharacterSrc>,
    inserted_ani: Vec<i64>,
    inserted_chara: Vec<i64>,
    batch: Vec<FlatDocument>,
    stage: Stage,
    all_charas: Ghost<Seq<CharacterSrc>>,
    flushed: Ghost<Seq<FlatDocument>>,
}

impl Flattener {
    /// What the run was given.
    pub closed spec fn input(&self) -> FlattenInput {
        FlattenInput { params: self.params, animes: self.animes@, order: self.order@ }
    }

    /// The characters the run was given.
    pub closed spec fn input_charas(&self) -> Seq<CharacterSrc> {
        self.all_charas@
    }

    /// The state of the run.
    pub closed spec fn state(&self) -> FlattenView {
        FlattenView {
            next: self.next as nat,
            bridges: self.bridges@,
            charas: self.charas@,
            ins_ani: self.inserted_ani@,
            ins_chara: self.inserted_chara@,
            flushed: self.flushed@,
            batch: self.batch@,
            stage: stage_view(self.stage),
        }
    }

    /// The state is consistent.
    pub closed spec fn wf(&self) -> bool {
        let input = self.input();
        &&& is_visit_order(self.animes@, self.order@)
        &&& self.next <= self.order@.len()
        &&& forall|k: int| 0 <= k < self.charas@.len() ==> self.all_charas@.contains(#[trigger] self.charas@[k])
        &&& forall|i: int, j: int| 0 <= i < j < self.inserted_ani@.len() ==> self.inserted_ani@[i] < self.inserted_ani@[j]
        &&& forall|i: int, k: int| 0 <= i < self.inserted_ani@.len() && self.next <= k < self.order@.len()
            ==> #[trigger] self.inserted_ani@[i] <= #[trigger] visit(input, k).mal_id
        &&& forall|i: int| 0 <= i < self.inserted_ani@.len() ==> kept_anime_id(self.animes@, self.params, #[trigger] self.inserted_ani@[i])
        &&& self.inserted_chara@.no_duplicates()
        &&& forall|i: int| 0 <= i < self.inserted_chara@.len() ==> kept_chara_id(self.all_charas@, self.params, #[trigger] self.inserted_chara@[i])
        &&& self.flushed@.len() + self.batch@.len() == self.inserted_ani@.len() + self.inserted_chara@.len()
        &&& forall|i: int| 0 <= i < self.batch@.len() ==> (#[trigger] self.batch@[i]).item_type == ItemType::Anime
            || self.batch@[i].item_type == ItemType::Character
        &&& forall|i: int| 0 <= i < self.flushed@.len() ==> (#[trigger] self.flushed@[i]).item_type == ItemType::Anime
            || self.flushed@[i].item_type == ItemType::Character
        &&& self.stage is Done ==> self.next == self.order@.len()
        &&& self.stage is AnimeImage ==> self.params.new_img
        &&& !self.params.new_img ==> forall|k: int|
            0 <= k < self.next && !self.waits_at(k) && #[trigger] kept_with_image(visit(input, k), self.params)
                ==> self.inserted_ani@.contains(visit(input, k).mal_id)
        &&& match self.stage {
            Stage::AnimeImage { index } => self.current(index),
            Stage::AnimeClock { index, .. } => self.current(index),
            Stage::CharaImage { pos, cast, chara, .. } => {
                &&& pos <= cast@.len()
                &&& self.all_charas@.contains(chara)
                &&& spec_is_expected_chara(chara, self.params.chara_likes)
                &&& !self.inserted_chara@.contains(chara.mal_id)
            },
            _ => true,
        }
    }

    /// The anime visited at step `k` waits for its image or for the clock.
    closed spec fn waits_at(&self, k: int) -> bool {
        match self.stage {
            Stage::AnimeImage { index } => index == k,
            Stage::AnimeClock { index, .. } => index == k,
            _ => false,
        }
    }

    /// The anime visited at step `index` is the one waiting: the last visited,
    /// qualifying.
    closed spec fn current(&self, index: usize) -> bool {
        &&& index + 1 == self.next
        &&& anime_qualifies(visit(self.input(), index as int), self.inserted_ani@, self.params)
        &&& forall|i: int| 0 <= i < self.inserted_ani@.len() ==> #[trigger] self.inserted_ani@[i] <= visit(self.input(), index as int).mal_id
    }

    /// A run over `animes`, the anime-to-cast bridges and the characters;
    /// refused when the first year kept has no first day on the calendar.
    pub fn new(
        params: FlattenParams,
        animes: Vec<AnimeSrc>,
        bridges: Vec<AniCharaBridge>,
        charas: Vec<CharacterSrc>,
    ) -> (r: Result<Self, FlattenError>)
        ensures
            r is Err <==> !spec_year_has_first_day(params.oldest),
            r matches Err(e) ==> e == FlattenError::NoFirstDay,
            r matches Ok(f) ==> {
                &&& f.wf()
                &&& f.input().params == params
                &&& f.input().animes == animes@
                &&& is_visit_order(animes@, f.input().order)
                &&& f.input_charas() == charas@
                &&& f.state() == FlattenView {
                    next: 0,
                    bridges: bridges@,
                    charas: charas@,
                    ins_ani: Seq::empty(),
                    ins_chara: Seq::empty(),
                    flushed: Seq::empty(),
                    batch: Seq::empty(),
                    stage: StageView::Scan,
                }
            },
    {
        if !year_has_first_day(params.oldest) {
            return Err(FlattenError::NoFirstDay);
        }
        let order = visit_order(&animes);
        let ghost all_charas = charas@;
        let f = Flattener {
            params,
            animes,
            order,
            next: 0,
            bridges,
            charas,
            inserted_ani: Vec::new(),
            inserted_chara: Vec::new(),
            batch: Vec::new(),
            stage: Stage::Scan,
            all_charas: Ghost(all_charas),
            flushed: Ghost(Seq::empty()),
        };
        assert forall|k: int| 0 <= k < f.charas@.len() implies f.all_charas@.contains(#[trigger] f.charas@[k]) by {
            assert(f.all_charas@[k] == f.charas@[k]);
        }
        assert(f.state() =~~= FlattenView {
            next: 0,
            bridges: f.bridges@,
            charas: f.charas@,
            ins_ani: Seq::empty(),
            ins_chara: Seq::empty(),
            flushed: Seq::empty(),
            batch: Seq::empty(),
            stage: StageView::Scan,
        });
        Ok(f)
    }

    /// What the run waits for.
    pub fn awaiting(&self) -> (r: Awaiting)
        ensures
            r == awaiting_of(self.state()),
    {
        match self.stage {
            Stage::Scan => Awaiting::Proceed,
            Stage::AnimeImage { .. } => Awaiting::Image,
            Stage::CharaImage { .. } => Awaiting::Image,
            Stage::AnimeClock { .. } => Awaiting::Clock,
            Stage::Done => Awaiting::Finished,
        }
    }

    /// Visits the next anime in order until one qualifies (then its image or
    /// the clock is asked for) or none is left.
    #[verifier::spinoff_prover]
    fn scan(&mut self) -> (a: FlattenAction)
        requires
            old(self).wf(),
            old(self).stage is Scan,
        ensures
            final(self).wf(),
            final(self).input() == old(self).input(),
            final(self).input_charas() == old(self).input_charas(),
            (final(self).state(), action_view(a)) == scan_spec(old(self).input(), old(self).state()),
    {
        let ghost input = self.input();
        let ghost start = self.next as nat;
        assert(start == old(self).state().next);
        assert(input == old(self).input());
        loop
            invariant_except_break
                self.wf(),
                self.stage is Scan,
                self.input() == input,
                input == old(self).input(),
                self.params == old(self).params,
                self.animes == old(self).animes,
                self.order == old(self).order,
                self.all_charas == old(self).all_charas,
                self.bridges == old(self).bridges,
                self.charas == old(self).charas,
                self.inserted_ani == old(self).inserted_ani,
                self.inserted_chara == old(self).inserted_chara,
                self.batch == old(self).batch,
                self.flushed == old(self).flushed,
                start <= self.next,
                start == old(self).next as nat,
                first_qualifying(input, start, self.inserted_ani@) == first_qualifying(
                    input,
                    self.next as nat,
                    self.inserted_ani@,
                ),
            decreases self.order@.len() - self.next,
        {
            if self.next >= self.order.len() {
                self.stage = Stage::Done;
                assert(first_qualifying(input, self.next as nat, self.inserted_ani@) == input.order.len());
                return FlattenAction::Finish;
            }
            let k = self.next;
            let index = self.order[k];
            self.next = k + 1;
            let id = self.animes[index].mal_id;
            let qualifies = !is_fetched(&self.inserted_ani, id) && is_expected_anime(
                &self.animes[index],
                self.params.oldest,
                self.params.anime_likes,
            );
            if !qualifies {
                assert(!anime_qualifies(visit(input, k as int), self.inserted_ani@, self.params));
                continue;
            }
            let url = match img_url_of(&self.animes[index].images) {
                Some(u) => u,
                None => {
                    assert(!anime_qualifies(visit(input, k as int), self.inserted_ani@, self.params));
                    continue;
                },
            };
            assert(anime_qualifies(visit(input, k as int), self.inserted_ani@, self.params));
            assert(first_qualifying(input, k as nat, self.inserted_ani@) == k);
            if self.params.new_img {
                self.stage = Stage::AnimeImage { index: k };
                return FlattenAction::ResolveImage { url, item_type: ItemType::Anime };
            } else {
                self.stage = Stage::AnimeClock { index: k, img: url };
                return FlattenAction::ReadClock;
            }
        }
    }

    /// Documents a character of the current cast.
    #[verifier::spinoff_prover]
    fn push_chara(&mut self, chara: CharacterSrc, img: String, parent: &Parent, updated_at: u64)
        requires
            old(self).wf(),
            old(self).stage is Scan,
            old(self).all_charas@.contains(chara),
            spec_is_expected_chara(chara, old(self).params.chara_likes),
            !old(self).inserted_chara@.contains(chara.mal_id),
        ensures
            final(self).wf(),
            final(self).stage is Scan,
            final(self).params == old(self).params,
            final(self).animes == old(self).animes,
            final(self).order == old(self).order,
            final(self).all_charas == old(self).all_charas,
            final(self).state() == (FlattenView {
                ins_chara: old(self).inserted_chara@.push(chara.mal_id),
                batch: old(self).batch@.push(chara_doc(updated_at, img, chara, *parent)),
                ..old(self).state()
            }),
    {
        let ghost c = chara;
        let ghost img0 = img;
        let id = chara.mal_id;
        let doc = FlatDocument::new_character(
            updated_at,
            img,
            chara.url,
            chara.name,
            chara.name_kanji,
            clone_parent(parent),
        );
        assert(doc == chara_doc(updated_at, img0, c, *parent));
        let ghost before = self.inserted_chara@;
        self.batch.push(doc);
        self.inserted_chara.push(id);
        proof {
            assert(self.all_charas@.contains(c));
            assert forall|i: int, j: int|
                0 <= i < self.inserted_chara@.len() && 0 <= j < self.inserted_chara@.len() && i != j
                implies self.inserted_chara@[i] != self.inserted_chara@[j] by {
                if i < before.len() && j < before.len() {
                    assert(before[i] != before[j]);
                } else if i < before.len() {
                    assert(before.contains(before[i]));
                } else if j < before.len() {
                    assert(before.contains(before[j]));
                }
            }
            assert forall|i: int| 0 <= i < self.inserted_chara@.len() implies kept_chara_id(
                self.all_charas@,
                self.params,
                #[trigger] self.inserted_chara@[i],
            ) by {
                if i < before.len() {
                    assert(self.inserted_chara@[i] == before[i]);
                }
            }
        }
    }

    /// Documents the anime visited at step `index`, waiting for the clock.
    #[verifier::spinoff_prover]
    fn push_anime(&mut self, index: usize, img: String, updated_at: u64) -> (parent: Parent)
        requires
            old(self).wf(),
            old(self).stage matches Stage::AnimeClock { index: i, .. } && i == index,
        ensures
            final(self).wf(),
            final(self).stage is Scan,
            final(self).params == old(self).params,
            final(self).animes == old(self).animes,
            final(self).order == old(self).order,
            final(self).all_charas == old(self).all_charas,
            final(self).state() == (FlattenView {
                ins_ani: old(self).inserted_ani@.push(visit(old(self).input(), index as int).mal_id),
                batch: old(self).batch@.push(anime_doc(updated_at, img, visit(old(self).input(), index as int))),
                stage: StageView::Scan,
                ..old(self).state()
            }),
            parent == anime_parent(visit(old(self).input(), index as int)),
    {
        let ghost input = self.input();
        let ghost img0 = img;
        let ai = self.order[index];
        let a = &self.animes[ai];
        let ghost av = *a;
        assert(av == visit(input, index as int));
        let id = a.mal_id;
        let doc = FlatDocument::new_anime(
            updated_at,
            img,
            a.url.clone(),
            a.title.clone(),
            clone_opt_string(&a.title_english),
            clone_opt_string(&a.title_japanese),
        );
        let parent = Parent { name: a.title.clone(), name_japanese: clone_opt_string(&a.title_japanese) };
        assert(doc == anime_doc(updated_at, img0, av));
        let ghost before = self.inserted_ani@;
        self.batch.push(doc);
        self.inserted_ani.push(id);
        self.stage = Stage::Scan;
        proof {
            if !self.params.new_img {
                assert forall|k: int|
                    0 <= k < self.next && !self.waits_at(k) && #[trigger] kept_with_image(visit(input, k), self.params)
                    implies self.inserted_ani@.contains(visit(input, k).mal_id) by {
                    if k == index {
                        assert(self.inserted_ani@[before.len() as int] == id);
                    } else {
                        assert(!old(self).waits_at(k));
                        assert(before.contains(visit(input, k).mal_id));
                        let j = choose|j: int| 0 <= j < before.len() && before[j] == visit(input, k).mal_id;
                        assert(self.inserted_ani@[j] == before[j]);
                    }
                }
            }
            assert(self.animes@.contains(av)) by {
                assert(self.animes@[ai as int] == av);
            }
            assert forall|i: int| 0 <= i < self.inserted_ani@.len() implies kept_anime_id(
                self.animes@,
                self.params,
                #[trigger] self.inserted_ani@[i],
            ) by {
                if i < before.len() {
                    assert(self.inserted_ani@[i] == before[i]);
                }
            }
            assert forall|i: int, j: int| 0 <= i < j < self.inserted_ani@.len() implies self.inserted_ani@[i]
                < self.inserted_ani@[j] by {
                if j < before.len() {
                    assert(before[i] < before[j]);
                } else {
                    assert(self.inserted_ani@[i] == before[i]);
                    assert(before[i] <= av.mal_id);
                    assert(before.contains(before[i]));
                }
            }
            assert forall|i: int, k: int| 0 <= i < self.inserted_ani@.len() && self.next <= k < self.order@.len()
                implies #[trigger] self.inserted_ani@[i] <= #[trigger] visit(input, k).mal_id by {
                if i < before.len() {
                    assert(self.inserted_ani@[i] == before[i]);
                } else {
                    assert(self.order@[index as int] == self.order@[index as int]);
                    assert(self.order@[k] == self.order@[k]);
                }
            }
        }
        parent
    }

    /// After an anime and its cast: hands out a full batch, else goes on to
    /// the next anime.
    #[verifier::spinoff_prover]
    fn after_cast(&mut self) -> (a: FlattenAction)
        requires
            old(self).wf(),
            old(self).stage is Scan,
        ensures
            final(self).wf(),
            final(self).input() == old(self).input(),
            final(self).input_charas() == old(self).input_charas(),
            (final(self).state(), action_view(a)) == after_cast_spec(old(self).input(), old(self).state()),
    {
        if self.batch.len() >= self.params.batch_size {
            let mut docs: Vec<FlatDocument> = Vec::new();
            core::mem::swap(&mut docs, &mut self.batch);
            self.flushed = Ghost(self.flushed@ + docs@);
            proof {
                assert forall|i: int| 0 <= i < self.flushed@.len() implies (#[trigger] self.flushed@[i]).item_type
                    == ItemType::Anime || self.flushed@[i].item_type == ItemType::Character by {
                    if i < old(self).flushed@.len() {
                        assert(self.flushed@[i] == old(self).flushed@[i]);
                    } else {
                        assert(self.flushed@[i] == docs@[i - old(self).flushed@.len()]);
                    }
                }
                assert(self.state() == FlattenView {
                    flushed: old(self).flushed@ + old(self).batch@,
                    batch: Seq::empty(),
                    stage: StageView::Scan,
                    ..old(self).state()
                });
            }
            FlattenAction::Insert(docs)
        } else {
            self.scan()
        }
    }

    /// Claims the first unclaimed character with id `id`, if any.
    #[verifier::spinoff_prover]
    fn claim_chara(&mut self, id: i64) -> (r: Option<CharacterSrc>)
        requires
            old(self).wf(),
            old(self).stage is Scan,
        ensures
            final(self).wf(),
            final(self).stage is Scan,
            final(self).input() == old(self).input(),
            final(self).all_charas == old(self).all_charas,
            r matches Some(c) ==> final(self).all_charas@.contains(c),
            match first_index(keys_of(old(self).state().charas), id) {
                None => r is None && final(self).state() == old(self).state(),
                Some(ci) => r == Some(old(self).state().charas[ci]) && final(self).state() == (FlattenView {
                    charas: old(self).state().charas.remove(ci),
                    ..old(self).state()
                }),
            },
    {
        let idx = match find_first(&self.charas, id) {
            Some(i) => i,
            None => {
                return None;
            },
        };
        let ghost before = self.charas@;
        let chara = self.charas.remove(idx);
        proof {
            assert(self.all_charas@.contains(before[idx as int]));
            assert forall|k: int| 0 <= k < self.charas@.len() implies self.all_charas@.contains(
                #[trigger] self.charas@[k],
            ) by {
                if k < idx {
                    assert(self.charas@[k] == before[k]);
                } else {
                    assert(self.charas@[k] == before[k + 1]);
                }
            }
        }
        Some(chara)
    }

    /// Uses up the first unused bridge of anime `id` and gives its cast; an
    /// empty cast where there is none.
    #[verifier::spinoff_prover]
    fn take_bridge(&mut self, id: i64) -> (cast: Vec<CharacterCast>)
        requires
            old(self).wf(),
            old(self).stage is Scan,
        ensures
            final(self).wf(),
            final(self).stage is Scan,
            final(self).input() == old(self).input(),
            final(self).all_charas == old(self).all_charas,
            match first_index(keys_of(old(self).state().bridges), id) {
                None => cast_ids(cast@) == Seq::<i64>::empty() && final(self).state() == old(self).state(),
                Some(bi) => cast@ == old(self).state().bridges[bi].characters@ && final(self).state() == (
                FlattenView { bridges: old(self).state().bridges.remove(bi), ..old(self).state() }),
            },
    {
        let ghost v = self.state();
        match find_first(&self.bridges, id) {
            Some(idx) => {
                let ghost b = self.bridges@[idx as int];
                let mut bridges = Vec::new();
                core::mem::swap(&mut bridges, &mut self.bridges);
                let bridge = bridges.remove(idx);
                self.bridges = bridges;
                assert(bridge == b);
                assert(self.state() == FlattenView { bridges: v.bridges.remove(idx as int), ..v });
                bridge.characters
            },
            None => {
                assert(cast_ids(Seq::<CharacterCast>::empty()) =~= Seq::<i64>::empty());
                Vec::new()
            },
        }
    }

    /// Goes through a cast from position `pos` until a character's image is
    /// to be published or the cast is done.
    #[verifier::spinoff_prover]
    fn run_cast(&mut self, parent: Parent, updated_at: u64, cast: Vec<CharacterCast>, pos: usize) -> (a: FlattenAction)
        requires
            old(self).wf(),
            old(self).stage is Scan,
            pos <= cast.len(),
        ensures
            final(self).wf(),
            final(self).input() == old(self).input(),
            final(self).input_charas() == old(self).input_charas(),
            (final(self).state(), action_view(a)) == cast_spec(
                old(self).input(),
                old(self).state(),
                parent,
                updated_at,
                cast_ids(cast@),
                pos as nat,
            ),
    {
        let ghost input = self.input();
        let ghost ids = cast_ids(cast@);
        let ghost goal = cast_spec(input, self.state(), parent, updated_at, ids, pos as nat);
        let mut at = pos;
        loop
            invariant_except_break
                self.wf(),
                self.stage is Scan,
                self.input() == input,
                input == old(self).input(),
                self.all_charas == old(self).all_charas,
                at <= cast.len(),
                ids == cast_ids(cast@),
                ids.len() == cast@.len(),
                goal == cast_spec(input, old(self).state(), parent, updated_at, ids, pos as nat),
                goal == cast_spec(input, self.state(), parent, updated_at, ids, at as nat),
            ensures
                self.wf(),
                self.stage is Scan,
                self.input() == input,
                self.all_charas == old(self).all_charas,
                input == old(self).input(),
                goal == cast_spec(input, old(self).state(), parent, updated_at, ids, pos as nat),
                goal == after_cast_spec(input, self.state()),
            decreases cast@.len() - at,
        {
            if at >= cast.len() {
                assert(FlattenView { stage: StageView::Scan, ..self.state() } == self.state());
                break;
            }
            let ghost v = self.state();
            let id = cast[at].character.mal_id;
            assert(ids[at as int] == id);
            at = at + 1;
            let chara = match self.claim_chara(id) {
                Some(c) => c,
                None => {
                    continue;
                },
            };
            if is_fetched(&self.inserted_chara, chara.mal_id) {
                continue;
            }
            if !is_expected_chara(&chara, self.params.chara_likes) {
                continue;
            }
            let url = match img_url_of(&chara.images) {
                Some(u) => u,
                None => {
                    continue;
                },
            };
            if self.params.new_img {
                let ghost c = chara;
                let ghost v1 = self.state();
                self.stage = Stage::CharaImage { parent, updated_at, cast, pos: at, chara };
                assert(self.wf());
                assert(self.state() == FlattenView {
                    stage: StageView::CharaImage { parent, updated_at, cast: ids, pos: at as nat, chara: c },
                    ..v1
                });
                assert(goal == (FlattenView {
                    stage: StageView::CharaImage { parent, updated_at, cast: ids, pos: at as nat, chara: c },
                    ..v1
                }, ActionView::ResolveImage { url: url@, item_type: ItemType::Character }));
                return FlattenAction::ResolveImage { url, item_type: ItemType::Character };
            } else {
                self.push_chara(chara, url, &parent, updated_at);
            }
        }
        self.after_cast()
    }

    /// Starts the run, or goes on after an insert: see `scan_spec`.
    pub fn proceed(&mut self) -> (a: FlattenAction)
        requires
            old(self).wf(),
            awaiting_of(old(self).state()) == Awaiting::Proceed,
        ensures
            final(self).wf(),
            final(self).input() == old(self).input(),
            final(self).input_charas() == old(self).input_charas(),
            (final(self).state(), action_view(a)) == scan_spec(old(self).input(), old(self).state()),
    {
        self.scan()
    }

    /// Takes the answer to `ResolveImage`: the image's new name, or `None`
    /// when the item is to be left out (see `on_image_spec`).
    #[verifier::spinoff_prover]
    pub fn on_image(&mut self, img: Option<String>) -> (a: FlattenAction)
        requires
            old(self).wf(),
            awaiting_of(old(self).state()) == Awaiting::Image,
        ensures
            final(self).wf(),
            final(self).input() == old(self).input(),
            final(self).input_charas() == old(self).input_charas(),
            (final(self).state(), action_view(a)) == on_image_spec(old(self).input(), old(self).state(), img),
    {
        let mut stage = Stage::Scan;
        core::mem::swap(&mut self.stage, &mut stage);
        match stage {
            Stage::AnimeImage { index } => {
                match img {
                    Some(name) => {
                        self.stage = Stage::AnimeClock { index, img: name };
                        FlattenAction::ReadClock
                    },
                    None => self.scan(),
                }
            },
            Stage::CharaImage { parent, updated_at, cast, pos, chara } => {
                match img {
                    Some(name) => {
                        self.push_chara(chara, name, &parent, updated_at);
                    },
                    None => {},
                }
                self.run_cast(parent, updated_at, cast, pos)
            },
            _ => {
                proof {
                    assert(false);
                }
                FlattenAction::Finish
            },
        }
    }

    /// Takes the answer to `ReadClock`: the anime waiting for it is
    /// documented with that time, and its cast is gone through (see
    /// `on_clock_spec`).
    #[verifier::spinoff_prover]
    pub fn on_clock(&mut self, now: u64) -> (a: FlattenAction)
        requires
            old(self).wf(),
            awaiting_of(old(self).state()) == Awaiting::Clock,
        ensures
            final(self).wf(),
            final(self).input() == old(self).input(),
            final(self).input_charas() == old(self).input_charas(),
            (final(self).state(), action_view(a)) == on_clock_spec(old(self).input(), old(self).state(), now),
    {
        let ghost input = self.input();
        let (index, img) = match &self.stage {
            Stage::AnimeClock { index, img } => (*index, img.clone()),
            _ => {
                proof {
                    assert(false);
                }
                return FlattenAction::Finish;
            },
        };
        let id = self.animes[self.order[index]].mal_id;
        assert(id == visit(input, index as int).mal_id);
        let parent = self.push_anime(index, img, now);
        let cast = self.take_bridge(id);
        self.run_cast(parent, now, cast, 0)
    }

    /// Ends the run: the documents not yet handed out, then the ids of the
    /// anime and of the characters documented, each in order.
    pub fn finish(self) -> (r: (Vec<FlatDocument>, Vec<i64>, Vec<i64>))
        ensures
            r.0@ == self.state().batch,
            r.1@ == self.state().ins_ani,
            r.2@ == self.state().ins_chara,
    {
        (self.batch, self.inserted_ani, self.inserted_chara)
    }
}

/// The laws of a flattening run, which hold in every state it reaches: the
/// documented anime ids strictly increase, so no anime is documented twice;
/// no character is documented twice; every documented id is that of a kept
/// input anime or character; the documents made, handed out or not, are as
/// many as the ids documented; and every document is that of an anime or of
/// a character.
pub proof fn lemma_flatten_laws(f: &Flattener)
    requires
        f.wf(),
    ensures
        forall|i: int, j: int|
            0 <= i < j < f.state().ins_ani.len() ==> f.state().ins_ani[i] < f.state().ins_ani[j],
        f.state().ins_ani.no_duplicates(),
        f.state().ins_chara.no_duplicates(),
        forall|i: int|
            0 <= i < f.state().ins_ani.len() ==> kept_anime_id(
                f.input().animes,
                f.input().params,
                #[trigger] f.state().ins_ani[i],
            ),
        forall|i: int|
            0 <= i < f.state().ins_chara.len() ==> kept_chara_id(
                f.input_charas(),
                f.input().params,
                #[trigger] f.state().ins_chara[i],
            ),
        f.state().flushed.len() + f.state().batch.len() == f.state().ins_ani.len()
            + f.state().ins_chara.len(),
        forall|i: int|
            0 <= i < f.state().batch.len() ==> (#[trigger] f.state().batch[i]).item_type
                == ItemType::Anime || f.state().batch[i].item_type == ItemType::Character,
        forall|i: int|
            0 <= i < f.state().flushed.len() ==> (#[trigger] f.state().flushed[i]).item_type
                == ItemType::Anime || f.state().flushed[i].item_type == ItemType::Character,
{
    let s = f.state();
    assert forall|i: int, j: int|
        0 <= i < s.ins_ani.len() && 0 <= j < s.ins_ani.len() && i != j implies s.ins_ani[i]
        != s.ins_ani[j] by {
        if i < j {
            assert(s.ins_ani[i] < s.ins_ani[j]);
        } else {
            assert(s.ins_ani[j] < s.ins_ani[i]);
        }
    }
}

/// The documents a run has made so far, handed out or not, in order.
pub open spec fn docs_of(v: FlattenView) -> Seq<FlatDocument> {
    v.flushed + v.batch
}

/// `after` is `before` followed by character documents of `parent`, all
/// made at time `updated_at`.
pub open spec fn grown_by_cast(
    before: Seq<FlatDocument>,
    after: Seq<FlatDocument>,
    updated_at: u64,
    parent: Parent,
) -> bool {
    &&& before.len() <= after.len()
    &&& after.subrange(0, before.len() as int) == before
    &&& forall|i: int|
        before.len() <= i < after.len() ==> (#[trigger] after[i]).item_type == ItemType::Character
            && after[i].updated_at == updated_at && after[i].parent == Some(parent)
}

proof fn lemma_grown_trans(a: Seq<FlatDocument>, b: Seq<FlatDocument>, c: Seq<FlatDocument>, t: u64, p: Parent)
    requires
        grown_by_cast(a, b, t, p),
        grown_by_cast(b, c, t, p),
    ensures
        grown_by_cast(a, c, t, p),
{
    assert(c.subrange(0, a.len() as int) =~= a) by {
        assert forall|i: int| 0 <= i < a.len() implies c[i] == a[i] by {
            assert(c.subrange(0, b.len() as int)[i] == b[i]);
            assert(b.subrange(0, a.len() as int)[i] == a[i]);
        }
    }
    assert forall|i: int| a.len() <= i < c.len() implies (#[trigger] c[i]).item_type == ItemType::Character
        && c[i].updated_at == t && c[i].parent == Some(p) by {
        if i < b.len() {
            assert(c.subrange(0, b.len() as int)[i] == b[i]);
        }
    }
}

proof fn lemma_grown_refl(a: Seq<FlatDocument>, t: u64, p: Parent)
    ensures
        grown_by_cast(a, a, t, p),
{
    assert(a.subrange(0, a.len() as int) =~= a);
}

/// Going on to the next anime, or handing a batch out, makes no document.
proof fn lemma_after_cast_keeps_docs(input: FlattenInput, v: FlattenView)
    ensures
        docs_of(after_cast_spec(input, v).0) == docs_of(v),
{
    if v.batch.len() >= input.params.batch_size {
        assert(docs_of(after_cast_spec(input, v).0) =~= docs_of(v));
    }
}

/// Going through a cast adds only character documents of the cast's anime,
/// made at the cast's time.
proof fn lemma_cast_docs(
    input: FlattenInput,
    v: FlattenView,
    parent: Parent,
    updated_at: u64,
    cast: Seq<i64>,
    pos: nat,
)
    ensures
        grown_by_cast(
            docs_of(v),
            docs_of(cast_spec(input, v, parent, updated_at, cast, pos).0),
            updated_at,
            parent,
        ),
    decreases cast.len() - pos,
{
    if pos >= cast.len() {
        lemma_after_cast_keeps_docs(input, FlattenView { stage: StageView::Scan, ..v });
        lemma_grown_refl(docs_of(v), updated_at, parent);
    } else {
        match first_index(keys_of(v.charas), cast[pos as int]) {
            None => {
                lemma_cast_docs(input, v, parent, updated_at, cast, pos + 1);
            },
            Some(ci) => {
                let c = v.charas[ci];
                let v1 = FlattenView { charas: v.charas.remove(ci), ..v };
                assert(docs_of(v1) == docs_of(v));
                if v.ins_chara.contains(c.mal_id) || !spec_is_expected_chara(c, input.params.chara_likes)
                    || spec_img_url(c.images) is None {
                    lemma_cast_docs(input, v1, parent, updated_at, cast, pos + 1);
                } else if input.params.new_img {
                    lemma_grown_refl(docs_of(v), updated_at, parent);
                } else {
                    let d = chara_doc(updated_at, spec_img_url(c.images).unwrap(), c, parent);
                    let v2 = FlattenView {
                        ins_chara: v1.ins_chara.push(c.mal_id),
                        batch: v1.batch.push(d),
                        ..v1
                    };
                    assert(docs_of(v2) =~= docs_of(v).push(d));
                    assert(grown_by_cast(docs_of(v), docs_of(v2), updated_at, parent)) by {
                        assert(docs_of(v2).subrange(0, docs_of(v).len() as int) =~= docs_of(v));
                    }
                    lemma_cast_docs(input, v2, parent, updated_at, cast, pos + 1);
                    lemma_grown_trans(
                        docs_of(v),
                        docs_of(v2),
                        docs_of(cast_spec(input, v2, parent, updated_at, cast, pos + 1).0),
                        updated_at,
                        parent,
                    );
                }
            },
        }
    }
}

/// An anime's documents stay together and share its clock reading: when the
/// clock is read for a waiting anime, its document is made at that time,
/// then only documents of characters of its cast follow, at the same time
/// and under it as parent, until the run next asks for something.
pub proof fn lemma_clock_groups_docs(input: FlattenInput, v: FlattenView, now: u64)
    requires
        v.stage is AnimeClock,
    ensures
        ({
            let a = visit(input, v.stage->AnimeClock_index as int);
            grown_by_cast(
                docs_of(v).push(anime_doc(now, v.stage->AnimeClock_img, a)),
                docs_of(on_clock_spec(input, v, now).0),
                now,
                anime_parent(a),
            )
        }),
{
    let index = v.stage->AnimeClock_index;
    let img = v.stage->AnimeClock_img;
    let a = visit(input, index as int);
    let v1 = FlattenView {
        ins_ani: v.ins_ani.push(a.mal_id),
        batch: v.batch.push(anime_doc(now, img, a)),
        stage: StageView::Scan,
        ..v
    };
    assert(docs_of(v1) =~= docs_of(v).push(anime_doc(now, img, a)));
    match first_index(keys_of(v.bridges), a.mal_id) {
        Some(bi) => {
            let v2 = FlattenView { bridges: v.bridges.remove(bi), ..v1 };
            assert(docs_of(v2) == docs_of(v1));
            lemma_cast_docs(input, v2, anime_parent(a), now, cast_ids(v.bridges[bi].characters@), 0);
        },
        None => {
            lemma_cast_docs(input, v1, anime_parent(a), now, Seq::empty(), 0);
        },
    }
}

/// A character whose image comes back joins its anime's documents: after the
/// answer, only documents of characters of that anime follow, at the time of
/// the anime's clock reading, until the run next asks for something.
pub proof fn lemma_image_groups_docs(input: FlattenInput, v: FlattenView, img: Option<String>)
    requires
        v.stage is CharaImage,
    ensures
        grown_by_cast(
            docs_of(v),
            docs_of(on_image_spec(input, v, img).0),
            v.stage->CharaImage_updated_at,
            v.stage->CharaImage_parent,
        ),
{
    let parent = v.stage->CharaImage_parent;
    let t = v.stage->CharaImage_updated_at;
    let cast = v.stage->CharaImage_cast;
    let pos = v.stage->CharaImage_pos;
    let chara = v.stage->CharaImage_chara;
    match img {
        Some(name) => {
            let d = chara_doc(t, name, chara, parent);
            let v1 = FlattenView {
                ins_chara: v.ins_chara.push(chara.mal_id),
                batch: v.batch.push(d),
                stage: StageView::Scan,
                ..v
            };
            assert(docs_of(v1) =~= docs_of(v).push(d));
            assert(grown_by_cast(docs_of(v), docs_of(v1), t, parent)) by {
                assert(docs_of(v1).subrange(0, docs_of(v).len() as int) =~= docs_of(v));
            }
            lemma_cast_docs(input, v1, parent, t, cast, pos);
            lemma_grown_trans(
                docs_of(v),
                docs_of(v1),
                docs_of(cast_spec(input, v1, parent, t, cast, pos).0),
                t,
                parent,
            );
        },
        None => {
            let v1 = FlattenView { stage: StageView::Scan, ..v };
            assert(docs_of(v1) == docs_of(v));
            lemma_cast_docs(input, v1, parent, t, cast, pos);
        },
    }
}

/// Between anime a run passes over exactly the anime that do not qualify
/// (already documented, not kept, or without an image); the anime it stops
/// at qualifies and is the next to be documented.
pub proof fn lemma_first_qualifying(input: FlattenInput, from: nat, ins_ani: Seq<i64>)
    ensures
        from <= first_qualifying(input, from, ins_ani) || from >= input.order.len(),
        first_qualifying(input, from, ins_ani) <= input.order.len() || from >= input.order.len(),
        forall|k: int|
            from <= k < first_qualifying(input, from, ins_ani) ==> !anime_qualifies(
                #[trigger] visit(input, k),
                ins_ani,
                input.params,
            ),
        first_qualifying(input, from, ins_ani) < input.order.len() ==> anime_qualifies(
            visit(input, first_qualifying(input, from, ins_ani) as int),
            ins_ani,
            input.params,
        ),
    decreases input.order.len() - from,
{
    if from < input.order.len() && !anime_qualifies(visit(input, from as int), ins_ani, input.params) {
        lemma_first_qualifying(input, from + 1, ins_ani);
    }
}

/// A run that uses images as they are documents every kept anime that has an
/// image: once it is over, the id of each such input anime is documented.
pub proof fn lemma_flatten_complete(f: &Flattener)
    requires
        f.wf(),
        f.state().stage is Done,
        !f.input().params.new_img,
    ensures
        forall|j: int|
            0 <= j < f.input().animes.len() && #[trigger] kept_with_image(f.input().animes[j], f.input().params)
                ==> f.state().ins_ani.contains(f.input().animes[j].mal_id),
{
    let input = f.input();
    assert forall|j: int|
        0 <= j < input.animes.len() && #[trigger] kept_with_image(input.animes[j], input.params)
        implies f.state().ins_ani.contains(input.animes[j].mal_id) by {
        assert(input.order.contains(j as usize));
        let k = choose|k: int| 0 <= k < input.order.len() && input.order[k] == j as usize;
        assert(visit(input, k) == input.animes[j]);
        assert(!f.waits_at(k));
        assert(kept_with_image(visit(input, k), f.params));
    }
}

/// What keeping an anime asks of it: it started airing in a year no earlier
/// than `oldest`, has a media type that is kept and a rating that is not
/// restricted, its favorites lie between `likes.0` and `likes.1`, and its
/// synopsis is not empty. In particular an anime with fewer favorites than
/// `likes.0`, or more than `likes.1`, is never kept.
pub proof fn lemma_kept_anime_conditions(a: AnimeSrc, oldest: i32, likes: (u64, u64))
    ensures
        spec_is_expected_anime(a, oldest, likes) ==> {
            &&& likes.0 <= a.favorites
            &&& a.favorites <= likes.1
            &&& a.aired.from is Some
            &&& chrono_date_year(a.aired.from.unwrap()@, aired_date_fmt()) is Some
            &&& chrono_date_year(a.aired.from.unwrap()@, aired_date_fmt()).unwrap() >= oldest
            &&& a.media_type is Some
            &&& spec_is_expected_media_type(a.media_type.unwrap()@)
            &&& a.rating is Some
            &&& !spec_is_hentai_str(a.rating.unwrap()@)
            &&& a.synopsis is Some
            &&& a.synopsis.unwrap()@.len() > 0
        },
        a.favorites < likes.0 ==> !spec_is_expected_anime(a, oldest, likes),
        a.favorites > likes.1 ==> !spec_is_expected_anime(a, oldest, likes),
{
}

/// What keeping a character asks of it: its favorites lie between `likes.0`
/// and `likes.1` and its description is not empty.
pub proof fn lemma_kept_chara_conditions(c: CharacterSrc, likes: (u64, u64))
    ensures
        spec_is_expected_chara(c, likes) <==> (likes.0 <= c.favorites && c.favorites <= likes.1
            && c.about is Some && c.about.unwrap()@.len() > 0),
{
}

/// The document of an anime carries the anime's page and names and the
/// image and time it is made with, and no parent.
pub proof fn lemma_anime_doc_fields(updated_at: u64, img: String, a: AnimeSrc)
    ensures
        anime_doc(updated_at, img, a).item_type == ItemType::Anime,
        anime_doc(updated_at, img, a).updated_at == updated_at,
        anime_doc(updated_at, img, a).img == Some(img),
        anime_doc(updated_at, img, a).src == Some(a.url),
        anime_doc(updated_at, img, a).name == Some(a.title),
        anime_doc(updated_at, img, a).name_english == a.title_english,
        anime_doc(updated_at, img, a).name_japanese == a.title_japanese,
        anime_doc(updated_at, img, a).unique is None,
        anime_doc(updated_at, img, a).parent is None,
{
}

/// The document of a character carries the character's page and names, the
/// image and time it is made with, and its anime as parent.
pub proof fn lemma_chara_doc_fields(updated_at: u64, img: String, c: CharacterSrc, parent: Parent)
    ensures
        chara_doc(updated_at, img, c, parent).item_type == ItemType::Character,
        chara_doc(updated_at, img, c, parent).updated_at == updated_at,
        chara_doc(updated_at, img, c, parent).img == Some(img),
        chara_doc(updated_at, img, c, parent).src == Some(c.url),
        chara_doc(updated_at, img, c, parent).name == Some(c.name),
        chara_doc(updated_at, img, c, parent).name_english is None,
        chara_doc(updated_at, img, c, parent).name_japanese == c.name_kanji,
        chara_doc(updated_at, img, c, parent).unique is None,
        chara_doc(updated_at, img, c, parent).parent == Some(parent),
{
}

/// The parent the characters and videos of an anime are filed under bears
/// the anime's title and Japanese title.
pub proof fn lemma_anime_parent_fields(a: AnimeSrc)
    ensures
        anime_parent(a).name == a.title,
        anime_parent(a).name_japanese == a.title_japanese,
{
}

/// A refused anime image leaves only that anime out: the run goes on from
/// between anime at the next step, as it would after any anime. So in
/// new-image mode a later anime that qualifies is still visited: the run is
/// not over while one is left.
pub proof fn lemma_refused_image_goes_on(input: FlattenInput, v: FlattenView)
    requires
        v.stage is AnimeImage,
    ensures
        on_image_spec(input, v, None) == scan_spec(input, FlattenView { stage: StageView::Scan, ..v }),
        forall|k: int|
            v.next <= k < input.order.len() && #[trigger] anime_qualifies(visit(input, k), v.ins_ani, input.params)
                ==> on_image_spec(input, v, None).0.stage !is Done && on_image_spec(input, v, None).1
                !is Finish,
{
    lemma_first_qualifying(input, v.next, v.ins_ani);
    assert forall|k: int|
        v.next <= k < input.order.len() && #[trigger] anime_qualifies(visit(input, k), v.ins_ani, input.params)
        implies on_image_spec(input, v, None).0.stage !is Done && on_image_spec(input, v, None).1 !is Finish by {
        assert(first_qualifying(input, v.next, v.ins_ani) <= k);
    }
}

/// After an anime and its cast a batch is handed out exactly when it holds
/// at least `batch_size` documents: what is handed out is the whole batch,
/// and when nothing is handed out the batch holds fewer.
pub proof fn lemma_batches_handed_out(input: FlattenInput, v: FlattenView)
    requires
        v.stage is Scan,
    ensures
        after_cast_spec(input, v).1 matches ActionView::Insert(d) ==> d == v.batch && d.len()
            >= input.params.batch_size && after_cast_spec(input, v).0.batch.len() == 0,
        !(after_cast_spec(input, v).1 is Insert) ==> v.batch.len() < input.params.batch_size
            && after_cast_spec(input, v).0.batch == v.batch,
{
    if v.batch.len() < input.params.batch_size {
        lemma_first_qualifying(input, v.next, v.ins_ani);
    }
}

/// Going on from between anime stops at a qualifying anime visited at or
/// after the next step; when images are used as they are, the anime waits
/// for the clock with its own image url, and otherwise its own image url is
/// the one asked to be published.
pub proof fn lemma_scan_picks_own_image(input: FlattenInput, v: FlattenView)
    ensures
        ({
            let (w, a) = scan_spec(input, v);
            &&& w.stage matches StageView::AnimeClock { index, img } ==> {
                &&& !input.params.new_img
                &&& v.next <= index < input.order.len()
                &&& anime_qualifies(visit(input, index as int), v.ins_ani, input.params)
                &&& Some(img) == spec_img_url(visit(input, index as int).images)
            }
            &&& w.stage matches StageView::AnimeImage { index } ==> {
                &&& input.params.new_img
                &&& v.next <= index < input.order.len()
                &&& anime_qualifies(visit(input, index as int), v.ins_ani, input.params)
                &&& a matches ActionView::ResolveImage { url, item_type }
                &&& spec_img_url(visit(input, index as int).images) is Some
                &&& url == spec_img_url(visit(input, index as int).images).unwrap()@
                &&& item_type == ItemType::Anime
            }
        }),
{
    lemma_first_qualifying(input, v.next, v.ins_ani);
}

} // verus!
