//! The catalogue's web API: the pages of a listing, what an answer holds, and
//! the decisions of a paged request. The requests themselves are made by the
//! caller, which hands each answer back.

use crate::json::{
    json_field, json_get, json_into_items, json_items, json_kind, json_kind_of, json_from_str,
    parse_json, JsonKind,
};
use crate::documents::anime_raw::Season;
use crate::documents::anime_src::AniCharaBridge;
use crate::text::{
    decimal, int_decimal, lemma_decimal_injective, lemma_decimal_nonempty, push_decimal,
    push_int_decimal,
};
use vstd::prelude::*;

verus! {

/// A raw document built from the values of an API answer for one anime.
pub trait AnimeApiRawDocument: Sized {
    /// The id of the anime the document belongs to.
    spec fn spec_mal_id(&self) -> i64;

    /// The values the document holds, in order.
    spec fn spec_values(&self) -> Seq<serde_json::Value>;

    /// The document of anime `mal_id` holding the values `val`.
    fn from_value_list(mal_id: i64, val: Vec<serde_json::Value>) -> (r: Self)
        ensures
            r.spec_mal_id() == mal_id,
            r.spec_values() == val@,
    ;
}

/// Why an API answer gave no data.
#[derive(Clone, Copy, Debug, PartialEq, Eq, Structural)]
pub enum ApiError {
    /// The server answered with a status other than 200.
    Status(u16),
    /// The body is not JSON.
    Json,
    /// The body is JSON but neither an object nor null.
    NotAnObject,
    /// The body has no `data` member (or a null one).
    DataNotFound,
}

/// The url of page `page` of a listing: the listing's own url for pages 0
/// and 1, otherwise the url with "?page=" and the page number.
pub open spec fn spec_paged_url(url: Seq<char>, page: nat) -> Seq<char> {
    if page <= 1 {
        url
    } else {
        url + seq!['?', 'p', 'a', 'g', 'e', '='] + decimal(page)
    }
}

/// Pages 1 and above of a listing have pairwise distinct urls, so a crawl
/// never asks twice for the same url.
pub proof fn lemma_paged_url_injective(url: Seq<char>, p: nat, q: nat)
    requires
        1 <= p,
        1 <= q,
        p != q,
    ensures
        spec_paged_url(url, p) != spec_paged_url(url, q),
{
    let marker = seq!['?', 'p', 'a', 'g', 'e', '='];
    if p >= 2 && q >= 2 {
        if spec_paged_url(url, p) == spec_paged_url(url, q) {
            let n = url.len() + marker.len();
            assert((url + marker + decimal(p)).subrange(n as int, spec_paged_url(url, p).len() as int)
                =~= decimal(p));
            assert((url + marker + decimal(q)).subrange(n as int, spec_paged_url(url, q).len() as int)
                =~= decimal(q));
            lemma_decimal_injective(p, q);
        }
    } else if p >= 2 {
        lemma_decimal_nonempty(p);
        assert(spec_paged_url(url, p).len() > url.len());
    } else {
        lemma_decimal_nonempty(q);
        assert(spec_paged_url(url, q).len() > url.len());
    }
}

/// The url of page `page` of the listing at `url`.
pub fn paged_url(url: &str, page: u32) -> (r: String)
    ensures
        r@ == spec_paged_url(url@, page as nat),
{
    if page <= 1 {
        String::from_str(url)
    } else {
        proof {
            reveal_strlit("?page=");
        }
        let mut s = String::from_str(url);
        s.append("?page=");
        push_decimal(&mut s, page as u64);
        assert(s@ =~= spec_paged_url(url@, page as nat));
        s
    }
}

/// Whether an HTTP status lets an answer be read: only 200 does.
pub fn check_status(status: u16) -> (r: Result<(), ApiError>)
    ensures
        r is Ok <==> status == 200,
        r matches Err(e) ==> e == ApiError::Status(status),
{
    if status == 200 {
        Ok(())
    } else {
        Err(ApiError::Status(status))
    }
}

/// The data an answer holds: the elements of its `data` member when that is
/// an array, otherwise the member itself as the only element.
pub open spec fn spec_answer_data(data: serde_json::Value) -> Seq<serde_json::Value> {
    if json_kind_of(data) == JsonKind::Array {
        json_items(data)
    } else {
        seq![data]
    }
}

/// Splits an answer object into its data and its `pagination` member.
pub fn split_response(json: serde_json::Value) -> (r: Result<
    (Vec<serde_json::Value>, serde_json::Value),
    ApiError,
>)
    requires
        json_kind_of(json) == JsonKind::Object || json_kind_of(json) == JsonKind::Null,
    ensures
        r is Err <==> json_kind_of(json_field(json, data_key())) == JsonKind::Null,
        r matches Err(e) ==> e == ApiError::DataNotFound,
        r matches Ok((data, pagination)) ==> {
            &&& data@ == spec_answer_data(json_field(json, data_key()))
            &&& pagination == json_field(json, pagination_key())
        },
{
    proof {
        reveal_strlit("data");
        reveal_strlit("pagination");
        assert("data"@ =~= data_key());
        assert("pagination"@ =~= pagination_key());
    }
    let data = json_get(&json, "data");
    let kind = json_kind(&data);
    let list = match kind {
        JsonKind::Null => {
            return Err(ApiError::DataNotFound);
        },
        JsonKind::Array => json_into_items(data),
        _ => {
            let mut single = Vec::new();
            single.push(data);
            single
        },
    };
    let pagination = json_get(&json, "pagination");
    assert(list@ =~= spec_answer_data(json_field(json, data_key())));
    Ok((list, pagination))
}

/// The key of an answer's data.
pub open spec fn data_key() -> Seq<char> {
    seq!['d', 'a', 't', 'a']
}

/// The key of an answer's paging information.
pub open spec fn pagination_key() -> Seq<char> {
    seq!['p', 'a', 'g', 'i', 'n', 'a', 't', 'i', 'o', 'n']
}

/// What the body `text` of an answer gives: its data and its pagination, or
/// why there is none.
pub open spec fn spec_parse_response(text: Seq<char>) -> Result<
    (Seq<serde_json::Value>, serde_json::Value),
    ApiError,
> {
    match json_from_str(text) {
        None => Err(ApiError::Json),
        Some(json) => {
            if json_kind_of(json) != JsonKind::Object && json_kind_of(json) != JsonKind::Null {
                Err(ApiError::NotAnObject)
            } else if json_kind_of(json_field(json, data_key())) == JsonKind::Null {
                Err(ApiError::DataNotFound)
            } else {
                Ok(
                    (
                        spec_answer_data(json_field(json, data_key())),
                        json_field(json, pagination_key()),
                    ),
                )
            }
        },
    }
}

/// The view of a read answer: the data as a sequence.
pub open spec fn answer_view(
    r: Result<(Vec<serde_json::Value>, serde_json::Value), ApiError>,
) -> Result<(Seq<serde_json::Value>, serde_json::Value), ApiError> {
    match r {
        Ok((d, p)) => Ok((d@, p)),
        Err(e) => Err(e),
    }
}

/// Reads the body of an answer: parses it and splits it into data and
/// pagination.
pub fn parse_response(text: &str) -> (r: Result<
    (Vec<serde_json::Value>, serde_json::Value),
    ApiError,
>)
    ensures
        answer_view(r) == spec_parse_response(text@),
{
    let json = match parse_json(text) {
        Ok(v) => v,
        Err(_) => {
            return Err(ApiError::Json);
        },
    };
    let kind = json_kind(&json);
    match kind {
        JsonKind::Object => split_response(json),
        JsonKind::Null => split_response(json),
        _ => Err(ApiError::NotAnObject),
    }
}

/// Reads an answer from its status and body: the status must be 200, then the
/// body is read as `parse_response` reads it.
pub fn read_response(status: u16, text: &str) -> (r: Result<
    (Vec<serde_json::Value>, serde_json::Value),
    ApiError,
>)
    ensures
        answer_view(r) == (if status == 200 {
            spec_parse_response(text@)
        } else {
            Err(ApiError::Status(status))
        }),
{
    match check_status(status) {
        Ok(()) => {},
        Err(e) => {
            return Err(e);
        },
    }
    parse_response(text)
}

/// The url of an endpoint about one anime: "<base>/anime/<id>/<endpoint>".
pub open spec fn spec_anime_api_url(base_url: Seq<char>, mal_id: i64, endpoint: Seq<char>) -> Seq<
    char,
> {
    base_url + seq!['/', 'a', 'n', 'i', 'm', 'e', '/'] + int_decimal(mal_id as int) + seq!['/']
        + endpoint
}

/// The url of endpoint `endpoint` ("characters", "staff", ...) of anime
/// `mal_id`.
pub fn anime_api_url(base_url: &str, mal_id: i64, endpoint: &str) -> (r: String)
    ensures
        r@ == spec_anime_api_url(base_url@, mal_id, endpoint@),
{
    proof {
        reveal_strlit("/anime/");
        reveal_strlit("/");
    }
    let mut s = String::from_str(base_url);
    s.append("/anime/");
    push_int_decimal(&mut s, mal_id);
    s.append("/");
    s.append(endpoint);
    assert(s@ =~= spec_anime_api_url(base_url@, mal_id, endpoint@));
    s
}

/// The url of a character: "<base>/characters/<id>".
pub open spec fn spec_character_url(base_url: Seq<char>, mal_id: i64) -> Seq<char> {
    base_url + seq!['/', 'c', 'h', 'a', 'r', 'a', 'c', 't', 'e', 'r', 's', '/'] + int_decimal(
        mal_id as int,
    )
}

/// The url of character `mal_id`.
pub fn character_url(base_url: &str, mal_id: i64) -> (r: String)
    ensures
        r@ == spec_character_url(base_url@, mal_id),
{
    proof {
        reveal_strlit("/characters/");
    }
    let mut s = String::from_str(base_url);
    s.append("/characters/");
    push_int_decimal(&mut s, mal_id);
    assert(s@ =~= spec_character_url(base_url@, mal_id));
    s
}

/// The url of the listing of a season: "<base>/seasons/<year>/<season>".
pub open spec fn spec_season_url(base_url: Seq<char>, year: Seq<char>, season: Season) -> Seq<
    char,
> {
    base_url + seq!['/', 's', 'e', 'a', 's', 'o', 'n', 's', '/'] + year + seq!['/']
        + season.spec_name()
}

/// The url of the listing of season `season` of year `year`.
pub fn season_url(base_url: &str, year: &str, season: Season) -> (r: String)
    ensures
        r@ == spec_season_url(base_url@, year@, season),
{
    proof {
        reveal_strlit("/seasons/");
        reveal_strlit("/");
    }
    let mut s = String::from_str(base_url);
    s.append("/seasons/");
    s.append(year);
    s.append("/");
    let name = season.to_string();
    s.append(name.as_str());
    assert(s@ =~= spec_season_url(base_url@, year@, season));
    s
}

/// The ids of `ids`, in order, that are not among `done`.
pub open spec fn not_among(ids: Seq<i64>, done: Seq<i64>) -> Seq<i64> {
    ids.filter(|id: i64| !done.contains(id))
}

/// The characters of a cast, in order, whose id is not among `done`.
pub open spec fn spec_pending_characters(cast_ids: Seq<i64>, done: Seq<i64>) -> Seq<i64> {
    not_among(cast_ids, done)
}

/// The number of ids a check for lost casts looks at: the first `limit`,
/// or all where there are fewer.
pub open spec fn capped_len(len: nat, limit: usize) -> int {
    if limit < len { limit as int } else { len as int }
}

/// The anime ids of `ids` that are not among `fetched`, in order; an entry
/// that is not an id (`None`) gives nothing.
pub open spec fn spec_lost_ids(ids: Seq<Option<i64>>, fetched: Seq<i64>) -> Seq<i64>
    decreases ids.len(),
{
    if ids.len() == 0 {
        Seq::empty()
    } else {
        let r = spec_lost_ids(ids.drop_last(), fetched);
        match ids.last() {
            Some(id) => if fetched.contains(id) {
                r
            } else {
                r.push(id)
            },
            None => r,
        }
    }
}

/// The anime among the first `limit` entries of `anime_ids` whose cast was
/// not fetched, that is, whose id is not among `fetched`; in order. Entries
/// that are not ids count toward the limit and give nothing.
pub fn lost_ids(anime_ids: &Vec<Option<i64>>, fetched: &Vec<i64>, limit: usize) -> (r: Vec<i64>)
    ensures
        r@ == spec_lost_ids(anime_ids@.take(capped_len(anime_ids@.len(), limit)), fetched@),
{
    let n = if limit < anime_ids.len() { limit } else { anime_ids.len() };
    let mut r: Vec<i64> = Vec::new();
    let mut i: usize = 0;
    let ghost ids = anime_ids@;
    while i < n
        invariant
            i <= n,
            n <= anime_ids.len(),
            ids == anime_ids@,
            r@ == spec_lost_ids(ids.take(i as int), fetched@),
        decreases n - i,
    {
        proof {
            assert(ids.take(i + 1).drop_last() =~= ids.take(i as int));
            assert(ids.take(i + 1).last() == ids[i as int]);
        }
        match anime_ids[i] {
            Some(id) => {
                if !is_fetched(fetched, id) {
                    r.push(id);
                }
            },
            None => {},
        }
        i = i + 1;
    }
    r
}

/// The ids of the characters of a bridge, in order.
pub open spec fn bridge_cast_ids(bridge: AniCharaBridge) -> Seq<i64> {
    bridge.characters@.map_values(|cc: crate::documents::anime_src::CharacterCast| cc.character.mal_id)
}

/// The characters of an anime's cast still to be fetched: those whose id is
/// not among the ids fetched before, in cast order.
pub fn pending_characters(bridge: &AniCharaBridge, done: &Vec<i64>) -> (r: Vec<i64>)
    ensures
        r@ == spec_pending_characters(bridge_cast_ids(*bridge), done@),
{
    let mut r: Vec<i64> = Vec::new();
    let mut i: usize = 0;
    let ghost ids = bridge_cast_ids(*bridge);
    while i < bridge.characters.len()
        invariant
            i <= bridge.characters.len(),
            ids == bridge_cast_ids(*bridge),
            ids.len() == bridge.characters.len(),
            r@ == spec_pending_characters(ids.take(i as int), done@),
        decreases bridge.characters.len() - i,
    {
        let id = bridge.characters[i].character.mal_id;
        let found = is_fetched(done, id);
        proof {
            assert(ids[i as int] == id);
            assert(ids.take(i + 1).drop_last() =~= ids.take(i as int));
            reveal_with_fuel(Seq::<i64>::filter, 1);
        }
        if !found {
            r.push(id);
        }
        i = i + 1;
    }
    assert(ids.take(i as int) =~= ids);
    r
}

/// Whether anime or character `id` was fetched before, that is, is among
/// `done`.
pub fn is_fetched(done: &Vec<i64>, id: i64) -> (r: bool)
    ensures
        r == done@.contains(id),
{
    let mut i: usize = 0;
    while i < done.len()
        invariant
            i <= done.len(),
            forall|j: int| 0 <= j < i ==> done@[j] != id,
        decreases done.len() - i,
    {
        if done[i] == id {
            assert(done@[i as int] == id);
            return true;
        }
        i = i + 1;
    }
    false
}

/// The raw document of anime `mal_id` holding an answer's data; `None` when
/// the answer holds no data, which is not stored.
pub fn raw_document<D: AnimeApiRawDocument>(mal_id: i64, data: Vec<serde_json::Value>) -> (r: Option<D>)
    ensures
        r is None <==> data@.len() == 0,
        r matches Some(d) ==> d.spec_mal_id() == mal_id && d.spec_values() == data@,
{
    if data.len() == 0 {
        None
    } else {
        Some(D::from_value_list(mal_id, data))
    }
}

/// Whether a `pagination` member announces a further page: its
/// `has_next_page` member is the boolean `true`.
pub open spec fn spec_has_next_page(pagination: serde_json::Value) -> bool {
    json_kind_of(
        json_field(
            pagination,
            seq!['h', 'a', 's', '_', 'n', 'e', 'x', 't', '_', 'p', 'a', 'g', 'e'],
        ),
    ) == JsonKind::Bool(true)
}

/// Whether the pagination of an answer announces a further page.
pub fn has_next_page(pagination: &serde_json::Value) -> (r: bool)
    ensures
        r == spec_has_next_page(*pagination),
{
    proof {
        reveal_strlit("has_next_page");
        assert("has_next_page"@ =~= seq![
            'h', 'a', 's', '_', 'n', 'e', 'x', 't', '_', 'p', 'a', 'g', 'e',
        ]);
    }
    let flag = json_get(pagination, "has_next_page");
    match json_kind(&flag) {
        JsonKind::Bool(b) => b,
        _ => false,
    }
}

/// The items of a run of pages, in page order.
pub open spec fn concat_pages<T>(pages: Seq<Seq<T>>) -> Seq<T>
    decreases pages.len(),
{
    if pages.len() == 0 {
        Seq::empty()
    } else {
        concat_pages(pages.drop_last()) + pages.last()
    }
}

/// The decisions of a paged request: which page to ask for next, what has been
/// collected, and when to stop. The caller asks for the url it is given, hands
/// back the answer's data and whether a further page is announced, and waits
/// between requests.
pub struct PageCrawler<T> {
    base: String,
    page: u32,
    list: Vec<T>,
    finished: bool,
    pages: Ghost<Seq<Seq<T>>>,
}

impl<T> PageCrawler<T> {
    /// The url of the listing.
    pub closed spec fn base(&self) -> Seq<char> {
        self.base@
    }

    /// The data of the pages answered so far, one sequence per page.
    pub closed spec fn pages(&self) -> Seq<Seq<T>> {
        self.pages@
    }

    /// Whether the last answer announced no further page.
    pub closed spec fn finished(&self) -> bool {
        self.finished
    }

    /// The state is consistent: the collected items are the pages' data in
    /// order, and the page asked for next is the one after those answered.
    pub closed spec fn wf(&self) -> bool {
        &&& self.list@ == concat_pages(self.pages@)
        &&& self.finished ==> self.page as nat == self.pages@.len()
        &&& !self.finished ==> self.page as nat == self.pages@.len() + 1
    }

    /// A crawl of the listing at `url` that has asked for nothing yet.
    pub fn new(url: &str) -> (r: Self)
        ensures
            r.wf(),
            r.base() == url@,
            r.pages() == Seq::<Seq<T>>::empty(),
            !r.finished(),
    {
        PageCrawler {
            base: String::from_str(url),
            page: 1,
            list: Vec::new(),
            finished: false,
            pages: Ghost(Seq::empty()),
        }
    }

    /// The number of the page to ask for next (starting at 1).
    pub fn page(&self) -> (r: u32)
        requires
            self.wf(),
            !self.finished(),
        ensures
            r as nat == self.pages().len() + 1,
    {
        self.page
    }

    /// Whether the crawl is over.
    pub fn is_finished(&self) -> (r: bool)
        ensures
            r == self.finished(),
    {
        self.finished
    }

    /// The url to ask for next: that of the page after those answered.
    pub fn next_url(&self) -> (r: String)
        requires
            self.wf(),
            !self.finished(),
        ensures
            r@ == spec_paged_url(self.base(), self.pages().len() + 1),
    {
        let base = self.base.as_str();
        paged_url(base, self.page)
    }

    /// Takes the answer to the page asked for: its data is appended, and the
    /// crawl ends unless a further page is announced.
    pub fn on_page(&mut self, data: Vec<T>, has_next: bool)
        requires
            old(self).wf(),
            !old(self).finished(),
            has_next ==> old(self).pages().len() + 2 <= u32::MAX,
        ensures
            final(self).wf(),
            final(self).base() == old(self).base(),
            final(self).pages() == old(self).pages().push(data@),
            final(self).finished() == !has_next,
    {
        let mut data = data;
        let ghost added = data@;
        let ghost before = self.pages@;
        self.list.append(&mut data);
        self.pages = Ghost(before.push(added));
        assert(self.pages@.drop_last() =~= before);
        if has_next {
            self.page = self.page + 1;
        } else {
            self.finished = true;
        }
    }

    /// Everything collected: the data of all answered pages, in page order.
    pub fn into_list(self) -> (r: Vec<T>)
        requires
            self.wf(),
        ensures
            r@ == concat_pages(self.pages()),
    {
        self.list
    }
}

/// The characters still to fetch are exactly the cast's ids that were not
/// fetched before: each pending id is in the cast and not among `done`, and
/// each cast id not among `done` is pending.
pub proof fn lemma_pending_characters(cast_ids: Seq<i64>, done: Seq<i64>)
    ensures
        spec_pending_characters(cast_ids, done).len() <= cast_ids.len(),
        forall|i: int|
            0 <= i < spec_pending_characters(cast_ids, done).len() ==> cast_ids.contains(
                #[trigger] spec_pending_characters(cast_ids, done)[i],
            ) && !done.contains(spec_pending_characters(cast_ids, done)[i]),
        forall|i: int|
            0 <= i < cast_ids.len() && !done.contains(cast_ids[i]) ==> spec_pending_characters(
                cast_ids,
                done,
            ).contains(#[trigger] cast_ids[i]),
{
    let pred = |id: i64| !done.contains(id);
    cast_ids.filter_lemma(pred);
    assert forall|i: int| 0 <= i < spec_pending_characters(cast_ids, done).len() implies cast_ids.contains(
        #[trigger] spec_pending_characters(cast_ids, done)[i],
    ) && !done.contains(spec_pending_characters(cast_ids, done)[i]) by {
        assert(pred(cast_ids.filter(pred)[i]));
        assert(cast_ids.filter(pred).contains(cast_ids.filter(pred)[i]));
        cast_ids.lemma_filter_contains_rev(pred, cast_ids.filter(pred)[i]);
    }
    assert forall|i: int| 0 <= i < cast_ids.len() && !done.contains(cast_ids[i]) implies spec_pending_characters(
        cast_ids,
        done,
    ).contains(#[trigger] cast_ids[i]) by {
        assert(pred(cast_ids[i]));
    }
}

/// The lost anime are exactly the ids among the entries looked at that were
/// not fetched: each lost id is an entry and not among `fetched`, and each
/// entry id not among `fetched` is lost.
pub proof fn lemma_lost_ids(ids: Seq<Option<i64>>, fetched: Seq<i64>)
    ensures
        spec_lost_ids(ids, fetched).len() <= ids.len(),
        forall|i: int|
            0 <= i < spec_lost_ids(ids, fetched).len() ==> ids.contains(
                Some(#[trigger] spec_lost_ids(ids, fetched)[i]),
            ) && !fetched.contains(spec_lost_ids(ids, fetched)[i]),
        forall|e: int|
            0 <= e < ids.len() && (#[trigger] ids[e]) is Some && !fetched.contains(ids[e]->0)
                ==> spec_lost_ids(ids, fetched).contains(ids[e]->0),
    decreases ids.len(),
{
    if ids.len() > 0 {
        let front = ids.drop_last();
        lemma_lost_ids(front, fetched);
        let r0 = spec_lost_ids(front, fetched);
        let r = spec_lost_ids(ids, fetched);
        assert forall|i: int| 0 <= i < r.len() implies ids.contains(Some(#[trigger] r[i])) && !fetched.contains(
            r[i],
        ) by {
            if i < r0.len() {
                assert(r[i] == r0[i]);
                let e = choose|e: int| 0 <= e < front.len() && front[e] == Some(r0[i]);
                assert(ids[e] == front[e]);
            } else {
                assert(ids[ids.len() - 1] == ids.last());
            }
        }
        assert forall|e: int|
            0 <= e < ids.len() && (#[trigger] ids[e]) is Some && !fetched.contains(ids[e]->0)
            implies r.contains(ids[e]->0) by {
            let id = ids[e]->0;
            if e < ids.len() - 1 {
                assert(front[e] == ids[e]);
                let j = choose|j: int| 0 <= j < r0.len() && r0[j] == id;
                assert(r[j] == r0[j]);
            } else {
                assert(r[r.len() - 1] == id);
            }
        }
    }
}

/// Looking at the entries in two parts gives the lost ids of the first part
/// followed by those of the second: the lost ids keep the entries' order.
pub proof fn lemma_lost_ids_concat(a: Seq<Option<i64>>, b: Seq<Option<i64>>, fetched: Seq<i64>)
    ensures
        spec_lost_ids(a + b, fetched) == spec_lost_ids(a, fetched) + spec_lost_ids(b, fetched),
    decreases b.len(),
{
    if b.len() == 0 {
        assert(a + b =~= a);
        assert(spec_lost_ids(a, fetched) + spec_lost_ids(b, fetched) =~= spec_lost_ids(a, fetched));
    } else {
        lemma_lost_ids_concat(a, b.drop_last(), fetched);
        assert((a + b).drop_last() =~= a + b.drop_last());
        assert((a + b).last() == b.last());
        let ra = spec_lost_ids(a, fetched);
        let rb0 = spec_lost_ids(b.drop_last(), fetched);
        match b.last() {
            Some(id) => {
                assert(ra + rb0.push(id) =~= (ra + rb0).push(id));
            },
            None => {},
        }
    }
}

} // verus!
