//! Documents made from the extra material of listed anime: their pictures and
//! their promotional videos. A run goes through a list of anime ids in order;
//! the clock and the publishing of images are the caller's.

use crate::documents::anime_search::{FlatDocument, ItemType, Parent};
use crate::documents::anime_src::{AnimeSrc, ImageUrls, ImgExSrc, Images, PromoVideo, VideoSrc};
use crate::flatten::{anime_doc, anime_parent, clone_parent, jpg_url, spec_img_url};
use crate::lookup::{find_first, first_index, keys_of, lemma_taken_once};
use vstd::prelude::*;

verus! {

/// Takes the first picture set of anime `id` out of `v`, if there is one;
/// the others stay in order.
pub fn take_pictures(v: &mut Vec<ImgExSrc>, id: i64) -> (r: Option<ImgExSrc>)
    ensures
        match first_index(keys_of(old(v)@), id) {
            Some(i) => r == Some(old(v)@[i]) && final(v)@ == old(v)@.remove(i),
            None => r is None && final(v)@ == old(v)@,
        },
        r matches Some(p) ==> p.mal_id == id && final(v)@.len() == old(v)@.len() - 1,
        r is None <==> forall|j: int| 0 <= j < old(v)@.len() ==> #[trigger] old(v)@[j].mal_id != id,
{
    proof {
        if exists|j: int| 0 <= j < old(v)@.len() && old(v)@[j].mal_id == id {
            let j = choose|j: int| 0 <= j < old(v)@.len() && old(v)@[j].mal_id == id;
            assert(keys_of(old(v)@)[j] == id);
        }
    }
    match find_first(v, id) {
        Some(i) => Some(v.remove(i)),
        None => None,
    }
}

/// The document `doc` is that of an anime of `animes` whose id is listed in
/// `ids`: it is an anime document whose source page is that anime's.
pub open spec fn listed_anime_doc(animes: Seq<AnimeSrc>, ids: Seq<i64>, doc: FlatDocument) -> bool {
    &&& doc.item_type == ItemType::Anime
    &&& exists|k: int|
        #![trigger animes[k]]
        0 <= k < animes.len() && ids.contains(animes[k].mal_id) && doc.src == Some(animes[k].url)
}

// ----------------------------------------------------------------------------
// Pictures.

/// What a picture run is given: the listed ids, the anime they are looked up
/// in and the batch size.
pub struct PicsInput {
    pub ids: Seq<i64>,
    pub animes: Seq<AnimeSrc>,
    pub batch_size: usize,
}

/// Where a picture run stands.
pub enum PicsStageView {
    /// Between anime.
    Scan,
    /// The anime at index `anime` waits for the clock; `pictures` is its set.
    Clock { anime: nat, pictures: Seq<Images> },
    /// A picture of the set waits for its image; `pos` is the next one.
    Image { anime: nat, pictures: Seq<Images>, pos: nat, updated_at: u64 },
    /// The run is over.
    Done,
}

/// The state of a picture run.
pub struct PicsView {
    /// The next position in the list.
    pub next: nat,
    /// The picture sets not used yet.
    pub pics: Seq<ImgExSrc>,
    /// The documents handed out, in order.
    pub flushed: Seq<FlatDocument>,
    /// The documents made and not handed out yet, in order.
    pub batch: Seq<FlatDocument>,
    pub stage: PicsStageView,
}

/// A picture action seen as values.
pub enum PicsActionView {
    ReadClock,
    ResolveImage { url: Seq<char> },
    Insert(Seq<FlatDocument>),
    Finish,
}

/// Going on from between anime: the next listed id that has an anime and an
/// unused picture set uses that set up and waits for the clock; ids without
/// are passed over; at the end of the list the run is over.
pub open spec fn pics_scan_spec(input: PicsInput, v: PicsView) -> (PicsView, PicsActionView)
    decreases input.ids.len() - v.next,
{
    if v.next >= input.ids.len() {
        (PicsView { next: input.ids.len(), stage: PicsStageView::Done, ..v }, PicsActionView::Finish)
    } else {
        let id = input.ids[v.next as int];
        let v1 = PicsView { next: v.next + 1, ..v };
        match first_index(keys_of(input.animes), id) {
            None => pics_scan_spec(input, v1),
            Some(ai) => match first_index(keys_of(v.pics), id) {
                None => pics_scan_spec(input, v1),
                Some(pi) => (
                    PicsView {
                        pics: v.pics.remove(pi),
                        stage: PicsStageView::Clock { anime: ai as nat, pictures: v.pics[pi].pictures@ },
                        ..v1
                    },
                    PicsActionView::ReadClock,
                ),
            },
        }
    }
}

/// After an anime: a batch of more than `batch_size` documents is handed
/// out, else the run goes on to the next listed id.
pub open spec fn pics_after_spec(input: PicsInput, v: PicsView) -> (PicsView, PicsActionView) {
    if v.batch.len() > input.batch_size {
        (
            PicsView { flushed: v.flushed + v.batch, batch: Seq::empty(), stage: PicsStageView::Scan, ..v },
            PicsActionView::Insert(v.batch),
        )
    } else {
        pics_scan_spec(input, v)
    }
}

/// Going through the pictures of an anime from position `pos`: the next one
/// with a jpg url waits for its image; at the end, see `pics_after_spec`.
pub open spec fn pictures_spec(
    input: PicsInput,
    v: PicsView,
    anime: nat,
    pictures: Seq<Images>,
    pos: nat,
    updated_at: u64,
) -> (PicsView, PicsActionView)
    decreases pictures.len() - pos,
{
    if pos >= pictures.len() {
        pics_after_spec(input, PicsView { stage: PicsStageView::Scan, ..v })
    } else {
        match spec_img_url(Some(pictures[pos as int])) {
            None => pictures_spec(input, v, anime, pictures, pos + 1, updated_at),
            Some(url) => (
                PicsView { stage: PicsStageView::Image { anime, pictures, pos: pos + 1, updated_at }, ..v },
                PicsActionView::ResolveImage { url: url@ },
            ),
        }
    }
}

/// What `on_clock` does: the pictures of the anime waiting are gone through
/// with the time read.
pub open spec fn pics_on_clock_spec(input: PicsInput, v: PicsView, now: u64) -> (PicsView, PicsActionView) {
    match v.stage {
        PicsStageView::Clock { anime, pictures } => pictures_spec(
            input,
            PicsView { stage: PicsStageView::Scan, ..v },
            anime,
            pictures,
            0,
            now,
        ),
        _ => (v, PicsActionView::Finish),
    }
}

/// What `on_image` does: a published picture gives a document of its anime
/// under the new name, then the pictures are gone on with.
pub open spec fn pics_on_image_spec(input: PicsInput, v: PicsView, img: Option<String>) -> (
    PicsView,
    PicsActionView,
) {
    match v.stage {
        PicsStageView::Image { anime, pictures, pos, updated_at } => {
            let v1 = match img {
                Some(name) => PicsView {
                    batch: v.batch.push(anime_doc(updated_at, name, input.animes[anime as int])),
                    stage: PicsStageView::Scan,
                    ..v
                },
                None => PicsView { stage: PicsStageView::Scan, ..v },
            };
            pictures_spec(input, v1, anime, pictures, pos, updated_at)
        },
        _ => (v, PicsActionView::Finish),
    }
}

/// What the caller of a picture run is to do next.
#[derive(Debug)]
pub enum PicsAction {
    /// Read the clock (milliseconds since the Unix epoch) and hand it back.
    ReadClock,
    /// Publish the image at `url` for an anime and hand back its new name, or
    /// `None` when the picture is to be left out.
    ResolveImage { url: String },
    /// Insert these documents, then proceed.
    Insert(Vec<FlatDocument>),
    /// The run is over; the last documents are taken with `finish`.
    Finish,
}

/// A picture action as values.
pub open spec fn pics_action_view(a: PicsAction) -> PicsActionView {
    match a {
        PicsAction::ReadClock => PicsActionView::ReadClock,
        PicsAction::ResolveImage { url } => PicsActionView::ResolveImage { url: url@ },
        PicsAction::Insert(docs) => PicsActionView::Insert(docs@),
        PicsAction::Finish => PicsActionView::Finish,
    }
}

/// What a picture run waits for.
#[derive(Clone, Copy, Debug, PartialEq, Eq, Structural)]
pub enum PicsAwaiting {
    /// A call of `proceed` (at the start, and after an insert).
    Proceed,
    /// The answer to `ReadClock`.
    Clock,
    /// The answer to `ResolveImage`.
    Image,
    /// Nothing: the run is over.
    Finished,
}

/// What a picture run in state `v` waits for.
pub open spec fn pics_awaiting_of(v: PicsView) -> PicsAwaiting {
    match v.stage {
        PicsStageView::Scan => PicsAwaiting::Proceed,
        PicsStageView::Clock { .. } => PicsAwaiting::Clock,
        PicsStageView::Image { .. } => PicsAwaiting::Image,
        PicsStageView::Done => PicsAwaiting::Finished,
    }
}

enum PicStage {
    Scan,
    Clock { anime: usize, pictures: Vec<Images> },
    Image { anime: usize, pictures: Vec<Images>, pos: usize, updated_at: u64 },
    Done,
}

spec fn pic_stage_view(s: PicStage) -> PicsStageView {
    match s {
        PicStage::Scan => PicsStageView::Scan,
        PicStage::Clock { anime, pictures } => PicsStageView::Clock { anime: anime as nat, pictures: pictures@ },
        PicStage::Image { anime, pictures, pos, updated_at } => PicsStageView::Image {
            anime: anime as nat,
            pictures: pictures@,
            pos: pos as nat,
            updated_at,
        },
        PicStage::Done => PicsStageView::Done,
    }
}

/// A run that makes an anime document for each published picture of the
/// listed anime. For each listed id in order, the first anime of that id and
/// its first unused picture set are taken (a picture set serves once); the
/// clock is read once per anime; a batch is handed out, after an anime, once
/// it holds more than `batch_size` documents.
pub struct PicsCollector {
    ids: Vec<i64>,
    next: usize,
    animes: Vec<AnimeSrc>,
    pics: Vec<ImgExSrc>,
    batch_size: usize,
    batch: Vec<FlatDocument>,
    stage: PicStage,
    flushed: Ghost<Seq<FlatDocument>>,
}

impl PicsCollector {
    /// What the run was given.
    pub closed spec fn input(&self) -> PicsInput {
        PicsInput { ids: self.ids@, animes: self.animes@, batch_size: self.batch_size }
    }

    /// The state of the run.
    pub closed spec fn state(&self) -> PicsView {
        PicsView {
            next: self.next as nat,
            pics: self.pics@,
            flushed: self.flushed@,
            batch: self.batch@,
            stage: pic_stage_view(self.stage),
        }
    }

    /// `anime` indexes an anime whose id is listed.
    closed spec fn listed(&self, anime: usize) -> bool {
        anime < self.animes@.len() && self.ids@.contains(self.animes@[anime as int].mal_id)
    }

    /// The state is consistent: every document made is that of a listed anime.
    pub closed spec fn wf(&self) -> bool {
        &&& self.next <= self.ids@.len()
        &&& forall|i: int| 0 <= i < self.batch@.len() ==> listed_anime_doc(self.animes@, self.ids@, #[trigger] self.batch@[i])
        &&& forall|i: int| 0 <= i < self.flushed@.len() ==> listed_anime_doc(self.animes@, self.ids@, #[trigger] self.flushed@[i])
        &&& match self.stage {
            PicStage::Clock { anime, .. } => self.listed(anime),
            PicStage::Image { anime, pictures, pos, .. } => self.listed(anime) && pos <= pictures@.len(),
            _ => true,
        }
    }

    /// A run over the listed `ids`, the anime and their picture sets.
    pub fn new(ids: Vec<i64>, animes: Vec<AnimeSrc>, pics: Vec<ImgExSrc>, batch_size: usize) -> (r: Self)
        ensures
            r.wf(),
            r.input() == (PicsInput { ids: ids@, animes: animes@, batch_size }),
            r.state() == (PicsView {
                next: 0,
                pics: pics@,
                flushed: Seq::empty(),
                batch: Seq::empty(),
                stage: PicsStageView::Scan,
            }),
    {
        PicsCollector {
            ids,
            next: 0,
            animes,
            pics,
            batch_size,
            batch: Vec::new(),
            stage: PicStage::Scan,
            flushed: Ghost(Seq::empty()),
        }
    }

    /// What the run waits for.
    pub fn awaiting(&self) -> (r: PicsAwaiting)
        ensures
            r == pics_awaiting_of(self.state()),
    {
        match self.stage {
            PicStage::Scan => PicsAwaiting::Proceed,
            PicStage::Clock { .. } => PicsAwaiting::Clock,
            PicStage::Image { .. } => PicsAwaiting::Image,
            PicStage::Done => PicsAwaiting::Finished,
        }
    }

    /// Uses up the first unused picture set of anime `id` and gives its
    /// pictures, if there is one.
    #[verifier::spinoff_prover]
    fn take_set(&mut self, id: i64) -> (r: Option<Vec<Images>>)
        requires
            old(self).wf(),
            old(self).stage is Scan,
        ensures
            final(self).wf(),
            final(self).stage is Scan,
            final(self).input() == old(self).input(),
            final(self).next == old(self).next,
            match first_index(keys_of(old(self).state().pics), id) {
                None => r is None && final(self).state() == old(self).state(),
                Some(pi) => r matches Some(p) && p@ == old(self).state().pics[pi].pictures@
                    && final(self).state() == (PicsView { pics: old(self).state().pics.remove(pi), ..old(self).state() }),
            },
    {
        let ghost v = self.state();
        match find_first(&self.pics, id) {
            Some(i) => {
                let ghost p = self.pics@[i as int];
                let pic_src = self.pics.remove(i);
                assert(pic_src == p);
                assert(self.state() == PicsView { pics: v.pics.remove(i as int), ..v });
                Some(pic_src.pictures)
            },
            None => None,
        }
    }

    /// Looks at the next listed id: where it has an anime and an unused
    /// picture set, uses the set up and waits for the clock.
    #[verifier::spinoff_prover]
    fn scan_step(&mut self) -> (r: Option<PicsAction>)
        requires
            old(self).wf(),
            old(self).stage is Scan,
            old(self).next < old(self).ids@.len(),
        ensures
            final(self).wf(),
            final(self).input() == old(self).input(),
            r matches Some(a) ==> (final(self).state(), pics_action_view(a)) == pics_scan_spec(
                old(self).input(),
                old(self).state(),
            ),
            r is None ==> final(self).stage is Scan && final(self).next == old(self).next + 1
                && pics_scan_spec(final(self).input(), final(self).state()) == pics_scan_spec(
                old(self).input(),
                old(self).state(),
            ),
    {
        let n = self.ids.len();
        let id = self.ids[self.next];
        self.next = self.next + 1;
        let anime = match find_first(&self.animes, id) {
            Some(i) => i,
            None => {
                return None;
            },
        };
        let pictures = match self.take_set(id) {
            Some(p) => p,
            None => {
                return None;
            },
        };
        proof {
            assert(self.ids@[self.next - 1] == id);
            assert(self.ids@.contains(id));
        }
        self.stage = PicStage::Clock { anime, pictures };
        Some(PicsAction::ReadClock)
    }

    /// Goes to the next listed id that has an anime and a picture set.
    #[verifier::spinoff_prover]
    fn scan(&mut self) -> (a: PicsAction)
        requires
            old(self).wf(),
            old(self).stage is Scan,
        ensures
            final(self).wf(),
            final(self).input() == old(self).input(),
            (final(self).state(), pics_action_view(a)) == pics_scan_spec(old(self).input(), old(self).state()),
    {
        let ghost input = self.input();
        let ghost goal = pics_scan_spec(input, self.state());
        loop
            invariant_except_break
                self.wf(),
                self.stage is Scan,
                self.input() == input,
                input == old(self).input(),
                goal == pics_scan_spec(input, old(self).state()),
                goal == pics_scan_spec(input, self.state()),
            decreases self.ids@.len() - self.next,
        {
            if self.next >= self.ids.len() {
                self.stage = PicStage::Done;
                return PicsAction::Finish;
            }
            match self.scan_step() {
                Some(a) => {
                    return a;
                },
                None => {},
            }
        }
    }

    /// After an anime: hands out a full batch, else goes to the next id.
    #[verifier::spinoff_prover]
    fn after_anime(&mut self) -> (a: PicsAction)
        requires
            old(self).wf(),
            old(self).stage is Scan,
        ensures
            final(self).wf(),
            final(self).input() == old(self).input(),
            (final(self).state(), pics_action_view(a)) == pics_after_spec(old(self).input(), old(self).state()),
    {
        if self.batch.len() > self.batch_size {
            let mut docs: Vec<FlatDocument> = Vec::new();
            core::mem::swap(&mut docs, &mut self.batch);
            self.flushed = Ghost(self.flushed@ + docs@);
            proof {
                assert forall|i: int| 0 <= i < self.flushed@.len() implies listed_anime_doc(
                    self.animes@,
                    self.ids@,
                    #[trigger] self.flushed@[i],
                ) by {
                    if i < old(self).flushed@.len() {
                        assert(self.flushed@[i] == old(self).flushed@[i]);
                    } else {
                        assert(self.flushed@[i] == docs@[i - old(self).flushed@.len()]);
                    }
                }
            }
            PicsAction::Insert(docs)
        } else {
            self.scan()
        }
    }

    /// Goes through the pictures of the anime at index `anime` from position
    /// `pos` until one is to be published, then hands out a full batch or
    /// goes to the next id.
    #[verifier::spinoff_prover]
    fn run_pictures(&mut self, anime: usize, pictures: Vec<Images>, pos: usize, updated_at: u64) -> (a: PicsAction)
        requires
            old(self).wf(),
            old(self).stage is Scan,
            old(self).listed(anime),
            pos <= pictures.len(),
        ensures
            final(self).wf(),
            final(self).input() == old(self).input(),
            (final(self).state(), pics_action_view(a)) == pictures_spec(
                old(self).input(),
                old(self).state(),
                anime as nat,
                pictures@,
                pos as nat,
                updated_at,
            ),
    {
        let ghost input = self.input();
        let ghost goal = pictures_spec(input, self.state(), anime as nat, pictures@, pos as nat, updated_at);
        let mut at = pos;
        while at < pictures.len()
            invariant
                self.wf(),
                self.stage is Scan,
                self.listed(anime),
                self.input() == input,
                input == old(self).input(),
                self.state() == old(self).state(),
                at <= pictures@.len(),
                goal == pictures_spec(input, old(self).state(), anime as nat, pictures@, pos as nat, updated_at),
                goal == pictures_spec(input, self.state(), anime as nat, pictures@, at as nat, updated_at),
            decreases pictures@.len() - at,
        {
            let url = jpg_url(&pictures[at]);
            at = at + 1;
            match url {
                Some(u) => {
                    self.stage = PicStage::Image { anime, pictures, pos: at, updated_at };
                    return PicsAction::ResolveImage { url: u };
                },
                None => {},
            }
        }
        self.after_anime()
    }

    /// Starts the run, or goes on after an insert: see `pics_scan_spec`.
    #[verifier::spinoff_prover]
    pub fn proceed(&mut self) -> (a: PicsAction)
        requires
            old(self).wf(),
            pics_awaiting_of(old(self).state()) == PicsAwaiting::Proceed,
        ensures
            final(self).wf(),
            final(self).input() == old(self).input(),
            (final(self).state(), pics_action_view(a)) == pics_scan_spec(old(self).input(), old(self).state()),
    {
        self.scan()
    }

    /// Takes the answer to `ReadClock`, the time of the anime's documents
    /// (see `pics_on_clock_spec`).
    #[verifier::spinoff_prover]
    pub fn on_clock(&mut self, now: u64) -> (a: PicsAction)
        requires
            old(self).wf(),
            pics_awaiting_of(old(self).state()) == PicsAwaiting::Clock,
        ensures
            final(self).wf(),
            final(self).input() == old(self).input(),
            (final(self).state(), pics_action_view(a)) == pics_on_clock_spec(old(self).input(), old(self).state(), now),
    {
        let mut stage = PicStage::Scan;
        core::mem::swap(&mut self.stage, &mut stage);
        match stage {
            PicStage::Clock { anime, pictures } => self.run_pictures(anime, pictures, 0, now),
            _ => {
                proof {
                    assert(false);
                }
                PicsAction::Finish
            },
        }
    }

    /// Takes the answer to `ResolveImage`: a published picture gives a
    /// document of its anime under the new name (see `pics_on_image_spec`).
    #[verifier::spinoff_prover]
    pub fn on_image(&mut self, img: Option<String>) -> (a: PicsAction)
        requires
            old(self).wf(),
            pics_awaiting_of(old(self).state()) == PicsAwaiting::Image,
        ensures
            final(self).wf(),
            final(self).input() == old(self).input(),
            (final(self).state(), pics_action_view(a)) == pics_on_image_spec(old(self).input(), old(self).state(), img),
    {
        let mut stage = PicStage::Scan;
        core::mem::swap(&mut self.stage, &mut stage);
        match stage {
            PicStage::Image { anime, pictures, pos, updated_at } => {
                match img {
                    Some(name) => {
                        let ghost name0 = name;
                        let a = &self.animes[anime];
                        let doc = FlatDocument::new_anime(
                            updated_at,
                            name,
                            a.url.clone(),
                            a.title.clone(),
                            a.title_english.clone(),
                            a.title_japanese.clone(),
                        );
                        assert(doc == anime_doc(updated_at, name0, self.animes@[anime as int]));
                        let ghost before = self.batch@;
                        self.batch.push(doc);
                        proof {
                            assert(listed_anime_doc(self.animes@, self.ids@, doc)) by {
                                assert(self.animes@[anime as int] == self.animes@[anime as int]);
                            }
                            assert forall|i: int| 0 <= i < self.batch@.len() implies listed_anime_doc(
                                self.animes@,
                                self.ids@,
                                #[trigger] self.batch@[i],
                            ) by {
                                if i < before.len() {
                                    assert(self.batch@[i] == before[i]);
                                }
                            }
                        }
                    },
                    None => {},
                }
                self.run_pictures(anime, pictures, pos, updated_at)
            },
            _ => {
                proof {
                    assert(false);
                }
                PicsAction::Finish
            },
        }
    }

    /// Ends the run: the documents not yet handed out.
    pub fn finish(self) -> (r: Vec<FlatDocument>)
        ensures
            r@ == self.state().batch,
    {
        self.batch
    }
}

/// The law of a picture run, which holds in every state it reaches: every
/// document made, handed out or not, is an anime document of a listed anime.
pub proof fn lemma_pics_laws(c: &PicsCollector)
    requires
        c.wf(),
    ensures
        forall|i: int|
            0 <= i < c.state().batch.len() ==> listed_anime_doc(
                c.input().animes,
                c.input().ids,
                #[trigger] c.state().batch[i],
            ),
        forall|i: int|
            0 <= i < c.state().flushed.len() ==> listed_anime_doc(
                c.input().animes,
                c.input().ids,
                #[trigger] c.state().flushed[i],
            ),
{
}

// ----------------------------------------------------------------------------
// Promotional videos.

/// The document `doc` is that of a promotional video of an anime of `animes`
/// whose id is listed in `ids`: a video document with a video id, whose parent
/// bears that anime's title.
pub open spec fn listed_video_doc(animes: Seq<AnimeSrc>, ids: Seq<i64>, doc: FlatDocument) -> bool {
    &&& doc.item_type == ItemType::YVideo
    &&& doc.unique is Some
    &&& exists|k: int|
        #![trigger animes[k]]
        0 <= k < animes.len() && ids.contains(animes[k].mal_id) && (doc.parent matches Some(p)
            && p.name == animes[k].title)
}

/// The document of a video with id `unique` of the anime `parent`.
pub open spec fn video_doc(updated_at: u64, unique: String, parent: Parent) -> FlatDocument {
    FlatDocument {
        updated_at,
        item_type: ItemType::YVideo,
        unique: Some(unique),
        img: None,
        src: None,
        name: None,
        name_english: None,
        name_japanese: None,
        parent: Some(parent),
    }
}

/// The documents of promotional videos, in order.
pub open spec fn video_docs(updated_at: u64, parent: Parent, promo: Seq<PromoVideo>) -> Seq<FlatDocument> {
    promo.map_values(|p: PromoVideo| video_doc(updated_at, p.trailer.youtube_id, parent))
}

/// The promotional videos of some video sets, in order.
pub open spec fn all_promos(sets: Seq<VideoSrc>) -> Seq<PromoVideo>
    decreases sets.len(),
{
    if sets.len() == 0 {
        Seq::empty()
    } else {
        sets[0].promo@ + all_promos(sets.drop_first())
    }
}

/// The promotional videos of some video sets, in order.
pub fn promos_of(sets: Vec<VideoSrc>) -> (r: Vec<PromoVideo>)
    ensures
        r@ == all_promos(sets@),
{
    let ghost all = all_promos(sets@);
    let mut sets = sets;
    let mut r: Vec<PromoVideo> = Vec::new();
    while sets.len() > 0
        invariant
            r@ + all_promos(sets@) == all,
        decreases sets@.len(),
    {
        let ghost before = sets@;
        let mut s = sets.remove(0);
        assert(sets@ =~= before.drop_first());
        let ghost r0 = r@;
        r.append(&mut s.promo);
        assert(r0 + all_promos(before) == r0 + (before[0].promo@ + all_promos(before.drop_first())));
        assert(r@ + all_promos(sets@) =~= r0 + (before[0].promo@ + all_promos(before.drop_first())));
    }
    assert(all_promos(sets@) =~= Seq::<PromoVideo>::empty());
    assert(r@ + all_promos(sets@) =~= r@);
    r
}

/// What a video run is given: the listed ids, the anime they are looked up in
/// and the batch size.
pub struct VideosInput {
    pub ids: Seq<i64>,
    pub animes: Seq<AnimeSrc>,
    pub batch_size: usize,
}

/// Where a video run stands.
pub enum VideosStageView {
    /// Between anime.
    Scan,
    /// The anime at index `anime` waits for the clock; `promo` are its videos.
    Clock { anime: nat, promo: Seq<PromoVideo> },
    /// The run is over.
    Done,
}

/// The state of a video run.
pub struct VideosView {
    /// The next position in the list.
    pub next: nat,
    /// The video lists not used yet, each under the id of its anime.
    pub videos: Seq<(i64, Vec<VideoSrc>)>,
    /// The documents handed out, in order.
    pub flushed: Seq<FlatDocument>,
    /// The documents made and not handed out yet, in order.
    pub batch: Seq<FlatDocument>,
    pub stage: VideosStageView,
}

/// A video action seen as values.
pub enum VideosActionView {
    ReadClock,
    Insert(Seq<FlatDocument>),
    Finish,
}

/// Going on from between anime: the next listed id that has an anime and an
/// unused video set uses that set up and waits for the clock; ids without
/// are passed over; at the end of the list the run is over.
pub open spec fn videos_scan_spec(input: VideosInput, v: VideosView) -> (VideosView, VideosActionView)
    decreases input.ids.len() - v.next,
{
    if v.next >= input.ids.len() {
        (VideosView { next: input.ids.len(), stage: VideosStageView::Done, ..v }, VideosActionView::Finish)
    } else {
        let id = input.ids[v.next as int];
        let v1 = VideosView { next: v.next + 1, ..v };
        match first_index(keys_of(input.animes), id) {
            None => videos_scan_spec(input, v1),
            Some(ai) => match first_index(keys_of(v.videos), id) {
                None => videos_scan_spec(input, v1),
                Some(vi) => (
                    VideosView {
                        videos: v.videos.remove(vi),
                        stage: VideosStageView::Clock { anime: ai as nat, promo: all_promos(v.videos[vi].1@) },
                        ..v1
                    },
                    VideosActionView::ReadClock,
                ),
            },
        }
    }
}

/// What `on_clock` does: each promotional video of the anime waiting gives a
/// document at the time read; then a batch of more than `batch_size`
/// documents is handed out, else the run goes on to the next listed id.
pub open spec fn videos_on_clock_spec(input: VideosInput, v: VideosView, now: u64) -> (
    VideosView,
    VideosActionView,
) {
    match v.stage {
        VideosStageView::Clock { anime, promo } => {
            let v1 = VideosView {
                batch: v.batch + video_docs(now, anime_parent(input.animes[anime as int]), promo),
                stage: VideosStageView::Scan,
                ..v
            };
            if v1.batch.len() > input.batch_size {
                (
                    VideosView { flushed: v1.flushed + v1.batch, batch: Seq::empty(), ..v1 },
                    VideosActionView::Insert(v1.batch),
                )
            } else {
                videos_scan_spec(input, v1)
            }
        },
        _ => (v, VideosActionView::Finish),
    }
}

/// What the caller of a video run is to do next.
#[derive(Debug)]
pub enum VideosAction {
    /// Read the clock (milliseconds since the Unix epoch) and hand it back.
    ReadClock,
    /// Insert these documents, then proceed.
    Insert(Vec<FlatDocument>),
    /// The run is over; the last documents are taken with `finish`.
    Finish,
}

/// A video action as values.
pub open spec fn videos_action_view(a: VideosAction) -> VideosActionView {
    match a {
        VideosAction::ReadClock => VideosActionView::ReadClock,
        VideosAction::Insert(docs) => VideosActionView::Insert(docs@),
        VideosAction::Finish => VideosActionView::Finish,
    }
}

enum VideoStage {
    Scan,
    Clock { anime: usize, promo: Vec<PromoVideo> },
    Done,
}

spec fn video_stage_view(s: VideoStage) -> VideosStageView {
    match s {
        VideoStage::Scan => VideosStageView::Scan,
        VideoStage::Clock { anime, promo } => VideosStageView::Clock { anime: anime as nat, promo: promo@ },
        VideoStage::Done => VideosStageView::Done,
    }
}

/// A run that makes a video document for each promotional video of the
/// listed anime. For each listed id in order, the first anime of that id and
/// its first unused video set are taken (a video set serves once); the clock
/// is read once per anime; a batch is handed out, after an anime, once it
/// holds more than `batch_size` documents.
pub struct YVideoCollector {
    ids: Vec<i64>,
    next: usize,
    animes: Vec<AnimeSrc>,
    videos: Vec<(i64, Vec<VideoSrc>)>,
    batch_size: usize,
    batch: Vec<FlatDocument>,
    stage: VideoStage,
    flushed: Ghost<Seq<FlatDocument>>,
}

impl YVideoCollector {
    /// What the run was given.
    pub closed spec fn input(&self) -> VideosInput {
        VideosInput { ids: self.ids@, animes: self.animes@, batch_size: self.batch_size }
    }

    /// The state of the run.
    pub closed spec fn state(&self) -> VideosView {
        VideosView {
            next: self.next as nat,
            videos: self.videos@,
            flushed: self.flushed@,
            batch: self.batch@,
            stage: video_stage_view(self.stage),
        }
    }

    /// The state is consistent: every document made is that of a video of a
    /// listed anime.
    pub closed spec fn wf(&self) -> bool {
        &&& self.next <= self.ids@.len()
        &&& forall|i: int| 0 <= i < self.batch@.len() ==> listed_video_doc(self.animes@, self.ids@, #[trigger] self.batch@[i])
        &&& forall|i: int| 0 <= i < self.flushed@.len() ==> listed_video_doc(self.animes@, self.ids@, #[trigger] self.flushed@[i])
        &&& self.stage matches VideoStage::Clock { anime, .. } ==> anime < self.animes@.len()
            && self.ids@.contains(self.animes@[anime as int].mal_id)
    }

    /// A run over the listed `ids`, the anime and their video sets, each
    /// under the id of its anime.
    pub fn new(ids: Vec<i64>, animes: Vec<AnimeSrc>, videos: Vec<(i64, Vec<VideoSrc>)>, batch_size: usize) -> (r: Self)
        ensures
            r.wf(),
            r.input() == (VideosInput { ids: ids@, animes: animes@, batch_size }),
            r.state() == (VideosView {
                next: 0,
                videos: videos@,
                flushed: Seq::empty(),
                batch: Seq::empty(),
                stage: VideosStageView::Scan,
            }),
    {
        YVideoCollector {
            ids,
            next: 0,
            animes,
            videos,
            batch_size,
            batch: Vec::new(),
            stage: VideoStage::Scan,
            flushed: Ghost(Seq::empty()),
        }
    }

    /// Whether the run waits for the clock.
    pub fn is_waiting_for_clock(&self) -> (r: bool)
        ensures
            r == self.state().stage is Clock,
    {
        match self.stage {
            VideoStage::Clock { .. } => true,
            _ => false,
        }
    }

    /// Whether the run is over.
    pub fn is_finished(&self) -> (r: bool)
        ensures
            r == self.state().stage is Done,
    {
        match self.stage {
            VideoStage::Done => true,
            _ => false,
        }
    }

    /// Uses up the first unused video set of anime `id` and gives its
    /// promotional videos, if there is one.
    #[verifier::spinoff_prover]
    fn take_set(&mut self, id: i64) -> (r: Option<Vec<PromoVideo>>)
        requires
            old(self).wf(),
            old(self).stage is Scan,
        ensures
            final(self).wf(),
            final(self).stage is Scan,
            final(self).input() == old(self).input(),
            final(self).next == old(self).next,
            match first_index(keys_of(old(self).state().videos), id) {
                None => r is None && final(self).state() == old(self).state(),
                Some(vi) => r matches Some(p) && p@ == all_promos(old(self).state().videos[vi].1@)
                    && final(self).state() == (VideosView { videos: old(self).state().videos.remove(vi), ..old(self).state() }),
            },
    {
        let ghost v = self.state();
        match find_first(&self.videos, id) {
            Some(i) => {
                let ghost p = self.videos@[i as int];
                let (_, sets) = self.videos.remove(i);
                assert(sets == p.1);
                assert(self.state() == VideosView { videos: v.videos.remove(i as int), ..v });
                Some(promos_of(sets))
            },
            None => None,
        }
    }

    /// Looks at the next listed id: where it has an anime and an unused
    /// video set, uses the set up and waits for the clock.
    #[verifier::spinoff_prover]
    fn scan_step(&mut self) -> (r: Option<VideosAction>)
        requires
            old(self).wf(),
            old(self).stage is Scan,
            old(self).next < old(self).ids@.len(),
        ensures
            final(self).wf(),
            final(self).input() == old(self).input(),
            r matches Some(a) ==> (final(self).state(), videos_action_view(a)) == videos_scan_spec(
                old(self).input(),
                old(self).state(),
            ),
            r is None ==> final(self).stage is Scan && final(self).next == old(self).next + 1
                && videos_scan_spec(final(self).input(), final(self).state()) == videos_scan_spec(
                old(self).input(),
                old(self).state(),
            ),
    {
        let n = self.ids.len();
        let id = self.ids[self.next];
        self.next = self.next + 1;
        let anime = match find_first(&self.animes, id) {
            Some(i) => i,
            None => {
                return None;
            },
        };
        let promo = match self.take_set(id) {
            Some(p) => p,
            None => {
                return None;
            },
        };
        proof {
            assert(self.ids@[self.next - 1] == id);
            assert(self.ids@.contains(id));
        }
        self.stage = VideoStage::Clock { anime, promo };
        Some(VideosAction::ReadClock)
    }

    /// Starts the run, or goes on after an insert: see `videos_scan_spec`.
    #[verifier::spinoff_prover]
    pub fn proceed(&mut self) -> (a: VideosAction)
        requires
            old(self).wf(),
            old(self).state().stage is Scan,
        ensures
            final(self).wf(),
            final(self).input() == old(self).input(),
            (final(self).state(), videos_action_view(a)) == videos_scan_spec(old(self).input(), old(self).state()),
    {
        let ghost input = self.input();
        let ghost goal = videos_scan_spec(input, self.state());
        loop
            invariant_except_break
                self.wf(),
                self.stage is Scan,
                self.input() == input,
                input == old(self).input(),
                goal == videos_scan_spec(input, old(self).state()),
                goal == videos_scan_spec(input, self.state()),
            decreases self.ids@.len() - self.next,
        {
            if self.next >= self.ids.len() {
                self.stage = VideoStage::Done;
                return VideosAction::Finish;
            }
            match self.scan_step() {
                Some(a) => {
                    return a;
                },
                None => {},
            }
        }
    }

    /// Makes the documents of the promotional videos of the anime at index
    /// `anime`, at time `now`.
    #[verifier::spinoff_prover]
    fn push_videos(&mut self, anime: usize, promo: Vec<PromoVideo>, now: u64)
        requires
            old(self).wf(),
            old(self).stage is Scan,
            anime < old(self).animes@.len(),
            old(self).ids@.contains(old(self).animes@[anime as int].mal_id),
        ensures
            final(self).wf(),
            final(self).stage is Scan,
            final(self).input() == old(self).input(),
            final(self).state() == (VideosView {
                batch: old(self).state().batch + video_docs(now, anime_parent(old(self).animes@[anime as int]), promo@),
                ..old(self).state()
            }),
    {
        let ghost b0 = self.batch@;
        let a = &self.animes[anime];
        let parent = Parent { name: a.title.clone(), name_japanese: a.title_japanese.clone() };
        assert(parent == anime_parent(self.animes@[anime as int]));
        let mut k: usize = 0;
        while k < promo.len()
            invariant
                self.wf(),
                self.stage is Scan,
                self.input() == old(self).input(),
                self.next == old(self).next,
                self.videos == old(self).videos,
                self.flushed == old(self).flushed,
                anime < self.animes@.len(),
                self.ids@.contains(self.animes@[anime as int].mal_id),
                parent == anime_parent(self.animes@[anime as int]),
                b0 == old(self).batch@,
                k <= promo@.len(),
                self.batch@ == b0 + video_docs(now, parent, promo@.subrange(0, k as int)),
            decreases promo@.len() - k,
        {
            let doc = FlatDocument::new_yvideo(now, promo[k].trailer.youtube_id.clone(), clone_parent(&parent));
            let ghost before = self.batch@;
            self.batch.push(doc);
            proof {
                assert(video_docs(now, parent, promo@.subrange(0, k + 1)) =~= video_docs(
                    now,
                    parent,
                    promo@.subrange(0, k as int),
                ).push(doc));
                assert(listed_video_doc(self.animes@, self.ids@, doc)) by {
                    assert(self.animes@[anime as int] == self.animes@[anime as int]);
                }
                assert forall|i: int| 0 <= i < self.batch@.len() implies listed_video_doc(
                    self.animes@,
                    self.ids@,
                    #[trigger] self.batch@[i],
                ) by {
                    if i < before.len() {
                        assert(self.batch@[i] == before[i]);
                    }
                }
            }
            k = k + 1;
        }
        assert(promo@.subrange(0, promo@.len() as int) =~= promo@);
    }

    /// Takes the answer to `ReadClock` (see `videos_on_clock_spec`).
    #[verifier::spinoff_prover]
    pub fn on_clock(&mut self, now: u64) -> (a: VideosAction)
        requires
            old(self).wf(),
            old(self).state().stage is Clock,
        ensures
            final(self).wf(),
            final(self).input() == old(self).input(),
            (final(self).state(), videos_action_view(a)) == videos_on_clock_spec(
                old(self).input(),
                old(self).state(),
                now,
            ),
    {
        let mut stage = VideoStage::Scan;
        core::mem::swap(&mut self.stage, &mut stage);
        let (anime, promo) = match stage {
            VideoStage::Clock { anime, promo } => (anime, promo),
            _ => {
                proof {
                    assert(false);
                }
                return VideosAction::Finish;
            },
        };
        self.push_videos(anime, promo, now);
        if self.batch.len() > self.batch_size {
            let mut docs: Vec<FlatDocument> = Vec::new();
            core::mem::swap(&mut docs, &mut self.batch);
            let ghost f0 = self.flushed@;
            self.flushed = Ghost(self.flushed@ + docs@);
            proof {
                assert forall|i: int| 0 <= i < self.flushed@.len() implies listed_video_doc(
                    self.animes@,
                    self.ids@,
                    #[trigger] self.flushed@[i],
                ) by {
                    if i < f0.len() {
                        assert(self.flushed@[i] == f0[i]);
                    } else {
                        assert(self.flushed@[i] == docs@[i - f0.len()]);
                    }
                }
            }
            VideosAction::Insert(docs)
        } else {
            self.proceed()
        }
    }

    /// Ends the run: the documents not yet handed out.
    pub fn finish(self) -> (r: Vec<FlatDocument>)
        ensures
            r@ == self.state().batch,
    {
        self.batch
    }
}

/// The law of a video run, which holds in every state it reaches: every
/// document made, handed out or not, is a video document of a listed anime.
pub proof fn lemma_videos_laws(c: &YVideoCollector)
    requires
        c.wf(),
    ensures
        forall|i: int|
            0 <= i < c.state().batch.len() ==> listed_video_doc(
                c.input().animes,
                c.input().ids,
                #[trigger] c.state().batch[i],
            ),
        forall|i: int|
            0 <= i < c.state().flushed.len() ==> listed_video_doc(
                c.input().animes,
                c.input().ids,
                #[trigger] c.state().flushed[i],
            ),
{
}

/// A picture set serves once: where the picture sets carry distinct anime
/// ids, after a run uses the set of `id` up, a later listing of `id` finds
/// none and is passed over without documents.
pub proof fn lemma_picture_set_serves_once(input: PicsInput, v: PicsView, pi: int)
    requires
        keys_of(v.pics).no_duplicates(),
        v.next < input.ids.len(),
        first_index(keys_of(v.pics), input.ids[v.next as int]) == Some(pi),
    ensures
        first_index(keys_of(v.pics.remove(pi)), input.ids[v.next as int]) is None,
        forall|w: PicsView|
            w.next < input.ids.len() && input.ids[w.next as int] == input.ids[v.next as int] && w.pics
                == v.pics.remove(pi) ==> #[trigger] pics_scan_spec(input, w) == pics_scan_spec(
                input,
                PicsView { next: w.next + 1, ..w },
            ),
{
    let id = input.ids[v.next as int];
    lemma_taken_once(keys_of(v.pics), id, pi);
    assert(keys_of(v.pics.remove(pi)) =~= keys_of(v.pics).remove(pi));
}

/// A video list serves once: where the video lists carry distinct anime ids,
/// after a run uses the list of `id` up, a later listing of `id` finds none
/// and is passed over without documents.
pub proof fn lemma_video_list_serves_once(input: VideosInput, v: VideosView, vi: int)
    requires
        keys_of(v.videos).no_duplicates(),
        v.next < input.ids.len(),
        first_index(keys_of(v.videos), input.ids[v.next as int]) == Some(vi),
    ensures
        first_index(keys_of(v.videos.remove(vi)), input.ids[v.next as int]) is None,
        forall|w: VideosView|
            w.next < input.ids.len() && input.ids[w.next as int] == input.ids[v.next as int] && w.videos
                == v.videos.remove(vi) ==> #[trigger] videos_scan_spec(input, w) == videos_scan_spec(
                input,
                VideosView { next: w.next + 1, ..w },
            ),
{
    let id = input.ids[v.next as int];
    lemma_taken_once(keys_of(v.videos), id, vi);
    assert(keys_of(v.videos.remove(vi)) =~= keys_of(v.videos).remove(vi));
}

/// The documents a picture run has made so far, handed out or not, in order.
pub open spec fn pics_docs(v: PicsView) -> Seq<FlatDocument> {
    v.flushed + v.batch
}

/// The documents a video run has made so far, handed out or not, in order.
pub open spec fn videos_docs(v: VideosView) -> Seq<FlatDocument> {
    v.flushed + v.batch
}

/// Going on to the next listed id makes no document and hands none out.
proof fn lemma_pics_scan_keeps_docs(input: PicsInput, v: PicsView)
    ensures
        pics_scan_spec(input, v).0.flushed == v.flushed,
        pics_scan_spec(input, v).0.batch == v.batch,
    decreases input.ids.len() - v.next,
{
    if v.next < input.ids.len() {
        lemma_pics_scan_keeps_docs(input, PicsView { next: v.next + 1, ..v });
    }
}

/// Going through pictures without an image answer makes no document.
proof fn lemma_pictures_keep_docs(
    input: PicsInput,
    v: PicsView,
    anime: nat,
    pictures: Seq<Images>,
    pos: nat,
    updated_at: u64,
)
    ensures
        pics_docs(pictures_spec(input, v, anime, pictures, pos, updated_at).0) == pics_docs(v),
    decreases pictures.len() - pos,
{
    if pos >= pictures.len() {
        let v1 = PicsView { stage: PicsStageView::Scan, ..v };
        if v1.batch.len() > input.batch_size {
            assert(pics_docs(pics_after_spec(input, v1).0) =~= pics_docs(v));
        } else {
            lemma_pics_scan_keeps_docs(input, v1);
        }
    } else if spec_img_url(Some(pictures[pos as int])) is None {
        lemma_pictures_keep_docs(input, v, anime, pictures, pos + 1, updated_at);
    }
}

/// A published picture gives exactly one document, and no document is lost:
/// the documents made so far grow by one anime document that carries the
/// anime's page and names, the picture's new name and the anime's clock
/// reading. A picture left out gives none.
pub proof fn lemma_picture_docs(input: PicsInput, v: PicsView, img: Option<String>)
    requires
        v.stage is Image,
    ensures
        ({
            let r = pics_on_image_spec(input, v, img).0;
            let a = input.animes[v.stage->Image_anime as int];
            match img {
                Some(name) => {
                    &&& pics_docs(r).len() == pics_docs(v).len() + 1
                    &&& pics_docs(r).subrange(0, pics_docs(v).len() as int) == pics_docs(v)
                    &&& pics_docs(r).last().item_type == ItemType::Anime
                    &&& pics_docs(r).last().src == Some(a.url)
                    &&& pics_docs(r).last().name == Some(a.title)
                    &&& pics_docs(r).last().name_english == a.title_english
                    &&& pics_docs(r).last().name_japanese == a.title_japanese
                    &&& pics_docs(r).last().img == Some(name)
                    &&& pics_docs(r).last().updated_at == v.stage->Image_updated_at
                },
                None => pics_docs(r) == pics_docs(v),
            }
        }),
{
    let anime = v.stage->Image_anime;
    let pictures = v.stage->Image_pictures;
    let pos = v.stage->Image_pos;
    let t = v.stage->Image_updated_at;
    match img {
        Some(name) => {
            let d = anime_doc(t, name, input.animes[anime as int]);
            let v1 = PicsView { batch: v.batch.push(d), stage: PicsStageView::Scan, ..v };
            lemma_pictures_keep_docs(input, v1, anime, pictures, pos, t);
            assert(pics_docs(v1) =~= pics_docs(v).push(d));
            assert(pics_docs(v1).subrange(0, pics_docs(v).len() as int) =~= pics_docs(v));
        },
        None => {
            lemma_pictures_keep_docs(input, PicsView { stage: PicsStageView::Scan, ..v }, anime, pictures, pos, t);
        },
    }
}

/// Going on to the next listed id makes no video document and hands none
/// out.
proof fn lemma_videos_scan_keeps_docs(input: VideosInput, v: VideosView)
    ensures
        videos_scan_spec(input, v).0.flushed == v.flushed,
        videos_scan_spec(input, v).0.batch == v.batch,
    decreases input.ids.len() - v.next,
{
    if v.next < input.ids.len() {
        lemma_videos_scan_keeps_docs(input, VideosView { next: v.next + 1, ..v });
    }
}

/// A video run never drops documents: after the clock is read for an anime,
/// the documents made so far are those before, followed by one document per
/// promotional video of the anime, in order, each a video document with the
/// video's id, the time read and the anime's title and Japanese title as
/// parent.
pub proof fn lemma_video_docs(input: VideosInput, v: VideosView, now: u64)
    requires
        v.stage is Clock,
    ensures
        ({
            let r = videos_on_clock_spec(input, v, now).0;
            let a = input.animes[v.stage->Clock_anime as int];
            let promo = v.stage->Clock_promo;
            &&& videos_docs(r).len() == videos_docs(v).len() + promo.len()
            &&& videos_docs(r).subrange(0, videos_docs(v).len() as int) == videos_docs(v)
            &&& forall|i: int|
                0 <= i < promo.len() ==> {
                    let d = #[trigger] videos_docs(r)[videos_docs(v).len() + i];
                    &&& d.item_type == ItemType::YVideo
                    &&& d.unique == Some(promo[i].trailer.youtube_id)
                    &&& d.updated_at == now
                    &&& d.parent == Some(Parent { name: a.title, name_japanese: a.title_japanese })
                }
        }),
{
    let anime = v.stage->Clock_anime;
    let promo = v.stage->Clock_promo;
    let a = input.animes[anime as int];
    let new = video_docs(now, anime_parent(a), promo);
    let v1 = VideosView { batch: v.batch + new, stage: VideosStageView::Scan, ..v };
    let r = videos_on_clock_spec(input, v, now).0;
    if v1.batch.len() > input.batch_size {
        assert(videos_docs(r) =~= videos_docs(v) + new);
    } else {
        lemma_videos_scan_keeps_docs(input, v1);
        assert(videos_docs(r) =~= videos_docs(v) + new);
    }
    assert(videos_docs(r).subrange(0, videos_docs(v).len() as int) =~= videos_docs(v));
    assert forall|i: int| 0 <= i < promo.len() implies {
        let d = #[trigger] videos_docs(r)[videos_docs(v).len() + i];
        &&& d.item_type == ItemType::YVideo
        &&& d.unique == Some(promo[i].trailer.youtube_id)
        &&& d.updated_at == now
        &&& d.parent == Some(Parent { name: a.title, name_japanese: a.title_japanese })
    } by {
        assert(videos_docs(r)[videos_docs(v).len() + i] == new[i]);
    }
}

/// After an anime a picture batch is handed out exactly when it holds more
/// than `batch_size` documents: what is handed out is the whole batch, and
/// when nothing is handed out the batch holds no more.
pub proof fn lemma_picture_batches(input: PicsInput, v: PicsView)
    ensures
        pics_after_spec(input, v).1 matches PicsActionView::Insert(d) ==> d == v.batch && d.len()
            > input.batch_size && pics_after_spec(input, v).0.batch.len() == 0,
        !(pics_after_spec(input, v).1 is Insert) ==> v.batch.len() <= input.batch_size
            && pics_after_spec(input, v).0.batch == v.batch,
{
    if v.batch.len() <= input.batch_size {
        lemma_pics_scan_keeps_docs(input, v);
        lemma_pics_scan_never_inserts(input, v);
    }
}

proof fn lemma_pics_scan_never_inserts(input: PicsInput, v: PicsView)
    ensures
        !(pics_scan_spec(input, v).1 is Insert),
    decreases input.ids.len() - v.next,
{
    if v.next < input.ids.len() {
        lemma_pics_scan_never_inserts(input, PicsView { next: v.next + 1, ..v });
    }
}

proof fn lemma_videos_scan_never_inserts(input: VideosInput, v: VideosView)
    ensures
        !(videos_scan_spec(input, v).1 is Insert),
    decreases input.ids.len() - v.next,
{
    if v.next < input.ids.len() {
        lemma_videos_scan_never_inserts(input, VideosView { next: v.next + 1, ..v });
    }
}

/// After the clock of an anime, a video batch is handed out exactly when it
/// holds more than `batch_size` documents: what is handed out is the whole
/// batch, and when nothing is handed out the batch holds no more.
pub proof fn lemma_video_batches(input: VideosInput, v: VideosView, now: u64)
    requires
        v.stage is Clock,
    ensures
        ({
            let (r, a) = videos_on_clock_spec(input, v, now);
            &&& a matches VideosActionView::Insert(d) ==> d.len() > input.batch_size && r.batch.len() == 0
                && r.flushed == v.flushed + d
            &&& !(a is Insert) ==> r.batch.len() <= input.batch_size && r.flushed == v.flushed
        }),
{
    let anime = v.stage->Clock_anime;
    let promo = v.stage->Clock_promo;
    let new = video_docs(now, anime_parent(input.animes[anime as int]), promo);
    let v1 = VideosView { batch: v.batch + new, stage: VideosStageView::Scan, ..v };
    if v1.batch.len() <= input.batch_size {
        lemma_videos_scan_keeps_docs(input, v1);
        lemma_videos_scan_never_inserts(input, v1);
    }
}

/// The promotional videos of two runs of video sets are those of the first
/// followed by those of the second: every set's videos are kept, in order.
pub proof fn lemma_all_promos_concat(a: Seq<VideoSrc>, b: Seq<VideoSrc>)
    ensures
        all_promos(a + b) == all_promos(a) + all_promos(b),
    decreases a.len(),
{
    if a.len() == 0 {
        assert(a + b =~= b);
        assert(all_promos(a) + all_promos(b) =~= all_promos(b));
    } else {
        lemma_all_promos_concat(a.drop_first(), b);
        assert((a + b).drop_first() =~= a.drop_first() + b);
        assert((a + b)[0] == a[0]);
        assert(a[0].promo@ + (all_promos(a.drop_first()) + all_promos(b)) =~= (a[0].promo@ + all_promos(
            a.drop_first(),
        )) + all_promos(b));
    }
}

} // verus!
