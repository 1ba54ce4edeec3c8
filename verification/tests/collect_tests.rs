use kenja_tools::collect::promos_of;
use kenja_tools::collect::{PicsAction, PicsAwaiting, PicsCollector, VideosAction, YVideoCollector};
use kenja_tools::documents::anime_search::{ItemType, Parent};
use kenja_tools::documents::anime_src::{
    AiredPeriod, AnimeSrc, ImageUrls, Images, ImgExSrc, PromoVideo, VideoSrc, YoutubeImages,
    YoutubeVideo,
};

fn anime(id: i64) -> AnimeSrc {
    AnimeSrc {
        mal_id: id,
        url: format!("https://x/anime/{id}"),
        images: None,
        media_type: Some("TV".to_string()),
        aired: AiredPeriod { from: None },
        rating: None,
        title: format!("Title {id}"),
        title_english: None,
        title_japanese: Some(format!("題 {id}")),
        synopsis: None,
        producers: vec![],
        favorites: 0,
    }
}

fn pic(url: Option<&str>) -> Images {
    Images { jpg: Some(ImageUrls { image_url: url.map(|s| s.to_string()) }) }
}

#[test]
fn pictures_become_anime_documents() {
    let pics = vec![
        ImgExSrc { mal_id: 1, pictures: vec![pic(Some("a")), pic(None), pic(Some("b"))] },
        ImgExSrc { mal_id: 2, pictures: vec![pic(Some("c"))] },
    ];
    let mut c = PicsCollector::new(vec![2, 1, 9], vec![anime(1), anime(2)], pics, 0);
    assert_eq!(c.awaiting(), PicsAwaiting::Proceed);
    assert!(matches!(c.proceed(), PicsAction::ReadClock));
    match c.on_clock(5) {
        PicsAction::ResolveImage { url } => assert_eq!(url, "c"),
        a => panic!("unexpected {a:?}"),
    }
    let docs = match c.on_image(Some("n_c".to_string())) {
        PicsAction::Insert(d) => d,
        a => panic!("unexpected {a:?}"),
    };
    assert_eq!(docs.len(), 1);
    assert_eq!(docs[0].item_type, ItemType::Anime);
    assert_eq!(docs[0].img.as_deref(), Some("n_c"));
    assert_eq!(docs[0].src.as_deref(), Some("https://x/anime/2"));
    assert_eq!(docs[0].updated_at, 5);
    assert!(matches!(c.proceed(), PicsAction::ReadClock));
    match c.on_clock(6) {
        PicsAction::ResolveImage { url } => assert_eq!(url, "a"),
        a => panic!("unexpected {a:?}"),
    }
    match c.on_image(None) {
        PicsAction::ResolveImage { url } => assert_eq!(url, "b"),
        a => panic!("unexpected {a:?}"),
    }
    let docs = match c.on_image(Some("n_b".to_string())) {
        PicsAction::Insert(d) => d,
        a => panic!("unexpected {a:?}"),
    };
    assert_eq!(docs.len(), 1);
    assert_eq!(docs[0].name.as_deref(), Some("Title 1"));
    assert!(matches!(c.proceed(), PicsAction::Finish));
    assert_eq!(c.awaiting(), PicsAwaiting::Finished);
    assert!(c.finish().is_empty());
}

fn promo(id: &str) -> PromoVideo {
    PromoVideo {
        title: format!("PV {id}"),
        trailer: YoutubeVideo {
            youtube_id: id.to_string(),
            url: format!("https://youtube/{id}"),
            embed_url: String::new(),
            images: YoutubeImages { image_url: String::new() },
        },
    }
}

#[test]
fn promotional_videos_become_video_documents() {
    let videos = vec![
        (1, vec![VideoSrc { promo: vec![promo("p1")], music_videos: vec![] }, VideoSrc { promo: vec![promo("p2")], music_videos: vec![] }]),
        (1, vec![VideoSrc { promo: vec![promo("late")], music_videos: vec![] }]),
    ];
    let mut c = YVideoCollector::new(vec![1, 3], vec![anime(1)], videos, 100);
    assert!(matches!(c.proceed(), VideosAction::ReadClock));
    assert!(c.is_waiting_for_clock());
    assert!(matches!(c.on_clock(42), VideosAction::Finish));
    assert!(c.is_finished());
    let docs = c.finish();
    assert_eq!(docs.len(), 2);
    let parent = Parent { name: "Title 1".to_string(), name_japanese: Some("題 1".to_string()) };
    assert_eq!(docs[0].item_type, ItemType::YVideo);
    assert_eq!(docs[0].unique.as_deref(), Some("p1"));
    assert_eq!(docs[1].unique.as_deref(), Some("p2"));
    assert_eq!(docs[0].parent, Some(parent));
    assert_eq!(docs[0].updated_at, 42);
}

#[test]
fn video_batches_are_handed_out() {
    let videos = vec![(1, vec![VideoSrc { promo: vec![promo("p1"), promo("p2")], music_videos: vec![] }])];
    let mut c = YVideoCollector::new(vec![1], vec![anime(1)], videos, 1);
    assert!(matches!(c.proceed(), VideosAction::ReadClock));
    match c.on_clock(1) {
        VideosAction::Insert(d) => assert_eq!(d.len(), 2),
        a => panic!("unexpected {a:?}"),
    }
    assert!(matches!(c.proceed(), VideosAction::Finish));
}

#[test]
fn promotional_videos_of_all_sets() {
    let sets = vec![
        VideoSrc { promo: vec![promo("a"), promo("b")], music_videos: vec![] },
        VideoSrc { promo: vec![], music_videos: vec![] },
        VideoSrc { promo: vec![promo("c")], music_videos: vec![] },
    ];
    let ids: Vec<String> = promos_of(sets).into_iter().map(|p| p.trailer.youtube_id).collect();
    assert_eq!(ids, vec!["a", "b", "c"]);
}

#[test]
fn a_listed_id_again_adds_nothing() {
    let pics = vec![ImgExSrc { mal_id: 1, pictures: vec![pic(Some("a"))] }];
    let mut c = PicsCollector::new(vec![1, 1], vec![anime(1)], pics, 100);
    assert!(matches!(c.proceed(), PicsAction::ReadClock));
    assert!(matches!(c.on_clock(1), PicsAction::ResolveImage { .. }));
    assert!(matches!(c.on_image(Some("n".to_string())), PicsAction::Finish));
    assert_eq!(c.finish().len(), 1);
}
