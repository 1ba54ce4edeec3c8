use kenja_tools::flatten::season_tag;
use kenja_tools::documents::anime_search::{FlatDocument, ItemType, Parent};
use kenja_tools::documents::anime_src::{
    AiredPeriod, AniCharaBridge, AnimeSrc, Character, CharacterCast, CharacterSrc, ImageUrls,
    Images,
};
use kenja_tools::flatten::{
    is_expected_anime, is_expected_chara, Awaiting, FlattenAction, FlattenError, FlattenParams,
    Flattener,
};

fn images(url: Option<&str>) -> Option<Images> {
    Some(Images { jpg: Some(ImageUrls { image_url: url.map(|s| s.to_string()) }) })
}

fn anime(id: i64, url: &str, aired: Option<&str>, rating: &str, img: Option<&str>) -> AnimeSrc {
    AnimeSrc {
        mal_id: id,
        url: url.to_string(),
        images: images(img),
        media_type: Some("TV".to_string()),
        aired: AiredPeriod { from: aired.map(|s| s.to_string()) },
        rating: Some(rating.to_string()),
        title: format!("Title {id}"),
        title_english: Some(format!("English {id}")),
        title_japanese: Some(format!("日本 {id}")),
        synopsis: Some("A story.".to_string()),
        producers: vec![],
        favorites: 100,
    }
}

fn chara(id: i64, favorites: u64) -> CharacterSrc {
    CharacterSrc {
        mal_id: id,
        url: format!("https://x/character/{id}"),
        images: images(Some(&format!("https://cdn/c{id}.jpg"))),
        name: format!("Chara {id}"),
        name_kanji: Some(format!("名 {id}")),
        about: Some("About.".to_string()),
        favorites,
    }
}

fn bridge(id: i64, cast: &[i64]) -> AniCharaBridge {
    AniCharaBridge {
        mal_id: id,
        characters: cast
            .iter()
            .map(|c| CharacterCast {
                character: Character { mal_id: *c, url: String::new() },
                voice_actors: vec![],
            })
            .collect(),
    }
}

const AIRED: &str = "2005-04-06T00:00:00+00:00";

fn params(new_img: bool, batch_size: usize) -> FlattenParams {
    FlattenParams {
        oldest: 1965,
        anime_likes: (10, u64::MAX),
        chara_likes: (5, u64::MAX),
        new_img,
        batch_size,
    }
}

fn sample() -> (Vec<AnimeSrc>, Vec<AniCharaBridge>, Vec<CharacterSrc>) {
    let animes = vec![
        anime(3, "url-3", Some(AIRED), "PG-13", Some("https://cdn/a3.jpg")),
        anime(1, "url-1a", Some(AIRED), "PG-13", Some("https://cdn/a1.jpg")),
        anime(2, "url-2", Some(AIRED), "Rx - Hentai", Some("https://cdn/a2.jpg")),
        anime(1, "url-1b", Some(AIRED), "PG-13", Some("https://cdn/a1b.jpg")),
        anime(4, "url-4", Some("1960-01-01T00:00:00+00:00"), "G", Some("https://cdn/a4.jpg")),
        anime(5, "url-5", Some(AIRED), "G", None),
    ];
    let bridges = vec![bridge(1, &[10, 11]), bridge(3, &[11, 12])];
    let charas = vec![chara(10, 50), chara(11, 7), chara(12, 1)];
    (animes, bridges, charas)
}

#[test]
fn anime_filter() {
    let likes = (10, 1000);
    let ok = anime(1, "u", Some(AIRED), "PG-13", Some("i"));
    assert!(is_expected_anime(&ok, 1965, likes));
    assert!(is_expected_anime(&ok, 2005, likes));
    assert!(!is_expected_anime(&ok, 2006, likes));
    assert!(!is_expected_anime(&anime(1, "u", None, "PG-13", None), 1965, likes));
    assert!(!is_expected_anime(&anime(1, "u", Some("April 2005"), "PG-13", None), 1965, likes));
    assert!(!is_expected_anime(&anime(1, "u", Some(AIRED), "Rx - Hentai", None), 1965, likes));
    let mut music = ok.clone();
    music.media_type = Some("Music".to_string());
    assert!(!is_expected_anime(&music, 1965, likes));
    let mut untyped = ok.clone();
    untyped.media_type = None;
    assert!(!is_expected_anime(&untyped, 1965, likes));
    let mut unrated = ok.clone();
    unrated.rating = None;
    assert!(!is_expected_anime(&unrated, 1965, likes));
    let mut popular = ok.clone();
    popular.favorites = 1001;
    assert!(!is_expected_anime(&popular, 1965, likes));
    popular.favorites = 1000;
    assert!(is_expected_anime(&popular, 1965, likes));
    let mut empty = ok.clone();
    empty.synopsis = Some(String::new());
    assert!(!is_expected_anime(&empty, 1965, likes));
    empty.synopsis = None;
    assert!(!is_expected_anime(&empty, 1965, likes));
}

#[test]
fn chara_filter() {
    assert!(is_expected_chara(&chara(1, 5), (5, 10)));
    assert!(is_expected_chara(&chara(1, 10), (5, 10)));
    assert!(!is_expected_chara(&chara(1, 4), (5, 10)));
    assert!(!is_expected_chara(&chara(1, 11), (5, 10)));
    let mut c = chara(1, 7);
    c.about = Some(String::new());
    assert!(!is_expected_chara(&c, (5, 10)));
    c.about = None;
    assert!(!is_expected_chara(&c, (5, 10)));
}

#[test]
fn run_refused_without_first_day() {
    let mut p = params(false, 10);
    p.oldest = 300000;
    let r = Flattener::new(p, vec![], vec![], vec![]);
    assert!(matches!(r, Err(FlattenError::NoFirstDay)));
    p.oldest = 262142;
    assert!(Flattener::new(p, vec![], vec![], vec![]).is_ok());
    p.oldest = -262143;
    assert!(Flattener::new(p, vec![], vec![], vec![]).is_ok());
    p.oldest = -262144;
    assert!(Flattener::new(p, vec![], vec![], vec![]).is_err());
}

#[test]
fn run_with_original_images() {
    let (animes, bridges, charas) = sample();
    let mut f = Flattener::new(params(false, 100), animes, bridges, charas).unwrap();
    assert_eq!(f.awaiting(), Awaiting::Proceed);
    assert!(matches!(f.proceed(), FlattenAction::ReadClock));
    assert!(matches!(f.on_clock(100), FlattenAction::ReadClock));
    assert!(matches!(f.on_clock(200), FlattenAction::Finish));
    assert_eq!(f.awaiting(), Awaiting::Finished);
    let (docs, ani, chara) = f.finish();
    assert_eq!(ani, vec![1, 3]);
    assert_eq!(chara, vec![10, 11]);
    let parent1 = Parent { name: "Title 1".to_string(), name_japanese: Some("日本 1".to_string()) };
    assert_eq!(
        docs,
        vec![
            FlatDocument::new_anime(
                100,
                "https://cdn/a1.jpg".to_string(),
                "url-1a".to_string(),
                "Title 1".to_string(),
                Some("English 1".to_string()),
                Some("日本 1".to_string()),
            ),
            FlatDocument::new_character(
                100,
                "https://cdn/c10.jpg".to_string(),
                "https://x/character/10".to_string(),
                "Chara 10".to_string(),
                Some("名 10".to_string()),
                parent1.clone(),
            ),
            FlatDocument::new_character(
                100,
                "https://cdn/c11.jpg".to_string(),
                "https://x/character/11".to_string(),
                "Chara 11".to_string(),
                Some("名 11".to_string()),
                parent1,
            ),
            FlatDocument::new_anime(
                200,
                "https://cdn/a3.jpg".to_string(),
                "url-3".to_string(),
                "Title 3".to_string(),
                Some("English 3".to_string()),
                Some("日本 3".to_string()),
            ),
        ]
    );
}

#[test]
fn run_with_published_images_and_batches() {
    let (animes, bridges, charas) = sample();
    let mut f = Flattener::new(params(true, 2), animes, bridges, charas).unwrap();
    match f.proceed() {
        FlattenAction::ResolveImage { url, item_type } => {
            assert_eq!(url, "https://cdn/a1.jpg");
            assert_eq!(item_type, ItemType::Anime);
        }
        a => panic!("unexpected {a:?}"),
    }
    assert_eq!(f.awaiting(), Awaiting::Image);
    assert!(matches!(f.on_image(Some("new/a1.jpg".to_string())), FlattenAction::ReadClock));
    match f.on_clock(7) {
        FlattenAction::ResolveImage { url, item_type } => {
            assert_eq!(url, "https://cdn/c10.jpg");
            assert_eq!(item_type, ItemType::Character);
        }
        a => panic!("unexpected {a:?}"),
    }
    match f.on_image(None) {
        FlattenAction::ResolveImage { url, .. } => assert_eq!(url, "https://cdn/c11.jpg"),
        a => panic!("unexpected {a:?}"),
    }
    let docs = match f.on_image(Some("new/c11.jpg".to_string())) {
        FlattenAction::Insert(docs) => docs,
        a => panic!("unexpected {a:?}"),
    };
    assert_eq!(docs.len(), 2);
    assert_eq!(docs[0].img.as_deref(), Some("new/a1.jpg"));
    assert_eq!(docs[1].img.as_deref(), Some("new/c11.jpg"));
    assert_eq!(docs[1].updated_at, 7);
    match f.proceed() {
        FlattenAction::ResolveImage { url, .. } => assert_eq!(url, "https://cdn/a3.jpg"),
        a => panic!("unexpected {a:?}"),
    }
    assert!(matches!(f.on_image(None), FlattenAction::Finish));
    let (rest, ani, chara) = f.finish();
    assert!(rest.is_empty());
    assert_eq!(ani, vec![1]);
    assert_eq!(chara, vec![11]);
}

#[test]
fn documented_ids_strictly_increase_and_are_unique() {
    let mut animes = vec![];
    for id in [9, 3, 7, 3, 1, 9, 2] {
        animes.push(anime(id, &format!("u{id}"), Some(AIRED), "G", Some("i")));
    }
    let charas = vec![chara(100, 9), chara(101, 9), chara(100, 9)];
    let bridges = vec![bridge(3, &[100, 101]), bridge(7, &[100, 101, 100])];
    let mut f = Flattener::new(params(false, 1000), animes, bridges, charas).unwrap();
    let mut a = f.proceed();
    let mut clock = 0;
    loop {
        match a {
            FlattenAction::ReadClock => {
                clock += 1;
                a = f.on_clock(clock);
            }
            FlattenAction::Finish => break,
            other => panic!("unexpected {other:?}"),
        }
    }
    let (docs, ani, chara) = f.finish();
    assert_eq!(ani, vec![1, 2, 3, 7, 9]);
    assert_eq!(chara, vec![100, 101]);
    assert_eq!(docs.len(), ani.len() + chara.len());
}

#[test]
fn season_tags() {
    assert_eq!(season_tag(2005, Some("winter")), "2005 Winter");
    assert_eq!(season_tag(2005, Some("Spring")), "2005 Spring");
    assert_eq!(season_tag(1999, Some("summer")), "1999 Summer");
    assert_eq!(season_tag(2010, Some("Fall")), "2010 Fall");
    assert_eq!(season_tag(2010, Some("FALL")), "2010");
    assert_eq!(season_tag(2010, None), "2010");
    assert_eq!(season_tag(-5, Some("fall")), "-5 Fall");
}

#[test]
fn every_kept_anime_with_image_is_documented() {
    let (animes, bridges, charas) = sample();
    let kept: Vec<i64> = animes
        .iter()
        .filter(|a| {
            is_expected_anime(a, 1965, (10, u64::MAX))
                && a.images.as_ref().and_then(|i| i.jpg.as_ref()).and_then(|j| j.image_url.as_ref()).is_some()
        })
        .map(|a| a.mal_id)
        .collect();
    let mut f = Flattener::new(params(false, 1000), animes, bridges, charas).unwrap();
    let mut a = f.proceed();
    loop {
        a = match a {
            FlattenAction::ReadClock => f.on_clock(1),
            FlattenAction::Insert(_) => f.proceed(),
            FlattenAction::Finish => break,
            FlattenAction::ResolveImage { .. } => panic!("images are used as they are"),
        };
    }
    let (_, ani, _) = f.finish();
    assert_eq!(kept, vec![3, 1, 1]);
    for id in kept {
        assert!(ani.contains(&id));
    }
}
