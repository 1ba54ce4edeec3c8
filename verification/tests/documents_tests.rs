use kenja_tools::api::AnimeApiRawDocument;
use kenja_tools::documents::anime_raw::{
    AnimeCharacters, AnimeLinks, AnimePictures, AnimeStaffs, AnimeVideos, Season,
};
use kenja_tools::documents::anime_search::{FlatDocument, ItemType as SearchType, Parent, Rating32};
use kenja_tools::documents::id::{ItemId, ItemType as IdType};
use kenja_tools::documents::{ItemType, Rating};

#[test]
fn rating_names_and_suffix() {
    assert_eq!(Rating::AllAges.to_string(), "all_ages");
    assert_eq!(Rating::Hentai.to_string(), "hentai");
    assert_eq!(Rating::AllAges.as_suffix("anime"), "anime_all_ages");
    assert_eq!(Rating::Hentai.as_suffix("anime_text"), "anime_text_hentai");
    assert_eq!(Rating::AllAges.as_suffix(""), "_all_ages");
}

#[test]
fn rating_to_32() {
    assert_eq!(Rating::AllAges.to_32(), Rating32::G);
    assert_eq!(Rating::Hentai.to_32(), Rating32::X);
}

#[test]
fn rating_strings() {
    assert!(Rating::is_hentai_str("Rx - Hentai"));
    assert!(Rating::is_hentai_str("Rx"));
    assert!(Rating::is_hentai_str("Hentai"));
    assert!(!Rating::is_hentai_str("R+ - Mild Nudity"));
    assert!(!Rating::is_hentai_str("PG-13 - Teens 13 or older"));
    assert!(!Rating::is_hentai_str("rx hentai"));
    assert!(!Rating::is_hentai_str(""));
    assert!(Rating::AllAges.match_str("G - All Ages"));
    assert!(!Rating::AllAges.match_str("Rx - Hentai"));
    assert!(Rating::Hentai.match_str("Rx - Hentai"));
    assert!(!Rating::Hentai.match_str("PG - Children"));
}

#[test]
fn item_type_names() {
    assert_eq!(ItemType::Anime.to_string(), "anime");
    assert_eq!(ItemType::Chara.to_string(), "character");
    assert_eq!(ItemType::Anime.to_32(), SearchType::Anime);
    assert_eq!(ItemType::Chara.to_32(), SearchType::Character);
}

#[test]
fn search_item_type_codes() {
    assert_eq!(SearchType::Unspecified.to_i32(), 0);
    assert_eq!(SearchType::Anime.to_i32(), 1);
    assert_eq!(SearchType::Character.to_i32(), 2);
    assert_eq!(SearchType::YVideo.to_i32(), 3);
    assert_eq!(SearchType::from_i32(3), Some(SearchType::YVideo));
    assert_eq!(SearchType::from_i32(0), Some(SearchType::Unspecified));
    assert_eq!(SearchType::from_i32(4), None);
    assert_eq!(SearchType::from_i32(-1), None);
    assert_eq!(SearchType::Anime.to_display_string(), Some("anime".to_string()));
    assert_eq!(SearchType::Character.to_display_string(), Some("character".to_string()));
    assert_eq!(SearchType::YVideo.to_display_string(), Some("yvideo".to_string()));
    assert_eq!(SearchType::Unspecified.to_display_string(), None);
}

#[test]
fn id_item_type_codes() {
    assert_eq!(IdType::Anime.to_i32(), 1);
    assert_eq!(IdType::Character.to_i32(), 2);
    assert_eq!(IdType::from_i32(1), Some(IdType::Anime));
    assert_eq!(IdType::from_i32(2), Some(IdType::Character));
    assert_eq!(IdType::from_i32(0), None);
    let a = ItemId { id: 5, item_type: IdType::Anime };
    assert_eq!(a, ItemId { id: 5, item_type: IdType::Anime });
    assert_ne!(a, ItemId { id: 5, item_type: IdType::Character });
}

#[test]
fn season_names() {
    assert_eq!(Season::Winter.to_string(), "winter");
    assert_eq!(Season::Spring.to_string(), "spring");
    assert_eq!(Season::Summer.to_string(), "summer");
    assert_eq!(Season::Fall.to_string(), "fall");
}

#[test]
fn flat_document_constructors() {
    let a = FlatDocument::new_anime(
        10,
        "img.jpg".to_string(),
        "https://x/anime/1".to_string(),
        "Title".to_string(),
        Some("English".to_string()),
        None,
    );
    assert_eq!(a.updated_at, 10);
    assert_eq!(a.item_type, SearchType::Anime);
    assert_eq!(a.img.as_deref(), Some("img.jpg"));
    assert_eq!(a.src.as_deref(), Some("https://x/anime/1"));
    assert_eq!(a.name.as_deref(), Some("Title"));
    assert_eq!(a.name_english.as_deref(), Some("English"));
    assert_eq!(a.name_japanese, None);
    assert_eq!(a.parent, None);
    assert_eq!(a.unique, None);

    let parent = Parent { name: "Title".to_string(), name_japanese: Some("タイトル".to_string()) };
    let c = FlatDocument::new_character(
        11,
        "c.jpg".to_string(),
        "https://x/character/2".to_string(),
        "Name".to_string(),
        Some("名前".to_string()),
        parent.clone(),
    );
    assert_eq!(c.item_type, SearchType::Character);
    assert_eq!(c.name_english, None);
    assert_eq!(c.name_japanese.as_deref(), Some("名前"));
    assert_eq!(c.parent, Some(parent.clone()));
    assert_eq!(c.unique, None);

    let v = FlatDocument::new_yvideo(12, "abcDEF".to_string(), parent.clone());
    assert_eq!(v.item_type, SearchType::YVideo);
    assert_eq!(v.unique.as_deref(), Some("abcDEF"));
    assert_eq!(v.parent, Some(parent));
    assert_eq!(v.img, None);
    assert_eq!(v.src, None);
    assert_eq!(v.name, None);
}

#[test]
fn raw_documents_from_values() {
    let vals = vec![serde_json::Value::Bool(true), serde_json::Value::Null];
    let c = AnimeCharacters::from_value_list(3, vals.clone());
    assert_eq!(c.mal_id, 3);
    assert_eq!(c.characters, vals);
    let s = AnimeStaffs::from_value_list(4, vals.clone());
    assert_eq!((s.mal_id, s.staffs), (4, vals.clone()));
    let l = AnimeLinks::from_value_list(5, vals.clone());
    assert_eq!((l.mal_id, l.links), (5, vals.clone()));
    let v = AnimeVideos::from_value_list(6, vals.clone());
    assert_eq!((v.mal_id, v.videos), (6, vals.clone()));
    let p = AnimePictures::from_value_list(7, vals.clone());
    assert_eq!((p.mal_id, p.pictures), (7, vals));
}

#[test]
fn top_level_media_type() {
    assert!(kenja_tools::is_expected_media_type("TV"));
    assert!(kenja_tools::is_expected_media_type("Movie"));
    assert!(!kenja_tools::is_expected_media_type("Music"));
}

#[test]
fn item_type_codes_round_trip() {
    for t in [SearchType::Unspecified, SearchType::Anime, SearchType::Character, SearchType::YVideo] {
        assert_eq!(SearchType::from_i32(t.to_i32()), Some(t));
    }
    for t in [IdType::Anime, IdType::Character] {
        assert_eq!(IdType::from_i32(t.to_i32()), Some(t));
    }
    for code in -2..6 {
        if let Some(t) = SearchType::from_i32(code) {
            assert_eq!(t.to_i32(), code);
        }
        if let Some(t) = IdType::from_i32(code) {
            assert_eq!(t.to_i32(), code);
        }
    }
}

#[test]
fn every_rating_string_has_one_audience() {
    for s in ["G - All Ages", "Rx - Hentai", "R+ - Mild Nudity", "Hentai", "", "rx"] {
        assert_ne!(Rating::AllAges.match_str(s), Rating::Hentai.match_str(s));
    }
}
