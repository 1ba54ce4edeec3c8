use kenja_tools::data::{
    img_file_name, is_expected_media_type, is_hentai_str, new_img_name, plan_new_img,
    raw_img_path, relative_img_path, ImgError, ImgPlan,
};
use kenja_tools::documents::anime_search::ItemType;

#[test]
fn hentai_strings() {
    assert!(is_hentai_str("Rx - Hentai"));
    assert!(is_hentai_str("xxRxyy"));
    assert!(!is_hentai_str("R - 17+ (violence & profanity)"));
}

#[test]
fn media_types() {
    for t in ["TV", "Movie", "OVA", "ONA"] {
        assert!(is_expected_media_type(t));
    }
    for t in ["Special", "Music", "TV Special", "tv", "", "TV "] {
        assert!(!is_expected_media_type(t));
    }
}

#[test]
fn raw_paths() {
    assert_eq!(
        raw_img_path("https://cdn.myanimelist.net/images/anime/10/47347.jpg"),
        Ok("images/anime/10/47347.jpg".to_string())
    );
    assert_eq!(raw_img_path("https://example.com"), Ok("".to_string()));
    assert_eq!(raw_img_path("https://example.com/a?b=c"), Ok("a".to_string()));
    assert_eq!(raw_img_path("not a url"), Err(ImgError::Url));
    assert_eq!(raw_img_path("foo:"), Err(ImgError::EmptyPath));
    assert_eq!(relative_img_path("/x/y"), "x/y");
    assert_eq!(relative_img_path("é/z"), "/z");
}

#[test]
fn new_image_names() {
    let url = "https://cdn.myanimelist.net/images/anime/10/47347.jpg";
    let digest = blake3::hash(url.as_bytes());
    let hex = hex::encode(&digest.as_bytes()[..16]);
    let name = new_img_name(url, ItemType::Anime);
    assert_eq!(name, format!("preview/anime/{hex}.jpg"));
    assert_eq!(name.len(), "preview/anime/".len() + 32 + 4);
    let name = new_img_name(url, ItemType::Character);
    assert_eq!(name, format!("preview/character/{hex}.jpg"));
    assert_ne!(
        new_img_name("https://a/1.jpg", ItemType::Anime),
        new_img_name("https://a/2.jpg", ItemType::Anime)
    );
    assert!(new_img_name("", ItemType::YVideo).starts_with("preview/yvideo/"));
}

#[test]
fn image_plans() {
    assert_eq!(plan_new_img(false, false), ImgPlan::Missing);
    assert_eq!(plan_new_img(false, true), ImgPlan::Missing);
    assert_eq!(plan_new_img(true, true), ImgPlan::Reuse);
    assert_eq!(plan_new_img(true, false), ImgPlan::Copy);
}

#[test]
fn fetched_image_files() {
    assert_eq!(
        img_file_name("/data/raw", "https://cdn.myanimelist.net/images/characters/9/310307.jpg"),
        Ok(Some("/data/raw/images/characters/9/310307.jpg".to_string()))
    );
    assert_eq!(
        img_file_name("/data/raw", "https://cdn.myanimelist.net/img/sp/icon/apple-touch-icon-256.png"),
        Ok(None)
    );
    assert_eq!(img_file_name("/r", "::"), Err(ImgError::Url));
}
