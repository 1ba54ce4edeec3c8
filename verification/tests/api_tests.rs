use kenja_tools::json::parse_id_list;
use kenja_tools::api::lost_ids;
use kenja_tools::api::{
    anime_api_url, character_url, check_status, has_next_page, is_fetched, paged_url,
    parse_response, pending_characters, raw_document, read_response, season_url, ApiError,
    PageCrawler,
};
use kenja_tools::documents::anime_raw::{AnimeCharacters, Season};
use kenja_tools::documents::anime_src::{AniCharaBridge, Character, CharacterCast};
use serde_json::Value;

fn json(text: &str) -> Value {
    serde_json::from_str(text).unwrap()
}

#[test]
fn paged_urls() {
    assert_eq!(paged_url("https://api/x", 0), "https://api/x");
    assert_eq!(paged_url("https://api/x", 1), "https://api/x");
    assert_eq!(paged_url("https://api/x", 2), "https://api/x?page=2");
    assert_eq!(paged_url("https://api/x", 10), "https://api/x?page=10");
    assert_eq!(paged_url("u", u32::MAX), format!("u?page={}", u32::MAX));
}

#[test]
fn paged_urls_are_distinct() {
    let urls: Vec<String> = (1..50).map(|p| paged_url("base", p)).collect();
    for i in 0..urls.len() {
        for j in 0..urls.len() {
            if i != j {
                assert_ne!(urls[i], urls[j]);
            }
        }
    }
}

#[test]
fn status_check() {
    assert_eq!(check_status(200), Ok(()));
    assert_eq!(check_status(404), Err(ApiError::Status(404)));
    assert_eq!(check_status(429), Err(ApiError::Status(429)));
}

#[test]
fn response_with_array_data() {
    let (data, pagination) =
        parse_response(r#"{"data":[{"a":1},{"b":2}],"pagination":{"has_next_page":true}}"#)
            .unwrap();
    assert_eq!(data, vec![json(r#"{"a":1}"#), json(r#"{"b":2}"#)]);
    assert_eq!(pagination, json(r#"{"has_next_page":true}"#));
    assert!(has_next_page(&pagination));
}

#[test]
fn response_with_single_data() {
    let (data, pagination) = parse_response(r#"{"data":{"mal_id":5}}"#).unwrap();
    assert_eq!(data, vec![json(r#"{"mal_id":5}"#)]);
    assert_eq!(pagination, Value::Null);
    assert!(!has_next_page(&pagination));
}

#[test]
fn response_with_empty_array() {
    let (data, _) = parse_response(r#"{"data":[]}"#).unwrap();
    assert!(data.is_empty());
}

#[test]
fn response_errors() {
    assert_eq!(parse_response("not json").unwrap_err(), ApiError::Json);
    assert_eq!(parse_response(r#"{"pagination":{}}"#).unwrap_err(), ApiError::DataNotFound);
    assert_eq!(parse_response(r#"{"data":null}"#).unwrap_err(), ApiError::DataNotFound);
    assert_eq!(parse_response("null").unwrap_err(), ApiError::DataNotFound);
    assert_eq!(parse_response("[1,2]").unwrap_err(), ApiError::NotAnObject);
    assert_eq!(parse_response("5").unwrap_err(), ApiError::NotAnObject);
}

#[test]
fn read_response_checks_status_first() {
    assert_eq!(read_response(500, r#"{"data":[1]}"#).unwrap_err(), ApiError::Status(500));
    assert_eq!(read_response(200, r#"{"data":[1]}"#).unwrap().0, vec![json("1")]);
}

#[test]
fn next_page_flag() {
    assert!(has_next_page(&json(r#"{"has_next_page":true,"last_visible_page":3}"#)));
    assert!(!has_next_page(&json(r#"{"has_next_page":false}"#)));
    assert!(!has_next_page(&json(r#"{"has_next_page":"true"}"#)));
    assert!(!has_next_page(&json(r#"{}"#)));
    assert!(!has_next_page(&Value::Null));
}

#[test]
fn crawler_collects_pages_in_order() {
    let mut crawler: PageCrawler<u32> = PageCrawler::new("https://api/seasons/2020/fall");
    assert!(!crawler.is_finished());
    assert_eq!(crawler.page(), 1);
    assert_eq!(crawler.next_url(), "https://api/seasons/2020/fall");
    crawler.on_page(vec![1, 2], true);
    assert_eq!(crawler.page(), 2);
    assert_eq!(crawler.next_url(), "https://api/seasons/2020/fall?page=2");
    crawler.on_page(vec![], true);
    assert_eq!(crawler.next_url(), "https://api/seasons/2020/fall?page=3");
    crawler.on_page(vec![3], false);
    assert!(crawler.is_finished());
    assert_eq!(crawler.into_list(), vec![1, 2, 3]);
}

#[test]
fn crawler_single_page() {
    let mut crawler: PageCrawler<&str> = PageCrawler::new("u");
    crawler.on_page(vec!["x"], false);
    assert!(crawler.is_finished());
    assert_eq!(crawler.into_list(), vec!["x"]);
}

#[test]
fn endpoint_urls() {
    assert_eq!(anime_api_url("https://api", 21, "characters"), "https://api/anime/21/characters");
    assert_eq!(anime_api_url("https://api", 5114, "staff"), "https://api/anime/5114/staff");
    assert_eq!(anime_api_url("b", -3, "x"), "b/anime/-3/x");
    assert_eq!(character_url("https://api", 417), "https://api/characters/417");
    assert_eq!(season_url("https://api", "2023", Season::Fall), "https://api/seasons/2023/fall");
    assert_eq!(season_url("b", "1999", Season::Winter), "b/seasons/1999/winter");
}

fn cast(id: i64) -> CharacterCast {
    CharacterCast {
        character: Character { mal_id: id, url: format!("https://x/character/{id}") },
        voice_actors: vec![],
    }
}

#[test]
fn pending_characters_skip_fetched() {
    let bridge = AniCharaBridge { mal_id: 1, characters: vec![cast(10), cast(11), cast(12), cast(11)] };
    assert_eq!(pending_characters(&bridge, &vec![11]), vec![10, 12]);
    assert_eq!(pending_characters(&bridge, &vec![]), vec![10, 11, 12, 11]);
    assert_eq!(pending_characters(&bridge, &vec![10, 11, 12]), Vec::<i64>::new());
    assert!(is_fetched(&vec![1, 2, 3], 2));
    assert!(!is_fetched(&vec![1, 2, 3], 4));
    assert!(!is_fetched(&vec![], 4));
}

#[test]
fn raw_documents_only_with_data() {
    let none: Option<AnimeCharacters> = raw_document(9, vec![]);
    assert!(none.is_none());
    let some: Option<AnimeCharacters> = raw_document(9, vec![Value::Bool(false)]);
    let doc = some.unwrap();
    assert_eq!(doc.mal_id, 9);
    assert_eq!(doc.characters, vec![Value::Bool(false)]);
}

#[test]
fn lost_casts_are_listed_in_order() {
    let ids = vec![Some(5), Some(1), None, Some(7), Some(3), Some(9)];
    assert_eq!(lost_ids(&ids, &vec![1, 9], 10), vec![5, 7, 3]);
    assert_eq!(lost_ids(&ids, &vec![1, 9], 4), vec![5, 7]);
    assert_eq!(lost_ids(&ids, &vec![1, 9], 3), vec![5]);
    assert_eq!(lost_ids(&ids, &vec![], 0), Vec::<i64>::new());
    assert_eq!(lost_ids(&vec![], &vec![2], 4), Vec::<i64>::new());
}

#[test]
fn id_lists_parse() {
    assert_eq!(parse_id_list("[3, 1, 2]"), Some(vec![3, 1, 2]));
    assert_eq!(parse_id_list("[]"), Some(vec![]));
    assert_eq!(parse_id_list("[1, \"a\"]"), None);
    assert_eq!(parse_id_list("{}"), None);
}
