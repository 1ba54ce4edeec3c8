use kenja_tools::anime_text::{cast_characters, entry_id, AnimeTextMaker, TEXT_BATCH_SIZE};
use kenja_tools::documents::anime_raw::AnimeCharacters;
use kenja_tools::documents::anime_src::{AiredPeriod, AnimeSrc, CharacterSrc};
use serde_json::Value;

fn anime(id: i64) -> AnimeSrc {
    AnimeSrc {
        mal_id: id,
        url: format!("https://x/anime/{id}"),
        images: None,
        media_type: None,
        aired: AiredPeriod { from: None },
        rating: None,
        title: format!("Title {id}"),
        title_english: None,
        title_japanese: None,
        synopsis: None,
        producers: vec![],
        favorites: 0,
    }
}

fn chara(id: i64, name: &str) -> CharacterSrc {
    CharacterSrc {
        mal_id: id,
        url: format!("https://x/character/{id}"),
        images: None,
        name: name.to_string(),
        name_kanji: None,
        about: None,
        favorites: 0,
    }
}

fn json(text: &str) -> Value {
    serde_json::from_str(text).unwrap()
}

#[test]
fn cast_entry_ids() {
    assert_eq!(entry_id(&json(r#"{"character": {"mal_id": 7}, "role": "Main"}"#)), Some(7));
    assert_eq!(entry_id(&json(r#"{"character": {"mal_id": "7"}}"#)), None);
    assert_eq!(entry_id(&json(r#"{"character": {"name": "x"}}"#)), None);
    assert_eq!(entry_id(&json(r#"{"character": 7}"#)), None);
    assert_eq!(entry_id(&json(r#"[1, 2]"#)), None);
}

#[test]
fn cast_characters_in_cast_order() {
    let cast = vec![
        json(r#"{"character": {"mal_id": 3}}"#),
        json(r#"{"character": {"mal_id": 9}}"#),
        json(r#"{"character": null}"#),
        json(r#"{"character": {"mal_id": 1}}"#),
        json(r#"{"character": {"mal_id": 3}}"#),
    ];
    let charas = vec![chara(1, "one"), chara(3, "three"), chara(3, "three again")];
    let names: Vec<String> = cast_characters(&cast, &charas).into_iter().map(|c| c.name).collect();
    assert_eq!(names, vec!["three", "one", "three"]);
}

#[test]
fn texts_are_batched() {
    let casts = vec![AnimeCharacters { mal_id: 1, characters: vec![json(r#"{"character": {"mal_id": 5}}"#)] }];
    let mut run = AnimeTextMaker::new(casts, vec![chara(5, "five")]);
    for i in 1..TEXT_BATCH_SIZE as i64 {
        assert!(run.on_anime(anime(i)).is_none());
    }
    let batch = run.on_anime(anime(1000)).unwrap();
    assert_eq!(batch.len(), TEXT_BATCH_SIZE);
    assert_eq!(batch[0].anime.mal_id, 1);
    assert_eq!(batch[0].characters.len(), 1);
    assert_eq!(batch[0].characters[0].name, "five");
    assert!(batch[1].characters.is_empty());
    assert!(run.on_anime(anime(2000)).is_none());
    let rest = run.finish();
    assert_eq!(rest.len(), 1);
    assert_eq!(rest[0].anime.mal_id, 2000);
}
