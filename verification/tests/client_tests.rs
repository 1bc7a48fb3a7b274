use anime_manga::anime_api::{
    episodes_from_numbers, episodes_url, links_url, search_url, stream_url, Anime, Episode,
};
use anime_manga::api::{
    at_home_url, chapter_feed_url, manga_search_url, Chapter, ChapterAttributes, LangMap, Manga,
    MangaAttributes, PageChapter, PageResponse,
};

fn anime(id: &str, name: &str, eps: u64) -> Anime {
    Anime { id: id.to_string(), name: name.to_string(), episodes: eps }
}

#[test]
fn anime_title_and_info() {
    let a = anime("abc", "Frieren", 28);
    assert_eq!(a.title(), "Frieren");
    assert_eq!(a.info(), "28 eps");
    assert_eq!(anime("x", "", 0).info(), "0 eps");
}

#[test]
fn episode_labels() {
    let e = Episode { number: 3, title: Some("Episode 3".into()), episode_id: "3".into(), filler: None };
    assert_eq!(e.label(), format!("Ep.{:<4} {}", 3, "Episode 3"));
    let e = Episode { number: 12345, title: None, episode_id: "x".into(), filler: Some(true) };
    assert_eq!(e.label(), "Ep.12345 No title");
}

#[test]
fn search_url_encodes_the_query() {
    assert_eq!(search_url("one piece"), "http://localhost:8080/search?q=one%20piece");
    assert_eq!(search_url("a&b=c~_.-"), "http://localhost:8080/search?q=a%26b%3Dc~_.-");
    assert_eq!(search_url("é"), "http://localhost:8080/search?q=%C3%A9");
    assert_eq!(search_url(""), "http://localhost:8080/search?q=");
}

#[test]
fn service_urls() {
    assert_eq!(episodes_url(&anime("s1", "n", 1)), "http://localhost:8080/episodes?id=s1");
    assert_eq!(links_url("s1", "12"), "http://localhost:8080/links?id=s1&episode=12");
    assert_eq!(stream_url("s1", "12"), "http://localhost:8080/stream?id=s1&episode=12");
}

#[test]
fn episodes_from_service_strings() {
    let eps = episodes_from_numbers(&vec!["1".to_string(), "2.5".to_string(), "x".to_string(), "+7".to_string()]);
    let numbers: Vec<u64> = eps.iter().map(|e| e.number).collect();
    assert_eq!(numbers, vec![1, 2, 3, 7]);
    assert_eq!(eps[1].title.as_deref(), Some("Episode 2.5"));
    assert_eq!(eps[2].episode_id, "x");
    assert!(eps.iter().all(|e| e.filler == Some(false)));
    assert!(episodes_from_numbers(&vec![]).is_empty());
}

fn langs(pairs: &[(&str, &str)]) -> LangMap {
    let mut m = LangMap::new();
    for (k, v) in pairs {
        m.insert(k.to_string(), v.to_string());
    }
    m
}

#[test]
fn lang_map_reads_back_writes() {
    let mut m = langs(&[("ja", "ワンピース"), ("en", "One Piece")]);
    assert_eq!(m.get("en"), Some("One Piece"));
    assert_eq!(m.get("ja"), Some("ワンピース"));
    assert_eq!(m.get("fr"), None);
    m.insert("en".to_string(), "ONE PIECE".to_string());
    assert_eq!(m.get("en"), Some("ONE PIECE"));
    assert_eq!(m.get("ja"), Some("ワンピース"));
}

fn manga(title: &[(&str, &str)], desc: Option<&[(&str, &str)]>) -> Manga {
    Manga {
        id: "m1".into(),
        attributes: MangaAttributes {
            title: langs(title),
            description: desc.map(langs),
            status: Some("ongoing".into()),
        },
    }
}

#[test]
fn manga_titles_and_descriptions() {
    let m = manga(&[("en", "Berserk")], Some(&[("en", "Dark")]));
    assert_eq!(m.title(), "Berserk");
    assert_eq!(m.description(), "Dark");
    let m = manga(&[("ja", "ベルセルク")], Some(&[("de", "Dunkel")]));
    assert_eq!(m.title(), "Unknown Title");
    assert_eq!(m.description(), "No description");
    assert_eq!(manga(&[], None).description(), "No description");
}

#[test]
fn chapter_labels() {
    let c = Chapter {
        id: "c".into(),
        attributes: ChapterAttributes { chapter: Some("12".into()), title: Some("Fight".into()), pages: Some(20) },
    };
    assert_eq!(c.label(), "Ch.12 — Fight (20 pages)");
    let c = Chapter { id: "c".into(), attributes: ChapterAttributes { chapter: None, title: None, pages: None } };
    assert_eq!(c.label(), "Ch.? — No title (0 pages)");
}

#[test]
fn mangadex_urls() {
    assert_eq!(manga_search_url("one piece"), "https://api.mangadex.org/manga?title=one piece&limit=10");
    assert_eq!(
        chapter_feed_url("m1"),
        "https://api.mangadex.org/manga/m1/feed?translatedLanguage[]=en&order[chapter]=asc&limit=50"
    );
    assert_eq!(at_home_url("c9"), "https://api.mangadex.org/at-home/server/c9");
}

#[test]
fn page_image_urls() {
    let r = PageResponse {
        chapter: PageChapter { hash: "h1".into(), data: vec!["1.jpg".into(), "2.png".into()] },
        base_url: "https://up.example".into(),
    };
    assert_eq!(
        r.page_urls(),
        vec!["https://up.example/data/h1/1.jpg".to_string(), "https://up.example/data/h1/2.png".to_string()]
    );
}
