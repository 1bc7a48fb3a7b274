use anime_manga::allanime::{
    anime_results, can_decode, can_make_clock_url, clock_url, decode_url, master_link,
    playlist_links, select_source, sort_by_quality, unescape_response, variant_links,
    AvailableEpisodes, ShowEdge, SourceUrl, StreamError, StreamLink,
};

const TABLE: [(&str, char); 4] = [("17", '/'), ("59", 'a'), ("08", '0'), ("05", '=')];

fn link(q: &str, u: &str) -> StreamLink {
    StreamLink { quality: q.to_string(), url: u.to_string() }
}

fn pairs(links: &[StreamLink]) -> Vec<(String, String)> {
    links.iter().map(|l| (l.quality.clone(), l.url.clone())).collect()
}

#[test]
fn decodes_known_codes() {
    for (code, c) in TABLE {
        assert_eq!(decode_url(code), c.to_string());
    }
    // "/clock?id=a" encoded pair by pair
    assert_eq!(decode_url("175b54575b530707515c0559"), "/clock??id=a");
}

#[test]
fn decode_drops_unknown_codes_and_a_lone_last_char() {
    assert_eq!(decode_url("zz5917"), "a/");
    assert_eq!(decode_url("591"), "a");
    assert_eq!(decode_url(""), "");
}

#[test]
fn decode_skips_two_byte_characters() {
    assert!(can_decode("é59"));
    assert_eq!(decode_url("é59"), "a");
}

#[test]
fn decode_refuses_split_characters() {
    assert!(!can_decode("aé"));
    assert!(!can_decode("€"));
    assert!(can_decode("59a"));
    assert!(can_decode("5"));
}

#[test]
fn unescapes_stream_answers() {
    assert_eq!(unescape_response("https:\\u002F\\u002Fx.y\\u002Fz"), "https://x.y/z");
    assert_eq!(unescape_response("a\\\"b\\\\c"), "a\"bc");
    assert!(!unescape_response("\\\\\\u002F\\").contains('\\'));
}

#[test]
fn chooses_default_then_luf_then_first() {
    let src = |n: &str| SourceUrl { source_url: String::new(), source_name: n.to_string() };
    assert_eq!(select_source(&vec![src("S"), src("Luf-Mp4"), src("Default")]).ok(), Some(2));
    assert_eq!(select_source(&vec![src("S"), src("Luf-Mp4"), src("Luf-Mp4")]).ok(), Some(1));
    assert_eq!(select_source(&vec![src("S"), src("T")]).ok(), Some(0));
    assert!(select_source(&vec![]) == Err(StreamError::NoSources));
}

#[test]
fn clock_url_is_made_absolute() {
    let src = "--175b54575b531e5c59";
    assert!(can_make_clock_url(src));
    assert_eq!(clock_url(src), "https://allanime.day/clock.json&da");
    // a decoded absolute URL is used as it is
    let abs = "50" .to_string() + "4c4c48"; // "http"
    assert_eq!(clock_url(&abs), "http");
    assert!(!can_make_clock_url("--aé"));
}

#[test]
fn master_link_is_the_first() {
    assert_eq!(master_link(&vec!["a".to_string(), "b".to_string()]).ok(), Some("a".to_string()));
    assert!(master_link(&vec![]) == Err(StreamError::NoLinks));
}

#[test]
fn error_messages() {
    assert_eq!(StreamError::NoSources.message(), "No sources found");
    assert_eq!(StreamError::NoLinks.message(), "No links found");
}

#[test]
fn search_answer_uses_subtitled_count() {
    let edges = vec![
        ShowEdge {
            id: "x1".into(),
            name: "One".into(),
            available_episodes: AvailableEpisodes { sub: Some(12), dub: Some(3) },
        },
        ShowEdge {
            id: "x2".into(),
            name: "Two".into(),
            available_episodes: AvailableEpisodes { sub: None, dub: Some(5) },
        },
    ];
    let r = anime_results(&edges);
    assert_eq!(r.len(), 2);
    assert_eq!((r[0].id.as_str(), r[0].name.as_str(), r[0].episodes), ("x1", "One", 12));
    assert_eq!((r[1].id.as_str(), r[1].name.as_str(), r[1].episodes), ("x2", "Two", 0));
}

const MASTER: &str = "#EXTM3U\n\
#EXT-X-STREAM-INF:BANDWIDTH=800000,RESOLUTION=640x360\n\
360/index.m3u8\n\
#EXT-X-STREAM-INF:BANDWIDTH=5000000,RESOLUTION=1920x1080,CODECS=\"x\"\n\
https://cdn.example/1080.m3u8\r\n\
#EXT-X-STREAM-INF:BANDWIDTH=2800000,RESOLUTION=1280x720\n\
720/index.m3u8\n";

#[test]
fn playlist_variants_in_order() {
    let found = variant_links(MASTER, "https://h.example/v/master.m3u8");
    assert_eq!(
        pairs(&found),
        vec![
            ("360p".to_string(), "https://h.example/v/360/index.m3u8".to_string()),
            ("1080p".to_string(), "https://cdn.example/1080.m3u8".to_string()),
            ("720p".to_string(), "https://h.example/v/720/index.m3u8".to_string()),
        ]
    );
}

#[test]
fn playlist_links_best_first() {
    let links = playlist_links(MASTER, "https://h.example/v/master.m3u8");
    let q: Vec<&str> = links.iter().map(|l| l.quality.as_str()).collect();
    assert_eq!(q, vec!["1080p", "720p", "360p"]);
}

#[test]
fn playlist_without_variants_falls_back_to_master() {
    let links = playlist_links("#EXTM3U\n#EXTINF:10,\nseg.ts\n", "https://h/m.m3u8");
    assert_eq!(pairs(&links), vec![("auto".to_string(), "https://h/m.m3u8".to_string())]);
    // a tag on the last line has no URL line and gives nothing
    let links = playlist_links("#EXT-X-STREAM-INF:RESOLUTION=1x2", "m");
    assert_eq!(pairs(&links), vec![("auto".to_string(), "m".to_string())]);
}

#[test]
fn playlist_odd_resolutions() {
    let text = "#EXT-X-STREAM-INF:BANDWIDTH=1\na.m3u8\n#EXT-X-STREAM-INF:RESOLUTION=720\nb.m3u8\n";
    let found = variant_links(text, "nodir");
    assert_eq!(
        pairs(&found),
        vec![
            ("unknown".to_string(), "/a.m3u8".to_string()),
            ("720".to_string(), "/b.m3u8".to_string()),
        ]
    );
}

#[test]
fn sort_is_stable_and_best_first() {
    let input = vec![
        link("auto", "a"),
        link("480p", "b"),
        link("1080p", "c"),
        link("480p", "d"),
        link("junk", "e"),
        link("1080pp", "f"),
    ];
    let out = sort_by_quality(input);
    assert_eq!(
        out.iter().map(|l| l.url.as_str()).collect::<Vec<_>>(),
        vec!["c", "f", "b", "d", "a", "e"]
    );
    // sorting again changes nothing
    let again = sort_by_quality(out.clone());
    assert_eq!(pairs(&again), pairs(&out));
}
