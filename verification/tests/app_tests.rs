use anime_manga::anime_api::{Anime, Episode, StreamLink};
use anime_manga::api::{Chapter, ChapterAttributes, LangMap, Manga, MangaAttributes};
use anime_manga::app::{
    anime_categories, manga_categories, Action, App, Key, Mode, Screen, SearchMode,
};

fn manga(id: &str) -> Manga {
    Manga {
        id: id.into(),
        attributes: MangaAttributes { title: LangMap::new(), description: None, status: None },
    }
}

fn chapter(id: &str) -> Chapter {
    Chapter { id: id.into(), attributes: ChapterAttributes { chapter: None, title: None, pages: None } }
}

fn anime(id: &str) -> Anime {
    Anime { id: id.into(), name: format!("show {}", id), episodes: 3 }
}

fn episode(id: &str) -> Episode {
    Episode { number: 1, title: None, episode_id: id.into(), filler: None }
}

fn link(q: &str, u: &str) -> StreamLink {
    StreamLink { quality: q.into(), url: u.into() }
}

#[test]
fn starts_on_the_main_menu() {
    let app = App::new();
    assert!(matches!(app.screen, Screen::MainMenu));
    assert!(matches!(app.mode, Mode::Manga));
    assert!(matches!(app.search_mode, SearchMode::Browse));
    assert_eq!(app.status, "Type to search, Enter to confirm");
    assert!(!app.should_quit);
    assert_eq!(app.spinner(), "⠋");
}

#[test]
fn spinner_cycles_every_ten_ticks() {
    let mut app = App::new();
    let frames = ["⠋", "⠙", "⠹", "⠸", "⠼", "⠴", "⠦", "⠧", "⠇", "⠏"];
    for t in 0..25u64 {
        app.tick = t;
        assert_eq!(app.spinner(), frames[(t % 10) as usize]);
    }
}

#[test]
fn categories_and_wraparound() {
    let m = manga_categories();
    let a = anime_categories();
    assert_eq!(m.len(), 12);
    assert_eq!(a.len(), 12);
    assert_eq!((m[0].label, m[0].query), ("Trending", "one piece"));
    assert_eq!((a[2].label, a[2].query), ("Top Rated", "fullmetal alchemist"));
    let mut app = App::new();
    app.category_selected = 13;
    assert_eq!(app.selected_category().query, "naruto");
    app.mode = Mode::Anime;
    app.category_selected = 11;
    assert_eq!(app.selected_category().label, "Isekai");
}

#[test]
fn list_moves_stop_at_the_ends() {
    let mut app = App::new();
    app.screen = Screen::Results;
    app.results = vec![manga("a"), manga("b")];
    app.move_up();
    assert_eq!(app.selected, 0);
    app.move_down();
    app.move_down();
    assert_eq!(app.selected, 1);
    assert_eq!(app.selected_manga_id(), Some("b"));
    app.move_up();
    assert_eq!(app.selected, 0);
    // other screens do not move
    app.screen = Screen::MainMenu;
    app.move_down();
    assert_eq!(app.selected, 0);
}

#[test]
fn down_then_up_returns() {
    let mut app = App::new();
    app.screen = Screen::Chapters;
    app.chapters = vec![chapter("1"), chapter("2"), chapter("3")];
    app.chapter_selected = 1;
    app.move_down();
    app.move_up();
    assert_eq!(app.chapter_selected, 1);
    assert_eq!(app.selected_chapter_id(), Some("2"));
}

#[test]
fn selections_off_the_list_give_nothing() {
    let mut app = App::new();
    app.selected = 3;
    app.anime_selected = 1;
    app.episode_selected = 0;
    assert_eq!(app.selected_manga_id(), None);
    assert!(app.selected_anime().is_none());
    assert_eq!(app.selected_episode_id(), None);
    app.episodes = vec![episode("e1")];
    assert_eq!(app.selected_episode_id(), Some("e1"));
    app.anime_results = vec![anime("0"), anime("1")];
    assert_eq!(app.selected_anime().map(|a| a.id.as_str()), Some("1"));
}

#[test]
fn main_menu_keys() {
    let mut app = App::new();
    assert!(matches!(app.handle_key(Key::Right), Action::Nothing));
    assert!(matches!(app.mode, Mode::Anime));
    app.handle_key(Key::Left);
    assert!(matches!(app.mode, Mode::Manga));
    app.handle_key(Key::Enter);
    assert!(matches!(app.screen, Screen::Search));
    assert_eq!(app.search_input, "");
    app.handle_key(Key::Esc);
    assert!(matches!(app.screen, Screen::MainMenu));
    app.handle_key(Key::Char('q'));
    assert!(app.should_quit);
}

#[test]
fn typing_and_searching() {
    let mut app = App::new();
    app.handle_key(Key::Enter);
    for c in "naruto".chars() {
        app.handle_key(Key::Char(c));
    }
    assert!(matches!(app.search_mode, SearchMode::Query));
    app.handle_key(Key::Backspace);
    assert_eq!(app.search_input, "narut");
    match app.handle_key(Key::Enter) {
        Action::SearchManga(q) => assert_eq!(q, "narut"),
        _ => panic!("expected a manga search"),
    }
    assert_eq!(app.status, "Searching...");
    app.manga_search_done(Ok(vec![manga("x"), manga("y")]));
    assert!(matches!(app.screen, Screen::Results));
    assert_eq!(app.selected, 0);
    assert_eq!(app.status, "↑↓ navigate  Enter select  Esc back");
}

#[test]
fn browsing_categories() {
    let mut app = App::new();
    app.mode = Mode::Anime;
    app.handle_key(Key::Enter);
    app.handle_key(Key::Down);
    app.handle_key(Key::Right);
    assert_eq!(app.category_selected, 5);
    app.handle_key(Key::Down);
    app.handle_key(Key::Down);
    assert_eq!(app.category_selected, 9);
    app.handle_key(Key::Up);
    app.handle_key(Key::Left);
    assert_eq!(app.category_selected, 4);
    match app.handle_key(Key::Enter) {
        Action::SearchAnime(q) => assert_eq!(q, "romance"),
        _ => panic!("expected an anime search"),
    }
}

#[test]
fn tab_twice_is_no_change() {
    let mut app = App::new();
    app.handle_key(Key::Enter);
    app.handle_key(Key::Tab);
    assert!(matches!(app.search_mode, SearchMode::Query));
    app.handle_key(Key::Tab);
    assert!(matches!(app.search_mode, SearchMode::Browse));
}

#[test]
fn empty_query_leaves_the_program() {
    let mut app = App::new();
    app.handle_key(Key::Enter);
    app.handle_key(Key::Tab);
    assert!(matches!(app.handle_key(Key::Enter), Action::Exit));
}

#[test]
fn chapters_and_pages_flow() {
    let mut app = App::new();
    app.screen = Screen::Results;
    app.results = vec![manga("m7")];
    match app.handle_key(Key::Enter) {
        Action::LoadChapters(id) => assert_eq!(id, "m7"),
        _ => panic!("expected chapters to load"),
    }
    app.chapters_done(Ok(vec![chapter("c1"), chapter("c2")]));
    assert!(matches!(app.screen, Screen::Chapters));
    assert_eq!(app.status, "↑↓ to move, Enter to read, Esc to go back");
    app.handle_key(Key::Down);
    match app.handle_key(Key::Enter) {
        Action::LoadPages(id) => assert_eq!(id, "c2"),
        _ => panic!("expected pages to load"),
    }
    assert!(matches!(app.screen, Screen::Loading));
    app.pages_done(Ok(vec!["u1".into(), "u2".into()]));
    assert_eq!((app.total_pages, app.loaded_pages, app.current_page), (2, 0, 0));
    app.downloading_page(1);
    assert_eq!(app.status, "Downloading page 2/2...");
    app.page_saved();
    assert_eq!(app.loaded_pages, 1);
    app.page_failed(1, "timeout");
    assert_eq!(app.status, "Error on page 2: timeout");
    app.opening_reader();
    assert_eq!(app.status, "Opening feh...");
    app.reader_closed();
    assert!(matches!(app.screen, Screen::Chapters));
    app.pages_done(Err("boom".into()));
    assert_eq!(app.status, "Error: boom");
}

#[test]
fn episodes_links_and_playing() {
    let mut app = App::new();
    app.mode = Mode::Anime;
    app.screen = Screen::Results;
    app.anime_results = vec![anime("s1")];
    match app.handle_key(Key::Enter) {
        Action::LoadEpisodes(a) => assert_eq!(a.id, "s1"),
        _ => panic!("expected episodes to load"),
    }
    app.episodes_done(Ok(vec![episode("1"), episode("2")]));
    assert!(matches!(app.screen, Screen::Episodes));
    assert_eq!(app.status, "↑↓ to move, Enter to watch, Esc to go back");
    app.handle_key(Key::Down);
    match app.handle_key(Key::Enter) {
        Action::LoadLinks(show, ep) => assert_eq!((show.as_str(), ep.as_str()), ("s1", "2")),
        _ => panic!("expected links to load"),
    }
    assert_eq!(app.status, "Fetching qualities for episode 2...");
    // one quality plays at once
    match app.links_done(Ok(vec![link("720p", "u720")])) {
        Action::Play(u) => assert_eq!(u, "u720"),
        _ => panic!("expected to play"),
    }
    assert_eq!(app.status, "▶ Playing at 720p — only quality available");
    // several are offered
    assert!(matches!(app.links_done(Ok(vec![link("1080p", "a"), link("480p", "b")])), Action::Nothing));
    assert!(matches!(app.screen, Screen::QualityPick));
    app.handle_key(Key::Down);
    app.handle_key(Key::Down);
    assert_eq!(app.quality_selected, 1);
    match app.handle_key(Key::Enter) {
        Action::Play(u) => assert_eq!(u, "b"),
        _ => panic!("expected to play"),
    }
    assert!(matches!(app.screen, Screen::Episodes));
    assert_eq!(app.status, "▶ Playing at 480p — select another episode");
    app.links_done(Err("down".into()));
    assert_eq!(app.status, "Error: down");
}

#[test]
fn escape_goes_back() {
    let mut app = App::new();
    app.screen = Screen::QualityPick;
    app.handle_key(Key::Esc);
    assert!(matches!(app.screen, Screen::Episodes));
    assert_eq!(app.status, "↑↓ navigate  Enter watch  Esc back");
    app.handle_key(Key::Esc);
    assert!(matches!(app.screen, Screen::Results));
    assert_eq!(app.status, "↑↓ to move, Enter to select, Esc to go back");
    app.handle_key(Key::Esc);
    assert!(matches!(app.screen, Screen::Search));
    app.screen = Screen::Loading;
    assert!(matches!(app.handle_key(Key::Esc), Action::Nothing));
    assert!(matches!(app.screen, Screen::Loading));
}

#[test]
fn search_errors_are_shown() {
    let mut app = App::new();
    app.anime_search_done(Err("timed out".into()));
    assert_eq!(app.status, "Error: timed out");
    assert!(matches!(app.screen, Screen::MainMenu));
    app.anime_search_done(Ok(vec![anime("a")]));
    assert!(matches!(app.screen, Screen::Results));
}
