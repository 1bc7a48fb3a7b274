//! The state of the terminal browser: screens, mode, categories, lists and
//! selections, and how each key press changes it and what it asks the
//! program around it to fetch or play.

use vstd::prelude::*;
use crate::anime_api::{Anime, Episode, StreamLink};
use crate::api::{Chapter, Manga};
use crate::text::decimal;

verus! {

/// The screen on show.
#[derive(Clone, Copy, PartialEq, Eq, Structural)]
pub enum Screen {
    MainMenu,
    Search,
    Results,
    Chapters,
    Episodes,
    Loading,
    QualityPick,
    Reader,
}

/// What the browser looks for.
#[derive(Clone, Copy, PartialEq, Eq, Structural)]
pub enum Mode {
    Manga,
    Anime,
}

/// A browsable category: its label, icon and the query it searches.
#[derive(Clone, Copy)]
pub struct Category {
    pub label: &'static str,
    pub icon: &'static str,
    pub query: &'static str,
}

/// Whether the search screen takes typed text or browses categories.
#[derive(Clone, Copy, PartialEq, Eq, Structural)]
pub enum SearchMode {
    Query,
    Browse,
}

/// The label, icon and query of a category.
pub open spec fn category_view(c: Category) -> (Seq<char>, Seq<char>, Seq<char>) {
    (c.label@, c.icon@, c.query@)
}

/// The views of a list of categories.
pub open spec fn category_views(v: Seq<Category>) -> Seq<(Seq<char>, Seq<char>, Seq<char>)> {
    v.map_values(|c: Category| category_view(c))
}

/// The manga categories.
pub open spec fn manga_category_table() -> Seq<(Seq<char>, Seq<char>, Seq<char>)> {
    seq![
        ("Trending"@, "🔥"@, "one piece"@),
        ("Most Popular"@, "⭐"@, "naruto"@),
        ("Action"@, "⚔️"@, "action"@),
        ("Romance"@, "💕"@, "romance"@),
        ("Fantasy"@, "🧙"@, "fantasy"@),
        ("Horror"@, "👻"@, "horror"@),
        ("Sci-Fi"@, "🚀"@, "sci-fi"@),
        ("Slice of Life"@, "🌸"@, "slice of life"@),
        ("Sports"@, "⚽"@, "sports"@),
        ("Mecha"@, "🤖"@, "mecha"@),
        ("Mystery"@, "🔍"@, "mystery"@),
        ("Comedy"@, "😂"@, "comedy"@),
    ]
}

/// The anime categories.
pub open spec fn anime_category_table() -> Seq<(Seq<char>, Seq<char>, Seq<char>)> {
    seq![
        ("Trending"@, "🔥"@, "attack on titan"@),
        ("Most Popular"@, "⭐"@, "naruto"@),
        ("Top Rated"@, "🏆"@, "fullmetal alchemist"@),
        ("Action"@, "⚔️"@, "action"@),
        ("Romance"@, "💕"@, "romance"@),
        ("Fantasy"@, "🧙"@, "fantasy"@),
        ("Horror"@, "👻"@, "horror"@),
        ("Sci-Fi"@, "🚀"@, "sci-fi"@),
        ("Slice of Life"@, "🌸"@, "slice of life"@),
        ("Sports"@, "⚽"@, "sports"@),
        ("Mecha"@, "🤖"@, "mecha"@),
        ("Isekai"@, "🌀"@, "isekai"@),
    ]
}

/// The categories of a mode.
pub open spec fn category_table(mode: Mode) -> Seq<(Seq<char>, Seq<char>, Seq<char>)> {
    match mode {
        Mode::Manga => manga_category_table(),
        Mode::Anime => anime_category_table(),
    }
}

/// The manga categories (exec).
pub fn manga_categories() -> (v: Vec<Category>)
    ensures
        category_views(v@) == manga_category_table(),
{
    let mut v: Vec<Category> = Vec::new();
    v.push(Category { label: "Trending", icon: "🔥", query: "one piece" });
    v.push(Category { label: "Most Popular", icon: "⭐", query: "naruto" });
    v.push(Category { label: "Action", icon: "⚔️", query: "action" });
    v.push(Category { label: "Romance", icon: "💕", query: "romance" });
    v.push(Category { label: "Fantasy", icon: "🧙", query: "fantasy" });
    v.push(Category { label: "Horror", icon: "👻", query: "horror" });
    v.push(Category { label: "Sci-Fi", icon: "🚀", query: "sci-fi" });
    v.push(Category { label: "Slice of Life", icon: "🌸", query: "slice of life" });
    v.push(Category { label: "Sports", icon: "⚽", query: "sports" });
    v.push(Category { label: "Mecha", icon: "🤖", query: "mecha" });
    v.push(Category { label: "Mystery", icon: "🔍", query: "mystery" });
    v.push(Category { label: "Comedy", icon: "😂", query: "comedy" });
    assert(category_views(v@) =~= manga_category_table());
    v
}

/// The anime categories (exec).
pub fn anime_categories() -> (v: Vec<Category>)
    ensures
        category_views(v@) == anime_category_table(),
{
    let mut v: Vec<Category> = Vec::new();
    v.push(Category { label: "Trending", icon: "🔥", query: "attack on titan" });
    v.push(Category { label: "Most Popular", icon: "⭐", query: "naruto" });
    v.push(Category { label: "Top Rated", icon: "🏆", query: "fullmetal alchemist" });
    v.push(Category { label: "Action", icon: "⚔️", query: "action" });
    v.push(Category { label: "Romance", icon: "💕", query: "romance" });
    v.push(Category { label: "Fantasy", icon: "🧙", query: "fantasy" });
    v.push(Category { label: "Horror", icon: "👻", query: "horror" });
    v.push(Category { label: "Sci-Fi", icon: "🚀", query: "sci-fi" });
    v.push(Category { label: "Slice of Life", icon: "🌸", query: "slice of life" });
    v.push(Category { label: "Sports", icon: "⚽", query: "sports" });
    v.push(Category { label: "Mecha", icon: "🤖", query: "mecha" });
    v.push(Category { label: "Isekai", icon: "🌀", query: "isekai" });
    assert(category_views(v@) =~= anime_category_table());
    v
}

} // verus!

verus! {

/// The whole state of the browser.
pub struct App {
    pub screen: Screen,
    pub mode: Mode,
    pub search_input: String,
    pub results: Vec<Manga>,
    pub selected: usize,
    pub chapters: Vec<Chapter>,
    pub chapter_selected: usize,
    pub pages: Vec<String>,
    pub current_page: usize,
    pub loaded_pages: usize,
    pub total_pages: usize,
    pub tick: u64,
    pub status: String,
    pub should_quit: bool,
    pub search_mode: SearchMode,
    pub category_selected: usize,
    pub anime_results: Vec<Anime>,
    pub anime_selected: usize,
    pub episodes: Vec<Episode>,
    pub episode_selected: usize,
    pub stream_links: Vec<StreamLink>,
    pub quality_selected: usize,
}

/// The spinner frame for a tick count.
pub open spec fn spinner_frame(i: int) -> Seq<char> {
    if i == 0 {
        "⠋"@
    } else if i == 1 {
        "⠙"@
    } else if i == 2 {
        "⠹"@
    } else if i == 3 {
        "⠸"@
    } else if i == 4 {
        "⠼"@
    } else if i == 5 {
        "⠴"@
    } else if i == 6 {
        "⠦"@
    } else if i == 7 {
        "⠧"@
    } else if i == 8 {
        "⠇"@
    } else {
        "⠏"@
    }
}

/// A selection moved one up: it stops at the top.
pub open spec fn step_up(x: usize) -> usize {
    if x > 0 {
        (x - 1) as usize
    } else {
        x
    }
}

/// A selection moved one down in a list of `len` items: it stops at the
/// last item.
pub open spec fn step_down(x: usize, len: nat) -> usize {
    if x + 1 < len && x < usize::MAX {
        (x + 1) as usize
    } else {
        x
    }
}

/// One down, exec.
fn next_index(x: usize, len: usize) -> (r: usize)
    ensures
        r == step_down(x, len as nat),
{
    if len > 0 && x < len - 1 {
        x + 1
    } else {
        x
    }
}

/// One up, exec.
fn prev_index(x: usize) -> (r: usize)
    ensures
        r == step_up(x),
{
    if x > 0 {
        x - 1
    } else {
        x
    }
}

/// The state after an up key on a list screen: the selection of the list
/// on show moves one up; other screens stay as they are.
pub open spec fn moved_up(a: App) -> App {
    match a.screen {
        Screen::Results => match a.mode {
            Mode::Manga => App { selected: step_up(a.selected), ..a },
            Mode::Anime => App { anime_selected: step_up(a.anime_selected), ..a },
        },
        Screen::Chapters => App { chapter_selected: step_up(a.chapter_selected), ..a },
        Screen::Episodes => App { episode_selected: step_up(a.episode_selected), ..a },
        _ => a,
    }
}

/// The state after a down key on a list screen: the selection of the list
/// on show moves one down, never past the last item.
pub open spec fn moved_down(a: App) -> App {
    match a.screen {
        Screen::Results => match a.mode {
            Mode::Manga => App { selected: step_down(a.selected, a.results@.len()), ..a },
            Mode::Anime => App {
                anime_selected: step_down(a.anime_selected, a.anime_results@.len()),
                ..a
            },
        },
        Screen::Chapters => App {
            chapter_selected: step_down(a.chapter_selected, a.chapters@.len()),
            ..a
        },
        Screen::Episodes => App {
            episode_selected: step_down(a.episode_selected, a.episodes@.len()),
            ..a
        },
        _ => a,
    }
}

/// The status line shown when the browser is ready for a search.
pub open spec fn search_hint() -> Seq<char> {
    "Type to search, Enter to confirm"@
}

impl App {
    /// The state at start: main menu, manga mode, browsing categories,
    /// nothing loaded.
    pub fn new() -> (app: Self)
        ensures
            app.screen == Screen::MainMenu,
            app.mode == Mode::Manga,
            app.search_input@ == Seq::<char>::empty(),
            app.results@.len() == 0,
            app.selected == 0,
            app.chapters@.len() == 0,
            app.chapter_selected == 0,
            app.pages@.len() == 0,
            app.current_page == 0,
            app.loaded_pages == 0,
            app.total_pages == 0,
            app.tick == 0,
            app.status@ == search_hint(),
            !app.should_quit,
            app.anime_results@.len() == 0,
            app.anime_selected == 0,
            app.episodes@.len() == 0,
            app.episode_selected == 0,
            app.search_mode == SearchMode::Browse,
            app.category_selected == 0,
            app.stream_links@.len() == 0,
            app.quality_selected == 0,
    {
        App {
            screen: Screen::MainMenu,
            mode: Mode::Manga,
            search_input: String::new(),
            results: Vec::new(),
            selected: 0,
            chapters: Vec::new(),
            chapter_selected: 0,
            pages: Vec::new(),
            current_page: 0,
            loaded_pages: 0,
            total_pages: 0,
            tick: 0,
            status: "Type to search, Enter to confirm".to_owned(),
            should_quit: false,
            anime_results: Vec::new(),
            anime_selected: 0,
            episodes: Vec::new(),
            episode_selected: 0,
            search_mode: SearchMode::Browse,
            category_selected: 0,
            stream_links: Vec::new(),
            quality_selected: 0,
        }
    }

    /// The spinner frame for the current tick; frames repeat every ten ticks.
    pub fn spinner(&self) -> (s: &str)
        ensures
            s@ == spinner_frame((self.tick as usize) as int % 10),
    {
        let i = (self.tick as usize) % 10;
        if i == 0 {
            "⠋"
        } else if i == 1 {
            "⠙"
        } else if i == 2 {
            "⠹"
        } else if i == 3 {
            "⠸"
        } else if i == 4 {
            "⠼"
        } else if i == 5 {
            "⠴"
        } else if i == 6 {
            "⠦"
        } else if i == 7 {
            "⠧"
        } else if i == 8 {
            "⠇"
        } else {
            "⠏"
        }
    }

    /// Moves the selection of the list on show one up; other screens are
    /// left as they are.
    pub fn move_up(&mut self)
        ensures
            *final(self) == moved_up(*old(self)),
    {
        match self.screen {
            Screen::Results => match self.mode {
                Mode::Manga => {
                    self.selected = prev_index(self.selected);
                },
                Mode::Anime => {
                    self.anime_selected = prev_index(self.anime_selected);
                },
            },
            Screen::Chapters => {
                self.chapter_selected = prev_index(self.chapter_selected);
            },
            Screen::Episodes => {
                self.episode_selected = prev_index(self.episode_selected);
            },
            _ => {},
        }
    }

    /// Moves the selection of the list on show one down, never past its last
    /// item; other screens are left as they are.
    pub fn move_down(&mut self)
        ensures
            *final(self) == moved_down(*old(self)),
    {
        match self.screen {
            Screen::Results => match self.mode {
                Mode::Manga => {
                    self.selected = next_index(self.selected, self.results.len());
                },
                Mode::Anime => {
                    self.anime_selected = next_index(self.anime_selected, self.anime_results.len());
                },
            },
            Screen::Chapters => {
                self.chapter_selected = next_index(self.chapter_selected, self.chapters.len());
            },
            Screen::Episodes => {
                self.episode_selected = next_index(self.episode_selected, self.episodes.len());
            },
            _ => {},
        }
    }

    /// The id of the selected manga, if the selection is in the list.
    pub fn selected_manga_id(&self) -> (r: Option<&str>)
        ensures
            match r {
                Some(id) => self.selected < self.results@.len() && id@
                    == self.results@[self.selected as int].id@,
                None => self.selected >= self.results@.len(),
            },
    {
        if self.selected < self.results.len() {
            Some(self.results[self.selected].id.as_str())
        } else {
            None
        }
    }

    /// The id of the selected chapter, if the selection is in the list.
    pub fn selected_chapter_id(&self) -> (r: Option<&str>)
        ensures
            match r {
                Some(id) => self.chapter_selected < self.chapters@.len() && id@
                    == self.chapters@[self.chapter_selected as int].id@,
                None => self.chapter_selected >= self.chapters@.len(),
            },
    {
        if self.chapter_selected < self.chapters.len() {
            Some(self.chapters[self.chapter_selected].id.as_str())
        } else {
            None
        }
    }

    /// The selected anime, if the selection is in the list.
    pub fn selected_anime(&self) -> (r: Option<&Anime>)
        ensures
            match r {
                Some(a) => self.anime_selected < self.anime_results@.len() && *a
                    == self.anime_results@[self.anime_selected as int],
                None => self.anime_selected >= self.anime_results@.len(),
            },
    {
        if self.anime_selected < self.anime_results.len() {
            Some(&self.anime_results[self.anime_selected])
        } else {
            None
        }
    }

    /// The id of the selected episode, if the selection is in the list.
    pub fn selected_episode_id(&self) -> (r: Option<&str>)
        ensures
            match r {
                Some(id) => self.episode_selected < self.episodes@.len() && id@
                    == self.episodes@[self.episode_selected as int].episode_id@,
                None => self.episode_selected >= self.episodes@.len(),
            },
    {
        if self.episode_selected < self.episodes.len() {
            Some(self.episodes[self.episode_selected].episode_id.as_str())
        } else {
            None
        }
    }

    /// The categories of the current mode.
    pub fn categories(&self) -> (v: Vec<Category>)
        ensures
            category_views(v@) == category_table(self.mode),
    {
        match self.mode {
            Mode::Manga => manga_categories(),
            Mode::Anime => anime_categories(),
        }
    }

    /// The selected category; the selection wraps around the list.
    pub fn selected_category(&self) -> (c: Category)
        ensures
            category_view(c) == category_table(self.mode)[self.category_selected as int
                % category_table(self.mode).len() as int],
    {
        let cats = self.categories();
        let n = cats.len();
        assert(category_views(cats@).len() == n);
        let c = cats[self.category_selected % n];
        assert(category_views(cats@)[(self.category_selected % n) as int] == category_view(c));
        c
    }
}

} // verus!

verus! {

/// A key press, as far as the browser tells keys apart.
#[derive(Clone, Copy, PartialEq, Eq, Structural)]
pub enum Key {
    Char(char),
    Esc,
    Enter,
    Tab,
    Backspace,
    Left,
    Right,
    Up,
    Down,
    Other,
}

/// What the program around the browser is asked to do after a key press
/// or a finished request.
pub enum Action {
    /// Nothing to do.
    Nothing,
    /// Leave the program at once.
    Exit,
    /// Search MangaDex for the query.
    SearchManga(String),
    /// Search the anime service for the query.
    SearchAnime(String),
    /// Fetch the chapters of the manga with this id.
    LoadChapters(String),
    /// Fetch the episodes of this show.
    LoadEpisodes(Anime),
    /// Fetch the pages of the chapter with this id, then download and show them.
    LoadPages(String),
    /// Fetch the stream qualities of episode `.1` of show `.0`.
    LoadLinks(String, String),
    /// Play this stream URL.
    Play(String),
}

/// The other mode.
pub open spec fn other_mode(m: Mode) -> Mode {
    match m {
        Mode::Manga => Mode::Anime,
        Mode::Anime => Mode::Manga,
    }
}

/// The other search mode.
pub open spec fn other_search_mode(m: SearchMode) -> SearchMode {
    match m {
        SearchMode::Query => SearchMode::Browse,
        SearchMode::Browse => SearchMode::Query,
    }
}

/// `b` is `a` with only the status changed, to `msg`.
pub open spec fn status_set(a: App, b: App, msg: Seq<char>) -> bool {
    b == App { status: b.status, ..a } && b.status@ == msg
}

/// The status after a failed request.
pub open spec fn error_status(err: Seq<char>) -> Seq<char> {
    "Error: "@ + err
}

/// The status on the lists of chapters and episodes when going back to them.
pub open spec fn list_back_hint() -> Seq<char> {
    "↑↓ to move, Enter to select, Esc to go back"@
}

/// The category selection after an arrow key while browsing categories
/// (four categories per row).
pub open spec fn category_moved(cs: usize, key: Key, len: nat) -> usize {
    match key {
        Key::Left => if cs > 0 {
            (cs - 1) as usize
        } else {
            cs
        },
        Key::Right => if cs + 1 < len {
            (cs + 1) as usize
        } else {
            cs
        },
        Key::Up => if cs >= 4 {
            (cs - 4) as usize
        } else {
            cs
        },
        Key::Down => if cs + 4 < len {
            (cs + 4) as usize
        } else {
            cs
        },
        _ => cs,
    }
}

/// The query that Enter on the search screen searches: the typed text, or
/// the selected category's query while browsing.
pub open spec fn search_query(a: App) -> Seq<char> {
    match a.search_mode {
        SearchMode::Query => a.search_input@,
        SearchMode::Browse => category_table(a.mode)[a.category_selected as int % category_table(
            a.mode,
        ).len() as int].2,
    }
}

/// A key on the main menu: `q` or Esc quits, Left and Right switch the mode,
/// Enter opens an empty search.
pub open spec fn main_menu_step(a: App, key: Key, b: App, act: Action) -> bool {
    &&& act is Nothing
    &&& if key == Key::Char('q') || key == Key::Esc {
        b == App { should_quit: true, ..a }
    } else if key == Key::Left || key == Key::Right {
        b == App { mode: other_mode(a.mode), ..a }
    } else if key == Key::Enter {
        &&& b == App { screen: Screen::Search, search_input: b.search_input, status: b.status, ..a }
        &&& b.search_input@ == Seq::<char>::empty()
        &&& b.status@ == search_hint()
    } else {
        b == a
    }
}

/// A key on the search screen.
pub open spec fn search_step(a: App, key: Key, b: App, act: Action) -> bool {
    match key {
        Key::Esc => {
            &&& act is Nothing
            &&& b == App {
                screen: Screen::MainMenu,
                search_mode: SearchMode::Browse,
                search_input: b.search_input,
                ..a
            }
            &&& b.search_input@ == Seq::<char>::empty()
        },
        Key::Tab => act is Nothing && b == App {
            search_mode: other_search_mode(a.search_mode),
            ..a
        },
        Key::Char(c) => {
            &&& act is Nothing
            &&& b == App { search_mode: SearchMode::Query, search_input: b.search_input, ..a }
            &&& b.search_input@ == a.search_input@.push(c)
        },
        Key::Backspace => {
            &&& act is Nothing
            &&& b == App { search_mode: SearchMode::Query, search_input: b.search_input, ..a }
            &&& b.search_input@ == if a.search_input@.len() > 0 {
                a.search_input@.drop_last()
            } else {
                a.search_input@
            }
        },
        Key::Left | Key::Right | Key::Up | Key::Down => {
            &&& act is Nothing
            &&& b == if a.search_mode == SearchMode::Browse {
                App {
                    category_selected: category_moved(
                        a.category_selected,
                        key,
                        category_table(a.mode).len(),
                    ),
                    ..a
                }
            } else {
                a
            }
        },
        Key::Enter => if search_query(a).len() == 0 {
            act is Exit && b == a
        } else {
            &&& status_set(a, b, "Searching..."@)
            &&& match a.mode {
                Mode::Manga => act matches Action::SearchManga(q) && q@ == search_query(a),
                Mode::Anime => act matches Action::SearchAnime(q) && q@ == search_query(a),
            }
        },
        Key::Other => act is Nothing && b == a,
    }
}

/// A key on the result list.
pub open spec fn results_step(a: App, key: Key, b: App, act: Action) -> bool {
    match key {
        Key::Esc => act is Nothing && b == App {
            screen: Screen::Search,
            status: b.status,
            ..a
        } && b.status@ == search_hint(),
        Key::Up => act is Nothing && b == moved_up(a),
        Key::Down => act is Nothing && b == moved_down(a),
        Key::Enter => match a.mode {
            Mode::Manga => if a.selected < a.results@.len() {
                &&& status_set(a, b, "Loading chapters..."@)
                &&& act matches Action::LoadChapters(id) && id@ == a.results@[a.selected as int].id@
            } else {
                act is Nothing && b == a
            },
            Mode::Anime => if a.anime_selected < a.anime_results@.len() {
                &&& status_set(a, b, "Loading episodes..."@)
                &&& act matches Action::LoadEpisodes(show) && show
                    == a.anime_results@[a.anime_selected as int]
            } else {
                act is Nothing && b == a
            },
        },
        _ => act is Nothing && b == a,
    }
}

/// A key on the chapter list.
pub open spec fn chapters_step(a: App, key: Key, b: App, act: Action) -> bool {
    match key {
        Key::Esc => act is Nothing && b == App {
            screen: Screen::Results,
            status: b.status,
            ..a
        } && b.status@ == list_back_hint(),
        Key::Up => act is Nothing && b == moved_up(a),
        Key::Down => act is Nothing && b == moved_down(a),
        Key::Enter => if a.chapter_selected < a.chapters@.len() {
            &&& b == App { screen: Screen::Loading, status: b.status, ..a }
            &&& b.status@ == "Fetching page list..."@
            &&& act matches Action::LoadPages(id) && id@ == a.chapters@[a.chapter_selected as int].id@
        } else {
            act is Nothing && b == a
        },
        _ => act is Nothing && b == a,
    }
}

/// The show whose episodes are listed: the selected search result, or the
/// empty id when the selection is off the list.
pub open spec fn current_show_id(a: App) -> Seq<char> {
    if a.anime_selected < a.anime_results@.len() {
        a.anime_results@[a.anime_selected as int].id@
    } else {
        Seq::<char>::empty()
    }
}

/// A key on the episode list.
pub open spec fn episodes_step(a: App, key: Key, b: App, act: Action) -> bool {
    match key {
        Key::Esc => act is Nothing && b == App {
            screen: Screen::Results,
            status: b.status,
            ..a
        } && b.status@ == list_back_hint(),
        Key::Up => act is Nothing && b == moved_up(a),
        Key::Down => act is Nothing && b == moved_down(a),
        Key::Enter => if a.episode_selected < a.episodes@.len() {
            let ep = a.episodes@[a.episode_selected as int].episode_id@;
            &&& status_set(a, b, "Fetching qualities for episode "@ + ep + "..."@)
            &&& act matches Action::LoadLinks(show, e) && show@ == current_show_id(a) && e@ == ep
        } else {
            act is Nothing && b == a
        },
        _ => act is Nothing && b == a,
    }
}

/// A key on the quality picker.
pub open spec fn quality_step(a: App, key: Key, b: App, act: Action) -> bool {
    match key {
        Key::Esc => act is Nothing && b == App {
            screen: Screen::Episodes,
            status: b.status,
            ..a
        } && b.status@ == "↑↓ navigate  Enter watch  Esc back"@,
        Key::Up => act is Nothing && b == App { quality_selected: step_up(a.quality_selected), ..a },
        Key::Down => act is Nothing && b == App {
            quality_selected: step_down(a.quality_selected, a.stream_links@.len()),
            ..a
        },
        Key::Enter => if a.quality_selected < a.stream_links@.len() {
            let link = a.stream_links@[a.quality_selected as int];
            &&& b == App { screen: Screen::Episodes, status: b.status, ..a }
            &&& b.status@ == "▶ Playing at "@ + link.quality@ + " — select another episode"@
            &&& act matches Action::Play(url) && url@ == link.url@
        } else {
            act is Nothing && b == a
        },
        _ => act is Nothing && b == a,
    }
}

/// What a key press does on each screen; the loading and reader screens
/// take no keys.
pub open spec fn key_step(a: App, key: Key, b: App, act: Action) -> bool {
    match a.screen {
        Screen::MainMenu => main_menu_step(a, key, b, act),
        Screen::Search => search_step(a, key, b, act),
        Screen::Results => results_step(a, key, b, act),
        Screen::Chapters => chapters_step(a, key, b, act),
        Screen::Episodes => episodes_step(a, key, b, act),
        Screen::QualityPick => quality_step(a, key, b, act),
        Screen::Loading | Screen::Reader => act is Nothing && b == a,
    }
}

} // verus!

verus! {

impl App {
    /// Handles a key on the main menu.
    fn key_main_menu(&mut self, key: Key) -> (act: Action)
        requires
            old(self).screen == Screen::MainMenu,
        ensures
            main_menu_step(*old(self), key, *final(self), act),
    {
        match key {
            Key::Char(c) => {
                if c == 'q' {
                    self.should_quit = true;
                }
            },
            Key::Esc => {
                self.should_quit = true;
            },
            Key::Left | Key::Right => {
                self.mode = match self.mode {
                    Mode::Manga => Mode::Anime,
                    Mode::Anime => Mode::Manga,
                };
            },
            Key::Enter => {
                self.screen = Screen::Search;
                self.search_input = String::new();
                self.status = "Type to search, Enter to confirm".to_owned();
            },
            _ => {},
        }
        Action::Nothing
    }

    /// Handles a key on the search screen.
    fn key_search(&mut self, key: Key) -> (act: Action)
        requires
            old(self).screen == Screen::Search,
        ensures
            search_step(*old(self), key, *final(self), act),
    {
        match key {
            Key::Esc => {
                self.screen = Screen::MainMenu;
                self.search_mode = SearchMode::Browse;
                self.search_input = String::new();
                Action::Nothing
            },
            Key::Tab => {
                self.search_mode = match self.search_mode {
                    SearchMode::Query => SearchMode::Browse,
                    SearchMode::Browse => SearchMode::Query,
                };
                Action::Nothing
            },
            Key::Char(c) => {
                self.search_mode = SearchMode::Query;
                crate::text::push_char(&mut self.search_input, c);
                Action::Nothing
            },
            Key::Backspace => {
                self.search_mode = SearchMode::Query;
                let _ = crate::text::pop_char(&mut self.search_input);
                Action::Nothing
            },
            Key::Left => {
                if self.search_mode == SearchMode::Browse && self.category_selected > 0 {
                    self.category_selected = self.category_selected - 1;
                }
                Action::Nothing
            },
            Key::Right => {
                if self.search_mode == SearchMode::Browse {
                    let n = self.categories().len();
                    if n > 0 && self.category_selected < n - 1 {
                        self.category_selected = self.category_selected + 1;
                    }
                }
                Action::Nothing
            },
            Key::Up => {
                if self.search_mode == SearchMode::Browse && self.category_selected >= 4 {
                    self.category_selected = self.category_selected - 4;
                }
                Action::Nothing
            },
            Key::Down => {
                if self.search_mode == SearchMode::Browse {
                    let n = self.categories().len();
                    if n >= 4 && self.category_selected < n - 4 {
                        self.category_selected = self.category_selected + 4;
                    }
                }
                Action::Nothing
            },
            Key::Enter => {
                let query = match self.search_mode {
                    SearchMode::Query => self.search_input.clone(),
                    SearchMode::Browse => self.selected_category().query.to_owned(),
                };
                if query.as_str().is_empty() {
                    return Action::Exit;
                }
                self.status = "Searching...".to_owned();
                match self.mode {
                    Mode::Manga => Action::SearchManga(query),
                    Mode::Anime => Action::SearchAnime(query),
                }
            },
            Key::Other => Action::Nothing,
        }
    }

    /// Handles a key on the result list.
    fn key_results(&mut self, key: Key) -> (act: Action)
        requires
            old(self).screen == Screen::Results,
        ensures
            results_step(*old(self), key, *final(self), act),
    {
        match key {
            Key::Esc => {
                self.screen = Screen::Search;
                self.status = "Type to search, Enter to confirm".to_owned();
                Action::Nothing
            },
            Key::Up => {
                self.move_up();
                Action::Nothing
            },
            Key::Down => {
                self.move_down();
                Action::Nothing
            },
            Key::Enter => match self.mode {
                Mode::Manga => {
                    if self.selected < self.results.len() {
                        let id = self.results[self.selected].id.clone();
                        self.status = "Loading chapters...".to_owned();
                        Action::LoadChapters(id)
                    } else {
                        Action::Nothing
                    }
                },
                Mode::Anime => {
                    if self.anime_selected < self.anime_results.len() {
                        let a = &self.anime_results[self.anime_selected];
                        let show = Anime { id: a.id.clone(), name: a.name.clone(), episodes: a.episodes };
                        self.status = "Loading episodes...".to_owned();
                        Action::LoadEpisodes(show)
                    } else {
                        Action::Nothing
                    }
                },
            },
            _ => Action::Nothing,
        }
    }

    /// Handles a key on the chapter list.
    fn key_chapters(&mut self, key: Key) -> (act: Action)
        requires
            old(self).screen == Screen::Chapters,
        ensures
            chapters_step(*old(self), key, *final(self), act),
    {
        match key {
            Key::Esc => {
                self.screen = Screen::Results;
                self.status = "↑↓ to move, Enter to select, Esc to go back".to_owned();
                Action::Nothing
            },
            Key::Up => {
                self.move_up();
                Action::Nothing
            },
            Key::Down => {
                self.move_down();
                Action::Nothing
            },
            Key::Enter => {
                if self.chapter_selected < self.chapters.len() {
                    let id = self.chapters[self.chapter_selected].id.clone();
                    self.status = "Fetching page list...".to_owned();
                    self.screen = Screen::Loading;
                    Action::LoadPages(id)
                } else {
                    Action::Nothing
                }
            },
            _ => Action::Nothing,
        }
    }

    /// Handles a key on the episode list.
    fn key_episodes(&mut self, key: Key) -> (act: Action)
        requires
            old(self).screen == Screen::Episodes,
        ensures
            episodes_step(*old(self), key, *final(self), act),
    {
        match key {
            Key::Esc => {
                self.screen = Screen::Results;
                self.status = "↑↓ to move, Enter to select, Esc to go back".to_owned();
                Action::Nothing
            },
            Key::Up => {
                self.move_up();
                Action::Nothing
            },
            Key::Down => {
                self.move_down();
                Action::Nothing
            },
            Key::Enter => {
                if self.episode_selected < self.episodes.len() {
                    let ep = self.episodes[self.episode_selected].episode_id.clone();
                    let show = if self.anime_selected < self.anime_results.len() {
                        self.anime_results[self.anime_selected].id.clone()
                    } else {
                        String::new()
                    };
                    let mut status = "Fetching qualities for episode ".to_owned();
                    status.append(ep.as_str());
                    status.append("...");
                    self.status = status;
                    Action::LoadLinks(show, ep)
                } else {
                    Action::Nothing
                }
            },
            _ => Action::Nothing,
        }
    }

    /// Handles a key on the quality picker.
    fn key_quality(&mut self, key: Key) -> (act: Action)
        requires
            old(self).screen == Screen::QualityPick,
        ensures
            quality_step(*old(self), key, *final(self), act),
    {
        match key {
            Key::Esc => {
                self.screen = Screen::Episodes;
                self.status = "↑↓ navigate  Enter watch  Esc back".to_owned();
                Action::Nothing
            },
            Key::Up => {
                self.quality_selected = prev_index(self.quality_selected);
                Action::Nothing
            },
            Key::Down => {
                self.quality_selected = next_index(self.quality_selected, self.stream_links.len());
                Action::Nothing
            },
            Key::Enter => {
                if self.quality_selected < self.stream_links.len() {
                    let url = self.stream_links[self.quality_selected].url.clone();
                    let mut status = "▶ Playing at ".to_owned();
                    status.append(self.stream_links[self.quality_selected].quality.as_str());
                    status.append(" — select another episode");
                    self.screen = Screen::Episodes;
                    self.status = status;
                    Action::Play(url)
                } else {
                    Action::Nothing
                }
            },
            _ => Action::Nothing,
        }
    }

    /// Handles one key press: changes the state as the screen on show
    /// defines, and says what the program must do next.
    pub fn handle_key(&mut self, key: Key) -> (act: Action)
        ensures
            key_step(*old(self), key, *final(self), act),
    {
        match self.screen {
            Screen::MainMenu => self.key_main_menu(key),
            Screen::Search => self.key_search(key),
            Screen::Results => self.key_results(key),
            Screen::Chapters => self.key_chapters(key),
            Screen::Episodes => self.key_episodes(key),
            Screen::QualityPick => self.key_quality(key),
            Screen::Loading | Screen::Reader => Action::Nothing,
        }
    }
}

} // verus!

verus! {

/// The status on a fresh result list.
pub open spec fn results_hint() -> Seq<char> {
    "↑↓ navigate  Enter select  Esc back"@
}

/// The status on a fresh chapter or episode list.
pub open spec fn list_hint(verb: Seq<char>) -> Seq<char> {
    "↑↓ to move, Enter to "@ + verb + ", Esc to go back"@
}

/// `"Error: "` followed by the error text.
fn error_message(err: &str) -> (s: String)
    ensures
        s@ == error_status(err@),
{
    let mut s = "Error: ".to_owned();
    s.append(err);
    s
}

impl App {
    /// Takes the answer to a manga search: on success the results are shown
    /// with the first one selected; on failure the error is shown.
    pub fn manga_search_done(&mut self, outcome: Result<Vec<Manga>, String>)
        ensures
            match outcome {
                Ok(results) => {
                    &&& *final(self) == (App {
                        results: results,
                        selected: 0,
                        screen: Screen::Results,
                        status: final(self).status,
                        ..*old(self)
                    })
                    &&& final(self).status@ == results_hint()
                },
                Err(e) => status_set(*old(self), *final(self), error_status(e@)),
            },
    {
        match outcome {
            Ok(results) => {
                self.results = results;
                self.selected = 0;
                self.screen = Screen::Results;
                self.status = "↑↓ navigate  Enter select  Esc back".to_owned();
            },
            Err(e) => {
                self.status = error_message(e.as_str());
            },
        }
    }

    /// Takes the answer to an anime search (as `manga_search_done`).
    pub fn anime_search_done(&mut self, outcome: Result<Vec<Anime>, String>)
        ensures
            match outcome {
                Ok(results) => {
                    &&& *final(self) == (App {
                        anime_results: results,
                        anime_selected: 0,
                        screen: Screen::Results,
                        status: final(self).status,
                        ..*old(self)
                    })
                    &&& final(self).status@ == results_hint()
                },
                Err(e) => status_set(*old(self), *final(self), error_status(e@)),
            },
    {
        match outcome {
            Ok(results) => {
                self.anime_results = results;
                self.anime_selected = 0;
                self.screen = Screen::Results;
                self.status = "↑↓ navigate  Enter select  Esc back".to_owned();
            },
            Err(e) => {
                self.status = error_message(e.as_str());
            },
        }
    }

    /// Takes the chapters of the selected manga: on success they are shown
    /// with the first one selected.
    pub fn chapters_done(&mut self, outcome: Result<Vec<Chapter>, String>)
        ensures
            match outcome {
                Ok(chapters) => {
                    &&& *final(self) == (App {
                        chapters: chapters,
                        chapter_selected: 0,
                        screen: Screen::Chapters,
                        status: final(self).status,
                        ..*old(self)
                    })
                    &&& final(self).status@ == list_hint("read"@)
                },
                Err(e) => status_set(*old(self), *final(self), error_status(e@)),
            },
    {
        proof {
            reveal_strlit("↑↓ to move, Enter to read, Esc to go back");
            reveal_strlit("↑↓ to move, Enter to ");
            reveal_strlit("read");
            reveal_strlit(", Esc to go back");
        }
        match outcome {
            Ok(chapters) => {
                self.chapters = chapters;
                self.chapter_selected = 0;
                self.screen = Screen::Chapters;
                self.status = "↑↓ to move, Enter to read, Esc to go back".to_owned();
                assert(self.status@ =~= list_hint("read"@));
            },
            Err(e) => {
                self.status = error_message(e.as_str());
            },
        }
    }

    /// Takes the episodes of the selected show: on success they are shown
    /// with the first one selected.
    pub fn episodes_done(&mut self, outcome: Result<Vec<Episode>, String>)
        ensures
            match outcome {
                Ok(episodes) => {
                    &&& *final(self) == (App {
                        episodes: episodes,
                        episode_selected: 0,
                        screen: Screen::Episodes,
                        status: final(self).status,
                        ..*old(self)
                    })
                    &&& final(self).status@ == list_hint("watch"@)
                },
                Err(e) => status_set(*old(self), *final(self), error_status(e@)),
            },
    {
        proof {
            reveal_strlit("↑↓ to move, Enter to watch, Esc to go back");
            reveal_strlit("↑↓ to move, Enter to ");
            reveal_strlit("watch");
            reveal_strlit(", Esc to go back");
        }
        match outcome {
            Ok(episodes) => {
                self.episodes = episodes;
                self.episode_selected = 0;
                self.screen = Screen::Episodes;
                self.status = "↑↓ to move, Enter to watch, Esc to go back".to_owned();
                assert(self.status@ =~= list_hint("watch"@));
            },
            Err(e) => {
                self.status = error_message(e.as_str());
            },
        }
    }

    /// Takes the stream qualities of an episode. A single quality is played
    /// at once; otherwise the qualities are offered with the first selected.
    pub fn links_done(&mut self, outcome: Result<Vec<StreamLink>, String>) -> (act: Action)
        ensures
            match outcome {
                Ok(links) => if links@.len() == 1 {
                    &&& status_set(
                        *old(self),
                        *final(self),
                        "▶ Playing at "@ + links@[0].quality@ + " — only quality available"@,
                    )
                    &&& act matches Action::Play(url) && url@ == links@[0].url@
                } else {
                    &&& act is Nothing
                    &&& *final(self) == (App {
                        stream_links: links,
                        quality_selected: 0,
                        screen: Screen::QualityPick,
                        status: final(self).status,
                        ..*old(self)
                    })
                    &&& final(self).status@ == "↑↓ select quality  Enter watch  Esc back"@
                },
                Err(e) => act is Nothing && status_set(*old(self), *final(self), error_status(e@)),
            },
    {
        match outcome {
            Ok(links) => {
                if links.len() == 1 {
                    let url = links[0].url.clone();
                    let mut status = "▶ Playing at ".to_owned();
                    status.append(links[0].quality.as_str());
                    status.append(" — only quality available");
                    self.status = status;
                    Action::Play(url)
                } else {
                    self.stream_links = links;
                    self.quality_selected = 0;
                    self.screen = Screen::QualityPick;
                    self.status = "↑↓ select quality  Enter watch  Esc back".to_owned();
                    Action::Nothing
                }
            },
            Err(e) => {
                self.status = error_message(e.as_str());
                Action::Nothing
            },
        }
    }

    /// Takes the page list of a chapter: on success the pages are kept and
    /// the download count starts at 0; on failure the chapter list is shown
    /// again with the error.
    pub fn pages_done(&mut self, outcome: Result<Vec<String>, String>)
        ensures
            match outcome {
                Ok(pages) => *final(self) == (App {
                    total_pages: pages@.len() as usize,
                    pages: pages,
                    current_page: 0,
                    loaded_pages: 0,
                    ..*old(self)
                }),
                Err(e) => {
                    &&& *final(self) == (App {
                        screen: Screen::Chapters,
                        status: final(self).status,
                        ..*old(self)
                    })
                    &&& final(self).status@ == error_status(e@)
                },
            },
    {
        match outcome {
            Ok(pages) => {
                self.total_pages = pages.len();
                self.pages = pages;
                self.current_page = 0;
                self.loaded_pages = 0;
            },
            Err(e) => {
                self.screen = Screen::Chapters;
                self.status = error_message(e.as_str());
            },
        }
    }

    /// Shows that page `i` (counted from 0) is being downloaded.
    pub fn downloading_page(&mut self, i: usize)
        requires
            i < old(self).pages@.len(),
        ensures
            status_set(
                *old(self),
                *final(self),
                "Downloading page "@ + decimal((i + 1) as nat) + "/"@ + decimal(
                    old(self).pages@.len(),
                ) + "..."@,
            ),
    {
        let total = self.pages.len();
        let mut status = "Downloading page ".to_owned();
        let k = crate::text::decimal_string((i + 1) as u64);
        status.append(k.as_str());
        status.append("/");
        let n = crate::text::decimal_string(total as u64);
        status.append(n.as_str());
        status.append("...");
        self.status = status;
    }

    /// Counts one more page as saved.
    pub fn page_saved(&mut self)
        requires
            old(self).loaded_pages < usize::MAX,
        ensures
            *final(self) == (App { loaded_pages: (old(self).loaded_pages + 1) as usize, ..*old(self) }),
    {
        self.loaded_pages = self.loaded_pages + 1;
    }

    /// Shows that page `i` (counted from 0) could not be downloaded.
    pub fn page_failed(&mut self, i: usize, err: &str)
        requires
            i < usize::MAX,
        ensures
            status_set(
                *old(self),
                *final(self),
                "Error on page "@ + decimal((i + 1) as nat) + ": "@ + err@,
            ),
    {
        let mut status = "Error on page ".to_owned();
        let k = crate::text::decimal_string((i + 1) as u64);
        status.append(k.as_str());
        status.append(": ");
        status.append(err);
        self.status = status;
    }

    /// Shows that the reader is being opened on the downloaded pages.
    pub fn opening_reader(&mut self)
        ensures
            status_set(*old(self), *final(self), "Opening feh..."@),
    {
        self.status = "Opening feh...".to_owned();
    }

    /// Goes back to the chapter list once the reader is closed.
    pub fn reader_closed(&mut self)
        ensures
            *final(self) == (App { screen: Screen::Chapters, status: final(self).status, ..*old(self) }),
            final(self).status@ == list_hint("read"@),
    {
        proof {
            reveal_strlit("↑↓ to move, Enter to read, Esc to go back");
            reveal_strlit("↑↓ to move, Enter to ");
            reveal_strlit("read");
            reveal_strlit(", Esc to go back");
        }
        self.screen = Screen::Chapters;
        self.status = "↑↓ to move, Enter to read, Esc to go back".to_owned();
        assert(self.status@ =~= list_hint("read"@));
    }
}

} // verus!

verus! {

/// The selection of the list on show and the length of that list, on the
/// list screens (results, chapters, episodes).
pub open spec fn list_cursor(a: App) -> Option<(usize, nat)> {
    match a.screen {
        Screen::Results => match a.mode {
            Mode::Manga => Some((a.selected, a.results@.len())),
            Mode::Anime => Some((a.anime_selected, a.anime_results@.len())),
        },
        Screen::Chapters => Some((a.chapter_selected, a.chapters@.len())),
        Screen::Episodes => Some((a.episode_selected, a.episodes@.len())),
        _ => None,
    }
}

/// The selection of the list on show (0 off the list screens).
pub open spec fn cursor_sel(a: App) -> usize {
    match list_cursor(a) {
        Some((s, l)) => s,
        None => 0,
    }
}

/// The length of the list on show (0 off the list screens).
pub open spec fn cursor_len(a: App) -> nat {
    match list_cursor(a) {
        Some((s, l)) => l,
        None => 0,
    }
}

/// Moving down and then up on a list comes back to the same state, unless
/// the selection was already on the last item.
pub proof fn law_down_then_up_returns(a: App)
    requires
        list_cursor(a) matches Some((sel, len)) && sel + 1 < len <= usize::MAX,
    ensures
        moved_up(moved_down(a)) == a,
{
}

/// Moving up and then down on a list comes back to the same state, unless
/// the selection was already on the first item.
pub proof fn law_up_then_down_returns(a: App)
    requires
        list_cursor(a) matches Some((sel, len)) && 0 < sel < len,
    ensures
        moved_down(moved_up(a)) == a,
{
}

/// Up and down keep a selection that is in its list inside the list, and
/// leave every other list and selection as they are.
pub proof fn law_moves_stay_in_list(a: App)
    requires
        list_cursor(a) matches Some((sel, len)) && sel < len,
    ensures
        list_cursor(moved_up(a)) matches Some((s, l)) && s < l && l == cursor_len(a),
        list_cursor(moved_down(a)) matches Some((s, l)) && s < l && l == cursor_len(a),
        moved_up(a).screen == a.screen && moved_down(a).screen == a.screen,
{
}

/// Up never goes above the first item and down never past the last.
pub proof fn law_moves_are_bounded(a: App)
    requires
        list_cursor(a) is Some,
    ensures
        cursor_sel(moved_up(a)) == step_up(cursor_sel(a)),
        cursor_sel(moved_down(a)) == step_down(cursor_sel(a), cursor_len(a)),
        step_up(cursor_sel(a)) <= cursor_sel(a),
        cursor_sel(a) <= step_down(cursor_sel(a), cursor_len(a)),
{
}

/// On the main menu, switching the mode twice (Left or Right, in any
/// combination) gives back the state.
pub proof fn law_mode_switch_twice(a: App, k1: Key, k2: Key, b: App, c: App, x: Action, y: Action)
    requires
        a.screen == Screen::MainMenu,
        k1 == Key::Left || k1 == Key::Right,
        k2 == Key::Left || k2 == Key::Right,
        key_step(a, k1, b, x),
        key_step(b, k2, c, y),
    ensures
        c == a,
        b.mode != a.mode,
{
}

/// On the search screen, Tab twice gives back the state.
pub proof fn law_tab_twice(a: App, b: App, c: App, x: Action, y: Action)
    requires
        a.screen == Screen::Search,
        key_step(a, Key::Tab, b, x),
        key_step(b, Key::Tab, c, y),
    ensures
        c == a,
        b.search_mode != a.search_mode,
{
}

/// On the search screen, no key takes a category selection that is in the
/// category list out of it.
pub proof fn law_category_stays_in_range(a: App, k: Key, b: App, act: Action)
    requires
        a.screen == Screen::Search,
        a.category_selected < category_table(a.mode).len(),
        key_step(a, k, b, act),
    ensures
        b.category_selected < category_table(b.mode).len(),
{
}

/// Every key on the search screen either stays there, returns to the main
/// menu (Esc), or asks for a search or for leaving (Enter).
pub proof fn law_search_screen_exits(a: App, k: Key, b: App, act: Action)
    requires
        a.screen == Screen::Search,
        key_step(a, k, b, act),
    ensures
        b.screen == Screen::Search || (k == Key::Esc && b.screen == Screen::MainMenu),
        act is Nothing || (k == Key::Enter && (act is Exit || act is SearchManga
            || act is SearchAnime)),
{
}

/// Going into the search from the main menu and back out with Esc leaves
/// the mode as it was, with an empty query, browsing categories.
pub proof fn law_enter_then_escape(a: App, b: App, c: App, x: Action, y: Action)
    requires
        a.screen == Screen::MainMenu,
        key_step(a, Key::Enter, b, x),
        key_step(b, Key::Esc, c, y),
    ensures
        c.screen == Screen::MainMenu,
        c.mode == a.mode,
        c.search_input@ == Seq::<char>::empty(),
        c.search_mode == SearchMode::Browse,
        c.results == a.results && c.anime_results == a.anime_results,
{
}

} // verus!

verus! {

/// On the quality picker, Up moves a selection below the top one item up
/// and Down moves a selection above the last one item down; nothing else
/// changes and nothing is asked for.
pub proof fn law_quality_picker_moves(a: App, k: Key, b: App, act: Action)
    requires
        a.screen == Screen::QualityPick,
        k == Key::Up || k == Key::Down,
        key_step(a, k, b, act),
    ensures
        act is Nothing,
        b.screen == Screen::QualityPick,
        b.stream_links == a.stream_links,
        k == Key::Up && a.quality_selected > 0 ==> b.quality_selected + 1 == a.quality_selected,
        k == Key::Up && a.quality_selected == 0 ==> b.quality_selected == 0,
        k == Key::Down && a.quality_selected + 1 < a.stream_links@.len() <= usize::MAX
            ==> b.quality_selected == a.quality_selected + 1,
        k == Key::Down && a.quality_selected + 1 >= a.stream_links@.len()
            ==> b.quality_selected == a.quality_selected,
        b == (App { quality_selected: b.quality_selected, ..a }),
{
}

/// On the quality picker, Down then Up comes back to the same state when
/// the selection is not on the last quality.
pub proof fn law_quality_down_then_up(a: App, b: App, c: App, x: Action, y: Action)
    requires
        a.screen == Screen::QualityPick,
        a.quality_selected + 1 < a.stream_links@.len() <= usize::MAX,
        key_step(a, Key::Down, b, x),
        key_step(b, Key::Up, c, y),
    ensures
        c == a,
        b.quality_selected == a.quality_selected + 1,
{
}

/// On the result, chapter and episode lists, Up moves a selection below
/// the top one item up, Down moves one above the last one item down, and
/// nothing else changes.
pub proof fn law_list_keys_move_by_one(a: App, k: Key, b: App, act: Action)
    requires
        list_cursor(a) is Some,
        k == Key::Up || k == Key::Down,
        key_step(a, k, b, act),
    ensures
        act is Nothing,
        b.screen == a.screen && b.mode == a.mode,
        cursor_len(b) == cursor_len(a),
        k == Key::Up && cursor_sel(a) > 0 ==> cursor_sel(b) + 1 == cursor_sel(a),
        k == Key::Up && cursor_sel(a) == 0 ==> cursor_sel(b) == 0,
        k == Key::Down && cursor_sel(a) + 1 < cursor_len(a) <= usize::MAX ==> cursor_sel(b)
            == cursor_sel(a) + 1,
        k == Key::Down && cursor_sel(a) + 1 >= cursor_len(a) ==> cursor_sel(b) == cursor_sel(a),
        b.status == a.status && b.results == a.results && b.chapters == a.chapters
            && b.episodes == a.episodes && b.anime_results == a.anime_results,
{
}

} // verus!
