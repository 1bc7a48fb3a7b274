//! The TUI's view of the MangaDex API: the records it receives, their
//! display labels, the request URLs, and the page image URLs of a chapter.

use vstd::prelude::*;
use crate::text::{decimal, decimal_string, or_default};

verus! {

/// The key/value pairs of a list of string entries.
pub open spec fn entry_views(s: Seq<(String, String)>) -> Seq<(Seq<char>, Seq<char>)> {
    s.map_values(|e: (String, String)| (e.0@, e.1@))
}

/// The map that a list of pairs with distinct keys stands for.
pub open spec fn pairs_map(s: Seq<(Seq<char>, Seq<char>)>) -> Map<Seq<char>, Seq<char>>
    decreases s.len(),
{
    if s.len() == 0 {
        Map::empty()
    } else {
        pairs_map(s.drop_last()).insert(s.last().0, s.last().1)
    }
}

/// No key occurs twice.
pub open spec fn distinct_keys(s: Seq<(Seq<char>, Seq<char>)>) -> bool {
    forall|i: int, j: int| 0 <= i < j < s.len() ==> (#[trigger] s[i]).0 != (#[trigger] s[j]).0
}

/// With distinct keys, the map holds a key exactly when some pair has it,
/// with that pair's value.
pub proof fn lemma_pairs_map_lookup(s: Seq<(Seq<char>, Seq<char>)>, i: int)
    requires
        distinct_keys(s),
        0 <= i < s.len(),
    ensures
        pairs_map(s).contains_key(s[i].0),
        pairs_map(s)[s[i].0] == s[i].1,
    decreases s.len(),
{
    if i < s.len() - 1 {
        lemma_pairs_map_lookup(s.drop_last(), i);
        assert(s.drop_last()[i] == s[i]);
    }
}

/// Keys that no pair has are not in the map.
pub proof fn lemma_pairs_map_absent(s: Seq<(Seq<char>, Seq<char>)>, k: Seq<char>)
    requires
        forall|i: int| 0 <= i < s.len() ==> (#[trigger] s[i]).0 != k,
    ensures
        !pairs_map(s).contains_key(k),
    decreases s.len(),
{
    if s.len() > 0 {
        assert forall|i: int| 0 <= i < s.drop_last().len() implies (#[trigger] s.drop_last()[i]).0
            != k by {
            assert(s.drop_last()[i] == s[i]);
        }
        lemma_pairs_map_absent(s.drop_last(), k);
    }
}

/// Changing the value of the pair at `i` changes the map at that key only.
pub proof fn lemma_pairs_map_update(s: Seq<(Seq<char>, Seq<char>)>, i: int, v: Seq<char>)
    requires
        distinct_keys(s),
        0 <= i < s.len(),
    ensures
        pairs_map(s.update(i, (s[i].0, v))) == pairs_map(s).insert(s[i].0, v),
    decreases s.len(),
{
    let t = s.update(i, (s[i].0, v));
    if i == s.len() - 1 {
        assert(t.drop_last() =~= s.drop_last());
        assert(pairs_map(s).insert(s[i].0, v) =~= pairs_map(s.drop_last()).insert(s[i].0, v));
    } else {
        lemma_pairs_map_update(s.drop_last(), i, v);
        assert(t.drop_last() =~= s.drop_last().update(i, (s[i].0, v)));
        assert(s.last().0 != s[i].0);
        assert(pairs_map(t) =~= pairs_map(s).insert(s[i].0, v));
    }
}

/// A string-keyed map of texts by language code, as the API sends them
/// (such as a title in several languages).
pub struct LangMap {
    entries: Vec<(String, String)>,
}

impl View for LangMap {
    type V = Map<Seq<char>, Seq<char>>;

    closed spec fn view(&self) -> Map<Seq<char>, Seq<char>> {
        pairs_map(entry_views(self.entries@))
    }
}

impl LangMap {
    #[verifier::type_invariant]
    closed spec fn keys_unique(self) -> bool {
        distinct_keys(entry_views(self.entries@))
    }

    /// An empty map.
    pub fn new() -> (m: LangMap)
        ensures
            m@ == Map::<Seq<char>, Seq<char>>::empty(),
    {
        let m = LangMap { entries: Vec::new() };
        assert(entry_views(m.entries@) =~= Seq::<(Seq<char>, Seq<char>)>::empty());
        m
    }

    /// Position of `key` among the entries.
    fn position(&self, key: &str) -> (r: Option<usize>)
        ensures
            match r {
                Some(i) => i < self.entries@.len() && self.entries@[i as int].0@ == key@,
                None => forall|i: int|
                    0 <= i < self.entries@.len() ==> (#[trigger] self.entries@[i]).0@ != key@,
            },
    {
        let k = key.to_owned();
        let n = self.entries.len();
        for i in 0..n
            invariant
                n == self.entries@.len(),
                k@ == key@,
                forall|j: int| 0 <= j < i ==> (#[trigger] self.entries@[j]).0@ != key@,
        {
            if self.entries[i].0 == k {
                return Some(i);
            }
        }
        None
    }

    /// The text stored under `key`, if any.
    pub fn get(&self, key: &str) -> (r: Option<&str>)
        ensures
            match r {
                Some(v) => self@.contains_key(key@) && v@ == self@[key@],
                None => !self@.contains_key(key@),
            },
    {
        proof {
            use_type_invariant(self);
        }
        let ghost ev = entry_views(self.entries@);
        match self.position(key) {
            Some(i) => {
                proof {
                    assert(ev[i as int] == (self.entries@[i as int].0@, self.entries@[i as int].1@));
                    lemma_pairs_map_lookup(ev, i as int);
                }
                Some(self.entries[i].1.as_str())
            },
            None => {
                proof {
                    assert forall|j: int| 0 <= j < ev.len() implies (#[trigger] ev[j]).0 != key@ by {
                        assert(ev[j].0 == self.entries@[j].0@);
                    }
                    lemma_pairs_map_absent(ev, key@);
                }
                None
            },
        }
    }

    /// Stores `value` under `key`, replacing an earlier value.
    pub fn insert(&mut self, key: String, value: String)
        ensures
            final(self)@ == old(self)@.insert(key@, value@),
    {
        proof {
            use_type_invariant(&*self);
        }
        let ghost ev = entry_views(self.entries@);
        let mut entries: Vec<(String, String)> = Vec::new();
        let n = self.entries.len();
        for i in 0..n
            invariant
                n == self.entries@.len(),
                ev == entry_views(self.entries@),
                entry_views(entries@) == ev.take(i as int),
        {
            let e = (self.entries[i].0.clone(), self.entries[i].1.clone());
            let ghost before = entries@;
            assert(ev[i as int] == (e.0@, e.1@));
            entries.push(e);
            assert(entry_views(entries@) =~= entry_views(before).push(ev[i as int]));
            assert(entry_views(entries@) =~= ev.take(i + 1));
        }
        assert(ev.take(n as int) =~= ev);
        match self.position(key.as_str()) {
            Some(i) => {
                let k = entries[i].0.clone();
                entries.set(i, (k, value));
                proof {
                    assert(entry_views(entries@) =~= ev.update(i as int, (ev[i as int].0, value@)));
                    lemma_pairs_map_update(ev, i as int, value@);
                }
                self.entries = entries;
            },
            None => {
                let ghost kv = key@;
                let ghost vv = value@;
                entries.push((key, value));
                proof {
                    assert(entry_views(entries@) =~= ev.push((kv, vv)));
                    assert(entry_views(entries@).drop_last() =~= ev);
                    assert forall|a: int, b: int|
                        0 <= a < b < entry_views(entries@).len() implies (#[trigger] entry_views(
                        entries@,
                    )[a]).0 != (#[trigger] entry_views(entries@)[b]).0 by {
                        if b == ev.len() {
                            assert(ev[a].0 == old(self).entries@[a].0@);
                        } else {
                            assert(ev[a] == entry_views(entries@)[a]);
                        }
                    }
                }
                self.entries = entries;
            },
        }
    }
}

} // verus!

verus! {

/// A manga search answer.
pub struct SearchResponse {
    pub data: Vec<Manga>,
}

/// A chapter feed answer.
pub struct ChapterResponse {
    pub data: Vec<Chapter>,
}

/// One chapter of a manga.
pub struct Chapter {
    pub id: String,
    pub attributes: ChapterAttributes,
}

/// What the API tells of a chapter.
pub struct ChapterAttributes {
    pub chapter: Option<String>,
    pub title: Option<String>,
    pub pages: Option<u32>,
}

/// One manga.
pub struct Manga {
    pub id: String,
    pub attributes: MangaAttributes,
}

/// What the API tells of a manga: titles and descriptions by language.
pub struct MangaAttributes {
    pub title: LangMap,
    pub description: Option<LangMap>,
    pub status: Option<String>,
}

/// The image server answer for a chapter.
pub struct PageResponse {
    pub chapter: PageChapter,
    pub base_url: String,
}

/// The page files of a chapter on the image server.
pub struct PageChapter {
    pub hash: String,
    pub data: Vec<String>,
}

/// The text under `key` in `m`, or `default`.
pub open spec fn lookup_or(m: Map<Seq<char>, Seq<char>>, key: Seq<char>, default: Seq<char>) -> Seq<
    char,
> {
    if m.contains_key(key) {
        m[key]
    } else {
        default
    }
}

impl Manga {
    /// The English title, or `Unknown Title`.
    pub fn title(&self) -> (t: &str)
        ensures
            t@ == lookup_or(self.attributes.title@, "en"@, "Unknown Title"@),
    {
        match self.attributes.title.get("en") {
            Some(s) => s,
            None => "Unknown Title",
        }
    }

    /// The English description, or `No description`.
    pub fn description(&self) -> (t: &str)
        ensures
            t@ == match self.attributes.description {
                Some(d) => lookup_or(d@, "en"@, "No description"@),
                None => "No description"@,
            },
    {
        match &self.attributes.description {
            Some(d) => match d.get("en") {
                Some(s) => s,
                None => "No description",
            },
            None => "No description",
        }
    }
}

impl Chapter {
    /// The list label: `Ch.<number> — <title> (<pages> pages)`, with `?`,
    /// `No title` and 0 for what the API leaves out.
    pub fn label(&self) -> (s: String)
        ensures
            s@ == "Ch."@ + or_default(self.attributes.chapter, "?"@) + " — "@ + or_default(
                self.attributes.title,
                "No title"@,
            ) + " ("@ + decimal(
                match self.attributes.pages {
                    Some(p) => p as nat,
                    None => 0,
                },
            ) + " pages)"@,
    {
        let mut s = "Ch.".to_owned();
        match &self.attributes.chapter {
            Some(c) => s.append(c.as_str()),
            None => s.append("?"),
        }
        s.append(" — ");
        match &self.attributes.title {
            Some(t) => s.append(t.as_str()),
            None => s.append("No title"),
        }
        s.append(" (");
        let pages: u32 = match self.attributes.pages {
            Some(p) => p,
            None => 0,
        };
        let num = decimal_string(pages as u64);
        s.append(num.as_str());
        s.append(" pages)");
        s
    }
}

/// The MangaDex address of the API.
pub open spec fn mangadex() -> Seq<char> {
    "https://api.mangadex.org"@
}

/// The search URL for `query`, with the query put in as it is, ten results.
pub fn manga_search_url(query: &str) -> (u: String)
    ensures
        u@ == mangadex() + "/manga?title="@ + query@ + "&limit=10"@,
{
    let mut u = "https://api.mangadex.org/manga?title=".to_owned();
    u.append(query);
    u.append("&limit=10");
    proof {
        reveal_strlit("https://api.mangadex.org/manga?title=");
        reveal_strlit("https://api.mangadex.org");
        reveal_strlit("/manga?title=");
        assert("https://api.mangadex.org/manga?title="@ =~= mangadex() + "/manga?title="@);
    }
    u
}

/// The feed URL of a manga: English chapters in ascending order, at most 50.
pub fn chapter_feed_url(manga_id: &str) -> (u: String)
    ensures
        u@ == mangadex() + "/manga/"@ + manga_id@
            + "/feed?translatedLanguage[]=en&order[chapter]=asc&limit=50"@,
{
    let mut u = "https://api.mangadex.org/manga/".to_owned();
    u.append(manga_id);
    u.append("/feed?translatedLanguage[]=en&order[chapter]=asc&limit=50");
    proof {
        reveal_strlit("https://api.mangadex.org/manga/");
        reveal_strlit("https://api.mangadex.org");
        reveal_strlit("/manga/");
        assert("https://api.mangadex.org/manga/"@ =~= mangadex() + "/manga/"@);
    }
    u
}

/// The image-server lookup URL of a chapter.
pub fn at_home_url(chapter_id: &str) -> (u: String)
    ensures
        u@ == mangadex() + "/at-home/server/"@ + chapter_id@,
{
    let mut u = "https://api.mangadex.org/at-home/server/".to_owned();
    u.append(chapter_id);
    proof {
        reveal_strlit("https://api.mangadex.org/at-home/server/");
        reveal_strlit("https://api.mangadex.org");
        reveal_strlit("/at-home/server/");
        assert("https://api.mangadex.org/at-home/server/"@ =~= mangadex() + "/at-home/server/"@);
    }
    u
}

/// The image URL of one page file: `<base>/data/<hash>/<file>`.
pub open spec fn page_url(base: Seq<char>, hash: Seq<char>, file: Seq<char>) -> Seq<char> {
    base + "/data/"@ + hash + "/"@ + file
}

impl PageResponse {
    /// The full image URLs of the chapter's pages, in order.
    pub fn page_urls(&self) -> (urls: Vec<String>)
        ensures
            urls@.len() == self.chapter.data@.len(),
            forall|i: int|
                0 <= i < urls@.len() ==> (#[trigger] urls@[i])@ == page_url(
                    self.base_url@,
                    self.chapter.hash@,
                    self.chapter.data@[i]@,
                ),
    {
        let n = self.chapter.data.len();
        let mut out: Vec<String> = Vec::new();
        for i in 0..n
            invariant
                n == self.chapter.data@.len(),
                out@.len() == i,
                forall|j: int|
                    0 <= j < i ==> (#[trigger] out@[j])@ == page_url(
                        self.base_url@,
                        self.chapter.hash@,
                        self.chapter.data@[j]@,
                    ),
        {
            let mut u = self.base_url.clone();
            u.append("/data/");
            u.append(self.chapter.hash.as_str());
            u.append("/");
            u.append(self.chapter.data[i].as_str());
            out.push(u);
        }
        out
    }
}

} // verus!

verus! {

/// After `insert(k, v)` a `get(k)` gives `v`, and every other key keeps
/// what it had.
pub proof fn law_lang_map_read_after_write(
    m: Map<Seq<char>, Seq<char>>,
    k: Seq<char>,
    v: Seq<char>,
    other: Seq<char>,
)
    ensures
        m.insert(k, v).contains_key(k),
        m.insert(k, v)[k] == v,
        other != k ==> (m.insert(k, v).contains_key(other) <==> m.contains_key(other)),
        other != k && m.contains_key(other) ==> m.insert(k, v)[other] == m[other],
{
}

} // verus!
