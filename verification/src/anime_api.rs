//! The TUI's view of the anime service: the records it receives, their
//! display labels, and the request URLs it sends.

use vstd::prelude::*;
use crate::text::{decimal, decimal_string, parse_u64, parse_u64_spec, chars_of, push_char, padded, or_default};

verus! {

/// One show found by a search.
#[derive(Clone)]
pub struct Anime {
    pub id: String,
    pub name: String,
    pub episodes: u64,
}

/// One episode of a show.
#[derive(Clone)]
pub struct Episode {
    pub number: u64,
    pub title: Option<String>,
    pub episode_id: String,
    pub filler: Option<bool>,
}

/// One playable quality of an episode.
#[derive(Clone)]
pub struct StreamLink {
    pub quality: String,
    pub url: String,
}

impl Anime {
    /// The show's name.
    pub fn title(&self) -> (t: &str)
        ensures
            t@ == self.name@,
    {
        self.name.as_str()
    }

    /// The episode count as shown in lists: `<count> eps`.
    pub fn info(&self) -> (s: String)
        ensures
            s@ == decimal(self.episodes as nat) + " eps"@,
    {
        let mut s = decimal_string(self.episodes);
        s.append(" eps");
        s
    }
}

impl Episode {
    /// The list label: `Ep.` and the number left-aligned in four columns,
    /// a space, and the title (`No title` when there is none).
    pub fn label(&self) -> (s: String)
        ensures
            s@ == "Ep."@ + padded(decimal(self.number as nat), 4) + " "@ + or_default(
                self.title,
                "No title"@,
            ),
    {
        let mut s = "Ep.".to_owned();
        let num = decimal_string(self.number);
        s.append(num.as_str());
        let mut k: usize = chars_of(num.as_str()).len();
        let ghost mid = s@;
        assert(num@.len() == k);
        while k < 4
            invariant
                k <= 4 || k == num@.len(),
                num@.len() <= k,
                s@ == mid + Seq::new((k - num@.len()) as nat, |i: int| ' '),
            decreases 4 - k,
        {
            push_char(&mut s, ' ');
            k += 1;
            assert(s@ =~= mid + Seq::new((k - num@.len()) as nat, |i: int| ' '));
        }
        proof {
            if num@.len() >= 4 {
                assert(s@ =~= "Ep."@ + num@);
            } else {
                assert(s@ =~= "Ep."@ + padded(num@, 4));
            }
        }
        s.append(" ");
        match &self.title {
            Some(t) => s.append(t.as_str()),
            None => s.append("No title"),
        }
        s
    }
}

/// The address of the anime service.
pub open spec fn server() -> Seq<char> {
    "http://localhost:8080"@
}

/// Whether byte `b` is left as it is by URL encoding: ASCII letters and
/// digits and `-`, `.`, `_`, `~`.
pub open spec fn is_unreserved(b: u8) -> bool {
    (48 <= b <= 57) || (65 <= b <= 90) || (97 <= b <= 122) || b == 45 || b == 46 || b == 95
        || b == 126
}

/// Upper-case hexadecimal digit for `d < 16`.
pub open spec fn hex_digit(d: int) -> char {
    if d < 10 {
        (48 + d) as char
    } else {
        (55 + d) as char
    }
}

/// Percent-encoding of a byte string: unreserved bytes stay, every other
/// byte becomes `%` and two upper-case hex digits.
pub open spec fn percent_encoded(bytes: Seq<u8>) -> Seq<char>
    decreases bytes.len(),
{
    if bytes.len() == 0 {
        Seq::<char>::empty()
    } else {
        let b = bytes[0];
        (if is_unreserved(b) {
            seq![b as char]
        } else {
            seq!['%', hex_digit(b as int / 16), hex_digit(b as int % 16)]
        }) + percent_encoded(bytes.drop_first())
    }
}

/// `urlencoding::encode`: the UTF-8 bytes of `data`, percent-encoded with
/// every byte but ASCII letters, digits, `-`, `.`, `_` and `~` escaped as
/// `%XX` in upper-case hex.
#[verifier::external_body]
fn url_encode(data: &str) -> (r: String)
    ensures
        r@ == percent_encoded(vstd::utf8::encode_utf8(data@)),
{
    urlencoding::encode(data).into_owned()
}

/// The URL that searches the service for `query` (URL-encoded).
pub fn search_url(query: &str) -> (u: String)
    ensures
        u@ == server() + "/search?q="@ + percent_encoded(vstd::utf8::encode_utf8(query@)),
{
    let mut u = "http://localhost:8080/search?q=".to_owned();
    let q = url_encode(query);
    u.append(q.as_str());
    proof {
        reveal_strlit("http://localhost:8080/search?q=");
        reveal_strlit("http://localhost:8080");
        reveal_strlit("/search?q=");
        assert("http://localhost:8080/search?q="@ =~= server() + "/search?q="@);
    }
    u
}

/// The URL that lists the episodes of `anime`.
pub fn episodes_url(anime: &Anime) -> (u: String)
    ensures
        u@ == server() + "/episodes?id="@ + anime.id@,
{
    let mut u = "http://localhost:8080/episodes?id=".to_owned();
    u.append(anime.id.as_str());
    proof {
        reveal_strlit("http://localhost:8080/episodes?id=");
        reveal_strlit("http://localhost:8080");
        reveal_strlit("/episodes?id=");
        assert("http://localhost:8080/episodes?id="@ =~= server() + "/episodes?id="@);
    }
    u
}

/// The URL that lists the stream qualities of an episode.
pub fn links_url(show_id: &str, episode: &str) -> (u: String)
    ensures
        u@ == server() + "/links?id="@ + show_id@ + "&episode="@ + episode@,
{
    let mut u = "http://localhost:8080/links?id=".to_owned();
    u.append(show_id);
    u.append("&episode=");
    u.append(episode);
    proof {
        reveal_strlit("http://localhost:8080/links?id=");
        reveal_strlit("http://localhost:8080");
        reveal_strlit("/links?id=");
        assert("http://localhost:8080/links?id="@ =~= server() + "/links?id="@);
    }
    u
}

/// The URL that asks for the single stream URL of an episode.
pub fn stream_url(show_id: &str, episode: &str) -> (u: String)
    ensures
        u@ == server() + "/stream?id="@ + show_id@ + "&episode="@ + episode@,
{
    let mut u = "http://localhost:8080/stream?id=".to_owned();
    u.append(show_id);
    u.append("&episode=");
    u.append(episode);
    proof {
        reveal_strlit("http://localhost:8080/stream?id=");
        reveal_strlit("http://localhost:8080");
        reveal_strlit("/stream?id=");
        assert("http://localhost:8080/stream?id="@ =~= server() + "/stream?id="@);
    }
    u
}

/// The episode built from the `i`-th episode string of a show: its number
/// is the string read as a `u64`, else its position counted from 1; its
/// title is `Episode <string>`; it is not filler.
pub open spec fn episode_from(ep: Seq<char>, i: int, e: Episode) -> bool {
    &&& e.number == match parse_u64_spec(ep) {
        Some(v) => v,
        None => (i + 1) as u64,
    }
    &&& e.title matches Some(t) && t@ == "Episode "@ + ep
    &&& e.episode_id@ == ep
    &&& e.filler == Some(false)
}

/// The episodes of a show from the episode strings the service lists.
pub fn episodes_from_numbers(numbers: &Vec<String>) -> (eps: Vec<Episode>)
    ensures
        eps@.len() == numbers@.len(),
        forall|i: int| 0 <= i < eps@.len() ==> episode_from(numbers@[i]@, i, #[trigger] eps@[i]),
{
    let n = numbers.len();
    let mut out: Vec<Episode> = Vec::new();
    for i in 0..n
        invariant
            n == numbers@.len(),
            out@.len() == i,
            forall|j: int| 0 <= j < i ==> episode_from(numbers@[j]@, j, #[trigger] out@[j]),
    {
        let ep = &numbers[i];
        let digits = chars_of(ep.as_str());
        let number = match parse_u64(&digits) {
            Some(v) => v,
            None => (i + 1) as u64,
        };
        let mut title = "Episode ".to_owned();
        title.append(ep.as_str());
        out.push(
            Episode { number, title: Some(title), episode_id: ep.clone(), filler: Some(false) },
        );
    }
    out
}

} // verus!

verus! {

/// A character that may stand in an encoded query: `%` or an unreserved
/// ASCII character.
pub open spec fn query_safe(c: char) -> bool {
    c == '%' || ((c as u32) < 128 && is_unreserved(c as u8))
}

/// An encoded query holds only unreserved ASCII characters and `%`, so it
/// cannot end the query parameter (no `&`, `#`, `=`, space).
pub proof fn law_encoded_query_is_safe(bytes: Seq<u8>)
    ensures
        forall|i: int|
            0 <= i < percent_encoded(bytes).len() ==> query_safe(#[trigger] percent_encoded(bytes)[i]),
    decreases bytes.len(),
{
    if bytes.len() > 0 {
        law_encoded_query_is_safe(bytes.drop_first());
        let b = bytes[0];
        let head = if is_unreserved(b) {
            seq![b as char]
        } else {
            seq!['%', hex_digit(b as int / 16), hex_digit(b as int % 16)]
        };
        assert forall|i: int| 0 <= i < head.len() implies query_safe(#[trigger] head[i]) by {
            if !is_unreserved(b) && i > 0 {
                let d = if i == 1 { b as int / 16 } else { b as int % 16 };
                assert(0 <= d < 16);
            }
        }
        let r = percent_encoded(bytes);
        assert(r == head + percent_encoded(bytes.drop_first()));
        assert forall|i: int| 0 <= i < r.len() implies query_safe(#[trigger] r[i]) by {
            if i < head.len() {
                assert(r[i] == head[i]);
            } else {
                assert(r[i] == percent_encoded(bytes.drop_first())[i - head.len()]);
            }
        }
    }
}

} // verus!
