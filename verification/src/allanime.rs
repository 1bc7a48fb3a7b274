//! Stream lookup logic of the anime service: the result records it
//! answers with, the decoding of the obfuscated source URLs, and the
//! reading of HLS master playlists into quality variants, best first.

use vstd::prelude::*;
use crate::text::{
    chars_of, contains, contains_seq, find_last, has_prefix, last_index_of, lines, lines_of,
    parse_u32, parse_u32_spec, replace, replace_all, slice_chars, split, split_on, string_from_chars,
    trim_end, trim_end_char, trim_start, trim_start_seq, views, concat_chars, starts_with,
    copy_chars,
};

verus! {

/// Width in bytes of the UTF-8 encoding of `c`.
pub open spec fn utf8_width(c: char) -> nat {
    if (c as u32) <= 0x7F {
        1
    } else if (c as u32) <= 0x7FF {
        2
    } else if (c as u32) <= 0xFFFF {
        3
    } else {
        4
    }
}

/// The character that a two-character code stands for in an obfuscated
/// source URL, if the code is known.
pub open spec fn code_char(a: char, b: char) -> Option<char> {
    match (a, b) {
        ('1', '7') => Some('/'),
        ('5', '9') => Some('a'),
        ('5', 'a') => Some('b'),
        ('5', 'b') => Some('c'),
        ('5', 'c') => Some('d'),
        ('5', 'd') => Some('e'),
        ('5', 'e') => Some('f'),
        ('5', 'f') => Some('g'),
        ('5', '0') => Some('h'),
        ('5', '1') => Some('i'),
        ('5', '2') => Some('j'),
        ('5', '3') => Some('k'),
        ('5', '4') => Some('l'),
        ('5', '5') => Some('m'),
        ('5', '6') => Some('n'),
        ('5', '7') => Some('o'),
        ('4', '8') => Some('p'),
        ('4', '9') => Some('q'),
        ('4', 'a') => Some('r'),
        ('4', 'b') => Some('s'),
        ('4', 'c') => Some('t'),
        ('4', 'd') => Some('u'),
        ('4', 'e') => Some('v'),
        ('4', 'f') => Some('w'),
        ('4', '0') => Some('x'),
        ('4', '1') => Some('y'),
        ('4', '2') => Some('z'),
        ('7', '9') => Some('A'),
        ('7', 'a') => Some('B'),
        ('7', 'b') => Some('C'),
        ('7', 'c') => Some('D'),
        ('7', 'd') => Some('E'),
        ('7', 'e') => Some('F'),
        ('7', 'f') => Some('G'),
        ('7', '0') => Some('H'),
        ('7', '1') => Some('I'),
        ('7', '2') => Some('J'),
        ('7', '3') => Some('K'),
        ('7', '4') => Some('L'),
        ('7', '5') => Some('M'),
        ('7', '6') => Some('N'),
        ('7', '7') => Some('O'),
        ('6', '8') => Some('P'),
        ('6', '9') => Some('Q'),
        ('6', 'a') => Some('R'),
        ('6', 'b') => Some('S'),
        ('6', 'c') => Some('T'),
        ('6', 'd') => Some('U'),
        ('6', 'e') => Some('V'),
        ('6', 'f') => Some('W'),
        ('6', '0') => Some('X'),
        ('6', '1') => Some('Y'),
        ('6', '2') => Some('Z'),
        ('0', '8') => Some('0'),
        ('0', '9') => Some('1'),
        ('0', 'a') => Some('2'),
        ('0', 'b') => Some('3'),
        ('0', 'c') => Some('4'),
        ('0', 'd') => Some('5'),
        ('0', 'e') => Some('6'),
        ('0', 'f') => Some('7'),
        ('0', '0') => Some('8'),
        ('0', '1') => Some('9'),
        ('1', '5') => Some('-'),
        ('1', '6') => Some('.'),
        ('6', '7') => Some('_'),
        ('4', '6') => Some('~'),
        ('0', '2') => Some(':'),
        ('0', '7') => Some('?'),
        ('1', 'b') => Some('#'),
        ('6', '3') => Some('['),
        ('6', '5') => Some(']'),
        ('7', '8') => Some('@'),
        ('1', '9') => Some('!'),
        ('1', 'c') => Some('$'),
        ('1', 'e') => Some('&'),
        ('1', '0') => Some('('),
        ('1', '1') => Some(')'),
        ('1', '2') => Some('*'),
        ('1', '3') => Some('+'),
        ('1', '4') => Some(','),
        ('0', '3') => Some(';'),
        ('0', '5') => Some('='),
        ('1', 'd') => Some('%'),
        _ => None,
    }
}

/// What one code contributes to the decoded URL.
pub open spec fn code_output(a: char, b: char) -> Seq<char> {
    match code_char(a, b) {
        Some(c) => seq![c],
        None => Seq::<char>::empty(),
    }
}

/// Whether decoding `s` pair by pair stays on character boundaries: every
/// two-byte window either holds two one-byte characters or one two-byte
/// character. Elsewhere the byte slicing of the decoder would panic.
pub open spec fn decodable(s: Seq<char>) -> bool
    decreases s.len(),
{
    if s.len() == 0 {
        true
    } else if utf8_width(s[0]) == 1 {
        if s.len() == 1 {
            true
        } else {
            utf8_width(s[1]) == 1 && decodable(s.skip(2))
        }
    } else if utf8_width(s[0]) == 2 {
        decodable(s.drop_first())
    } else {
        false
    }
}

/// The decoded URL: each two-byte window is looked up in the code table;
/// unknown codes, and a two-byte character, give nothing; a final lone
/// byte is ignored.
pub open spec fn decoded_url(s: Seq<char>) -> Seq<char>
    decreases s.len(),
{
    if s.len() == 0 {
        Seq::<char>::empty()
    } else if utf8_width(s[0]) == 1 {
        if s.len() == 1 {
            Seq::<char>::empty()
        } else {
            code_output(s[0], s[1]) + decoded_url(s.skip(2))
        }
    } else {
        decoded_url(s.drop_first())
    }
}

/// Table lookup of one code (exec).
pub fn code_to_char(a: char, b: char) -> (r: Option<char>)
    ensures
        r == code_char(a, b),
{
    match (a, b) {
            ('1', '7') => Some('/'),
            ('5', '9') => Some('a'),
            ('5', 'a') => Some('b'),
            ('5', 'b') => Some('c'),
            ('5', 'c') => Some('d'),
            ('5', 'd') => Some('e'),
            ('5', 'e') => Some('f'),
            ('5', 'f') => Some('g'),
            ('5', '0') => Some('h'),
            ('5', '1') => Some('i'),
            ('5', '2') => Some('j'),
            ('5', '3') => Some('k'),
            ('5', '4') => Some('l'),
            ('5', '5') => Some('m'),
            ('5', '6') => Some('n'),
            ('5', '7') => Some('o'),
            ('4', '8') => Some('p'),
            ('4', '9') => Some('q'),
            ('4', 'a') => Some('r'),
            ('4', 'b') => Some('s'),
            ('4', 'c') => Some('t'),
            ('4', 'd') => Some('u'),
            ('4', 'e') => Some('v'),
            ('4', 'f') => Some('w'),
            ('4', '0') => Some('x'),
            ('4', '1') => Some('y'),
            ('4', '2') => Some('z'),
            ('7', '9') => Some('A'),
            ('7', 'a') => Some('B'),
            ('7', 'b') => Some('C'),
            ('7', 'c') => Some('D'),
            ('7', 'd') => Some('E'),
            ('7', 'e') => Some('F'),
            ('7', 'f') => Some('G'),
            ('7', '0') => Some('H'),
            ('7', '1') => Some('I'),
            ('7', '2') => Some('J'),
            ('7', '3') => Some('K'),
            ('7', '4') => Some('L'),
            ('7', '5') => Some('M'),
            ('7', '6') => Some('N'),
            ('7', '7') => Some('O'),
            ('6', '8') => Some('P'),
            ('6', '9') => Some('Q'),
            ('6', 'a') => Some('R'),
            ('6', 'b') => Some('S'),
            ('6', 'c') => Some('T'),
            ('6', 'd') => Some('U'),
            ('6', 'e') => Some('V'),
            ('6', 'f') => Some('W'),
            ('6', '0') => Some('X'),
            ('6', '1') => Some('Y'),
            ('6', '2') => Some('Z'),
            ('0', '8') => Some('0'),
            ('0', '9') => Some('1'),
            ('0', 'a') => Some('2'),
            ('0', 'b') => Some('3'),
            ('0', 'c') => Some('4'),
            ('0', 'd') => Some('5'),
            ('0', 'e') => Some('6'),
            ('0', 'f') => Some('7'),
            ('0', '0') => Some('8'),
            ('0', '1') => Some('9'),
            ('1', '5') => Some('-'),
            ('1', '6') => Some('.'),
            ('6', '7') => Some('_'),
            ('4', '6') => Some('~'),
            ('0', '2') => Some(':'),
            ('0', '7') => Some('?'),
            ('1', 'b') => Some('#'),
            ('6', '3') => Some('['),
            ('6', '5') => Some(']'),
            ('7', '8') => Some('@'),
            ('1', '9') => Some('!'),
            ('1', 'c') => Some('$'),
            ('1', 'e') => Some('&'),
            ('1', '0') => Some('('),
            ('1', '1') => Some(')'),
            ('1', '2') => Some('*'),
            ('1', '3') => Some('+'),
            ('1', '4') => Some(','),
            ('0', '3') => Some(';'),
            ('0', '5') => Some('='),
            ('1', 'd') => Some('%'),
        _ => None,
    }
}

/// Number of bytes of the UTF-8 encoding of `c` (exec).
pub fn char_width(c: char) -> (w: usize)
    ensures
        w == utf8_width(c),
{
    let code = c as u32;
    if code <= 0x7F {
        1
    } else if code <= 0x7FF {
        2
    } else if code <= 0xFFFF {
        3
    } else {
        4
    }
}

/// Whether `decode_url` accepts `encoded` (exec form of `decodable`).
pub fn can_decode(encoded: &str) -> (b: bool)
    ensures
        b == decodable(encoded@),
{
    let s = chars_of(encoded);
    let n = s.len();
    let mut i: usize = 0;
    assert(s@.skip(0) =~= s@);
    while i < n && n - i >= 2
        invariant
            n == s@.len(),
            s@ == encoded@,
            i <= n,
            decodable(s@) == decodable(s@.skip(i as int)),
        decreases n - i,
    {
        let rest = Ghost(s@.skip(i as int));
        assert(rest@.len() == n - i && rest@[0] == s@[i as int] && rest@[1] == s@[i + 1]);
        let w = char_width(s[i]);
        if w == 1 {
            if char_width(s[i + 1]) != 1 {
                return false;
            }
            assert(rest@.skip(2) =~= s@.skip(i + 2));
            i = i + 2;
        } else if w == 2 {
            assert(rest@.drop_first() =~= s@.skip(i + 1));
            i = i + 1;
        } else {
            return false;
        }
    }
    if i < n {
        let rest = Ghost(s@.skip(i as int));
        assert(rest@.len() == 1 && rest@[0] == s@[i as int]);
        assert(rest@.drop_first() =~= Seq::<char>::empty());
        assert(decodable(rest@.drop_first()));
        char_width(s[i]) <= 2
    } else {
        assert(s@.skip(i as int) =~= Seq::<char>::empty());
        true
    }
}

/// Decodes an obfuscated source URL: each pair of hex-like characters
/// stands for one URL character; unknown pairs are dropped.
pub fn decode_url(encoded: &str) -> (r: String)
    requires
        decodable(encoded@),
    ensures
        r@ == decoded_url(encoded@),
{
    let s = chars_of(encoded);
    let n = s.len();
    let mut out: Vec<char> = Vec::new();
    let mut i: usize = 0;
    assert(s@.skip(0) =~= s@);
    assert(out@ + s@ =~= s@);
    while i < n && n - i >= 2
        invariant
            n == s@.len(),
            i <= n,
            decodable(s@.skip(i as int)),
            decoded_url(s@) == out@ + decoded_url(s@.skip(i as int)),
        decreases n - i,
    {
        let rest = Ghost(s@.skip(i as int));
        let before = Ghost(out@);
        assert(rest@.len() == n - i && rest@[0] == s@[i as int] && rest@[1] == s@[i + 1]);
        let w = char_width(s[i]);
        if w == 1 {
            match code_to_char(s[i], s[i + 1]) {
                Some(c) => {
                    out.push(c);
                },
                None => {},
            }
            assert(out@ == before@ + code_output(s@[i as int], s@[i + 1]));
            assert(rest@.skip(2) =~= s@.skip(i + 2));
            i = i + 2;
            assert(decoded_url(s@) =~= out@ + decoded_url(s@.skip(i as int)));
        } else {
            assert(rest@.drop_first() =~= s@.skip(i + 1));
            i = i + 1;
        }
    }
    proof {
        let rest = s@.skip(i as int);
        if i < n {
            assert(rest.len() == 1);
            assert(rest.drop_first() =~= Seq::<char>::empty());
            assert(decoded_url(rest.drop_first()) =~= Seq::<char>::empty());
            assert(decoded_url(rest) =~= Seq::<char>::empty());
        } else {
            assert(rest =~= Seq::<char>::empty());
        }
        assert(out@ + Seq::<char>::empty() =~= out@);
    }
    string_from_chars(&out)
}

} // verus!

verus! {

/// One show in a search answer of the service.
#[derive(Clone)]
pub struct AnimeResult {
    pub id: String,
    pub name: String,
    pub episodes: u64,
}

/// One playable variant of an episode: its quality label and its URL.
#[derive(Clone)]
pub struct StreamLink {
    pub quality: String,
    pub url: String,
}

impl View for StreamLink {
    type V = (Seq<char>, Seq<char>);

    open spec fn view(&self) -> (Seq<char>, Seq<char>) {
        (self.quality@, self.url@)
    }
}

/// Episode counts of a show by translation.
pub struct AvailableEpisodes {
    pub sub: Option<u64>,
    pub dub: Option<u64>,
}

/// One show as the upstream search API lists it.
pub struct ShowEdge {
    pub id: String,
    pub name: String,
    pub available_episodes: AvailableEpisodes,
}

/// One video source of an episode as the upstream API lists it.
pub struct SourceUrl {
    pub source_url: String,
    pub source_name: String,
}

/// Why no stream could be offered.
#[derive(PartialEq, Eq, Structural, Clone, Copy)]
pub enum StreamError {
    /// The episode lists no source at all.
    NoSources,
    /// The source's clock answer lists no link.
    NoLinks,
}

impl StreamError {
    /// The error text the service reports.
    pub fn message(&self) -> (m: String)
        ensures
            m@ == match self {
                StreamError::NoSources => "No sources found"@,
                StreamError::NoLinks => "No links found"@,
            },
    {
        match self {
            StreamError::NoSources => "No sources found".to_owned(),
            StreamError::NoLinks => "No links found".to_owned(),
        }
    }
}

/// The views of a sequence of links.
pub open spec fn link_views(v: Seq<StreamLink>) -> Seq<(Seq<char>, Seq<char>)> {
    v.map_values(|l: StreamLink| l@)
}

/// The search answer for the upstream shows: each keeps its id and name,
/// and its episode count is the subtitled count, 0 when unknown.
pub fn anime_results(edges: &Vec<ShowEdge>) -> (r: Vec<AnimeResult>)
    ensures
        r@.len() == edges@.len(),
        forall|i: int|
            0 <= i < r@.len() ==> {
                &&& (#[trigger] r@[i]).id@ == edges@[i].id@
                &&& r@[i].name@ == edges@[i].name@
                &&& r@[i].episodes == match edges@[i].available_episodes.sub {
                    Some(n) => n,
                    None => 0,
                }
            },
{
    let mut out: Vec<AnimeResult> = Vec::new();
    let n = edges.len();
    for i in 0..n
        invariant
            n == edges@.len(),
            out@.len() == i,
            forall|j: int|
                0 <= j < i ==> {
                    &&& (#[trigger] out@[j]).id@ == edges@[j].id@
                    &&& out@[j].name@ == edges@[j].name@
                    &&& out@[j].episodes == match edges@[j].available_episodes.sub {
                        Some(n) => n,
                        None => 0,
                    }
                },
    {
        let e = &edges[i];
        let episodes = match e.available_episodes.sub {
            Some(n) => n,
            None => 0,
        };
        out.push(AnimeResult { id: e.id.clone(), name: e.name.clone(), episodes });
    }
    out
}

/// The stream answer with JSON escapes undone the way the service does it:
/// every `\u002F` becomes `/`, then every remaining backslash is dropped.
pub open spec fn unescaped(raw: Seq<char>) -> Seq<char> {
    replace_all(replace_all(raw, "\\u002F"@, "/"@), "\\"@, Seq::<char>::empty())
}

/// Undoes the escapes of a raw stream answer before it is parsed.
pub fn unescape_response(raw: &str) -> (r: String)
    ensures
        r@ == unescaped(raw@),
{
    proof {
        reveal_strlit("\\u002F");
        reveal_strlit("\\");
    }
    let s = chars_of(raw);
    let slash_code = chars_of("\\u002F");
    let slash = chars_of("/");
    let backslash = chars_of("\\");
    let nothing: Vec<char> = Vec::new();
    let step = replace(&s, &slash_code, &slash);
    let done = replace(&step, &backslash, &nothing);
    assert(nothing@ =~= Seq::<char>::empty());
    string_from_chars(&done)
}

/// Index of the first source named `name`.
pub open spec fn first_named(names: Seq<Seq<char>>, name: Seq<char>) -> Option<int>
    decreases names.len(),
{
    if names.len() == 0 {
        None
    } else if names[0] == name {
        Some(0)
    } else {
        match first_named(names.drop_first(), name) {
            Some(k) => Some(k + 1),
            None => None,
        }
    }
}

/// The source names of a list of sources.
pub open spec fn source_names(v: Seq<SourceUrl>) -> Seq<Seq<char>> {
    v.map_values(|s: SourceUrl| s.source_name@)
}

/// The source the service streams from: the first one named `Default`,
/// else the first named `Luf-Mp4`, else the first of all.
pub open spec fn chosen_source(names: Seq<Seq<char>>) -> Option<int> {
    match first_named(names, "Default"@) {
        Some(k) => Some(k),
        None => match first_named(names, "Luf-Mp4"@) {
            Some(k) => Some(k),
            None => if names.len() > 0 {
                Some(0)
            } else {
                None
            },
        },
    }
}

/// The position of the first source called `name` (exec).
fn find_named(sources: &Vec<SourceUrl>, name: &str) -> (r: Option<usize>)
    ensures
        match r {
            Some(k) => first_named(source_names(sources@), name@) == Some(k as int),
            None => first_named(source_names(sources@), name@) is None,
        },
{
    let target = name.to_owned();
    let n = sources.len();
    let ghost names = source_names(sources@);
    let mut i: usize = 0;
    assert(names.skip(0) =~= names);
    while i < n
        invariant
            n == sources@.len(),
            names == source_names(sources@),
            target@ == name@,
            i <= n,
            first_named(names, name@) == match first_named(names.skip(i as int), name@) {
                Some(k) => Some(k + i),
                None => None,
            },
        decreases n - i,
    {
        let rest = Ghost(names.skip(i as int));
        assert(rest@[0] == sources@[i as int].source_name@);
        if sources[i].source_name == target {
            return Some(i);
        }
        assert(rest@.drop_first() =~= names.skip(i + 1));
        i += 1;
    }
    assert(names.skip(i as int).len() == 0);
    None
}

/// Picks the source to stream from (see `chosen_source`), or reports that
/// there is none.
pub fn select_source(sources: &Vec<SourceUrl>) -> (r: Result<usize, StreamError>)
    ensures
        match r {
            Ok(k) => chosen_source(source_names(sources@)) == Some(k as int),
            Err(e) => e == StreamError::NoSources && chosen_source(source_names(sources@)) is None,
        },
{
    match find_named(sources, "Default") {
        Some(k) => Ok(k),
        None => match find_named(sources, "Luf-Mp4") {
            Some(k) => Ok(k),
            None => if sources.len() > 0 {
                Ok(0)
            } else {
                Err(StreamError::NoSources)
            },
        },
    }
}

/// The clock URL for a source URL: the `--` prefixes are cut, the rest is
/// decoded, and a path is made absolute on the streaming host with its
/// `/clock` endpoint asked in JSON form.
pub open spec fn clock_url_spec(source_url: Seq<char>) -> Seq<char> {
    let decoded = decoded_url(trim_start_seq(source_url, "--"@));
    if has_prefix(decoded, "/"@) {
        replace_all("https://allanime.day"@ + decoded, "/clock"@, "/clock.json"@)
    } else {
        decoded
    }
}

/// Whether the service can decode `source_url` (after the `--` prefixes).
pub open spec fn source_decodable(source_url: Seq<char>) -> bool {
    decodable(trim_start_seq(source_url, "--"@))
}

/// Whether `clock_url` accepts `source_url` (exec form of `source_decodable`).
pub fn can_make_clock_url(source_url: &str) -> (b: bool)
    ensures
        b == source_decodable(source_url@),
{
    proof {
        reveal_strlit("--");
    }
    let s = chars_of(source_url);
    let dashes = chars_of("--");
    let encoded = trim_start(&s, &dashes);
    let e = string_from_chars(&encoded);
    can_decode(e.as_str())
}

/// The URL of the clock endpoint that lists the links of a source.
pub fn clock_url(source_url: &str) -> (r: String)
    requires
        source_decodable(source_url@),
    ensures
        r@ == clock_url_spec(source_url@),
{
    proof {
        reveal_strlit("--");
        reveal_strlit("/clock");
    }
    let s = chars_of(source_url);
    let dashes = chars_of("--");
    let encoded = trim_start(&s, &dashes);
    let e = string_from_chars(&encoded);
    let decoded = decode_url(e.as_str());
    let d = chars_of(decoded.as_str());
    let root = chars_of("/");
    if starts_with(&d, &root) {
        let host = chars_of("https://allanime.day");
        let full = concat_chars(&host, &d);
        let from = chars_of("/clock");
        let to = chars_of("/clock.json");
        let r = replace(&full, &from, &to);
        string_from_chars(&r)
    } else {
        decoded
    }
}

/// The master playlist link: the first link of the clock answer.
pub fn master_link(links: &Vec<String>) -> (r: Result<String, StreamError>)
    ensures
        match r {
            Ok(u) => links@.len() > 0 && u@ == links@[0]@,
            Err(e) => e == StreamError::NoLinks && links@.len() == 0,
        },
{
    if links.len() == 0 {
        Err(StreamError::NoLinks)
    } else {
        Ok(links[0].clone())
    }
}

} // verus!

verus! {

/// The tag of a variant entry in an HLS master playlist.
pub open spec fn stream_tag() -> Seq<char> {
    "#EXT-X-STREAM-INF"@
}

/// Index of the first field that contains `pat`.
pub open spec fn first_containing(fields: Seq<Seq<char>>, pat: Seq<char>) -> Option<int>
    decreases fields.len(),
{
    if fields.len() == 0 {
        None
    } else if contains_seq(fields[0], pat) {
        Some(0)
    } else {
        match first_containing(fields.drop_first(), pat) {
            Some(k) => Some(k + 1),
            None => None,
        }
    }
}

/// The resolution of a variant line: of its comma-separated attributes the
/// first that contains `RESOLUTION=`, the text after its first `=` (up to a
/// next `=`); `unknown` when there is none.
pub open spec fn resolution_of(line: Seq<char>) -> Seq<char> {
    let fields = split_on(line, ',');
    match first_containing(fields, "RESOLUTION="@) {
        Some(k) => {
            let parts = split_on(fields[k], '=');
            if parts.len() > 1 {
                parts[1]
            } else {
                "unknown"@
            }
        },
        None => "unknown"@,
    }
}

/// The quality label of a resolution: its height followed by `p`
/// (`1280x720` gives `720p`), or the resolution itself without an `x`.
pub open spec fn quality_of(res: Seq<char>) -> Seq<char> {
    let parts = split_on(res, 'x');
    if parts.len() > 1 {
        parts[1] + "p"@
    } else {
        res
    }
}

/// The directory of the master playlist URL: the text before its last `/`,
/// or nothing.
pub open spec fn base_url_of(master: Seq<char>) -> Seq<char> {
    match last_index_of(master, '/') {
        Some(i) => master.take(i),
        None => Seq::<char>::empty(),
    }
}

/// The URL of a variant: an absolute `http` line as it is, else the line
/// under the playlist's directory.
pub open spec fn variant_url(line: Seq<char>, base: Seq<char>) -> Seq<char> {
    if has_prefix(line, "http"@) {
        line
    } else {
        base + "/"@ + line
    }
}

/// The variants announced among the first `n` lines: each tagged line that
/// has a next line gives its quality and the URL on that next line.
pub open spec fn variants(lines: Seq<Seq<char>>, base: Seq<char>, n: int) -> Seq<
    (Seq<char>, Seq<char>),
>
    decreases n,
{
    if n <= 0 {
        Seq::empty()
    } else {
        let prev = variants(lines, base, n - 1);
        let line = lines[n - 1];
        if has_prefix(line, stream_tag()) && n < lines.len() {
            prev.push((quality_of(resolution_of(line)), variant_url(lines[n], base)))
        } else {
            prev
        }
    }
}

/// The links a master playlist offers, in playlist order; the master itself
/// as `auto` when the playlist announces no variant.
pub open spec fn playlist_variants(m3u8: Seq<char>, master: Seq<char>) -> Seq<
    (Seq<char>, Seq<char>),
> {
    let ls = lines_of(m3u8);
    let found = variants(ls, base_url_of(master), ls.len() as int);
    if found.len() == 0 {
        seq![("auto"@, master)]
    } else {
        found
    }
}

/// The height by which a quality label is ranked: the label without its
/// trailing `p`s read as a `u32`, 0 when that fails.
pub open spec fn quality_height(q: Seq<char>) -> nat {
    match parse_u32_spec(trim_end_char(q, 'p')) {
        Some(v) => v as nat,
        None => 0,
    }
}

/// Best quality first: heights never grow along the sequence.
pub open spec fn best_first(s: Seq<(Seq<char>, Seq<char>)>) -> bool {
    forall|i: int, j: int|
        0 <= i < j < s.len() ==> quality_height(#[trigger] s[i].0) >= quality_height(
            #[trigger] s[j].0,
        )
}

/// The links of `s` whose height is `h`, in their order in `s`.
pub open spec fn of_height(s: Seq<(Seq<char>, Seq<char>)>, h: nat) -> Seq<
    (Seq<char>, Seq<char>),
>
    decreases s.len(),
{
    if s.len() == 0 {
        s
    } else {
        let prev = of_height(s.drop_last(), h);
        if quality_height(s.last().0) == h {
            prev.push(s.last())
        } else {
            prev
        }
    }
}

/// `of_height` distributes over concatenation.
pub proof fn lemma_of_height_concat(a: Seq<(Seq<char>, Seq<char>)>, b: Seq<(Seq<char>, Seq<char>)>, h: nat)
    ensures
        of_height(a + b, h) == of_height(a, h) + of_height(b, h),
    decreases b.len(),
{
    if b.len() == 0 {
        assert(a + b =~= a);
        assert(of_height(b, h) =~= Seq::<(Seq<char>, Seq<char>)>::empty());
        assert(of_height(a, h) + of_height(b, h) =~= of_height(a, h));
    } else {
        lemma_of_height_concat(a, b.drop_last(), h);
        assert((a + b).drop_last() =~= a + b.drop_last());
        assert((a + b).last() == b.last());
        if quality_height(b.last().0) == h {
            assert(of_height(a, h) + of_height(b, h) =~= (of_height(a, h) + of_height(
                b.drop_last(),
                h,
            )).push(b.last()));
        }
    }
}

/// Links all of another height have no link of height `h`.
pub proof fn lemma_of_height_none(s: Seq<(Seq<char>, Seq<char>)>, h: nat)
    requires
        forall|i: int| 0 <= i < s.len() ==> quality_height(#[trigger] s[i].0) != h,
    ensures
        of_height(s, h) == Seq::<(Seq<char>, Seq<char>)>::empty(),
    decreases s.len(),
{
    if s.len() > 0 {
        assert forall|i: int| 0 <= i < s.drop_last().len() implies quality_height(
            #[trigger] s.drop_last()[i].0,
        ) != h by {
            assert(s.drop_last()[i] == s[i]);
        }
        lemma_of_height_none(s.drop_last(), h);
    }
}

/// The ranking height of a quality label (exec).
pub fn height_of(quality: &String) -> (h: u32)
    ensures
        h as nat == quality_height(quality@),
{
    let q = chars_of(quality.as_str());
    let digits = trim_end(&q, 'p');
    match parse_u32(&digits) {
        Some(v) => v,
        None => 0,
    }
}

/// Orders links best quality first. Links of equal height keep their order
/// (the sort is stable).
pub fn sort_by_quality(links: Vec<StreamLink>) -> (r: Vec<StreamLink>)
    ensures
        r@.len() == links@.len(),
        best_first(link_views(r@)),
        forall|h: nat| #[trigger] of_height(link_views(r@), h) == of_height(link_views(links@), h),
{
    let n = links.len();
    let mut out: Vec<StreamLink> = Vec::new();
    let mut i: usize = 0;
    while i < n
        invariant
            n == links@.len(),
            i <= n,
            out@.len() == i,
            best_first(link_views(out@)),
            forall|h: nat|
                #[trigger] of_height(link_views(out@), h) == of_height(
                    link_views(links@).take(i as int),
                    h,
                ),
        decreases n - i,
    {
        let x = StreamLink { quality: links[i].quality.clone(), url: links[i].url.clone() };
        let hx = height_of(&x.quality);
        let ghost o = link_views(out@);
        let ghost xv = x@;
        assert(xv == link_views(links@)[i as int]);
        let mut p: usize = 0;
        while p < out.len() && height_of(&out[p].quality) >= hx
            invariant
                p <= out@.len(),
                o == link_views(out@),
                forall|k: int| 0 <= k < p ==> quality_height(#[trigger] o[k].0) >= hx,
            decreases out@.len() - p,
        {
            p += 1;
        }
        proof {
            assert forall|k: int| p <= k < o.len() implies quality_height(#[trigger] o[k].0) < hx by {
                assert(quality_height(o[p as int].0) < hx);
                if k > p {
                    assert(quality_height(o[p as int].0) >= quality_height(o[k].0));
                }
            }
        }
        out.insert(p, x);
        let ghost nv = link_views(out@);
        assert(nv =~= o.take(p as int) + seq![xv] + o.skip(p as int));
        proof {
            assert forall|a: int, b: int| 0 <= a < b < nv.len() implies quality_height(
                #[trigger] nv[a].0,
            ) >= quality_height(#[trigger] nv[b].0) by {
                if b < p {
                    assert(nv[a] == o[a] && nv[b] == o[b]);
                } else if b == p {
                    assert(nv[a] == o[a]);
                } else if a < p {
                    assert(nv[a] == o[a] && nv[b] == o[b - 1]);
                } else if a == p {
                    assert(nv[b] == o[b - 1]);
                } else {
                    assert(nv[a] == o[a - 1] && nv[b] == o[b - 1]);
                }
            }
            assert(link_views(links@).take(i + 1) =~= link_views(links@).take(i as int).push(xv));
            assert forall|h: nat| #[trigger] of_height(nv, h) == of_height(
                link_views(links@).take(i + 1),
                h,
            ) by {
                let front = o.take(p as int);
                let back = o.skip(p as int);
                assert(o =~= front + back);
                lemma_of_height_concat(front, back, h);
                lemma_of_height_concat(front + seq![xv], back, h);
                lemma_of_height_concat(front, seq![xv], h);
                assert(seq![xv].drop_last() =~= Seq::<(Seq<char>, Seq<char>)>::empty());
                assert(of_height(seq![xv].drop_last(), h) =~= Seq::<(Seq<char>, Seq<char>)>::empty());
                assert(seq![xv].last() == xv);
                if h == quality_height(xv.0) {
                    assert forall|k: int| 0 <= k < back.len() implies quality_height(
                        #[trigger] back[k].0,
                    ) != h by {
                        assert(back[k] == o[p + k]);
                    }
                    lemma_of_height_none(back, h);
                    assert(of_height(seq![xv], h) =~= seq![xv]);
                } else {
                    assert(of_height(seq![xv], h) =~= Seq::<(Seq<char>, Seq<char>)>::empty());
                }
                assert(link_views(links@).take(i + 1).drop_last() =~= link_views(links@).take(
                    i as int,
                ));
            }
        }
        i += 1;
    }
    assert(link_views(links@).take(n as int) =~= link_views(links@));
    out
}

} // verus!

verus! {

/// The resolution attribute of a variant line (exec form of `resolution_of`).
fn resolution(line: &Vec<char>) -> (r: Vec<char>)
    ensures
        r@ == resolution_of(line@),
{
    let fields = split(line, ',');
    let pat = chars_of("RESOLUTION=");
    let ghost fv = views(fields@);
    let n = fields.len();
    let mut k: usize = 0;
    assert(fv.skip(0) =~= fv);
    while k < n
        invariant
            n == fields@.len(),
            fv == views(fields@),
            fv == split_on(line@, ','),
            pat@ == "RESOLUTION="@,
            k <= n,
            first_containing(fv, pat@) == match first_containing(fv.skip(k as int), pat@) {
                Some(j) => Some(j + k),
                None => None,
            },
        decreases n - k,
    {
        let rest = Ghost(fv.skip(k as int));
        assert(rest@[0] == fields@[k as int]@);
        if contains(&fields[k], &pat) {
            let parts = split(&fields[k], '=');
            assert(views(parts@).len() == parts@.len());
            if parts.len() > 1 {
                assert(views(parts@)[1] == parts@[1]@);
                return copy_chars(&parts[1]);
            } else {
                return chars_of("unknown");
            }
        }
        assert(rest@.drop_first() =~= fv.skip(k + 1));
        k += 1;
    }
    assert(fv.skip(k as int).len() == 0);
    chars_of("unknown")
}

/// The quality label of a resolution (exec form of `quality_of`).
fn quality(res: &Vec<char>) -> (r: Vec<char>)
    ensures
        r@ == quality_of(res@),
{
    let parts = split(res, 'x');
    assert(views(parts@).len() == parts@.len());
    if parts.len() > 1 {
        assert(views(parts@)[1] == parts@[1]@);
        let p = chars_of("p");
        concat_chars(&parts[1], &p)
    } else {
        copy_chars(res)
    }
}

/// The directory of the master playlist URL (exec form of `base_url_of`).
fn base_url(master: &Vec<char>) -> (r: Vec<char>)
    ensures
        r@ == base_url_of(master@),
{
    match find_last(master, '/') {
        Some(i) => slice_chars(master, 0, i),
        None => Vec::new(),
    }
}

/// The URL of a variant (exec form of `variant_url`).
fn variant_link(line: &Vec<char>, base: &Vec<char>) -> (r: Vec<char>)
    ensures
        r@ == variant_url(line@, base@),
{
    let http = chars_of("http");
    if starts_with(line, &http) {
        copy_chars(line)
    } else {
        let slash = chars_of("/");
        let dir = concat_chars(base, &slash);
        concat_chars(&dir, line)
    }
}

/// The links a master playlist offers, in playlist order, or the master
/// itself as `auto` when it announces none.
pub fn variant_links(m3u8: &str, master_url: &str) -> (r: Vec<StreamLink>)
    ensures
        link_views(r@) == playlist_variants(m3u8@, master_url@),
{
    let text = chars_of(m3u8);
    let master = chars_of(master_url);
    let ls = lines(&text);
    let ghost lv = views(ls@);
    let base = base_url(&master);
    let tag = chars_of("#EXT-X-STREAM-INF");
    let n = ls.len();
    assert(lv.len() == n);
    let mut out: Vec<StreamLink> = Vec::new();
    let mut i: usize = 0;
    while i < n
        invariant
            n == ls@.len(),
            lv == views(ls@),
            lv == lines_of(m3u8@),
            base@ == base_url_of(master_url@),
            tag@ == stream_tag(),
            i <= n,
            link_views(out@) == variants(lv, base@, i as int),
        decreases n - i,
    {
        assert(lv[i as int] == ls@[i as int]@);
        let ghost before = link_views(out@);
        if starts_with(&ls[i], &tag) && i + 1 < n {
            assert(lv[i + 1] == ls@[i + 1]@);
            let res = resolution(&ls[i]);
            let q = quality(&res);
            let u = variant_link(&ls[i + 1], &base);
            let link = StreamLink { quality: string_from_chars(&q), url: string_from_chars(&u) };
            out.push(link);
            assert(link_views(out@) =~= before.push(
                (quality_of(resolution_of(lv[i as int])), variant_url(lv[i + 1], base@)),
            ));
        }
        i += 1;
    }
    if out.len() == 0 {
        let link = StreamLink { quality: "auto".to_owned(), url: master_url.to_owned() };
        out.push(link);
        assert(link_views(out@) =~= seq![("auto"@, master_url@)]);
    }
    out
}

/// The stream links of a master playlist, best quality first: the
/// announced variants (or the master as `auto`), sorted stably by height.
pub fn playlist_links(m3u8: &str, master_url: &str) -> (r: Vec<StreamLink>)
    ensures
        r@.len() >= 1,
        best_first(link_views(r@)),
        forall|h: nat|
            #[trigger] of_height(link_views(r@), h) == of_height(
                playlist_variants(m3u8@, master_url@),
                h,
            ),
{
    let found = variant_links(m3u8, master_url);
    let r = sort_by_quality(found);
    assert(link_views(found@).len() == found@.len());
    r
}

} // verus!

verus! {

/// After the escapes of a stream answer are undone, no backslash is left.
pub proof fn law_unescaped_has_no_backslash(raw: Seq<char>)
    ensures
        forall|i: int| 0 <= i < unescaped(raw).len() ==> #[trigger] unescaped(raw)[i] != '\\',
{
    reveal_strlit("\\");
    assert("\\"@ =~= seq!['\\']);
    crate::text::lemma_replace_removes_char(replace_all(raw, "\\u002F"@, "/"@), '\\');
}

/// A decoded URL has at most one character for every two of the code.
pub proof fn law_decoded_url_halves(s: Seq<char>)
    ensures
        decoded_url(s).len() * 2 <= s.len(),
    decreases s.len(),
{
    if s.len() > 0 {
        if utf8_width(s[0]) == 1 {
            if s.len() > 1 {
                law_decoded_url_halves(s.skip(2));
            }
        } else {
            law_decoded_url_halves(s.drop_first());
        }
    }
}

/// The last link of a best-first list has the least height.
proof fn lemma_last_is_lowest(a: Seq<(Seq<char>, Seq<char>)>, i: int)
    requires
        best_first(a),
        0 <= i < a.len(),
    ensures
        quality_height(a[i].0) >= quality_height(a.last().0),
{
    if i < a.len() - 1 {
        assert(quality_height(a[i].0) >= quality_height(a[a.len() - 1].0));
    }
}

/// A link of `s` with height `h` shows up among `of_height(s, h)`.
proof fn lemma_of_height_member(s: Seq<(Seq<char>, Seq<char>)>, h: nat, i: int)
    requires
        0 <= i < s.len(),
        quality_height(s[i].0) == h,
    ensures
        of_height(s, h).len() > 0,
    decreases s.len(),
{
    if i < s.len() - 1 {
        lemma_of_height_member(s.drop_last(), h, i);
        assert(s.drop_last()[i] == s[i]);
    }
}

/// Every link among `of_height(s, h)` has height `h` and is in `s`.
proof fn lemma_of_height_members(s: Seq<(Seq<char>, Seq<char>)>, h: nat, j: int)
    requires
        0 <= j < of_height(s, h).len(),
    ensures
        quality_height(of_height(s, h)[j].0) == h,
        exists|i: int| 0 <= i < s.len() && s[i] == of_height(s, h)[j],
    decreases s.len(),
{
    let prev = of_height(s.drop_last(), h);
    if quality_height(s.last().0) == h && j == prev.len() {
        assert(s[s.len() - 1] == of_height(s, h)[j]);
    } else {
        lemma_of_height_members(s.drop_last(), h, j);
        let i = choose|i: int| 0 <= i < s.drop_last().len() && s.drop_last()[i] == prev[j];
        assert(s[i] == of_height(s, h)[j]);
    }
}

/// Two best-first lists with the same links of every height are equal: the
/// order that `sort_by_quality` gives is determined by its contract.
#[verifier::rlimit(40)]
pub proof fn law_best_first_is_unique(a: Seq<(Seq<char>, Seq<char>)>, b: Seq<(Seq<char>, Seq<char>)>)
    requires
        best_first(a),
        best_first(b),
        forall|h: nat| #[trigger] of_height(a, h) == of_height(b, h),
    ensures
        a == b,
    decreases a.len() + b.len(),
{
    if a.len() == 0 && b.len() == 0 {
        assert(a =~= b);
    } else if a.len() == 0 {
        let hb = quality_height(b.last().0);
        lemma_of_height_member(b, hb, b.len() - 1);
        assert(of_height(a, hb) == of_height(b, hb));
    } else if b.len() == 0 {
        let ha = quality_height(a.last().0);
        lemma_of_height_member(a, ha, a.len() - 1);
        assert(of_height(a, ha) == of_height(b, ha));
    } else {
        let ha = quality_height(a.last().0);
        let hb = quality_height(b.last().0);
        // the lowest heights agree
        assert(of_height(a, ha) == of_height(b, ha));
        lemma_of_height_member(a, ha, a.len() - 1);
        lemma_of_height_members(b, ha, 0);
        let ib = choose|i: int| 0 <= i < b.len() && b[i] == of_height(b, ha)[0];
        lemma_last_is_lowest(b, ib);
        assert(of_height(a, hb) == of_height(b, hb));
        lemma_of_height_member(b, hb, b.len() - 1);
        lemma_of_height_members(a, hb, 0);
        let ia = choose|i: int| 0 <= i < a.len() && a[i] == of_height(a, hb)[0];
        lemma_last_is_lowest(a, ia);
        assert(ha == hb);
        // so do the last links
        assert(of_height(a, ha).last() == a.last());
        assert(of_height(b, ha).last() == b.last());
        assert(a.last() == b.last());
        // and the rest
        assert forall|h: nat| #[trigger] of_height(a.drop_last(), h) == of_height(b.drop_last(), h) by {
            assert(of_height(a, h) == of_height(b, h));
            if h == ha {
                assert(of_height(a.drop_last(), h) =~= of_height(a, h).drop_last());
                assert(of_height(b.drop_last(), h) =~= of_height(b, h).drop_last());
            }
        }
        assert forall|i: int, j: int| 0 <= i < j < a.drop_last().len() implies quality_height(
            #[trigger] a.drop_last()[i].0,
        ) >= quality_height(#[trigger] a.drop_last()[j].0) by {
            assert(a.drop_last()[i] == a[i] && a.drop_last()[j] == a[j]);
        }
        assert forall|i: int, j: int| 0 <= i < j < b.drop_last().len() implies quality_height(
            #[trigger] b.drop_last()[i].0,
        ) >= quality_height(#[trigger] b.drop_last()[j].0) by {
            assert(b.drop_last()[i] == b[i] && b.drop_last()[j] == b[j]);
        }
        law_best_first_is_unique(a.drop_last(), b.drop_last());
        assert(a =~= a.drop_last().push(a.last()));
        assert(b =~= b.drop_last().push(b.last()));
    }
}

} // verus!

verus! {

/// The value of a lower-case hexadecimal digit.
pub open spec fn hex_value(c: char) -> Option<int> {
    if '0' <= c && c <= '9' {
        Some(c as int - 48)
    } else if 'a' <= c && c <= 'f' {
        Some(c as int - 87)
    } else {
        None
    }
}

/// The lower-case hexadecimal digit of `d < 16`.
pub open spec fn hex_lower(d: int) -> char {
    if d < 10 {
        (48 + d) as char
    } else {
        (87 + d) as char
    }
}

/// The characters a source URL is written in: ASCII letters and digits and
/// the URL punctuation `!#$%&()*+,-./:;=?@[]_~`.
pub open spec fn url_char(c: char) -> bool {
    ('a' <= c && c <= 'z') || ('A' <= c && c <= 'Z') || ('0' <= c && c <= '9') || c == '!' || c == '#' || c == '$' || c == '%' || c == '&' || c == '(' || c == ')' || c == '*' || c == '+' || c == ',' || c == '-' || c == '.' || c == '/' || c == ':' || c == ';' || c == '=' || c == '?' || c == '@' || c == '[' || c == ']' || c == '_' || c == '~'
}

/// XOR with 0x38 of a byte, in arithmetic: bits 4 and 5 of the high nibble
/// and bit 3 of the low nibble flip.
proof fn lemma_xor_0x38(x: u32)
    requires
        x < 256,
    ensures
        (x ^ 0x38u32) as int == 16 * ((x as int / 16) / 4 * 4 + 3 - (x as int / 16) % 4) + (if x as int
            % 16 >= 8 {
            x as int % 16 - 8
        } else {
            x as int % 16 + 8
        }),
{
    assert(x ^ 0x38u32 == 16u32 * (((x / 16u32) / 4u32) * 4u32 + 3u32 - (x / 16u32) % 4u32) + (if x
        % 16u32 >= 8u32 {
        x % 16u32 - 8u32
    } else {
        x % 16u32 + 8u32
    })) by (bit_vector)
        requires
            x < 256u32,
    ;
}

/// Each known code is the hex of its character XOR 0x38.
#[verifier::rlimit(50)]
proof fn lemma_known_codes_are_xor(a: char, b: char)
    requires
        code_char(a, b) is Some,
    ensures
        hex_value(a) matches Some(ha) && hex_value(b) matches Some(hb) && code_char(a, b).unwrap()
            as u32 == ((ha * 16 + hb) as u32 ^ 0x38u32) && url_char(code_char(a, b).unwrap()),
{
    let v = (hex_value(a).unwrap() * 16 + hex_value(b).unwrap()) as u32;
    if a == '1' && b == '7' {
        assert(code_char(a, b) == Some('/'));
    } else if a == '5' && b == '9' {
        assert(code_char(a, b) == Some('a'));
    } else if a == '5' && b == 'a' {
        assert(code_char(a, b) == Some('b'));
    } else if a == '5' && b == 'b' {
        assert(code_char(a, b) == Some('c'));
    } else if a == '5' && b == 'c' {
        assert(code_char(a, b) == Some('d'));
    } else if a == '5' && b == 'd' {
        assert(code_char(a, b) == Some('e'));
    } else if a == '5' && b == 'e' {
        assert(code_char(a, b) == Some('f'));
    } else if a == '5' && b == 'f' {
        assert(code_char(a, b) == Some('g'));
    } else if a == '5' && b == '0' {
        assert(code_char(a, b) == Some('h'));
    } else if a == '5' && b == '1' {
        assert(code_char(a, b) == Some('i'));
    } else if a == '5' && b == '2' {
        assert(code_char(a, b) == Some('j'));
    } else if a == '5' && b == '3' {
        assert(code_char(a, b) == Some('k'));
    } else if a == '5' && b == '4' {
        assert(code_char(a, b) == Some('l'));
    } else if a == '5' && b == '5' {
        assert(code_char(a, b) == Some('m'));
    } else if a == '5' && b == '6' {
        assert(code_char(a, b) == Some('n'));
    } else if a == '5' && b == '7' {
        assert(code_char(a, b) == Some('o'));
    } else if a == '4' && b == '8' {
        assert(code_char(a, b) == Some('p'));
    } else if a == '4' && b == '9' {
        assert(code_char(a, b) == Some('q'));
    } else if a == '4' && b == 'a' {
        assert(code_char(a, b) == Some('r'));
    } else if a == '4' && b == 'b' {
        assert(code_char(a, b) == Some('s'));
    } else if a == '4' && b == 'c' {
        assert(code_char(a, b) == Some('t'));
    } else if a == '4' && b == 'd' {
        assert(code_char(a, b) == Some('u'));
    } else if a == '4' && b == 'e' {
        assert(code_char(a, b) == Some('v'));
    } else if a == '4' && b == 'f' {
        assert(code_char(a, b) == Some('w'));
    } else if a == '4' && b == '0' {
        assert(code_char(a, b) == Some('x'));
    } else if a == '4' && b == '1' {
        assert(code_char(a, b) == Some('y'));
    } else if a == '4' && b == '2' {
        assert(code_char(a, b) == Some('z'));
    } else if a == '7' && b == '9' {
        assert(code_char(a, b) == Some('A'));
    } else if a == '7' && b == 'a' {
        assert(code_char(a, b) == Some('B'));
    } else if a == '7' && b == 'b' {
        assert(code_char(a, b) == Some('C'));
    } else if a == '7' && b == 'c' {
        assert(code_char(a, b) == Some('D'));
    } else if a == '7' && b == 'd' {
        assert(code_char(a, b) == Some('E'));
    } else if a == '7' && b == 'e' {
        assert(code_char(a, b) == Some('F'));
    } else if a == '7' && b == 'f' {
        assert(code_char(a, b) == Some('G'));
    } else if a == '7' && b == '0' {
        assert(code_char(a, b) == Some('H'));
    } else if a == '7' && b == '1' {
        assert(code_char(a, b) == Some('I'));
    } else if a == '7' && b == '2' {
        assert(code_char(a, b) == Some('J'));
    } else if a == '7' && b == '3' {
        assert(code_char(a, b) == Some('K'));
    } else if a == '7' && b == '4' {
        assert(code_char(a, b) == Some('L'));
    } else if a == '7' && b == '5' {
        assert(code_char(a, b) == Some('M'));
    } else if a == '7' && b == '6' {
        assert(code_char(a, b) == Some('N'));
    } else if a == '7' && b == '7' {
        assert(code_char(a, b) == Some('O'));
    } else if a == '6' && b == '8' {
        assert(code_char(a, b) == Some('P'));
    } else if a == '6' && b == '9' {
        assert(code_char(a, b) == Some('Q'));
    } else if a == '6' && b == 'a' {
        assert(code_char(a, b) == Some('R'));
    } else if a == '6' && b == 'b' {
        assert(code_char(a, b) == Some('S'));
    } else if a == '6' && b == 'c' {
        assert(code_char(a, b) == Some('T'));
    } else if a == '6' && b == 'd' {
        assert(code_char(a, b) == Some('U'));
    } else if a == '6' && b == 'e' {
        assert(code_char(a, b) == Some('V'));
    } else if a == '6' && b == 'f' {
        assert(code_char(a, b) == Some('W'));
    } else if a == '6' && b == '0' {
        assert(code_char(a, b) == Some('X'));
    } else if a == '6' && b == '1' {
        assert(code_char(a, b) == Some('Y'));
    } else if a == '6' && b == '2' {
        assert(code_char(a, b) == Some('Z'));
    } else if a == '0' && b == '8' {
        assert(code_char(a, b) == Some('0'));
    } else if a == '0' && b == '9' {
        assert(code_char(a, b) == Some('1'));
    } else if a == '0' && b == 'a' {
        assert(code_char(a, b) == Some('2'));
    } else if a == '0' && b == 'b' {
        assert(code_char(a, b) == Some('3'));
    } else if a == '0' && b == 'c' {
        assert(code_char(a, b) == Some('4'));
    } else if a == '0' && b == 'd' {
        assert(code_char(a, b) == Some('5'));
    } else if a == '0' && b == 'e' {
        assert(code_char(a, b) == Some('6'));
    } else if a == '0' && b == 'f' {
        assert(code_char(a, b) == Some('7'));
    } else if a == '0' && b == '0' {
        assert(code_char(a, b) == Some('8'));
    } else if a == '0' && b == '1' {
        assert(code_char(a, b) == Some('9'));
    } else if a == '1' && b == '5' {
        assert(code_char(a, b) == Some('-'));
    } else if a == '1' && b == '6' {
        assert(code_char(a, b) == Some('.'));
    } else if a == '6' && b == '7' {
        assert(code_char(a, b) == Some('_'));
    } else if a == '4' && b == '6' {
        assert(code_char(a, b) == Some('~'));
    } else if a == '0' && b == '2' {
        assert(code_char(a, b) == Some(':'));
    } else if a == '0' && b == '7' {
        assert(code_char(a, b) == Some('?'));
    } else if a == '1' && b == 'b' {
        assert(code_char(a, b) == Some('#'));
    } else if a == '6' && b == '3' {
        assert(code_char(a, b) == Some('['));
    } else if a == '6' && b == '5' {
        assert(code_char(a, b) == Some(']'));
    } else if a == '7' && b == '8' {
        assert(code_char(a, b) == Some('@'));
    } else if a == '1' && b == '9' {
        assert(code_char(a, b) == Some('!'));
    } else if a == '1' && b == 'c' {
        assert(code_char(a, b) == Some('$'));
    } else if a == '1' && b == 'e' {
        assert(code_char(a, b) == Some('&'));
    } else if a == '1' && b == '0' {
        assert(code_char(a, b) == Some('('));
    } else if a == '1' && b == '1' {
        assert(code_char(a, b) == Some(')'));
    } else if a == '1' && b == '2' {
        assert(code_char(a, b) == Some('*'));
    } else if a == '1' && b == '3' {
        assert(code_char(a, b) == Some('+'));
    } else if a == '1' && b == '4' {
        assert(code_char(a, b) == Some(','));
    } else if a == '0' && b == '3' {
        assert(code_char(a, b) == Some(';'));
    } else if a == '0' && b == '5' {
        assert(code_char(a, b) == Some('='));
    } else if a == '1' && b == 'd' {
        assert(code_char(a, b) == Some('%'));
    }
    if hex_value(a) is Some && hex_value(b) is Some {
        lemma_xor_0x38(v);
    }
}

/// Each URL character is known under the hex of its code XOR 0x38.
#[verifier::rlimit(50)]
proof fn lemma_url_chars_are_known(c: char)
    requires
        url_char(c),
    ensures
        code_char(
            hex_lower(((c as u32 ^ 0x38u32) / 16) as int),
            hex_lower(((c as u32 ^ 0x38u32) % 16) as int),
        ) == Some(c),
{
    lemma_xor_0x38(c as u32);
    if c == '/' {
    } else if c == 'a' {
    } else if c == 'b' {
    } else if c == 'c' {
    } else if c == 'd' {
    } else if c == 'e' {
    } else if c == 'f' {
    } else if c == 'g' {
    } else if c == 'h' {
    } else if c == 'i' {
    } else if c == 'j' {
    } else if c == 'k' {
    } else if c == 'l' {
    } else if c == 'm' {
    } else if c == 'n' {
    } else if c == 'o' {
    } else if c == 'p' {
    } else if c == 'q' {
    } else if c == 'r' {
    } else if c == 's' {
    } else if c == 't' {
    } else if c == 'u' {
    } else if c == 'v' {
    } else if c == 'w' {
    } else if c == 'x' {
    } else if c == 'y' {
    } else if c == 'z' {
    } else if c == 'A' {
    } else if c == 'B' {
    } else if c == 'C' {
    } else if c == 'D' {
    } else if c == 'E' {
    } else if c == 'F' {
    } else if c == 'G' {
    } else if c == 'H' {
    } else if c == 'I' {
    } else if c == 'J' {
    } else if c == 'K' {
    } else if c == 'L' {
    } else if c == 'M' {
    } else if c == 'N' {
    } else if c == 'O' {
    } else if c == 'P' {
    } else if c == 'Q' {
    } else if c == 'R' {
    } else if c == 'S' {
    } else if c == 'T' {
    } else if c == 'U' {
    } else if c == 'V' {
    } else if c == 'W' {
    } else if c == 'X' {
    } else if c == 'Y' {
    } else if c == 'Z' {
    } else if c == '0' {
    } else if c == '1' {
    } else if c == '2' {
    } else if c == '3' {
    } else if c == '4' {
    } else if c == '5' {
    } else if c == '6' {
    } else if c == '7' {
    } else if c == '8' {
    } else if c == '9' {
    } else if c == '-' {
    } else if c == '.' {
    } else if c == '_' {
    } else if c == '~' {
    } else if c == ':' {
    } else if c == '?' {
    } else if c == '#' {
    } else if c == '[' {
    } else if c == ']' {
    } else if c == '@' {
    } else if c == '!' {
    } else if c == '$' {
    } else if c == '&' {
    } else if c == '(' {
    } else if c == ')' {
    } else if c == '*' {
    } else if c == '+' {
    } else if c == ',' {
    } else if c == ';' {
    } else if c == '=' {
    } else if c == '%' {
    }
}

/// The code table of source URLs is XOR with 0x38: a known code is two
/// lower-case hex digits whose byte XOR 0x38 is the decoded character, a URL
/// character; and every URL character is known under its code. So distinct
/// codes decode to distinct characters.
pub proof fn law_code_is_xor_0x38(a: char, b: char, c: char)
    ensures
        code_char(a, b) == Some(c) ==> {
            &&& hex_value(a) matches Some(ha)
            &&& hex_value(b) matches Some(hb)
            &&& c as u32 == ((ha * 16 + hb) as u32 ^ 0x38u32)
            &&& url_char(c)
        },
        url_char(c) ==> code_char(
            hex_lower(((c as u32 ^ 0x38u32) / 16) as int),
            hex_lower(((c as u32 ^ 0x38u32) % 16) as int),
        ) == Some(c),
{
    if code_char(a, b) == Some(c) {
        lemma_known_codes_are_xor(a, b);
    }
    if url_char(c) {
        lemma_url_chars_are_known(c);
    }
}

/// Decoding keeps the characters apart: two known codes that decode to the
/// same character are the same code.
pub proof fn law_codes_decode_apart(a1: char, b1: char, a2: char, b2: char)
    requires
        code_char(a1, b1) is Some,
        code_char(a1, b1) == code_char(a2, b2),
    ensures
        a1 == a2 && b1 == b2,
{
    let c = code_char(a1, b1).unwrap();
    law_code_is_xor_0x38(a1, b1, c);
    law_code_is_xor_0x38(a2, b2, c);
}

} // verus!

verus! {

/// A variant line holding an absolute `http://` or `https://` URL is the
/// link as it is; a line not starting with `http` is put under the
/// playlist's directory.
pub proof fn law_absolute_variant_urls_kept(line: Seq<char>, base: Seq<char>)
    ensures
        has_prefix(line, "http://"@) || has_prefix(line, "https://"@) ==> variant_url(line, base)
            == line,
        !has_prefix(line, "http"@) ==> variant_url(line, base) == base + "/"@ + line,
{
    reveal_strlit("http://");
    reveal_strlit("https://");
    reveal_strlit("http");
    if has_prefix(line, "http://"@) {
        assert(line.take(4) =~= line.take(7).take(4));
        assert(line.take(4) =~= "http"@);
    }
    if has_prefix(line, "https://"@) {
        assert(line.take(4) =~= line.take(8).take(4));
        assert(line.take(4) =~= "http"@);
    }
}

/// Replacing in `h + d` leaves `h` alone when no match starts inside `h`.
proof fn lemma_replace_after_prefix(h: Seq<char>, d: Seq<char>, from: Seq<char>, to: Seq<char>)
    requires
        from.len() > 0,
        forall|i: int| 0 <= i < h.len() ==> !has_prefix(#[trigger] (h + d).skip(i), from),
    ensures
        replace_all(h + d, from, to) == h + replace_all(d, from, to),
    decreases h.len(),
{
    if h.len() == 0 {
        assert(h + d =~= d);
        assert(h + replace_all(d, from, to) =~= replace_all(d, from, to));
    } else {
        let t = h.drop_first();
        assert((h + d).drop_first() =~= t + d);
        assert forall|i: int| 0 <= i < t.len() implies !has_prefix(#[trigger] (t + d).skip(i), from) by {
            assert((t + d).skip(i) =~= (h + d).skip(i + 1));
        }
        lemma_replace_after_prefix(t, d, from, to);
        assert((h + d).skip(0) =~= h + d);
        assert(h + replace_all(d, from, to) =~= seq![h[0]] + (t + replace_all(d, from, to)));
    }
}

/// A decoded path (starting with `/`) is asked on the streaming host: the
/// clock URL is `https://allanime.day` followed by that path, with each
/// `/clock` in it turned into `/clock.json`; any other decoded URL is used
/// as it is.
pub proof fn law_clock_url_on_host(source_url: Seq<char>)
    ensures
        has_prefix(decoded_url(trim_start_seq(source_url, "--"@)), "/"@) ==> has_prefix(
            clock_url_spec(source_url),
            "https://allanime.day/"@,
        ),
        has_prefix(decoded_url(trim_start_seq(source_url, "--"@)), "/"@) ==> clock_url_spec(
            source_url,
        ) == "https://allanime.day"@ + replace_all(
            decoded_url(trim_start_seq(source_url, "--"@)),
            "/clock"@,
            "/clock.json"@,
        ),
        !has_prefix(decoded_url(trim_start_seq(source_url, "--"@)), "/"@) ==> clock_url_spec(
            source_url,
        ) == decoded_url(trim_start_seq(source_url, "--"@)),
{
    let d = decoded_url(trim_start_seq(source_url, "--"@));
    if has_prefix(d, "/"@) {
        reveal_strlit("/");
        reveal_strlit("https://allanime.day");
        reveal_strlit("https://allanime.day/");
        reveal_strlit("/clock");
        reveal_strlit("/clock.json");
        let h = "https://allanime.day"@;
        let from = "/clock"@;
        let to = "/clock.json"@;
        assert(d.take(1)[0] == '/');
        assert(d[0] == d.take(1)[0]);
        assert forall|i: int| 0 <= i < h.len() implies !has_prefix(#[trigger] (h + d).skip(i), from) by {
            if has_prefix((h + d).skip(i), from) {
                assert((h + d).skip(i)[0] == from[0]);
                assert((h + d).skip(i)[1] == from[1]);
                assert((h + d)[i] == '/');
                assert((h + d)[i + 1] == 'c');
                if i < 19 {
                    assert((h + d)[i] == h[i]);
                    assert((h + d)[i + 1] == h[i + 1]);
                } else {
                    assert((h + d)[i] == h[i]);
                }
            }
        }
        lemma_replace_after_prefix(h, d, from, to);
        let r = replace_all(d, from, to);
        assert(r.len() > 0 && r[0] == '/') by {
            if has_prefix(d, from) {
                assert(r == to + replace_all(d.skip(from.len() as int), from, to));
            } else {
                assert(r == seq![d[0]] + replace_all(d.drop_first(), from, to));
            }
        }
        assert((h + r).take(21) =~= "https://allanime.day/"@);
    }
}

/// A quality label `<n>p` (or `<n>`) ranks at height `n`.
pub proof fn law_height_is_resolution(n: u32)
    ensures
        quality_height(crate::text::decimal(n as nat) + "p"@) == n,
        quality_height(crate::text::decimal(n as nat)) == n,
{
    reveal_strlit("p");
    let d = crate::text::decimal(n as nat);
    crate::text::lemma_decimal_digits(n as nat);
    assert(crate::text::is_digit(d.last()));
    assert((d + "p"@).drop_last() =~= d);
    assert(trim_end_char(d, 'p') == d);
    assert(trim_end_char(d + "p"@, 'p') == d);
    assert(crate::text::is_digit(d[0]));
    assert(crate::text::unsigned_digits(d) == d);
}

/// In a best-first list, a link labelled with a higher resolution
/// (`<n1>p` above `<n2>p`) comes before one with a lower resolution.
pub proof fn law_higher_resolution_first(
    r: Seq<(Seq<char>, Seq<char>)>,
    i: int,
    j: int,
    n1: u32,
    n2: u32,
)
    requires
        best_first(r),
        0 <= i < r.len(),
        0 <= j < r.len(),
        r[i].0 == crate::text::decimal(n1 as nat) + "p"@,
        r[j].0 == crate::text::decimal(n2 as nat) + "p"@,
        n1 > n2,
    ensures
        i < j,
{
    law_height_is_resolution(n1);
    law_height_is_resolution(n2);
    if j < i {
        assert(quality_height(r[j].0) >= quality_height(r[i].0));
    }
}

} // verus!
