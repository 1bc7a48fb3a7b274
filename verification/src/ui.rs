//! The look of the terminal screens apart from drawing itself: the colour
//! palette, the animation frames chosen from the tick count, and the texts
//! and cell sizes of list rows and the category grid.

use vstd::prelude::*;
use crate::app::Mode;
use crate::text::{padded, pad_to, same_text, decimal, decimal_string, push_char};

verus! {

/// The colours of the neon theme.
#[derive(Clone, Copy, PartialEq, Eq, Structural)]
pub enum Palette {
    Void,
    Deep,
    Build1,
    Build2,
    Build3,
    NeonBlue,
    NeonCyan,
    NeonPink,
    NeonPurp,
    NeonGreen,
    NeonYell,
    WinOn,
    WinBlue,
    WinPink,
    Rain,
    RainDim,
    StarLo,
    StarHi,
    MoonC,
    Dim,
    Text,
    Accent,
}

/// The twinkle of a star: one of four glyphs, changing every eight ticks.
pub open spec fn star_spec(step: int) -> (Seq<char>, Palette) {
    if step == 0 {
        ("✦"@, Palette::StarHi)
    } else if step == 1 {
        ("·"@, Palette::StarLo)
    } else if step == 2 {
        ("*"@, Palette::StarHi)
    } else {
        ("˙"@, Palette::StarLo)
    }
}

/// A star at tick `tick` with phase offset `phase`.
pub fn star(tick: u64, phase: u64) -> (r: (&'static str, Palette))
    requires
        tick / 8 + phase <= u64::MAX,
    ensures
        (r.0@, r.1) == star_spec((tick / 8 + phase) as int % 4),
{
    let step = (tick / 8 + phase) % 4;
    if step == 0 {
        ("✦", Palette::StarHi)
    } else if step == 1 {
        ("·", Palette::StarLo)
    } else if step == 2 {
        ("*", Palette::StarHi)
    } else {
        ("˙", Palette::StarLo)
    }
}

/// A rain streak: a drop falls through five glyphs in a cycle of twenty
/// ticks, blank for the rest.
pub open spec fn rain_spec(phase: int) -> (Seq<char>, Palette) {
    if phase == 0 {
        ("|"@, Palette::NeonBlue)
    } else if phase == 1 {
        ("|"@, Palette::Rain)
    } else if phase == 2 {
        ("╎"@, Palette::Rain)
    } else if phase == 3 {
        ("╎"@, Palette::RainDim)
    } else if phase == 4 {
        ("·"@, Palette::RainDim)
    } else {
        (" "@, Palette::Void)
    }
}

/// The rain glyph of column `col` at tick `tick`.
pub fn rain_char(tick: u64, col: u64) -> (r: (&'static str, Palette))
    requires
        tick + col * 7 <= u64::MAX,
    ensures
        (r.0@, r.1) == rain_spec((tick + col * 7) as int % 20),
{
    let phase = (tick + col * 7) % 20;
    if phase == 0 {
        ("|", Palette::NeonBlue)
    } else if phase == 1 {
        ("|", Palette::Rain)
    } else if phase == 2 {
        ("╎", Palette::Rain)
    } else if phase == 3 {
        ("╎", Palette::RainDim)
    } else if phase == 4 {
        ("·", Palette::RainDim)
    } else {
        (" ", Palette::Void)
    }
}

/// Whether the title glitches at this tick: one three-tick slot in twenty.
pub open spec fn glitching(tick: u64) -> bool {
    (tick / 3) % 20 == 0
}

/// The pieces of the title banner and their colours.
pub open spec fn title_pieces(tick: u64) -> Seq<(Seq<char>, Palette)> {
    if glitching(tick) {
        seq![
            ("█▄─█ "@, Palette::NeonPink),
            ("▄▀█ "@, Palette::NeonPurp),
            ("█▄─█ "@, Palette::NeonPink),
            ("▄▀█ "@, Palette::NeonBlue),
        ]
    } else {
        seq![
            ("ANIME"@, Palette::NeonBlue),
            (" ✦ "@, Palette::NeonCyan),
            ("MANGA"@, Palette::NeonPink),
            (" CLI"@, Palette::NeonPurp),
        ]
    }
}

/// The views of styled pieces.
pub open spec fn piece_views(v: Seq<(&'static str, Palette)>) -> Seq<(Seq<char>, Palette)> {
    v.map_values(|p: (&'static str, Palette)| (p.0@, p.1))
}

/// The title banner at tick `tick` (bold in every piece).
pub fn glitch_title(tick: u64) -> (v: Vec<(&'static str, Palette)>)
    ensures
        piece_views(v@) == title_pieces(tick),
{
    let mut v: Vec<(&'static str, Palette)> = Vec::new();
    if (tick / 3) % 20 == 0 {
        v.push(("█▄─█ ", Palette::NeonPink));
        v.push(("▄▀█ ", Palette::NeonPurp));
        v.push(("█▄─█ ", Palette::NeonPink));
        v.push(("▄▀█ ", Palette::NeonBlue));
    } else {
        v.push(("ANIME", Palette::NeonBlue));
        v.push((" ✦ ", Palette::NeonCyan));
        v.push(("MANGA", Palette::NeonPink));
        v.push((" CLI", Palette::NeonPurp));
    }
    assert(piece_views(v@) =~= title_pieces(tick));
    v
}

/// The pulsing border colour: four colours, five ticks each.
pub open spec fn pulse_spec(tick: u64) -> Palette {
    let step = (tick / 5) % 4;
    if step == 0 {
        Palette::NeonBlue
    } else if step == 1 {
        Palette::NeonCyan
    } else if step == 2 {
        Palette::NeonPurp
    } else {
        Palette::NeonPink
    }
}

/// The border colour at tick `tick`.
pub fn pulse_border(tick: u64) -> (c: Palette)
    ensures
        c == pulse_spec(tick),
{
    let step = (tick / 5) % 4;
    if step == 0 {
        Palette::NeonBlue
    } else if step == 1 {
        Palette::NeonCyan
    } else if step == 2 {
        Palette::NeonPurp
    } else {
        Palette::NeonPink
    }
}

/// The loading spinner frame: four frames, two ticks each.
pub open spec fn fancy_frame(i: int) -> Seq<char> {
    if i == 0 {
        "◐"@
    } else if i == 1 {
        "◓"@
    } else if i == 2 {
        "◑"@
    } else {
        "◒"@
    }
}

/// The loading spinner glyph at tick `tick`.
pub fn spinner_fancy(tick: u64) -> (s: &'static str)
    ensures
        s@ == fancy_frame(((tick as usize) as int / 2) % 4),
{
    let i = (tick as usize / 2) % 4;
    if i == 0 {
        "◐"
    } else if i == 1 {
        "◓"
    } else if i == 2 {
        "◑"
    } else {
        "◒"
    }
}

/// One cell of the sky rows of the city backdrop: rain where it falls,
/// else a star on every fifth column, else empty sky.
pub open spec fn sky_cell_spec(tick: u64, row: u64, col: u64) -> (Seq<char>, Palette) {
    let rain = rain_spec((tick + row * 3 + col * 7) % 20);
    if rain.0 != " "@ {
        rain
    } else if col % 5 == 0 {
        star_spec((tick / 8 + col * 3 + row * 7) % 4)
    } else {
        (" "@, Palette::Void)
    }
}

/// One cell of the sky rows (exec).
pub fn sky_cell(tick: u64, row: u64, col: u64) -> (r: (&'static str, Palette))
    requires
        tick + row * 7 + col * 7 <= u64::MAX,
    ensures
        (r.0@, r.1) == sky_cell_spec(tick, row, col),
{
    proof {
        reveal_strlit(" ");
        reveal_strlit("|");
        reveal_strlit("╎");
        reveal_strlit("·");
    }
    let rain = rain_char(tick + row * 3, col);
    if !same_text(rain.0, " ") {
        rain
    } else if col % 5 == 0 {
        star(tick, col * 3 + row * 7)
    } else {
        (" ", Palette::Void)
    }
}

/// The moon glyph: four phases, twenty ticks each.
pub open spec fn moon_spec(tick: u64) -> Seq<char> {
    let step = (tick / 20) % 4;
    if step == 0 {
        "◐"@
    } else if step == 1 {
        "○"@
    } else if step == 2 {
        "◑"@
    } else {
        "●"@
    }
}

/// The moon glyph at tick `tick`.
pub fn moon_phase(tick: u64) -> (s: &'static str)
    ensures
        s@ == moon_spec(tick),
{
    let step = (tick / 20) % 4;
    if step == 0 {
        "◐"
    } else if step == 1 {
        "○"
    } else if step == 2 {
        "◑"
    } else {
        "●"
    }
}

/// One cell of the moon row of a backdrop `width` columns wide: rain, else
/// the moon at a fifth of the width, else a star every seventh column.
pub open spec fn moon_cell_spec(tick: u64, col: u64, width: u64) -> (Seq<char>, Palette) {
    let rain = rain_spec((tick + 6 + col * 7) % 20);
    if rain.0 != " "@ {
        rain
    } else if col == width / 5 {
        (moon_spec(tick), Palette::MoonC)
    } else if col % 7 == 0 {
        star_spec((tick / 8 + col * 11) % 4)
    } else {
        (" "@, Palette::Void)
    }
}

/// One cell of the moon row (exec).
pub fn moon_cell(tick: u64, col: u64, width: u64) -> (r: (&'static str, Palette))
    requires
        tick + 6 + col * 11 <= u64::MAX,
    ensures
        (r.0@, r.1) == moon_cell_spec(tick, col, width),
{
    proof {
        reveal_strlit(" ");
        reveal_strlit("|");
        reveal_strlit("╎");
        reveal_strlit("·");
    }
    let rain = rain_char(tick + 6, col);
    if !same_text(rain.0, " ") {
        rain
    } else if col == width / 5 {
        (moon_phase(tick), Palette::MoonC)
    } else if col % 7 == 0 {
        star(tick, col * 11)
    } else {
        (" ", Palette::Void)
    }
}

/// A flickering light: colour `a` while `tick / period` is even, else `b`.
pub fn flicker(tick: u64, period: u64, a: Palette, b: Palette) -> (c: Palette)
    requires
        period > 0,
    ensures
        c == if (tick / period) % 2 == 0 {
            a
        } else {
            b
        },
{
    if (tick / period) % 2 == 0 {
        a
    } else {
        b
    }
}

/// A window that goes dark one slot in `cycle`: dark when
/// `(tick / period + offset) % cycle == 0`, else lit in `lit`.
pub fn window_light(tick: u64, period: u64, offset: u64, cycle: u64, lit: Palette) -> (c: Palette)
    requires
        period > 0,
        cycle > 0,
        tick / period + offset <= u64::MAX,
    ensures
        c == if (tick / period + offset) % (cycle as int) == 0 {
            Palette::Void
        } else {
            lit
        },
{
    if (tick / period + offset) % cycle == 0 {
        Palette::Void
    } else {
        lit
    }
}

/// The colour of the neon reflection on the ground: three colours, five
/// ticks each.
pub fn reflection_color(tick: u64) -> (c: Palette)
    ensures
        c == if (tick / 5) % 3 == 0 {
            Palette::NeonBlue
        } else if (tick / 5) % 3 == 1 {
            Palette::NeonCyan
        } else {
            Palette::NeonPurp
        },
{
    let step = (tick / 5) % 3;
    if step == 0 {
        Palette::NeonBlue
    } else if step == 1 {
        Palette::NeonCyan
    } else {
        Palette::NeonPurp
    }
}

/// The animated dots after `select mode`: none to three, eight ticks each.
pub open spec fn dots_spec(tick: u64) -> Seq<char> {
    let step = (tick / 8) % 4;
    if step == 0 {
        "   "@
    } else if step == 1 {
        ".  "@
    } else if step == 2 {
        ".. "@
    } else {
        "..."@
    }
}

/// The animated dots (exec).
pub fn menu_dots(tick: u64) -> (s: &'static str)
    ensures
        s@ == dots_spec(tick),
{
    let step = (tick / 8) % 4;
    if step == 0 {
        "   "
    } else if step == 1 {
        ".  "
    } else if step == 2 {
        ".. "
    } else {
        "..."
    }
}

/// Whether the card of the manga side (`is_manga`) or of the anime side is
/// the one selected by `mode`.
pub fn card_selected(mode: Mode, is_manga: bool) -> (b: bool)
    ensures
        b == (is_manga == (mode == Mode::Manga)),
{
    match mode {
        Mode::Manga => is_manga,
        Mode::Anime => !is_manga,
    }
}

/// The moving marker on the selected mode card, blank on the other.
pub open spec fn selector_spec(selected: bool, tick: u64) -> Seq<char> {
    if !selected {
        "   "@
    } else {
        let step = (tick / 4) % 4;
        if step == 0 {
            "▶  "@
        } else if step == 1 {
            " ▶ "@
        } else if step == 2 {
            "  ▶"@
        } else {
            " ▶ "@
        }
    }
}

/// The marker of a mode card (exec).
pub fn card_selector(selected: bool, tick: u64) -> (s: &'static str)
    ensures
        s@ == selector_spec(selected, tick),
{
    if !selected {
        "   "
    } else {
        let step = (tick / 4) % 4;
        if step == 0 {
            "▶  "
        } else if step == 1 {
            " ▶ "
        } else if step == 2 {
            "  ▶"
        } else {
            " ▶ "
        }
    }
}

/// Whether the text cursor shows: the first four ticks of every eight, and
/// only while typing.
pub fn cursor_shown(typing: bool, tick: u64) -> (b: bool)
    ensures
        b == (typing && tick % 8 < 4),
{
    typing && tick % 8 < 4
}

} // verus!

verus! {

/// The icon of a stream quality in the quality picker.
pub open spec fn quality_icon_spec(q: Seq<char>) -> Seq<char> {
    if q == "1080p"@ {
        "🔵 "@
    } else if q == "720p"@ {
        "🟢 "@
    } else if q == "480p"@ {
        "🟡 "@
    } else if q == "360p"@ {
        "🔴 "@
    } else {
        "⚪ "@
    }
}

/// The description of a stream quality in the quality picker.
pub open spec fn quality_desc_spec(q: Seq<char>) -> Seq<char> {
    if q == "1080p"@ {
        "Full HD  — best quality"@
    } else if q == "720p"@ {
        "HD       — recommended"@
    } else if q == "480p"@ {
        "SD       — saves data"@
    } else if q == "360p"@ {
        "Low      — fast loading"@
    } else {
        "Auto     — adaptive"@
    }
}

/// The colour of a stream quality in the quality picker.
pub open spec fn quality_color_spec(q: Seq<char>) -> Palette {
    if q == "1080p"@ {
        Palette::NeonBlue
    } else if q == "720p"@ {
        Palette::NeonGreen
    } else if q == "480p"@ {
        Palette::NeonYell
    } else if q == "360p"@ {
        Palette::NeonPink
    } else {
        Palette::NeonCyan
    }
}

/// Icon, description and colour of a stream quality.
pub fn quality_style(q: &str) -> (r: (&'static str, &'static str, Palette))
    ensures
        r.0@ == quality_icon_spec(q@),
        r.1@ == quality_desc_spec(q@),
        r.2 == quality_color_spec(q@),
{
    if same_text(q, "1080p") {
        ("🔵 ", "Full HD  — best quality", Palette::NeonBlue)
    } else if same_text(q, "720p") {
        ("🟢 ", "HD       — recommended", Palette::NeonGreen)
    } else if same_text(q, "480p") {
        ("🟡 ", "SD       — saves data", Palette::NeonYell)
    } else if same_text(q, "360p") {
        ("🔴 ", "Low      — fast loading", Palette::NeonPink)
    } else {
        ("⚪ ", "Auto     — adaptive", Palette::NeonCyan)
    }
}

/// The quality column of a picker row: icon, then the quality padded to
/// eight columns.
pub fn quality_label(q: &str) -> (s: String)
    ensures
        s@ == quality_icon_spec(q@) + padded(q@, 8),
{
    let (icon, _, _) = quality_style(q);
    let mut s = icon.to_owned();
    let p = pad_to(q, 8);
    s.append(p.as_str());
    s
}

/// The status of a manga in the result list: its text (`?` when unknown),
/// its colour and its icon.
pub open spec fn result_status_spec(status: Seq<char>) -> (Palette, Seq<char>) {
    if status == "completed"@ {
        (Palette::NeonGreen, "✓"@)
    } else if status == "ongoing"@ {
        (Palette::NeonYell, "●"@)
    } else {
        (Palette::NeonPink, "⏸"@)
    }
}

/// The status column of a result row: ` <icon><status> ` and its colour.
pub fn result_status(status: &Option<String>) -> (r: (String, Palette))
    ensures
        ({
            let st = match status {
                Some(s) => s@,
                None => "?"@,
            };
            &&& r.0@ == " "@ + result_status_spec(st).1 + st + " "@
            &&& r.1 == result_status_spec(st).0
        }),
{
    let st: &str = match status {
        Some(s) => s.as_str(),
        None => "?",
    };
    let (color, icon) = if same_text(st, "completed") {
        (Palette::NeonGreen, "✓")
    } else if same_text(st, "ongoing") {
        (Palette::NeonYell, "●")
    } else {
        (Palette::NeonPink, "⏸")
    };
    let mut s = " ".to_owned();
    s.append(icon);
    s.append(st);
    s.append(" ");
    (s, color)
}

/// The status box of the manga detail panel: colour and label
/// (`unknown` when the API gives none).
pub open spec fn detail_status_spec(status: Seq<char>) -> (Palette, Seq<char>) {
    if status == "completed"@ {
        (Palette::NeonGreen, "✓ completed"@)
    } else if status == "ongoing"@ {
        (Palette::NeonYell, "● ongoing"@)
    } else if status == "hiatus"@ {
        (Palette::NeonPink, "⏸ hiatus"@)
    } else {
        (Palette::Dim, "? unknown"@)
    }
}

/// The status box of the manga detail panel (exec).
pub fn detail_status(status: &Option<String>) -> (r: (Palette, &'static str))
    ensures
        (r.0, r.1@) == detail_status_spec(
            match status {
                Some(s) => s@,
                None => "unknown"@,
            },
        ),
{
    let st: &str = match status {
        Some(s) => s.as_str(),
        None => "unknown",
    };
    if same_text(st, "completed") {
        (Palette::NeonGreen, "✓ completed")
    } else if same_text(st, "ongoing") {
        (Palette::NeonYell, "● ongoing")
    } else if same_text(st, "hiatus") {
        (Palette::NeonPink, "⏸ hiatus")
    } else {
        (Palette::Dim, "? unknown")
    }
}

/// The three columns of a chapter row: `Ch.` and the number padded to five
/// columns (`?` when unknown), the title padded to 45 after a space
/// (`Untitled` when none), and ` <pages>pg`.
pub fn chapter_row(chapter: &crate::api::Chapter) -> (r: (String, String, String))
    ensures
        r.0@ == "Ch."@ + padded(crate::text::or_default(chapter.attributes.chapter, "?"@), 5),
        r.1@ == " "@ + padded(crate::text::or_default(chapter.attributes.title, "Untitled"@), 45),
        r.2@ == " "@ + decimal(
            match chapter.attributes.pages {
                Some(p) => p as nat,
                None => 0,
            },
        ) + "pg"@,
{
    let num: &str = match &chapter.attributes.chapter {
        Some(c) => c.as_str(),
        None => "?",
    };
    let title: &str = match &chapter.attributes.title {
        Some(t) => t.as_str(),
        None => "Untitled",
    };
    let pages: u32 = match chapter.attributes.pages {
        Some(p) => p,
        None => 0,
    };
    let mut a = "Ch.".to_owned();
    let pn = pad_to(num, 5);
    a.append(pn.as_str());
    let mut b = " ".to_owned();
    let pt = pad_to(title, 45);
    b.append(pt.as_str());
    let mut c = " ".to_owned();
    let d = decimal_string(pages as u64);
    c.append(d.as_str());
    c.append("pg");
    (a, b, c)
}

/// The characters of the data stream animation on the loading screen.
pub open spec fn stream_glyphs() -> Seq<char> {
    "01アイウエオカキクケコ"@
}

/// The data stream line at tick `tick`: fifty glyphs, the `i`-th being
/// glyph `(tick + 7 i) mod 12`.
pub fn data_stream(tick: u64) -> (s: String)
    requires
        tick + 350 <= u64::MAX,
    ensures
        s@.len() == 50,
        forall|i: int| 0 <= i < 50 ==> s@[i] == stream_glyphs()[(tick + i * 7) % 12],
{
    proof {
        reveal_strlit("01アイウエオカキクケコ");
    }
    let glyphs = crate::text::chars_of("01アイウエオカキクケコ");
    let mut s = String::new();
    let mut i: u64 = 0;
    while i < 50
        invariant
            tick + 350 <= u64::MAX,
            glyphs@ == stream_glyphs(),
            glyphs@.len() == 12,
            i <= 50,
            s@.len() == i,
            forall|j: int| 0 <= j < i ==> s@[j] == stream_glyphs()[(tick + j * 7) % 12],
        decreases 50 - i,
    {
        let idx = ((tick + i * 7) % 12) as usize;
        push_char(&mut s, glyphs[idx]);
        i += 1;
    }
    s
}

/// The cell of category `i` in a grid four categories wide over the area
/// `(x, y, w, h)` holding `n` categories: `(x, y, width, height)`.
pub open spec fn grid_cell_spec(i: int, n: int, x: int, y: int, w: int, h: int) -> (int, int, int, int) {
    let rows = (n + 3) / 4;
    let rh = if h / rows >= 1 {
        h / rows
    } else {
        1
    };
    let row = i / 4;
    let col = i % 4;
    let top = row * rh;
    (x + col * (w / 4), y + top, w / 4, if rh <= h - top {
        rh
    } else if h - top >= 0 {
        h - top
    } else {
        0
    })
}

/// The cell of category `i` in the category grid (exec).
pub fn grid_cell(i: usize, n: usize, x: u16, y: u16, w: u16, h: u16) -> (r: (u16, u16, u16, u16))
    requires
        i < n,
        n <= 4 * 65535,
        (x as int) + (i as int % 4) * (w as int / 4) <= u16::MAX,
        (y as int) + (i as int / 4) * (if h as int / ((n as int + 3) / 4) >= 1 {
            h as int / ((n as int + 3) / 4)
        } else {
            1
        }) <= u16::MAX,
    ensures
        (r.0 as int, r.1 as int, r.2 as int, r.3 as int) == grid_cell_spec(
            i as int,
            n as int,
            x as int,
            y as int,
            w as int,
            h as int,
        ),
{
    let rows = (n + 3) / 4;
    let q = (h as usize) / rows;
    let rh: u16 = if q >= 1 {
        q as u16
    } else {
        1
    };
    let row = (i / 4) as u16;
    let col = (i % 4) as u16;
    assert(row as int * rh as int <= u16::MAX) by (nonlinear_arith)
        requires
            y as int + row as int * rh as int <= u16::MAX,
            y >= 0,
    ;
    let top = row * rh;
    let quarter = w / 4;
    assert(col as int * quarter as int <= u16::MAX) by (nonlinear_arith)
        requires
            x as int + col as int * quarter as int <= u16::MAX,
            x >= 0,
    ;
    let left = x + col * quarter;
    let remaining: u16 = if h >= top {
        h - top
    } else {
        0
    };
    let height = if rh <= remaining {
        rh
    } else {
        remaining
    };
    (left, y + top, quarter, height)
}

} // verus!
