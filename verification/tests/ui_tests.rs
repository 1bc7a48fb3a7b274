use anime_manga::api::{Chapter, ChapterAttributes};
use anime_manga::app::Mode;
use anime_manga::ui::{
    card_selected, card_selector, chapter_row, cursor_shown, data_stream, detail_status,
    flicker, glitch_title, grid_cell, menu_dots, moon_cell, moon_phase, pulse_border,
    quality_label, quality_style, rain_char, reflection_color, result_status, sky_cell,
    spinner_fancy, star, window_light, Palette,
};

#[test]
fn stars_twinkle() {
    assert!(star(0, 0) == ("✦", Palette::StarHi));
    assert!(star(8, 0) == ("·", Palette::StarLo));
    assert!(star(0, 2) == ("*", Palette::StarHi));
    assert!(star(16, 1) == ("˙", Palette::StarLo));
}

#[test]
fn rain_falls() {
    assert!(rain_char(0, 0) == ("|", Palette::NeonBlue));
    assert!(rain_char(4, 0) == ("·", Palette::RainDim));
    assert!(rain_char(5, 0) == (" ", Palette::Void));
    assert!(rain_char(0, 3) == ("|", Palette::Rain)); // (0 + 21) % 20 == 1
}

#[test]
fn sky_and_moon_cells() {
    assert!(sky_cell(0, 0, 0) == ("|", Palette::NeonBlue));
    assert!(sky_cell(5, 0, 0) == ("✦", Palette::StarHi)); // no rain, column 0 has a star
    assert!(sky_cell(5, 0, 1) == (" ", Palette::Void));
    assert!(moon_cell(14, 2, 10) == ("◐", Palette::MoonC));
    assert!(moon_cell(1, 3, 10) == (" ", Palette::Void));
    assert!(moon_cell(0, 2, 10) == ("|", Palette::NeonBlue));
    assert_eq!(moon_phase(20), "○");
}

#[test]
fn title_glitches_one_slot_in_twenty() {
    let plain: Vec<&str> = glitch_title(3).iter().map(|p| p.0).collect();
    assert_eq!(plain, vec!["ANIME", " ✦ ", "MANGA", " CLI"]);
    let glitched: Vec<&str> = glitch_title(60).iter().map(|p| p.0).collect();
    assert_eq!(glitched, vec!["█▄─█ ", "▄▀█ ", "█▄─█ ", "▄▀█ "]);
}

#[test]
fn colours_cycle() {
    assert!(pulse_border(0) == Palette::NeonBlue);
    assert!(pulse_border(5) == Palette::NeonCyan);
    assert!(pulse_border(19) == Palette::NeonPink);
    assert!(reflection_color(10) == Palette::NeonPurp);
    assert!(flicker(8, 8, Palette::NeonYell, Palette::WinOn) == Palette::WinOn);
    assert!(window_light(0, 4, 1, 3, Palette::WinOn) == Palette::WinOn);
    assert!(window_light(8, 4, 1, 3, Palette::WinOn) == Palette::Void);
}

#[test]
fn spinners_and_dots() {
    assert_eq!(spinner_fancy(0), "◐");
    assert_eq!(spinner_fancy(2), "◓");
    assert_eq!(spinner_fancy(7), "◒");
    assert_eq!(menu_dots(24), "...");
    assert_eq!(card_selector(false, 0), "   ");
    assert_eq!(card_selector(true, 8), "  ▶");
    assert!(cursor_shown(true, 3));
    assert!(!cursor_shown(true, 4));
    assert!(!cursor_shown(false, 0));
    assert!(card_selected(Mode::Manga, true));
    assert!(!card_selected(Mode::Anime, true));
}

#[test]
fn quality_rows() {
    let (icon, desc, color) = quality_style("720p");
    assert_eq!((icon, desc), ("🟢 ", "HD       — recommended"));
    assert!(color == Palette::NeonGreen);
    assert_eq!(quality_style("auto").1, "Auto     — adaptive");
    assert_eq!(quality_label("1080p"), format!("{}{:<8}", "🔵 ", "1080p"));
}

#[test]
fn status_rows() {
    let (text, color) = result_status(&Some("completed".into()));
    assert_eq!(text, " ✓completed ");
    assert!(color == Palette::NeonGreen);
    assert_eq!(result_status(&None).0, " ⏸? ");
    assert!(detail_status(&Some("hiatus".into())) == (Palette::NeonPink, "⏸ hiatus"));
    assert!(detail_status(&None) == (Palette::Dim, "? unknown"));
}

#[test]
fn chapter_rows() {
    let c = Chapter {
        id: "c".into(),
        attributes: ChapterAttributes { chapter: Some("7".into()), title: None, pages: Some(31) },
    };
    let (a, b, p) = chapter_row(&c);
    assert_eq!(a, format!("Ch.{:<5}", "7"));
    assert_eq!(b, format!(" {:<45}", "Untitled"));
    assert_eq!(p, " 31pg");
}

#[test]
fn data_stream_line() {
    let chars = "01アイウエオカキクケコ";
    let expected: String = (0..50u64)
        .map(|i| chars.chars().nth(((5 + i * 7) % 12) as usize).unwrap())
        .collect();
    assert_eq!(data_stream(5), expected);
}

#[test]
fn category_grid_cells() {
    // twelve categories in a 40x9 area at (2, 3): rows of height 3
    assert_eq!(grid_cell(0, 12, 2, 3, 40, 9), (2, 3, 10, 3));
    assert_eq!(grid_cell(5, 12, 2, 3, 40, 9), (12, 6, 10, 3));
    assert_eq!(grid_cell(11, 12, 2, 3, 40, 9), (32, 9, 10, 3));
    // a too small area still gives rows of height 1, cut at the bottom
    assert_eq!(grid_cell(11, 12, 0, 0, 8, 2), (6, 2, 2, 0));
}
