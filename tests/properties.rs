use blocklet::compose::render_character_line;
use blocklet::font::{Font, FontCharacter, FontError};
use blocklet::renderer::{
    render_text, render_text_with_options, render_text_with_shadow, render_with_font,
    RenderOptions,
};
use blocklet::store::{get_font, FontStore};
use blocklet::wrap::{split_words, split_words_with, wrap_text, wrap_words};
use std::collections::HashMap;

fn glyph(width: u32, rows: &[&str]) -> FontCharacter {
    FontCharacter {
        width,
        height: rows.len() as u32,
        data: rows.iter().map(|r| r.to_string()).collect(),
    }
}

/// A two-row font with `A`, `B` and a space, and no `?` fallback.
fn tiny_font() -> Font {
    let mut characters = HashMap::new();
    characters.insert('A' as u32, glyph(1, &["#", "#"]));
    characters.insert('B' as u32, glyph(2, &["##"]));
    characters.insert(' ' as u32, glyph(1, &[".", "."]));
    Font {
        name: "tiny".to_string(),
        description: "test font".to_string(),
        height: 2,
        characters,
    }
}

fn text_of(lines: &[Vec<char>]) -> Vec<String> {
    lines.iter().map(|l| l.iter().collect()).collect()
}

#[test]
fn empty_text_renders_empty_in_every_font() {
    for name in ["standard", "standard_shadow", "standard_solid"] {
        assert_eq!(render_text("", name, 0, 7).unwrap(), "");
        assert_eq!(render_text("", name, 20, 3).unwrap(), "");
    }
}

#[test]
fn blank_text_renders_empty() {
    assert_eq!(render_text("  \t \n", "standard", 0, 7).unwrap(), "");
}

#[test]
fn unknown_font_is_reported_by_name() {
    match get_font("fancy") {
        Err(FontError::FontNotFound(n)) => assert_eq!(n, "fancy"),
        _ => panic!("expected FontNotFound"),
    }
    match render_text("HI", "Standard", 0, 5) {
        Err(FontError::FontNotFound(n)) => assert_eq!(n, "Standard"),
        _ => panic!("expected FontNotFound"),
    }
}

#[test]
fn builtin_fonts_have_their_heights() {
    let shadow = get_font("standard_shadow").unwrap();
    assert_eq!(shadow.height, 7);
    assert_eq!(shadow.name, "standard_shadow");
    let standard = get_font("standard").unwrap();
    assert_eq!(standard.name, "standard_shadow");
    let solid = get_font("standard_solid").unwrap();
    assert_eq!(solid.height, 5);
    assert_eq!(solid.characters.len(), 41);
}

#[test]
fn long_word_stays_whole_on_its_own_line() {
    let font = get_font("standard_solid").unwrap();
    let lines = wrap_text("HI ABCDEFGHIJ HI", &font, 5).unwrap();
    assert_eq!(text_of(&lines), vec!["HI", "ABCDEFGHIJ", "HI"]);
}

#[test]
fn unlimited_width_gives_one_line() {
    let font = get_font("standard").unwrap();
    let lines = wrap_text("  THE QUICK   BROWN\tFOX  ", &font, 0).unwrap();
    assert_eq!(text_of(&lines), vec!["THE QUICK BROWN FOX"]);
    let none = wrap_text("   ", &font, 0).unwrap();
    assert!(none.is_empty());
}

#[test]
fn wrap_limit_is_inclusive() {
    // Solid font: H is 7 wide, I is 3 and the space 3, so "HI HI" is 23 wide.
    let font = get_font("standard_solid").unwrap();
    let fits = wrap_text("HI HI", &font, 23).unwrap();
    assert_eq!(text_of(&fits), vec!["HI HI"]);
    let split = wrap_text("HI HI", &font, 22).unwrap();
    assert_eq!(text_of(&split), vec!["HI", "HI"]);
}

#[test]
fn wrap_uses_glyph_widths_of_lower_case() {
    let font = get_font("standard_solid").unwrap();
    let split = wrap_text("hi hi", &font, 22).unwrap();
    assert_eq!(text_of(&split), vec!["hi", "hi"]);
}

#[test]
fn split_on_marks() {
    let chars = vec!['a', ' ', ' ', 'b', 'c', ' '];
    let blank = vec![false, true, true, false, false, true];
    let words = split_words_with(&chars, &blank);
    assert_eq!(words, vec![vec!['a'], vec!['b', 'c']]);
}

#[test]
fn split_on_any_white_space() {
    let words = split_words("a\tb\nc\u{A0}d  e");
    assert_eq!(words.len(), 5);
    assert_eq!(words[3], vec!['d']);
}

#[test]
fn wrap_words_greedy_packing() {
    let font = tiny_font();
    let words = vec![vec!['A'], vec!['A'], vec!['B'], vec!['A']];
    // A=1, space=1, B=2: "A A" is 3 wide, "B A" is 4.
    let lines = wrap_words(&words, &font, 4).unwrap();
    assert_eq!(text_of(&lines), vec!["A A", "B A"]);
}

#[test]
fn composed_rows_follow_requested_height() {
    let font = get_font("standard_shadow").unwrap();
    assert_eq!(render_character_line(&['H'], &font, 3).unwrap().len(), 3);
    assert_eq!(render_character_line(&['H'], &font, 100).unwrap().len(), 7);
    assert_eq!(render_character_line(&[], &font, 4).unwrap(), vec![""; 4]);
    assert_eq!(render_character_line(&['H'], &font, 0).unwrap().len(), 0);
}

#[test]
fn composing_twice_gives_the_same_rows() {
    let font = get_font("standard").unwrap();
    let line = ['H', 'E', 'Y', ' ', '1'];
    let a = render_character_line(&line, &font, 7).unwrap();
    let b = render_character_line(&line, &font, 7).unwrap();
    assert_eq!(a, b);
}

#[test]
fn short_glyphs_are_padded_with_spaces() {
    let font = tiny_font();
    let rows = render_character_line(&['A', 'B', 'A'], &font, 2).unwrap();
    assert_eq!(rows, vec!["####", "#  #"]);
}

#[test]
fn every_row_of_hi_is_inked() {
    let out = render_text("HI", "standard_solid", 0, 5).unwrap();
    let rows: Vec<&str> = out.lines().collect();
    assert_eq!(rows.len(), 5);
    for row in rows {
        assert!(row.contains('█'));
    }
}

#[test]
fn hello_world_wraps_into_two_blocks() {
    let out = render_text("HELLO WORLD", "standard", 20, 7).unwrap();
    let rows: Vec<&str> = out.lines().collect();
    assert_eq!(rows.len(), 15);
    assert_eq!(rows[7], "");
    assert_eq!(rows.iter().filter(|r| r.is_empty()).count(), 1);
}

#[test]
fn requested_height_truncates() {
    let seven = render_text_with_shadow("HI", "standard", 0, 7, true).unwrap();
    assert_eq!(seven.lines().count(), 7);
    let five = render_text("HI", "standard_shadow", 0, 5).unwrap();
    assert_eq!(five.lines().count(), 5);
    let full: Vec<&str> = seven.lines().collect();
    let cut: Vec<&str> = five.lines().collect();
    assert_eq!(&full[..5], &cut[..]);
}

#[test]
fn options_entry_point_picks_font_and_height() {
    let shadow = render_text_with_options("A", "x", 0, 2, true, false).unwrap();
    assert_eq!(shadow.lines().count(), 7);
    let solid = render_text_with_options("A", "x", 0, 2, false, true).unwrap();
    assert_eq!(solid.lines().count(), 5);
    assert!(!solid.contains('═'));
}

#[test]
fn blocks_are_separated_by_one_blank_line() {
    let font = tiny_font();
    let out = render_with_font("A  A", &font, 1, 2).unwrap();
    assert_eq!(out, "#\n#\n\n#\n#");
    let joined = render_with_font("A A", &font, 0, 2).unwrap();
    assert_eq!(joined, "#.#\n#.#");
}

#[test]
fn lower_case_resolves_to_upper_case_glyph() {
    let font = tiny_font();
    let g = font.get_character('a').unwrap();
    assert_eq!(g.data, vec!["#", "#"]);
}

#[test]
fn missing_character_without_fallback_is_an_error() {
    let font = tiny_font();
    match font.get_character('x') {
        Err(FontError::CharacterNotSupported(c, n)) => {
            assert_eq!(c, 'X');
            assert_eq!(n, "tiny");
        }
        _ => panic!("expected CharacterNotSupported"),
    }
    match render_with_font("A bz", &font, 0, 2) {
        Err(FontError::CharacterNotSupported(c, _)) => assert_eq!(c, 'Z'),
        _ => panic!("expected CharacterNotSupported"),
    }
}

#[test]
fn missing_space_is_reported_between_words() {
    let mut font = tiny_font();
    font.characters.remove(&(' ' as u32));
    assert!(render_with_font("AB", &font, 0, 2).is_ok());
    match render_with_font("A B", &font, 0, 2) {
        Err(FontError::CharacterNotSupported(c, _)) => assert_eq!(c, ' '),
        _ => panic!("expected CharacterNotSupported"),
    }
}

#[test]
fn unknown_character_falls_back_to_question_mark() {
    let font = get_font("standard_solid").unwrap();
    let fallback = font.get_character('?').unwrap().data.clone();
    assert_eq!(font.get_character('~').unwrap().data, fallback);
    assert_eq!(font.get_character('é').unwrap().data, fallback);
}

#[test]
fn default_options() {
    let o = RenderOptions::default();
    assert_eq!(o.font_name, "standard");
    assert_eq!(o.max_width, 0);
    assert_eq!(o.height, 5);
    assert_eq!(o.spacing, 1);
}

#[test]
fn solid_hi_rows_are_exact() {
    let out = render_text("HI", "standard_solid", 0, 5).unwrap();
    assert_eq!(
        out,
        "██   █████\n██   ██ █ \n███████ █ \n██   ██ █ \n██   █████"
    );
}

#[test]
fn shadow_toggle_keeps_requested_height() {
    let five = render_text_with_shadow("HI", "standard", 0, 5, true).unwrap();
    assert_eq!(five, render_text("HI", "standard_shadow", 0, 5).unwrap());
    assert_eq!(five.lines().count(), 5);
    let tall = render_text_with_shadow("HI", "standard", 0, 50, true).unwrap();
    assert_eq!(tall.lines().count(), 7);
}

#[test]
fn store_renders_like_the_free_functions() {
    let fonts = FontStore::new();
    for name in ["standard", "standard_shadow", "standard_solid"] {
        assert_eq!(
            fonts.render_text("HELLO WORLD", name, 30, 7).unwrap(),
            render_text("HELLO WORLD", name, 30, 7).unwrap()
        );
        assert_eq!(fonts.get_font(name).unwrap().height, get_font(name).unwrap().height);
    }
    match fonts.render_text("HI", "small", 0, 5) {
        Err(FontError::FontNotFound(n)) => assert_eq!(n, "small"),
        _ => panic!("expected FontNotFound"),
    }
}
