//! The built-in fonts: a shadowed box-drawing face and a solid block face.

use crate::font::{lemma_first_unsupported_none, Font, FontCharacter, FontError, FontView, GlyphView};
use std::collections::HashMap;
use vstd::prelude::*;

verus! {

/// The shadowed box-drawing face: the glyph drawn for the character with code `code`.
pub open spec fn shadow_glyph(code: u32) -> Option<GlyphView> {
    if code == ' ' as u32 {
        Some(GlyphView { width: 3, height: 7, rows: seq![
            "   "@,
            "   "@,
            "   "@,
            "   "@,
            "   "@,
            "   "@,
            "   "@,
        ] })
    } else if code == 'A' as u32 {
        Some(GlyphView { width: 7, height: 7, rows: seq![
            " █████╗ "@,
            "██╔══██╗"@,
            "███████║"@,
            "██╔══██║"@,
            "██║  ██║"@,
            "╚═╝  ╚═╝"@,
            "        "@,
        ] })
    } else if code == 'B' as u32 {
        Some(GlyphView { width: 8, height: 7, rows: seq![
            "██████╗ "@,
            "██╔══██╗"@,
            "██████╔╝"@,
            "██╔══██╗"@,
            "██████╔╝"@,
            "╚═════╝ "@,
            "        "@,
        ] })
    } else if code == 'C' as u32 {
        Some(GlyphView { width: 9, height: 7, rows: seq![
            " ██████╗ "@,
            "██╔════╝ "@,
            "██║      "@,
            "██║      "@,
            "╚██████╗ "@,
            " ╚═════╝ "@,
            "         "@,
        ] })
    } else if code == 'D' as u32 {
        Some(GlyphView { width: 8, height: 7, rows: seq![
            "██████╗ "@,
            "██╔══██╗"@,
            "██║  ██║"@,
            "██║  ██║"@,
            "██████╔╝"@,
            "╚═════╝ "@,
            "        "@,
        ] })
    } else if code == 'E' as u32 {
        Some(GlyphView { width: 8, height: 7, rows: seq![
            "███████╗"@,
            "██╔════╝"@,
            "█████╗  "@,
            "██╔══╝  "@,
            "███████╗"@,
            "╚══════╝"@,
            "        "@,
        ] })
    } else if code == 'F' as u32 {
        Some(GlyphView { width: 8, height: 7, rows: seq![
            "███████╗"@,
            "██╔════╝"@,
            "█████╗  "@,
            "██╔══╝  "@,
            "██║     "@,
            "╚═╝     "@,
            "        "@,
        ] })
    } else if code == 'G' as u32 {
        Some(GlyphView { width: 9, height: 7, rows: seq![
            " ██████╗ "@,
            "██╔════╝ "@,
            "██║  ███╗"@,
            "██║   ██║"@,
            "╚██████╔╝"@,
            " ╚═════╝ "@,
            "         "@,
        ] })
    } else if code == 'H' as u32 {
        Some(GlyphView { width: 9, height: 7, rows: seq![
            "██╗   ██╗"@,
            "██║   ██║"@,
            "████████║"@,
            "██╔═══██║"@,
            "██║   ██║"@,
            "╚═╝   ╚═╝"@,
            "         "@,
        ] })
    } else if code == 'I' as u32 {
        Some(GlyphView { width: 3, height: 7, rows: seq![
            "██╗"@,
            "██║"@,
            "██║"@,
            "██║"@,
            "██║"@,
            "╚═╝"@,
            "   "@,
        ] })
    } else if code == 'J' as u32 {
        Some(GlyphView { width: 9, height: 7, rows: seq![
            "     ██╗ "@,
            "     ██║ "@,
            "     ██║ "@,
            "██   ██║ "@,
            "╚██████║ "@,
            " ╚═════╝ "@,
            "         "@,
        ] })
    } else if code == 'K' as u32 {
        Some(GlyphView { width: 8, height: 7, rows: seq![
            "██╗  ██╗"@,
            "██║ ██╔╝"@,
            "█████╔╝ "@,
            "██╔═██╗ "@,
            "██║  ██╗"@,
            "╚═╝  ╚═╝"@,
            "        "@,
        ] })
    } else if code == 'L' as u32 {
        Some(GlyphView { width: 7, height: 7, rows: seq![
            "██╗     "@,
            "██║     "@,
            "██║     "@,
            "██║     "@,
            "███████╗"@,
            "╚══════╝"@,
            "        "@,
        ] })
    } else if code == 'M' as u32 {
        Some(GlyphView { width: 11, height: 7, rows: seq![
            "███╗   ███╗"@,
            "████╗ ████║"@,
            "██╔████╔██║"@,
            "██║╚██╔╝██║"@,
            "██║ ╚═╝ ██║"@,
            "╚═╝     ╚═╝"@,
            "           "@,
        ] })
    } else if code == 'N' as u32 {
        Some(GlyphView { width: 9, height: 7, rows: seq![
            "███╗   ██╗"@,
            "████╗  ██║"@,
            "██╔██╗ ██║"@,
            "██║╚██╗██║"@,
            "██║ ╚████║"@,
            "╚═╝  ╚═══╝"@,
            "          "@,
        ] })
    } else if code == 'O' as u32 {
        Some(GlyphView { width: 8, height: 7, rows: seq![
            " ██████╗ "@,
            "██╔═══██╗"@,
            "██║   ██║"@,
            "██║   ██║"@,
            "╚██████╔╝"@,
            " ╚═════╝ "@,
            "         "@,
        ] })
    } else if code == 'P' as u32 {
        Some(GlyphView { width: 8, height: 7, rows: seq![
            "██████╗ "@,
            "██╔══██╗"@,
            "██████╔╝"@,
            "██╔═══╝ "@,
            "██║     "@,
            "╚═╝     "@,
            "        "@,
        ] })
    } else if code == 'Q' as u32 {
        Some(GlyphView { width: 9, height: 7, rows: seq![
            " ██████╗ "@,
            "██╔═══██╗"@,
            "██║   ██║"@,
            "██║   ██║"@,
            "╚██████╔╝"@,
            " ╚═══██╔╝"@,
            "     ╚═╝ "@,
        ] })
    } else if code == 'R' as u32 {
        Some(GlyphView { width: 8, height: 7, rows: seq![
            "██████╗ "@,
            "██╔══██╗"@,
            "██████╔╝"@,
            "██╔══██╗"@,
            "██║  ██║"@,
            "╚═╝  ╚═╝"@,
            "        "@,
        ] })
    } else if code == 'S' as u32 {
        Some(GlyphView { width: 8, height: 7, rows: seq![
            "███████╗"@,
            "██╔════╝"@,
            "███████╗"@,
            "╚════██║"@,
            "███████║"@,
            "╚══════╝"@,
            "        "@,
        ] })
    } else if code == 'T' as u32 {
        Some(GlyphView { width: 9, height: 7, rows: seq![
            "████████╗"@,
            "╚══██╔══╝"@,
            "   ██║   "@,
            "   ██║   "@,
            "   ██║   "@,
            "   ╚═╝   "@,
            "         "@,
        ] })
    } else if code == 'U' as u32 {
        Some(GlyphView { width: 8, height: 7, rows: seq![
            "██╗   ██╗"@,
            "██║   ██║"@,
            "██║   ██║"@,
            "██║   ██║"@,
            "╚██████╔╝"@,
            " ╚═════╝ "@,
            "         "@,
        ] })
    } else if code == 'V' as u32 {
        Some(GlyphView { width: 9, height: 7, rows: seq![
            "██╗   ██╗"@,
            "██║   ██║"@,
            "╚██╗ ██╔╝"@,
            " ╚██╗██╔╝"@,
            "  ╚███╔╝ "@,
            "   ╚═╝   "@,
            "         "@,
        ] })
    } else if code == 'W' as u32 {
        Some(GlyphView { width: 11, height: 7, rows: seq![
            "██╗    ██╗ "@,
            "██║    ██║ "@,
            "██║ █╗ ██║ "@,
            "██║███╗██║ "@,
            "╚███╔███╔╝ "@,
            " ╚══╝╚══╝  "@,
            "            "@,
        ] })
    } else if code == 'X' as u32 {
        Some(GlyphView { width: 9, height: 7, rows: seq![
            "██╗  ██╗ "@,
            "╚██╗██╔╝ "@,
            " ╚███╔╝  "@,
            " ██╔██╗  "@,
            "██╔╝ ██╗ "@,
            "╚═╝  ╚═╝ "@,
            "         "@,
        ] })
    } else if code == 'Y' as u32 {
        Some(GlyphView { width: 9, height: 7, rows: seq![
            "██╗   ██╗"@,
            "╚██╗ ██╔╝"@,
            " ╚████╔╝ "@,
            "  ╚██╔╝  "@,
            "   ██║   "@,
            "   ╚═╝   "@,
            "         "@,
        ] })
    } else if code == 'Z' as u32 {
        Some(GlyphView { width: 8, height: 7, rows: seq![
            "███████╗"@,
            "╚════██║"@,
            "   ██╔╝ "@,
            "  ██╔╝  "@,
            "███████╗"@,
            "╚══════╝"@,
            "        "@,
        ] })
    } else if code == '0' as u32 {
        Some(GlyphView { width: 9, height: 7, rows: seq![
            " ██████╗ "@,
            "██╔═══██╗"@,
            "██║   ██║"@,
            "██║   ██║"@,
            "╚██████╔╝"@,
            " ╚═════╝ "@,
            "         "@,
        ] })
    } else if code == '1' as u32 {
        Some(GlyphView { width: 5, height: 7, rows: seq![
            " ██╗ "@,
            "███║ "@,
            "╚██║ "@,
            " ██║ "@,
            " ██║ "@,
            " ╚═╝ "@,
            "     "@,
        ] })
    } else if code == '2' as u32 {
        Some(GlyphView { width: 8, height: 7, rows: seq![
            "██████╗ "@,
            "╚════██╗"@,
            " █████╔╝"@,
            "██╔═══╝ "@,
            "███████╗"@,
            "╚══════╝"@,
            "        "@,
        ] })
    } else if code == '3' as u32 {
        Some(GlyphView { width: 8, height: 7, rows: seq![
            "██████╗ "@,
            "╚════██╗"@,
            " █████╔╝"@,
            " ╚═══██╗"@,
            "██████╔╝"@,
            "╚═════╝ "@,
            "        "@,
        ] })
    } else if code == '4' as u32 {
        Some(GlyphView { width: 8, height: 7, rows: seq![
            "██╗  ██╗"@,
            "██║  ██║"@,
            "███████║"@,
            "╚════██║"@,
            "     ██║"@,
            "     ╚═╝"@,
            "        "@,
        ] })
    } else if code == '5' as u32 {
        Some(GlyphView { width: 8, height: 7, rows: seq![
            "███████╗"@,
            "██╔════╝"@,
            "███████╗"@,
            "╚════██║"@,
            "██████╔╝"@,
            "╚═════╝ "@,
            "        "@,
        ] })
    } else if code == '6' as u32 {
        Some(GlyphView { width: 9, height: 7, rows: seq![
            " ██████╗ "@,
            "██╔════╝ "@,
            "██████╗  "@,
            "██╔══██╗ "@,
            "╚██████╔╝"@,
            " ╚═════╝ "@,
            "         "@,
        ] })
    } else if code == '7' as u32 {
        Some(GlyphView { width: 8, height: 7, rows: seq![
            "███████╗"@,
            "╚════██║"@,
            "    ██╔╝"@,
            "   ██╔╝ "@,
            "  ██╔╝  "@,
            "  ╚═╝   "@,
            "        "@,
        ] })
    } else if code == '8' as u32 {
        Some(GlyphView { width: 8, height: 7, rows: seq![
            " █████╗ "@,
            "██╔══██╗"@,
            "╚█████╔╝"@,
            "██╔══██╗"@,
            "╚█████╔╝"@,
            " ╚════╝ "@,
            "        "@,
        ] })
    } else if code == '9' as u32 {
        Some(GlyphView { width: 8, height: 7, rows: seq![
            " █████╗ "@,
            "██╔══██╗"@,
            "╚██████║"@,
            " ╚═══██║"@,
            " █████╔╝"@,
            " ╚════╝ "@,
            "        "@,
        ] })
    } else if code == '!' as u32 {
        Some(GlyphView { width: 3, height: 7, rows: seq![
            "██╗"@,
            "██║"@,
            "██║"@,
            "██║"@,
            "╚═╝"@,
            "██╗"@,
            "╚═╝"@,
        ] })
    } else if code == '?' as u32 {
        Some(GlyphView { width: 8, height: 7, rows: seq![
            " █████╗ "@,
            "██╔══██╗"@,
            "╚═══██╔╝"@,
            "   ██╔╝ "@,
            "   ╚═╝  "@,
            "   ██╗  "@,
            "   ╚═╝  "@,
        ] })
    } else if code == '.' as u32 {
        Some(GlyphView { width: 3, height: 7, rows: seq![
            "   "@,
            "   "@,
            "   "@,
            "   "@,
            "██╗"@,
            "╚═╝"@,
            "   "@,
        ] })
    } else if code == ',' as u32 {
        Some(GlyphView { width: 4, height: 7, rows: seq![
            "    "@,
            "    "@,
            "    "@,
            "    "@,
            " ██╗"@,
            "██╔╝"@,
            "╚═╝ "@,
        ] })
    } else {
        None
    }
}

/// The shadowed box-drawing face as a whole.
pub open spec fn shadow_font() -> FontView {
    FontView {
        name: "standard_shadow"@,
        height: 7,
        glyphs: Map::new(|k: u32| shadow_glyph(k) is Some, |k: u32| shadow_glyph(k)->0),
    }
}

/// The solid block face: the glyph drawn for the character with code `code`.
pub open spec fn solid_glyph(code: u32) -> Option<GlyphView> {
    if code == ' ' as u32 {
        Some(GlyphView { width: 3, height: 5, rows: seq![
            "   "@,
            "   "@,
            "   "@,
            "   "@,
            "   "@,
        ] })
    } else if code == 'A' as u32 {
        Some(GlyphView { width: 7, height: 5, rows: seq![
            " █████ "@,
            "██   ██"@,
            "███████"@,
            "██   ██"@,
            "██   ██"@,
        ] })
    } else if code == 'B' as u32 {
        Some(GlyphView { width: 7, height: 5, rows: seq![
            "██████ "@,
            "██   ██"@,
            "██████ "@,
            "██   ██"@,
            "██████ "@,
        ] })
    } else if code == 'C' as u32 {
        Some(GlyphView { width: 7, height: 5, rows: seq![
            " ██████"@,
            "██     "@,
            "██     "@,
            "██     "@,
            " ██████"@,
        ] })
    } else if code == 'D' as u32 {
        Some(GlyphView { width: 7, height: 5, rows: seq![
            "██████ "@,
            "██   ██"@,
            "██   ██"@,
            "██   ██"@,
            "██████ "@,
        ] })
    } else if code == 'E' as u32 {
        Some(GlyphView { width: 6, height: 5, rows: seq![
            "██████"@,
            "██    "@,
            "██████"@,
            "██    "@,
            "██████"@,
        ] })
    } else if code == 'F' as u32 {
        Some(GlyphView { width: 6, height: 5, rows: seq![
            "██████"@,
            "██    "@,
            "██████"@,
            "██    "@,
            "██    "@,
        ] })
    } else if code == 'G' as u32 {
        Some(GlyphView { width: 7, height: 5, rows: seq![
            " ██████"@,
            "██     "@,
            "██  ███"@,
            "██   ██"@,
            " ██████"@,
        ] })
    } else if code == 'H' as u32 {
        Some(GlyphView { width: 7, height: 5, rows: seq![
            "██   ██"@,
            "██   ██"@,
            "███████"@,
            "██   ██"@,
            "██   ██"@,
        ] })
    } else if code == 'I' as u32 {
        Some(GlyphView { width: 3, height: 5, rows: seq![
            "███"@,
            " █ "@,
            " █ "@,
            " █ "@,
            "███"@,
        ] })
    } else if code == 'J' as u32 {
        Some(GlyphView { width: 5, height: 5, rows: seq![
            "█████"@,
            "   ██"@,
            "   ██"@,
            "█  ██"@,
            " ███ "@,
        ] })
    } else if code == 'K' as u32 {
        Some(GlyphView { width: 6, height: 5, rows: seq![
            "██  ██"@,
            "██ ██ "@,
            "████  "@,
            "██ ██ "@,
            "██  ██"@,
        ] })
    } else if code == 'L' as u32 {
        Some(GlyphView { width: 5, height: 5, rows: seq![
            "██   "@,
            "██   "@,
            "██   "@,
            "██   "@,
            "█████"@,
        ] })
    } else if code == 'M' as u32 {
        Some(GlyphView { width: 7, height: 5, rows: seq![
            "██   ██"@,
            "███ ███"@,
            "██ █ ██"@,
            "██   ██"@,
            "██   ██"@,
        ] })
    } else if code == 'N' as u32 {
        Some(GlyphView { width: 7, height: 5, rows: seq![
            "██   ██"@,
            "███  ██"@,
            "██ █ ██"@,
            "██  ███"@,
            "██   ██"@,
        ] })
    } else if code == 'O' as u32 {
        Some(GlyphView { width: 7, height: 5, rows: seq![
            " █████ "@,
            "██   ██"@,
            "██   ██"@,
            "██   ██"@,
            " █████ "@,
        ] })
    } else if code == 'P' as u32 {
        Some(GlyphView { width: 6, height: 5, rows: seq![
            "██████"@,
            "██  ██"@,
            "██████"@,
            "██    "@,
            "██    "@,
        ] })
    } else if code == 'Q' as u32 {
        Some(GlyphView { width: 7, height: 5, rows: seq![
            " █████ "@,
            "██   ██"@,
            "██ █ ██"@,
            "██  ██ "@,
            " ██████"@,
        ] })
    } else if code == 'R' as u32 {
        Some(GlyphView { width: 6, height: 5, rows: seq![
            "██████"@,
            "██  ██"@,
            "██████"@,
            "██ ██ "@,
            "██  ██"@,
        ] })
    } else if code == 'S' as u32 {
        Some(GlyphView { width: 6, height: 5, rows: seq![
            " █████"@,
            "██    "@,
            " ████ "@,
            "    ██"@,
            "█████ "@,
        ] })
    } else if code == 'T' as u32 {
        Some(GlyphView { width: 5, height: 5, rows: seq![
            "█████"@,
            "  █  "@,
            "  █  "@,
            "  █  "@,
            "  █  "@,
        ] })
    } else if code == 'U' as u32 {
        Some(GlyphView { width: 7, height: 5, rows: seq![
            "██   ██"@,
            "██   ██"@,
            "██   ██"@,
            "██   ██"@,
            " █████ "@,
        ] })
    } else if code == 'V' as u32 {
        Some(GlyphView { width: 7, height: 5, rows: seq![
            "██   ██"@,
            "██   ██"@,
            " ██ ██ "@,
            "  ███  "@,
            "   █   "@,
        ] })
    } else if code == 'W' as u32 {
        Some(GlyphView { width: 7, height: 5, rows: seq![
            "██   ██"@,
            "██   ██"@,
            "██ █ ██"@,
            "███ ███"@,
            "██   ██"@,
        ] })
    } else if code == 'X' as u32 {
        Some(GlyphView { width: 7, height: 5, rows: seq![
            "██   ██"@,
            " ██ ██ "@,
            "  ███  "@,
            " ██ ██ "@,
            "██   ██"@,
        ] })
    } else if code == 'Y' as u32 {
        Some(GlyphView { width: 7, height: 5, rows: seq![
            "██   ██"@,
            " ██ ██ "@,
            "  ███  "@,
            "   █   "@,
            "   █   "@,
        ] })
    } else if code == 'Z' as u32 {
        Some(GlyphView { width: 6, height: 5, rows: seq![
            "██████"@,
            "   ██ "@,
            "  ██  "@,
            " ██   "@,
            "██████"@,
        ] })
    } else if code == '0' as u32 {
        Some(GlyphView { width: 5, height: 5, rows: seq![
            " ███ "@,
            "██ ██"@,
            "█ █ █"@,
            "██ ██"@,
            " ███ "@,
        ] })
    } else if code == '1' as u32 {
        Some(GlyphView { width: 3, height: 5, rows: seq![
            " █ "@,
            "██ "@,
            " █ "@,
            " █ "@,
            "███"@,
        ] })
    } else if code == '2' as u32 {
        Some(GlyphView { width: 5, height: 5, rows: seq![
            " ███ "@,
            "█   █"@,
            "   █ "@,
            "  █  "@,
            "█████"@,
        ] })
    } else if code == '3' as u32 {
        Some(GlyphView { width: 5, height: 5, rows: seq![
            " ███ "@,
            "    █"@,
            " ███ "@,
            "    █"@,
            " ███ "@,
        ] })
    } else if code == '4' as u32 {
        Some(GlyphView { width: 5, height: 5, rows: seq![
            "█   █"@,
            "█   █"@,
            "█████"@,
            "    █"@,
            "    █"@,
        ] })
    } else if code == '5' as u32 {
        Some(GlyphView { width: 5, height: 5, rows: seq![
            "█████"@,
            "█    "@,
            "████ "@,
            "    █"@,
            "████ "@,
        ] })
    } else if code == '6' as u32 {
        Some(GlyphView { width: 5, height: 5, rows: seq![
            " ███ "@,
            "█    "@,
            "████ "@,
            "█   █"@,
            " ███ "@,
        ] })
    } else if code == '7' as u32 {
        Some(GlyphView { width: 5, height: 5, rows: seq![
            "█████"@,
            "    █"@,
            "   █ "@,
            "  █  "@,
            " █   "@,
        ] })
    } else if code == '8' as u32 {
        Some(GlyphView { width: 5, height: 5, rows: seq![
            " ███ "@,
            "█   █"@,
            " ███ "@,
            "█   █"@,
            " ███ "@,
        ] })
    } else if code == '9' as u32 {
        Some(GlyphView { width: 5, height: 5, rows: seq![
            " ███ "@,
            "█   █"@,
            " ████"@,
            "    █"@,
            " ███ "@,
        ] })
    } else if code == '!' as u32 {
        Some(GlyphView { width: 1, height: 5, rows: seq![
            "█"@,
            "█"@,
            "█"@,
            " "@,
            "█"@,
        ] })
    } else if code == '?' as u32 {
        Some(GlyphView { width: 5, height: 5, rows: seq![
            " ███ "@,
            "    █"@,
            "  ██ "@,
            "     "@,
            "  █  "@,
        ] })
    } else if code == '.' as u32 {
        Some(GlyphView { width: 1, height: 5, rows: seq![
            " "@,
            " "@,
            " "@,
            " "@,
            "█"@,
        ] })
    } else if code == ',' as u32 {
        Some(GlyphView { width: 2, height: 5, rows: seq![
            "  "@,
            "  "@,
            "  "@,
            " █"@,
            "█ "@,
        ] })
    } else {
        None
    }
}

/// The solid block face as a whole.
pub open spec fn solid_font() -> FontView {
    FontView {
        name: "standard_solid"@,
        height: 5,
        glyphs: Map::new(|k: u32| solid_glyph(k) is Some, |k: u32| solid_glyph(k)->0),
    }
}

/// Every glyph of `table` is the glyph `glyphs` gives for its code.
pub open spec fn agrees(table: Map<u32, FontCharacter>, glyphs: Map<u32, GlyphView>) -> bool {
    forall|k: u32| #[trigger]
        table.contains_key(k) ==> glyphs.contains_key(k) && table[k]@ == glyphs[k]
}

/// Adds the glyph for `ch` to a table being filled from `glyphs`.
fn add_glyph(
    table: &mut HashMap<u32, FontCharacter>,
    Ghost(glyphs): Ghost<Map<u32, GlyphView>>,
    ch: char,
    width: u32,
    height: u32,
    data: Vec<String>,
)
    requires
        agrees(old(table)@, glyphs),
        glyphs.contains_key(ch as u32),
        glyphs[ch as u32].width == width,
        glyphs[ch as u32].height == height,
        glyphs[ch as u32].rows =~= data@.map_values(|s: String| s@),
    ensures
        agrees(final(table)@, glyphs),
        final(table)@.dom() == old(table)@.dom().insert(ch as u32),
{
    let glyph = FontCharacter { width, height, data };
    proof {
        assert(glyph@ == glyphs[ch as u32]);
    }
    table.insert(ch as u32, glyph);
}

/// Builds the box-drawing font whose glyphs carry a drop shadow; 7 rows tall.
fn create_standard_shadow_font() -> (f: Font)
    ensures
        f@ == shadow_font(),
{
    let mut characters: HashMap<u32, FontCharacter> = HashMap::new();
    add_glyph(
        &mut characters,
        Ghost(shadow_font().glyphs),
        ' ',
        3,
        7,
        vec![
            "   ".to_string(),
            "   ".to_string(),
            "   ".to_string(),
            "   ".to_string(),
            "   ".to_string(),
            "   ".to_string(),
            "   ".to_string(),
        ],
    );
    add_glyph(
        &mut characters,
        Ghost(shadow_font().glyphs),
        'A',
        7,
        7,
        vec![
            " █████╗ ".to_string(),
            "██╔══██╗".to_string(),
            "███████║".to_string(),
            "██╔══██║".to_string(),
            "██║  ██║".to_string(),
            "╚═╝  ╚═╝".to_string(),
            "        ".to_string(),
        ],
    );
    add_glyph(
        &mut characters,
        Ghost(shadow_font().glyphs),
        'B',
        8,
        7,
        vec![
            "██████╗ ".to_string(),
            "██╔══██╗".to_string(),
            "██████╔╝".to_string(),
            "██╔══██╗".to_string(),
            "██████╔╝".to_string(),
            "╚═════╝ ".to_string(),
            "        ".to_string(),
        ],
    );
    add_glyph(
        &mut characters,
        Ghost(shadow_font().glyphs),
        'C',
        9,
        7,
        vec![
            " ██████╗ ".to_string(),
            "██╔════╝ ".to_string(),
            "██║      ".to_string(),
            "██║      ".to_string(),
            "╚██████╗ ".to_string(),
            " ╚═════╝ ".to_string(),
            "         ".to_string(),
        ],
    );
    add_glyph(
        &mut characters,
        Ghost(shadow_font().glyphs),
        'D',
        8,
        7,
        vec![
            "██████╗ ".to_string(),
            "██╔══██╗".to_string(),
            "██║  ██║".to_string(),
            "██║  ██║".to_string(),
            "██████╔╝".to_string(),
            "╚═════╝ ".to_string(),
            "        ".to_string(),
        ],
    );
    add_glyph(
        &mut characters,
        Ghost(shadow_font().glyphs),
        'E',
        8,
        7,
        vec![
            "███████╗".to_string(),
            "██╔════╝".to_string(),
            "█████╗  ".to_string(),
            "██╔══╝  ".to_string(),
            "███████╗".to_string(),
            "╚══════╝".to_string(),
            "        ".to_string(),
        ],
    );
    add_glyph(
        &mut characters,
        Ghost(shadow_font().glyphs),
        'F',
        8,
        7,
        vec![
            "███████╗".to_string(),
            "██╔════╝".to_string(),
            "█████╗  ".to_string(),
            "██╔══╝  ".to_string(),
            "██║     ".to_string(),
            "╚═╝     ".to_string(),
            "        ".to_string(),
        ],
    );
    add_glyph(
        &mut characters,
        Ghost(shadow_font().glyphs),
        'G',
        9,
        7,
        vec![
            " ██████╗ ".to_string(),
            "██╔════╝ ".to_string(),
            "██║  ███╗".to_string(),
            "██║   ██║".to_string(),
            "╚██████╔╝".to_string(),
            " ╚═════╝ ".to_string(),
            "         ".to_string(),
        ],
    );
    add_glyph(
        &mut characters,
        Ghost(shadow_font().glyphs),
        'H',
        9,
        7,
        vec![
            "██╗   ██╗".to_string(),
            "██║   ██║".to_string(),
            "████████║".to_string(),
            "██╔═══██║".to_string(),
            "██║   ██║".to_string(),
            "╚═╝   ╚═╝".to_string(),
            "         ".to_string(),
        ],
    );
    add_glyph(
        &mut characters,
        Ghost(shadow_font().glyphs),
        'I',
        3,
        7,
        vec![
            "██╗".to_string(),
            "██║".to_string(),
            "██║".to_string(),
            "██║".to_string(),
            "██║".to_string(),
            "╚═╝".to_string(),
            "   ".to_string(),
        ],
    );
    add_glyph(
        &mut characters,
        Ghost(shadow_font().glyphs),
        'J',
        9,
        7,
        vec![
            "     ██╗ ".to_string(),
            "     ██║ ".to_string(),
            "     ██║ ".to_string(),
            "██   ██║ ".to_string(),
            "╚██████║ ".to_string(),
            " ╚═════╝ ".to_string(),
            "         ".to_string(),
        ],
    );
    add_glyph(
        &mut characters,
        Ghost(shadow_font().glyphs),
        'K',
        8,
        7,
        vec![
            "██╗  ██╗".to_string(),
            "██║ ██╔╝".to_string(),
            "█████╔╝ ".to_string(),
            "██╔═██╗ ".to_string(),
            "██║  ██╗".to_string(),
            "╚═╝  ╚═╝".to_string(),
            "        ".to_string(),
        ],
    );
    add_glyph(
        &mut characters,
        Ghost(shadow_font().glyphs),
        'L',
        7,
        7,
        vec![
            "██╗     ".to_string(),
            "██║     ".to_string(),
            "██║     ".to_string(),
            "██║     ".to_string(),
            "███████╗".to_string(),
            "╚══════╝".to_string(),
            "        ".to_string(),
        ],
    );
    add_glyph(
        &mut characters,
        Ghost(shadow_font().glyphs),
        'M',
        11,
        7,
        vec![
            "███╗   ███╗".to_string(),
            "████╗ ████║".to_string(),
            "██╔████╔██║".to_string(),
            "██║╚██╔╝██║".to_string(),
            "██║ ╚═╝ ██║".to_string(),
            "╚═╝     ╚═╝".to_string(),
            "           ".to_string(),
        ],
    );
    add_glyph(
        &mut characters,
        Ghost(shadow_font().glyphs),
        'N',
        9,
        7,
        vec![
            "███╗   ██╗".to_string(),
            "████╗  ██║".to_string(),
            "██╔██╗ ██║".to_string(),
            "██║╚██╗██║".to_string(),
            "██║ ╚████║".to_string(),
            "╚═╝  ╚═══╝".to_string(),
            "          ".to_string(),
        ],
    );
    add_glyph(
        &mut characters,
        Ghost(shadow_font().glyphs),
        'O',
        8,
        7,
        vec![
            " ██████╗ ".to_string(),
            "██╔═══██╗".to_string(),
            "██║   ██║".to_string(),
            "██║   ██║".to_string(),
            "╚██████╔╝".to_string(),
            " ╚═════╝ ".to_string(),
            "         ".to_string(),
        ],
    );
    add_glyph(
        &mut characters,
        Ghost(shadow_font().glyphs),
        'P',
        8,
        7,
        vec![
            "██████╗ ".to_string(),
            "██╔══██╗".to_string(),
            "██████╔╝".to_string(),
            "██╔═══╝ ".to_string(),
            "██║     ".to_string(),
            "╚═╝     ".to_string(),
            "        ".to_string(),
        ],
    );
    add_glyph(
        &mut characters,
        Ghost(shadow_font().glyphs),
        'Q',
        9,
        7,
        vec![
            " ██████╗ ".to_string(),
            "██╔═══██╗".to_string(),
            "██║   ██║".to_string(),
            "██║   ██║".to_string(),
            "╚██████╔╝".to_string(),
            " ╚═══██╔╝".to_string(),
            "     ╚═╝ ".to_string(),
        ],
    );
    add_glyph(
        &mut characters,
        Ghost(shadow_font().glyphs),
        'R',
        8,
        7,
        vec![
            "██████╗ ".to_string(),
            "██╔══██╗".to_string(),
            "██████╔╝".to_string(),
            "██╔══██╗".to_string(),
            "██║  ██║".to_string(),
            "╚═╝  ╚═╝".to_string(),
            "        ".to_string(),
        ],
    );
    add_glyph(
        &mut characters,
        Ghost(shadow_font().glyphs),
        'S',
        8,
        7,
        vec![
            "███████╗".to_string(),
            "██╔════╝".to_string(),
            "███████╗".to_string(),
            "╚════██║".to_string(),
            "███████║".to_string(),
            "╚══════╝".to_string(),
            "        ".to_string(),
        ],
    );
    add_glyph(
        &mut characters,
        Ghost(shadow_font().glyphs),
        'T',
        9,
        7,
        vec![
            "████████╗".to_string(),
            "╚══██╔══╝".to_string(),
            "   ██║   ".to_string(),
            "   ██║   ".to_string(),
            "   ██║   ".to_string(),
            "   ╚═╝   ".to_string(),
            "         ".to_string(),
        ],
    );
    add_glyph(
        &mut characters,
        Ghost(shadow_font().glyphs),
        'U',
        8,
        7,
        vec![
            "██╗   ██╗".to_string(),
            "██║   ██║".to_string(),
            "██║   ██║".to_string(),
            "██║   ██║".to_string(),
            "╚██████╔╝".to_string(),
            " ╚═════╝ ".to_string(),
            "         ".to_string(),
        ],
    );
    add_glyph(
        &mut characters,
        Ghost(shadow_font().glyphs),
        'V',
        9,
        7,
        vec![
            "██╗   ██╗".to_string(),
            "██║   ██║".to_string(),
            "╚██╗ ██╔╝".to_string(),
            " ╚██╗██╔╝".to_string(),
            "  ╚███╔╝ ".to_string(),
            "   ╚═╝   ".to_string(),
            "         ".to_string(),
        ],
    );
    add_glyph(
        &mut characters,
        Ghost(shadow_font().glyphs),
        'W',
        11,
        7,
        vec![
            "██╗    ██╗ ".to_string(),
            "██║    ██║ ".to_string(),
            "██║ █╗ ██║ ".to_string(),
            "██║███╗██║ ".to_string(),
            "╚███╔███╔╝ ".to_string(),
            " ╚══╝╚══╝  ".to_string(),
            "            ".to_string(),
        ],
    );
    add_glyph(
        &mut characters,
        Ghost(shadow_font().glyphs),
        'X',
        9,
        7,
        vec![
            "██╗  ██╗ ".to_string(),
            "╚██╗██╔╝ ".to_string(),
            " ╚███╔╝  ".to_string(),
            " ██╔██╗  ".to_string(),
            "██╔╝ ██╗ ".to_string(),
            "╚═╝  ╚═╝ ".to_string(),
            "         ".to_string(),
        ],
    );
    add_glyph(
        &mut characters,
        Ghost(shadow_font().glyphs),
        'Y',
        9,
        7,
        vec![
            "██╗   ██╗".to_string(),
            "╚██╗ ██╔╝".to_string(),
            " ╚████╔╝ ".to_string(),
            "  ╚██╔╝  ".to_string(),
            "   ██║   ".to_string(),
            "   ╚═╝   ".to_string(),
            "         ".to_string(),
        ],
    );
    add_glyph(
        &mut characters,
        Ghost(shadow_font().glyphs),
        'Z',
        8,
        7,
        vec![
            "███████╗".to_string(),
            "╚════██║".to_string(),
            "   ██╔╝ ".to_string(),
            "  ██╔╝  ".to_string(),
            "███████╗".to_string(),
            "╚══════╝".to_string(),
            "        ".to_string(),
        ],
    );
    add_glyph(
        &mut characters,
        Ghost(shadow_font().glyphs),
        '0',
        9,
        7,
        vec![
            " ██████╗ ".to_string(),
            "██╔═══██╗".to_string(),
            "██║   ██║".to_string(),
            "██║   ██║".to_string(),
            "╚██████╔╝".to_string(),
            " ╚═════╝ ".to_string(),
            "         ".to_string(),
        ],
    );
    add_glyph(
        &mut characters,
        Ghost(shadow_font().glyphs),
        '1',
        5,
        7,
        vec![
            " ██╗ ".to_string(),
            "███║ ".to_string(),
            "╚██║ ".to_string(),
            " ██║ ".to_string(),
            " ██║ ".to_string(),
            " ╚═╝ ".to_string(),
            "     ".to_string(),
        ],
    );
    add_glyph(
        &mut characters,
        Ghost(shadow_font().glyphs),
        '2',
        8,
        7,
        vec![
            "██████╗ ".to_string(),
            "╚════██╗".to_string(),
            " █████╔╝".to_string(),
            "██╔═══╝ ".to_string(),
            "███████╗".to_string(),
            "╚══════╝".to_string(),
            "        ".to_string(),
        ],
    );
    add_glyph(
        &mut characters,
        Ghost(shadow_font().glyphs),
        '3',
        8,
        7,
        vec![
            "██████╗ ".to_string(),
            "╚════██╗".to_string(),
            " █████╔╝".to_string(),
            " ╚═══██╗".to_string(),
            "██████╔╝".to_string(),
            "╚═════╝ ".to_string(),
            "        ".to_string(),
        ],
    );
    add_glyph(
        &mut characters,
        Ghost(shadow_font().glyphs),
        '4',
        8,
        7,
        vec![
            "██╗  ██╗".to_string(),
            "██║  ██║".to_string(),
            "███████║".to_string(),
            "╚════██║".to_string(),
            "     ██║".to_string(),
            "     ╚═╝".to_string(),
            "        ".to_string(),
        ],
    );
    add_glyph(
        &mut characters,
        Ghost(shadow_font().glyphs),
        '5',
        8,
        7,
        vec![
            "███████╗".to_string(),
            "██╔════╝".to_string(),
            "███████╗".to_string(),
            "╚════██║".to_string(),
            "██████╔╝".to_string(),
            "╚═════╝ ".to_string(),
            "        ".to_string(),
        ],
    );
    add_glyph(
        &mut characters,
        Ghost(shadow_font().glyphs),
        '6',
        9,
        7,
        vec![
            " ██████╗ ".to_string(),
            "██╔════╝ ".to_string(),
            "██████╗  ".to_string(),
            "██╔══██╗ ".to_string(),
            "╚██████╔╝".to_string(),
            " ╚═════╝ ".to_string(),
            "         ".to_string(),
        ],
    );
    add_glyph(
        &mut characters,
        Ghost(shadow_font().glyphs),
        '7',
        8,
        7,
        vec![
            "███████╗".to_string(),
            "╚════██║".to_string(),
            "    ██╔╝".to_string(),
            "   ██╔╝ ".to_string(),
            "  ██╔╝  ".to_string(),
            "  ╚═╝   ".to_string(),
            "        ".to_string(),
        ],
    );
    add_glyph(
        &mut characters,
        Ghost(shadow_font().glyphs),
        '8',
        8,
        7,
        vec![
            " █████╗ ".to_string(),
            "██╔══██╗".to_string(),
            "╚█████╔╝".to_string(),
            "██╔══██╗".to_string(),
            "╚█████╔╝".to_string(),
            " ╚════╝ ".to_string(),
            "        ".to_string(),
        ],
    );
    add_glyph(
        &mut characters,
        Ghost(shadow_font().glyphs),
        '9',
        8,
        7,
        vec![
            " █████╗ ".to_string(),
            "██╔══██╗".to_string(),
            "╚██████║".to_string(),
            " ╚═══██║".to_string(),
            " █████╔╝".to_string(),
            " ╚════╝ ".to_string(),
            "        ".to_string(),
        ],
    );
    add_glyph(
        &mut characters,
        Ghost(shadow_font().glyphs),
        '!',
        3,
        7,
        vec![
            "██╗".to_string(),
            "██║".to_string(),
            "██║".to_string(),
            "██║".to_string(),
            "╚═╝".to_string(),
            "██╗".to_string(),
            "╚═╝".to_string(),
        ],
    );
    add_glyph(
        &mut characters,
        Ghost(shadow_font().glyphs),
        '?',
        8,
        7,
        vec![
            " █████╗ ".to_string(),
            "██╔══██╗".to_string(),
            "╚═══██╔╝".to_string(),
            "   ██╔╝ ".to_string(),
            "   ╚═╝  ".to_string(),
            "   ██╗  ".to_string(),
            "   ╚═╝  ".to_string(),
        ],
    );
    add_glyph(
        &mut characters,
        Ghost(shadow_font().glyphs),
        '.',
        3,
        7,
        vec![
            "   ".to_string(),
            "   ".to_string(),
            "   ".to_string(),
            "   ".to_string(),
            "██╗".to_string(),
            "╚═╝".to_string(),
            "   ".to_string(),
        ],
    );
    add_glyph(
        &mut characters,
        Ghost(shadow_font().glyphs),
        ',',
        4,
        7,
        vec![
            "    ".to_string(),
            "    ".to_string(),
            "    ".to_string(),
            "    ".to_string(),
            " ██╗".to_string(),
            "██╔╝".to_string(),
            "╚═╝ ".to_string(),
        ],
    );
    let f = Font {
        name: "standard_shadow".to_string(),
        description: "Standard Unicode box drawing font with built-in shadows and descenders".to_string(),
        height: 7,
        characters,
    };
    proof {
        assert(characters@.dom() =~= shadow_font().glyphs.dom());
        assert(f@.glyphs =~= shadow_font().glyphs);
    }
    f
}

/// Builds the solid block font without shadows; 5 rows tall.
fn create_standard_solid_font() -> (f: Font)
    ensures
        f@ == solid_font(),
{
    let mut characters: HashMap<u32, FontCharacter> = HashMap::new();
    add_glyph(
        &mut characters,
        Ghost(solid_font().glyphs),
        ' ',
        3,
        5,
        vec![
            "   ".to_string(),
            "   ".to_string(),
            "   ".to_string(),
            "   ".to_string(),
            "   ".to_string(),
        ],
    );
    add_glyph(
        &mut characters,
        Ghost(solid_font().glyphs),
        'A',
        7,
        5,
        vec![
            " █████ ".to_string(),
            "██   ██".to_string(),
            "███████".to_string(),
            "██   ██".to_string(),
            "██   ██".to_string(),
        ],
    );
    add_glyph(
        &mut characters,
        Ghost(solid_font().glyphs),
        'B',
        7,
        5,
        vec![
            "██████ ".to_string(),
            "██   ██".to_string(),
            "██████ ".to_string(),
            "██   ██".to_string(),
            "██████ ".to_string(),
        ],
    );
    add_glyph(
        &mut characters,
        Ghost(solid_font().glyphs),
        'C',
        7,
        5,
        vec![
            " ██████".to_string(),
            "██     ".to_string(),
            "██     ".to_string(),
            "██     ".to_string(),
            " ██████".to_string(),
        ],
    );
    add_glyph(
        &mut characters,
        Ghost(solid_font().glyphs),
        'D',
        7,
        5,
        vec![
            "██████ ".to_string(),
            "██   ██".to_string(),
            "██   ██".to_string(),
            "██   ██".to_string(),
            "██████ ".to_string(),
        ],
    );
    add_glyph(
        &mut characters,
        Ghost(solid_font().glyphs),
        'E',
        6,
        5,
        vec![
            "██████".to_string(),
            "██    ".to_string(),
            "██████".to_string(),
            "██    ".to_string(),
            "██████".to_string(),
        ],
    );
    add_glyph(
        &mut characters,
        Ghost(solid_font().glyphs),
        'F',
        6,
        5,
        vec![
            "██████".to_string(),
            "██    ".to_string(),
            "██████".to_string(),
            "██    ".to_string(),
            "██    ".to_string(),
        ],
    );
    add_glyph(
        &mut characters,
        Ghost(solid_font().glyphs),
        'G',
        7,
        5,
        vec![
            " ██████".to_string(),
            "██     ".to_string(),
            "██  ███".to_string(),
            "██   ██".to_string(),
            " ██████".to_string(),
        ],
    );
    add_glyph(
        &mut characters,
        Ghost(solid_font().glyphs),
        'H',
        7,
        5,
        vec![
            "██   ██".to_string(),
            "██   ██".to_string(),
            "███████".to_string(),
            "██   ██".to_string(),
            "██   ██".to_string(),
        ],
    );
    add_glyph(
        &mut characters,
        Ghost(solid_font().glyphs),
        'I',
        3,
        5,
        vec![
            "███".to_string(),
            " █ ".to_string(),
            " █ ".to_string(),
            " █ ".to_string(),
            "███".to_string(),
        ],
    );
    add_glyph(
        &mut characters,
        Ghost(solid_font().glyphs),
        'J',
        5,
        5,
        vec![
            "█████".to_string(),
            "   ██".to_string(),
            "   ██".to_string(),
            "█  ██".to_string(),
            " ███ ".to_string(),
        ],
    );
    add_glyph(
        &mut characters,
        Ghost(solid_font().glyphs),
        'K',
        6,
        5,
        vec![
            "██  ██".to_string(),
            "██ ██ ".to_string(),
            "████  ".to_string(),
            "██ ██ ".to_string(),
            "██  ██".to_string(),
        ],
    );
    add_glyph(
        &mut characters,
        Ghost(solid_font().glyphs),
        'L',
        5,
        5,
        vec![
            "██   ".to_string(),
            "██   ".to_string(),
            "██   ".to_string(),
            "██   ".to_string(),
            "█████".to_string(),
        ],
    );
    add_glyph(
        &mut characters,
        Ghost(solid_font().glyphs),
        'M',
        7,
        5,
        vec![
            "██   ██".to_string(),
            "███ ███".to_string(),
            "██ █ ██".to_string(),
            "██   ██".to_string(),
            "██   ██".to_string(),
        ],
    );
    add_glyph(
        &mut characters,
        Ghost(solid_font().glyphs),
        'N',
        7,
        5,
        vec![
            "██   ██".to_string(),
            "███  ██".to_string(),
            "██ █ ██".to_string(),
            "██  ███".to_string(),
            "██   ██".to_string(),
        ],
    );
    add_glyph(
        &mut characters,
        Ghost(solid_font().glyphs),
        'O',
        7,
        5,
        vec![
            " █████ ".to_string(),
            "██   ██".to_string(),
            "██   ██".to_string(),
            "██   ██".to_string(),
            " █████ ".to_string(),
        ],
    );
    add_glyph(
        &mut characters,
        Ghost(solid_font().glyphs),
        'P',
        6,
        5,
        vec![
            "██████".to_string(),
            "██  ██".to_string(),
            "██████".to_string(),
            "██    ".to_string(),
            "██    ".to_string(),
        ],
    );
    add_glyph(
        &mut characters,
        Ghost(solid_font().glyphs),
        'Q',
        7,
        5,
        vec![
            " █████ ".to_string(),
            "██   ██".to_string(),
            "██ █ ██".to_string(),
            "██  ██ ".to_string(),
            " ██████".to_string(),
        ],
    );
    add_glyph(
        &mut characters,
        Ghost(solid_font().glyphs),
        'R',
        6,
        5,
        vec![
            "██████".to_string(),
            "██  ██".to_string(),
            "██████".to_string(),
            "██ ██ ".to_string(),
            "██  ██".to_string(),
        ],
    );
    add_glyph(
        &mut characters,
        Ghost(solid_font().glyphs),
        'S',
        6,
        5,
        vec![
            " █████".to_string(),
            "██    ".to_string(),
            " ████ ".to_string(),
            "    ██".to_string(),
            "█████ ".to_string(),
        ],
    );
    add_glyph(
        &mut characters,
        Ghost(solid_font().glyphs),
        'T',
        5,
        5,
        vec![
            "█████".to_string(),
            "  █  ".to_string(),
            "  █  ".to_string(),
            "  █  ".to_string(),
            "  █  ".to_string(),
        ],
    );
    add_glyph(
        &mut characters,
        Ghost(solid_font().glyphs),
        'U',
        7,
        5,
        vec![
            "██   ██".to_string(),
            "██   ██".to_string(),
            "██   ██".to_string(),
            "██   ██".to_string(),
            " █████ ".to_string(),
        ],
    );
    add_glyph(
        &mut characters,
        Ghost(solid_font().glyphs),
        'V',
        7,
        5,
        vec![
            "██   ██".to_string(),
            "██   ██".to_string(),
            " ██ ██ ".to_string(),
            "  ███  ".to_string(),
            "   █   ".to_string(),
        ],
    );
    add_glyph(
        &mut characters,
        Ghost(solid_font().glyphs),
        'W',
        7,
        5,
        vec![
            "██   ██".to_string(),
            "██   ██".to_string(),
            "██ █ ██".to_string(),
            "███ ███".to_string(),
            "██   ██".to_string(),
        ],
    );
    add_glyph(
        &mut characters,
        Ghost(solid_font().glyphs),
        'X',
        7,
        5,
        vec![
            "██   ██".to_string(),
            " ██ ██ ".to_string(),
            "  ███  ".to_string(),
            " ██ ██ ".to_string(),
            "██   ██".to_string(),
        ],
    );
    add_glyph(
        &mut characters,
        Ghost(solid_font().glyphs),
        'Y',
        7,
        5,
        vec![
            "██   ██".to_string(),
            " ██ ██ ".to_string(),
            "  ███  ".to_string(),
            "   █   ".to_string(),
            "   █   ".to_string(),
        ],
    );
    add_glyph(
        &mut characters,
        Ghost(solid_font().glyphs),
        'Z',
        6,
        5,
        vec![
            "██████".to_string(),
            "   ██ ".to_string(),
            "  ██  ".to_string(),
            " ██   ".to_string(),
            "██████".to_string(),
        ],
    );
    add_glyph(
        &mut characters,
        Ghost(solid_font().glyphs),
        '0',
        5,
        5,
        vec![
            " ███ ".to_string(),
            "██ ██".to_string(),
            "█ █ █".to_string(),
            "██ ██".to_string(),
            " ███ ".to_string(),
        ],
    );
    add_glyph(
        &mut characters,
        Ghost(solid_font().glyphs),
        '1',
        3,
        5,
        vec![
            " █ ".to_string(),
            "██ ".to_string(),
            " █ ".to_string(),
            " █ ".to_string(),
            "███".to_string(),
        ],
    );
    add_glyph(
        &mut characters,
        Ghost(solid_font().glyphs),
        '2',
        5,
        5,
        vec![
            " ███ ".to_string(),
            "█   █".to_string(),
            "   █ ".to_string(),
            "  █  ".to_string(),
            "█████".to_string(),
        ],
    );
    add_glyph(
        &mut characters,
        Ghost(solid_font().glyphs),
        '3',
        5,
        5,
        vec![
            " ███ ".to_string(),
            "    █".to_string(),
            " ███ ".to_string(),
            "    █".to_string(),
            " ███ ".to_string(),
        ],
    );
    add_glyph(
        &mut characters,
        Ghost(solid_font().glyphs),
        '4',
        5,
        5,
        vec![
            "█   █".to_string(),
            "█   █".to_string(),
            "█████".to_string(),
            "    █".to_string(),
            "    █".to_string(),
        ],
    );
    add_glyph(
        &mut characters,
        Ghost(solid_font().glyphs),
        '5',
        5,
        5,
        vec![
            "█████".to_string(),
            "█    ".to_string(),
            "████ ".to_string(),
            "    █".to_string(),
            "████ ".to_string(),
        ],
    );
    add_glyph(
        &mut characters,
        Ghost(solid_font().glyphs),
        '6',
        5,
        5,
        vec![
            " ███ ".to_string(),
            "█    ".to_string(),
            "████ ".to_string(),
            "█   █".to_string(),
            " ███ ".to_string(),
        ],
    );
    add_glyph(
        &mut characters,
        Ghost(solid_font().glyphs),
        '7',
        5,
        5,
        vec![
            "█████".to_string(),
            "    █".to_string(),
            "   █ ".to_string(),
            "  █  ".to_string(),
            " █   ".to_string(),
        ],
    );
    add_glyph(
        &mut characters,
        Ghost(solid_font().glyphs),
        '8',
        5,
        5,
        vec![
            " ███ ".to_string(),
            "█   █".to_string(),
            " ███ ".to_string(),
            "█   █".to_string(),
            " ███ ".to_string(),
        ],
    );
    add_glyph(
        &mut characters,
        Ghost(solid_font().glyphs),
        '9',
        5,
        5,
        vec![
            " ███ ".to_string(),
            "█   █".to_string(),
            " ████".to_string(),
            "    █".to_string(),
            " ███ ".to_string(),
        ],
    );
    add_glyph(
        &mut characters,
        Ghost(solid_font().glyphs),
        '!',
        1,
        5,
        vec![
            "█".to_string(),
            "█".to_string(),
            "█".to_string(),
            " ".to_string(),
            "█".to_string(),
        ],
    );
    add_glyph(
        &mut characters,
        Ghost(solid_font().glyphs),
        '?',
        5,
        5,
        vec![
            " ███ ".to_string(),
            "    █".to_string(),
            "  ██ ".to_string(),
            "     ".to_string(),
            "  █  ".to_string(),
        ],
    );
    add_glyph(
        &mut characters,
        Ghost(solid_font().glyphs),
        '.',
        1,
        5,
        vec![
            " ".to_string(),
            " ".to_string(),
            " ".to_string(),
            " ".to_string(),
            "█".to_string(),
        ],
    );
    add_glyph(
        &mut characters,
        Ghost(solid_font().glyphs),
        ',',
        2,
        5,
        vec![
            "  ".to_string(),
            "  ".to_string(),
            "  ".to_string(),
            " █".to_string(),
            "█ ".to_string(),
        ],
    );
    let f = Font {
        name: "standard_solid".to_string(),
        description: "Standard solid block font without shadows".to_string(),
        height: 5,
        characters,
    };
    proof {
        assert(characters@.dom() =~= solid_font().glyphs.dom());
        assert(f@.glyphs =~= solid_font().glyphs);
    }
    f
}

/// Builds the default font, which is the shadowed face.
fn create_standard_font() -> (f: Font)
    ensures
        f@ == shadow_font(),
{
    create_standard_shadow_font()
}

/// The names under which a built-in font can be requested.
pub open spec fn is_font_name(name: Seq<char>) -> bool {
    name == "standard"@ || name == "standard_shadow"@ || name == "standard_solid"@
}

/// The built-in font registered under `name`: `standard_solid` is the solid face,
/// `standard` and `standard_shadow` the shadowed one.
pub open spec fn builtin_font(name: Seq<char>) -> FontView {
    if name == "standard_solid"@ {
        solid_font()
    } else {
        shadow_font()
    }
}

/// Which built-in face `name` asks for: `Some(true)` the solid one, `Some(false)` the
/// shadowed one, `None` when no font has that name.
fn face_of(name: &str) -> (r: Option<bool>)
    ensures
        r is None <==> !is_font_name(name@),
        r == Some(true) <==> name@ == "standard_solid"@,
{
    let requested = name.to_owned();
    proof {
        reveal_strlit("standard");
        reveal_strlit("standard_shadow");
        reveal_strlit("standard_solid");
        assert("standard"@.len() != "standard_solid"@.len());
        assert("standard_shadow"@.len() != "standard_solid"@.len());
    }
    if requested == "standard".to_owned() || requested == "standard_shadow".to_owned() {
        Some(false)
    } else if requested == "standard_solid".to_owned() {
        Some(true)
    } else {
        None
    }
}

/// Builds the built-in font called `name`.
pub fn get_font(name: &str) -> (r: Result<Font, FontError>)
    ensures
        is_font_name(name@) ==> (r matches Ok(f) && f@ == builtin_font(name@)),
        !is_font_name(name@) ==> (r matches Err(FontError::FontNotFound(n)) && n@ == name@),
{
    match face_of(name) {
        Some(true) => Ok(create_standard_solid_font()),
        Some(false) => Ok(create_standard_font()),
        None => Err(FontError::FontNotFound(name.to_owned())),
    }
}

/// The built-in fonts, built once and then only read.
pub struct FontStore {
    shadow: Font,
    solid: Font,
}

impl FontStore {
    #[verifier::type_invariant]
    spec fn holds_builtin_fonts(&self) -> bool {
        self.shadow@ == shadow_font() && self.solid@ == solid_font()
    }

    /// Builds every built-in font.
    pub fn new() -> (r: FontStore) {
        FontStore { shadow: create_standard_shadow_font(), solid: create_standard_solid_font() }
    }

    /// Looks a built-in font up by name.
    pub fn get_font(&self, name: &str) -> (r: Result<&Font, FontError>)
        ensures
            is_font_name(name@) ==> (r matches Ok(f) && f@ == builtin_font(name@)),
            !is_font_name(name@) ==> (r matches Err(FontError::FontNotFound(n)) && n@
                == name@),
    {
        proof {
            use_type_invariant(self);
        }
        match face_of(name) {
            Some(true) => Ok(&self.solid),
            Some(false) => Ok(&self.shadow),
            None => Err(FontError::FontNotFound(name.to_owned())),
        }
    }
}

/// Every character resolves in a built-in font, through the `?` glyph if need be.
pub proof fn lemma_builtin_supports_all(name: Seq<char>, s: Seq<char>)
    ensures
        builtin_font(name).supports_all(s),
        builtin_font(name).first_unsupported(s) is None,
{
    assert(builtin_font(name).glyphs.contains_key('?' as u32));
    lemma_first_unsupported_none(builtin_font(name), s);
}

} // verus!
