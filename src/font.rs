//! Glyphs, fonts, and character resolution with normalisation and fallback.

use std::collections::HashMap;
use vstd::prelude::*;

verus! {

/// Why a font or glyph lookup failed.
#[derive(Debug, Clone)]
pub enum FontError {
    /// No font of this name exists.
    FontNotFound(String),
    /// Neither the character (upper-cased) nor the `?` fallback is in the named font.
    CharacterNotSupported(char, String),
}

/// One character's bitmap: its advance width, nominal height and text rows.
#[derive(Debug, Clone)]
pub struct FontCharacter {
    pub width: u32,
    pub height: u32,
    pub data: Vec<String>,
}

/// A named table of glyphs, keyed by the Unicode scalar value of the character.
#[derive(Debug, Clone)]
pub struct Font {
    pub name: String,
    pub description: String,
    pub height: u32,
    pub characters: HashMap<u32, FontCharacter>,
}

/// What a glyph holds: advance width, nominal height and the text of its rows.
pub struct GlyphView {
    pub width: u32,
    pub height: u32,
    pub rows: Seq<Seq<char>>,
}

impl View for FontCharacter {
    type V = GlyphView;

    open spec fn view(&self) -> GlyphView {
        GlyphView {
            width: self.width,
            height: self.height,
            rows: self.data@.map_values(|s: String| s@),
        }
    }
}

/// What a font holds for rendering: its name, nominal height and glyphs by code.
pub struct FontView {
    pub name: Seq<char>,
    pub height: u32,
    pub glyphs: Map<u32, GlyphView>,
}

impl View for Font {
    type V = FontView;

    open spec fn view(&self) -> FontView {
        FontView {
            name: self.name@,
            height: self.height,
            glyphs: self.characters@.map_values(|g: FontCharacter| g@),
        }
    }
}

/// The character that stands in for any character a font lacks.
pub const FALLBACK: char = '?';

/// Code of the ASCII upper-case form of `c`; any other character keeps its code.
pub open spec fn upper_code(c: char) -> u32 {
    let x = c as u32;
    if 97 <= x <= 122 {
        (x - 32) as u32
    } else {
        x
    }
}

/// Relies on `char::to_ascii_uppercase`: `a`..`z` map to `A`..`Z`, all else is unchanged.
#[verifier::external_body]
fn ascii_upper(c: char) -> (r: char)
    ensures
        r as u32 == upper_code(c),
{
    c.to_ascii_uppercase()
}

impl FontView {
    /// The glyph that `c` resolves to: its upper-case form, else the fallback glyph.
    pub open spec fn glyph_of(&self, c: char) -> Option<GlyphView> {
        if self.glyphs.contains_key(upper_code(c)) {
            Some(self.glyphs[upper_code(c)])
        } else if self.glyphs.contains_key(FALLBACK as u32) {
            Some(self.glyphs[FALLBACK as u32])
        } else {
            None
        }
    }

    /// Whether `c` resolves to some glyph, directly or through the fallback.
    pub open spec fn supports(&self, c: char) -> bool {
        self.glyph_of(c) is Some
    }

    /// Advance width of the glyph `c` resolves to.
    pub open spec fn glyph_width(&self, c: char) -> int {
        match self.glyph_of(c) {
            Some(g) => g.width as int,
            None => 0,
        }
    }

    /// Every character of `s` resolves to a glyph.
    pub open spec fn supports_all(&self, s: Seq<char>) -> bool {
        forall|i: int| 0 <= i < s.len() ==> #[trigger] self.supports(s[i])
    }

    /// The first character of `s` that resolves to no glyph, if any.
    pub open spec fn first_unsupported(&self, s: Seq<char>) -> Option<char>
        decreases s.len(),
    {
        if s.len() == 0 {
            None
        } else {
            match self.first_unsupported(s.drop_last()) {
                Some(c) => Some(c),
                None => if self.supports(s.last()) {
                    None
                } else {
                    Some(s.last())
                },
            }
        }
    }

    /// `e` reports that `c` (upper-cased) is missing from this font.
    pub open spec fn is_unsupported_error(&self, e: FontError, c: char) -> bool {
        e matches FontError::CharacterNotSupported(u, n) && u as u32 == upper_code(c) && n@
            == self.name
    }
}

impl Font {
    /// Resolves `ch` to its glyph, falling back to `?` for characters the font lacks.
    pub fn get_character(&self, ch: char) -> (r: Result<&FontCharacter, FontError>)
        ensures
            self@.supports(ch) ==> (r matches Ok(g) && Some(g@) == self@.glyph_of(ch)),
            !self@.supports(ch) ==> (r matches Err(FontError::CharacterNotSupported(u, n))
                && u as u32 == upper_code(ch) && n@ == self.name@),
    {
        let ch = ascii_upper(ch);
        match self.characters.get(&(ch as u32)) {
            Some(g) => Ok(g),
            None => match self.characters.get(&(FALLBACK as u32)) {
                Some(g) => Ok(g),
                None => Err(FontError::CharacterNotSupported(ch, self.name.clone())),
            },
        }
    }
}

/// A sequence has no unsupported character exactly when all of it is supported.
pub proof fn lemma_first_unsupported_none(font: FontView, s: Seq<char>)
    ensures
        font.first_unsupported(s) is None <==> font.supports_all(s),
    decreases s.len(),
{
    if s.len() > 0 {
        lemma_first_unsupported_none(font, s.drop_last());
        if font.supports_all(s) {
            assert(font.supports_all(s.drop_last())) by {
                assert forall|i: int| 0 <= i < s.len() - 1 implies #[trigger] font.supports(
                    s.drop_last()[i],
                ) by {
                    assert(s.drop_last()[i] == s[i]);
                }
            }
            assert(font.supports(s[s.len() - 1]));
        }
        if font.first_unsupported(s) is None {
            assert forall|i: int| 0 <= i < s.len() implies #[trigger] font.supports(s[i]) by {
                if i < s.len() - 1 {
                    assert(s.drop_last()[i] == s[i]);
                }
            }
        }
    }
}

/// The first unsupported character of `a + b` is that of `a`, or else that of `b`.
pub proof fn lemma_first_unsupported_concat(font: FontView, a: Seq<char>, b: Seq<char>)
    ensures
        font.first_unsupported(a + b) == match font.first_unsupported(a) {
            Some(c) => Some(c),
            None => font.first_unsupported(b),
        },
    decreases b.len(),
{
    if b.len() == 0 {
        assert(a + b =~= a);
    } else {
        lemma_first_unsupported_concat(font, a, b.drop_last());
        assert((a + b).drop_last() =~= a + b.drop_last());
    }
}

/// Once a prefix holds an unsupported character, every extension reports that same one.
pub proof fn lemma_first_unsupported_prefix(font: FontView, a: Seq<char>, b: Seq<char>)
    requires
        font.first_unsupported(a) is Some,
        a.len() <= b.len(),
        b.subrange(0, a.len() as int) == a,
    ensures
        font.first_unsupported(b) == font.first_unsupported(a),
{
    lemma_first_unsupported_concat(font, a, b.subrange(a.len() as int, b.len() as int));
    assert(a + b.subrange(a.len() as int, b.len() as int) =~= b);
}

} // verus!
