//! Rendering text as block art: font lookup, wrapping, composition and layout.

use crate::compose::{compose_rows, render_character_line, string_rows};
use crate::font::{lemma_first_unsupported_none, Font, FontError, FontView};
use crate::store::{builtin_font, get_font, is_font_name, lemma_builtin_supports_all, FontStore};
use crate::wrap::{char_rows, join_words, words_of, wrap_lines, wrap_text};
use vstd::prelude::*;

verus! {

/// Options of one rendering call.
#[derive(Debug, Clone)]
pub struct RenderOptions {
    pub font_name: String,
    /// Widest a logical line may be, in glyph width units; 0 means no limit.
    pub max_width: u32,
    /// Rows asked for; a font never yields more than its own height.
    pub height: u32,
    /// Reserved: glyph bitmaps carry their own spacing, so this adds nothing.
    pub spacing: u32,
}

impl Default for RenderOptions {
    fn default() -> (r: Self)
        ensures
            r.font_name@ == "standard"@,
            r.max_width == 0,
            r.height == 5,
            r.spacing == 1,
    {
        RenderOptions { font_name: "standard".to_owned(), max_width: 0, height: 5, spacing: 1 }
    }
}

/// The rows of a block, each ended by a line break.
pub open spec fn block_text(rows: Seq<Seq<char>>) -> Seq<char>
    decreases rows.len(),
{
    if rows.len() == 0 {
        Seq::empty()
    } else {
        block_text(rows.drop_last()) + rows.last() + seq!['\n']
    }
}

/// The blocks one after another, with a blank line between consecutive blocks.
pub open spec fn stack_blocks(blocks: Seq<Seq<Seq<char>>>) -> Seq<char>
    decreases blocks.len(),
{
    if blocks.len() == 0 {
        Seq::empty()
    } else if blocks.len() == 1 {
        block_text(blocks[0])
    } else {
        stack_blocks(blocks.drop_last()) + seq!['\n'] + block_text(blocks.last())
    }
}

/// `s` without its final line break, if it ends with one.
pub open spec fn trim_final_break(s: Seq<char>) -> Seq<char> {
    if s.len() > 0 && s.last() == '\n' {
        s.drop_last()
    } else {
        s
    }
}

/// The composed blocks of the logical lines `lines`.
pub open spec fn line_blocks(font: FontView, lines: Seq<Seq<char>>, height: u32) -> Seq<
    Seq<Seq<char>>,
> {
    lines.map_values(|l: Seq<char>| compose_rows(font, l, height))
}

/// The block art of the logical lines `lines`.
pub open spec fn layout(font: FontView, lines: Seq<Seq<char>>, height: u32) -> Seq<char> {
    trim_final_break(stack_blocks(line_blocks(font, lines, height)))
}

/// `r` is what rendering `text` in `font` yields: the layout of its wrapped lines, or
/// the error naming the first character that resolves to no glyph.
pub open spec fn rendered(
    font: FontView,
    text: Seq<char>,
    max_width: u32,
    height: u32,
    r: Result<String, FontError>,
) -> bool {
    let words = words_of(text);
    match font.first_unsupported(join_words(words)) {
        None => r matches Ok(s) && s@ == layout(
            font,
            wrap_lines(font, words, max_width as int),
            height,
        ),
        Some(c) => r matches Err(e) && font.is_unsupported_error(e, c),
    }
}

/// `r` is what rendering `text` in the built-in font called `name` yields; an unknown
/// name yields `FontNotFound`.
pub open spec fn rendered_builtin(
    name: Seq<char>,
    text: Seq<char>,
    max_width: u32,
    height: u32,
    r: Result<String, FontError>,
) -> bool {
    if is_font_name(name) {
        &&& r is Ok
        &&& rendered(builtin_font(name), text, max_width, height, r)
    } else {
        r matches Err(FontError::FontNotFound(n)) && n@ == name
    }
}

/// Renders `text` in `font`: wraps its words to `max_width` (0: no limit), composes each
/// logical line at `height` rows, and stacks the blocks with a blank line between them.
pub fn render_with_font(text: &str, font: &Font, max_width: u32, height: u32) -> (r: Result<
    String,
    FontError,
>)
    ensures
        rendered(font@, text@, max_width, height, r),
{
    let lines = match wrap_text(text, font, max_width) {
        Ok(lines) => lines,
        Err(e) => return Err(e),
    };
    let ghost blocks = line_blocks(font@, char_rows(lines@), height);
    let mut out = String::new();
    let mut i: usize = 0;
    while i < lines.len()
        invariant
            i <= lines.len(),
            blocks == line_blocks(font@, char_rows(lines@), height),
            forall|k: int| 0 <= k < lines.len() ==> font@.supports_all(#[trigger] lines[k]@),
            out@ == stack_blocks(blocks.take(i as int)),
        decreases lines.len() - i,
    {
        proof {
            lemma_first_unsupported_none(font@, lines[i as int]@);
        }
        let rows = match render_character_line(lines[i].as_slice(), font, height) {
            Ok(rows) => rows,
            Err(e) => return Err(e),
        };
        proof {
            reveal_strlit("\n");
            assert(blocks.take(i + 1).drop_last() =~= blocks.take(i as int));
            assert(string_rows(rows@) == blocks[i as int]);
        }
        if i > 0 {
            out.append("\n");
        }
        let ghost base = out@;
        let mut q: usize = 0;
        while q < rows.len()
            invariant
                q <= rows.len(),
                out@ == base + block_text(string_rows(rows@).take(q as int)),
            decreases rows.len() - q,
        {
            proof {
                reveal_strlit("\n");
                assert(string_rows(rows@).take(q + 1).drop_last() =~= string_rows(rows@).take(
                    q as int,
                ));
            }
            out.append(rows[q].as_str());
            out.append("\n");
            q = q + 1;
        }
        proof {
            assert(string_rows(rows@).take(q as int) =~= string_rows(rows@));
        }
        i = i + 1;
    }
    proof {
        assert(blocks.take(i as int) =~= blocks);
    }
    let n: usize = out.as_str().unicode_len();
    if n > 0 && out.as_str().get_char(n - 1) == '\n' {
        Ok(out.as_str().substring_char(0, n - 1).to_owned())
    } else {
        Ok(out)
    }
}

/// Rendering empty text yields empty output, whatever the font, width and height.
pub proof fn lemma_render_empty(
    font: FontView,
    max_width: u32,
    height: u32,
    r: Result<String, FontError>,
)
    ensures
        rendered(font, Seq::empty(), max_width, height, r) <==> (r matches Ok(s) && s@
            == Seq::<char>::empty()),
{
    let words = words_of(Seq::empty());
    assert(words =~= Seq::<Seq<char>>::empty());
    assert(join_words(words) =~= Seq::<char>::empty());
    assert(wrap_lines(font, words, max_width as int) =~= Seq::<Seq<char>>::empty());
    assert(line_blocks(font, Seq::empty(), height) =~= Seq::<Seq<Seq<char>>>::empty());
}

/// Renders `text` with the options given, looking the font up among the built-in ones.
fn render_text_with_options_internal(text: &str, options: &RenderOptions) -> (r: Result<
    String,
    FontError,
>)
    ensures
        rendered_builtin(options.font_name@, text@, options.max_width, options.height, r),
{
    let font = match get_font(options.font_name.as_str()) {
        Ok(font) => font,
        Err(e) => return Err(e),
    };
    proof {
        lemma_builtin_supports_all(options.font_name@, join_words(words_of(text@)));
    }
    if text.is_empty() {
        let r = Ok(String::new());
        proof {
            assert(text@ =~= Seq::<char>::empty());
            lemma_render_empty(font@, options.max_width, options.height, r);
        }
        return r;
    }
    render_with_font(text, &font, options.max_width, options.height)
}

/// Renders `text` in the built-in font called `font_name`, wrapped to `max_width`
/// (0: no limit) and `height` rows tall at most.
pub fn render_text(text: &str, font_name: &str, max_width: u32, height: u32) -> (r: Result<
    String,
    FontError,
>)
    ensures
        rendered_builtin(font_name@, text@, max_width, height, r),
        is_font_name(font_name@) && text@.len() == 0 ==> (r matches Ok(s) && s@.len() == 0),
{
    let options = RenderOptions {
        font_name: font_name.to_owned(),
        max_width,
        height,
        spacing: 1,
    };
    let r = render_text_with_options_internal(text, &options);
    proof {
        if is_font_name(font_name@) && text@.len() == 0 {
            assert(text@ =~= Seq::<char>::empty());
            lemma_render_empty(builtin_font(font_name@), max_width, height, r);
        }
    }
    r
}

/// The built-in font a shadow toggle selects: the shadowed face or the solid one.
pub open spec fn shadow_font_name(enable_shadow: bool) -> Seq<char> {
    if enable_shadow {
        "standard_shadow"@
    } else {
        "standard_solid"@
    }
}

/// Renders `text` in the shadowed font or else in the solid one, at `height` rows at
/// most; the font name argument is not consulted.
pub fn render_text_with_shadow(
    text: &str,
    _font_name: &str,
    max_width: u32,
    height: u32,
    enable_shadow: bool,
) -> (r: Result<String, FontError>)
    ensures
        rendered_builtin(
            shadow_font_name(enable_shadow),
            text@,
            max_width,
            height,
            r,
        ),
        r is Ok,
{
    let font_name = if enable_shadow {
        "standard_shadow"
    } else {
        "standard_solid"
    };
    let options = RenderOptions {
        font_name: font_name.to_owned(),
        max_width,
        height,
        spacing: 1,
    };
    render_text_with_options_internal(text, &options)
}

/// Renders `text` in the shadowed font at 7 rows, or the solid font at 5; the font
/// name, the requested height and the case flag are not consulted.
pub fn render_text_with_options(
    text: &str,
    _font_name: &str,
    max_width: u32,
    height: u32,
    enable_shadow: bool,
    _lowercase: bool,
) -> (r: Result<String, FontError>)
    ensures
        rendered_builtin(
            shadow_font_name(enable_shadow),
            text@,
            max_width,
            if enable_shadow {
                7
            } else {
                5
            },
            r,
        ),
        r is Ok,
{
    let font_name = if enable_shadow {
        "standard_shadow"
    } else {
        "standard_solid"
    };
    let options = RenderOptions {
        font_name: font_name.to_owned(),
        max_width,
        height: if enable_shadow {
            7
        } else {
            5
        },
        spacing: 1,
    };
    render_text_with_options_internal(text, &options)
}

/// The rows of a glyph joined by line breaks.
pub open spec fn join_rows(rows: Seq<Seq<char>>) -> Seq<char>
    decreases rows.len(),
{
    if rows.len() == 0 {
        Seq::empty()
    } else if rows.len() == 1 {
        rows[0]
    } else {
        join_rows(rows.drop_last()) + seq!['\n'] + rows.last()
    }
}

/// Renders the single character `ch` in the built-in font called `font_name`: its
/// glyph's rows joined by line breaks, with no wrapping and no height limit.
pub fn render_character(ch: char, font_name: &str) -> (r: Result<String, FontError>)
    ensures
        is_font_name(font_name@) ==> (r matches Ok(s) && s@ == join_rows(
            builtin_font(font_name@).glyph_of(ch)->0.rows,
        )),
        !is_font_name(font_name@) ==> (r matches Err(FontError::FontNotFound(n)) && n@
            == font_name@),
{
    let font = match get_font(font_name) {
        Ok(font) => font,
        Err(e) => return Err(e),
    };
    proof {
        lemma_builtin_supports_all(font_name@, seq![ch]);
        assert(font@.supports(seq![ch][0]));
    }
    let glyph = match font.get_character(ch) {
        Ok(glyph) => glyph,
        Err(e) => return Err(e),
    };
    let ghost rows = string_rows(glyph.data@);
    let mut out = String::new();
    let mut i: usize = 0;
    while i < glyph.data.len()
        invariant
            i <= glyph.data.len(),
            rows == string_rows(glyph.data@),
            out@ == join_rows(rows.take(i as int)),
        decreases glyph.data.len() - i,
    {
        proof {
            reveal_strlit("\n");
            assert(rows.take(i + 1).drop_last() =~= rows.take(i as int));
        }
        if i > 0 {
            out.append("\n");
        }
        out.append(glyph.data[i].as_str());
        i = i + 1;
    }
    proof {
        assert(rows.take(i as int) =~= rows);
    }
    Ok(out)
}

impl FontStore {
    /// Renders `text` in the stored font called `font_name`, wrapped to `max_width`
    /// (0: no limit) and `height` rows tall at most.
    pub fn render_text(&self, text: &str, font_name: &str, max_width: u32, height: u32) -> (r:
        Result<String, FontError>)
        ensures
            rendered_builtin(font_name@, text@, max_width, height, r),
    {
        let font = match self.get_font(font_name) {
            Ok(font) => font,
            Err(e) => return Err(e),
        };
        proof {
            lemma_builtin_supports_all(font_name@, join_words(words_of(text@)));
        }
        render_with_font(text, font, max_width, height)
    }
}

} // verus!
