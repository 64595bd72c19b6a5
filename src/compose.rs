//! Composing a logical line into rows of glyph bitmaps.

use crate::font::{
    lemma_first_unsupported_prefix, Font, FontCharacter, FontError, FontView, GlyphView,
};
use vstd::prelude::*;

verus! {

/// The character sequences held by a vector of strings.
pub open spec fn string_rows(v: Seq<String>) -> Seq<Seq<char>> {
    v.map_values(|s: String| s@)
}

/// Rows produced when `requested` rows are asked of `font`: never more than its height.
pub open spec fn render_height(font: FontView, requested: u32) -> nat {
    if requested < font.height {
        requested as nat
    } else {
        font.height as nat
    }
}

/// Row `r` of glyph `g`, or blank padding of its width where the glyph has no such row.
pub open spec fn glyph_row(g: GlyphView, r: int) -> Seq<char> {
    if r < g.rows.len() {
        g.rows[r]
    } else {
        Seq::new(g.width as nat, |_i: int| ' ')
    }
}

/// Row `r` of `line`: the rows of its characters' glyphs side by side, with no gap.
pub open spec fn line_row(font: FontView, line: Seq<char>, r: int) -> Seq<char>
    decreases line.len(),
{
    if line.len() == 0 {
        Seq::empty()
    } else {
        line_row(font, line.drop_last(), r) + glyph_row(font.glyph_of(line.last())->0, r)
    }
}

/// The rows that compose `line` when `requested` rows are asked for.
pub open spec fn compose_rows(font: FontView, line: Seq<char>, requested: u32) -> Seq<Seq<char>> {
    Seq::new(render_height(font, requested), |r: int| line_row(font, line, r))
}

/// `r` is what composing `line` yields: its rows, or the error naming its first
/// unsupported character.
pub open spec fn composed(
    font: FontView,
    line: Seq<char>,
    requested: u32,
    r: Result<Vec<String>, FontError>,
) -> bool {
    match font.first_unsupported(line) {
        None => r matches Ok(rows) && string_rows(rows@) == compose_rows(font, line, requested),
        Some(c) => r matches Err(e) && font.is_unsupported_error(e, c),
    }
}

/// Composes the logical line `chars` into `min(target_height, font.height)` rows, each
/// the glyph rows of its characters side by side.
pub fn render_character_line(chars: &[char], font: &Font, target_height: u32) -> (r: Result<
    Vec<String>,
    FontError,
>)
    ensures
        composed(font@, chars@, target_height, r),
        r matches Ok(rows) ==> rows.len() == render_height(font@, target_height),
{
    let mut glyphs: Vec<&FontCharacter> = Vec::new();
    let mut i: usize = 0;
    while i < chars.len()
        invariant
            i <= chars.len(),
            glyphs.len() == i,
            font@.first_unsupported(chars@.take(i as int)) is None,
            forall|k: int| 0 <= k < i ==> Some(#[trigger] glyphs@[k]@) == font@.glyph_of(chars@[k]),
        decreases chars.len() - i,
    {
        proof {
            assert(chars@.take(i + 1).drop_last() =~= chars@.take(i as int));
        }
        match font.get_character(chars[i]) {
            Ok(g) => {
                glyphs.push(g);
            },
            Err(e) => {
                proof {
                    lemma_first_unsupported_prefix(font@, chars@.take(i + 1), chars@);
                }
                return Err(e);
            },
        }
        i = i + 1;
    }
    proof {
        assert(chars@.take(i as int) =~= chars@);
    }
    let height: usize = if target_height < font.height {
        target_height as usize
    } else {
        font.height as usize
    };
    let mut rows: Vec<String> = Vec::new();
    let mut r: usize = 0;
    while r < height
        invariant
            r <= height,
            height == render_height(font@, target_height),
            glyphs.len() == chars.len(),
            forall|k: int|
                0 <= k < chars.len() ==> Some(#[trigger] glyphs@[k]@) == font@.glyph_of(
                    chars@[k],
                ),
            rows.len() == r,
            forall|q: int| 0 <= q < r ==> #[trigger] rows@[q]@ == line_row(font@, chars@, q),
        decreases height - r,
    {
        let mut row = String::new();
        let mut k: usize = 0;
        while k < glyphs.len()
            invariant
                k <= glyphs.len(),
                glyphs.len() == chars.len(),
                forall|k: int|
                    0 <= k < chars.len() ==> Some(#[trigger] glyphs@[k]@) == font@.glyph_of(
                        chars@[k],
                    ),
                row@ == line_row(font@, chars@.take(k as int), r as int),
            decreases glyphs.len() - k,
        {
            let g = glyphs[k];
            let ghost before = row@;
            if r < g.data.len() {
                row.append(g.data[r].as_str());
            } else {
                let mut p: u32 = 0;
                while p < g.width
                    invariant
                        p <= g.width,
                        row@ == before + Seq::new(p as nat, |_i: int| ' '),
                    decreases g.width - p,
                {
                    proof {
                        reveal_strlit(" ");
                    }
                    row.append(" ");
                    p = p + 1;
                    proof {
                        assert(row@ =~= before + Seq::new(p as nat, |_i: int| ' '));
                    }
                }
            }
            proof {
                assert(chars@.take(k + 1).drop_last() =~= chars@.take(k as int));
                assert(row@ =~= before + glyph_row(g@, r as int));
            }
            k = k + 1;
        }
        proof {
            assert(chars@.take(k as int) =~= chars@);
        }
        rows.push(row);
        r = r + 1;
    }
    proof {
        assert(string_rows(rows@) =~= compose_rows(font@, chars@, target_height));
    }
    Ok(rows)
}

/// Composing is repeatable: two results of composing the same line with the same font
/// and the same requested height agree, row for row.
pub proof fn lemma_compose_repeatable(
    font: FontView,
    line: Seq<char>,
    requested: u32,
    a: Result<Vec<String>, FontError>,
    b: Result<Vec<String>, FontError>,
)
    requires
        composed(font, line, requested, a),
        composed(font, line, requested, b),
    ensures
        a is Ok <==> b is Ok,
        a is Ok ==> string_rows(a->Ok_0@) == string_rows(b->Ok_0@),
{
}

} // verus!
