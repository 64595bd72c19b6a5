//! Splitting text into words, and greedy word wrapping by rendered width.

use crate::font::{
    lemma_first_unsupported_concat, lemma_first_unsupported_none, Font, FontError, FontView,
};
use vstd::prelude::*;

verus! {

/// Unicode's `White_Space` characters: tab through carriage return, space, next line,
/// no-break space, ogham space mark, the spaces from en quad to hair space, the line
/// and paragraph separators, narrow no-break space, medium mathematical space and
/// ideographic space.
pub open spec fn is_white_space(c: char) -> bool {
    let x = c as u32;
    ||| 9 <= x <= 13
    ||| x == 0x20
    ||| x == 0x85
    ||| x == 0xA0
    ||| x == 0x1680
    ||| 0x2000 <= x <= 0x200A
    ||| x == 0x2028
    ||| x == 0x2029
    ||| x == 0x202F
    ||| x == 0x205F
    ||| x == 0x3000
}

/// Relies on `char::is_whitespace`: whether `c` has Unicode's `White_Space` property.
#[verifier::external_body]
fn white_space(c: char) -> (r: bool)
    ensures
        r == is_white_space(c),
{
    c.is_whitespace()
}

/// The character sequences held by a vector of character vectors.
pub open spec fn char_rows(v: Seq<Vec<char>>) -> Seq<Seq<char>> {
    v.map_values(|w: Vec<char>| w@)
}

/// Reading the first `n` characters of `s`, where `blank[i]` says whether `s[i]`
/// separates words: the words closed so far, and the word still being read.
pub open spec fn scan_words(s: Seq<char>, blank: Seq<bool>, n: nat) -> (
    Seq<Seq<char>>,
    Seq<char>,
)
    decreases n,
{
    if n == 0 {
        (Seq::empty(), Seq::empty())
    } else {
        let (done, word) = scan_words(s, blank, (n - 1) as nat);
        if blank[n - 1] {
            if word.len() > 0 {
                (done.push(word), Seq::empty())
            } else {
                (done, word)
            }
        } else {
            (done, word.push(s[n - 1]))
        }
    }
}

/// The maximal runs of characters of `s` not marked blank, in order.
pub open spec fn words_by(s: Seq<char>, blank: Seq<bool>) -> Seq<Seq<char>> {
    let (done, word) = scan_words(s, blank, s.len());
    if word.len() > 0 {
        done.push(word)
    } else {
        done
    }
}

/// Marks each white-space character of `s`.
pub open spec fn blank_marks(s: Seq<char>) -> Seq<bool> {
    Seq::new(s.len(), |i: int| is_white_space(s[i]))
}

/// The words of `s`: its maximal runs of characters other than white space.
pub open spec fn words_of(s: Seq<char>) -> Seq<Seq<char>> {
    words_by(s, blank_marks(s))
}

/// Splits `chars` into words, `blank[i]` telling whether `chars[i]` separates words.
/// Runs of separators count as one; leading and trailing ones yield no empty word.
pub fn split_words_with(chars: &Vec<char>, blank: &Vec<bool>) -> (r: Vec<Vec<char>>)
    requires
        chars.len() == blank.len(),
    ensures
        char_rows(r@) == words_by(chars@, blank@),
{
    let mut words: Vec<Vec<char>> = Vec::new();
    let mut word: Vec<char> = Vec::new();
    let mut i: usize = 0;
    while i < chars.len()
        invariant
            i <= chars.len(),
            chars.len() == blank.len(),
            (char_rows(words@), word@) == scan_words(chars@, blank@, i as nat),
        decreases chars.len() - i,
    {
        proof {
            assert(char_rows(words@.push(word)) =~= char_rows(words@).push(word@));
        }
        if blank[i] {
            if word.len() > 0 {
                words.push(word);
                word = Vec::new();
            }
        } else {
            word.push(chars[i]);
        }
        i = i + 1;
    }
    proof {
        assert(char_rows(words@.push(word)) =~= char_rows(words@).push(word@));
    }
    if word.len() > 0 {
        words.push(word);
    }
    words
}

/// Splits `text` into its words: white space separates them and is dropped.
pub fn split_words(text: &str) -> (r: Vec<Vec<char>>)
    ensures
        char_rows(r@) == words_of(text@),
{
    let mut chars: Vec<char> = Vec::new();
    let mut blank: Vec<bool> = Vec::new();
    for c in it: text.chars()
        invariant
            it.seq() == text@,
            chars@ == text@.take(it.index() as int),
            blank@ == blank_marks(text@).take(it.index() as int),
    {
        chars.push(c);
        blank.push(white_space(c));
    }
    proof {
        assert(chars@ =~= text@);
        assert(blank@ =~= blank_marks(text@));
    }
    split_words_with(&chars, &blank)
}

/// Widths are tracked exactly up to this bound, which exceeds every `u32`, and held
/// at it beyond: comparisons against a `u32` limit stay exact.
pub const WIDTH_CAP: u64 = 0x1_0000_0000;

/// `x` held at the width bound.
pub open spec fn capped(x: int) -> int {
    if x < WIDTH_CAP {
        x
    } else {
        WIDTH_CAP as int
    }
}

/// Adds two held widths, holding the sum at the bound.
fn add_capped(a: u64, b: u64) -> (r: u64)
    requires
        a <= WIDTH_CAP,
        b <= WIDTH_CAP,
    ensures
        r == capped(a + b),
{
    if a + b > WIDTH_CAP {
        WIDTH_CAP
    } else {
        a + b
    }
}

proof fn lemma_capped_add(x: int, y: int)
    requires
        x >= 0,
        y >= 0,
    ensures
        capped(capped(x) + capped(y)) == capped(x + y),
{
}

/// Rendered width of `w`: the sum of its glyphs' widths, with no gap between glyphs.
pub open spec fn word_width(font: FontView, w: Seq<char>) -> int
    decreases w.len(),
{
    if w.len() == 0 {
        0
    } else {
        word_width(font, w.drop_last()) + font.glyph_width(w.last())
    }
}

proof fn lemma_word_width_nonneg(font: FontView, w: Seq<char>)
    ensures
        word_width(font, w) >= 0,
    decreases w.len(),
{
    if w.len() > 0 {
        lemma_word_width_nonneg(font, w.drop_last());
    }
}

/// Width of the word `chars` in `font`, held at the width bound.
fn calculate_word_width(chars: &[char], font: &Font) -> (r: Result<u64, FontError>)
    ensures
        match font@.first_unsupported(chars@) {
            None => r matches Ok(w) && w == capped(word_width(font@, chars@)),
            Some(c) => r matches Err(e) && font@.is_unsupported_error(e, c),
        },
{
    let mut width: u64 = 0;
    let mut i: usize = 0;
    while i < chars.len()
        invariant
            i <= chars.len(),
            font@.first_unsupported(chars@.take(i as int)) is None,
            width == capped(word_width(font@, chars@.take(i as int))),
        decreases chars.len() - i,
    {
        proof {
            assert(chars@.take(i + 1).drop_last() =~= chars@.take(i as int));
            lemma_word_width_nonneg(font@, chars@.take(i as int));
        }
        let g = match font.get_character(chars[i]) {
            Ok(g) => g,
            Err(e) => {
                proof {
                    crate::font::lemma_first_unsupported_prefix(
                        font@,
                        chars@.take(i + 1),
                        chars@,
                    );
                }
                return Err(e);
            },
        };
        width = add_capped(width, g.width as u64);
        i = i + 1;
    }
    proof {
        assert(chars@.take(i as int) =~= chars@);
    }
    Ok(width)
}

/// The words of `g` joined by single spaces.
pub open spec fn join_words(g: Seq<Seq<char>>) -> Seq<char>
    decreases g.len(),
{
    if g.len() == 0 {
        Seq::empty()
    } else if g.len() == 1 {
        g[0]
    } else {
        join_words(g.drop_last()) + seq![' '] + g.last()
    }
}

/// Greedy wrapping after the words `words`: the closed lines (each a run of words),
/// the open line, and the open line's width.
pub open spec fn wrap_state(font: FontView, words: Seq<Seq<char>>, max_width: int) -> (
    Seq<Seq<Seq<char>>>,
    Seq<Seq<char>>,
    int,
)
    decreases words.len(),
{
    if words.len() == 0 {
        (Seq::empty(), Seq::empty(), 0)
    } else {
        let (done, line, width) = wrap_state(font, words.drop_last(), max_width);
        let w = words.last();
        let ww = word_width(font, w);
        let sw = font.glyph_width(' ');
        if line.len() == 0 {
            (done, seq![w], ww)
        } else if max_width > 0 && width + sw + ww > max_width {
            (done.push(line), seq![w], ww)
        } else {
            (done, line.push(w), width + sw + ww)
        }
    }
}

/// The runs of words that greedy wrapping puts on each logical line.
pub open spec fn wrap_groups(font: FontView, words: Seq<Seq<char>>, max_width: int) -> Seq<
    Seq<Seq<char>>,
> {
    let (done, line, _width) = wrap_state(font, words, max_width);
    if line.len() > 0 {
        done.push(line)
    } else {
        done
    }
}

/// The logical lines of greedy wrapping: each run of words joined by single spaces.
pub open spec fn wrap_lines(font: FontView, words: Seq<Seq<char>>, max_width: int) -> Seq<
    Seq<char>,
> {
    wrap_groups(font, words, max_width).map_values(|g: Seq<Seq<char>>| join_words(g))
}

proof fn lemma_join_push(g: Seq<Seq<char>>, w: Seq<char>)
    requires
        g.len() > 0,
    ensures
        join_words(g.push(w)) == join_words(g) + seq![' '] + w,
{
    assert(g.push(w).drop_last() =~= g);
}

/// Joining a leading run of words gives a prefix of joining them all.
proof fn lemma_join_prefix(ws: Seq<Seq<char>>, n: int)
    requires
        0 <= n <= ws.len(),
    ensures
        join_words(ws.take(n)).len() <= join_words(ws).len(),
        join_words(ws).subrange(0, join_words(ws.take(n)).len() as int) == join_words(
            ws.take(n),
        ),
    decreases ws.len(),
{
    if n == ws.len() {
        assert(ws.take(n) =~= ws);
    } else {
        let p = ws.drop_last();
        lemma_join_prefix(p, n);
        assert(p.take(n) =~= ws.take(n));
        if ws.len() > 1 {
            assert(join_words(ws) == join_words(p) + seq![' '] + ws.last());
            assert(join_words(ws).subrange(0, join_words(p).len() as int) =~= join_words(p));
        } else {
            assert(ws.take(n) =~= Seq::<Seq<char>>::empty());
        }
        assert(join_words(ws).subrange(0, join_words(ws.take(n)).len() as int)
            =~= join_words(p).subrange(0, join_words(ws.take(n)).len() as int));
    }
}

/// Greedily wraps `words` into logical lines no wider than `max_width` (0: no limit),
/// a word wider than the limit standing alone on its line.
pub fn wrap_words(words: &Vec<Vec<char>>, font: &Font, max_width: u32) -> (r: Result<
    Vec<Vec<char>>,
    FontError,
>)
    ensures
        match font@.first_unsupported(join_words(char_rows(words@))) {
            None => r matches Ok(lines) && char_rows(lines@) == wrap_lines(
                font@,
                char_rows(words@),
                max_width as int,
            ) && forall|i: int| 0 <= i < lines.len() ==> font@.supports_all(#[trigger] lines[i]@),
            Some(c) => r matches Err(e) && font@.is_unsupported_error(e, c),
        },
{
    let ghost ws = char_rows(words@);
    let ghost max = max_width as int;
    let mut lines: Vec<Vec<char>> = Vec::new();
    let mut line: Vec<char> = Vec::new();
    let mut open: bool = false;
    let mut width: u64 = 0;
    let ghost mut done: Seq<Seq<Seq<char>>> = Seq::empty();
    let ghost mut group: Seq<Seq<char>> = Seq::empty();
    let ghost mut exact: int = 0;
    let mut k: usize = 0;
    while k < words.len()
        invariant
            k <= words.len(),
            ws == char_rows(words@),
            max == max_width as int,
            wrap_state(font@, ws.take(k as int), max) == (done, group, exact),
            char_rows(lines@) == done.map_values(|g: Seq<Seq<char>>| join_words(g)),
            line@ == join_words(group),
            open == (group.len() > 0),
            open == (k > 0),
            exact >= 0,
            width == capped(exact),
            font@.first_unsupported(join_words(ws.take(k as int))) is None,
            forall|i: int| 0 <= i < lines.len() ==> font@.supports_all(#[trigger] lines[i]@),
            font@.supports_all(line@),
        decreases words.len() - k,
    {
        let word = &words[k];
        let ghost w = word@;
        let ghost before = join_words(ws.take(k as int));
        proof {
            assert(ws[k as int] == w);
            assert(ws.take(k + 1).drop_last() =~= ws.take(k as int));
            lemma_join_prefix(ws, k + 1);
            if k > 0 {
                lemma_join_push(ws.take(k as int), w);
                assert(ws.take(k + 1) =~= ws.take(k as int).push(w));
            } else {
                assert(join_words(ws.take(k + 1)) == w);
            }
        }
        let mut space: u64 = 0;
        if open {
            match font.get_character(' ') {
                Ok(g) => {
                    space = g.width as u64;
                },
                Err(e) => {
                    proof {
                        assert(seq![' '].drop_last() =~= Seq::<char>::empty());
                        assert(font@.first_unsupported(Seq::<char>::empty()) is None);
                        assert(font@.first_unsupported(seq![' ']) == Some(' '));
                        lemma_first_unsupported_concat(font@, before, seq![' ']);
                        let upto = join_words(ws.take(k + 1));
                        assert(upto == before + seq![' '] + w);
                        assert(upto.subrange(0, before.len() as int + 1) =~= before + seq![' ']);
                        assert(join_words(ws).subrange(0, before.len() as int + 1)
                            =~= join_words(ws).subrange(0, upto.len() as int).subrange(
                            0,
                            before.len() as int + 1,
                        ));
                        crate::font::lemma_first_unsupported_prefix(
                            font@,
                            before + seq![' '],
                            join_words(ws),
                        );
                    }
                    return Err(e);
                },
            }
        }
        let ww: u64 = match calculate_word_width(word.as_slice(), font) {
            Ok(ww) => ww,
            Err(e) => {
                proof {
                    if k > 0 {
                        assert(seq![' '].drop_last() =~= Seq::<char>::empty());
                        assert(font@.first_unsupported(Seq::<char>::empty()) is None);
                        assert(font@.first_unsupported(seq![' ']) is None);
                        lemma_first_unsupported_concat(font@, before, seq![' ']);
                        lemma_first_unsupported_concat(font@, before + seq![' '], w);
                    }
                    crate::font::lemma_first_unsupported_prefix(
                        font@,
                        join_words(ws.take(k + 1)),
                        join_words(ws),
                    );
                }
                return Err(e);
            },
        };
        proof {
            if k > 0 {
                assert(seq![' '].drop_last() =~= Seq::<char>::empty());
                assert(font@.first_unsupported(Seq::<char>::empty()) is None);
                assert(font@.first_unsupported(seq![' ']) is None);
                lemma_first_unsupported_concat(font@, before, seq![' ']);
                lemma_first_unsupported_concat(font@, before + seq![' '], w);
            }
            lemma_word_width_nonneg(font@, w);
            lemma_first_unsupported_none(font@, w);
            lemma_capped_add(exact, font@.glyph_width(' '));
            lemma_capped_add(exact + font@.glyph_width(' '), word_width(font@, w));
            lemma_capped_add(exact, word_width(font@, w));
        }
        if open && max_width > 0 && add_capped(add_capped(width, space), ww) > max_width as u64 {
            proof {
                assert(char_rows(lines@.push(line)) =~= char_rows(lines@).push(line@));
                assert(done.push(group).map_values(|g: Seq<Seq<char>>| join_words(g))
                    =~= done.map_values(|g: Seq<Seq<char>>| join_words(g)).push(
                    join_words(group),
                ));
                done = done.push(group);
                group = Seq::empty();
                exact = 0;
            }
            lines.push(line);
            line = Vec::new();
            open = false;
            width = 0;
        }
        let ghost mid = line@;
        if open {
            line.push(' ');
            width = add_capped(width, space);
        }
        let ghost start = line@;
        let mut j: usize = 0;
        while j < word.len()
            invariant
                j <= word.len(),
                w == word@,
                line@ == start + w.take(j as int),
                font@.supports_all(start),
                font@.supports_all(w),
            decreases word.len() - j,
        {
            line.push(word[j]);
            j = j + 1;
            proof {
                assert(line@ =~= start + w.take(j as int));
            }
        }
        width = add_capped(width, ww);
        proof {
            assert(w.take(j as int) =~= w);
            if group.len() > 0 {
                lemma_join_push(group, w);
                exact = exact + font@.glyph_width(' ') + word_width(font@, w);
                group = group.push(w);
            } else {
                assert(join_words(seq![w]) == w);
                exact = word_width(font@, w);
                group = seq![w];
            }
            assert(font@.supports_all(line@)) by {
                assert forall|i: int| 0 <= i < line@.len() implies #[trigger] font@.supports(
                    line@[i],
                ) by {
                    if i >= start.len() {
                        assert(line@[i] == w[i - start.len()]);
                    } else {
                        assert(line@[i] == start[i]);
                        if i >= mid.len() {
                            assert(start[i] == ' ');
                        } else {
                            assert(start[i] == mid[i]);
                        }
                    }
                }
            }
        }
        open = true;
        k = k + 1;
    }
    proof {
        assert(ws.take(k as int) =~= ws);
        assert(char_rows(lines@.push(line)) =~= char_rows(lines@).push(line@));
        assert(done.push(group).map_values(|g: Seq<Seq<char>>| join_words(g))
            =~= done.map_values(|g: Seq<Seq<char>>| join_words(g)).push(join_words(group)));
    }
    if open {
        lines.push(line);
    }
    Ok(lines)
}

/// Wraps the words of `text` into logical lines no wider than `max_width` (0: no
/// limit); a word wider than the limit stands alone on its line.
pub fn wrap_text(text: &str, font: &Font, max_width: u32) -> (r: Result<
    Vec<Vec<char>>,
    FontError,
>)
    ensures
        match font@.first_unsupported(join_words(words_of(text@))) {
            None => r matches Ok(lines) && char_rows(lines@) == wrap_lines(
                font@,
                words_of(text@),
                max_width as int,
            ) && forall|i: int| 0 <= i < lines.len() ==> font@.supports_all(#[trigger] lines[i]@),
            Some(c) => r matches Err(e) && font@.is_unsupported_error(e, c),
        },
{
    let words = split_words(text);
    wrap_words(&words, font, max_width)
}

proof fn lemma_wrap_state_runs(font: FontView, words: Seq<Seq<char>>, max_width: int)
    ensures
        wrap_state(font, words, max_width).0.flatten() + wrap_state(font, words, max_width).1
            == words,
        forall|i: int|
            0 <= i < wrap_state(font, words, max_width).0.len() ==> #[trigger] wrap_state(
                font,
                words,
                max_width,
            ).0[i].len() > 0,
        words.len() > 0 ==> wrap_state(font, words, max_width).1.len() > 0,
    decreases words.len(),
{
    if words.len() > 0 {
        let p = words.drop_last();
        lemma_wrap_state_runs(font, p, max_width);
        let (done, line, width) = wrap_state(font, p, max_width);
        let w = words.last();
        assert(p.push(w) =~= words);
        if line.len() == 0 {
            assert(done.flatten() =~= p);
            assert(done.flatten() + seq![w] =~= words);
        } else if max_width > 0 && width + font.glyph_width(' ') + word_width(font, w)
            > max_width {
            done.lemma_flatten_push(line);
            assert(done.push(line).flatten() + seq![w] =~= words);
        } else {
            assert(done.flatten() + line.push(w) =~= (done.flatten() + line).push(w));
        }
    }
}

/// Wrapping never breaks a word: each logical line is a non-empty run of whole words of
/// the text joined by single spaces, and the runs, read in order, give back its words.
pub proof fn lemma_wrap_keeps_words(text: Seq<char>, font: FontView, max_width: u32)
    ensures
        wrap_groups(font, words_of(text), max_width as int).flatten() == words_of(text),
        forall|i: int|
            0 <= i < wrap_groups(font, words_of(text), max_width as int).len()
                ==> #[trigger] wrap_groups(font, words_of(text), max_width as int)[i].len() > 0,
        wrap_lines(font, words_of(text), max_width as int) == wrap_groups(
            font,
            words_of(text),
            max_width as int,
        ).map_values(|g: Seq<Seq<char>>| join_words(g)),
{
    let words = words_of(text);
    let max = max_width as int;
    lemma_wrap_state_runs(font, words, max);
    let (done, line, _width) = wrap_state(font, words, max);
    if line.len() > 0 {
        done.lemma_flatten_push(line);
    } else {
        assert(done.flatten() + line =~= done.flatten());
    }
}

proof fn lemma_unlimited_state(font: FontView, words: Seq<Seq<char>>)
    ensures
        wrap_state(font, words, 0).0.len() == 0,
        words.len() > 0 ==> wrap_state(font, words, 0).1.len() > 0,
    decreases words.len(),
{
    if words.len() > 0 {
        lemma_unlimited_state(font, words.drop_last());
    }
}

proof fn lemma_scan_keeps_word(s: Seq<char>, blank: Seq<bool>, i: int, n: nat)
    requires
        0 <= i < n <= s.len(),
        s.len() == blank.len(),
        !blank[i],
    ensures
        scan_words(s, blank, n).0.len() > 0 || scan_words(s, blank, n).1.len() > 0,
    decreases n,
{
    if n > i + 1 {
        lemma_scan_keeps_word(s, blank, i, (n - 1) as nat);
    }
}

/// Without a width limit, text holding anything but white space wraps to exactly one
/// logical line.
pub proof fn lemma_unlimited_one_line(text: Seq<char>, font: FontView)
    requires
        exists|i: int| 0 <= i < text.len() && !is_white_space(#[trigger] text[i]),
    ensures
        wrap_lines(font, words_of(text), 0).len() == 1,
{
    let i = choose|i: int| 0 <= i < text.len() && !is_white_space(#[trigger] text[i]);
    lemma_scan_keeps_word(text, blank_marks(text), i, text.len());
    lemma_unlimited_state(font, words_of(text));
}

} // verus!
