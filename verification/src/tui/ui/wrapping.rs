//! Word wrapping.

use crate::text;
use vstd::prelude::*;

verus! {

/// How many bytes a text takes. It counts a multi-byte glyph as more than one column, so a row
/// that fits by this measure fits by the terminal's too.
pub open spec fn byte_len(s: Seq<char>) -> nat {
    vstd::utf8::encode_utf8(s).len()
}

/// Whether another word still fits on a row that has begun.
pub open spec fn fits(row: Seq<char>, word: Seq<char>, width: usize) -> bool {
    byte_len(row) + 1 + byte_len(word) <= width
}

/// The rows that words fill, from a row that has begun: each word goes on the row while it
/// fits, and starts the next one otherwise.
pub open spec fn filled_rows(row: Seq<char>, words: Seq<Seq<char>>, width: usize) -> Seq<Seq<char>>
    decreases words.len(),
{
    if words.len() == 0 {
        if row.len() == 0 {
            Seq::empty()
        } else {
            seq![row]
        }
    } else if row.len() == 0 {
        filled_rows(words[0], words.skip(1), width)
    } else if fits(row, words[0], width) {
        filled_rows(row.push(' ') + words[0], words.skip(1), width)
    } else {
        seq![row] + filled_rows(words[0], words.skip(1), width)
    }
}

/// A text wrapped to rows no wider than `width`, but for a single word that is wider.
pub open spec fn wrapped(s: Seq<char>, width: usize) -> Seq<Seq<char>> {
    filled_rows(Seq::empty(), text::words_of(s), width)
}

/// Word-wraps `s` to rows no wider than `width`, by byte length, which over-counts multi-byte
/// glyphs and so only wraps early.
pub fn wrap_words(s: &str, width: usize) -> (r: Vec<String>)
    ensures
        text::views(r@) == wrapped(s@, width),
{
    let words = text::words(s);
    let ghost all = text::views(words@);
    let mut rows: Vec<String> = Vec::new();
    let mut row = String::new();
    let mut i: usize = 0;
    proof {
        assert(all.skip(0) =~= all);
        assert(text::views(rows@) + filled_rows(row@, all, width) =~= filled_rows(row@, all, width));
    }
    while i < words.len()
        invariant
            i <= words@.len(),
            all == text::views(words@),
            all == text::words_of(s@),
            text::views(rows@) + filled_rows(row@, all.skip(i as int), width) == wrapped(s@, width),
        decreases words@.len() - i,
    {
        let word = words[i].as_str();
        let ghost before = text::views(rows@);
        proof {
            assert(all.skip(i as int)[0] == word@);
            assert(all.skip(i as int).skip(1) =~= all.skip(i + 1));
        }
        if row.as_str().is_empty() {
            row = word.to_owned();
        } else {
            let need: u128 = row.as_str().as_bytes().len() as u128 + 1 + word.as_bytes().len() as u128;
            if need > width as u128 {
                let full = row;
                rows.push(full);
                row = word.to_owned();
                proof {
                    assert(text::views(rows@) =~= before + seq![full@]);
                    assert(text::views(rows@) + filled_rows(row@, all.skip(i + 1), width)
                        =~= before + (seq![full@] + filled_rows(row@, all.skip(i + 1), width)));
                }
            } else {
                row.push(' ');
                row = row.concat(word);
            }
        }
        i += 1;
    }
    if !row.as_str().is_empty() {
        let ghost before = text::views(rows@);
        let ghost last = row@;
        rows.push(row);
        assert(text::views(rows@) =~= before + seq![last]);
    } else {
        assert(text::views(rows@) =~= text::views(rows@) + filled_rows(row@, all.skip(i as int), width));
    }
    rows
}

/// Texts with one space between each and the next.
pub open spec fn spaced(items: Seq<Seq<char>>) -> Seq<char>
    decreases items.len(), 0int,
{
    if items.len() == 0 {
        Seq::empty()
    } else {
        items[0] + after_space(items.skip(1))
    }
}

/// What follows the first of several texts: a space and the others, or nothing.
pub open spec fn after_space(items: Seq<Seq<char>>) -> Seq<char>
    decreases items.len(), 1int,
{
    if items.len() == 0 {
        Seq::empty()
    } else {
        seq![' '] + spaced(items)
    }
}

/// The bytes of two texts one after the other.
pub proof fn byte_len_adds(a: Seq<char>, b: Seq<char>)
    ensures
        byte_len(a + b) == byte_len(a) + byte_len(b),
    decreases a.len(),
{
    if a.len() == 0 {
        assert(a + b =~= b);
    } else {
        byte_len_adds(a.drop_first(), b);
        assert((a + b).drop_first() =~= a.drop_first() + b);
    }
}

/// A space takes one byte.
pub proof fn a_space_is_one_byte()
    ensures
        byte_len(seq![' ']) == 1,
{
    assert(seq![' '].drop_first() =~= Seq::<char>::empty());
    reveal_with_fuel(vstd::utf8::encode_utf8, 2);
}

/// What fills rows from a row that has begun is the row and then the words.
proof fn filling_keeps_text(row: Seq<char>, words: Seq<Seq<char>>, width: usize)
    requires
        forall|i: int| 0 <= i < words.len() ==> (#[trigger] words[i]).len() > 0,
    ensures
        row.len() > 0 ==> filled_rows(row, words, width).len() > 0 && spaced(
            filled_rows(row, words, width),
        ) == row + after_space(words),
        row.len() == 0 ==> spaced(filled_rows(row, words, width)) == spaced(words),
    decreases words.len(),
{
    if words.len() == 0 {
        if row.len() > 0 {
            assert(seq![row].skip(1) =~= Seq::<Seq<char>>::empty());
            assert(spaced(seq![row]) =~= row + after_space(words));
        }
    } else {
        let rest = words.skip(1);
        assert forall|i: int| 0 <= i < rest.len() implies (#[trigger] rest[i]).len() > 0 by {
            assert(rest[i] == words[i + 1]);
        }
        assert(words[0].len() > 0);
        if row.len() == 0 {
            filling_keeps_text(words[0], rest, width);
        } else if fits(row, words[0], width) {
            let longer = row.push(' ') + words[0];
            filling_keeps_text(longer, rest, width);
            assert(longer + after_space(rest) =~= row + (seq![' '] + (words[0] + after_space(
                rest,
            ))));
        } else {
            filling_keeps_text(words[0], rest, width);
            let next = filled_rows(words[0], rest, width);
            let all = seq![row] + next;
            assert(all.skip(1) =~= next);
            assert(spaced(all) == row + (seq![' '] + spaced(next)));
        }
    }
}

/// The words of a text are not empty.
pub proof fn words_are_not_empty(s: Seq<char>)
    ensures
        forall|i: int| 0 <= i < text::words_of(s).len() ==> (#[trigger] text::words_of(s)[i]).len() > 0,
{
    let keep = |w: Seq<char>| w.len() > 0;
    let pieces = text::split(
        s.map_values(
            |c: char|
                if text::is_space(c) {
                    ' '
                } else {
                    c
                },
        ),
        ' ',
    );
    assert forall|i: int| 0 <= i < text::words_of(s).len() implies (#[trigger] text::words_of(
        s,
    )[i]).len() > 0 by {
        pieces.lemma_filter_pred(keep, i);
    }
}

/// Wrapping loses no text: the rows, with a space between each and the next, are the words of
/// the text with a space between each and the next.
pub proof fn wrapping_loses_no_text(s: Seq<char>, width: usize)
    ensures
        spaced(wrapped(s, width)) == spaced(text::words_of(s)),
{
    words_are_not_empty(s);
    filling_keeps_text(Seq::empty(), text::words_of(s), width);
}

/// Rows filled from a row and words that fit are within the width.
proof fn filled_rows_fit(row: Seq<char>, words: Seq<Seq<char>>, width: usize)
    requires
        byte_len(row) <= width,
        forall|i: int| 0 <= i < words.len() ==> byte_len(#[trigger] words[i]) <= width,
    ensures
        forall|i: int|
            0 <= i < filled_rows(row, words, width).len() ==> byte_len(
                #[trigger] filled_rows(row, words, width)[i],
            ) <= width,
    decreases words.len(),
{
    if words.len() > 0 {
        let rest = words.skip(1);
        assert forall|i: int| 0 <= i < rest.len() implies byte_len(#[trigger] rest[i]) <= width by {
            assert(rest[i] == words[i + 1]);
        }
        assert(byte_len(words[0]) <= width);
        if row.len() > 0 && fits(row, words[0], width) {
            let longer = row.push(' ') + words[0];
            a_space_is_one_byte();
            byte_len_adds(row, seq![' ']);
            byte_len_adds(row.push(' '), words[0]);
            assert(row.push(' ') =~= row + seq![' ']);
            filled_rows_fit(longer, rest, width);
            assert(filled_rows(row, words, width) == filled_rows(longer, rest, width));
        } else {
            filled_rows_fit(words[0], rest, width);
            let all = filled_rows(row, words, width);
            let next = filled_rows(words[0], rest, width);
            if row.len() > 0 {
                assert forall|i: int| 0 <= i < all.len() implies byte_len(#[trigger] all[i])
                    <= width by {
                    if i > 0 {
                        assert(all[i] == next[i - 1]);
                    }
                }
            } else {
                assert(all == next);
            }
        }
    }
}

/// No row is wider than the width, where no single word is.
pub proof fn wrapped_rows_fit(s: Seq<char>, width: usize)
    requires
        forall|i: int|
            0 <= i < text::words_of(s).len() ==> byte_len(#[trigger] text::words_of(s)[i]) <= width,
    ensures
        forall|i: int|
            0 <= i < wrapped(s, width).len() ==> byte_len(#[trigger] wrapped(s, width)[i]) <= width,
{
    assert(byte_len(Seq::<char>::empty()) == 0);
    filled_rows_fit(Seq::empty(), text::words_of(s), width);
}

} // verus!
