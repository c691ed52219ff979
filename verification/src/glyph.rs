//! Styled characters, and the ways in which rows are put together from them.

use vstd::prelude::*;

verus! {

/// One character cell of the panel.
#[derive(Clone, Copy, Debug, PartialEq, Eq, Structural)]
pub struct Glyph {
    pub ch: char,
    pub bold: bool,
}

/// The cell that holds `ch` in the given weight.
pub open spec fn cell(ch: char, bold: bool) -> Glyph {
    Glyph { ch, bold }
}

/// `text`, each character in the given weight.
pub open spec fn styled(text: Seq<char>, bold: bool) -> Seq<Glyph> {
    Seq::new(text.len(), |i: int| cell(text[i], bold))
}

/// `text` in normal weight.
pub open spec fn plain(text: Seq<char>) -> Seq<Glyph> {
    styled(text, false)
}

/// `count` copies of `glyph`.
pub open spec fn repeated(glyph: Glyph, count: nat) -> Seq<Glyph> {
    Seq::new(count, |i: int| glyph)
}

/// `count` blanks.
pub open spec fn blanks(count: nat) -> Seq<Glyph> {
    repeated(cell(' ', false), count)
}

/// `row` cut off after `width` glyphs.
pub open spec fn clipped(row: Seq<Glyph>, width: nat) -> Seq<Glyph> {
    if row.len() <= width {
        row
    } else {
        row.take(width as int)
    }
}

/// Appends the first `count` characters of `text` to `row`, each in the given
/// weight.
pub(crate) fn push_prefix(row: &mut Vec<Glyph>, text: &str, count: usize, bold: bool)
    requires
        count <= text@.len(),
    ensures
        final(row)@ == old(row)@ + styled(text@.take(count as int), bold),
{
    let mut done: usize = 0;
    proof {
        assert(row@ =~= old(row)@ + styled(text@.take(0), bold));
    }
    while done < count
        invariant
            done <= count <= text@.len(),
            row@ == old(row)@ + styled(text@.take(done as int), bold),
        decreases count - done,
    {
        let ch = text.get_char(done);
        row.push(Glyph { ch, bold });
        done = done + 1;
        proof {
            let shorter = styled(text@.take(done - 1), bold);
            let longer = styled(text@.take(done as int), bold);
            assert(longer =~= shorter.push(Glyph { ch, bold }));
            assert(row@ =~= old(row)@ + longer);
        }
    }
}

/// Appends `text` to `row`, each character in the given weight.
pub(crate) fn push_text(row: &mut Vec<Glyph>, text: &str, bold: bool)
    ensures
        final(row)@ == old(row)@ + styled(text@, bold),
{
    let count = text.unicode_len();
    proof {
        assert(text@.take(count as int) == text@);
    }
    push_prefix(row, text, count, bold);
}

/// Appends `chars` to `row`, each in the given weight.
pub(crate) fn push_chars(row: &mut Vec<Glyph>, chars: &Vec<char>, bold: bool)
    ensures
        final(row)@ == old(row)@ + styled(chars@, bold),
{
    let mut done: usize = 0;
    proof {
        assert(row@ =~= old(row)@ + styled(chars@.take(0), bold));
    }
    while done < chars.len()
        invariant
            done <= chars.len(),
            row@ == old(row)@ + styled(chars@.take(done as int), bold),
        decreases chars.len() - done,
    {
        let ch = chars[done];
        row.push(Glyph { ch, bold });
        done = done + 1;
        proof {
            let shorter = styled(chars@.take(done - 1), bold);
            let longer = styled(chars@.take(done as int), bold);
            assert(longer[done - 1] == cell(chars@[done - 1], bold));
            assert(longer =~= shorter.push(Glyph { ch, bold }));
            assert(row@ =~= old(row)@ + longer);
        }
    }
    proof {
        assert(chars@.take(done as int) == chars@);
    }
}

/// Appends `count` copies of `glyph` to `row`.
pub(crate) fn push_repeated(row: &mut Vec<Glyph>, glyph: Glyph, count: usize)
    ensures
        final(row)@ == old(row)@ + repeated(glyph, count as nat),
{
    let mut done: usize = 0;
    proof {
        assert(row@ =~= old(row)@ + repeated(glyph, 0));
    }
    while done < count
        invariant
            done <= count,
            row@ == old(row)@ + repeated(glyph, done as nat),
        decreases count - done,
    {
        row.push(glyph);
        done = done + 1;
        proof {
            assert(repeated(glyph, done as nat) =~= repeated(glyph, (done - 1) as nat).push(glyph));
            assert(row@ =~= old(row)@ + repeated(glyph, done as nat));
        }
    }
}

/// Cuts `row` off after `width` glyphs.
pub(crate) fn clip(row: &mut Vec<Glyph>, width: usize)
    ensures
        final(row)@ == clipped(old(row)@, width as nat),
{
    if row.len() > width {
        row.truncate(width);
    }
}

} // verus!
