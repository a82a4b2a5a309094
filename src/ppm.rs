//! Plain PPM (`P3`) text for a canvas of 8-bit channels.
//!
//! The layout is the magic token `P3`, a line with the width and the height,
//! a line with the largest channel value `255`, then one line per pixel row,
//! top to bottom, holding the row's channel triples left to right, separated
//! by single spaces. The text ends with a newline.

use vstd::prelude::*;
use crate::canvas::Canvas;
use crate::channels::{channels_text, Channels};
use crate::decimal::{decimal, push_decimal};

verus! {

/// The `parts` in order, with `sep` between each two neighbours.
pub open spec fn joined(parts: Seq<Seq<char>>, sep: Seq<char>) -> Seq<char>
    decreases parts.len(),
{
    if parts.len() == 0 {
        Seq::empty()
    } else if parts.len() == 1 {
        parts[0]
    } else {
        joined(parts.drop_last(), sep) + sep + parts.last()
    }
}

/// The text of one pixel row: its channel triples joined by single spaces.
pub open spec fn row_text(row: Seq<Channels>) -> Seq<char> {
    joined(row.map_values(|c: Channels| channels_text(c)), seq![' '])
}

/// The pixel rows' texts joined by newlines.
pub open spec fn pixels_text(rows: Seq<Seq<Channels>>) -> Seq<char> {
    joined(rows.map_values(|row: Seq<Channels>| row_text(row)), seq!['\n'])
}

/// The three header lines: `P3`, then `width height`, then `255`.
pub open spec fn ppm_header(width: nat, height: nat) -> Seq<char> {
    seq!['P', '3', '\n'] + decimal(width) + seq![' '] + decimal(height) + seq![
        '\n',
        '2',
        '5',
        '5',
        '\n',
    ]
}

/// The whole image file: the header, the pixel rows, and a final newline.
pub open spec fn ppm_text(width: nat, height: nat, rows: Seq<Seq<Channels>>) -> Seq<char> {
    ppm_header(width, height) + pixels_text(rows) + seq!['\n']
}

/// Joining one more part adds the separator (if anything came before) and the part.
proof fn lemma_joined_push(parts: Seq<Seq<char>>, sep: Seq<char>, i: int)
    requires
        0 <= i < parts.len(),
    ensures
        joined(parts.subrange(0, i + 1), sep) == if i == 0 {
            parts[0]
        } else {
            joined(parts.subrange(0, i), sep) + sep + parts[i]
        },
{
    let next = parts.subrange(0, i + 1);
    if i > 0 {
        assert(next.drop_last() =~= parts.subrange(0, i));
    }
}

impl Canvas<Channels> {
    /// Appends the text of row `y` to `s`.
    fn push_row(&self, y: usize, s: &mut String)
        requires
            self.wf(),
            y < self.spec_height(),
        ensures
            final(s)@ == old(s)@ + row_text(self@[y as int]),
    {
        let ghost row = self@[y as int];
        let ghost parts = row.map_values(|c: Channels| channels_text(c));
        let ghost start = s@;
        proof {
            reveal_strlit(" ");
            assert(" "@ =~= seq![' ']);
        }
        let width = self.width();
        let mut x: usize = 0;
        while x < width
            invariant
                self.wf(),
                y < self.spec_height(),
                width == self.spec_width(),
                row == self@[y as int],
                row.len() == width,
                parts == row.map_values(|c: Channels| channels_text(c)),
                x <= width,
                s@ == start + joined(parts.subrange(0, x as int), seq![' ']),
                " "@ == seq![' '],
            decreases width - x,
        {
            if x > 0 {
                s.append(" ");
            }
            let c = self.pixel_at(x, y);
            c.push_text(s);
            proof {
                lemma_joined_push(parts, seq![' '], x as int);
                assert(parts[x as int] == channels_text(c));
                assert(s@ =~= start + joined(parts.subrange(0, x + 1), seq![' ']));
            }
            x = x + 1;
        }
        assert(parts.subrange(0, width as int) =~= parts);
    }

    /// The pixel rows as text, top to bottom, joined by newlines.
    pub fn pixels_to_string(&self) -> (r: String)
        requires
            self.wf(),
        ensures
            r@ == pixels_text(self@),
    {
        proof {
            reveal_strlit("\n");
            assert("\n"@ =~= seq!['\n']);
        }
        let ghost lines = self@.map_values(|row: Seq<Channels>| row_text(row));
        let height = self.height();
        let mut s = String::new();
        let mut y: usize = 0;
        while y < height
            invariant
                self.wf(),
                height == self.spec_height(),
                self@.len() == height,
                lines == self@.map_values(|row: Seq<Channels>| row_text(row)),
                y <= height,
                s@ == joined(lines.subrange(0, y as int), seq!['\n']),
                "\n"@ == seq!['\n'],
            decreases height - y,
        {
            if y > 0 {
                s.append("\n");
            }
            self.push_row(y, &mut s);
            proof {
                lemma_joined_push(lines, seq!['\n'], y as int);
                assert(s@ =~= joined(lines.subrange(0, y + 1), seq!['\n']));
            }
            y = y + 1;
        }
        assert(lines.subrange(0, height as int) =~= lines);
        s
    }

    /// The canvas as a plain PPM (`P3`) image file.
    pub fn canvas_to_ppm(&self) -> (r: String)
        requires
            self.wf(),
        ensures
            r@ == ppm_text(self.spec_width(), self.spec_height(), self@),
    {
        proof {
            reveal_strlit("P3\n");
            reveal_strlit(" ");
            reveal_strlit("\n255\n");
            reveal_strlit("\n");
        }
        let mut s = String::new();
        s.append("P3\n");
        push_decimal(&mut s, self.width());
        s.append(" ");
        push_decimal(&mut s, self.height());
        s.append("\n255\n");
        let pixels = self.pixels_to_string();
        s.append(pixels.as_str());
        s.append("\n");
        assert(s@ =~= ppm_text(self.spec_width(), self.spec_height(), self@));
        s
    }
}

} // verus!
