//! The render loop's part in each frame: pick the rows, let the volume
//! indicator timer count the frame, and box the rows in.

use vstd::prelude::*;
use crate::glyph::{plain, push_repeated, Glyph};
use crate::layout::{
    action, action_row, audio_bar, controls, controls_row, lemma_rows_fill_width, panel_width,
    progress_bar, progress_row, target_width, volume_row, Snapshot, SnapshotView,
};
use crate::text::run;
use crate::timer::{ticked, VolumeTimer};

verus! {

/// How many frames are drawn in a second.
pub const FPS: usize = 12;

/// One frame of the panel, ready to be printed.
#[derive(Debug)]
pub struct Frame {
    /// The lines of the panel from top to bottom, borders included.
    pub lines: Vec<Vec<Glyph>>,
    /// How many lines the cursor is to be moved up once the last line is
    /// printed, so that the next frame is drawn over this one.
    pub rewind: u16,
}

/// The lines of a frame as sequences.
pub open spec fn grid(lines: Seq<Vec<Glyph>>) -> Seq<Seq<Glyph>> {
    Seq::new(lines.len(), |i: int| lines[i]@)
}

/// A horizontal border of the box around rows of `width` cells, between the
/// corners `left` and `right`.
pub open spec fn border(left: char, right: char, width: nat) -> Seq<Glyph> {
    plain(seq![left] + run('─', width + 2) + seq![right])
}

/// `row` between the sides of the box.
pub open spec fn boxed(row: Seq<Glyph>) -> Seq<Glyph> {
    plain(seq!['│', ' ']) + row + plain(seq![' ', '│'])
}

/// The row between the action row and the controls: the volume row while the
/// volume overlay is up, the progress row else.
pub open spec fn middle_row(snapshot: SnapshotView, overlay: bool, width: nat) -> Seq<Glyph> {
    if overlay {
        volume_row(snapshot.volume, width)
    } else {
        progress_row(snapshot, width)
    }
}

/// The whole panel: the top border, the action row, the middle row, the
/// controls row unless the panel is minimalist, and the bottom border.
pub open spec fn panel(snapshot: SnapshotView, overlay: bool, width: nat, minimalist: bool) -> Seq<
    Seq<Glyph>,
> {
    let head = seq![
        border('┌', '┐', width),
        boxed(action_row(snapshot, width)),
        boxed(middle_row(snapshot, overlay, width)),
    ];
    let foot = seq![border('└', '┘', width)];
    if minimalist {
        head + foot
    } else {
        head + seq![boxed(controls_row(width))] + foot
    }
}

/// The panel is a rectangle: each of its lines is four cells wider than the
/// rows, and it has two lines more than it has rows.
pub proof fn lemma_panel_rectangular(
    snapshot: SnapshotView,
    overlay: bool,
    width: nat,
    minimalist: bool,
)
    ensures
        panel(snapshot, overlay, width, minimalist).len() == (if minimalist {
            4nat
        } else {
            5nat
        }),
        forall|i: int|
            0 <= i < panel(snapshot, overlay, width, minimalist).len() ==> (#[trigger] panel(
                snapshot,
                overlay,
                width,
                minimalist,
            )[i]).len() == width + 4,
{
    lemma_rows_fill_width(snapshot, width);
}

fn draw_border(left: char, right: char, width: usize) -> (line: Vec<Glyph>)
    ensures
        line@ == border(left, right, width as nat),
{
    let mut line: Vec<Glyph> = Vec::new();
    line.push(Glyph { ch: left, bold: false });
    push_repeated(&mut line, Glyph { ch: '─', bold: false }, width);
    push_repeated(&mut line, Glyph { ch: '─', bold: false }, 2);
    line.push(Glyph { ch: right, bold: false });
    proof {
        assert(line@ =~= border(left, right, width as nat));
    }
    line
}

fn draw_boxed(row: Vec<Glyph>) -> (line: Vec<Glyph>)
    ensures
        line@ == boxed(row@),
{
    let mut line: Vec<Glyph> = Vec::new();
    line.push(Glyph { ch: '│', bold: false });
    line.push(Glyph { ch: ' ', bold: false });
    let ghost inner = row@;
    let mut row = row;
    line.append(&mut row);
    line.push(Glyph { ch: ' ', bold: false });
    line.push(Glyph { ch: '│', bold: false });
    proof {
        assert(line@ =~= boxed(inner));
    }
    line
}

/// Draws one frame.
///
/// The panel is as wide as the terminal allows. Its middle row is the volume
/// row if `timer` is running when the frame is drawn, the progress row else;
/// the timer then counts the frame.
pub fn frame(timer: &mut VolumeTimer, snapshot: &Snapshot, columns: Option<u16>, minimalist: bool)
    -> (frame: Frame)
    ensures
        grid(frame.lines@) == panel(
            snapshot@,
            old(timer)@ != 0,
            target_width(columns),
            minimalist,
        ),
        frame.rewind == frame.lines@.len() - 1,
        final(timer)@ == ticked(old(timer)@),
{
    let width = panel_width(columns);
    let overlay = timer.is_active();
    let middle = if overlay {
        audio_bar(snapshot.volume, width)
    } else {
        progress_bar(snapshot, width)
    };
    timer.tick();
    let mut lines: Vec<Vec<Glyph>> = Vec::new();
    lines.push(draw_border('┌', '┐', width));
    lines.push(draw_boxed(action(snapshot, width)));
    lines.push(draw_boxed(middle));
    if !minimalist {
        lines.push(draw_boxed(controls(width)));
    }
    lines.push(draw_border('└', '┘', width));
    proof {
        assert(grid(lines@) =~= panel(
            snapshot@,
            old(timer)@ != 0,
            target_width(columns),
            minimalist,
        ));
    }
    let rewind: u16 = if minimalist {
        3
    } else {
        4
    };
    Frame { lines, rewind }
}

} // verus!
