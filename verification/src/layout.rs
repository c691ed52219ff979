//! The rows of the playback panel. Each row is a function of the playback
//! snapshot and of the width it has to fill, and fills exactly that width.

use vstd::prelude::*;
use crate::glyph::{blanks, clip, clipped, plain, push_chars, push_prefix, push_repeated, push_text, styled, Glyph};
use crate::text::{clock, decimal, lemma_clock_len, lemma_decimal_len, push_clock, push_decimal, push_run, push_str, run};

verus! {

/// The widest that the panel gets, borders not counted.
pub const MAX_WIDTH: usize = 73;

/// The width of the panel where the width of the terminal is not known.
pub const FALLBACK_WIDTH: usize = 27;

/// The columns that the borders of the panel take.
pub const BORDER_ALLOWANCE: u16 = 4;

/// The width of the panel in a terminal of that many columns, or in one whose
/// width could not be determined: the columns less the border allowance, within
/// 0 and `MAX_WIDTH`; the fallback where the columns are unknown.
pub open spec fn target_width(columns: Option<u16>) -> nat {
    match columns {
        Some(columns) => clamp(columns - BORDER_ALLOWANCE, 0, MAX_WIDTH as int) as nat,
        None => FALLBACK_WIDTH as nat,
    }
}

/// `value` where it lies within `low` and `high`, else the nearer of the two.
pub open spec fn clamp(value: int, low: int, high: int) -> int {
    if value < low {
        low
    } else if value > high {
        high
    } else {
        value
    }
}

/// Computes the width of the panel.
pub fn panel_width(columns: Option<u16>) -> (width: usize)
    ensures
        width == target_width(columns),
        width <= MAX_WIDTH,
{
    match columns {
        Some(columns) => {
            if columns <= BORDER_ALLOWANCE {
                0
            } else if columns - BORDER_ALLOWANCE >= MAX_WIDTH as u16 {
                MAX_WIDTH
            } else {
                (columns - BORDER_ALLOWANCE) as usize
            }
        },
        None => FALLBACK_WIDTH,
    }
}

/// What the playback engine reports at the time of a frame.
#[derive(Clone, Debug)]
pub struct Snapshot {
    /// The title of the current track; `None` while a track is loading.
    pub track: Option<String>,
    /// Whether playback is paused.
    pub paused: bool,
    /// The seconds of the track that have been played.
    pub elapsed: u64,
    /// The length of the track in seconds, where it is known.
    pub duration: Option<u64>,
    /// The volume in hundredths of full volume. It may exceed 100, and it may
    /// have been driven below 0.
    pub volume: i32,
}

/// A snapshot as plain values.
pub struct SnapshotView {
    pub track: Option<Seq<char>>,
    pub paused: bool,
    pub elapsed: nat,
    pub duration: Option<nat>,
    pub volume: int,
}

impl View for Snapshot {
    type V = SnapshotView;

    open spec fn view(&self) -> SnapshotView {
        SnapshotView {
            track: match self.track {
                Some(title) => Some(title@),
                None => None,
            },
            paused: self.paused,
            elapsed: self.elapsed as nat,
            duration: match self.duration {
                Some(seconds) => Some(seconds as nat),
                None => None,
            },
            volume: self.volume as int,
        }
    }
}

/// How many of `width` cells stand for `part` out of `whole`: their share,
/// rounded to the nearest cell, a half rounded up. Nothing of nothing is no
/// cell, and a part beyond the whole is every cell.
pub open spec fn share(part: nat, whole: nat, width: nat) -> nat {
    if whole == 0 {
        0
    } else if part >= whole {
        width
    } else {
        (2 * part * width + whole) / (2 * whole)
    }
}

/// A bar of `width` cells, the first `filled` of them filled.
pub open spec fn bar(filled: nat, width: nat) -> Seq<char> {
    if filled >= width {
        run('/', width)
    } else {
        run('/', filled) + run(' ', (width - filled) as nat)
    }
}

/// The cells left for a bar in a row of `width` cells of which `taken` are
/// taken by everything else.
pub open spec fn room(width: nat, taken: nat) -> nat {
    if width >= taken {
        (width - taken) as nat
    } else {
        0
    }
}

/// The times beside the progress bar: time played, a slash, length of the
/// track.
pub open spec fn progress_label(snapshot: SnapshotView) -> Seq<char> {
    clock(snapshot.elapsed) + seq!['/'] + clock(
        match snapshot.duration {
            Some(seconds) => seconds,
            None => 0,
        },
    )
}

/// The progress row before it is cut to width.
pub open spec fn progress_text(snapshot: SnapshotView, width: nat) -> Seq<char> {
    let label = progress_label(snapshot);
    let cells = room(width, label.len() + 5);
    let filled = match snapshot.duration {
        Some(seconds) => share(snapshot.elapsed, seconds, cells),
        None => 0,
    };
    seq![' ', '['] + bar(filled, cells) + seq![']', ' '] + label + seq![' ']
}

/// The progress row: a bar that fills as the track plays, and the times.
pub open spec fn progress_row(snapshot: SnapshotView, width: nat) -> Seq<Glyph> {
    clipped(plain(progress_text(snapshot, width)), width)
}

/// The size of a volume, whichever way it points.
pub open spec fn magnitude(volume: int) -> nat {
    if volume < 0 {
        (-volume) as nat
    } else {
        volume as nat
    }
}

/// The volume as the bar shows it: within 0 and 100.
pub open spec fn level(volume: int) -> nat {
    if volume < 0 {
        0
    } else if volume > 100 {
        100
    } else {
        volume as nat
    }
}

/// The number beside the volume bar: the magnitude of the volume and a percent
/// sign, moved to the right in a field of four characters.
pub open spec fn volume_label(volume: int) -> Seq<char> {
    let percent = decimal(magnitude(volume)).push('%');
    run(' ', room(4, percent.len())) + percent
}

/// The volume row before it is cut to width.
pub open spec fn volume_text(volume: int, width: nat) -> Seq<char> {
    let label = volume_label(volume);
    let cells = room(width, label.len() + 13);
    " volume: ["@ + bar(share(level(volume), 100, cells), cells) + seq![']', ' '] + label
        + seq![' ']
}

/// The volume row: a bar that shows the volume, and the volume in percent.
pub open spec fn volume_row(volume: int, width: nat) -> Seq<Glyph> {
    clipped(plain(volume_text(volume, width)), width)
}

/// What the player is doing, and to which track: the track's title in bold.
pub open spec fn action_content(snapshot: SnapshotView) -> Seq<Glyph> {
    match snapshot.track {
        None => plain("loading"@),
        Some(title) => plain(
            if snapshot.paused {
                "paused "@
            } else {
                "playing "@
            },
        ) + styled(title, true),
    }
}

/// `content` made `width` glyphs long: filled up with blanks where it is
/// shorter, and where it is longer cut so that three dots fit behind it.
pub open spec fn fitted(content: Seq<Glyph>, width: nat) -> Seq<Glyph> {
    if content.len() <= width {
        content + blanks((width - content.len()) as nat)
    } else {
        clipped(content.take(room(width, 3) as int) + plain("..."@), width)
    }
}

/// The action row.
pub open spec fn action_row(snapshot: SnapshotView, width: nat) -> Seq<Glyph> {
    fitted(action_content(snapshot), width)
}

/// The legend of the keys with its three entries `gap` blanks apart, each key
/// in bold.
pub open spec fn legend(gap: nat) -> Seq<Glyph> {
    styled("[s]"@, true) + plain("kip"@) + blanks(gap) + styled("[p]"@, true) + plain("ause"@)
        + blanks(gap) + styled("[q]"@, true) + plain("uit"@)
}

/// The controls row: the legend spread over the width, with one blank behind
/// it where the width is even.
pub open spec fn controls_row(width: nat) -> Seq<Glyph> {
    let spread = legend(room(width, 19) / 2);
    clipped(
        if width % 2 == 0 {
            spread + blanks(1)
        } else {
            spread
        },
        width,
    )
}

/// The share is never more than the width.
pub proof fn lemma_share_within(part: nat, whole: nat, width: nat)
    ensures
        share(part, whole, width) <= width,
{
    if whole != 0 && part < whole {
        let total = 2 * part * width + whole;
        assert(total < (2 * whole) * (width + 1)) by (nonlinear_arith)
            requires
                part < whole,
                total == 2 * part * width + whole,
        ;
        vstd::arithmetic::div_mod::lemma_div_by_multiple_is_strongly_ordered(
            total as int,
            ((2 * whole) * (width + 1)) as int,
            (width + 1) as int,
            (2 * whole) as int,
        );
        vstd::arithmetic::div_mod::lemma_div_multiples_vanish((width + 1) as int, (2 * whole) as int);
        assert((2 * whole) * (width + 1) == (width + 1) * (2 * whole)) by (nonlinear_arith);
    }
}

/// Computes how many of `width` cells stand for `part` out of `whole`.
pub fn cells_for(part: u64, whole: u64, width: usize) -> (cells: usize)
    ensures
        cells == share(part as nat, whole as nat, width as nat),
        cells <= width,
{
    if whole == 0 {
        0
    } else if part >= whole {
        width
    } else {
        assert(part * width <= 0xffff_ffff_ffff_ffff * 0xffff_ffff_ffff_ffff) by (nonlinear_arith)
            requires
                part <= 0xffff_ffff_ffff_ffff,
                width <= 0xffff_ffff_ffff_ffff,
        ;
        let product: u128 = part as u128 * width as u128;
        let quotient: u128 = product / whole as u128;
        let rest: u128 = product % whole as u128;
        let up: u128 = if rest >= whole as u128 - rest {
            1
        } else {
            0
        };
        proof {
            let total = 2 * part * width + whole;
            vstd::arithmetic::div_mod::lemma_fundamental_div_mod(product as int, whole as int);
            assert(product == whole * quotient + rest);
            let above = if up == 1 {
                2 * rest - whole
            } else {
                2 * rest + whole
            };
            let (q, r, d): (int, int, int) = (quotient as int, rest as int, whole as int);
            assert(2 * (d * q + r) + d == (q + 1) * (2 * d) + (2 * r - d)) by (nonlinear_arith);
            assert(2 * (d * q + r) + d == q * (2 * d) + (2 * r + d)) by (nonlinear_arith);
            assert(2 * part * width == 2 * (part * width)) by (nonlinear_arith);
            assert(total == (quotient + up) * (2 * whole) + above);
            vstd::arithmetic::div_mod::lemma_fundamental_div_mod_converse(
                total as int,
                (2 * whole) as int,
                (quotient + up) as int,
                above as int,
            );
            lemma_share_within(part as nat, whole as nat, width as nat);
        }
        (quotient + up) as usize
    }
}

fn push_bar(buffer: &mut Vec<char>, filled: usize, width: usize)
    ensures
        final(buffer)@ == old(buffer)@ + bar(filled as nat, width as nat),
{
    if filled >= width {
        push_run(buffer, '/', width);
    } else {
        push_run(buffer, '/', filled);
        push_run(buffer, ' ', width - filled);
        proof {
            assert(buffer@ =~= old(buffer)@ + bar(filled as nat, width as nat));
        }
    }
}

fn cells_left(width: usize, taken_by_label: usize, taken_besides: usize) -> (cells: usize)
    requires
        taken_besides <= 16,
    ensures
        cells == room(width as nat, (taken_by_label + taken_besides) as nat),
{
    if width >= taken_by_label && width - taken_by_label >= taken_besides {
        width - taken_by_label - taken_besides
    } else {
        0
    }
}

/// Every bar is as wide as asked.
pub proof fn lemma_bar_len(filled: nat, width: nat)
    ensures
        bar(filled, width).len() == width,
{
}

/// Every row fills the width it is drawn for, whatever the snapshot holds and
/// however narrow the panel is.
pub proof fn lemma_rows_fill_width(snapshot: SnapshotView, width: nat)
    ensures
        action_row(snapshot, width).len() == width,
        progress_row(snapshot, width).len() == width,
        volume_row(snapshot.volume, width).len() == width,
        controls_row(width).len() == width,
{
    reveal_strlit("loading");
    reveal_strlit("paused ");
    reveal_strlit("playing ");
    reveal_strlit("...");
    reveal_strlit(" volume: [");
    reveal_strlit("[s]");
    reveal_strlit("kip");
    reveal_strlit("[p]");
    reveal_strlit("ause");
    reveal_strlit("[q]");
    reveal_strlit("uit");
}

/// How wide the bars are. With both times under a hundred minutes the progress
/// bar has all but 16 cells of its row, and with a volume under a thousand
/// percent the volume bar has all but 17.
pub proof fn lemma_bar_widths(snapshot: SnapshotView, width: nat)
    ensures
        snapshot.elapsed < 6000 && (snapshot.duration matches Some(seconds) ==> seconds < 6000)
            ==> room(width, progress_label(snapshot).len() + 5) == room(width, 16),
        magnitude(snapshot.volume) < 1000 ==> room(
            width,
            volume_label(snapshot.volume).len() + 13,
        ) == room(width, 17),
{
    lemma_clock_len(snapshot.elapsed);
    match snapshot.duration {
        Some(seconds) => lemma_clock_len(seconds),
        None => lemma_clock_len(0),
    }
    lemma_decimal_len(magnitude(snapshot.volume));
}

/// Draws the progress row.
pub fn progress_bar(snapshot: &Snapshot, width: usize) -> (row: Vec<Glyph>)
    ensures
        row@ == progress_row(snapshot@, width as nat),
        row@.len() == width,
{
    let total: u64 = match snapshot.duration {
        Some(seconds) => seconds,
        None => 0,
    };
    let mut label: Vec<char> = Vec::new();
    push_clock(&mut label, snapshot.elapsed);
    label.push('/');
    push_clock(&mut label, total);
    proof {
        assert(label@ =~= progress_label(snapshot@));
    }
    let cells = cells_left(width, label.len(), 5);
    let filled = match snapshot.duration {
        Some(seconds) => cells_for(snapshot.elapsed, seconds, cells),
        None => 0,
    };
    let mut text: Vec<char> = Vec::new();
    text.push(' ');
    text.push('[');
    push_bar(&mut text, filled, cells);
    text.push(']');
    text.push(' ');
    let mut label = label;
    text.append(&mut label);
    text.push(' ');
    proof {
        assert(text@ =~= progress_text(snapshot@, width as nat));
        lemma_bar_len(filled as nat, cells as nat);
    }
    let mut row: Vec<Glyph> = Vec::new();
    push_chars(&mut row, &text, false);
    proof {
        assert(row@ =~= plain(text@));
    }
    clip(&mut row, width);
    row
}

/// Draws the volume row.
pub fn audio_bar(volume: i32, width: usize) -> (row: Vec<Glyph>)
    ensures
        row@ == volume_row(volume as int, width as nat),
        row@.len() == width,
{
    let size: u64 = if volume < 0 {
        (-(volume as i64)) as u64
    } else {
        volume as u64
    };
    let shown: u64 = if volume < 0 {
        0
    } else if volume > 100 {
        100
    } else {
        volume as u64
    };
    let mut percent: Vec<char> = Vec::new();
    push_decimal(&mut percent, size);
    percent.push('%');
    let mut label: Vec<char> = Vec::new();
    push_run(&mut label, ' ', cells_left(4, percent.len(), 0));
    label.append(&mut percent);
    proof {
        assert(label@ =~= volume_label(volume as int));
    }
    let cells = cells_left(width, label.len(), 13);
    let filled = cells_for(shown, 100, cells);
    let mut text: Vec<char> = Vec::new();
    push_str(&mut text, " volume: [");
    push_bar(&mut text, filled, cells);
    text.push(']');
    text.push(' ');
    text.append(&mut label);
    text.push(' ');
    proof {
        reveal_strlit(" volume: [");
        assert(text@ =~= volume_text(volume as int, width as nat));
        lemma_bar_len(filled as nat, cells as nat);
    }
    let mut row: Vec<Glyph> = Vec::new();
    push_chars(&mut row, &text, false);
    proof {
        assert(row@ =~= plain(text@));
    }
    clip(&mut row, width);
    row
}

/// Draws the action row.
pub fn action(snapshot: &Snapshot, width: usize) -> (row: Vec<Glyph>)
    ensures
        row@ == action_row(snapshot@, width as nat),
        row@.len() == width,
{
    let mut row: Vec<Glyph> = Vec::new();
    let kept: usize = if width >= 3 {
        width - 3
    } else {
        0
    };
    proof {
        reveal_strlit("loading");
        reveal_strlit("paused ");
        reveal_strlit("playing ");
        reveal_strlit("...");
    }
    let fits: bool;
    match &snapshot.track {
        None => {
            push_text(&mut row, "loading", false);
            fits = row.len() <= width;
        },
        Some(title) => {
            if snapshot.paused {
                push_text(&mut row, "paused ", false);
            } else {
                push_text(&mut row, "playing ", false);
            }
            let ghost head = row@;
            let length = title.as_str().unicode_len();
            fits = length <= width && width - length >= row.len();
            let taken: usize = if fits || length <= kept {
                length
            } else {
                kept
            };
            push_prefix(&mut row, title.as_str(), taken, true);
            proof {
                let content = action_content(snapshot@);
                assert(content == head + styled(title@, true));
                if fits {
                    assert(title@.take(taken as int) == title@);
                    assert(row@ == content);
                } else {
                    assert(row@.take(kept as int) =~= content.take(kept as int));
                }
            }
        },
    }
    if fits {
        let missing = width - row.len();
        push_repeated(&mut row, Glyph { ch: ' ', bold: false }, missing);
    } else {
        if row.len() > kept {
            row.truncate(kept);
        }
        proof {
            assert(row@ =~= action_content(snapshot@).take(kept as int));
        }
        push_text(&mut row, "...", false);
        clip(&mut row, width);
    }
    row
}

/// Draws the controls row.
pub fn controls(width: usize) -> (row: Vec<Glyph>)
    ensures
        row@ == controls_row(width as nat),
        row@.len() == width,
{
    let gap = cells_left(width, 19, 0) / 2;
    let blank = Glyph { ch: ' ', bold: false };
    let mut row: Vec<Glyph> = Vec::new();
    push_text(&mut row, "[s]", true);
    push_text(&mut row, "kip", false);
    push_repeated(&mut row, blank, gap);
    push_text(&mut row, "[p]", true);
    push_text(&mut row, "ause", false);
    push_repeated(&mut row, blank, gap);
    push_text(&mut row, "[q]", true);
    push_text(&mut row, "uit", false);
    proof {
        reveal_strlit("[s]");
        reveal_strlit("kip");
        reveal_strlit("[p]");
        reveal_strlit("ause");
        reveal_strlit("[q]");
        reveal_strlit("uit");
        assert(row@ =~= legend(gap as nat));
    }
    if width % 2 == 0 {
        push_repeated(&mut row, blank, 1);
    }
    clip(&mut row, width);
    row
}

} // verus!
