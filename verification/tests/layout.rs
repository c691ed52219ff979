use player_ui::glyph::Glyph;
use player_ui::layout::{
    action, audio_bar, cells_for, controls, panel_width, progress_bar, Snapshot, FALLBACK_WIDTH,
    MAX_WIDTH,
};

fn text(row: &[Glyph]) -> String {
    row.iter().map(|glyph| glyph.ch).collect()
}

fn bold(row: &[Glyph]) -> String {
    row.iter().filter(|glyph| glyph.bold).map(|glyph| glyph.ch).collect()
}

fn playing(title: &str) -> Snapshot {
    Snapshot {
        track: Some(title.to_string()),
        paused: false,
        elapsed: 30,
        duration: Some(60),
        volume: 50,
    }
}

#[test]
fn width_is_columns_less_four() {
    assert_eq!(panel_width(Some(4)), 0);
    assert_eq!(panel_width(Some(5)), 1);
    assert_eq!(panel_width(Some(31)), 27);
    assert_eq!(panel_width(Some(76)), 72);
    assert_eq!(panel_width(Some(77)), 73);
}

#[test]
fn width_is_capped() {
    assert_eq!(MAX_WIDTH, 73);
    assert_eq!(panel_width(Some(78)), 73);
    assert_eq!(panel_width(Some(80)), 73);
    assert_eq!(panel_width(Some(200)), 73);
    assert_eq!(panel_width(Some(u16::MAX)), 73);
}

#[test]
fn width_falls_back_when_unknown() {
    assert_eq!(FALLBACK_WIDTH, 27);
    assert_eq!(panel_width(None), 27);
}

#[test]
fn width_of_a_terminal_narrower_than_the_borders_is_zero() {
    for columns in 0..4u16 {
        assert_eq!(panel_width(Some(columns)), 0);
    }
}

#[test]
fn width_matches_the_clamp_for_every_terminal() {
    for columns in 4..=u16::MAX {
        let expected = (columns as i64 - 4).clamp(0, 73) as usize;
        assert_eq!(panel_width(Some(columns)), expected);
    }
}

#[test]
fn share_rounds_to_the_nearest_cell() {
    assert_eq!(cells_for(30, 60, 11), 6);
    assert_eq!(cells_for(1, 3, 10), 3);
    assert_eq!(cells_for(2, 3, 10), 7);
    assert_eq!(cells_for(1, 4, 10), 3);
    assert_eq!(cells_for(1, 20, 10), 1);
    assert_eq!(cells_for(1, 21, 10), 0);
    assert_eq!(cells_for(0, 60, 11), 0);
    assert_eq!(cells_for(59, 60, 11), 11);
}

#[test]
fn share_of_nothing_and_beyond_the_whole() {
    assert_eq!(cells_for(5, 0, 10), 0);
    assert_eq!(cells_for(0, 0, 10), 0);
    assert_eq!(cells_for(60, 60, 11), 11);
    assert_eq!(cells_for(600, 60, 11), 11);
    assert_eq!(cells_for(u64::MAX, 1, 7), 7);
    assert_eq!(cells_for(u64::MAX - 1, u64::MAX, usize::MAX), usize::MAX - 1);
    assert_eq!(cells_for(1, u64::MAX, usize::MAX), 1);
    assert_eq!(cells_for(7, 9, 0), 0);
}

#[test]
fn progress_row_shows_bar_and_times() {
    let row = progress_bar(&playing("Song"), 27);
    assert_eq!(text(&row), " [//////     ] 00:30/01:00 ");
    assert_eq!(bold(&row), "");
}

#[test]
fn progress_row_without_a_duration() {
    let mut snapshot = playing("Song");
    snapshot.duration = None;
    assert_eq!(text(&progress_bar(&snapshot, 27)), " [           ] 00:30/00:00 ");
    snapshot.duration = Some(0);
    assert_eq!(text(&progress_bar(&snapshot, 27)), " [           ] 00:30/00:00 ");
}

#[test]
fn progress_row_at_the_ends_of_a_track() {
    let mut snapshot = playing("Song");
    snapshot.elapsed = 0;
    snapshot.duration = Some(754);
    assert_eq!(text(&progress_bar(&snapshot, 27)), " [           ] 00:00/12:34 ");
    snapshot.elapsed = 754;
    assert_eq!(text(&progress_bar(&snapshot, 27)), " [///////////] 12:34/12:34 ");
    snapshot.elapsed = 9000;
    assert_eq!(text(&progress_bar(&snapshot, 28)), " [///////////] 150:00/12:34 ");
}

#[test]
fn progress_row_of_a_long_track_gives_the_bar_what_is_left() {
    let mut snapshot = playing("Song");
    snapshot.elapsed = 6000;
    snapshot.duration = Some(12000);
    assert_eq!(text(&progress_bar(&snapshot, 27)), " [/////    ] 100:00/200:00 ");
}

#[test]
fn volume_row_shows_bar_and_percentage() {
    let row = audio_bar(50, 27);
    assert_eq!(text(&row), " volume: [/////     ]  50% ");
    assert_eq!(bold(&row), "");
    assert_eq!(text(&audio_bar(100, 27)), " volume: [//////////] 100% ");
    assert_eq!(text(&audio_bar(0, 27)), " volume: [          ]   0% ");
    assert_eq!(text(&audio_bar(7, 27)), " volume: [/         ]   7% ");
}

#[test]
fn volume_bar_rounds_halves_up() {
    assert_eq!(text(&audio_bar(4, 27)), " volume: [          ]   4% ");
    assert_eq!(text(&audio_bar(5, 27)), " volume: [/         ]   5% ");
    assert_eq!(text(&audio_bar(95, 27)), " volume: [//////////]  95% ");
    assert_eq!(text(&audio_bar(94, 27)), " volume: [///////// ]  94% ");
}

#[test]
fn volume_above_full_fills_the_bar_and_reads_above_a_hundred() {
    assert_eq!(text(&audio_bar(150, 27)), " volume: [//////////] 150% ");
    assert_eq!(text(&audio_bar(1000, 27)), " volume: [/////////] 1000% ");
}

#[test]
fn volume_below_zero_empties_the_bar_and_reads_its_magnitude() {
    assert_eq!(text(&audio_bar(-30, 27)), " volume: [          ]  30% ");
    assert_eq!(text(&audio_bar(-1, 27)), " volume: [          ]   1% ");
    let row = audio_bar(i32::MIN, 40);
    assert_eq!(row.len(), 40);
    assert!(text(&row).ends_with("] 2147483648% "));
}

#[test]
fn action_row_names_the_track_in_bold() {
    let row = action(&playing("Song"), 27);
    assert_eq!(text(&row), "playing Song               ");
    assert_eq!(bold(&row), "Song");
    let mut snapshot = playing("Song");
    snapshot.paused = true;
    let row = action(&snapshot, 27);
    assert_eq!(text(&row), "paused Song                ");
    assert_eq!(bold(&row), "Song");
}

#[test]
fn action_row_while_loading() {
    let mut snapshot = playing("Song");
    snapshot.track = None;
    let row = action(&snapshot, 27);
    assert_eq!(text(&row), "loading                    ");
    assert_eq!(bold(&row), "");
    snapshot.paused = true;
    assert_eq!(text(&action(&snapshot, 27)), "loading                    ");
}

#[test]
fn action_row_cuts_a_long_title() {
    let row = action(&playing("abcdefghijklmnopqrstuvwxyz0123"), 27);
    assert_eq!(text(&row), "playing abcdefghijklmnop...");
    assert_eq!(bold(&row), "abcdefghijklmnop");
    let row = action(&playing("abcdefghijklmnopqrs"), 27);
    assert_eq!(text(&row), "playing abcdefghijklmnopqrs");
    let row = action(&playing("abcdefghijklmnopqrst"), 27);
    assert_eq!(text(&row), "playing abcdefghijklmnop...");
}

#[test]
fn action_row_counts_characters_not_bytes() {
    let row = action(&playing("Éléphant ☃ 音楽"), 27);
    assert_eq!(row.len(), 27);
    assert_eq!(text(&row), "playing Éléphant ☃ 音楽      ");
    let row = action(&playing("音楽音楽音楽音楽"), 12);
    assert_eq!(text(&row), "playing 音...");
}

#[test]
fn action_row_in_a_very_narrow_panel() {
    assert_eq!(text(&action(&playing("Song"), 0)), "");
    assert_eq!(text(&action(&playing("Song"), 1)), ".");
    assert_eq!(text(&action(&playing("Song"), 2)), "..");
    assert_eq!(text(&action(&playing("Song"), 3)), "...");
    assert_eq!(text(&action(&playing("Song"), 4)), "p...");
    assert_eq!(text(&action(&playing("Song"), 12)), "playing Song");
    assert_eq!(text(&action(&playing("Song"), 11)), "playing ...");
}

#[test]
fn controls_row_spreads_the_legend() {
    let row = controls(27);
    assert_eq!(text(&row), "[s]kip    [p]ause    [q]uit");
    assert_eq!(bold(&row), "[s][p][q]");
    assert_eq!(text(&controls(26)), "[s]kip   [p]ause   [q]uit ");
    assert_eq!(text(&controls(19)), "[s]kip[p]ause[q]uit");
    assert_eq!(text(&controls(20)), "[s]kip[p]ause[q]uit ");
    assert_eq!(text(&controls(73)).len(), 73);
}

#[test]
fn controls_row_in_a_narrow_panel_is_cut() {
    assert_eq!(text(&controls(10)), "[s]kip[p]a");
    assert_eq!(text(&controls(0)), "");
    assert_eq!(text(&controls(18)), "[s]kip[p]ause[q]ui");
}

#[test]
fn every_row_fills_its_width() {
    let snapshots = [
        playing("Song"),
        playing(""),
        playing("a title that is longer than any panel could ever show in one row, by far"),
        Snapshot { track: None, paused: true, elapsed: 0, duration: None, volume: -100 },
        Snapshot {
            track: Some("x".to_string()),
            paused: true,
            elapsed: u64::MAX,
            duration: Some(u64::MAX),
            volume: i32::MAX,
        },
    ];
    for snapshot in snapshots.iter() {
        for width in 0..=100usize {
            assert_eq!(action(snapshot, width).len(), width);
            assert_eq!(progress_bar(snapshot, width).len(), width);
            assert_eq!(audio_bar(snapshot.volume, width).len(), width);
            assert_eq!(controls(width).len(), width);
        }
    }
}
