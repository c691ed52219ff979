use player_ui::glyph::Glyph;
use player_ui::layout::Snapshot;
use player_ui::render::frame;
use player_ui::timer::VolumeTimer;

fn line(row: &[Glyph]) -> String {
    row.iter().map(|glyph| glyph.ch).collect()
}

fn snapshot() -> Snapshot {
    Snapshot {
        track: Some("Song".to_string()),
        paused: false,
        elapsed: 30,
        duration: Some(60),
        volume: 50,
    }
}

#[test]
fn frame_boxes_three_rows() {
    let mut timer = VolumeTimer::new();
    let drawn = frame(&mut timer, &snapshot(), Some(31), false);
    let lines: Vec<String> = drawn.lines.iter().map(|row| line(row)).collect();
    assert_eq!(
        lines,
        vec![
            "┌─────────────────────────────┐".to_string(),
            "│ playing Song                │".to_string(),
            "│  [//////     ] 00:30/01:00  │".to_string(),
            "│ [s]kip    [p]ause    [q]uit │".to_string(),
            "└─────────────────────────────┘".to_string(),
        ]
    );
    assert_eq!(drawn.rewind, 4);
}

#[test]
fn minimalist_frame_has_no_controls() {
    let mut timer = VolumeTimer::new();
    let drawn = frame(&mut timer, &snapshot(), Some(31), true);
    let lines: Vec<String> = drawn.lines.iter().map(|row| line(row)).collect();
    assert_eq!(
        lines,
        vec![
            "┌─────────────────────────────┐".to_string(),
            "│ playing Song                │".to_string(),
            "│  [//////     ] 00:30/01:00  │".to_string(),
            "└─────────────────────────────┘".to_string(),
        ]
    );
    assert_eq!(drawn.rewind, 3);
}

#[test]
fn frame_shows_the_volume_while_the_timer_runs() {
    let mut timer = VolumeTimer::new();
    timer.arm();
    let drawn = frame(&mut timer, &snapshot(), Some(31), false);
    assert_eq!(line(&drawn.lines[2]), "│  volume: [/////     ]  50%  │");
    assert_eq!(timer.frames(), 2);
}

#[test]
fn frame_ticks_the_timer_once() {
    let mut timer = VolumeTimer::new();
    frame(&mut timer, &snapshot(), Some(31), false);
    assert_eq!(timer.frames(), 0);
    timer.arm();
    frame(&mut timer, &snapshot(), None, true);
    assert_eq!(timer.frames(), 2);
    frame(&mut timer, &snapshot(), None, true);
    assert_eq!(timer.frames(), 3);
}

#[test]
fn frame_falls_back_when_the_width_is_unknown() {
    let mut timer = VolumeTimer::new();
    let drawn = frame(&mut timer, &snapshot(), None, false);
    for row in drawn.lines.iter() {
        assert_eq!(row.len(), 31);
    }
}

#[test]
fn frame_is_a_rectangle_in_every_terminal() {
    for columns in 0..120u16 {
        for minimalist in [false, true] {
            for armed in [false, true] {
                let mut timer = VolumeTimer::new();
                if armed {
                    timer.arm();
                }
                let drawn = frame(&mut timer, &snapshot(), Some(columns), minimalist);
                let width = (columns as i64 - 4).clamp(0, 73) as usize;
                assert_eq!(drawn.lines.len(), if minimalist { 4 } else { 5 });
                assert_eq!(drawn.rewind as usize, drawn.lines.len() - 1);
                for row in drawn.lines.iter() {
                    assert_eq!(row.len(), width + 4);
                }
            }
        }
    }
}

#[test]
fn frame_in_the_narrowest_terminal_is_all_border() {
    let mut timer = VolumeTimer::new();
    let drawn = frame(&mut timer, &snapshot(), Some(3), false);
    let lines: Vec<String> = drawn.lines.iter().map(|row| line(row)).collect();
    assert_eq!(lines, vec!["┌──┐", "│  │", "│  │", "│  │", "└──┘"]);
}

#[test]
fn only_the_title_and_the_keys_are_bold() {
    let mut timer = VolumeTimer::new();
    let drawn = frame(&mut timer, &snapshot(), Some(31), false);
    let bold: Vec<String> = drawn
        .lines
        .iter()
        .map(|row| row.iter().filter(|glyph| glyph.bold).map(|glyph| glyph.ch).collect())
        .collect();
    assert_eq!(bold, vec!["", "Song", "", "[s][p][q]", ""]);
}

#[test]
fn overlay_stays_for_eleven_frames_after_one_arm() {
    let mut timer = VolumeTimer::new();
    timer.arm();
    for tick in 0..=10 {
        let drawn = frame(&mut timer, &snapshot(), Some(31), false);
        assert!(line(&drawn.lines[2]).contains("volume"), "tick {}", tick);
    }
    let drawn = frame(&mut timer, &snapshot(), Some(31), false);
    assert_eq!(line(&drawn.lines[2]), "│  [//////     ] 00:30/01:00  │");
    assert_eq!(timer.frames(), 0);
    let drawn = frame(&mut timer, &snapshot(), Some(31), false);
    assert!(!line(&drawn.lines[2]).contains("volume"));
}
