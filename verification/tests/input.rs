use player_ui::command::Command;
use player_ui::input::{
    map_key, InputEvent, Key, KeyPress, Listener, ListenerStep, MediaKey, Modifiers,
};
use player_ui::timer::VolumeTimer;

fn press(key: Key) -> KeyPress {
    KeyPress { key, modifiers: Modifiers::none() }
}

fn fraction(command: Command) -> f32 {
    match command {
        Command::AdjustVolume(hundredths) => hundredths as f32 / 100.0,
        _ => panic!("not a change of volume"),
    }
}

#[test]
fn arrows_change_the_volume() {
    assert_eq!(map_key(press(Key::Up)), Some(Command::AdjustVolume(10)));
    assert_eq!(map_key(press(Key::Right)), Some(Command::AdjustVolume(1)));
    assert_eq!(map_key(press(Key::Down)), Some(Command::AdjustVolume(-10)));
    assert_eq!(map_key(press(Key::Left)), Some(Command::AdjustVolume(-1)));
}

#[test]
fn volume_changes_as_fractions() {
    assert_eq!(fraction(map_key(press(Key::Up)).unwrap()), 0.1);
    assert_eq!(fraction(map_key(press(Key::Right)).unwrap()), 0.01);
    assert_eq!(fraction(map_key(press(Key::Down)).unwrap()), -0.1);
    assert_eq!(fraction(map_key(press(Key::Left)).unwrap()), -0.01);
    assert_eq!(fraction(map_key(press(Key::Media(MediaKey::MuteVolume))).unwrap()), -1.0);
}

#[test]
fn letters_map_to_commands() {
    assert_eq!(map_key(press(Key::Char('q'))), Some(Command::Quit));
    assert_eq!(map_key(press(Key::Char('s'))), Some(Command::SkipNext));
    assert_eq!(map_key(press(Key::Char('n'))), Some(Command::SkipNext));
    assert_eq!(map_key(press(Key::Char('p'))), Some(Command::TogglePlayPause));
}

#[test]
fn signs_change_the_volume() {
    assert_eq!(map_key(press(Key::Char('+'))), Some(Command::AdjustVolume(10)));
    assert_eq!(map_key(press(Key::Char('='))), Some(Command::AdjustVolume(10)));
    assert_eq!(map_key(press(Key::Char('-'))), Some(Command::AdjustVolume(-10)));
    assert_eq!(map_key(press(Key::Char('_'))), Some(Command::AdjustVolume(-10)));
}

#[test]
fn capitals_map_as_small_letters() {
    assert_eq!(map_key(press(Key::Char('Q'))), Some(Command::Quit));
    assert_eq!(map_key(press(Key::Char('S'))), Some(Command::SkipNext));
    assert_eq!(map_key(press(Key::Char('N'))), Some(Command::SkipNext));
    assert_eq!(map_key(press(Key::Char('P'))), Some(Command::TogglePlayPause));
    for letter in 'a'..='z' {
        let capital = letter.to_ascii_uppercase();
        assert_eq!(map_key(press(Key::Char(letter))), map_key(press(Key::Char(capital))));
        let with_control = |ch| KeyPress { key: Key::Char(ch), modifiers: Modifiers::control() };
        assert_eq!(map_key(with_control(letter)), map_key(with_control(capital)));
    }
}

#[test]
fn control_c_quits() {
    let control = Modifiers::control();
    assert_eq!(map_key(KeyPress { key: Key::Char('c'), modifiers: control }), Some(Command::Quit));
    assert_eq!(map_key(KeyPress { key: Key::Char('C'), modifiers: control }), Some(Command::Quit));
}

#[test]
fn c_without_control_alone_is_ignored() {
    assert_eq!(map_key(press(Key::Char('c'))), None);
    let mut modifiers = Modifiers::control();
    modifiers.shift = true;
    assert_eq!(map_key(KeyPress { key: Key::Char('c'), modifiers }), None);
    let mut modifiers = Modifiers::control();
    modifiers.alt = true;
    assert_eq!(map_key(KeyPress { key: Key::Char('C'), modifiers }), None);
    let mut modifiers = Modifiers::none();
    modifiers.alt = true;
    assert_eq!(map_key(KeyPress { key: Key::Char('c'), modifiers }), None);
}

#[test]
fn modifiers_do_not_matter_for_other_keys() {
    let mut modifiers = Modifiers::none();
    modifiers.shift = true;
    modifiers.meta = true;
    assert_eq!(map_key(KeyPress { key: Key::Char('q'), modifiers }), Some(Command::Quit));
    assert_eq!(map_key(KeyPress { key: Key::Up, modifiers }), Some(Command::AdjustVolume(10)));
    assert_eq!(
        map_key(KeyPress { key: Key::Char('q'), modifiers: Modifiers::control() }),
        Some(Command::Quit)
    );
}

#[test]
fn media_keys_map_to_commands() {
    let media = |key| map_key(press(Key::Media(key)));
    assert_eq!(media(MediaKey::Play), Some(Command::TogglePlayPause));
    assert_eq!(media(MediaKey::Pause), Some(Command::TogglePlayPause));
    assert_eq!(media(MediaKey::PlayPause), Some(Command::TogglePlayPause));
    assert_eq!(media(MediaKey::Stop), Some(Command::TogglePlayPause));
    assert_eq!(media(MediaKey::TrackNext), Some(Command::SkipNext));
    assert_eq!(media(MediaKey::LowerVolume), Some(Command::AdjustVolume(-10)));
    assert_eq!(media(MediaKey::RaiseVolume), Some(Command::AdjustVolume(10)));
    assert_eq!(media(MediaKey::MuteVolume), Some(Command::AdjustVolume(-100)));
}

#[test]
fn other_keys_are_ignored() {
    assert_eq!(map_key(press(Key::Other)), None);
    assert_eq!(map_key(press(Key::Char('x'))), None);
    assert_eq!(map_key(press(Key::Char(' '))), None);
    assert_eq!(map_key(press(Key::Char('é'))), None);
    assert_eq!(map_key(press(Key::Media(MediaKey::Reverse))), None);
    assert_eq!(map_key(press(Key::Media(MediaKey::FastForward))), None);
    assert_eq!(map_key(press(Key::Media(MediaKey::Rewind))), None);
    assert_eq!(map_key(press(Key::Media(MediaKey::TrackPrevious))), None);
    assert_eq!(map_key(press(Key::Media(MediaKey::Record))), None);
}

#[test]
fn mapping_is_deterministic() {
    let keys = [
        Key::Up,
        Key::Down,
        Key::Left,
        Key::Right,
        Key::Char('q'),
        Key::Char('c'),
        Key::Char('+'),
        Key::Media(MediaKey::MuteVolume),
        Key::Other,
    ];
    for key in keys {
        for modifiers in [Modifiers::none(), Modifiers::control()] {
            let first = map_key(KeyPress { key, modifiers });
            for _ in 0..3 {
                assert_eq!(map_key(KeyPress { key, modifiers }), first);
            }
        }
    }
}

#[test]
fn up_arrow_delivers_one_command_and_arms_the_timer() {
    let listener = Listener::new();
    let mut timer = VolumeTimer::new();
    let step = listener.on_input(&mut timer, InputEvent::Key(press(Key::Up)));
    assert_eq!(step, ListenerStep::Deliver(Command::AdjustVolume(10)));
    match step {
        ListenerStep::Deliver(command) => assert_eq!(fraction(command), 0.10),
        _ => unreachable!(),
    }
    assert_eq!(timer.frames(), 1);
}

#[test]
fn every_volume_change_arms_the_timer_before_delivery() {
    let keys = [
        Key::Up,
        Key::Down,
        Key::Left,
        Key::Right,
        Key::Char('+'),
        Key::Char('='),
        Key::Char('-'),
        Key::Char('_'),
        Key::Media(MediaKey::LowerVolume),
        Key::Media(MediaKey::RaiseVolume),
        Key::Media(MediaKey::MuteVolume),
    ];
    for key in keys {
        let listener = Listener::new();
        let mut timer = VolumeTimer::new();
        let step = listener.on_input(&mut timer, InputEvent::Key(press(key)));
        assert!(matches!(step, ListenerStep::Deliver(Command::AdjustVolume(_))));
        assert!(timer.is_active());
        assert_eq!(timer.frames(), 1);
    }
}

#[test]
fn volume_change_rearms_a_running_timer() {
    let listener = Listener::new();
    let mut timer = VolumeTimer::new();
    timer.arm();
    for _ in 0..6 {
        timer.tick();
    }
    listener.on_input(&mut timer, InputEvent::Key(press(Key::Down)));
    assert_eq!(timer.frames(), 1);
}

#[test]
fn other_commands_leave_the_timer_alone() {
    let listener = Listener::new();
    let mut timer = VolumeTimer::new();
    for key in [Key::Char('q'), Key::Char('s'), Key::Char('p'), Key::Other, Key::Char('x')] {
        listener.on_input(&mut timer, InputEvent::Key(press(key)));
        assert_eq!(timer.frames(), 0);
    }
    timer.arm();
    timer.tick();
    listener.on_input(&mut timer, InputEvent::Key(press(Key::Char('p'))));
    assert_eq!(timer.frames(), 2);
}

#[test]
fn events_that_are_no_key_press_are_passed_over() {
    let listener = Listener::new();
    let mut timer = VolumeTimer::new();
    assert_eq!(listener.on_input(&mut timer, InputEvent::Other), ListenerStep::Await);
    assert_eq!(
        listener.on_input(&mut timer, InputEvent::Key(press(Key::Other))),
        ListenerStep::Await
    );
    assert_eq!(timer.frames(), 0);
}

#[test]
fn quit_is_delivered_like_any_command() {
    let mut listener = Listener::new();
    let mut timer = VolumeTimer::new();
    let step = listener.on_input(&mut timer, InputEvent::Key(press(Key::Char('q'))));
    assert_eq!(step, ListenerStep::Deliver(Command::Quit));
    assert_eq!(listener.on_delivery(true), ListenerStep::Await);
    assert!(!listener.is_stopped());
}

#[test]
fn failed_delivery_stops_the_listener() {
    let mut listener = Listener::new();
    let mut timer = VolumeTimer::new();
    assert_eq!(listener.on_delivery(true), ListenerStep::Await);
    assert!(!listener.is_stopped());
    assert_eq!(listener.on_delivery(false), ListenerStep::Stop);
    assert!(listener.is_stopped());
    assert_eq!(listener.on_delivery(true), ListenerStep::Stop);
    assert!(listener.is_stopped());
    let step = listener.on_input(&mut timer, InputEvent::Key(press(Key::Up)));
    assert_eq!(step, ListenerStep::Stop);
    assert_eq!(timer.frames(), 0);
}
