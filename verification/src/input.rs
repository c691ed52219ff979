//! The input listener: which command a key press stands for, and what the
//! listener does with each event that reaches it.

use vstd::prelude::*;
use crate::command::{Command, MUTE, NUDGE_DOWN, NUDGE_UP, STEP_DOWN, STEP_UP};
use crate::timer::VolumeTimer;

verus! {

/// A media key of the keyboard.
#[derive(Clone, Copy, Debug, PartialEq, Eq, Structural)]
pub enum MediaKey {
    Play,
    Pause,
    PlayPause,
    Reverse,
    Stop,
    FastForward,
    Rewind,
    TrackNext,
    TrackPrevious,
    Record,
    LowerVolume,
    RaiseVolume,
    MuteVolume,
}

/// The key of a key press, as far as the listener tells keys apart.
#[derive(Clone, Copy, Debug, PartialEq, Eq, Structural)]
pub enum Key {
    Up,
    Down,
    Left,
    Right,
    /// A key that produces a character.
    Char(char),
    Media(MediaKey),
    /// Any other key.
    Other,
}

/// The modifier keys held down during a key press.
#[derive(Clone, Copy, Debug, PartialEq, Eq, Structural)]
pub struct Modifiers {
    pub shift: bool,
    pub control: bool,
    pub alt: bool,
    pub logo: bool,
    pub hyper: bool,
    pub meta: bool,
}

impl Modifiers {
    /// Whether Control is held down, and no other modifier.
    pub open spec fn control_alone(self) -> bool {
        self.control && !self.shift && !self.alt && !self.logo && !self.hyper && !self.meta
    }

    /// Whether Control is held down, and no other modifier.
    #[verifier::when_used_as_spec(control_alone)]
    pub fn is_control_alone(self) -> (alone: bool)
        ensures
            alone == self.control_alone(),
    {
        self.control && !self.shift && !self.alt && !self.logo && !self.hyper && !self.meta
    }

    /// No modifier held down.
    pub fn none() -> (modifiers: Modifiers)
        ensures
            modifiers == (Modifiers {
                shift: false,
                control: false,
                alt: false,
                logo: false,
                hyper: false,
                meta: false,
            }),
    {
        Modifiers { shift: false, control: false, alt: false, logo: false, hyper: false, meta: false }
    }

    /// Control held down, and no other modifier.
    pub fn control() -> (modifiers: Modifiers)
        ensures
            modifiers == (Modifiers {
                shift: false,
                control: true,
                alt: false,
                logo: false,
                hyper: false,
                meta: false,
            }),
            modifiers.control_alone(),
    {
        Modifiers { shift: false, control: true, alt: false, logo: false, hyper: false, meta: false }
    }
}

/// One key press.
#[derive(Clone, Copy, Debug, PartialEq, Eq, Structural)]
pub struct KeyPress {
    pub key: Key,
    pub modifiers: Modifiers,
}

/// One event from the terminal.
#[derive(Clone, Copy, Debug, PartialEq, Eq, Structural)]
pub enum InputEvent {
    Key(KeyPress),
    /// Anything that is not a key press: a resize, the mouse, a change of
    /// focus, an event that could not be read.
    Other,
}

/// The lower-case form of an ASCII capital letter; any other character itself.
pub open spec fn ascii_lower(c: char) -> char {
    if 'A' as u32 <= c as u32 && c as u32 <= 'Z' as u32 {
        (c as u32 + 32) as char
    } else {
        c
    }
}

/// `char::to_ascii_lowercase` of std maps the ASCII letters `A` to `Z` to `a` to
/// `z` and leaves every other character as it is.
pub assume_specification[ char::to_ascii_lowercase ](c: &char) -> (lower: char)
    ensures
        lower == ascii_lower(*c),
;

/// The command that a character key stands for, by its lower-case form.
pub open spec fn command_for_char(lower: char, modifiers: Modifiers) -> Option<Command> {
    if lower == 'c' && modifiers.control_alone() {
        Some(Command::Quit)
    } else if lower == 'q' {
        Some(Command::Quit)
    } else if lower == 's' || lower == 'n' {
        Some(Command::SkipNext)
    } else if lower == 'p' {
        Some(Command::TogglePlayPause)
    } else if lower == '+' || lower == '=' {
        Some(Command::AdjustVolume(STEP_UP))
    } else if lower == '-' || lower == '_' {
        Some(Command::AdjustVolume(STEP_DOWN))
    } else {
        None
    }
}

/// The command that a media key stands for.
pub open spec fn command_for_media(media: MediaKey) -> Option<Command> {
    match media {
        MediaKey::Play | MediaKey::Pause | MediaKey::PlayPause | MediaKey::Stop => Some(
            Command::TogglePlayPause,
        ),
        MediaKey::TrackNext => Some(Command::SkipNext),
        MediaKey::LowerVolume => Some(Command::AdjustVolume(STEP_DOWN)),
        MediaKey::RaiseVolume => Some(Command::AdjustVolume(STEP_UP)),
        MediaKey::MuteVolume => Some(Command::AdjustVolume(MUTE)),
        _ => None,
    }
}

/// The command that a key press stands for, `None` where it stands for none.
///
/// Characters are matched by their lower-case form. Of the modifiers only
/// Control counts, and only for the letter C.
pub open spec fn command_for(press: KeyPress) -> Option<Command> {
    match press.key {
        Key::Up => Some(Command::AdjustVolume(STEP_UP)),
        Key::Right => Some(Command::AdjustVolume(NUDGE_UP)),
        Key::Down => Some(Command::AdjustVolume(STEP_DOWN)),
        Key::Left => Some(Command::AdjustVolume(NUDGE_DOWN)),
        Key::Char(character) => command_for_char(ascii_lower(character), press.modifiers),
        Key::Media(media) => command_for_media(media),
        Key::Other => None,
    }
}

/// The command that an event stands for: that of its key press, where it is one.
pub open spec fn command_for_event(event: InputEvent) -> Option<Command> {
    match event {
        InputEvent::Key(press) => command_for(press),
        InputEvent::Other => None,
    }
}

fn map_char(character: char, modifiers: Modifiers) -> (command: Option<Command>)
    ensures
        command == command_for_char(ascii_lower(character), modifiers),
{
    let lower = character.to_ascii_lowercase();
    if lower == 'c' && modifiers.is_control_alone() {
        Some(Command::Quit)
    } else if lower == 'q' {
        Some(Command::Quit)
    } else if lower == 's' || lower == 'n' {
        Some(Command::SkipNext)
    } else if lower == 'p' {
        Some(Command::TogglePlayPause)
    } else if lower == '+' || lower == '=' {
        Some(Command::AdjustVolume(STEP_UP))
    } else if lower == '-' || lower == '_' {
        Some(Command::AdjustVolume(STEP_DOWN))
    } else {
        None
    }
}

fn map_media(media: MediaKey) -> (command: Option<Command>)
    ensures
        command == command_for_media(media),
{
    match media {
        MediaKey::Play => Some(Command::TogglePlayPause),
        MediaKey::Pause => Some(Command::TogglePlayPause),
        MediaKey::PlayPause => Some(Command::TogglePlayPause),
        MediaKey::Stop => Some(Command::TogglePlayPause),
        MediaKey::TrackNext => Some(Command::SkipNext),
        MediaKey::LowerVolume => Some(Command::AdjustVolume(STEP_DOWN)),
        MediaKey::RaiseVolume => Some(Command::AdjustVolume(STEP_UP)),
        MediaKey::MuteVolume => Some(Command::AdjustVolume(MUTE)),
        _ => None,
    }
}

/// Maps a key press to the command it stands for.
pub fn map_key(press: KeyPress) -> (command: Option<Command>)
    ensures
        command == command_for(press),
{
    match press.key {
        Key::Up => Some(Command::AdjustVolume(STEP_UP)),
        Key::Right => Some(Command::AdjustVolume(NUDGE_UP)),
        Key::Down => Some(Command::AdjustVolume(STEP_DOWN)),
        Key::Left => Some(Command::AdjustVolume(NUDGE_DOWN)),
        Key::Char(character) => map_char(character, press.modifiers),
        Key::Media(media) => map_media(media),
        Key::Other => None,
    }
}

/// The mapping does not tell a capital letter from its small one: two
/// characters with the same lower-case form, pressed with the same modifiers,
/// stand for the same command.
pub proof fn lemma_case_insensitive(a: char, b: char, modifiers: Modifiers)
    requires
        ascii_lower(a) == ascii_lower(b),
    ensures
        command_for(KeyPress { key: Key::Char(a), modifiers }) == command_for(
            KeyPress { key: Key::Char(b), modifiers },
        ),
{
}

/// A capital ASCII letter stands for what its small letter stands for.
pub proof fn lemma_capital_as_small(capital: char, modifiers: Modifiers)
    requires
        'A' as u32 <= capital as u32 <= 'Z' as u32,
    ensures
        command_for(KeyPress { key: Key::Char(capital), modifiers }) == command_for(
            KeyPress { key: Key::Char((capital as u32 + 32) as char), modifiers },
        ),
{
    let small = (capital as u32 + 32) as char;
    assert(small as u32 == capital as u32 + 32);
    assert(ascii_lower(small) == small);
}

/// What the listener does next.
#[derive(Clone, Copy, Debug, PartialEq, Eq, Structural)]
pub enum ListenerStep {
    /// Wait for the next event from the terminal.
    Await,
    /// Hand this command to the playback engine, and report how that went.
    Deliver(Command),
    /// End the listener: the engine is gone.
    Stop,
}

/// The input listener. It listens until a command cannot be delivered, and is
/// stopped from then on.
#[derive(Clone, Copy, Debug)]
pub struct Listener {
    stopped: bool,
}

impl Listener {
    /// Whether the listener has ended.
    pub closed spec fn stopped(&self) -> bool {
        self.stopped
    }

    /// A listener that listens.
    pub fn new() -> (listener: Listener)
        ensures
            !listener.stopped(),
    {
        Listener { stopped: false }
    }

    /// Whether the listener has ended.
    #[verifier::when_used_as_spec(stopped)]
    pub fn is_stopped(&self) -> (stopped: bool)
        ensures
            stopped == self.stopped(),
    {
        self.stopped
    }

    /// Takes one event from the terminal.
    ///
    /// An event that stands for a command has that command delivered; any other
    /// is passed over. A command that changes the volume arms `timer` here, so
    /// that the timer runs by the time the command is on its way.
    pub fn on_input(&self, timer: &mut VolumeTimer, event: InputEvent) -> (step: ListenerStep)
        ensures
            self.stopped() ==> step == ListenerStep::Stop,
            !self.stopped() ==> step == match command_for_event(event) {
                Some(command) => ListenerStep::Deliver(command),
                None => ListenerStep::Await,
            },
            final(timer)@ == if step matches ListenerStep::Deliver(command)
                && command.adjusts_volume() {
                1
            } else {
                old(timer)@
            },
            step matches ListenerStep::Deliver(Command::AdjustVolume(_)) ==> final(timer)@ != 0,
    {
        if self.stopped {
            return ListenerStep::Stop;
        }
        let command = match event {
            InputEvent::Key(press) => map_key(press),
            InputEvent::Other => None,
        };
        match command {
            Some(command) => {
                if command.changes_volume() {
                    timer.arm();
                }
                ListenerStep::Deliver(command)
            },
            None => ListenerStep::Await,
        }
    }

    /// Takes the outcome of a delivery. A command that could not be delivered
    /// ends the listener.
    pub fn on_delivery(&mut self, delivered: bool) -> (step: ListenerStep)
        ensures
            final(self).stopped() == (old(self).stopped() || !delivered),
            step == if final(self).stopped() {
                ListenerStep::Stop
            } else {
                ListenerStep::Await
            },
    {
        if !delivered {
            self.stopped = true;
        }
        if self.stopped {
            ListenerStep::Stop
        } else {
            ListenerStep::Await
        }
    }
}

} // verus!
