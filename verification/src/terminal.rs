//! The operations that the interface asks of the terminal, and a model of the
//! terminal modes that they change.

use vstd::prelude::*;

verus! {

/// One operation on the terminal. The library names it; the caller performs it.
#[derive(Clone, Copy, Debug, PartialEq, Eq, Structural)]
pub enum TermOp {
    /// Hide the cursor.
    HideCursor,
    /// Switch to the alternate screen buffer and move the cursor to its top
    /// left corner.
    EnterAlternateScreen,
    /// Turn on raw input: no line buffering, no echo, no signal keys.
    EnableRawMode,
    /// Ask the terminal whether it can tell escape codes apart from key
    /// presses that look like them.
    ProbeEnhancement,
    /// Push the keyboard enhancement flag that was probed for.
    PushEnhancement,
    /// Pop the keyboard enhancement flag.
    PopEnhancement,
    /// Return from the alternate screen buffer.
    LeaveAlternateScreen,
    /// Erase everything from the cursor down.
    ClearBelow,
    /// Show the cursor.
    ShowCursor,
    /// Turn off raw input.
    DisableRawMode,
    /// Print the farewell.
    Farewell,
}

/// How an operation went.
#[derive(Clone, Copy, Debug, PartialEq, Eq, Structural)]
pub enum Outcome {
    /// It took effect. Of a probe: the terminal has the capability.
    Succeeded,
    /// The terminal lacks the capability. Only a probe is answered so; of any
    /// other operation this is a failure.
    Unsupported,
    /// It failed.
    Failed,
}

/// The line printed when the player leaves.
pub const FAREWELL: &'static str = "bye! :)";

/// The modes of a terminal, as far as the interface changes them.
#[derive(Clone, Copy, Debug, PartialEq, Eq, Structural)]
pub struct Terminal {
    pub cursor_hidden: bool,
    pub alternate_screen: bool,
    pub raw_mode: bool,
    /// How many keyboard enhancement flags are pushed.
    pub enhancement_flags: u32,
}

impl Terminal {
    /// The terminal once `op` has taken effect.
    pub open spec fn after(self, op: TermOp) -> Terminal {
        match op {
            TermOp::HideCursor => Terminal { cursor_hidden: true, ..self },
            TermOp::EnterAlternateScreen => Terminal { alternate_screen: true, ..self },
            TermOp::EnableRawMode => Terminal { raw_mode: true, ..self },
            TermOp::PushEnhancement => Terminal {
                enhancement_flags: if self.enhancement_flags < u32::MAX {
                    (self.enhancement_flags + 1) as u32
                } else {
                    self.enhancement_flags
                },
                ..self
            },
            TermOp::PopEnhancement => Terminal {
                enhancement_flags: if self.enhancement_flags > 0 {
                    (self.enhancement_flags - 1) as u32
                } else {
                    0
                },
                ..self
            },
            TermOp::LeaveAlternateScreen => Terminal { alternate_screen: false, ..self },
            TermOp::ShowCursor => Terminal { cursor_hidden: false, ..self },
            TermOp::DisableRawMode => Terminal { raw_mode: false, ..self },
            TermOp::ProbeEnhancement | TermOp::ClearBelow | TermOp::Farewell => self,
        }
    }

    /// The terminal once each of `ops` has taken effect, in order.
    pub open spec fn after_all(self, ops: Seq<TermOp>) -> Terminal
        decreases ops.len(),
    {
        if ops.len() == 0 {
            self
        } else {
            self.after_all(ops.drop_last()).after(ops.last())
        }
    }

    /// A terminal as a shell leaves it: cursor shown, main screen, cooked
    /// input. It may hold flags that others have pushed.
    pub open spec fn is_plain(self) -> bool {
        !self.cursor_hidden && !self.alternate_screen && !self.raw_mode
    }

    /// A plain terminal on which no flag is pushed.
    pub open spec fn is_pristine(self) -> bool {
        self.is_plain() && self.enhancement_flags == 0
    }

    /// A pristine terminal.
    pub fn new() -> (terminal: Terminal)
        ensures
            terminal.is_pristine(),
    {
        Terminal {
            cursor_hidden: false,
            alternate_screen: false,
            raw_mode: false,
            enhancement_flags: 0,
        }
    }

    /// Lets `op` take effect.
    pub fn apply(&mut self, op: TermOp)
        ensures
            *final(self) == old(self).after(op),
    {
        match op {
            TermOp::HideCursor => {
                self.cursor_hidden = true;
            },
            TermOp::EnterAlternateScreen => {
                self.alternate_screen = true;
            },
            TermOp::EnableRawMode => {
                self.raw_mode = true;
            },
            TermOp::PushEnhancement => {
                if self.enhancement_flags < u32::MAX {
                    self.enhancement_flags = self.enhancement_flags + 1;
                }
            },
            TermOp::PopEnhancement => {
                if self.enhancement_flags > 0 {
                    self.enhancement_flags = self.enhancement_flags - 1;
                }
            },
            TermOp::LeaveAlternateScreen => {
                self.alternate_screen = false;
            },
            TermOp::ShowCursor => {
                self.cursor_hidden = false;
            },
            TermOp::DisableRawMode => {
                self.raw_mode = false;
            },
            TermOp::ProbeEnhancement => {},
            TermOp::ClearBelow => {},
            TermOp::Farewell => {},
        }
    }

    /// Lets each of `ops` take effect, in order.
    pub fn apply_all(&mut self, ops: &Vec<TermOp>)
        ensures
            *final(self) == old(self).after_all(ops@),
    {
        let mut done: usize = 0;
        while done < ops.len()
            invariant
                done <= ops.len(),
                *self == old(self).after_all(ops@.take(done as int)),
            decreases ops.len() - done,
        {
            proof {
                assert(ops@.take(done + 1).drop_last() == ops@.take(done as int));
            }
            self.apply(ops[done]);
            done = done + 1;
        }
        proof {
            assert(ops@.take(done as int) == ops@);
        }
    }
}

/// Operations that take effect one list after the other take effect as one
/// list.
pub proof fn lemma_after_all_concat(terminal: Terminal, first: Seq<TermOp>, second: Seq<TermOp>)
    ensures
        terminal.after_all(first + second) == terminal.after_all(first).after_all(second),
    decreases second.len(),
{
    if second.len() == 0 {
        assert(first + second == first);
    } else {
        lemma_after_all_concat(terminal, first, second.drop_last());
        assert((first + second).drop_last() == first + second.drop_last());
    }
}

} // verus!
