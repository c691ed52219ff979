//! The lifecycle of the terminal modes: what is applied at startup, in which
//! order, and how all of it is taken back.
//!
//! The environment never touches the terminal. It names the next operation, is
//! told how that went, and keeps track of what has been applied.

use vstd::prelude::*;
use crate::terminal::{lemma_after_all_concat, Outcome, TermOp, Terminal};

verus! {

/// Where an environment stands in its life.
#[derive(Clone, Copy, Debug, PartialEq, Eq, Structural)]
pub enum Phase {
    /// Startup is under way.
    Starting,
    /// Startup is complete.
    Ready,
    /// Startup was aborted by a failure; what was applied is still applied.
    Failed,
    /// Everything has been taken back.
    TornDown,
}

/// What an environment knows: its phase, and which changes are applied.
#[derive(Clone, Copy, Debug, PartialEq, Eq, Structural)]
pub struct State {
    pub phase: Phase,
    /// Whether the alternate screen was asked for.
    pub use_alternate: bool,
    /// Whether the cursor has been hidden.
    pub cursor_hidden: bool,
    /// Whether the alternate screen has been entered.
    pub alternate: bool,
    /// Whether raw input has been turned on.
    pub raw_mode: bool,
    /// What the probe for keyboard enhancement said, once it was made.
    pub support: Option<bool>,
    /// Whether the keyboard enhancement flag has been pushed.
    pub enhancement: bool,
}

impl State {
    /// The state in which startup begins: nothing is applied.
    pub open spec fn initial(use_alternate: bool) -> State {
        State {
            phase: Phase::Starting,
            use_alternate,
            cursor_hidden: false,
            alternate: false,
            raw_mode: false,
            support: None,
            enhancement: false,
        }
    }

    /// The first startup operation that has not been applied yet.
    pub open spec fn outstanding(self) -> Option<TermOp> {
        if !self.cursor_hidden {
            Some(TermOp::HideCursor)
        } else if self.use_alternate && !self.alternate {
            Some(TermOp::EnterAlternateScreen)
        } else if !self.raw_mode {
            Some(TermOp::EnableRawMode)
        } else if self.support is None {
            Some(TermOp::ProbeEnhancement)
        } else if self.support == Some(true) && !self.enhancement {
            Some(TermOp::PushEnhancement)
        } else {
            None
        }
    }

    /// The operation that the caller is to perform next: the outstanding one
    /// while startup is under way, none in any other phase.
    pub open spec fn pending(self) -> Option<TermOp> {
        if self.phase == Phase::Starting {
            self.outstanding()
        } else {
            None
        }
    }

    /// Whether `outcome` means that startup operation `op` did not take effect.
    pub open spec fn aborts(op: TermOp, outcome: Outcome) -> bool {
        outcome == Outcome::Failed || (outcome == Outcome::Unsupported && op
            != TermOp::ProbeEnhancement)
    }

    /// The state with startup operation `op` recorded as applied, `outcome`
    /// being the answer where `op` is the probe.
    pub open spec fn with_applied(self, op: TermOp, outcome: Outcome) -> State {
        match op {
            TermOp::HideCursor => State { cursor_hidden: true, ..self },
            TermOp::EnterAlternateScreen => State { alternate: true, ..self },
            TermOp::EnableRawMode => State { raw_mode: true, ..self },
            TermOp::ProbeEnhancement => State {
                support: Some(outcome == Outcome::Succeeded),
                ..self
            },
            TermOp::PushEnhancement => State { enhancement: true, ..self },
            _ => self,
        }
    }

    /// The state once the pending operation has ended in `outcome`.
    ///
    /// A failure aborts startup. A success is recorded, and startup is complete
    /// when nothing is outstanding any more. Outside startup nothing changes.
    pub open spec fn advanced(self, outcome: Outcome) -> State {
        match self.pending() {
            None => self,
            Some(op) => if Self::aborts(op, outcome) {
                State { phase: Phase::Failed, ..self }
            } else {
                let applied = self.with_applied(op, outcome);
                if applied.outstanding() is None {
                    State { phase: Phase::Ready, ..applied }
                } else {
                    applied
                }
            },
        }
    }

    /// The operations that take back what is applied, in the order in which
    /// they are to be attempted. Each is attempted whether or not the ones
    /// before it succeeded. An environment that is torn down has none.
    pub open spec fn cleanup_ops(self) -> Seq<TermOp> {
        if self.phase == Phase::TornDown {
            Seq::empty()
        } else {
            let pop = if self.enhancement {
                seq![TermOp::PopEnhancement]
            } else {
                Seq::empty()
            };
            let leave = if self.alternate {
                seq![TermOp::LeaveAlternateScreen]
            } else {
                Seq::empty()
            };
            let farewell = if self.phase == Phase::Ready {
                seq![TermOp::Farewell]
            } else {
                Seq::empty()
            };
            pop + leave + seq![TermOp::ClearBelow, TermOp::ShowCursor, TermOp::DisableRawMode]
                + farewell
        }
    }

    /// The state after cleanup: torn down, with nothing applied.
    pub open spec fn cleaned(self) -> State {
        State {
            phase: Phase::TornDown,
            use_alternate: self.use_alternate,
            cursor_hidden: false,
            alternate: false,
            raw_mode: false,
            support: self.support,
            enhancement: false,
        }
    }

    /// While startup is under way, an operation is outstanding.
    pub open spec fn well_formed(self) -> bool {
        self.phase == Phase::Starting ==> self.outstanding() is Some
    }

    /// The state once the caller has reported `outcomes`, one after the other.
    pub open spec fn driven(self, outcomes: Seq<Outcome>) -> State
        decreases outcomes.len(),
    {
        if outcomes.len() == 0 {
            self
        } else {
            self.driven(outcomes.drop_last()).advanced(outcomes.last())
        }
    }

    /// The operations that took effect on the terminal while the caller
    /// reported `outcomes`: each pending operation whose outcome was no failure.
    pub open spec fn effected(self, outcomes: Seq<Outcome>) -> Seq<TermOp>
        decreases outcomes.len(),
    {
        if outcomes.len() == 0 {
            Seq::empty()
        } else {
            let earlier = self.effected(outcomes.drop_last());
            match self.driven(outcomes.drop_last()).pending() {
                Some(op) => if Self::aborts(op, outcomes.last()) {
                    earlier
                } else {
                    earlier.push(op)
                },
                None => earlier,
            }
        }
    }
}

/// The operations of a startup on which nothing fails: hide the cursor, enter
/// the alternate screen if it was asked for, turn on raw input, probe, and push
/// the flag if the terminal has the capability.
pub open spec fn startup_plan(use_alternate: bool, supported: bool) -> Seq<TermOp> {
    let enter = if use_alternate {
        seq![TermOp::EnterAlternateScreen]
    } else {
        Seq::empty()
    };
    let push = if supported {
        seq![TermOp::PushEnhancement]
    } else {
        Seq::empty()
    };
    seq![TermOp::HideCursor] + enter + seq![TermOp::EnableRawMode, TermOp::ProbeEnhancement] + push
}

/// What a terminal on which nothing fails answers to each operation of `plan`.
pub open spec fn answers(plan: Seq<TermOp>, supported: bool) -> Seq<Outcome> {
    Seq::new(
        plan.len(),
        |i: int|
            if plan[i] == TermOp::ProbeEnhancement && !supported {
                Outcome::Unsupported
            } else {
                Outcome::Succeeded
            },
    )
}

/// The terminal environment of the interface.
#[derive(Clone, Copy, Debug)]
pub struct Environment {
    state: State,
}

impl View for Environment {
    type V = State;

    closed spec fn view(&self) -> State {
        self.state
    }
}

impl Environment {
    #[verifier::type_invariant]
    spec fn well_formed(self) -> bool {
        self.state.well_formed()
    }

    /// Begins startup. Nothing is applied yet; `pending` names the first
    /// operation.
    pub fn ready(use_alternate: bool) -> (environment: Environment)
        ensures
            environment@ == State::initial(use_alternate),
    {
        Environment {
            state: State {
                phase: Phase::Starting,
                use_alternate,
                cursor_hidden: false,
                alternate: false,
                raw_mode: false,
                support: None,
                enhancement: false,
            },
        }
    }

    /// The phase of the environment.
    pub fn phase(&self) -> (phase: Phase)
        ensures
            phase == self@.phase,
    {
        self.state.phase
    }

    /// Whether the alternate screen has been entered and not left.
    pub fn alternate(&self) -> (alternate: bool)
        ensures
            alternate == self@.alternate,
    {
        self.state.alternate
    }

    /// Whether the keyboard enhancement flag has been pushed and not popped.
    pub fn enhancement(&self) -> (enhancement: bool)
        ensures
            enhancement == self@.enhancement,
    {
        self.state.enhancement
    }

    fn outstanding(state: &State) -> (op: Option<TermOp>)
        ensures
            op == state.outstanding(),
    {
        if !state.cursor_hidden {
            Some(TermOp::HideCursor)
        } else if state.use_alternate && !state.alternate {
            Some(TermOp::EnterAlternateScreen)
        } else if !state.raw_mode {
            Some(TermOp::EnableRawMode)
        } else {
            match state.support {
                None => Some(TermOp::ProbeEnhancement),
                Some(supported) => if supported && !state.enhancement {
                    Some(TermOp::PushEnhancement)
                } else {
                    None
                },
            }
        }
    }

    /// The operation that the caller is to perform next. There is one as long
    /// as startup is under way, and none in any other phase.
    pub fn pending(&self) -> (op: Option<TermOp>)
        ensures
            op == self@.pending(),
            op is Some <==> self@.phase == Phase::Starting,
    {
        proof {
            use_type_invariant(self);
        }
        match self.state.phase {
            Phase::Starting => Self::outstanding(&self.state),
            _ => None,
        }
    }

    /// Records how the pending operation went, and returns the one that is
    /// pending then.
    pub fn advance(&mut self, outcome: Outcome) -> (next: Option<TermOp>)
        ensures
            final(self)@ == old(self)@.advanced(outcome),
            next == final(self)@.pending(),
    {
        match self.pending() {
            None => None,
            Some(op) => {
                let failed = match outcome {
                    Outcome::Failed => true,
                    Outcome::Unsupported => op != TermOp::ProbeEnhancement,
                    Outcome::Succeeded => false,
                };
                let mut state = self.state;
                if failed {
                    state.phase = Phase::Failed;
                } else {
                    match op {
                        TermOp::HideCursor => {
                            state.cursor_hidden = true;
                        },
                        TermOp::EnterAlternateScreen => {
                            state.alternate = true;
                        },
                        TermOp::EnableRawMode => {
                            state.raw_mode = true;
                        },
                        TermOp::ProbeEnhancement => {
                            state.support = Some(outcome == Outcome::Succeeded);
                        },
                        TermOp::PushEnhancement => {
                            state.enhancement = true;
                        },
                        _ => {},
                    }
                    if Self::outstanding(&state).is_none() {
                        state.phase = Phase::Ready;
                    }
                }
                self.state = state;
                self.pending()
            },
        }
    }

    /// Ends the environment: returns the operations that take back what is
    /// applied, and is torn down from then on.
    ///
    /// The caller attempts every one of them in order and passes over any
    /// failure. A second cleanup returns no operation.
    pub fn cleanup(&mut self) -> (ops: Vec<TermOp>)
        ensures
            ops@ == old(self)@.cleanup_ops(),
            final(self)@ == old(self)@.cleaned(),
    {
        let mut ops: Vec<TermOp> = Vec::new();
        if self.state.phase != Phase::TornDown {
            if self.state.enhancement {
                ops.push(TermOp::PopEnhancement);
            }
            if self.state.alternate {
                ops.push(TermOp::LeaveAlternateScreen);
            }
            ops.push(TermOp::ClearBelow);
            ops.push(TermOp::ShowCursor);
            ops.push(TermOp::DisableRawMode);
            if self.state.phase == Phase::Ready {
                ops.push(TermOp::Farewell);
            }
        }
        proof {
            assert(ops@ =~= old(self)@.cleanup_ops());
        }
        self.state = State {
            phase: Phase::TornDown,
            use_alternate: self.state.use_alternate,
            cursor_hidden: false,
            alternate: false,
            raw_mode: false,
            support: self.state.support,
            enhancement: false,
        };
        ops
    }
}

/// On a terminal on which nothing fails, startup performs the operations of
/// `startup_plan` in that order and is then ready, with the alternate screen
/// entered if it was asked for, raw input on, and the flag pushed if the
/// terminal has the capability.
pub proof fn lemma_startup_order(use_alternate: bool, supported: bool)
    ensures
        ({
            let plan = startup_plan(use_alternate, supported);
            let start = State::initial(use_alternate);
            let end = start.driven(answers(plan, supported));
            &&& start.effected(answers(plan, supported)) == plan
            &&& end == State {
                phase: Phase::Ready,
                use_alternate,
                cursor_hidden: true,
                alternate: use_alternate,
                raw_mode: true,
                support: Some(supported),
                enhancement: supported,
            }
        }),
{
    let plan = startup_plan(use_alternate, supported);
    let outcomes = answers(plan, supported);
    lemma_startup_prefix(use_alternate, supported, plan.len() as int);
    assert(outcomes.take(plan.len() as int) == outcomes);
    assert(plan.take(plan.len() as int) == plan);
}

proof fn lemma_startup_prefix(use_alternate: bool, supported: bool, n: int)
    requires
        0 <= n <= startup_plan(use_alternate, supported).len(),
    ensures
        ({
            let plan = startup_plan(use_alternate, supported);
            let outcomes = answers(plan, supported);
            let start = State::initial(use_alternate);
            let now = start.driven(outcomes.take(n));
            &&& start.effected(outcomes.take(n)) == plan.take(n)
            &&& now.use_alternate == use_alternate
            &&& now.cursor_hidden == (n >= 1)
            &&& now.alternate == (use_alternate && n >= 2)
            &&& now.raw_mode == (n >= (if use_alternate { 3int } else { 2int }))
            &&& now.support == (if n >= (if use_alternate { 4int } else { 3int }) {
                Some(supported)
            } else {
                None
            })
            &&& now.enhancement == (supported && n == plan.len())
            &&& now.phase == (if n == plan.len() { Phase::Ready } else { Phase::Starting })
            &&& now.pending() == (if n < plan.len() { Some(plan[n]) } else { None })
        }),
    decreases n,
{
    let plan = startup_plan(use_alternate, supported);
    let outcomes = answers(plan, supported);
    let start = State::initial(use_alternate);
    if n == 0 {
        assert(plan.take(0) =~= Seq::<TermOp>::empty());
    } else {
        lemma_startup_prefix(use_alternate, supported, n - 1);
        assert(outcomes.take(n).drop_last() == outcomes.take(n - 1));
        assert(outcomes.take(n).last() == outcomes[n - 1]);
        assert(plan.take(n) =~= plan.take(n - 1).push(plan[n - 1]));
    }
}

/// The environment keeps exact account of what it changed. However startup
/// went, on a terminal that started out plain the cursor is hidden, the
/// alternate screen entered and raw input on if and only if the environment
/// says so, and one flag more is pushed than before if and only if the
/// environment says that it pushed one. The alternate screen is entered only
/// if it was asked for, and the environment is not torn down by startup.
pub proof fn lemma_tracks_terminal(use_alternate: bool, outcomes: Seq<Outcome>, before: Terminal)
    requires
        before.is_plain(),
        before.enhancement_flags < u32::MAX,
    ensures
        ({
            let start = State::initial(use_alternate);
            let now = start.driven(outcomes);
            let terminal = before.after_all(start.effected(outcomes));
            &&& terminal.cursor_hidden == now.cursor_hidden
            &&& terminal.alternate_screen == now.alternate
            &&& terminal.raw_mode == now.raw_mode
            &&& terminal.enhancement_flags == before.enhancement_flags + (if now.enhancement {
                1int
            } else {
                0int
            })
            &&& now.alternate ==> use_alternate
            &&& now.use_alternate == use_alternate
            &&& now.phase != Phase::TornDown
            &&& now.well_formed()
        }),
    decreases outcomes.len(),
{
    if outcomes.len() > 0 {
        lemma_tracks_terminal(use_alternate, outcomes.drop_last(), before);
        let start = State::initial(use_alternate);
        let earlier = start.effected(outcomes.drop_last());
        match start.driven(outcomes.drop_last()).pending() {
            Some(op) => {
                if !State::aborts(op, outcomes.last()) {
                    assert(earlier.push(op).drop_last() == earlier);
                }
            },
            None => {},
        }
    }
}

/// Cleanup restores the terminal, however far startup got and whether or not
/// it failed: a terminal that was plain before startup is once more what it
/// was, the flags of others included, once every cleanup operation has taken
/// effect.
pub proof fn lemma_cleanup_restores(use_alternate: bool, outcomes: Seq<Outcome>, before: Terminal)
    requires
        before.is_plain(),
        before.enhancement_flags < u32::MAX,
    ensures
        ({
            let start = State::initial(use_alternate);
            let now = start.driven(outcomes);
            before.after_all(start.effected(outcomes)).after_all(now.cleanup_ops()) == before
        }),
{
    lemma_tracks_terminal(use_alternate, outcomes, before);
    let start = State::initial(use_alternate);
    let now = start.driven(outcomes);
    let terminal = before.after_all(start.effected(outcomes));
    lemma_cleanup_effect(now, terminal);
}

/// What cleanup does to a terminal: it pops the flag if the environment pushed
/// one, leaves the alternate screen if the environment entered it, shows the
/// cursor and turns off raw input.
pub proof fn lemma_cleanup_effect(state: State, terminal: Terminal)
    requires
        state.phase != Phase::TornDown,
    ensures
        terminal.after_all(state.cleanup_ops()) == (Terminal {
            cursor_hidden: false,
            alternate_screen: terminal.alternate_screen && !state.alternate,
            raw_mode: false,
            enhancement_flags: if state.enhancement && terminal.enhancement_flags > 0 {
                (terminal.enhancement_flags - 1) as u32
            } else {
                terminal.enhancement_flags
            },
        }),
{
    let pop = if state.enhancement {
        seq![TermOp::PopEnhancement]
    } else {
        Seq::empty()
    };
    let leave = if state.alternate {
        seq![TermOp::LeaveAlternateScreen]
    } else {
        Seq::empty()
    };
    let farewell = if state.phase == Phase::Ready {
        seq![TermOp::Farewell]
    } else {
        Seq::empty()
    };
    let fixed = seq![TermOp::ClearBelow, TermOp::ShowCursor, TermOp::DisableRawMode];
    lemma_after_all_concat(terminal, pop + leave + fixed, farewell);
    lemma_after_all_concat(terminal, pop + leave, fixed);
    lemma_after_all_concat(terminal, pop, leave);
    lemma_after_all_short(terminal, pop);
    lemma_after_all_short(terminal.after_all(pop), leave);
    lemma_after_all_short(terminal.after_all(pop + leave + fixed), farewell);
    let middle = terminal.after_all(pop + leave);
    assert(middle.after_all(fixed) == middle.after(TermOp::ClearBelow).after(
        TermOp::ShowCursor,
    ).after(TermOp::DisableRawMode)) by {
        reveal_with_fuel(Terminal::after_all, 4);
        assert(fixed.drop_last() =~= seq![TermOp::ClearBelow, TermOp::ShowCursor]);
        assert(fixed.drop_last().drop_last() =~= seq![TermOp::ClearBelow]);
        assert(fixed.drop_last().drop_last().drop_last() =~= Seq::<TermOp>::empty());
    }
}

proof fn lemma_after_all_short(terminal: Terminal, ops: Seq<TermOp>)
    requires
        ops.len() <= 1,
    ensures
        terminal.after_all(ops) == (if ops.len() == 0 {
            terminal
        } else {
            terminal.after(ops[0])
        }),
{
    reveal_with_fuel(Terminal::after_all, 2);
    if ops.len() == 1 {
        assert(ops.drop_last().len() == 0);
    }
}

/// A second cleanup changes nothing: it has no operation left to attempt, so
/// the terminal ends as the first cleanup left it, and the environment stays
/// torn down.
pub proof fn lemma_cleanup_idempotent(state: State, terminal: Terminal)
    ensures
        state.cleaned().cleanup_ops() == Seq::<TermOp>::empty(),
        state.cleaned().cleaned() == state.cleaned(),
        terminal.after_all(state.cleanup_ops() + state.cleaned().cleanup_ops())
            == terminal.after_all(state.cleanup_ops()),
{
    assert(state.cleanup_ops() + Seq::<TermOp>::empty() =~= state.cleanup_ops());
}

} // verus!
