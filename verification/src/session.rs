//! The orchestrator: the order in which the parts of the interface are brought
//! up and taken down.
//!
//! A session names what is to be done next and is told how it went. Whoever
//! drives it owns the terminal, the tasks and the channel.

use vstd::prelude::*;

verus! {

/// What a session is doing.
#[derive(Clone, Copy, Debug, PartialEq, Eq, Structural)]
pub enum Stage {
    /// The terminal environment is being brought up.
    Setup,
    /// The external control integration is being set up.
    Integration,
    /// The render loop is being launched.
    Launch,
    /// The input listener runs.
    Listening,
    /// The render loop is being cancelled.
    Cancel,
    /// The terminal environment is being cleaned up.
    Teardown,
    /// All is over.
    Finished,
}

/// What the driver of a session is to do.
#[derive(Clone, Copy, Debug, PartialEq, Eq, Structural)]
pub enum Directive {
    /// Bring the terminal environment up.
    ReadyEnvironment,
    /// Set up the external control integration.
    InitIntegration,
    /// Start the render loop as a background activity.
    SpawnRenderLoop,
    /// Run the input listener until it ends.
    RunInputListener,
    /// Cancel the render loop, wherever it stands.
    AbortRenderLoop,
    /// Clean the terminal environment up, passing over failures.
    CleanupEnvironment,
    /// Return; `failed` of the session says with what.
    Exit,
}

/// One run of the interface, from startup to exit.
#[derive(Clone, Copy, Debug, PartialEq, Eq, Structural)]
pub struct Session {
    pub stage: Stage,
    /// Whether the alternate screen is used.
    pub alternate: bool,
    /// Whether the controls row is left out.
    pub minimalist: bool,
    /// Whether the external control integration is set up.
    pub integration: bool,
    /// Whether a step has failed so far.
    pub failed: bool,
}

impl Session {
    /// What is to be done in the present stage.
    pub open spec fn directive(self) -> Directive {
        match self.stage {
            Stage::Setup => Directive::ReadyEnvironment,
            Stage::Integration => Directive::InitIntegration,
            Stage::Launch => Directive::SpawnRenderLoop,
            Stage::Listening => Directive::RunInputListener,
            Stage::Cancel => Directive::AbortRenderLoop,
            Stage::Teardown => Directive::CleanupEnvironment,
            Stage::Finished => Directive::Exit,
        }
    }

    /// The stage that follows the present one, given whether the present one
    /// succeeded.
    ///
    /// A failure on the way up goes straight to cleanup. The end of the input
    /// listener, with or without a failure, has the render loop cancelled and
    /// then the environment cleaned up. Cleanup is followed by the exit
    /// whether or not it succeeded.
    pub open spec fn following(self, succeeded: bool) -> Stage {
        match self.stage {
            Stage::Setup => if !succeeded {
                Stage::Teardown
            } else if self.integration {
                Stage::Integration
            } else {
                Stage::Launch
            },
            Stage::Integration => if succeeded {
                Stage::Launch
            } else {
                Stage::Teardown
            },
            Stage::Launch => if succeeded {
                Stage::Listening
            } else {
                Stage::Teardown
            },
            Stage::Listening => Stage::Cancel,
            Stage::Cancel => Stage::Teardown,
            Stage::Teardown => Stage::Finished,
            Stage::Finished => Stage::Finished,
        }
    }

    /// The session once the driver has reported on the present stage. A failure
    /// is remembered, except one of cleanup, which is passed over.
    pub open spec fn reported(self, succeeded: bool) -> Session {
        Session {
            stage: self.following(succeeded),
            failed: self.failed || (!succeeded && self.stage != Stage::Teardown && self.stage
                != Stage::Finished),
            ..self
        }
    }

    /// The session once the driver has made `reports`, one after the other.
    pub open spec fn after(self, reports: Seq<bool>) -> Session
        decreases reports.len(),
    {
        if reports.len() == 0 {
            self
        } else {
            self.after(reports.drop_last()).reported(reports.last())
        }
    }

    /// The directives that the driver was given while it made `reports`, the
    /// one that is pending after the last report included.
    pub open spec fn directives(self, reports: Seq<bool>) -> Seq<Directive> {
        Seq::new(reports.len() + 1, |i: int| self.after(reports.take(i)).directive())
    }

    /// What is to be done next.
    #[verifier::when_used_as_spec(directive)]
    pub fn next(self) -> (directive: Directive)
        ensures
            directive == self.directive(),
    {
        match self.stage {
            Stage::Setup => Directive::ReadyEnvironment,
            Stage::Integration => Directive::InitIntegration,
            Stage::Launch => Directive::SpawnRenderLoop,
            Stage::Listening => Directive::RunInputListener,
            Stage::Cancel => Directive::AbortRenderLoop,
            Stage::Teardown => Directive::CleanupEnvironment,
            Stage::Finished => Directive::Exit,
        }
    }

    /// Takes the driver's report on what it was to do, and returns what it is
    /// to do next.
    pub fn report(&mut self, succeeded: bool) -> (directive: Directive)
        ensures
            *final(self) == old(self).reported(succeeded),
            directive == final(self).directive(),
    {
        let stage = match self.stage {
            Stage::Setup => {
                if !succeeded {
                    Stage::Teardown
                } else if self.integration {
                    Stage::Integration
                } else {
                    Stage::Launch
                }
            },
            Stage::Integration | Stage::Launch => {
                if !succeeded {
                    Stage::Teardown
                } else if self.stage == Stage::Integration {
                    Stage::Launch
                } else {
                    Stage::Listening
                }
            },
            Stage::Listening => Stage::Cancel,
            Stage::Cancel => Stage::Teardown,
            Stage::Teardown => Stage::Finished,
            Stage::Finished => Stage::Finished,
        };
        let unforgiven = match self.stage {
            Stage::Teardown | Stage::Finished => false,
            _ => !succeeded,
        };
        self.failed = self.failed || unforgiven;
        self.stage = stage;
        self.next()
    }
}

/// Begins a session. The first thing to do is to bring the terminal
/// environment up.
pub fn start(alternate: bool, minimalist: bool, integration: bool) -> (session: Session)
    ensures
        session == (Session { stage: Stage::Setup, alternate, minimalist, integration, failed: false }),
        session.directive() == Directive::ReadyEnvironment,
{
    Session { stage: Stage::Setup, alternate, minimalist, integration, failed: false }
}

/// What a session does when nothing fails: environment, integration if there
/// is one, render loop, input listener, and after the listener has ended the
/// render loop is cancelled, the environment cleaned up, and the session
/// exits.
pub open spec fn itinerary(integration: bool) -> Seq<Directive> {
    let up = if integration {
        seq![Directive::ReadyEnvironment, Directive::InitIntegration]
    } else {
        seq![Directive::ReadyEnvironment]
    };
    up + seq![
        Directive::SpawnRenderLoop,
        Directive::RunInputListener,
        Directive::AbortRenderLoop,
        Directive::CleanupEnvironment,
        Directive::Exit,
    ]
}

/// The reports of a driver for whom every step on the way up succeeds, the
/// input listener ends as `listener_ok` says, and cleanup goes as `cleanup_ok`
/// says.
pub open spec fn smooth_reports(integration: bool, listener_ok: bool, cleanup_ok: bool) -> Seq<
    bool,
> {
    let up = if integration {
        seq![true, true]
    } else {
        seq![true]
    };
    up + seq![true, listener_ok, true, cleanup_ok]
}

/// A session in which nothing fails on the way up follows the itinerary,
/// however the input listener ends and however cleanup goes. It exits with a
/// failure if and only if the listener ended on one.
pub proof fn lemma_session_order(session: Session, listener_ok: bool, cleanup_ok: bool)
    requires
        session.stage == Stage::Setup,
        !session.failed,
    ensures
        ({
            let reports = smooth_reports(session.integration, listener_ok, cleanup_ok);
            &&& session.directives(reports) == itinerary(session.integration)
            &&& session.after(reports).stage == Stage::Finished
            &&& session.after(reports).failed == !listener_ok
        }),
{
    let reports = smooth_reports(session.integration, listener_ok, cleanup_ok);
    assert(session.after(reports.take(0)) == session);
    lemma_after_next(session, reports, 0);
    lemma_after_next(session, reports, 1);
    lemma_after_next(session, reports, 2);
    lemma_after_next(session, reports, 3);
    lemma_after_next(session, reports, 4);
    if session.integration {
        lemma_after_next(session, reports, 5);
    }
    assert(reports.take(reports.len() as int) == reports);
    assert(session.directives(reports) =~= itinerary(session.integration));
}

proof fn lemma_after_next(session: Session, reports: Seq<bool>, n: int)
    requires
        0 <= n < reports.len(),
    ensures
        session.after(reports.take(n + 1)) == session.after(reports.take(n)).reported(reports[n]),
{
    assert(reports.take(n + 1).drop_last() == reports.take(n));
}

/// Whatever is reported, a session exits only from cleanup: the stage before
/// the exit is the cleanup of the environment. The end of the input listener
/// is followed by the cancelling of the render loop, and that by cleanup.
pub proof fn lemma_exit_follows_cleanup(session: Session, succeeded: bool)
    requires
        session.stage != Stage::Finished,
    ensures
        session.reported(succeeded).stage == Stage::Finished ==> session.stage == Stage::Teardown,
        session.stage == Stage::Listening ==> session.reported(succeeded).directive()
            == Directive::AbortRenderLoop,
        session.stage == Stage::Cancel ==> session.reported(succeeded).directive()
            == Directive::CleanupEnvironment,
{
}

} // verus!
