use vstd::prelude::*;

verus! {

/// The phases the test bench goes through.
#[derive(Clone, Copy, Debug, PartialEq, Eq, Structural, Hash)]
pub enum ProgramState {
    Initializing,
    Setup,
    InGame,
    Teardown,
}

/// What happens to the test bench that can move it to another phase.
#[derive(Clone, Copy, Debug, PartialEq, Eq, Structural)]
pub enum ProgramEvent {
    /// The application has started up.
    Started,
    /// Loading the scene asset failed.
    SceneLoadFailed,
    /// The delay after setting up the scene has run out.
    SetupDelayElapsed,
    /// The user asked for another scene.
    SceneSwitchRequested,
    /// The world and the UI of the previous scene have been removed.
    TeardownFinished,
}

impl ProgramState {
    /// The phase the test bench is in after `event` arrives in phase `self`.
    ///
    /// Start-up and a failed load act in every phase; the setup delay counts
    /// only while setting up, a scene switch only while in game, and the end
    /// of a teardown only while tearing down.
    pub open spec fn spec_after(self, event: ProgramEvent) -> ProgramState {
        match event {
            ProgramEvent::Started => ProgramState::Setup,
            ProgramEvent::SceneLoadFailed => ProgramState::InGame,
            ProgramEvent::SetupDelayElapsed => {
                if self == ProgramState::Setup { ProgramState::InGame } else { self }
            },
            ProgramEvent::SceneSwitchRequested => {
                if self == ProgramState::InGame { ProgramState::Teardown } else { self }
            },
            ProgramEvent::TeardownFinished => {
                if self == ProgramState::Teardown { ProgramState::Setup } else { self }
            },
        }
    }

    /// The next phase after `event` arrives in phase `self`.
    pub fn after(self, event: ProgramEvent) -> (r: ProgramState)
        ensures
            r == self.spec_after(event),
    {
        match event {
            ProgramEvent::Started => ProgramState::Setup,
            ProgramEvent::SceneLoadFailed => ProgramState::InGame,
            ProgramEvent::SetupDelayElapsed => {
                if self == ProgramState::Setup {
                    ProgramState::InGame
                } else {
                    self
                }
            },
            ProgramEvent::SceneSwitchRequested => {
                if self == ProgramState::InGame {
                    ProgramState::Teardown
                } else {
                    self
                }
            },
            ProgramEvent::TeardownFinished => {
                if self == ProgramState::Teardown {
                    ProgramState::Setup
                } else {
                    self
                }
            },
        }
    }
}

impl Default for ProgramState {
    fn default() -> (r: ProgramState)
        ensures
            r == ProgramState::Initializing,
    {
        ProgramState::Initializing
    }
}

/// The phase reached from `s` after the events `events`, taken in order.
pub open spec fn after_all(s: ProgramState, events: Seq<ProgramEvent>) -> ProgramState
    decreases events.len(),
{
    if events.len() == 0 {
        s
    } else {
        after_all(s, events.drop_last()).spec_after(events.last())
    }
}

/// No event ever leads back to `Initializing`: once left, it stays left.
pub proof fn lemma_initializing_never_reentered(s: ProgramState, events: Seq<ProgramEvent>)
    requires
        s != ProgramState::Initializing,
    ensures
        after_all(s, events) != ProgramState::Initializing,
    decreases events.len(),
{
    if events.len() > 0 {
        lemma_initializing_never_reentered(s, events.drop_last());
    }
}

/// Only start-up leaves `Initializing`, apart from a failed scene load.
pub proof fn lemma_initializing_waits_for_start(event: ProgramEvent)
    ensures
        ProgramState::Initializing.spec_after(event) == ProgramState::Initializing
            <==> (event != ProgramEvent::Started && event != ProgramEvent::SceneLoadFailed),
{
}

/// The scene loop: from setting up, the setup delay, a scene switch and the end
/// of the teardown bring the test bench back to setting up, through playing and
/// tearing down.
pub proof fn lemma_scene_cycle()
    ensures
        ProgramState::Setup.spec_after(ProgramEvent::SetupDelayElapsed) == ProgramState::InGame,
        ProgramState::InGame.spec_after(ProgramEvent::SceneSwitchRequested) == ProgramState::Teardown,
        ProgramState::Teardown.spec_after(ProgramEvent::TeardownFinished) == ProgramState::Setup,
{
}

/// An event that belongs to another phase leaves the phase unchanged.
pub proof fn lemma_out_of_phase_events_ignored(s: ProgramState, event: ProgramEvent)
    requires
        event == ProgramEvent::SetupDelayElapsed && s != ProgramState::Setup
            || event == ProgramEvent::SceneSwitchRequested && s != ProgramState::InGame
            || event == ProgramEvent::TeardownFinished && s != ProgramState::Teardown,
    ensures
        s.spec_after(event) == s,
{
}

} // verus!
