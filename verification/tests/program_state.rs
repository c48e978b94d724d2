use trimesh_testbed::program_state::{ProgramEvent, ProgramState};

const ALL_STATES: [ProgramState; 4] = [
    ProgramState::Initializing,
    ProgramState::Setup,
    ProgramState::InGame,
    ProgramState::Teardown,
];

const ALL_EVENTS: [ProgramEvent; 5] = [
    ProgramEvent::Started,
    ProgramEvent::SceneLoadFailed,
    ProgramEvent::SetupDelayElapsed,
    ProgramEvent::SceneSwitchRequested,
    ProgramEvent::TeardownFinished,
];

#[test]
fn starts_initializing() {
    assert_eq!(ProgramState::default(), ProgramState::Initializing);
}

#[test]
fn scene_loop() {
    let s = ProgramState::default().after(ProgramEvent::Started);
    assert_eq!(s, ProgramState::Setup);
    let s = s.after(ProgramEvent::SetupDelayElapsed);
    assert_eq!(s, ProgramState::InGame);
    let s = s.after(ProgramEvent::SceneSwitchRequested);
    assert_eq!(s, ProgramState::Teardown);
    let s = s.after(ProgramEvent::TeardownFinished);
    assert_eq!(s, ProgramState::Setup);
}

#[test]
fn failed_load_goes_in_game_from_anywhere() {
    for s in ALL_STATES {
        assert_eq!(s.after(ProgramEvent::SceneLoadFailed), ProgramState::InGame);
    }
}

#[test]
fn out_of_phase_events_are_ignored() {
    assert_eq!(ProgramState::InGame.after(ProgramEvent::SetupDelayElapsed), ProgramState::InGame);
    assert_eq!(ProgramState::Setup.after(ProgramEvent::SceneSwitchRequested), ProgramState::Setup);
    assert_eq!(ProgramState::InGame.after(ProgramEvent::TeardownFinished), ProgramState::InGame);
    assert_eq!(
        ProgramState::Initializing.after(ProgramEvent::SetupDelayElapsed),
        ProgramState::Initializing
    );
}

#[test]
fn initializing_is_never_reentered() {
    for s in ALL_STATES.into_iter().skip(1) {
        for e in ALL_EVENTS {
            assert_ne!(s.after(e), ProgramState::Initializing, "{:?} {:?}", s, e);
        }
    }
}
