use std::time::Duration;
use trimesh_testbed::colliders::{IncludeColliders, NormalKind, TrimeshFlagChoice};
use trimesh_testbed::keys::{
    contains_key, handle_keys, FIRE_PERIOD_NANOS, SWITCH_DELAY_NANOS, plan_key_actions, Key, KeyAction, KeyTimers, KeyboardState,
    QuarterTurn,
};
use trimesh_testbed::scene_selection::CollisionSceneSelection;
use trimesh_testbed::timing::SETUP_DELAY_NANOS;

fn kb(pressed: &[Key], just_pressed: &[Key], just_released: &[Key]) -> KeyboardState {
    KeyboardState {
        pressed: pressed.to_vec(),
        just_pressed: just_pressed.to_vec(),
        just_released: just_released.to_vec(),
    }
}

fn plan(input: &KeyboardState, fire: bool, switch: bool) -> trimesh_testbed::keys::KeyOutcome {
    plan_key_actions(
        input,
        fire,
        1_500_000_000,
        switch,
        CollisionSceneSelection::Scene1,
        IncludeColliders::OnlyMeshes,
    )
}

#[test]
fn contains_key_finds_keys() {
    let keys = vec![Key::KeyA, Key::Enter];
    assert!(contains_key(&keys, Key::Enter));
    assert!(!contains_key(&keys, Key::KeyZ));
    assert!(!contains_key(&Vec::new(), Key::KeyZ));
}

#[test]
fn no_keys_no_actions() {
    let out = plan(&kb(&[], &[], &[]), true, true);
    assert!(out.actions.is_empty());
    assert_eq!(out.selection, CollisionSceneSelection::Scene1);
    assert_eq!(out.affected, IncludeColliders::OnlyMeshes);
}

#[test]
fn enter_down_resets_and_fires_when_timer_finishes() {
    let out = plan(&kb(&[Key::Enter], &[Key::Enter], &[]), false, false);
    assert_eq!(out.actions, vec![KeyAction::ResetProjectiles]);
    let out = plan(&kb(&[Key::Enter], &[], &[]), true, false);
    assert_eq!(out.actions, vec![KeyAction::FireProjectiles(1_500_000_000)]);
    let out = plan(&kb(&[Key::Enter], &[], &[]), false, false);
    assert!(out.actions.is_empty());
}

#[test]
fn enter_up_fires() {
    let out = plan(&kb(&[], &[], &[Key::Enter]), true, false);
    assert_eq!(out.actions, vec![KeyAction::FireProjectiles(1_500_000_000)]);
}

#[test]
fn view_keys() {
    let out = plan(
        &kb(&[], &[Key::Digit3, Key::BracketRight, Key::Digit0, Key::BracketLeft, Key::Digit1, Key::Digit2], &[]),
        false,
        false,
    );
    assert_eq!(
        out.actions,
        vec![
            KeyAction::RotateContent(QuarterTurn::Positive),
            KeyAction::RotateContent(QuarterTurn::Negative),
            KeyAction::TogglePhysicsGizmos,
            KeyAction::ToggleNormals(NormalKind::Vertex),
            KeyAction::ToggleNormals(NormalKind::Edge),
            KeyAction::ToggleNormals(NormalKind::Face),
        ]
    );
}

#[test]
fn collider_keys_act_on_release() {
    let out = plan(
        &kb(&[], &[Key::KeyI, Key::KeyF], &[Key::KeyR, Key::KeyZ, Key::KeyQ, Key::KeyF, Key::Backspace, Key::KeyI]),
        false,
        false,
    );
    assert_eq!(
        out.actions,
        vec![
            KeyAction::ReportColliderInfo,
            KeyAction::RecreateColliders { flags: TrimeshFlagChoice::FixInternalEdges, flip_faces: false },
            KeyAction::RecreateColliders { flags: TrimeshFlagChoice::FixInternalEdges, flip_faces: true },
            KeyAction::RecreateColliders { flags: TrimeshFlagChoice::AllButFixInternalEdges, flip_faces: false },
            KeyAction::RecreateColliders { flags: TrimeshFlagChoice::Empty, flip_faces: false },
            KeyAction::RecreateColliders { flags: TrimeshFlagChoice::Empty, flip_faces: true },
        ]
    );
}

#[test]
fn key_a_cycles_affected_colliders() {
    let out = plan(&kb(&[Key::KeyA], &[Key::KeyA], &[]), false, false);
    assert!(out.actions.is_empty());
    assert_eq!(out.affected, IncludeColliders::All);
    let out = plan(&kb(&[Key::KeyA], &[], &[Key::KeyA]), false, false);
    assert_eq!(out.affected, IncludeColliders::OnlyMeshes);
}

#[test]
fn arrows_switch_scene_when_timer_finishes() {
    let out = plan(&kb(&[Key::ArrowRight], &[], &[]), false, true);
    assert_eq!(out.actions, vec![KeyAction::SwitchScene(CollisionSceneSelection::Scene2)]);
    assert_eq!(out.selection, CollisionSceneSelection::Scene2);
    let out = plan(&kb(&[Key::ArrowLeft, Key::ArrowRight], &[], &[]), false, true);
    assert_eq!(out.selection, CollisionSceneSelection::Scene0b);
    let out = plan(&kb(&[Key::ArrowLeft], &[], &[]), false, false);
    assert!(out.actions.is_empty());
    assert_eq!(out.selection, CollisionSceneSelection::Scene1);
    // an arrow that just went down only arms the timer
    let out = plan(&kb(&[Key::ArrowRight], &[Key::ArrowRight], &[]), false, true);
    assert!(out.actions.is_empty());
}

#[test]
fn actions_come_in_key_order() {
    let out = plan(
        &kb(&[Key::Enter, Key::ArrowRight], &[Key::Digit0], &[Key::KeyZ, Key::Enter]),
        true,
        true,
    );
    assert_eq!(
        out.actions,
        vec![
            KeyAction::FireProjectiles(1_500_000_000),
            KeyAction::FireProjectiles(1_500_000_000),
            KeyAction::TogglePhysicsGizmos,
            KeyAction::RecreateColliders { flags: TrimeshFlagChoice::Empty, flip_faces: false },
            KeyAction::SwitchScene(CollisionSceneSelection::Scene2),
        ]
    );
}

#[test]
fn switch_timer_is_a_thirtieth_of_a_second() {
    assert_eq!(Duration::from_secs_f32(1.0 / 30.0), Duration::from_nanos(SWITCH_DELAY_NANOS));
    assert_eq!(Duration::from_secs_f32(3.0), Duration::from_nanos(FIRE_PERIOD_NANOS));
    assert_eq!(Duration::from_secs(1), Duration::from_nanos(SETUP_DELAY_NANOS));
}

#[test]
fn handle_keys_fires_every_three_seconds_while_enter_held() {
    let mut timers = KeyTimers::new();
    let sel = CollisionSceneSelection::Scene0;
    let aff = IncludeColliders::OnlyMeshes;
    let out = handle_keys(&kb(&[Key::Enter], &[Key::Enter], &[]), 1000000000, &mut timers, sel, aff);
    assert_eq!(out.actions, vec![KeyAction::ResetProjectiles]);
    let out = handle_keys(&kb(&[Key::Enter], &[], &[]), 1000000000, &mut timers, sel, aff);
    assert!(out.actions.is_empty());
    let out = handle_keys(&kb(&[Key::Enter], &[], &[]), 1500000000, &mut timers, sel, aff);
    assert_eq!(out.actions, vec![KeyAction::FireProjectiles(500_000_000)]);
    let out = handle_keys(&kb(&[], &[], &[Key::Enter]), 1000000000, &mut timers, sel, aff);
    assert_eq!(out.actions, vec![KeyAction::FireProjectiles(500_000_000)]);
}

#[test]
fn handle_keys_switches_after_holding_an_arrow() {
    let mut timers = KeyTimers::new();
    let aff = IncludeColliders::All;
    let out = handle_keys(
        &kb(&[Key::ArrowLeft], &[Key::ArrowLeft], &[]),
        16000000,
        &mut timers,
        CollisionSceneSelection::Scene0,
        aff,
    );
    assert!(out.actions.is_empty());
    assert_eq!(out.selection, CollisionSceneSelection::Scene0);
    let out = handle_keys(&kb(&[Key::ArrowLeft], &[], &[]), 16000000, &mut timers, out.selection, aff);
    assert!(out.actions.is_empty());
    let out = handle_keys(&kb(&[Key::ArrowLeft], &[], &[]), 20000000, &mut timers, out.selection, aff);
    assert_eq!(out.actions, vec![KeyAction::SwitchScene(CollisionSceneSelection::Scene6)]);
    assert_eq!(out.selection, CollisionSceneSelection::Scene6);
    // a one-shot timer does not fire again while the arrow stays held
    let out = handle_keys(&kb(&[Key::ArrowLeft], &[], &[]), 100000000, &mut timers, out.selection, aff);
    assert!(out.actions.is_empty());
    assert_eq!(out.affected, IncludeColliders::All);
}

#[test]
fn scene_outside_playlist_is_kept_without_arrows() {
    let mut timers = KeyTimers::new();
    let out = handle_keys(
        &kb(&[Key::Digit0], &[Key::Digit0], &[]),
        16000000,
        &mut timers,
        CollisionSceneSelection::Scene5,
        IncludeColliders::NonMeshes,
    );
    assert_eq!(out.actions, vec![KeyAction::TogglePhysicsGizmos]);
    assert_eq!(out.selection, CollisionSceneSelection::Scene5);
    assert!(!CollisionSceneSelection::Scene5.is_listed());
    assert!(!CollisionSceneSelection::Scene7.is_listed());
    assert!(CollisionSceneSelection::Scene6.is_listed());
}

#[test]
fn switch_finishes_predicts_the_switch() {
    let mut timers = KeyTimers::new();
    let down = kb(&[Key::ArrowRight], &[Key::ArrowRight], &[]);
    assert!(!timers.switch_finishes(&down, 40_000_000));
    handle_keys(&down, 16_000_000, &mut timers, CollisionSceneSelection::Scene0, IncludeColliders::All);
    let held = kb(&[Key::ArrowRight], &[], &[]);
    assert!(!timers.switch_finishes(&held, 20_000_000));
    assert!(timers.switch_finishes(&held, 40_000_000));
    // asking does not tick the timer
    assert!(timers.switch_finishes(&held, 40_000_000));
    let out = handle_keys(&held, 40_000_000, &mut timers, CollisionSceneSelection::Scene0, IncludeColliders::All);
    assert_eq!(out.actions, vec![KeyAction::SwitchScene(CollisionSceneSelection::Scene0b)]);
}

#[test]
fn held_enter_with_unarmed_timer_fires_at_once() {
    // Enter already held when the timers are fresh: the zero-length one-shot
    // timer finishes on its first tick
    let mut timers = KeyTimers::new();
    let out = handle_keys(
        &kb(&[Key::Enter], &[], &[]),
        16_000_000,
        &mut timers,
        CollisionSceneSelection::Scene0,
        IncludeColliders::All,
    );
    assert_eq!(out.actions, vec![KeyAction::FireProjectiles(0)]);
}

#[test]
fn long_frame_wraps_the_fire_timer() {
    let mut timers = KeyTimers::new();
    let sel = CollisionSceneSelection::Scene0;
    let aff = IncludeColliders::All;
    handle_keys(&kb(&[Key::Enter], &[Key::Enter], &[]), 0, &mut timers, sel, aff);
    let out = handle_keys(&kb(&[Key::Enter], &[], &[]), 7_000_000_000, &mut timers, sel, aff);
    assert_eq!(out.actions, vec![KeyAction::FireProjectiles(1_000_000_000)]);
}
