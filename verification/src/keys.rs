use vstd::prelude::*;
use crate::bevy_timer::{
    timer_default, timer_elapsed_nanos, timer_just_finished, timer_new_once, timer_new_repeating,
    timer_reset, timer_tick, ModeledTimer, TimerModel,
};
use crate::colliders::{IncludeColliders, NormalKind, TrimeshFlagChoice};
use crate::scene_selection::{lemma_next_position, lemma_prev_position, CollisionSceneSelection};
use vstd::arithmetic::div_mod::lemma_small_mod;

verus! {

/// The keys the test bench reacts to.
#[derive(Clone, Copy, Debug, PartialEq, Eq, Structural)]
pub enum Key {
    Enter,
    BracketLeft,
    BracketRight,
    Digit0,
    Digit1,
    Digit2,
    Digit3,
    KeyA,
    KeyI,
    KeyF,
    KeyQ,
    KeyZ,
    KeyR,
    Backspace,
    ArrowLeft,
    ArrowRight,
}

/// Marks the content that quarter turns apply to.
#[derive(Clone, Copy, Debug, Default)]
pub struct ContentMarker;

/// The keyboard in one frame: the keys held down, those pressed in this frame
/// and those released in this frame.
pub struct KeyboardState {
    pub pressed: Vec<Key>,
    pub just_pressed: Vec<Key>,
    pub just_released: Vec<Key>,
}

impl KeyboardState {
    pub open spec fn held(&self, k: Key) -> bool {
        self.pressed@.contains(k)
    }

    pub open spec fn went_down(&self, k: Key) -> bool {
        self.just_pressed@.contains(k)
    }

    pub open spec fn went_up(&self, k: Key) -> bool {
        self.just_released@.contains(k)
    }
}

/// Whether `key` occurs in `keys`.
pub fn contains_key(keys: &Vec<Key>, key: Key) -> (r: bool)
    ensures
        r == keys@.contains(key),
{
    let mut i: usize = 0;
    while i < keys.len()
        invariant
            i <= keys@.len(),
            forall|j: int| 0 <= j < i ==> keys@[j] != key,
        decreases keys.len() - i,
    {
        if keys[i] == key {
            assert(keys@[i as int] == key);
            return true;
        }
        i = i + 1;
    }
    false
}

/// The sense of a quarter turn of the content about the vertical axis.
#[derive(Clone, Copy, Debug, PartialEq, Eq, Structural)]
pub enum QuarterTurn {
    Positive,
    Negative,
}

/// What the test bench does in answer to the keyboard, in the order given.
#[derive(Clone, Copy, Debug, PartialEq, Eq)]
pub enum KeyAction {
    /// Move the projectiles back to their starting places.
    ResetProjectiles,
    /// Fire the projectiles with a power taken from the time elapsed on the
    /// fire timer, in nanoseconds.
    FireProjectiles(u128),
    /// Turn the world and its colliders a quarter turn.
    RotateContent(QuarterTurn),
    /// Switch the physics gizmos on or off.
    TogglePhysicsGizmos,
    /// Switch the drawing of one kind of collider normal on or off.
    ToggleNormals(NormalKind),
    /// Report the triangle-mesh colliders.
    ReportColliderInfo,
    /// Rebuild the affected colliders from their triangles.
    RecreateColliders { flags: TrimeshFlagChoice, flip_faces: bool },
    /// Tear the scene down and set up the given one.
    SwitchScene(CollisionSceneSelection),
}

/// The outcome of one frame of keyboard handling.
pub struct KeyOutcome {
    pub actions: Vec<KeyAction>,
    pub selection: CollisionSceneSelection,
    pub affected: IncludeColliders,
}

/// `a` alone if `b` holds, nothing otherwise.
pub open spec fn when(b: bool, a: KeyAction) -> Seq<KeyAction> {
    if b {
        seq![a]
    } else {
        seq![]
    }
}

/// Whether either arrow key is in `keys`.
pub open spec fn any_arrow(keys: Seq<Key>) -> bool {
    keys.contains(Key::ArrowLeft) || keys.contains(Key::ArrowRight)
}

/// The scene switch happens: no arrow went down this frame, an arrow is held,
/// and the switch timer finished on this frame's tick.
pub open spec fn switch_fires(input: &KeyboardState, switch_finished: bool) -> bool {
    !any_arrow(input.just_pressed@) && any_arrow(input.pressed@) && switch_finished
}

/// The scene switched to: the previous one while the left arrow is held, the
/// next one otherwise.
pub open spec fn switched_selection(
    input: &KeyboardState,
    selection: CollisionSceneSelection,
) -> CollisionSceneSelection {
    if input.held(Key::ArrowLeft) {
        selection.spec_prev()
    } else {
        selection.spec_next()
    }
}

/// `pre` followed by the firing actions: a reset when Enter goes down, a
/// shot when Enter is held and the fire timer just finished, a shot when Enter
/// goes up.
pub open spec fn then_fire_actions(pre: Seq<KeyAction>, input: &KeyboardState, fire_finished: bool, fire_elapsed: u128) -> Seq<KeyAction> {
    pre
    + when(input.went_down(Key::Enter), KeyAction::ResetProjectiles)
    + when(input.held(Key::Enter) && fire_finished, KeyAction::FireProjectiles(fire_elapsed))
    + when(input.went_up(Key::Enter), KeyAction::FireProjectiles(fire_elapsed))
}

/// `pre` followed by the view actions: quarter turns on the bracket keys,
/// gizmo switches on the digit keys, all when the key goes down.
pub open spec fn then_view_actions(pre: Seq<KeyAction>, input: &KeyboardState) -> Seq<KeyAction> {
    pre
    + when(input.went_down(Key::BracketLeft), KeyAction::RotateContent(QuarterTurn::Positive))
    + when(input.went_down(Key::BracketRight), KeyAction::RotateContent(QuarterTurn::Negative))
    + when(input.went_down(Key::Digit0), KeyAction::TogglePhysicsGizmos)
    + when(input.went_down(Key::Digit1), KeyAction::ToggleNormals(NormalKind::Vertex))
    + when(input.went_down(Key::Digit2), KeyAction::ToggleNormals(NormalKind::Edge))
    + when(input.went_down(Key::Digit3), KeyAction::ToggleNormals(NormalKind::Face))
}

/// `pre` followed by the collider actions, all when the key goes up: a report
/// on `I`, rebuilds on Backspace, `F`, `Q`, `Z` and `R`.
pub open spec fn then_collider_actions(pre: Seq<KeyAction>, input: &KeyboardState) -> Seq<KeyAction> {
    pre
    + when(input.went_up(Key::KeyI), KeyAction::ReportColliderInfo)
    + when(input.went_up(Key::Backspace), KeyAction::RecreateColliders { flags: TrimeshFlagChoice::FixInternalEdges, flip_faces: false })
    + when(input.went_up(Key::KeyF), KeyAction::RecreateColliders { flags: TrimeshFlagChoice::FixInternalEdges, flip_faces: true })
    + when(input.went_up(Key::KeyQ), KeyAction::RecreateColliders { flags: TrimeshFlagChoice::AllButFixInternalEdges, flip_faces: false })
    + when(input.went_up(Key::KeyZ), KeyAction::RecreateColliders { flags: TrimeshFlagChoice::Empty, flip_faces: false })
    + when(input.went_up(Key::KeyR), KeyAction::RecreateColliders { flags: TrimeshFlagChoice::Empty, flip_faces: true })
}

/// The actions of one frame, in order, given what the fire timer and the switch
/// timer reported on their ticks and the time elapsed on the fire timer.
pub open spec fn spec_key_actions(
    input: &KeyboardState,
    fire_finished: bool,
    fire_elapsed: u128,
    switch_finished: bool,
    selection: CollisionSceneSelection,
) -> Seq<KeyAction> {
    then_collider_actions(
        then_view_actions(then_fire_actions(seq![], input, fire_finished, fire_elapsed), input),
        input,
    ) + when(switch_fires(input, switch_finished), KeyAction::SwitchScene(switched_selection(input, selection)))
}

/// The scene selected after the frame.
pub open spec fn spec_key_selection(
    input: &KeyboardState,
    switch_finished: bool,
    selection: CollisionSceneSelection,
) -> CollisionSceneSelection {
    if switch_fires(input, switch_finished) {
        switched_selection(input, selection)
    } else {
        selection
    }
}

/// The collider choice after the frame: the next one when `A` went down.
pub open spec fn spec_key_affected(input: &KeyboardState, affected: IncludeColliders) -> IncludeColliders {
    if input.went_down(Key::KeyA) {
        affected.spec_next()
    } else {
        affected
    }
}

/// Appends `a` when `b` holds.
fn push_if(actions: &mut Vec<KeyAction>, b: bool, a: KeyAction)
    ensures
        final(actions)@ == old(actions)@ + when(b, a),
{
    if b {
        actions.push(a);
    }
    assert(final(actions)@ =~= old(actions)@ + when(b, a));
}

/// Appends the firing actions of the frame.
fn push_fire_actions(actions: &mut Vec<KeyAction>, input: &KeyboardState, fire_finished: bool, fire_elapsed: u128)
    ensures
        final(actions)@ == then_fire_actions(old(actions)@, input, fire_finished, fire_elapsed),
{
    let b = contains_key(&input.just_pressed, Key::Enter);
    push_if(actions, b, KeyAction::ResetProjectiles);
    let b = contains_key(&input.pressed, Key::Enter);
    push_if(actions, b && fire_finished, KeyAction::FireProjectiles(fire_elapsed));
    let b = contains_key(&input.just_released, Key::Enter);
    push_if(actions, b, KeyAction::FireProjectiles(fire_elapsed));
}

/// Appends the view actions of the frame.
fn push_view_actions(actions: &mut Vec<KeyAction>, input: &KeyboardState)
    ensures
        final(actions)@ == then_view_actions(old(actions)@, input),
{
    let b = contains_key(&input.just_pressed, Key::BracketLeft);
    push_if(actions, b, KeyAction::RotateContent(QuarterTurn::Positive));
    let b = contains_key(&input.just_pressed, Key::BracketRight);
    push_if(actions, b, KeyAction::RotateContent(QuarterTurn::Negative));
    let b = contains_key(&input.just_pressed, Key::Digit0);
    push_if(actions, b, KeyAction::TogglePhysicsGizmos);
    let b = contains_key(&input.just_pressed, Key::Digit1);
    push_if(actions, b, KeyAction::ToggleNormals(NormalKind::Vertex));
    let b = contains_key(&input.just_pressed, Key::Digit2);
    push_if(actions, b, KeyAction::ToggleNormals(NormalKind::Edge));
    let b = contains_key(&input.just_pressed, Key::Digit3);
    push_if(actions, b, KeyAction::ToggleNormals(NormalKind::Face));
}

/// Appends the collider actions of the frame.
fn push_collider_actions(actions: &mut Vec<KeyAction>, input: &KeyboardState)
    ensures
        final(actions)@ == then_collider_actions(old(actions)@, input),
{
    let b = contains_key(&input.just_released, Key::KeyI);
    push_if(actions, b, KeyAction::ReportColliderInfo);
    let b = contains_key(&input.just_released, Key::Backspace);
    push_if(actions, b, KeyAction::RecreateColliders { flags: TrimeshFlagChoice::FixInternalEdges, flip_faces: false });
    let b = contains_key(&input.just_released, Key::KeyF);
    push_if(actions, b, KeyAction::RecreateColliders { flags: TrimeshFlagChoice::FixInternalEdges, flip_faces: true });
    let b = contains_key(&input.just_released, Key::KeyQ);
    push_if(actions, b, KeyAction::RecreateColliders { flags: TrimeshFlagChoice::AllButFixInternalEdges, flip_faces: false });
    let b = contains_key(&input.just_released, Key::KeyZ);
    push_if(actions, b, KeyAction::RecreateColliders { flags: TrimeshFlagChoice::Empty, flip_faces: false });
    let b = contains_key(&input.just_released, Key::KeyR);
    push_if(actions, b, KeyAction::RecreateColliders { flags: TrimeshFlagChoice::Empty, flip_faces: true });
}

/// Decides what one frame of keyboard input does, given what the fire timer
/// and the switch timer reported on their ticks and the time elapsed on the
/// fire timer.
pub fn plan_key_actions(
    input: &KeyboardState,
    fire_finished: bool,
    fire_elapsed: u128,
    switch_finished: bool,
    selection: CollisionSceneSelection,
    affected: IncludeColliders,
) -> (r: KeyOutcome)
    requires
        selection.in_playlist() || !switch_fires(input, switch_finished),
    ensures
        r.actions@ == spec_key_actions(input, fire_finished, fire_elapsed, switch_finished, selection),
        r.selection == spec_key_selection(input, switch_finished, selection),
        r.affected == spec_key_affected(input, affected),
        selection.in_playlist() ==> r.selection.in_playlist(),
        selection.in_playlist() && switch_finished && !input.just_pressed@.contains(Key::ArrowLeft)
            && !input.just_pressed@.contains(Key::ArrowRight) && (input.pressed@.contains(Key::ArrowLeft)
            || input.pressed@.contains(Key::ArrowRight)) ==> {
            &&& r.selection.spec_position() == if input.pressed@.contains(Key::ArrowLeft) {
                (selection.spec_position() + CollisionSceneSelection::LEN - 1) % (CollisionSceneSelection::LEN as int)
            } else {
                (selection.spec_position() + 1) % (CollisionSceneSelection::LEN as int)
            }
            &&& r.actions@.last() == KeyAction::SwitchScene(r.selection)
        },
{
    proof {
        if selection.in_playlist() && switch_finished && !input.just_pressed@.contains(Key::ArrowLeft)
            && !input.just_pressed@.contains(Key::ArrowRight) && (input.pressed@.contains(Key::ArrowLeft)
            || input.pressed@.contains(Key::ArrowRight)) {
            lemma_switch_steps_along_playlist(input, fire_finished, fire_elapsed, switch_finished, selection);
        }
    }
    let mut actions: Vec<KeyAction> = Vec::new();
    push_fire_actions(&mut actions, input, fire_finished, fire_elapsed);
    push_view_actions(&mut actions, input);
    let new_affected = if contains_key(&input.just_pressed, Key::KeyA) {
        affected.next()
    } else {
        affected
    };

    push_collider_actions(&mut actions, input);

    let arrow_down = contains_key(&input.just_pressed, Key::ArrowLeft) || contains_key(
        &input.just_pressed,
        Key::ArrowRight,
    );
    let arrow_held = contains_key(&input.pressed, Key::ArrowLeft) || contains_key(
        &input.pressed,
        Key::ArrowRight,
    );
    let mut new_selection = selection;
    if !arrow_down && arrow_held && switch_finished {
        new_selection = if contains_key(&input.pressed, Key::ArrowLeft) {
            selection.prev()
        } else {
            selection.next()
        };
        actions.push(KeyAction::SwitchScene(new_selection));
    }
    assert(actions@ =~= spec_key_actions(input, fire_finished, fire_elapsed, switch_finished, selection));
    KeyOutcome { actions, selection: new_selection, affected: new_affected }
}

/// A frame in which Enter goes down starts the fire timer afresh, whatever it
/// was before: a three-second repeating timer, on which the frame's time has
/// elapsed (modulo the period) if Enter is held and nothing otherwise. So the
/// time handed to a later shot counts from this press only.
pub proof fn lemma_enter_press_rearms_fire_timer(input: &KeyboardState, fire: TimerModel, delta: nat)
    requires
        input.just_pressed@.contains(Key::Enter),
    ensures
        spec_fire_timer(input, fire, delta).duration == FIRE_PERIOD_NANOS,
        spec_fire_timer(input, fire, delta).repeating,
        spec_fire_timer(input, fire, delta).elapsed == if input.pressed@.contains(Key::Enter) {
            delta % (FIRE_PERIOD_NANOS as nat)
        } else {
            0
        },
{
    if delta < FIRE_PERIOD_NANOS {
        lemma_small_mod(delta, FIRE_PERIOD_NANOS as nat);
    }
}

/// When the switch fires, the scene moves one place along the playlist: back
/// (wrapping from the first scene to the last) while the left arrow is held,
/// forward (wrapping from the last to the first) otherwise; and the frame's
/// last action switches to that scene.
pub proof fn lemma_switch_steps_along_playlist(
    input: &KeyboardState,
    fire_finished: bool,
    fire_elapsed: u128,
    switch_finished: bool,
    selection: CollisionSceneSelection,
)
    requires
        selection.in_playlist(),
        switch_finished,
        !input.just_pressed@.contains(Key::ArrowLeft),
        !input.just_pressed@.contains(Key::ArrowRight),
        input.pressed@.contains(Key::ArrowLeft) || input.pressed@.contains(Key::ArrowRight),
    ensures
        spec_key_selection(input, switch_finished, selection).in_playlist(),
        spec_key_selection(input, switch_finished, selection).spec_position() == if input.pressed@.contains(
            Key::ArrowLeft,
        ) {
            (selection.spec_position() + CollisionSceneSelection::LEN - 1) % (CollisionSceneSelection::LEN as int)
        } else {
            (selection.spec_position() + 1) % (CollisionSceneSelection::LEN as int)
        },
        spec_key_actions(input, fire_finished, fire_elapsed, switch_finished, selection).last()
            == KeyAction::SwitchScene(spec_key_selection(input, switch_finished, selection)),
{
    lemma_next_position(selection);
    lemma_prev_position(selection);
}

/// A frame in which no key is held, goes down or goes up does nothing: no
/// action, the same scene, the same collider choice, and both timers left as
/// they were.
pub proof fn lemma_idle_frame(
    input: &KeyboardState,
    fire: TimerModel,
    switch: TimerModel,
    delta: nat,
    selection: CollisionSceneSelection,
    affected: IncludeColliders,
)
    requires
        input.pressed@.len() == 0,
        input.just_pressed@.len() == 0,
        input.just_released@.len() == 0,
    ensures
        spec_fire_timer(input, fire, delta) == fire,
        spec_switch_timer(input, switch, delta) == switch,
        spec_key_actions(
            input,
            spec_fire_finished(input, fire, delta),
            spec_fire_timer(input, fire, delta).elapsed as u128,
            spec_switch_finished(input, switch, delta),
            selection,
        ).len() == 0,
        spec_key_selection(input, spec_switch_finished(input, switch, delta), selection) == selection,
        spec_key_affected(input, affected) == affected,
{
    assert forall|k: Key| !input.pressed@.contains(k) && !input.just_pressed@.contains(k)
        && !input.just_released@.contains(k) by {}
}

/// A frame in which only one digit key goes down (and nothing is held or goes
/// up) gives exactly one action, the switch of that digit's gizmos: the physics
/// gizmos on `0`, vertex, edge and face normals on `1`, `2` and `3`.
pub proof fn lemma_digit_keys(
    input: &KeyboardState,
    fire_finished: bool,
    fire_elapsed: u128,
    switch_finished: bool,
    selection: CollisionSceneSelection,
    digit: Key,
)
    requires
        digit == Key::Digit0 || digit == Key::Digit1 || digit == Key::Digit2 || digit == Key::Digit3,
        input.pressed@.len() == 0,
        input.just_released@.len() == 0,
        input.just_pressed@ == seq![digit],
    ensures
        spec_key_actions(input, fire_finished, fire_elapsed, switch_finished, selection) == seq![
            if digit == Key::Digit0 {
                KeyAction::TogglePhysicsGizmos
            } else if digit == Key::Digit1 {
                KeyAction::ToggleNormals(NormalKind::Vertex)
            } else if digit == Key::Digit2 {
                KeyAction::ToggleNormals(NormalKind::Edge)
            } else {
                KeyAction::ToggleNormals(NormalKind::Face)
            },
        ],
{
    assert forall|k: Key| !input.pressed@.contains(k) && !input.just_released@.contains(k) by {}
    assert forall|k: Key| input.just_pressed@.contains(k) <==> k == digit by {
        if k == digit {
            assert(input.just_pressed@[0] == k);
        }
    }
    assert(spec_key_actions(input, fire_finished, fire_elapsed, switch_finished, selection) =~= seq![
        if digit == Key::Digit0 {
            KeyAction::TogglePhysicsGizmos
        } else if digit == Key::Digit1 {
            KeyAction::ToggleNormals(NormalKind::Vertex)
        } else if digit == Key::Digit2 {
            KeyAction::ToggleNormals(NormalKind::Edge)
        } else {
            KeyAction::ToggleNormals(NormalKind::Face)
        },
    ]);
}

/// The scene after a frame is the one before it, its successor or its
/// predecessor in the playlist.
pub proof fn lemma_selection_moves_one_step(
    input: &KeyboardState,
    switch_finished: bool,
    selection: CollisionSceneSelection,
)
    ensures
        spec_key_selection(input, switch_finished, selection) == selection
            || spec_key_selection(input, switch_finished, selection) == selection.spec_next()
            || spec_key_selection(input, switch_finished, selection) == selection.spec_prev(),
{
}

/// Nanoseconds between shots while Enter is held.
pub const FIRE_PERIOD_NANOS: u64 = 3_000_000_000;

/// Nanoseconds an arrow must be held before the scene switches: a thirtieth of
/// a second, as the nearest `f32` gives it.
pub const SWITCH_DELAY_NANOS: u64 = 33_333_335;

/// The timers that keyboard handling keeps from frame to frame: one paces the
/// firing while Enter is held, one delays a scene switch while an arrow is held.
pub struct KeyTimers {
    fire: ModeledTimer,
    switch: ModeledTimer,
}

impl KeyTimers {
    /// The state of the fire timer.
    pub closed spec fn fire(&self) -> TimerModel {
        self.fire.model()
    }

    /// The state of the switch timer.
    pub closed spec fn switch(&self) -> TimerModel {
        self.switch.model()
    }

    /// Two timers that have not been armed yet: one-shot, of zero duration.
    pub fn new() -> (r: KeyTimers)
        ensures
            r.fire() == TimerModel::fresh(0, false),
            r.switch() == TimerModel::fresh(0, false),
    {
        KeyTimers { fire: timer_default(), switch: timer_default() }
    }

    /// Whether the switch timer would report a scene switch on this frame,
    /// found on a copy of the timer: no arrow went down, an arrow is held, and
    /// the tick by `delta_nanos` just finishes it.
    pub fn switch_finishes(&self, input: &KeyboardState, delta_nanos: u64) -> (r: bool)
        ensures
            r == spec_switch_finished(input, self.switch(), delta_nanos as nat),
    {
        let arrow_down = contains_key(&input.just_pressed, Key::ArrowLeft) || contains_key(
            &input.just_pressed,
            Key::ArrowRight,
        );
        let arrow_held = contains_key(&input.pressed, Key::ArrowLeft) || contains_key(
            &input.pressed,
            Key::ArrowRight,
        );
        if !arrow_down && arrow_held {
            let mut copy = self.switch.clone();
            timer_tick(&mut copy, delta_nanos);
            timer_just_finished(&copy)
        } else {
            false
        }
    }
}

/// The fire timer after the frame: re-armed as a three-second repeating timer
/// when Enter goes down, then ticked by `delta` while Enter is held.
pub open spec fn spec_fire_timer(input: &KeyboardState, fire: TimerModel, delta: nat) -> TimerModel {
    let armed = if input.went_down(Key::Enter) {
        TimerModel::fresh(FIRE_PERIOD_NANOS as nat, true)
    } else {
        fire
    };
    if input.held(Key::Enter) {
        armed.ticked(delta)
    } else {
        armed
    }
}

/// The fire timer reports a shot: Enter is held and its tick just finished.
pub open spec fn spec_fire_finished(input: &KeyboardState, fire: TimerModel, delta: nat) -> bool {
    input.held(Key::Enter) && spec_fire_timer(input, fire, delta).just_finished()
}

/// The switch timer after the frame: re-armed as a one-shot timer when an arrow
/// goes down, else ticked by `delta` while an arrow is held, else reset when an
/// arrow goes up.
pub open spec fn spec_switch_timer(input: &KeyboardState, switch: TimerModel, delta: nat) -> TimerModel {
    if any_arrow(input.just_pressed@) {
        TimerModel::fresh(SWITCH_DELAY_NANOS as nat, false)
    } else if any_arrow(input.pressed@) {
        switch.ticked(delta)
    } else if any_arrow(input.just_released@) {
        switch.reset()
    } else {
        switch
    }
}

/// The switch timer reports that the scene may switch: no arrow went down, an
/// arrow is held, and its tick just finished.
pub open spec fn spec_switch_finished(input: &KeyboardState, switch: TimerModel, delta: nat) -> bool {
    !any_arrow(input.just_pressed@) && any_arrow(input.pressed@) && spec_switch_timer(
        input,
        switch,
        delta,
    ).just_finished()
}

/// One frame of keyboard handling: the timers change as `spec_fire_timer` and
/// `spec_switch_timer` say, and the actions are those of `plan_key_actions` for
/// what the timers then report and the time elapsed on the fire timer.
pub fn handle_keys(
    input: &KeyboardState,
    delta_nanos: u64,
    timers: &mut KeyTimers,
    selection: CollisionSceneSelection,
    affected: IncludeColliders,
) -> (r: KeyOutcome)
    requires
        selection.in_playlist() || !spec_switch_finished(input, old(timers).switch(), delta_nanos as nat),
    ensures
        final(timers).fire() == spec_fire_timer(input, old(timers).fire(), delta_nanos as nat),
        final(timers).switch() == spec_switch_timer(input, old(timers).switch(), delta_nanos as nat),
        r.actions@ == spec_key_actions(
            input,
            spec_fire_finished(input, old(timers).fire(), delta_nanos as nat),
            final(timers).fire().elapsed as u128,
            spec_switch_finished(input, old(timers).switch(), delta_nanos as nat),
            selection,
        ),
        r.selection == spec_key_selection(
            input,
            spec_switch_finished(input, old(timers).switch(), delta_nanos as nat),
            selection,
        ),
        r.affected == spec_key_affected(input, affected),
        selection.in_playlist() ==> r.selection.in_playlist(),
        input.just_pressed@.contains(Key::Enter) ==> {
            &&& final(timers).fire().duration == FIRE_PERIOD_NANOS
            &&& final(timers).fire().repeating
            &&& final(timers).fire().elapsed == if input.pressed@.contains(Key::Enter) {
                delta_nanos % FIRE_PERIOD_NANOS
            } else {
                0
            }
        },
{
    proof {
        if input.just_pressed@.contains(Key::Enter) {
            lemma_enter_press_rearms_fire_timer(input, old(timers).fire(), delta_nanos as nat);
        }
    }
    if contains_key(&input.just_pressed, Key::Enter) {
        timers.fire = timer_new_repeating(FIRE_PERIOD_NANOS);
    }
    let mut fire_finished = false;
    if contains_key(&input.pressed, Key::Enter) {
        timer_tick(&mut timers.fire, delta_nanos);
        fire_finished = timer_just_finished(&timers.fire);
    }
    let fire_elapsed = timer_elapsed_nanos(&timers.fire);

    let arrow_down = contains_key(&input.just_pressed, Key::ArrowLeft) || contains_key(
        &input.just_pressed,
        Key::ArrowRight,
    );
    let arrow_held = contains_key(&input.pressed, Key::ArrowLeft) || contains_key(
        &input.pressed,
        Key::ArrowRight,
    );
    let arrow_up = contains_key(&input.just_released, Key::ArrowLeft) || contains_key(
        &input.just_released,
        Key::ArrowRight,
    );
    let mut switch_finished = false;
    if arrow_down {
        timers.switch = timer_new_once(SWITCH_DELAY_NANOS);
    } else if arrow_held {
        timer_tick(&mut timers.switch, delta_nanos);
        switch_finished = timer_just_finished(&timers.switch);
    } else if arrow_up {
        timer_reset(&mut timers.switch);
    }
    plan_key_actions(input, fire_finished, fire_elapsed, switch_finished, selection, affected)
}

} // verus!
