use trimesh_testbed::program_state::ProgramState;
use trimesh_testbed::timing::{repeating_with_delay, SetupDelay};

#[test]
fn repeating_delay_yields_every_period() {
    let mut cond = repeating_with_delay(2_000_000_000);
    assert!(!cond.poll(1000000000u64));
    assert!(cond.poll(1000000000u64));
    assert!(!cond.poll(500000000u64));
    assert!(cond.poll(1600000000u64));
}

#[test]
fn setup_delay_is_one_second() {
    let mut delay = SetupDelay::new();
    let setup = ProgramState::Setup;
    assert_eq!(delay.set_in_game_soon(setup, 400000000u64), setup);
    assert_eq!(delay.set_in_game_soon(setup, 500000000u64), setup);
    assert_eq!(delay.set_in_game_soon(setup, 100000000u64), ProgramState::InGame);
    // a finished delay stays finished: the next setup goes in game at once
    assert_eq!(delay.set_in_game_soon(setup, 1000000u64), ProgramState::InGame);
}

#[test]
fn repeating_delay_counts_whole_periods() {
    let mut cond = repeating_with_delay(100);
    let deltas = [30u64, 30, 30, 30, 100, 5, 95, 60];
    let trues = deltas.iter().filter(|d| cond.poll(**d)).count();
    // 380 units of frame time hold three whole periods
    assert_eq!(trues, 3);
}

#[test]
fn cloned_delay_runs_separately() {
    let mut first = repeating_with_delay(100);
    assert!(!first.poll(60));
    let mut second = first.clone();
    assert!(second.poll(40));
    assert!(!first.poll(30));
    assert!(first.poll(10));
    assert!(!second.poll(10));
}
