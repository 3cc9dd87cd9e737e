use bs_cli::ivol::{solve, BisectionState, SolveError, GRID_STEPS};
use std::cell::Cell;

fn vol_of_half_steps(e: u32) -> f64 {
    20.0 * e as f64 / (2.0 * GRID_STEPS as f64)
}

fn vol_of_index(m: u32) -> f64 {
    20.0 * m as f64 / GRID_STEPS as f64
}

#[test]
fn call_round_trip_recovers_volatility() {
    let r = solve(|m| vol_of_index(m) > 0.6);
    assert_eq!(r, Ok(15729));
    let vol = vol_of_half_steps(15729);
    assert_eq!(vol, 0.6000137329101563);
    assert!((vol - 0.6).abs() < 0.0001);
}

#[test]
fn put_round_trip_recovers_volatility() {
    let r = solve(|m| vol_of_index(m) > 0.5997);
    assert_eq!(r, Ok(15721));
    assert_eq!(vol_of_half_steps(15721), 0.5997085571289063);
}

#[test]
fn crossing_on_a_grid_point_lands_in_the_upper_bracket() {
    assert_eq!(solve(|m| m > 100), Ok(201));
}

#[test]
fn every_probe_above_target_has_no_solution() {
    assert_eq!(solve(|_m| true), Err(SolveError::NoSolutionFound));
}

#[test]
fn no_probe_above_target_is_out_of_range() {
    assert_eq!(solve(|_m| false), Err(SolveError::OutOfRange));
}

#[test]
fn search_prices_eighteen_probes() {
    let probes = Cell::new(0u32);
    let r = solve(|m| {
        probes.set(probes.get() + 1);
        m > 5000
    });
    assert_eq!(r, Ok(10001));
    assert_eq!(probes.get(), 18);
}

#[test]
fn bisection_state_halves_the_bracket() {
    let mut s = BisectionState::new();
    assert_eq!((s.low(), s.high()), (0, GRID_STEPS));
    assert!(!s.is_converged());
    assert_eq!(s.midpoint(), 131072);
    s.step(true);
    assert_eq!((s.low(), s.high()), (0, 131072));
    assert_eq!(s.midpoint(), 65536);
    s.step(false);
    assert_eq!((s.low(), s.high()), (65536, 131072));
    assert_eq!(s.outcome(), Ok(196608));
}

#[test]
fn bisection_state_converges_to_one_step() {
    let mut s = BisectionState::new();
    let mut steps = 0u32;
    while !s.is_converged() {
        let above = s.midpoint() > 7864;
        s.step(above);
        steps += 1;
    }
    assert_eq!(steps, 18);
    assert_eq!((s.low(), s.high()), (7864, 7865));
    assert_eq!(s.outcome(), Ok(15729));
}

#[test]
fn bisection_state_outcome_at_the_boundaries() {
    let mut low = BisectionState::new();
    while !low.is_converged() {
        low.step(true);
    }
    assert_eq!((low.low(), low.high()), (0, 1));
    assert_eq!(low.outcome(), Err(SolveError::NoSolutionFound));

    let mut high = BisectionState::new();
    while !high.is_converged() {
        high.step(false);
    }
    assert_eq!((high.low(), high.high()), (GRID_STEPS - 1, GRID_STEPS));
    assert_eq!(high.outcome(), Err(SolveError::OutOfRange));
}
