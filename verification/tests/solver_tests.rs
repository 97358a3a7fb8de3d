use d15_solver::game::{Color, D15Game, Move, PlayerState, Point};
use d15_solver::solver::Solver;

fn pt(x: i8, y: i8) -> Point {
    Point { x, y }
}

/// A board one move short of a win: the boss sits in the centre with the
/// cat, dog and dragon pinned on three of its four neighbouring cells
/// (their low-health policies keep them there), and the player two cells
/// below the free neighbour.
fn near_win_board(hp: i16) -> D15Game {
    D15Game::new(
        hp,
        pt(4, 4),
        pt(4, 2),
        pt(3, 4),
        pt(5, 4),
        pt(4, 5),
        PlayerState::ARMOR,
        Color::YELLOW,
    )
}

/// A board that can never win: with the boss in the corner, two of its
/// neighbouring cells lie outside the room.
fn hopeless_board(hp: i16) -> D15Game {
    D15Game::new(
        hp,
        pt(0, 0),
        pt(5, 5),
        pt(7, 0),
        pt(7, 6),
        pt(6, 7),
        PlayerState::ARMOR,
        Color::YELLOW,
    )
}

#[test]
fn fresh_solver_is_empty() {
    let s = Solver::new();
    assert!(s.solve.is_none());
    assert_eq!(s.besthp, 0);
    assert!(!s.search_best);
    assert_eq!(s.visited_count(), 0);
    assert_eq!(s.checked_perms.len(), 0);
}

#[test]
fn first_solution_mode_takes_first_win_and_stops() {
    // with the bound at 47 only depth-one states can beat it, so the
    // search must return the first winning child in enumeration order
    // (up, after left, right and down fail) and then prune every
    // remaining sibling once the bound is raised to the ceiling.
    let g = near_win_board(50);
    let mut s = Solver::new();
    s.besthp = 47;
    s.solve(&g, &Vec::new());
    assert_eq!(s.solve, Some(vec![Move::UP]));
    assert_eq!(s.besthp, 201);
    // expanded and recorded: the root and its left, right and down
    // children; the winning child returns before being recorded, and the
    // siblings after it are pruned by the raised bound.
    assert_eq!(s.visited_count(), 4);
}

#[test]
fn visited_state_is_not_expanded_twice() {
    let g = near_win_board(50);
    let mut s = Solver::new();
    s.besthp = 47;
    s.solve(&g, &Vec::new());
    let seen = s.visited_count();
    // lower the bound again and search the identical state a second
    // time: the transposition table must answer before any expansion, so
    // neither the table nor the bound may change.
    s.besthp = 47;
    s.solve(&g, &Vec::new());
    assert_eq!(s.visited_count(), seen);
    assert_eq!(s.besthp, 47);
    // while the recorded solution from the first pass is retained.
    assert_eq!(s.solve, Some(vec![Move::UP]));
}

#[test]
fn do_solve_finds_a_replayable_win() {
    let g = near_win_board(50);
    let mut s = Solver::new();
    s.do_solve(&g);
    let moves = s.solve.clone().expect("a solution must be found");
    // first-solution mode: the bound is raised to the ceiling on a win.
    assert!(!s.search_best);
    assert_eq!(s.besthp, 201);
    // the recorded sequence must replay from the start state to a win
    // with health above the initial bound for this health band.
    let mut replayed = g;
    for m in moves.iter() {
        replayed.do_move(m);
    }
    assert!(replayed.check_win_2());
    assert!(replayed.hp > 35);
}

#[test]
fn node_budget_stops_the_search() {
    // with only two nodes allowed, the search charges the root and its
    // first child and then gives up everywhere else, so the win four
    // children later is never reached.
    let g = near_win_board(50);
    let mut s = Solver::new();
    s.besthp = 47;
    s.node_budget = Some(2);
    s.solve(&g, &Vec::new());
    assert_eq!(s.node_budget, Some(0));
    assert!(s.solve.is_none());
    assert_eq!(s.besthp, 47);
    assert_eq!(s.visited_count(), 2);
    // an exhausted budget leaves the solver entirely untouched.
    s.solve(&g, &Vec::new());
    assert_eq!(s.node_budget, Some(0));
    assert!(s.solve.is_none());
    assert_eq!(s.besthp, 47);
    assert_eq!(s.visited_count(), 2);
}

#[test]
fn do_solve_tries_switch_first_in_sword_mode() {
    // starting with the sword, the switch move is reordered to the front
    // of the root branches; its subtree holds a win, so the recorded
    // solution must begin with the switch.
    let g = D15Game::new(
        50,
        pt(4, 4),
        pt(4, 2),
        pt(3, 4),
        pt(5, 4),
        pt(4, 5),
        PlayerState::SWORD,
        Color::YELLOW,
    );
    let mut s = Solver::new();
    s.do_solve(&g);
    let moves = s.solve.clone().expect("a solution must be found");
    assert_eq!(moves.first(), Some(&Move::SWITCH));
    let mut replayed = g;
    for m in moves.iter() {
        replayed.do_move(m);
    }
    assert!(replayed.check_win_2());
}

#[test]
fn do_solve_reports_no_solution_when_none_exists() {
    let g = hopeless_board(50);
    let mut s = Solver::new();
    s.do_solve(&g);
    assert!(s.solve.is_none());
    // nothing was found, so the bound still stands at its initial value
    // for this health band.
    assert_eq!(s.besthp, 35);
    assert!(!s.search_best);
}

#[test]
fn do_solve_bound_for_mid_band_health() {
    // between 61 and 128 health, away from boss column 5, the initial
    // bound is 47; on a hopeless board it never moves.
    let g = hopeless_board(61);
    let mut s = Solver::new();
    s.do_solve(&g);
    assert!(s.solve.is_none());
    assert_eq!(s.besthp, 47);
}

#[test]
fn solution_survives_the_token_round_trip() {
    // the solver's answer, rendered for the caller and parsed back,
    // is the same move sequence.
    let g = near_win_board(50);
    let mut s = Solver::new();
    s.do_solve(&g);
    let moves = s.solve.clone().expect("a solution must be found");
    let text = d15_solver::tokens::format_moves(&moves);
    assert_eq!(d15_solver::tokens::tokenize_moves(&text), Some(moves));
}
