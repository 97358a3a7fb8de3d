use d15_solver::game::{Color, D15Game, Entity, LossRule, Move, PlayerState, Point};

fn pt(x: i8, y: i8) -> Point {
    Point { x, y }
}

fn mk(
    hp: i16,
    boss: (i8, i8),
    player: (i8, i8),
    cat: (i8, i8),
    dog: (i8, i8),
    dragon: (i8, i8),
    ps: PlayerState,
    seq: Color,
) -> D15Game {
    D15Game::new(
        hp,
        pt(boss.0, boss.1),
        pt(player.0, player.1),
        pt(cat.0, cat.1),
        pt(dog.0, dog.1),
        pt(dragon.0, dragon.1),
        ps,
        seq,
    )
}

fn all_positions(g: &D15Game) -> [Point; 5] {
    [
        *g.get_entity_position(Entity::PLAYER),
        *g.get_entity_position(Entity::BOSS),
        *g.get_entity_position(Entity::CAT),
        *g.get_entity_position(Entity::DOG),
        *g.get_entity_position(Entity::DRAGON),
    ]
}

fn assert_well_formed(g: &D15Game) {
    let ps = all_positions(g);
    for p in ps.iter() {
        assert!(0 <= p.x && p.x <= 7, "x out of bounds");
        assert!(0 <= p.y && p.y <= 7, "y out of bounds");
    }
    for i in 0..5 {
        for j in (i + 1)..5 {
            assert!(ps[i] != ps[j], "two entities share a cell");
        }
    }
}

#[test]
fn band1_dog_jump_cat_chase_dragon_mirror() {
    // hp above the first threshold: the dog jumps five cells in its
    // phase-preferred direction, the cat steps toward the dragon, the
    // dragon reflects through the player.
    let mut g = mk(
        140,
        (7, 7),
        (2, 5),
        (6, 6),
        (0, 0),
        (0, 6),
        PlayerState::ARMOR,
        Color::YELLOW,
    );
    g.do_move(&Move::UP);
    assert_eq!(*g.get_entity_position(Entity::PLAYER), pt(2, 6));
    // dog at (0,0) stands on a red cell in the yellow phase: preferred
    // direction is right, and the five-cell jump to (5,0) is free.
    assert_eq!(*g.get_entity_position(Entity::DOG), pt(5, 0));
    // cat steps from (6,6) toward the dragon at (0,6): larger offset on x.
    assert_eq!(*g.get_entity_position(Entity::CAT), pt(5, 6));
    // dragon at (0,6) reflects through the moved player (2,6) to (4,6).
    assert_eq!(*g.get_entity_position(Entity::DRAGON), pt(4, 6));
    assert_eq!(g.hp, 138);
    assert_eq!(g.sequence, Color::GREEN);
    assert_well_formed(&g);
}

#[test]
fn band2_dog_cat_swap_and_cat_scan() {
    // second band: the dog swaps with the cat, the relocated cat then
    // walks up to three cells downward, the dragon rests.
    let mut g = mk(
        120,
        (7, 7),
        (0, 0),
        (6, 1),
        (3, 3),
        (1, 1),
        PlayerState::ARMOR,
        Color::RED,
    );
    g.do_move(&Move::RIGHT);
    assert_eq!(*g.get_entity_position(Entity::PLAYER), pt(1, 0));
    assert_eq!(*g.get_entity_position(Entity::DOG), pt(6, 1));
    assert_eq!(*g.get_entity_position(Entity::CAT), pt(3, 0));
    assert_eq!(*g.get_entity_position(Entity::DRAGON), pt(1, 1));
    assert_eq!(g.hp, 118);
    assert_eq!(g.sequence, Color::BLUE);
    assert_well_formed(&g);
}

#[test]
fn band3_dog_scan_cat_flee_dragon_center() {
    // third band: the dog walks upward, the cat steps away from the
    // player, the dragon reflects through the room centre.
    let mut g = mk(
        80,
        (7, 0),
        (0, 0),
        (1, 3),
        (2, 2),
        (6, 6),
        PlayerState::ARMOR,
        Color::YELLOW,
    );
    g.do_move(&Move::RIGHT);
    assert_eq!(*g.get_entity_position(Entity::PLAYER), pt(1, 0));
    assert_eq!(*g.get_entity_position(Entity::DOG), pt(2, 5));
    assert_eq!(*g.get_entity_position(Entity::CAT), pt(1, 4));
    assert_eq!(*g.get_entity_position(Entity::DRAGON), pt(1, 1));
    assert_eq!(g.hp, 78);
    assert_well_formed(&g);
}

#[test]
fn band4_dog_dragon_swap() {
    // lowest band: the dog swaps with the dragon, the cat walks right,
    // the dragon (now on the old dog cell) walks left.
    let mut g = mk(
        50,
        (4, 4),
        (4, 2),
        (3, 4),
        (5, 4),
        (4, 5),
        PlayerState::ARMOR,
        Color::YELLOW,
    );
    g.do_move(&Move::UP);
    assert_eq!(*g.get_entity_position(Entity::PLAYER), pt(4, 3));
    assert_eq!(*g.get_entity_position(Entity::DOG), pt(4, 5));
    assert_eq!(*g.get_entity_position(Entity::DRAGON), pt(5, 4));
    assert_eq!(*g.get_entity_position(Entity::CAT), pt(3, 4));
    assert_eq!(g.hp, 48);
    assert!(g.check_win_2());
    assert!(g.check_win());
    assert_well_formed(&g);
}

#[test]
fn determinism_same_state_same_move() {
    let g = mk(
        140,
        (7, 7),
        (2, 5),
        (6, 6),
        (0, 0),
        (0, 6),
        PlayerState::SWORD,
        Color::BLUE,
    );
    let mut a = g;
    let mut b = g;
    a.do_move(&Move::DOG);
    b.do_move(&Move::DOG);
    assert_eq!(a, b);
}

#[test]
fn health_never_increases() {
    let mut g = mk(
        130,
        (7, 7),
        (2, 5),
        (6, 6),
        (0, 0),
        (0, 6),
        PlayerState::ARMOR,
        Color::YELLOW,
    );
    let moves = [Move::PASSTURN, Move::DOG, Move::SWITCH, Move::CAT, Move::DRAGON];
    for m in moves.iter() {
        let before = g.hp;
        g.do_move(m);
        assert!(g.hp < before, "health must strictly decrease");
        assert_well_formed(&g);
    }
}

#[test]
fn pass_costs_extra_and_keeps_everything_else() {
    let g0 = mk(
        130,
        (7, 7),
        (2, 5),
        (6, 6),
        (0, 0),
        (0, 6),
        PlayerState::ARMOR,
        Color::YELLOW,
    );
    let mut g = g0;
    g.do_move(&Move::PASSTURN);
    // 25 for the pass plus the fixed armor decay of 2.
    assert_eq!(g.hp, 103);
    // no reactive movement and no phase advance on a pass.
    assert_eq!(g.sequence, Color::YELLOW);
    assert_eq!(all_positions(&g), all_positions(&g0));
    assert_eq!(g.playerstate, PlayerState::ARMOR);
}

#[test]
fn phase_advances_once_per_non_pass_move() {
    let mut g = mk(
        120,
        (7, 7),
        (0, 0),
        (6, 1),
        (3, 3),
        (1, 1),
        PlayerState::ARMOR,
        Color::YELLOW,
    );
    g.do_move(&Move::DOG);
    assert_eq!(g.sequence, Color::GREEN);
    g.do_move(&Move::CAT);
    assert_eq!(g.sequence, Color::RED);
    g.do_move(&Move::SWITCH);
    assert_eq!(g.sequence, Color::BLUE);
    g.do_move(&Move::DRAGON);
    assert_eq!(g.sequence, Color::YELLOW);
}

#[test]
fn switch_toggles_mode_and_step_distance() {
    let mut g = mk(
        150,
        (7, 7),
        (2, 2),
        (6, 6),
        (0, 0),
        (0, 6),
        PlayerState::SWORD,
        Color::YELLOW,
    );
    g.do_move(&Move::SWITCH);
    assert_eq!(g.playerstate, PlayerState::ARMOR);
    // the fixed decay is charged after the switch, at the armor rate.
    assert_eq!(g.hp, 148);
}

#[test]
fn sword_moves_two_cells() {
    let mut g = mk(
        150,
        (7, 7),
        (2, 2),
        (6, 6),
        (0, 0),
        (0, 6),
        PlayerState::SWORD,
        Color::YELLOW,
    );
    g.do_move(&Move::RIGHT);
    assert_eq!(*g.get_entity_position(Entity::PLAYER), pt(4, 2));
    assert_eq!(g.hp, 146);
}

#[test]
fn swap_move_exchanges_player_and_named_entity() {
    let g0 = mk(
        150,
        (7, 7),
        (2, 2),
        (6, 6),
        (0, 0),
        (0, 6),
        PlayerState::ARMOR,
        Color::YELLOW,
    );
    let mut g = g0;
    g.do_move(&Move::CAT);
    // the player lands on the cat's old cell; the cat is then moved by
    // its own reactive policy from the player's old cell.
    assert_eq!(*g.get_entity_position(Entity::PLAYER), pt(6, 6));
    assert_well_formed(&g);
}

#[test]
fn win_depends_on_occupancy_not_identity() {
    // the same four cells around the boss, covered by two different
    // assignments of the four non-boss entities.
    let a = mk(
        150,
        (4, 4),
        (5, 4),
        (3, 4),
        (4, 5),
        (4, 3),
        PlayerState::ARMOR,
        Color::YELLOW,
    );
    let b = mk(
        150,
        (4, 4),
        (4, 3),
        (4, 5),
        (3, 4),
        (5, 4),
        PlayerState::ARMOR,
        Color::YELLOW,
    );
    assert!(a.check_win());
    assert!(b.check_win());
    assert!(a.check_win_2());
    assert!(b.check_win_2());
    // removing one covered cell breaks the win for any assignment.
    let c = mk(
        150,
        (4, 4),
        (5, 4),
        (3, 4),
        (4, 5),
        (0, 0),
        PlayerState::ARMOR,
        Color::YELLOW,
    );
    assert!(!c.check_win());
    assert!(!c.check_win_2());
}

#[test]
fn win_checks_differ_on_row_wrap() {
    // with the boss on the left wall, the index-based check accepts an
    // entity on the far right of the row below as the "left" neighbour,
    // while the position-based check does not.
    let g = mk(
        150,
        (0, 3),
        (1, 3),
        (0, 4),
        (0, 2),
        (7, 2),
        PlayerState::ARMOR,
        Color::YELLOW,
    );
    assert!(g.check_win_2());
    assert!(!g.check_win());
}

#[test]
fn loss_rules() {
    let g = |hp: i16, bx: i8| {
        mk(
            hp,
            (bx, 7),
            (0, 0),
            (6, 1),
            (3, 3),
            (1, 1),
            PlayerState::ARMOR,
            Color::YELLOW,
        )
    };
    assert!(g(169, 0).check_over_dead());
    assert!(!g(170, 0).check_over_dead());
    assert!(g(54, 5).is_loss_with(LossRule::BossTuned));
    assert!(!g(55, 5).is_loss_with(LossRule::BossTuned));
    assert!(g(47, 4).is_loss_with(LossRule::BossTuned));
    assert!(!g(48, 4).is_loss_with(LossRule::BossTuned));
}

#[test]
fn legal_moves_at_health_130() {
    // health 130, armor, yellow phase, all four directional moves free:
    // the pass window closes at the first health threshold, so exactly
    // the four directional moves plus the three swaps and the switch are
    // offered, and no pass.
    let g = mk(
        130,
        (5, 5),
        (2, 2),
        (0, 0),
        (7, 7),
        (0, 7),
        PlayerState::ARMOR,
        Color::YELLOW,
    );
    let moves = g.get_possible_moves();
    assert_eq!(
        moves,
        vec![
            Move::LEFT,
            Move::RIGHT,
            Move::DOWN,
            Move::UP,
            Move::DOG,
            Move::CAT,
            Move::DRAGON,
            Move::SWITCH,
        ]
    );
}

#[test]
fn legal_moves_offer_pass_below_first_threshold() {
    // just below the first health threshold the pass is offered ahead of
    // the directional moves.
    let g = mk(
        129,
        (5, 5),
        (2, 2),
        (0, 0),
        (7, 7),
        (0, 7),
        PlayerState::ARMOR,
        Color::YELLOW,
    );
    let moves = g.get_possible_moves();
    assert_eq!(
        moves,
        vec![
            Move::PASSTURN,
            Move::LEFT,
            Move::RIGHT,
            Move::DOWN,
            Move::UP,
            Move::DOG,
            Move::CAT,
            Move::DRAGON,
            Move::SWITCH,
        ]
    );
}

#[test]
fn legal_moves_exclude_pass_outside_window() {
    let g = mk(
        150,
        (5, 5),
        (2, 2),
        (0, 0),
        (7, 7),
        (0, 7),
        PlayerState::ARMOR,
        Color::YELLOW,
    );
    let moves = g.get_possible_moves();
    assert_eq!(
        moves,
        vec![
            Move::LEFT,
            Move::RIGHT,
            Move::DOWN,
            Move::UP,
            Move::DOG,
            Move::CAT,
            Move::DRAGON,
            Move::SWITCH,
        ]
    );
}

#[test]
fn legal_moves_drop_blocked_directions() {
    // the player on the left wall with the cat directly above: left is
    // out of bounds and up is occupied.
    let g = mk(
        150,
        (5, 5),
        (0, 2),
        (0, 3),
        (7, 7),
        (0, 7),
        PlayerState::ARMOR,
        Color::YELLOW,
    );
    let moves = g.get_possible_moves();
    assert_eq!(
        moves,
        vec![
            Move::RIGHT,
            Move::DOWN,
            Move::DOG,
            Move::CAT,
            Move::DRAGON,
            Move::SWITCH,
        ]
    );
}

#[test]
fn pass_window_narrows_when_boss_on_column_five() {
    // with the boss on column 5, health 90 offers no early pass but a
    // late one after the fixed moves.
    let g = mk(
        90,
        (5, 5),
        (2, 2),
        (0, 0),
        (7, 7),
        (0, 7),
        PlayerState::ARMOR,
        Color::YELLOW,
    );
    let moves = g.get_possible_moves();
    assert_eq!(moves.last(), Some(&Move::PASSTURN));
    assert_eq!(moves.first(), Some(&Move::LEFT));
    // away from column 5 the same health offers the pass up front.
    let h = mk(
        90,
        (4, 5),
        (2, 2),
        (0, 0),
        (7, 7),
        (0, 7),
        PlayerState::ARMOR,
        Color::YELLOW,
    );
    assert_eq!(h.get_possible_moves().first(), Some(&Move::PASSTURN));
}

#[test]
fn invariants_hold_along_a_long_random_walk() {
    // replay a fixed mixed move list, checking the board invariant and
    // health monotonicity after every turn; directional moves are taken
    // only when the enumeration offers them.
    let mut g = mk(
        160,
        (5, 5),
        (2, 2),
        (0, 0),
        (7, 7),
        (0, 7),
        PlayerState::SWORD,
        Color::YELLOW,
    );
    let script = [
        Move::SWITCH,
        Move::UP,
        Move::DOG,
        Move::LEFT,
        Move::CAT,
        Move::RIGHT,
        Move::DRAGON,
        Move::DOWN,
        Move::SWITCH,
        Move::UP,
        Move::DOG,
        Move::CAT,
    ];
    for m in script.iter() {
        if !g.get_possible_moves().contains(m) {
            continue;
        }
        let before = g.hp;
        g.do_move(m);
        assert!(g.hp <= before - 2);
        assert_well_formed(&g);
    }
}
