//! The simulation engine: the bounded grid, the five entities, legal-move
//! enumeration and the deterministic turn-resolution rules.

use vstd::prelude::*;

verus! {

pub const ROOM_MAX_X: i8 = 7;

pub const ROOM_MAX_Y: i8 = 7;

/// Health band limits: the reactive entities change behaviour as the
/// player's health falls through these thresholds.
pub const PATTERN_1_LIMIT: i16 = 130;

pub const PATTERN_2_LIMIT: i16 = 100;

pub const PATTERN_3_LIMIT: i16 = 60;

/// A cell of the room. Coordinates of cells inside the room lie in
/// `[0, ROOM_MAX_X] x [0, ROOM_MAX_Y]`; values outside that range denote
/// positions that no entity may occupy.
#[derive(PartialEq, Eq, Structural, Hash, Clone, Copy, Debug)]
pub struct Point {
    pub x: i8,
    pub y: i8,
}

/// The reaction-cycle colour: a four-valued phase that advances by one
/// cyclic step on every turn that is not a pass.
#[derive(PartialEq, Eq, Structural, Copy, Clone, Hash, Debug)]
pub enum Color {
    YELLOW,
    GREEN,
    RED,
    BLUE,
}

/// The player's mode: sword doubles the step distance but also the fixed
/// per-turn health decay.
#[derive(PartialEq, Eq, Structural, Copy, Clone, Hash, Debug)]
pub enum PlayerState {
    SWORD,
    ARMOR,
}

/// A move the player can make on one turn.
#[derive(PartialEq, Eq, Structural, Copy, Clone, Debug)]
pub enum Move {
    LEFT,
    RIGHT,
    UP,
    DOWN,
    DOG,
    CAT,
    DRAGON,
    SWITCH,
    PASSTURN,
}

/// The five pieces on the board.
#[derive(PartialEq, Eq, Structural, Clone, Copy, Debug)]
pub enum Entity {
    PLAYER,
    BOSS,
    CAT,
    DOG,
    DRAGON,
}

/// The full, value-comparable, hashable game snapshot. Two states are equal
/// iff all fields are equal, and the derived `Hash` covers every field.
#[derive(PartialEq, Eq, Structural, Hash, Clone, Copy, Debug)]
pub struct D15Game {
    pub hp: i16,
    pub player: Point,
    pub boss: Point,
    pub cat: Point,
    pub dog: Point,
    pub dragon: Point,
    pub playerstate: PlayerState,
    pub sequence: Color,
}

/// Whether a position lies inside the room bounds.
pub open spec fn in_room(p: Point) -> bool {
    0 <= p.x <= ROOM_MAX_X && 0 <= p.y <= ROOM_MAX_Y
}

/// The current position of an entity.
pub open spec fn pos_spec(g: D15Game, e: Entity) -> Point {
    match e {
        Entity::PLAYER => g.player,
        Entity::BOSS => g.boss,
        Entity::CAT => g.cat,
        Entity::DOG => g.dog,
        Entity::DRAGON => g.dragon,
    }
}

/// Whether some entity other than `e` stands on `t`.
pub open spec fn blocked_for_spec(g: D15Game, e: Entity, t: Point) -> bool {
    ||| (e != Entity::PLAYER && g.player == t)
    ||| (e != Entity::BOSS && g.boss == t)
    ||| (e != Entity::CAT && g.cat == t)
    ||| (e != Entity::DOG && g.dog == t)
    ||| (e != Entity::DRAGON && g.dragon == t)
}

/// Whether `e` may legally stand on `t`: inside the room and not occupied
/// by any other entity.
pub open spec fn can_move_spec(g: D15Game, t: Point, e: Entity) -> bool {
    in_room(t) && !blocked_for_spec(g, e, t)
}

/// Well-formedness of a state: every entity inside the room and no two
/// entities on the same cell.
pub open spec fn wf(g: D15Game) -> bool {
    &&& in_room(g.player)
    &&& in_room(g.boss)
    &&& in_room(g.cat)
    &&& in_room(g.dog)
    &&& in_room(g.dragon)
    &&& g.player != g.boss
    &&& g.player != g.cat
    &&& g.player != g.dog
    &&& g.player != g.dragon
    &&& g.boss != g.cat
    &&& g.boss != g.dog
    &&& g.boss != g.dragon
    &&& g.cat != g.dog
    &&& g.cat != g.dragon
    &&& g.dog != g.dragon
}

/// Point reflection of `p` through `r`.
pub open spec fn mirror_spec(p: Point, r: Point) -> Point {
    Point { x: (p.x + 2 * (r.x - p.x)) as i8, y: (p.y + 2 * (r.y - p.y)) as i8 }
}

/// Point reflection of `p` through the room centre.
pub open spec fn mirror_center_spec(p: Point) -> Point {
    Point { x: (ROOM_MAX_X - p.x) as i8, y: (ROOM_MAX_Y - p.y) as i8 }
}

/// A cell packed into a single row-major index.
pub open spec fn ser_spec(p: Point) -> int {
    p.y * 8 + p.x
}

impl Point {
    /// Point reflection of `self` through `reference_point`.
    pub fn mirror_by(&self, reference_point: &Point) -> (r: Point)
        requires
            in_room(*self),
            in_room(*reference_point),
        ensures
            r == mirror_spec(*self, *reference_point),
    {
        let xdiff = reference_point.x - self.x;
        let ydiff = reference_point.y - self.y;
        Point { x: self.x + (2 * xdiff), y: self.y + (2 * ydiff) }
    }

    /// Point reflection of `self` through the room centre.
    pub fn mirror_by_roomcenter(&self) -> (r: Point)
        requires
            in_room(*self),
        ensures
            r == mirror_center_spec(*self),
    {
        Point { x: -self.x + ROOM_MAX_X, y: -self.y + ROOM_MAX_Y }
    }

    /// The row-major cell index of a position inside the room.
    pub fn serialize(&self) -> (r: i8)
        requires
            in_room(*self),
        ensures
            r as int == ser_spec(*self),
    {
        self.y * 8 + self.x
    }
}

/// A colour as a cyclic index: YELLOW 0, GREEN 1, RED 2, BLUE 3.
pub open spec fn color_idx(c: Color) -> int {
    match c {
        Color::YELLOW => 0,
        Color::GREEN => 1,
        Color::RED => 2,
        Color::BLUE => 3,
    }
}

/// The colour with the given cyclic index (taken modulo 4).
pub open spec fn color_from_idx(i: int) -> Color {
    let k = i % 4;
    if k == 0 {
        Color::YELLOW
    } else if k == 1 {
        Color::GREEN
    } else if k == 2 {
        Color::RED
    } else {
        Color::BLUE
    }
}

/// The next colour of the cycle.
pub open spec fn next_color(c: Color) -> Color {
    color_from_idx(color_idx(c) + 1)
}

/// The floor colour of cell `(x, y)` when the phase colour is `seq`: the
/// board is tiled with a 2x2 pattern whose colours rotate with the phase.
pub open spec fn color_at_spec(seq: Color, x: int, y: int) -> Color {
    let offset = x % 2 + 2 * ((7 - y) % 2);
    color_from_idx(color_idx(seq) + offset)
}

/// The direction the dog prefers, as a unit step `(dx, dy)`, looked up
/// from the phase colour and the floor colour under the dog.
pub open spec fn dog_intent(g: D15Game) -> (int, int) {
    let dog_at = color_at_spec(g.sequence, g.dog.x as int, g.dog.y as int);
    match g.sequence {
        Color::YELLOW => match dog_at {
            Color::YELLOW => (0, -1),
            Color::GREEN => (0, 1),
            Color::RED => (1, 0),
            Color::BLUE => (-1, 0),
        },
        Color::GREEN => match dog_at {
            Color::YELLOW => (0, -1),
            Color::GREEN => (1, 0),
            Color::RED => (-1, 0),
            Color::BLUE => (0, 1),
        },
        Color::RED => match dog_at {
            Color::YELLOW => (-1, 0),
            Color::GREEN => (1, 0),
            Color::RED => (0, 1),
            Color::BLUE => (0, -1),
        },
        Color::BLUE => match dog_at {
            Color::YELLOW => (1, 0),
            Color::GREEN => (0, -1),
            Color::RED => (0, 1),
            Color::BLUE => (-1, 0),
        },
    }
}

/// The farthest position reachable from `cur` by repeating the step
/// `(dx, dy)` at most `steps` times, stopping just before the first cell
/// on which `e` may not stand. Blocking is judged against the unchanged
/// state `g`.
pub open spec fn scan_from(g: D15Game, e: Entity, cur: Point, dx: int, dy: int, steps: nat) -> Point
    decreases steps,
{
    if steps == 0 {
        cur
    } else {
        let next = Point { x: (cur.x + dx) as i8, y: (cur.y + dy) as i8 };
        if can_move_spec(g, next, e) {
            scan_from(g, e, next, dx, dy, (steps - 1) as nat)
        } else {
            cur
        }
    }
}

/// `scan_from`, started at the entity's current position.
pub open spec fn scan_spec(g: D15Game, e: Entity, dx: int, dy: int, steps: nat) -> Point {
    scan_from(g, e, pos_spec(g, e), dx, dy, steps)
}

/// The sign of an integer: -1, 0 or 1.
pub open spec fn sgn(a: int) -> int {
    if a > 0 {
        1
    } else if a < 0 {
        -1
    } else {
        0
    }
}

/// The absolute value of an integer.
pub open spec fn abs_val(a: int) -> int {
    if a >= 0 {
        a
    } else {
        -a
    }
}

/// The cat's axis preference when it steps toward or away from another
/// entity: observed variants of the engine break the tie between equal
/// axis offsets differently, so the rule is a selectable parameter.
/// `YAxis` steps along x only when `|dx| > |dy|` (ties go to the y axis);
/// `XAxis` steps along x when `|dx| >= |dy|` (ties go to the x axis).
#[derive(PartialEq, Eq, Structural, Copy, Clone, Debug)]
pub enum CatTie {
    YAxis,
    XAxis,
}

/// Whether the cat steps along the x axis for the offset `(dx, dy)`.
pub open spec fn cat_prefers_x(dx: int, dy: int, tie: CatTie) -> bool {
    match tie {
        CatTie::YAxis => abs_val(dx) > abs_val(dy),
        CatTie::XAxis => abs_val(dx) >= abs_val(dy),
    }
}

/// The dog's turn. Above `PATTERN_1_LIMIT` it tries a five-cell jump in
/// its phase-preferred direction, else a two-cell jump the opposite way;
/// in the second band it swaps places with the cat; in the third it walks
/// up to three cells upward; below that it swaps places with the dragon.
pub open spec fn dog_step(g: D15Game) -> D15Game {
    if g.hp > PATTERN_1_LIMIT {
        let (dx, dy) = dog_intent(g);
        let prio_1 = Point { x: (g.dog.x + 5 * dx) as i8, y: (g.dog.y + 5 * dy) as i8 };
        if can_move_spec(g, prio_1, Entity::DOG) {
            D15Game { dog: prio_1, ..g }
        } else {
            let prio_2 = Point { x: (g.dog.x - 2 * dx) as i8, y: (g.dog.y - 2 * dy) as i8 };
            if can_move_spec(g, prio_2, Entity::DOG) {
                D15Game { dog: prio_2, ..g }
            } else {
                g
            }
        }
    } else if g.hp > PATTERN_2_LIMIT {
        D15Game { dog: g.cat, cat: g.dog, ..g }
    } else if g.hp > PATTERN_3_LIMIT {
        D15Game { dog: scan_spec(g, Entity::DOG, 0, 1, 3), ..g }
    } else {
        D15Game { dog: g.dragon, dragon: g.dog, ..g }
    }
}

/// The cat's turn. Above `PATTERN_1_LIMIT` it steps one cell toward the
/// dragon along the axis with the larger offset, unless already adjacent
/// on both axes; in the second band it walks up to three cells downward;
/// in the third it steps one cell away from the player; below that it
/// walks up to three cells rightward.
pub open spec fn cat_step(g: D15Game, tie: CatTie) -> D15Game {
    if g.hp > PATTERN_1_LIMIT {
        let dx = g.dragon.x - g.cat.x;
        let dy = g.dragon.y - g.cat.y;
        if !(abs_val(dx as int) > 1 || abs_val(dy as int) > 1) {
            g
        } else {
            let cand = if cat_prefers_x(dx as int, dy as int, tie) {
                Point { x: (g.cat.x + sgn(dx as int)) as i8, y: g.cat.y }
            } else {
                Point { x: g.cat.x, y: (g.cat.y + sgn(dy as int)) as i8 }
            };
            if can_move_spec(g, cand, Entity::CAT) {
                D15Game { cat: cand, ..g }
            } else {
                g
            }
        }
    } else if g.hp > PATTERN_2_LIMIT {
        D15Game { cat: scan_spec(g, Entity::CAT, 0, -1, 3), ..g }
    } else if g.hp > PATTERN_3_LIMIT {
        let dx = g.cat.x - g.player.x;
        let dy = g.cat.y - g.player.y;
        let cand = if cat_prefers_x(dx as int, dy as int, tie) {
            Point { x: (g.cat.x + sgn(dx as int)) as i8, y: g.cat.y }
        } else {
            Point { x: g.cat.x, y: (g.cat.y + sgn(dy as int)) as i8 }
        };
        if can_move_spec(g, cand, Entity::CAT) {
            D15Game { cat: cand, ..g }
        } else {
            g
        }
    } else {
        D15Game { cat: scan_spec(g, Entity::CAT, 1, 0, 3), ..g }
    }
}

/// The dragon's turn. Above `PATTERN_1_LIMIT` it reflects itself through
/// the player if the landing cell is legal; in the second band it rests;
/// in the third it reflects itself through the room centre; below that it
/// walks up to three cells leftward.
pub open spec fn dragon_step(g: D15Game) -> D15Game {
    if g.hp > PATTERN_1_LIMIT {
        let m = mirror_spec(g.dragon, g.player);
        if can_move_spec(g, m, Entity::DRAGON) {
            D15Game { dragon: m, ..g }
        } else {
            g
        }
    } else if g.hp > PATTERN_2_LIMIT {
        g
    } else if g.hp > PATTERN_3_LIMIT {
        let m = mirror_center_spec(g.dragon);
        if can_move_spec(g, m, Entity::DRAGON) {
            D15Game { dragon: m, ..g }
        } else {
            g
        }
    } else {
        D15Game { dragon: scan_spec(g, Entity::DRAGON, -1, 0, 3), ..g }
    }
}

/// The player's step distance in the given mode.
pub open spec fn move_amount_spec(ps: PlayerState) -> int {
    match ps {
        PlayerState::SWORD => 2,
        PlayerState::ARMOR => 1,
    }
}

/// The fixed health decay paid at the end of every turn.
pub open spec fn decay_spec(ps: PlayerState) -> int {
    match ps {
        PlayerState::SWORD => 4,
        PlayerState::ARMOR => 2,
    }
}

/// The other player mode.
pub open spec fn toggle_spec(ps: PlayerState) -> PlayerState {
    match ps {
        PlayerState::SWORD => PlayerState::ARMOR,
        PlayerState::ARMOR => PlayerState::SWORD,
    }
}

/// The player's own action: a mode switch, a pass (which costs 25 health),
/// a mode-dependent step, or an unconditional position swap with the named
/// entity.
pub open spec fn player_step(g: D15Game, m: Move) -> D15Game {
    match m {
        Move::SWITCH => D15Game { playerstate: toggle_spec(g.playerstate), ..g },
        Move::PASSTURN => D15Game { hp: (g.hp - 25) as i16, ..g },
        Move::UP => D15Game {
            player: Point {
                x: g.player.x,
                y: (g.player.y + move_amount_spec(g.playerstate)) as i8,
            },
            ..g
        },
        Move::DOWN => D15Game {
            player: Point {
                x: g.player.x,
                y: (g.player.y - move_amount_spec(g.playerstate)) as i8,
            },
            ..g
        },
        Move::LEFT => D15Game {
            player: Point {
                x: (g.player.x - move_amount_spec(g.playerstate)) as i8,
                y: g.player.y,
            },
            ..g
        },
        Move::RIGHT => D15Game {
            player: Point {
                x: (g.player.x + move_amount_spec(g.playerstate)) as i8,
                y: g.player.y,
            },
            ..g
        },
        Move::DOG => D15Game { player: g.dog, dog: g.player, ..g },
        Move::CAT => D15Game { player: g.cat, cat: g.player, ..g },
        Move::DRAGON => D15Game { player: g.dragon, dragon: g.player, ..g },
    }
}

/// Whether `m` may be applied to `g`: a directional move needs a legal
/// landing cell, every other move is always available.
pub open spec fn move_ok(g: D15Game, m: Move) -> bool {
    match m {
        Move::UP => can_move_spec(
            g,
            Point { x: g.player.x, y: (g.player.y + move_amount_spec(g.playerstate)) as i8 },
            Entity::PLAYER,
        ),
        Move::DOWN => can_move_spec(
            g,
            Point { x: g.player.x, y: (g.player.y - move_amount_spec(g.playerstate)) as i8 },
            Entity::PLAYER,
        ),
        Move::LEFT => can_move_spec(
            g,
            Point { x: (g.player.x - move_amount_spec(g.playerstate)) as i8, y: g.player.y },
            Entity::PLAYER,
        ),
        Move::RIGHT => can_move_spec(
            g,
            Point { x: (g.player.x + move_amount_spec(g.playerstate)) as i8, y: g.player.y },
            Entity::PLAYER,
        ),
        _ => true,
    }
}

/// One full turn: the player's action; then, unless the move was a pass,
/// the dog's, the cat's and the dragon's reactions followed by the phase
/// advance; then the fixed mode-dependent health decay.
pub open spec fn step_with(g: D15Game, m: Move, tie: CatTie) -> D15Game {
    let g1 = player_step(g, m);
    let g2 = if m == Move::PASSTURN {
        g1
    } else {
        let gr = dragon_step(cat_step(dog_step(g1), tie));
        D15Game { sequence: next_color(gr.sequence), ..gr }
    };
    D15Game { hp: (g2.hp - decay_spec(g2.playerstate)) as i16, ..g2 }
}

/// One full turn under the engine's default tie-break rule.
pub open spec fn step_spec(g: D15Game, m: Move) -> D15Game {
    step_with(g, m, CatTie::YAxis)
}

/// Whether any of the five entities stands on `p`.
pub open spec fn occupied_spec(g: D15Game, p: Point) -> bool {
    g.player == p || g.boss == p || g.cat == p || g.dog == p || g.dragon == p
}

/// The winning configuration: every cell orthogonally adjacent to the
/// boss is occupied by some entity, whichever it is.
pub open spec fn win_spec(g: D15Game) -> bool {
    &&& occupied_spec(g, Point { x: (g.boss.x + 1) as i8, y: g.boss.y })
    &&& occupied_spec(g, Point { x: (g.boss.x - 1) as i8, y: g.boss.y })
    &&& occupied_spec(g, Point { x: g.boss.x, y: (g.boss.y + 1) as i8 })
    &&& occupied_spec(g, Point { x: g.boss.x, y: (g.boss.y - 1) as i8 })
}

/// Whether one of the four non-boss entities has row-major cell index `v`.
pub open spec fn spot_at(g: D15Game, v: int) -> bool {
    ||| ser_spec(g.player) == v
    ||| ser_spec(g.cat) == v
    ||| ser_spec(g.dog) == v
    ||| ser_spec(g.dragon) == v
}

/// The winning configuration as the solver tests it, over row-major cell
/// indices: the four indices next to the boss's index are all covered.
pub open spec fn win2_spec(g: D15Game) -> bool {
    &&& spot_at(g, ser_spec(g.boss) + 1)
    &&& spot_at(g, ser_spec(g.boss) - 1)
    &&& spot_at(g, ser_spec(g.boss) + 8)
    &&& spot_at(g, ser_spec(g.boss) - 8)
}

/// The rule deciding when a run counts as lost. Observed variants of the
/// engine disagree on whether the threshold depends on the boss's column,
/// so the rule is a selectable parameter.
#[derive(PartialEq, Eq, Structural, Copy, Clone, Debug)]
pub enum LossRule {
    Flat,
    BossTuned,
}

/// The loss condition under the given rule.
pub open spec fn loss_spec(g: D15Game, rule: LossRule) -> bool {
    match rule {
        LossRule::Flat => g.hp < 170,
        LossRule::BossTuned => if g.boss.x == 5 {
            g.hp < 55
        } else {
            g.hp < 48
        },
    }
}

/// Whether a pass is offered ahead of the directional moves. The window
/// is tied to the first health threshold: at or above `PATTERN_1_LIMIT`
/// no pass is offered.
pub open spec fn pass_allowed_early(g: D15Game) -> bool {
    g.hp < PATTERN_1_LIMIT && (g.hp >= 120 || (!(g.boss.x == 5) && g.hp >= 80))
}

/// Whether a pass is offered after the fixed moves.
pub open spec fn pass_allowed_late(g: D15Game) -> bool {
    g.boss.x == 5 && g.hp >= 80 && g.hp < 120
}

/// The legal moves of a state, in enumeration order: a banded pass, the
/// directional moves whose landing cell is legal, the three swaps and the
/// switch (always available), and the boss-column pass special case.
pub open spec fn moves_spec(g: D15Game) -> Seq<Move> {
    (if pass_allowed_early(g) {
        seq![Move::PASSTURN]
    } else {
        Seq::<Move>::empty()
    }) + (if move_ok(g, Move::LEFT) {
        seq![Move::LEFT]
    } else {
        Seq::<Move>::empty()
    }) + (if move_ok(g, Move::RIGHT) {
        seq![Move::RIGHT]
    } else {
        Seq::<Move>::empty()
    }) + (if move_ok(g, Move::DOWN) {
        seq![Move::DOWN]
    } else {
        Seq::<Move>::empty()
    }) + (if move_ok(g, Move::UP) {
        seq![Move::UP]
    } else {
        Seq::<Move>::empty()
    }) + seq![Move::DOG, Move::CAT, Move::DRAGON, Move::SWITCH] + (if pass_allowed_late(g) {
        seq![Move::PASSTURN]
    } else {
        Seq::<Move>::empty()
    })
}

/// The state after replaying a sequence of moves in order, under the
/// engine's default tie-break rule.
pub open spec fn replay(g: D15Game, ms: Seq<Move>) -> D15Game
    decreases ms.len(),
{
    if ms.len() == 0 {
        g
    } else {
        replay(step_spec(g, ms[0]), ms.drop_first())
    }
}

/// The dog's preferred direction, by name.
#[derive(PartialEq, Eq, Structural, Copy, Clone)]
enum DogMove {
    LEFT,
    RIGHT,
    UP,
    DOWN,
}

/// The unit step that a `DogMove` stands for.
spec fn dog_move_vec(d: DogMove) -> (int, int) {
    match d {
        DogMove::UP => (0, 1),
        DogMove::DOWN => (0, -1),
        DogMove::LEFT => (-1, 0),
        DogMove::RIGHT => (1, 0),
    }
}

impl D15Game {
    /// Builds the starting snapshot from caller input. The caller supplies
    /// positions inside the room with no two entities on the same cell.
    pub fn new(
        hp: i16,
        boss: Point,
        player: Point,
        cat: Point,
        dog: Point,
        dragon: Point,
        playerstate: PlayerState,
        sequence: Color,
    ) -> (g: D15Game)
        requires
            wf(
                D15Game {
                    hp: hp,
                    player: player,
                    boss: boss,
                    cat: cat,
                    dog: dog,
                    dragon: dragon,
                    playerstate: playerstate,
                    sequence: sequence,
                },
            ),
        ensures
            g == (D15Game {
                hp: hp,
                player: player,
                boss: boss,
                cat: cat,
                dog: dog,
                dragon: dragon,
                playerstate: playerstate,
                sequence: sequence,
            }),
            wf(g),
    {
        D15Game { hp, player, boss, cat, dog, dragon, playerstate, sequence }
    }

    /// The current position of an entity.
    pub fn get_entity_position(&self, entity: Entity) -> (r: &Point)
        ensures
            *r == pos_spec(*self, entity),
    {
        match entity {
            Entity::PLAYER => &self.player,
            Entity::BOSS => &self.boss,
            Entity::CAT => &self.cat,
            Entity::DOG => &self.dog,
            Entity::DRAGON => &self.dragon,
        }
    }

    /// Whether some entity other than `entity` stands on `target_point`.
    fn is_point_blocked_for(&self, entity: Entity, target_point: &Point) -> (r: bool)
        ensures
            r == blocked_for_spec(*self, entity, *target_point),
    {
        (entity != Entity::PLAYER && self.player == *target_point) || (entity != Entity::BOSS
            && self.boss == *target_point) || (entity != Entity::CAT && self.cat == *target_point)
            || (entity != Entity::DOG && self.dog == *target_point) || (entity != Entity::DRAGON
            && self.dragon == *target_point)
    }

    /// Whether `entity` may legally stand on `target_point`.
    fn can_move_to(&self, target_point: &Point, entity: Entity) -> (r: bool)
        ensures
            r == can_move_spec(*self, *target_point, entity),
    {
        if target_point.x > ROOM_MAX_X || target_point.x < 0 {
            return false;
        }
        if target_point.y > ROOM_MAX_Y || target_point.y < 0 {
            return false;
        }
        !self.is_point_blocked_for(entity, target_point)
    }

    /// The floor colour of cell `(x, y)` under the current phase.
    fn color_at(&self, x: i8, y: i8) -> (c: Color)
        requires
            0 <= x <= ROOM_MAX_X,
            0 <= y <= ROOM_MAX_Y,
        ensures
            c == color_at_spec(self.sequence, x as int, y as int),
    {
        let offset_x = x % 2;
        let offset_y = (7 - y) % 2;
        let offset = offset_x + 2 * offset_y;
        match self.sequence {
            Color::YELLOW => {
                if offset == 0 {
                    Color::YELLOW
                } else if offset == 1 {
                    Color::GREEN
                } else if offset == 2 {
                    Color::RED
                } else {
                    Color::BLUE
                }
            },
            Color::GREEN => {
                if offset == 0 {
                    Color::GREEN
                } else if offset == 1 {
                    Color::RED
                } else if offset == 2 {
                    Color::BLUE
                } else {
                    Color::YELLOW
                }
            },
            Color::RED => {
                if offset == 0 {
                    Color::RED
                } else if offset == 1 {
                    Color::BLUE
                } else if offset == 2 {
                    Color::YELLOW
                } else {
                    Color::GREEN
                }
            },
            Color::BLUE => {
                if offset == 0 {
                    Color::BLUE
                } else if offset == 1 {
                    Color::YELLOW
                } else if offset == 2 {
                    Color::GREEN
                } else {
                    Color::RED
                }
            },
        }
    }

    /// Advances the phase colour by one cyclic step.
    fn shift_sequence(&mut self)
        ensures
            *final(self) == (D15Game { sequence: next_color(old(self).sequence), ..*old(self) }),
    {
        match self.sequence {
            Color::YELLOW => {
                self.sequence = Color::GREEN;
            },
            Color::GREEN => {
                self.sequence = Color::RED;
            },
            Color::RED => {
                self.sequence = Color::BLUE;
            },
            Color::BLUE => {
                self.sequence = Color::YELLOW;
            },
        }
    }

    /// The direction the dog prefers this turn.
    fn get_intended_dog_move_direction(&self) -> (d: DogMove)
        requires
            in_room(self.dog),
        ensures
            dog_move_vec(d) == dog_intent(*self),
    {
        let dog_at = self.color_at(self.dog.x, self.dog.y);
        match self.sequence {
            Color::YELLOW => {
                match dog_at {
                    Color::YELLOW => DogMove::DOWN,
                    Color::GREEN => DogMove::UP,
                    Color::RED => DogMove::RIGHT,
                    Color::BLUE => DogMove::LEFT,
                }
            },
            Color::GREEN => {
                match dog_at {
                    Color::YELLOW => DogMove::DOWN,
                    Color::GREEN => DogMove::RIGHT,
                    Color::RED => DogMove::LEFT,
                    Color::BLUE => DogMove::UP,
                }
            },
            Color::RED => {
                match dog_at {
                    Color::YELLOW => DogMove::LEFT,
                    Color::GREEN => DogMove::RIGHT,
                    Color::RED => DogMove::UP,
                    Color::BLUE => DogMove::DOWN,
                }
            },
            Color::BLUE => {
                match dog_at {
                    Color::YELLOW => DogMove::RIGHT,
                    Color::GREEN => DogMove::DOWN,
                    Color::RED => DogMove::UP,
                    Color::BLUE => DogMove::LEFT,
                }
            },
        }
    }

    /// Advances `for_entity` from its current cell by `(step_x, step_y)` at
    /// most `steps` times, stopping just before the first illegal cell.
    /// The step bound is a machine limit only: one step taken from any
    /// room cell must still fit in an `i8` coordinate.
    fn find_move_until(&self, for_entity: Entity, step_x: i8, step_y: i8, steps: u8) -> (r: Point)
        requires
            in_room(pos_spec(*self, for_entity)),
            step_x <= 120,
            step_y <= 120,
        ensures
            r == scan_spec(*self, for_entity, step_x as int, step_y as int, steps as nat),
    {
        let start = *self.get_entity_position(for_entity);
        let mut ok = start;
        let mut x_carry = start.x;
        let mut y_carry = start.y;
        let mut i: u8 = 0;
        let mut stopped = false;
        while i < steps && !stopped
            invariant
                0 <= i <= steps,
                in_room(pos_spec(*self, for_entity)),
                start == pos_spec(*self, for_entity),
                step_x <= 120,
                step_y <= 120,
                !stopped ==> {
                    &&& x_carry == ok.x
                    &&& y_carry == ok.y
                    &&& in_room(ok)
                    &&& scan_spec(*self, for_entity, step_x as int, step_y as int, steps as nat)
                        == scan_from(
                        *self,
                        for_entity,
                        ok,
                        step_x as int,
                        step_y as int,
                        (steps - i) as nat,
                    )
                },
                stopped ==> ok == scan_spec(
                    *self,
                    for_entity,
                    step_x as int,
                    step_y as int,
                    steps as nat,
                ),
            decreases steps - i + (if stopped {
                0int
            } else {
                1int
            }),
        {
            x_carry = x_carry + step_x;
            y_carry = y_carry + step_y;
            let point_to_check = Point { x: x_carry, y: y_carry };
            if self.can_move_to(&point_to_check, for_entity) {
                ok = point_to_check;
                i = i + 1;
            } else {
                stopped = true;
            }
        }
        if !stopped {
            assert(scan_from(
                *self,
                for_entity,
                ok,
                step_x as int,
                step_y as int,
                (steps - i) as nat,
            ) == ok);
        }
        ok
    }

    /// Whether any of the five entities stands on `p`.
    fn occupied_any(&self, p: &Point) -> (r: bool)
        ensures
            r == occupied_spec(*self, *p),
    {
        self.player == *p || self.boss == *p || self.cat == *p || self.dog == *p || self.dragon
            == *p
    }

    /// The win check over positions: every cell orthogonally adjacent to
    /// the boss is occupied by some entity.
    pub fn check_win(&self) -> (r: bool)
        requires
            in_room(self.boss),
        ensures
            r == win_spec(*self),
    {
        let right = Point { x: self.boss.x + 1, y: self.boss.y };
        let left = Point { x: self.boss.x - 1, y: self.boss.y };
        let up = Point { x: self.boss.x, y: self.boss.y + 1 };
        let down = Point { x: self.boss.x, y: self.boss.y - 1 };
        self.occupied_any(&right) && self.occupied_any(&left) && self.occupied_any(&up)
            && self.occupied_any(&down)
    }

    /// The win check the solver uses, over row-major cell indices.
    pub fn check_win_2(&self) -> (r: bool)
        requires
            in_room(self.player),
            in_room(self.boss),
            in_room(self.cat),
            in_room(self.dog),
            in_room(self.dragon),
        ensures
            r == win2_spec(*self),
    {
        let sp = self.player.serialize();
        let sc = self.cat.serialize();
        let sd = self.dog.serialize();
        let sn = self.dragon.serialize();
        let boss = self.boss.serialize();
        (sp == boss + 1 || sc == boss + 1 || sd == boss + 1 || sn == boss + 1) && (sp == boss - 1
            || sc == boss - 1 || sd == boss - 1 || sn == boss - 1) && (sp == boss + 8 || sc == boss
            + 8 || sd == boss + 8 || sn == boss + 8) && (sp == boss - 8 || sc == boss - 8 || sd
            == boss - 8 || sn == boss - 8)
    }

    /// The loss check under the flat rule.
    pub fn check_over_dead(&self) -> (r: bool)
        ensures
            r == loss_spec(*self, LossRule::Flat),
    {
        self.hp < 170
    }

    /// The loss check under a selectable rule.
    pub fn is_loss_with(&self, rule: LossRule) -> (r: bool)
        ensures
            r == loss_spec(*self, rule),
    {
        match rule {
            LossRule::Flat => self.hp < 170,
            LossRule::BossTuned => {
                if self.boss.x == 5 {
                    self.hp < 55
                } else {
                    self.hp < 48
                }
            },
        }
    }

    /// Enumerates the legal moves of this state, in a fixed order.
    #[verifier::rlimit(100)]
    #[verifier::spinoff_prover]
    pub fn get_possible_moves(&self) -> (moves: Vec<Move>)
        requires
            in_room(self.player),
        ensures
            moves@ == moves_spec(*self),
    {
        let mut moves: Vec<Move> = Vec::with_capacity(9);
        let move_amount = self.get_moveamount();
        let is55 = self.boss.x == 5;
        if self.hp < PATTERN_1_LIMIT && (self.hp >= 120 || (!is55 && self.hp >= 80)) {
            moves.push(Move::PASSTURN);
        }
        let left_possible = self.can_move_to(
            &Point { x: self.player.x - move_amount, y: self.player.y },
            Entity::PLAYER,
        );
        let right_possible = self.can_move_to(
            &Point { x: self.player.x + move_amount, y: self.player.y },
            Entity::PLAYER,
        );
        let down_possible = self.can_move_to(
            &Point { x: self.player.x, y: self.player.y - move_amount },
            Entity::PLAYER,
        );
        let up_possible = self.can_move_to(
            &Point { x: self.player.x, y: self.player.y + move_amount },
            Entity::PLAYER,
        );
        if left_possible {
            moves.push(Move::LEFT);
        }
        if right_possible {
            moves.push(Move::RIGHT);
        }
        if down_possible {
            moves.push(Move::DOWN);
        }
        if up_possible {
            moves.push(Move::UP);
        }
        moves.push(Move::DOG);
        moves.push(Move::CAT);
        moves.push(Move::DRAGON);
        moves.push(Move::SWITCH);
        if is55 && self.hp >= 80 && self.hp < 120 {
            moves.push(Move::PASSTURN);
        }
        proof {
            assert(left_possible == move_ok(*self, Move::LEFT));
            assert(right_possible == move_ok(*self, Move::RIGHT));
            assert(down_possible == move_ok(*self, Move::DOWN));
            assert(up_possible == move_ok(*self, Move::UP));
            assert(moves@ =~= moves_spec(*self));
        }
        moves
    }

    /// The player's step distance in the current mode.
    fn get_moveamount(&self) -> (r: i8)
        ensures
            r as int == move_amount_spec(self.playerstate),
    {
        match self.playerstate {
            PlayerState::SWORD => 2,
            PlayerState::ARMOR => 1,
        }
    }

    /// The dog's turn.
    fn dog_move(&mut self)
        requires
            wf(*old(self)),
        ensures
            *final(self) == dog_step(*old(self)),
    {
        if self.hp > PATTERN_1_LIMIT {
            let intended_x_dir: i8;
            let intended_y_dir: i8;
            match self.get_intended_dog_move_direction() {
                DogMove::UP => {
                    intended_x_dir = 0;
                    intended_y_dir = 1;
                },
                DogMove::LEFT => {
                    intended_x_dir = -1;
                    intended_y_dir = 0;
                },
                DogMove::RIGHT => {
                    intended_x_dir = 1;
                    intended_y_dir = 0;
                },
                DogMove::DOWN => {
                    intended_x_dir = 0;
                    intended_y_dir = -1;
                },
            }
            let prio_1 = Point {
                x: self.dog.x + 5 * intended_x_dir,
                y: self.dog.y + 5 * intended_y_dir,
            };
            if self.can_move_to(&prio_1, Entity::DOG) {
                self.dog = prio_1;
                return ;
            }
            let prio_2 = Point {
                x: self.dog.x + (-2) * intended_x_dir,
                y: self.dog.y + (-2) * intended_y_dir,
            };
            if self.can_move_to(&prio_2, Entity::DOG) {
                self.dog = prio_2;
            }
        } else if self.hp > PATTERN_2_LIMIT {
            let t = self.dog;
            self.dog = self.cat;
            self.cat = t;
        } else if self.hp > PATTERN_3_LIMIT {
            self.dog = self.find_move_until(Entity::DOG, 0, 1, 3);
        } else {
            let t = self.dog;
            self.dog = self.dragon;
            self.dragon = t;
        }
    }

    /// The cat's turn.
    fn cat_move(&mut self, tie: CatTie)
        requires
            wf(*old(self)),
        ensures
            *final(self) == cat_step(*old(self), tie),
    {
        if self.hp > PATTERN_1_LIMIT {
            let diff_x = self.dragon.x - self.cat.x;
            let diff_y = self.dragon.y - self.cat.y;
            if !(abs8(diff_x) > 1 || abs8(diff_y) > 1) {
                return ;
            }
            let cat_move: Point;
            if prefer_x8(diff_x, diff_y, tie) {
                cat_move = Point { x: self.cat.x + sign8(diff_x), y: self.cat.y };
            } else {
                cat_move = Point { x: self.cat.x, y: self.cat.y + sign8(diff_y) };
            }
            if self.can_move_to(&cat_move, Entity::CAT) {
                self.cat = cat_move;
            }
        } else if self.hp > PATTERN_2_LIMIT {
            self.cat = self.find_move_until(Entity::CAT, 0, -1, 3);
        } else if self.hp > PATTERN_3_LIMIT {
            let diff_x = self.cat.x - self.player.x;
            let diff_y = self.cat.y - self.player.y;
            let cat_move: Point;
            if prefer_x8(diff_x, diff_y, tie) {
                cat_move = Point { x: self.cat.x + sign8(diff_x), y: self.cat.y };
            } else {
                cat_move = Point { x: self.cat.x, y: self.cat.y + sign8(diff_y) };
            }
            if self.can_move_to(&cat_move, Entity::CAT) {
                self.cat = cat_move;
            }
        } else {
            self.cat = self.find_move_until(Entity::CAT, 1, 0, 3);
        }
    }

    /// Applies one full turn in place, under the given cat tie-break rule.
    pub fn apply_move_with(&mut self, direction: &Move, tie: CatTie)
        requires
            wf(*old(self)),
            move_ok(*old(self), *direction),
            old(self).hp >= i16::MIN + 29,
        ensures
            *final(self) == step_with(*old(self), *direction, tie),
            wf(*final(self)),
    {
        let ghost g0 = *self;
        match direction {
            Move::SWITCH => {
                match self.playerstate {
                    PlayerState::SWORD => self.playerstate = PlayerState::ARMOR,
                    PlayerState::ARMOR => self.playerstate = PlayerState::SWORD,
                }
            },
            Move::PASSTURN => {
                self.hp = self.hp - 25;
            },
            Move::UP => {
                let a = self.get_moveamount();
                self.player = Point { x: self.player.x, y: self.player.y + a };
            },
            Move::DOWN => {
                let a = self.get_moveamount();
                self.player = Point { x: self.player.x, y: self.player.y - a };
            },
            Move::LEFT => {
                let a = self.get_moveamount();
                self.player = Point { x: self.player.x - a, y: self.player.y };
            },
            Move::RIGHT => {
                let a = self.get_moveamount();
                self.player = Point { x: self.player.x + a, y: self.player.y };
            },
            Move::DOG => {
                let t = self.player;
                self.player = self.dog;
                self.dog = t;
            },
            Move::CAT => {
                let t = self.player;
                self.player = self.cat;
                self.cat = t;
            },
            Move::DRAGON => {
                let t = self.player;
                self.player = self.dragon;
                self.dragon = t;
            },
        }
        assert(*self == player_step(g0, *direction));
        proof {
            lemma_player_wf(g0, *direction);
        }
        if !(*direction == Move::PASSTURN) {
            proof {
                lemma_dog_wf(player_step(g0, *direction));
            }
            self.dog_move();
            proof {
                lemma_cat_wf(dog_step(player_step(g0, *direction)), tie);
            }
            self.cat_move(tie);
            proof {
                lemma_dragon_wf(cat_step(dog_step(player_step(g0, *direction)), tie));
            }
            self.dragon_move();
            self.shift_sequence();
        }
        let d: i16 = match self.playerstate {
            PlayerState::SWORD => 4,
            PlayerState::ARMOR => 2,
        };
        self.hp = self.hp - d;
        proof {
            lemma_apply_move_preserves_wf(g0, *direction, tie);
        }
    }

    /// Applies one full turn in place, under the engine's default
    /// tie-break rule.
    pub fn do_move(&mut self, direction: &Move)
        requires
            wf(*old(self)),
            move_ok(*old(self), *direction),
            old(self).hp >= i16::MIN + 29,
        ensures
            *final(self) == step_spec(*old(self), *direction),
            wf(*final(self)),
    {
        self.apply_move_with(direction, CatTie::YAxis)
    }

    /// The dragon's turn.
    fn dragon_move(&mut self)
        requires
            wf(*old(self)),
        ensures
            *final(self) == dragon_step(*old(self)),
    {
        if self.hp > PATTERN_1_LIMIT {
            let mirror = self.dragon.mirror_by(&self.player);
            if self.can_move_to(&mirror, Entity::DRAGON) {
                self.dragon = mirror;
            }
        } else if self.hp > PATTERN_2_LIMIT {
            // the dragon rests in this band
        } else if self.hp > PATTERN_3_LIMIT {
            let mirror = self.dragon.mirror_by_roomcenter();
            if self.can_move_to(&mirror, Entity::DRAGON) {
                self.dragon = mirror;
            }
        } else {
            self.dragon = self.find_move_until(Entity::DRAGON, -1, 0, 3);
        }
    }
}

/// The sign of an i8, as an i8.
fn sign8(v: i8) -> (r: i8)
    ensures
        r as int == sgn(v as int),
{
    if v > 0 {
        1
    } else if v < 0 {
        -1
    } else {
        0
    }
}

/// The absolute value of an i8 that is not the minimum value.
fn abs8(v: i8) -> (r: i8)
    requires
        v > i8::MIN,
    ensures
        r as int == abs_val(v as int),
{
    if v >= 0 {
        v
    } else {
        -v
    }
}

/// Whether the cat steps along the x axis for the offset `(dx, dy)`.
fn prefer_x8(dx: i8, dy: i8, tie: CatTie) -> (r: bool)
    requires
        dx > i8::MIN,
        dy > i8::MIN,
    ensures
        r == cat_prefers_x(dx as int, dy as int, tie),
{
    match tie {
        CatTie::YAxis => abs8(dx) > abs8(dy),
        CatTie::XAxis => abs8(dx) >= abs8(dy),
    }
}

/// A scan either leaves the entity where it started or ends on a cell the
/// entity may legally stand on.
proof fn lemma_scan_ok(g: D15Game, e: Entity, cur: Point, dx: int, dy: int, steps: nat)
    ensures
        scan_from(g, e, cur, dx, dy, steps) == cur || can_move_spec(
            g,
            scan_from(g, e, cur, dx, dy, steps),
            e,
        ),
    decreases steps,
{
    if steps > 0 {
        let next = Point { x: (cur.x + dx) as i8, y: (cur.y + dy) as i8 };
        if can_move_spec(g, next, e) {
            lemma_scan_ok(g, e, next, dx, dy, (steps - 1) as nat);
        }
    }
}

/// The player's own action preserves the board invariant when the move is
/// applicable.
proof fn lemma_player_wf(g: D15Game, m: Move)
    requires
        wf(g),
        move_ok(g, m),
    ensures
        wf(player_step(g, m)),
{
}

/// The dog's turn preserves the board invariant.
proof fn lemma_dog_wf(g: D15Game)
    requires
        wf(g),
    ensures
        wf(dog_step(g)),
{
    lemma_scan_ok(g, Entity::DOG, g.dog, 0, 1, 3);
}

/// The cat's turn preserves the board invariant.
proof fn lemma_cat_wf(g: D15Game, tie: CatTie)
    requires
        wf(g),
    ensures
        wf(cat_step(g, tie)),
{
    lemma_scan_ok(g, Entity::CAT, g.cat, 0, -1, 3);
    lemma_scan_ok(g, Entity::CAT, g.cat, 1, 0, 3);
}

/// The dragon's turn preserves the board invariant.
proof fn lemma_dragon_wf(g: D15Game)
    requires
        wf(g),
    ensures
        wf(dragon_step(g)),
{
    lemma_scan_ok(g, Entity::DRAGON, g.dragon, -1, 0, 3);
}

/// No applicable move of the engine breaks the board invariant: every
/// entity stays inside the room and no two entities ever share a cell.
pub proof fn lemma_apply_move_preserves_wf(g: D15Game, m: Move, tie: CatTie)
    requires
        wf(g),
        move_ok(g, m),
    ensures
        wf(step_with(g, m, tie)),
{
    lemma_player_wf(g, m);
    let g1 = player_step(g, m);
    if m != Move::PASSTURN {
        lemma_dog_wf(g1);
        lemma_cat_wf(dog_step(g1), tie);
        lemma_dragon_wf(cat_step(dog_step(g1), tie));
    }
}

/// Applying a move is deterministic: equal states and equal moves give
/// equal resulting states.
pub proof fn lemma_apply_move_deterministic(
    g1: D15Game,
    g2: D15Game,
    m1: Move,
    m2: Move,
    tie1: CatTie,
    tie2: CatTie,
)
    requires
        g1 == g2,
        m1 == m2,
        tie1 == tie2,
    ensures
        step_with(g1, m1, tie1) == step_with(g2, m2, tie2),
{
}

/// Health never increases across a turn: every move costs at least the
/// fixed decay of 2, and no move costs more than 29.
pub proof fn lemma_apply_move_health(g: D15Game, m: Move, tie: CatTie)
    requires
        g.hp >= i16::MIN + 29,
    ensures
        step_with(g, m, tie).hp <= g.hp - 2,
        step_with(g, m, tie).hp >= g.hp - 29,
{
}

/// The phase advances by exactly one cyclic step on every move that is
/// not a pass, and stays fixed on a pass.
pub proof fn lemma_apply_move_phase(g: D15Game, m: Move, tie: CatTie)
    ensures
        m == Move::PASSTURN ==> step_with(g, m, tie).sequence == g.sequence,
        m != Move::PASSTURN ==> step_with(g, m, tie).sequence == next_color(g.sequence),
{
}

/// The phase cycle has period four and never stands still.
pub proof fn lemma_color_cycle(c: Color)
    ensures
        next_color(next_color(next_color(next_color(c)))) == c,
        next_color(c) != c,
{
}

/// The win check depends only on which cells are occupied, not on which
/// entity occupies them: two states with the same boss cell and the same
/// occupied cells agree on the win check.
pub proof fn lemma_win_by_occupancy(g1: D15Game, g2: D15Game)
    requires
        g1.boss == g2.boss,
        forall|p: Point| #[trigger] occupied_spec(g1, p) == occupied_spec(g2, p),
    ensures
        win_spec(g1) == win_spec(g2),
{
}

/// The solver's index-based win check likewise depends only on which cell
/// indices are covered by the four non-boss entities.
pub proof fn lemma_win2_by_occupancy(g1: D15Game, g2: D15Game)
    requires
        g1.boss == g2.boss,
        forall|v: int| #[trigger] spot_at(g1, v) == spot_at(g2, v),
    ensures
        win2_spec(g1) == win2_spec(g2),
{
}

/// Inside the room, the row-major cell index determines the cell.
proof fn lemma_ser_injective(p: Point, q: Point)
    requires
        in_room(p),
        in_room(q),
        ser_spec(p) == ser_spec(q),
    ensures
        p == q,
{
}

/// A cell index next to the boss's is covered exactly when the cell
/// itself is occupied, as long as the cell lies inside the room.
proof fn lemma_spot_iff_occupied(g: D15Game, np: Point)
    requires
        wf(g),
        in_room(np),
        np != g.boss,
    ensures
        spot_at(g, ser_spec(np)) == occupied_spec(g, np),
{
    if spot_at(g, ser_spec(np)) {
        if ser_spec(g.player) == ser_spec(np) {
            lemma_ser_injective(g.player, np);
        } else if ser_spec(g.cat) == ser_spec(np) {
            lemma_ser_injective(g.cat, np);
        } else if ser_spec(g.dog) == ser_spec(np) {
            lemma_ser_injective(g.dog, np);
        } else {
            lemma_ser_injective(g.dragon, np);
        }
    }
}

/// On a well-formed board whose boss stands away from the walls, the
/// position-based and the index-based win checks agree; they can differ
/// only when the boss touches a wall, where an index one off the boss's
/// wraps to the far side of an adjacent row.
pub proof fn lemma_win_checks_agree(g: D15Game)
    requires
        wf(g),
        1 <= g.boss.x <= 6,
        1 <= g.boss.y <= 6,
    ensures
        win2_spec(g) == win_spec(g),
{
    let b = g.boss;
    let right = Point { x: (b.x + 1) as i8, y: b.y };
    let left = Point { x: (b.x - 1) as i8, y: b.y };
    let up = Point { x: b.x, y: (b.y + 1) as i8 };
    let down = Point { x: b.x, y: (b.y - 1) as i8 };
    assert(ser_spec(right) == ser_spec(b) + 1);
    assert(ser_spec(left) == ser_spec(b) - 1);
    assert(ser_spec(up) == ser_spec(b) + 8);
    assert(ser_spec(down) == ser_spec(b) - 8);
    lemma_spot_iff_occupied(g, right);
    lemma_spot_iff_occupied(g, left);
    lemma_spot_iff_occupied(g, up);
    lemma_spot_iff_occupied(g, down);
}

/// Every move that the enumeration yields is applicable to the state it
/// was enumerated from.
#[verifier::rlimit(60)]
pub proof fn lemma_moves_ok(g: D15Game)
    ensures
        forall|i: int|
            0 <= i < moves_spec(g).len() ==> move_ok(g, #[trigger] moves_spec(g)[i]),
{
    let s = moves_spec(g);
    assert forall|i: int| 0 <= i < s.len() implies move_ok(g, s[i]) by {
        if s[i] == Move::LEFT || s[i] == Move::RIGHT || s[i] == Move::UP || s[i] == Move::DOWN {
            assert(move_ok(g, s[i]));
        } else {
            assert(move_ok(g, s[i]));
        }
    };
}

/// The enumeration always offers the switch move.
pub proof fn lemma_moves_has_switch(g: D15Game)
    ensures
        moves_spec(g).contains(Move::SWITCH),
{
    let k = (if pass_allowed_early(g) {
        1int
    } else {
        0int
    }) + (if move_ok(g, Move::LEFT) {
        1int
    } else {
        0int
    }) + (if move_ok(g, Move::RIGHT) {
        1int
    } else {
        0int
    }) + (if move_ok(g, Move::DOWN) {
        1int
    } else {
        0int
    }) + (if move_ok(g, Move::UP) {
        1int
    } else {
        0int
    });
    assert(moves_spec(g)[k + 3] == Move::SWITCH);
}

/// Replaying one more move is applying it to the replayed prefix.
pub proof fn lemma_replay_snoc(g: D15Game, ms: Seq<Move>, m: Move)
    ensures
        replay(g, ms.push(m)) == step_spec(replay(g, ms), m),
    decreases ms.len(),
{
    if ms.len() == 0 {
        assert(ms.push(m)[0] == m);
        assert(ms.push(m).drop_first() =~= Seq::<Move>::empty());
        assert(replay(g, ms.push(m)) == replay(
            step_spec(g, m),
            ms.push(m).drop_first(),
        ));
        assert(replay(step_spec(g, m), Seq::<Move>::empty()) == step_spec(g, m));
        assert(replay(g, ms) == g);
    } else {
        assert(ms.push(m)[0] == ms[0]);
        assert(ms.push(m).drop_first() =~= ms.drop_first().push(m));
        assert(replay(g, ms.push(m)) == replay(
            step_spec(g, ms[0]),
            ms.drop_first().push(m),
        ));
        lemma_replay_snoc(step_spec(g, ms[0]), ms.drop_first(), m);
        assert(replay(g, ms) == replay(step_spec(g, ms[0]), ms.drop_first()));
    }
}

} // verus!
