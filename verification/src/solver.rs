//! The search engine: exhaustive depth-first exploration of the move tree
//! with transposition-table deduplication and best-bound pruning.
//!
//! A found solution is proved sound: whenever the solver records a move
//! sequence, replaying that sequence from the searched starting state
//! reaches a state that passes the win check with health above the
//! initial pruning bound. The search's work is also owed by contract: a
//! winning, unpruned node records the path that led to it and raises the
//! bound, a pruned node changes nothing, an exhausted node budget stops
//! everything, and a run with no budget finds a solution whenever one
//! lies a single move from the start. The transposition table only
//! prunes the exploration; nothing of the result rests on the hash
//! values, which are process-local and therefore carry no specification.

use vstd::prelude::*;

use std::collections::hash_map::DefaultHasher;
use std::hash::{Hash, Hasher};

use hash_hasher::{HashBuildHasher, HashedSet};

use crate::game::{
    CatTie, D15Game, Move, PlayerState, lemma_apply_move_health, lemma_moves_has_switch,
    lemma_moves_ok, lemma_replay_snoc, move_ok, moves_spec, replay, step_spec, wf, win2_spec,
};

verus! {

/// The build hasher used by the transposition table, declared so that the
/// set type may appear in verified signatures.
#[verifier::external_type_specification]
#[verifier::external_body]
#[verifier::reject_recursive_types(H)]
pub struct ExBuildHasherDefault<H>(std::hash::BuildHasherDefault<H>);

/// hash_hasher's pass-through hasher, declared for the same reason.
#[verifier::external_type_specification]
#[verifier::external_body]
pub struct ExHashHasher(hash_hasher::HashHasher);

/// Relies on std's `DefaultHasher` (`new`, `Hash::hash`, `finish`), driven
/// through the derived `Hash` impl of the argument. The digest is stable
/// only within one process, so nothing is stated of its value.
#[verifier::external_body]
fn calculate_hash<T: Hash>(t: &T) -> u64 {
    let mut s = DefaultHasher::new();
    t.hash(&mut s);
    s.finish()
}

/// Relies on `HashSet::with_capacity_and_hasher`: the returned set is
/// empty.
#[verifier::external_body]
fn new_visited_set() -> (s: HashedSet<u64>)
    ensures
        s@ == Set::<u64>::empty(),
{
    HashedSet::with_capacity_and_hasher(1000000, HashBuildHasher::default())
}

/// Relies on `HashSet::contains`, with hash_hasher's deterministic
/// pass-through hasher: whether the value is in the contents.
#[verifier::external_body]
fn visited_contains(s: &HashedSet<u64>, h: u64) -> (r: bool)
    ensures
        r == s@.contains(h),
{
    s.contains(&h)
}

/// Relies on `HashSet::insert`, with hash_hasher's deterministic
/// pass-through hasher: adds the value to the contents.
#[verifier::external_body]
fn visited_insert(s: &mut HashedSet<u64>, h: u64)
    ensures
        final(s)@ == old(s)@.insert(h),
{
    let _ = s.insert(h);
}

/// Relies on `HashSet::len`: the number of values in the contents.
#[verifier::external_body]
fn visited_len(s: &HashedSet<u64>) -> (n: usize)
    ensures
        n as nat == s@.len(),
{
    s.len()
}

/// Copies a move list.
fn copy_moves(v: &Vec<Move>) -> (r: Vec<Move>)
    ensures
        r@ == v@,
{
    let mut r: Vec<Move> = Vec::new();
    let mut i: usize = 0;
    while i < v.len()
        invariant
            0 <= i <= v@.len(),
            r@ == v@.take(i as int),
        decreases v@.len() - i,
    {
        let m = v[i];
        r.push(m);
        proof {
            assert(v@.take(i + 1 as int) =~= v@.take(i as int).push(v@[i as int]));
        }
        i = i + 1;
    }
    proof {
        assert(v@.take(v@.len() as int) =~= v@);
    }
    r
}

/// The pruning bound the search starts from, as a function of the
/// starting state: generous for high health (where the best solution is
/// searched for), tighter for low health.
pub open spec fn initial_bound_spec(g: D15Game) -> int {
    if g.hp <= 60 {
        35
    } else if g.hp > 159 {
        g.hp - 40
    } else if g.hp > 128 {
        100
    } else if g.boss.x == 5 {
        54
    } else {
        47
    }
}

/// Whether the legal first move `m` of `g` already reaches a winning
/// state whose health beats the initial bound: the situation in which
/// the search owes a solution without consulting the transposition
/// table. Kept opaque so that contracts can carry it without unfolding
/// the whole turn engine.
#[verifier::opaque]
pub open spec fn winning_first_move(g: D15Game, m: Move) -> bool {
    &&& moves_spec(g).contains(m)
    &&& win2_spec(step_spec(g, m))
    &&& step_spec(g, m).hp > initial_bound_spec(g)
}

/// The parts of `winning_first_move`, unfolded.
proof fn lemma_winning_first_move_parts(g: D15Game, m: Move)
    requires
        winning_first_move(g, m),
    ensures
        moves_spec(g).contains(m),
        win2_spec(step_spec(g, m)),
        step_spec(g, m).hp > initial_bound_spec(g),
{
    reveal(winning_first_move);
}

/// The depth-first solver. `node_budget`, when set, caps how many nodes
/// the search may still enter before it gives up; unbounded search is a
/// realistic risk on unfavourable inputs. `root` and `initial_bound` are
/// ghost records of the starting state and the bound the running search
/// began with; they tie the recorded solution to the state it was
/// searched from.
pub struct Solver {
    pub besthp: i16,
    pub solve: Option<Vec<Move>>,
    pub checked_perms: HashedSet<u64>,
    pub search_best: bool,
    pub node_budget: Option<u64>,
    pub root: Ghost<D15Game>,
    pub initial_bound: Ghost<i16>,
}

/// Whether the node budget still admits entering a node.
pub open spec fn budget_allows(b: Option<u64>) -> bool {
    match b {
        Option::Some(n) => n > 0,
        Option::None => true,
    }
}

/// What every search step maintains: the bound only tightens from its
/// initial value and moves only when a solution is recorded, and a
/// recorded solution replays from the root to a winning state whose
/// health beats the initial bound — in best-solution mode, to exactly the
/// health the bound stands at.
pub open spec fn solver_inv(s: Solver) -> bool {
    &&& s.initial_bound@ >= 0
    &&& s.besthp >= s.initial_bound@
    &&& (!s.search_best ==> s.initial_bound@ <= 100)
    &&& (!s.search_best ==> s.besthp <= 201)
    &&& (s.solve is None ==> s.besthp == s.initial_bound@)
    &&& match s.solve {
        Option::Some(m) => {
            &&& win2_spec(replay(s.root@, m@))
            &&& replay(s.root@, m@).hp > s.initial_bound@
            &&& (s.search_best ==> s.besthp == replay(s.root@, m@).hp)
        },
        Option::None => true,
    }
}

impl Solver {
    /// A fresh solver with an empty transposition table, no solution and
    /// no node budget.
    pub fn new() -> (s: Solver)
        ensures
            s.solve is None,
            s.besthp == 0,
            s.search_best == false,
            s.node_budget is None,
            s.checked_perms@ == Set::<u64>::empty(),
            solver_inv(s),
    {
        Solver {
            solve: None,
            besthp: 0,
            checked_perms: new_visited_set(),
            search_best: false,
            node_budget: None,
            root: Ghost(arbitrary()),
            initial_bound: Ghost(0),
        }
    }

    /// The number of states recorded in the transposition table.
    pub fn visited_count(&self) -> (n: usize)
        ensures
            n as nat == self.checked_perms@.len(),
    {
        visited_len(&self.checked_perms)
    }

    /// Runs the full search from `game`: picks the initial bound and the
    /// search mode from the starting health, tries the switch move first
    /// when the player starts with the sword, and explores each starting
    /// move's subtree in order. Any recorded solution replays from
    /// `game` to a winning state with health above the initial bound;
    /// and with no node budget, if some legal first move already reaches
    /// such a winning state, a solution is recorded.
    #[verifier::rlimit(100)]
    pub fn do_solve(&mut self, game: &D15Game)
        requires
            old(self).solve is None,
            wf(*game),
            game.hp >= i16::MIN + 29,
        ensures
            solver_inv(*final(self)),
            final(self).root@ == *game,
            final(self).search_best == (game.hp > 159),
            final(self).initial_bound@ as int == initial_bound_spec(*game),
            old(self).node_budget is None ==> final(self).node_budget is None,
            match final(self).solve {
                Option::Some(m) => win2_spec(replay(*game, m@)) && replay(*game, m@).hp
                    > initial_bound_spec(*game),
                Option::None => true,
            },
            (old(self).node_budget is None && (exists|m: Move|
                #[trigger] winning_first_move(*game, m))) ==> final(self).solve is Some,
    {
        let mut possible_start_moves = game.get_possible_moves();

        self.search_best = false;
        if game.hp > 159 {
            self.search_best = true;
            self.besthp = game.hp - 40;
        } else if game.hp > 128 {
            self.besthp = 100;
        } else {
            if game.boss.x == 5 {
                self.besthp = 54;
            } else {
                self.besthp = 47;
            }
        }
        if game.hp <= 60 {
            self.besthp = 35;
        }
        self.root = Ghost(*game);
        self.initial_bound = Ghost(self.besthp);
        proof {
            lemma_moves_ok(*game);
        }
        let ghost g0 = *game;
        let ghost hyp = old(self).node_budget is None && (exists|m: Move|
            #[trigger] winning_first_move(g0, m));
        let ghost mwin: Move = if hyp {
            choose|m: Move| winning_first_move(g0, m)
        } else {
            arbitrary()
        };
        proof {
            if hyp {
                lemma_winning_first_move_parts(g0, mwin);
            }
        }

        if game.playerstate == PlayerState::SWORD {
            proof {
                lemma_moves_has_switch(*game);
            }
            let mut index_switch: usize = 0;
            while index_switch < possible_start_moves.len() && !(possible_start_moves[index_switch]
                == Move::SWITCH)
                invariant
                    0 <= index_switch <= possible_start_moves@.len(),
                    forall|j: int|
                        0 <= j < index_switch ==> possible_start_moves@[j] != Move::SWITCH,
                    possible_start_moves@ == moves_spec(*game),
                decreases possible_start_moves@.len() - index_switch,
            {
                index_switch = index_switch + 1;
            }
            assert(index_switch < possible_start_moves@.len()) by {
                if index_switch as int == possible_start_moves@.len() {
                    let i = choose|i: int|
                        0 <= i < moves_spec(*game).len() && moves_spec(*game)[i] == Move::SWITCH;
                    assert(possible_start_moves@[i] != Move::SWITCH);
                }
            };
            assert(forall|t: int|
                0 <= t < possible_start_moves@.len() ==> move_ok(
                    *game,
                    #[trigger] possible_start_moves@[t],
                ));
            assert(possible_start_moves@[index_switch as int] == Move::SWITCH);
            let mut reordered: Vec<Move> = Vec::with_capacity(possible_start_moves.len());
            reordered.push(Move::SWITCH);
            let mut j: usize = 0;
            while j < possible_start_moves.len()
                invariant
                    0 <= j <= possible_start_moves@.len(),
                    reordered@.len() >= 1,
                    reordered@[0] == Move::SWITCH,
                    forall|t: int|
                        0 <= t < possible_start_moves@.len() ==> move_ok(
                            *game,
                            #[trigger] possible_start_moves@[t],
                        ),
                    forall|t: int|
                        0 <= t < reordered@.len() ==> move_ok(
                            *game,
                            #[trigger] reordered@[t],
                        ),
                    forall|t: int|
                        0 <= t < j && t != index_switch ==> reordered@.contains(
                            #[trigger] possible_start_moves@[t],
                        ),
                decreases possible_start_moves@.len() - j,
            {
                if j != index_switch {
                    let m = possible_start_moves[j];
                    let ghost r_old = reordered@;
                    reordered.push(m);
                    proof {
                        assert forall|x: Move| r_old.contains(x) implies reordered@.contains(
                            x,
                        ) by {
                            let i = choose|i: int| 0 <= i < r_old.len() && r_old[i] == x;
                            assert(reordered@[i] == x);
                        };
                        assert(reordered@[r_old.len() as int] == m);
                        assert(reordered@.contains(m));
                    }
                }
                j = j + 1;
            }
            proof {
                if hyp {
                    let t = choose|t: int|
                        0 <= t < moves_spec(g0).len() && moves_spec(g0)[t] == mwin;
                    if t == index_switch as int {
                        assert(reordered@[0] == mwin);
                    } else {
                        assert(reordered@.contains(possible_start_moves@[t]));
                    }
                    assert(reordered@.contains(mwin));
                }
            }
            possible_start_moves = reordered;
        }
        proof {
            if hyp {
                assert(possible_start_moves@.contains(mwin));
            }
        }

        let mut k: usize = 0;
        while k < possible_start_moves.len()
            invariant
                solver_inv(*self),
                self.root@ == g0,
                self.initial_bound@ as int == initial_bound_spec(g0),
                self.search_best == (g0.hp > 159),
                wf(g0),
                g0.hp >= i16::MIN + 29,
                *game == g0,
                old(self).node_budget is None ==> self.node_budget is None,
                hyp ==> old(self).node_budget is None && winning_first_move(g0, mwin),
                hyp ==> self.solve is Some || (exists|t: int|
                    k <= t < possible_start_moves@.len() && possible_start_moves@[t] == mwin),
                forall|t: int|
                    0 <= t < possible_start_moves@.len() ==> move_ok(
                        g0,
                        #[trigger] possible_start_moves@[t],
                    ),
            decreases possible_start_moves@.len() - k,
        {
            let move_oper = possible_start_moves[k];
            let mut new_game = *game;
            new_game.do_move(&move_oper);
            let mut moves_done: Vec<Move> = Vec::new();
            moves_done.push(move_oper);
            proof {
                assert(moves_done@ =~= Seq::<Move>::empty().push(move_oper));
                lemma_replay_snoc(g0, Seq::<Move>::empty(), move_oper);
                assert(replay(g0, Seq::<Move>::empty()) == g0);
            }
            let ghost pre = *self;
            self.solve(&new_game, &moves_done);
            proof {
                if hyp && self.solve is None {
                    assert(pre.solve is None);
                    assert(pre.besthp == pre.initial_bound@);
                    if possible_start_moves@[k as int] == mwin {
                        lemma_winning_first_move_parts(g0, mwin);
                        assert(new_game == step_spec(g0, mwin));
                        assert(pre.node_budget is None);
                        assert(budget_allows(pre.node_budget));
                        assert(new_game.hp > pre.besthp);
                        assert(win2_spec(new_game));
                        assert(false);
                    }
                    let t0 = choose|t: int|
                        k <= t < possible_start_moves@.len() && possible_start_moves@[t] == mwin;
                    assert(t0 >= k as int + 1);
                    assert(k as int + 1 <= t0 < possible_start_moves@.len()
                        && possible_start_moves@[t0] == mwin);
                }
            }
            k = k + 1;
        }
        proof {
            if hyp && self.solve is None {
                assert(false);
            }
        }
    }

    /// One node of the depth-first search: charge the node budget, prune
    /// against the bound, test for a win, consult and extend the
    /// transposition table, and recurse into the children. `moves_done`
    /// is the path that led from the root to `game`.
    ///
    /// Beyond soundness, the contract promises the work this node owes:
    /// an exhausted budget leaves the solver untouched; a pruned node
    /// changes nothing but the budget; a winning, unpruned node records
    /// the path that led here and raises the bound — to the ceiling in
    /// first-solution mode, to the win's health in best-solution mode.
    #[verifier::rlimit(60)]
    pub fn solve(&mut self, game: &D15Game, moves_done: &Vec<Move>)
        requires
            solver_inv(*old(self)),
            wf(*game),
            replay(old(self).root@, moves_done@) == *game,
        ensures
            solver_inv(*final(self)),
            final(self).root == old(self).root,
            final(self).initial_bound == old(self).initial_bound,
            final(self).search_best == old(self).search_best,
            final(self).besthp >= old(self).besthp,
            old(self).node_budget is None ==> final(self).node_budget is None,
            old(self).node_budget matches Some(n) ==> final(self).node_budget matches Some(m)
                && m <= n,
            old(self).node_budget == Some(0u64) ==> *final(self) == *old(self),
            old(self).solve is Some ==> final(self).solve is Some,
            final(self).besthp != old(self).besthp ==> final(self).solve is Some,
            old(self).checked_perms@.subset_of(final(self).checked_perms@),
            game.hp <= old(self).besthp ==> {
                &&& final(self).solve == old(self).solve
                &&& final(self).besthp == old(self).besthp
                &&& final(self).checked_perms@ == old(self).checked_perms@
            },
            (budget_allows(old(self).node_budget) && game.hp > old(self).besthp && win2_spec(
                *game,
            )) ==> (match final(self).solve {
                Option::Some(m) => m@ == moves_done@,
                Option::None => false,
            }) && final(self).besthp as int == (if old(self).search_best {
                game.hp as int
            } else {
                201
            }),
        decreases game.hp + 32768,
    {
        match self.node_budget {
            Some(n) => {
                if n == 0 {
                    return ;
                }
                self.node_budget = Some(n - 1);
            },
            None => {},
        }
        if game.hp <= self.besthp {
            return ;
        }
        if game.check_win_2() {
            self.solve = Some(copy_moves(moves_done));
            self.besthp = game.hp;
            if !self.search_best {
                self.besthp = 201;
            }
            return ;
        }
        let game_hash = calculate_hash(game);
        if visited_contains(&self.checked_perms, game_hash) {
            return ;
        }
        visited_insert(&mut self.checked_perms, game_hash);

        let moves = game.get_possible_moves();
        proof {
            lemma_moves_ok(*game);
        }
        assert(forall|t: int|
            0 <= t < moves@.len() ==> move_ok(*game, #[trigger] moves@[t]));
        let mut k: usize = 0;
        while k < moves.len()
            invariant
                solver_inv(*self),
                self.root == old(self).root,
                self.initial_bound == old(self).initial_bound,
                self.search_best == old(self).search_best,
                self.besthp >= old(self).besthp,
                old(self).node_budget is None ==> self.node_budget is None,
                old(self).node_budget matches Some(n) ==> self.node_budget matches Some(m) && m
                    <= n,
                old(self).solve is Some ==> self.solve is Some,
                self.besthp != old(self).besthp ==> self.solve is Some,
                old(self).checked_perms@.subset_of(self.checked_perms@),
                forall|t: int|
                    0 <= t < moves@.len() ==> move_ok(*game, #[trigger] moves@[t]),
                wf(*game),
                replay(old(self).root@, moves_done@) == *game,
                game.hp > old(self).besthp,
                old(self).besthp >= 0,
            decreases moves@.len() - k,
        {
            let move_oper = moves[k];
            let mut new_game = *game;
            new_game.do_move(&move_oper);
            let mut new_moves_done = copy_moves(moves_done);
            new_moves_done.push(move_oper);
            proof {
                lemma_replay_snoc(old(self).root@, moves_done@, move_oper);
                lemma_apply_move_health(*game, move_oper, CatTie::YAxis);
            }
            self.solve(&new_game, &new_moves_done);
            k = k + 1;
        }
    }
}

} // verus!
