//! The token codec: renders a move sequence as the caller-facing string
//! of uppercase words, each followed by a separator, and parses such a
//! string back into moves. Also parses the single-letter mode and phase
//! tokens of a solve request.

use vstd::prelude::*;

use crate::game::{Color, Move, PlayerState};

verus! {

/// The word a move renders to, without the trailing separator.
pub open spec fn move_word(m: Move) -> Seq<char> {
    match m {
        Move::LEFT => seq!['L', 'E', 'F', 'T'],
        Move::RIGHT => seq!['R', 'I', 'G', 'H', 'T'],
        Move::UP => seq!['U', 'P'],
        Move::DOWN => seq!['D', 'O', 'W', 'N'],
        Move::DOG => seq!['D', 'O', 'G'],
        Move::CAT => seq!['C', 'A', 'T'],
        Move::DRAGON => seq!['D', 'R', 'A', 'G', 'O', 'N'],
        Move::SWITCH => seq!['S', 'W', 'I', 'T', 'C', 'H'],
        Move::PASSTURN => seq!['P', 'A', 'S', 'S', 'T', 'U', 'R', 'N'],
    }
}

/// A move sequence rendered as words, each followed by `'_'`.
pub open spec fn fmt_moves_spec(ms: Seq<Move>) -> Seq<char>
    decreases ms.len(),
{
    if ms.len() == 0 {
        Seq::<char>::empty()
    } else {
        move_word(ms[0]) + seq!['_'] + fmt_moves_spec(ms.drop_first())
    }
}

/// The move a word stands for, if any.
pub open spec fn word_to_move(w: Seq<char>) -> Option<Move> {
    if w == move_word(Move::PASSTURN) {
        Some(Move::PASSTURN)
    } else if w == move_word(Move::LEFT) {
        Some(Move::LEFT)
    } else if w == move_word(Move::RIGHT) {
        Some(Move::RIGHT)
    } else if w == move_word(Move::UP) {
        Some(Move::UP)
    } else if w == move_word(Move::DOWN) {
        Some(Move::DOWN)
    } else if w == move_word(Move::DOG) {
        Some(Move::DOG)
    } else if w == move_word(Move::CAT) {
        Some(Move::CAT)
    } else if w == move_word(Move::DRAGON) {
        Some(Move::DRAGON)
    } else if w == move_word(Move::SWITCH) {
        Some(Move::SWITCH)
    } else {
        None
    }
}

/// The tokenizer as a character machine: `acc` holds the word read so
/// far; each `'_'` closes a word, which must name a move; the input must
/// end at a word boundary.
pub open spec fn tok_spec(s: Seq<char>, acc: Seq<char>) -> Option<Seq<Move>>
    decreases s.len(),
{
    if s.len() == 0 {
        if acc.len() == 0 {
            Some(Seq::<Move>::empty())
        } else {
            None
        }
    } else if s[0] == '_' {
        match word_to_move(acc) {
            Some(m) => match tok_spec(s.drop_first(), Seq::<char>::empty()) {
                Some(rest) => Some(seq![m] + rest),
                None => None,
            },
            None => None,
        }
    } else {
        tok_spec(s.drop_first(), acc.push(s[0]))
    }
}

/// The mode a request token stands for, if any.
pub open spec fn playerstate_token(s: Seq<char>) -> Option<PlayerState> {
    if s == "S"@ {
        Some(PlayerState::SWORD)
    } else if s == "A"@ {
        Some(PlayerState::ARMOR)
    } else {
        None
    }
}

/// The phase colour a request token stands for, if any.
pub open spec fn color_token(s: Seq<char>) -> Option<Color> {
    if s == "Y"@ {
        Some(Color::YELLOW)
    } else if s == "G"@ {
        Some(Color::GREEN)
    } else if s == "R"@ {
        Some(Color::RED)
    } else if s == "B"@ {
        Some(Color::BLUE)
    } else {
        None
    }
}

/// No move word contains the separator character.
proof fn lemma_word_no_sep(m: Move)
    ensures
        forall|i: int| 0 <= i < move_word(m).len() ==> move_word(m)[i] != '_',
{
}

/// Reading back the word of a move yields that move.
proof fn lemma_word_roundtrip(m: Move)
    ensures
        word_to_move(move_word(m)) == Some(m),
{
}

/// Consuming a separator-free word followed by `'_'` closes exactly that
/// word, appended to whatever the accumulator already held.
proof fn lemma_consume_word(w: Seq<char>, tail: Seq<char>, acc: Seq<char>)
    requires
        forall|i: int| 0 <= i < w.len() ==> w[i] != '_',
    ensures
        tok_spec(w + seq!['_'] + tail, acc) == (match word_to_move(acc + w) {
            Some(m) => match tok_spec(tail, Seq::<char>::empty()) {
                Some(rest) => Some(seq![m] + rest),
                None => None,
            },
            None => None,
        }),
    decreases w.len(),
{
    let s = w + seq!['_'] + tail;
    if w.len() == 0 {
        assert(acc + w =~= acc);
        assert(s[0] == '_');
        assert(s.drop_first() =~= tail);
    } else {
        assert(s[0] == w[0]);
        assert(s[0] != '_');
        assert(s.drop_first() =~= w.drop_first() + seq!['_'] + tail);
        lemma_consume_word(w.drop_first(), tail, acc.push(w[0]));
        assert(acc.push(w[0]) + w.drop_first() =~= acc + w);
    }
}

/// Round trip: tokenizing the rendering of any move sequence recovers
/// exactly that sequence.
pub proof fn lemma_tokens_round_trip(ms: Seq<Move>)
    ensures
        tok_spec(fmt_moves_spec(ms), Seq::<char>::empty()) == Some(ms),
    decreases ms.len(),
{
    if ms.len() == 0 {
        assert(ms =~= Seq::<Move>::empty());
    } else {
        let m = ms[0];
        let rest = ms.drop_first();
        lemma_tokens_round_trip(rest);
        lemma_word_no_sep(m);
        lemma_word_roundtrip(m);
        lemma_consume_word(move_word(m), fmt_moves_spec(rest), Seq::<char>::empty());
        assert(Seq::<char>::empty() + move_word(m) =~= move_word(m));
        assert(seq![m] + rest =~= ms);
    }
}

/// Rendering one more move appends its word and a separator.
proof fn lemma_fmt_snoc(ms: Seq<Move>, m: Move)
    ensures
        fmt_moves_spec(ms.push(m)) == fmt_moves_spec(ms) + move_word(m) + seq!['_'],
    decreases ms.len(),
{
    assert(ms.push(m).len() == ms.len() + 1);
    assert(fmt_moves_spec(ms.push(m)) == move_word(ms.push(m)[0]) + seq!['_'] + fmt_moves_spec(
        ms.push(m).drop_first(),
    ));
    if ms.len() == 0 {
        assert(ms.push(m)[0] == m);
        assert(ms.push(m).drop_first() =~= Seq::<Move>::empty());
        assert(fmt_moves_spec(Seq::<Move>::empty()) == Seq::<char>::empty());
        assert(move_word(m) + seq!['_'] + Seq::<char>::empty() =~= Seq::<char>::empty()
            + move_word(m) + seq!['_']);
    } else {
        assert(ms.push(m)[0] == ms[0]);
        assert(ms.push(m).drop_first() =~= ms.drop_first().push(m));
        lemma_fmt_snoc(ms.drop_first(), m);
        assert(fmt_moves_spec(ms) == move_word(ms[0]) + seq!['_'] + fmt_moves_spec(
            ms.drop_first(),
        ));
        assert(move_word(ms[0]) + seq!['_'] + (fmt_moves_spec(ms.drop_first()) + move_word(m)
            + seq!['_']) =~= (move_word(ms[0]) + seq!['_'] + fmt_moves_spec(ms.drop_first()))
            + move_word(m) + seq!['_']);
    }
}

/// Renders a move sequence as the caller-facing token string.
pub fn format_moves(moves: &Vec<Move>) -> (s: String)
    ensures
        s@ == fmt_moves_spec(moves@),
{
    let mut out = String::new();
    let mut i: usize = 0;
    while i < moves.len()
        invariant
            0 <= i <= moves@.len(),
            out@ == fmt_moves_spec(moves@.take(i as int)),
        decreases moves@.len() - i,
    {
        let ghost prefix = moves@.take(i as int);
        let m = moves[i];
        match m {
            Move::PASSTURN => out.append("PASSTURN_"),
            Move::LEFT => out.append("LEFT_"),
            Move::RIGHT => out.append("RIGHT_"),
            Move::UP => out.append("UP_"),
            Move::DOWN => out.append("DOWN_"),
            Move::DOG => out.append("DOG_"),
            Move::CAT => out.append("CAT_"),
            Move::DRAGON => out.append("DRAGON_"),
            Move::SWITCH => out.append("SWITCH_"),
        }
        proof {
            reveal_strlit("PASSTURN_");
            reveal_strlit("LEFT_");
            reveal_strlit("RIGHT_");
            reveal_strlit("UP_");
            reveal_strlit("DOWN_");
            reveal_strlit("DOG_");
            reveal_strlit("CAT_");
            reveal_strlit("DRAGON_");
            reveal_strlit("SWITCH_");
            lemma_fmt_snoc(prefix, m);
            assert(moves@.take(i + 1 as int) =~= prefix.push(m));
            assert(out@ =~= fmt_moves_spec(prefix) + move_word(m) + seq!['_']);
        }
        i = i + 1;
    }
    proof {
        assert(moves@.take(moves@.len() as int) =~= moves@);
    }
    out
}

/// Decides whether a word names a move.
fn word_to_move_exec(w: &Vec<char>) -> (r: Option<Move>)
    ensures
        r == word_to_move(w@),
{
    proof {
        reveal_strlit("PASSTURN");
        reveal_strlit("LEFT");
        reveal_strlit("RIGHT");
        reveal_strlit("UP");
        reveal_strlit("DOWN");
        reveal_strlit("DOG");
        reveal_strlit("CAT");
        reveal_strlit("DRAGON");
        reveal_strlit("SWITCH");
        assert(("PASSTURN")@ =~= move_word(Move::PASSTURN));
        assert(("LEFT")@ =~= move_word(Move::LEFT));
        assert(("RIGHT")@ =~= move_word(Move::RIGHT));
        assert(("UP")@ =~= move_word(Move::UP));
        assert(("DOWN")@ =~= move_word(Move::DOWN));
        assert(("DOG")@ =~= move_word(Move::DOG));
        assert(("CAT")@ =~= move_word(Move::CAT));
        assert(("DRAGON")@ =~= move_word(Move::DRAGON));
        assert(("SWITCH")@ =~= move_word(Move::SWITCH));
    }
    if chars_eq_str(w, "PASSTURN") {
        Some(Move::PASSTURN)
    } else if chars_eq_str(w, "LEFT") {
        Some(Move::LEFT)
    } else if chars_eq_str(w, "RIGHT") {
        Some(Move::RIGHT)
    } else if chars_eq_str(w, "UP") {
        Some(Move::UP)
    } else if chars_eq_str(w, "DOWN") {
        Some(Move::DOWN)
    } else if chars_eq_str(w, "DOG") {
        Some(Move::DOG)
    } else if chars_eq_str(w, "CAT") {
        Some(Move::CAT)
    } else if chars_eq_str(w, "DRAGON") {
        Some(Move::DRAGON)
    } else if chars_eq_str(w, "SWITCH") {
        Some(Move::SWITCH)
    } else {
        None
    }
}

/// Compares an accumulated word with a literal.
fn chars_eq_str(a: &Vec<char>, b: &str) -> (r: bool)
    ensures
        r == (a@ == b@),
{
    let lb = b.unicode_len();
    if a.len() != lb {
        proof {
            assert(a@ != b@) by {
                if a@ == b@ {
                    assert(a@.len() == b@.len());
                }
            };
        }
        return false;
    }
    let mut i: usize = 0;
    while i < lb
        invariant
            lb == b@.len(),
            a@.len() == lb,
            0 <= i <= lb,
            forall|j: int| 0 <= j < i ==> a@[j] == b@[j],
        decreases lb - i,
    {
        let ca = a[i];
        let cb = b.get_char(i);
        if ca != cb {
            proof {
                assert(a@ != b@) by {
                    if a@ == b@ {
                        assert(a@[i as int] == b@[i as int]);
                    }
                };
            }
            return false;
        }
        i = i + 1;
    }
    proof {
        assert(a@ =~= b@);
    }
    true
}

/// Parses a token string back into the move sequence it renders.
pub fn tokenize_moves(s: &str) -> (r: Option<Vec<Move>>)
    ensures
        match tok_spec(s@, Seq::<char>::empty()) {
            Some(ms) => r matches Some(v) && v@ == ms,
            None => r is None,
        },
{
    let n = s.unicode_len();
    let mut result: Vec<Move> = Vec::new();
    let mut word: Vec<char> = Vec::new();
    let mut i: usize = 0;
    proof {
        assert(s@.skip(0) =~= s@);
        assert forall|rest: Seq<Move>| #[trigger] (Seq::<Move>::empty() + rest) =~= rest by {};
    }
    while i < n
        invariant
            n == s@.len(),
            0 <= i <= n,
            tok_spec(s@, Seq::<char>::empty()) == (match tok_spec(s@.skip(i as int), word@) {
                Some(rest) => Some(result@ + rest),
                None => None::<Seq<Move>>,
            }),
        decreases n - i,
    {
        let ghost pre = s@.skip(i as int);
        let c = s.get_char(i);
        proof {
            assert(pre.len() == n - i);
            assert(pre[0] == s@[i as int]);
            assert(pre.drop_first() =~= s@.skip(i + 1 as int));
        }
        if c == '_' {
            match word_to_move_exec(&word) {
                Some(m) => {
                    proof {
                        assert(tok_spec(pre, word@) == (match tok_spec(
                            pre.drop_first(),
                            Seq::<char>::empty(),
                        ) {
                            Some(rest) => Some(seq![m] + rest),
                            None => None::<Seq<Move>>,
                        }));
                    }
                    let ghost old_result = result@;
                    result.push(m);
                    word.clear();
                    proof {
                        assert(forall|rest: Seq<Move>|
                            #[trigger] (old_result + (seq![m] + rest)) =~= old_result.push(m)
                                + rest);
                    }
                },
                None => {
                    proof {
                        assert(tok_spec(pre, word@) is None);
                    }
                    return None;
                },
            }
        } else {
            proof {
                assert(tok_spec(pre, word@) == tok_spec(pre.drop_first(), word@.push(c)));
            }
            word.push(c);
        }
        i = i + 1;
    }
    proof {
        assert(s@.skip(n as int) =~= Seq::<char>::empty());
    }
    if word.len() > 0 {
        return None;
    }
    proof {
        assert(tok_spec(Seq::<char>::empty(), word@) == Some(Seq::<Move>::empty()));
        assert(result@ + Seq::<Move>::empty() =~= result@);
    }
    Some(result)
}

/// Parses the single-letter mode token of a solve request.
pub fn ask_playerstate(input: &str) -> (r: Option<PlayerState>)
    ensures
        r == playerstate_token(input@),
{
    let mut chars: Vec<char> = Vec::new();
    if input.unicode_len() == 1 {
        chars.push(input.get_char(0));
    } else {
        proof {
            reveal_strlit("S");
            reveal_strlit("A");
        }
        return None;
    }
    proof {
        reveal_strlit("S");
        reveal_strlit("A");
        assert(chars@ =~= input@);
    }
    if chars_eq_str(&chars, "S") {
        Some(PlayerState::SWORD)
    } else if chars_eq_str(&chars, "A") {
        Some(PlayerState::ARMOR)
    } else {
        None
    }
}

/// Parses the single-letter phase token of a solve request.
pub fn ask_color(input: &str) -> (r: Option<Color>)
    ensures
        r == color_token(input@),
{
    let mut chars: Vec<char> = Vec::new();
    if input.unicode_len() == 1 {
        chars.push(input.get_char(0));
    } else {
        proof {
            reveal_strlit("Y");
            reveal_strlit("G");
            reveal_strlit("R");
            reveal_strlit("B");
        }
        return None;
    }
    proof {
        reveal_strlit("Y");
        reveal_strlit("G");
        reveal_strlit("R");
        reveal_strlit("B");
        assert(chars@ =~= input@);
    }
    if chars_eq_str(&chars, "Y") {
        Some(Color::YELLOW)
    } else if chars_eq_str(&chars, "G") {
        Some(Color::GREEN)
    } else if chars_eq_str(&chars, "R") {
        Some(Color::RED)
    } else if chars_eq_str(&chars, "B") {
        Some(Color::BLUE)
    } else {
        None
    }
}

} // verus!
