use vstd::prelude::*;

use crate::board::{lemma_deck_monotonic, lemma_draws_keep_ids, Board, BoardView, Hero, HeroClass};
use crate::card::MonsterData;
use crate::card_data::{initialize_card_data, random_deck, DECK_SIZE};
use crate::cursor::{clamp_highlight, moved_cursor};

verus! {

/// How many cards each board draws before the first turn.
pub const OPENING_HAND: usize = 6;

/// The phases of a turn, in order.
#[derive(Clone, Copy, PartialEq, Eq, Structural, Debug)]
pub enum TurnPhase {
    PrePlay,
    InPlay,
    PostPlay,
}

/// Which board acts, and in which phase of its turn.
#[derive(Clone, Copy, PartialEq, Eq, Structural, Debug)]
pub struct Turn {
    player: u8,
    phase: TurnPhase,
}

/// The board that acts after board `player`'s turn ends.
pub open spec fn other_player(player: u8) -> u8 {
    if player == 0 {
        1
    } else {
        0
    }
}

/// The step after `phase` of board `player`'s turn: PrePlay, InPlay and PostPlay
/// follow each other, and after PostPlay the other board's PrePlay comes.
pub open spec fn next_step(player: u8, phase: TurnPhase) -> (u8, TurnPhase) {
    match phase {
        TurnPhase::PrePlay => (player, TurnPhase::InPlay),
        TurnPhase::InPlay => (player, TurnPhase::PostPlay),
        TurnPhase::PostPlay => (other_player(player), TurnPhase::PrePlay),
    }
}

impl Turn {
    pub closed spec fn spec_player(&self) -> u8 {
        self.player
    }

    pub closed spec fn spec_phase(&self) -> TurnPhase {
        self.phase
    }

    /// The first phase of board `player`'s turn.
    pub fn new(player: u8) -> (r: Turn)
        requires
            player <= 1,
        ensures
            r.spec_player() == player,
            r.spec_phase() == TurnPhase::PrePlay,
    {
        Turn { player, phase: TurnPhase::PrePlay }
    }

    pub fn player(&self) -> (r: u8)
        ensures
            r == self.spec_player(),
    {
        self.player
    }

    pub fn phase(&self) -> (r: TurnPhase)
        ensures
            r == self.spec_phase(),
    {
        self.phase
    }

    /// The step that follows this one.
    pub fn next(&self) -> (r: Turn)
        ensures
            (r.spec_player(), r.spec_phase()) == next_step(self.spec_player(), self.spec_phase()),
    {
        match self.phase {
            TurnPhase::PrePlay => Turn { player: self.player, phase: TurnPhase::InPlay },
            TurnPhase::InPlay => Turn { player: self.player, phase: TurnPhase::PostPlay },
            TurnPhase::PostPlay => Turn {
                player: if self.player == 0 {
                    1
                } else {
                    0
                },
                phase: TurnPhase::PrePlay,
            },
        }
    }
}

/// Three steps lead from the start of one board's turn to the start of the other's.
pub proof fn lemma_turn_cycle(player: u8)
    requires
        player <= 1,
    ensures
        next_step(player, TurnPhase::PrePlay) == (player, TurnPhase::InPlay),
        next_step(player, TurnPhase::InPlay) == (player, TurnPhase::PostPlay),
        next_step(player, TurnPhase::PostPlay) == ((1 - player) as u8, TurnPhase::PrePlay),
{
}

/// A match, as the contracts see it.
pub struct GameView {
    pub players: (BoardView, BoardView),
    pub turns: u32,
}

impl GameView {
    /// Board 0 is the local player's, board 1 the opponent's; both are well formed.
    pub open spec fn wf(self) -> bool {
        &&& self.players.0.wf()
        &&& self.players.1.wf()
        &&& self.players.0.id == 0
        &&& self.players.1.id == 1
    }

    /// The match after setup: each board has drawn its opening hand.
    pub open spec fn after_setup(self) -> GameView {
        GameView {
            players: (
                self.players.0.after_draws(OPENING_HAND as nat),
                self.players.1.after_draws(OPENING_HAND as nat),
            ),
            ..self
        }
    }
}

/// A match: the two boards it owns and a turn counter.
pub struct Game {
    players: (Board, Board),
    turns: u32,
}

impl View for Game {
    type V = GameView;

    closed spec fn view(&self) -> GameView {
        GameView { players: (self.players.0@, self.players.1@), turns: self.turns }
    }
}

impl Game {
    pub open spec fn wf(&self) -> bool {
        self@.wf()
    }

    /// A match between `player1`, the local board 0, and `player2`, the opponent's board 1.
    pub fn new(player1: Board, player2: Board) -> (r: Game)
        requires
            player1.wf(),
            player2.wf(),
            player1@.id == 0,
            player2@.id == 1,
        ensures
            r.wf(),
            r@ == (GameView { players: (player1@, player2@), turns: 0 }),
    {
        Game { players: (player1, player2), turns: 0 }
    }

    pub fn players(&self) -> (r: &(Board, Board))
        ensures
            r.0@ == self@.players.0,
            r.1@ == self@.players.1,
    {
        &self.players
    }

    /// Runs what `turn`'s phase does by itself on the acting board: in PrePlay it
    /// draws one card; the other phases move nothing.
    pub fn play_phase(&mut self, turn: Turn)
        requires
            old(self).wf(),
        ensures
            final(self).wf(),
            final(self)@ == (if turn.spec_phase() != TurnPhase::PrePlay {
                old(self)@
            } else if turn.spec_player() == 0 {
                GameView {
                    players: (old(self)@.players.0.after_draw(), old(self)@.players.1),
                    ..old(self)@
                }
            } else {
                GameView {
                    players: (old(self)@.players.0, old(self)@.players.1.after_draw()),
                    ..old(self)@
                }
            }),
    {
        let ghost pre = self@;
        proof {
            lemma_draws_keep_id(pre.players.0, 1);
            lemma_draws_keep_id(pre.players.1, 1);
        }
        let acting = if turn.player() == 0 {
            &mut self.players.0
        } else {
            &mut self.players.1
        };
        match turn.phase() {
            TurnPhase::PrePlay => pre_play(acting),
            TurnPhase::InPlay => in_play(acting),
            TurnPhase::PostPlay => post_play(),
        }
    }

    pub fn turns(&self) -> (r: u32)
        ensures
            r == self@.turns,
    {
        self.turns
    }
}

/// Draws `n` cards on `board`, one after the other.
fn draw_cards(board: &mut Board, n: usize)
    requires
        old(board).wf(),
    ensures
        final(board).wf(),
        final(board)@ == old(board)@.after_draws(n as nat),
{
    let ghost pre = board@;
    let mut i: usize = 0;
    while i < n
        invariant
            i <= n,
            board.wf(),
            board@ == pre.after_draws(i as nat),
        decreases n - i,
    {
        board.draw_card();
        i = i + 1;
    }
}

/// Sets the match up: each board draws its opening hand. Meant to run once,
/// before the first turn.
pub fn pre_game(game: &mut Game)
    requires
        old(game).wf(),
    ensures
        final(game).wf(),
        final(game)@ == old(game)@.after_setup(),
{
    let ghost pre = game@;
    draw_cards(&mut game.players.0, OPENING_HAND);
    draw_cards(&mut game.players.1, OPENING_HAND);
    proof {
        lemma_draws_keep_id(pre.players.0, OPENING_HAND as nat);
        lemma_draws_keep_id(pre.players.1, OPENING_HAND as nat);
    }
}

/// The start of a turn: the acting board draws one card.
pub fn pre_play(player: &mut Board)
    requires
        old(player).wf(),
    ensures
        final(player).wf(),
        final(player)@ == old(player)@.after_draw(),
{
    player.draw_card();
}

/// The main phase of a turn: nothing moves by itself.
pub fn in_play(player: &mut Board)
    ensures
        final(player)@ == old(player)@,
{
}

/// The end of a turn: nothing moves by itself.
pub fn post_play() {
}

/// Moves the cursor of the player's board by `y` rows and `x` columns, clamped
/// to the rows that exist and to the slots or cards of the row it lands on.
pub fn change_highlight(y: i32, x: i32, game: &mut Game)
    requires
        old(game).wf(),
    ensures
        final(game).wf(),
        final(game)@ == (GameView {
            players: (
                BoardView {
                    highlighted: moved_cursor(
                        old(game)@.players.0.highlighted,
                        y as int,
                        x as int,
                        old(game)@.players.1.hand.len(),
                        old(game)@.players.0.hand.len(),
                    ),
                    ..old(game)@.players.0
                },
                old(game)@.players.1,
            ),
            ..old(game)@
        }),
{
    let current = game.players.0.highlighted();
    let enemy_hand_len = game.players.1.hand().len();
    let player_hand_len = game.players.0.hand().len();
    let next = clamp_highlight(current, y, x, enemy_hand_len, player_hand_len);
    game.players.0.change_highlighted(next);
}

/// The health that each hero starts a standard match with.
pub const HERO_HEALTH: i32 = 30;

/// A standard match, set up: each board gets a hero of its own identity and a
/// random deck of `DECK_SIZE` catalog creatures, and has drawn its opening hand.
pub fn new_game() -> (r: Game)
    ensures
        r.wf(),
        r@.turns == 0,
        r@.players.0.hand.len() == OPENING_HAND,
        r@.players.1.hand.len() == OPENING_HAND,
        r@.players.0.deck.len() == DECK_SIZE - OPENING_HAND,
        r@.players.1.deck.len() == DECK_SIZE - OPENING_HAND,
{
    let templates = initialize_card_data();
    assert(templates@.map_values(|d: MonsterData| d@).len() == 2);
    let deck1 = random_deck(&templates, DECK_SIZE);
    let deck2 = random_deck(&templates, DECK_SIZE);
    let board1 = Board::new(0, Hero::new(0, HERO_HEALTH, HERO_HEALTH, HeroClass::Mage), deck1);
    let board2 = Board::new(1, Hero::new(1, HERO_HEALTH, HERO_HEALTH, HeroClass::Mage), deck2);
    let mut game = Game::new(board1, board2);
    proof {
        lemma_setup_deals_opening_hands(game@);
    }
    pre_game(&mut game);
    game
}

/// After setup on two fresh boards whose decks hold at least the opening hand,
/// each hand holds exactly the opening hand and each deck that many cards fewer.
pub proof fn lemma_setup_deals_opening_hands(g: GameView)
    requires
        g.wf(),
        g.players.0.hand.len() == 0,
        g.players.1.hand.len() == 0,
        g.players.0.deck.len() >= OPENING_HAND,
        g.players.1.deck.len() >= OPENING_HAND,
    ensures
        g.after_setup().wf(),
        g.after_setup().players.0.hand.len() == OPENING_HAND,
        g.after_setup().players.1.hand.len() == OPENING_HAND,
        g.after_setup().players.0.deck.len() == g.players.0.deck.len() - OPENING_HAND,
        g.after_setup().players.1.deck.len() == g.players.1.deck.len() - OPENING_HAND,
{
    lemma_deck_monotonic(g.players.0, OPENING_HAND as nat);
    lemma_deck_monotonic(g.players.1, OPENING_HAND as nat);
    lemma_draws_keep_ids(g.players.0, OPENING_HAND as nat);
    lemma_draws_keep_ids(g.players.1, OPENING_HAND as nat);
    lemma_draws_keep_id(g.players.0, OPENING_HAND as nat);
    lemma_draws_keep_id(g.players.1, OPENING_HAND as nat);
}

/// Draws never change which board a board is.
pub proof fn lemma_draws_keep_id(b: BoardView, n: nat)
    ensures
        b.after_draws(n).id == b.id,
    decreases n,
{
    if n > 0 {
        lemma_draws_keep_id(b, (n - 1) as nat);
    }
}

} // verus!
