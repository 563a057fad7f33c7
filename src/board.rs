use vstd::multiset::Multiset;
use vstd::prelude::*;

use crate::card::{CardHolder, CardView, Monster, MonsterView};

verus! {

/// The archetype of a hero; no rule of the engine depends on it.
#[derive(Clone, Copy, PartialEq, Eq, Structural, Debug)]
pub enum HeroClass {
    Mage,
    Warrior,
    Ranger,
    Rogue,
    Priest,
}

/// A hero, as the contracts see it.
pub struct HeroView {
    pub id: u8,
    pub base_health: i32,
    pub health: i32,
    pub class: HeroClass,
}

/// The hero that a board fights for.
pub struct Hero {
    id: u8,
    base_health: i32,
    health: i32,
    class: HeroClass,
}

impl View for Hero {
    type V = HeroView;

    closed spec fn view(&self) -> HeroView {
        HeroView {
            id: self.id,
            base_health: self.base_health,
            health: self.health,
            class: self.class,
        }
    }
}

impl Hero {
    pub fn new(id: u8, base_health: i32, health: i32, class: HeroClass) -> (r: Hero)
        ensures
            r@ == (HeroView { id, base_health, health, class }),
    {
        Hero { id, base_health, health, class }
    }

    pub fn id(&self) -> (r: u8)
        ensures
            r == self@.id,
    {
        self.id
    }
}

/// What a target names on one side of the match.
#[derive(Clone, Copy, PartialEq, Eq, Structural, Debug)]
pub enum TargetType {
    Hero,
    Monster(usize),
}

/// The target of a play: the acting board's own side, or the enemy's.
#[derive(Clone, Copy, PartialEq, Eq, Structural, Debug)]
pub enum Target {
    Friendly(TargetType),
    Enemy(TargetType),
}

/// The number of field slots of a board.
pub const FIELD_SLOTS: usize = 5;

/// The identities of a sequence of cards, in order.
pub open spec fn card_ids(cards: Seq<CardView>) -> Seq<u32> {
    cards.map_values(|c: CardView| c.id())
}

/// The identity held by a field slot, as a multiset of at most one element.
pub open spec fn slot_ids(slot: Option<MonsterView>) -> Multiset<u32> {
    match slot {
        Some(m) => Multiset::singleton(m.id),
        None => Multiset::empty(),
    }
}

/// The identities held by the five field slots.
pub open spec fn field_ids(field: Seq<Option<MonsterView>>) -> Multiset<u32> {
    slot_ids(field[0]).add(slot_ids(field[1])).add(slot_ids(field[2])).add(
        slot_ids(field[3]),
    ).add(slot_ids(field[4]))
}

/// The view of a card that may be absent.
pub open spec fn opt_card_view(o: Option<CardHolder>) -> Option<CardView> {
    match o {
        Some(c) => Some(c@),
        None => None,
    }
}

/// The view of a field slot.
pub open spec fn slot_view(o: Option<Monster>) -> Option<MonsterView> {
    match o {
        Some(m) => Some(m@),
        None => None,
    }
}

/// A board, as the contracts see it. The top of the deck is its last card.
pub struct BoardView {
    pub id: u8,
    pub hero: HeroView,
    pub field: Seq<Option<MonsterView>>,
    pub hand: Seq<CardView>,
    pub deck: Seq<CardView>,
    pub graveyard: Seq<CardView>,
    pub highlighted: (u8, i32),
}

impl BoardView {
    /// Every identity held by the board, counted once for each zone entry that holds it.
    pub open spec fn ids(self) -> Multiset<u32> {
        card_ids(self.deck).to_multiset().add(card_ids(self.hand).to_multiset()).add(
            field_ids(self.field),
        ).add(card_ids(self.graveyard).to_multiset())
    }

    /// How many of the four zones hold a card with identity `x`.
    pub open spec fn zones_holding(self, x: u32) -> int {
        (if card_ids(self.deck).contains(x) {
            1int
        } else {
            0int
        }) + (if card_ids(self.hand).contains(x) {
            1int
        } else {
            0int
        }) + (if field_ids(self.field).contains(x) {
            1int
        } else {
            0int
        }) + (if card_ids(self.graveyard).contains(x) {
            1int
        } else {
            0int
        })
    }

    /// Five field slots, a board identity of 0 or 1, and no identity held twice.
    pub open spec fn wf(self) -> bool {
        &&& self.field.len() == FIELD_SLOTS
        &&& self.id <= 1
        &&& forall|x: u32| #[trigger] self.ids().count(x) <= 1
    }

    /// The board after one draw: the top card of the deck goes to the end of the
    /// hand, revealed on board 0; an empty deck leaves the board as it is.
    pub open spec fn after_draw(self) -> BoardView {
        if self.deck.len() == 0 {
            self
        } else {
            let c = self.deck.last();
            BoardView {
                deck: self.deck.drop_last(),
                hand: self.hand.push(
                    if self.id == 0 {
                        c.revealed()
                    } else {
                        c
                    },
                ),
                ..self
            }
        }
    }

    /// The board after `n` draws.
    pub open spec fn after_draws(self, n: nat) -> BoardView
        decreases n,
    {
        if n == 0 {
            self
        } else {
            self.after_draws((n - 1) as nat).after_draw()
        }
    }

    /// Whether a play of hand card `card` on `target` is one the board can take:
    /// a friendly slot must exist, and when it is empty `card` must index the hand.
    pub open spec fn play_allowed(self, card: usize, target: Target) -> bool {
        match target {
            Target::Friendly(TargetType::Monster(i)) => i < FIELD_SLOTS && (self.field[i as int] is None
                ==> card < self.hand.len()),
            _ => true,
        }
    }

    /// The board after playing hand card `card` on `target`, and the card handed back.
    /// Only a friendly monster slot that is empty takes a play: the card leaves the
    /// hand, a creature takes the slot, and a spell is handed back. Any other play
    /// changes nothing and hands back nothing.
    pub open spec fn after_play(self, card: usize, target: Target) -> (BoardView, Option<CardView>) {
        match target {
            Target::Friendly(TargetType::Monster(i)) => {
                if self.field[i as int] is None {
                    let rest = BoardView { hand: self.hand.remove(card as int), ..self };
                    match self.hand[card as int] {
                        CardView::Monster(m) => (
                            BoardView { field: self.field.update(i as int, Some(m)), ..rest },
                            None,
                        ),
                        CardView::Magic(s) => (rest, Some(CardView::Magic(s))),
                    }
                } else {
                    (self, None)
                }
            },
            _ => (self, None),
        }
    }
}

/// One player's side of the match: hero, field slots, hand, deck, graveyard and cursor.
pub struct Board {
    id: u8,
    hero: Hero,
    field: [Option<Monster>; 5],
    hand: Vec<CardHolder>,
    deck: Vec<CardHolder>,
    graveyard: Vec<CardHolder>,
    highlighted: (u8, i32),
}

impl View for Board {
    type V = BoardView;

    closed spec fn view(&self) -> BoardView {
        BoardView {
            id: self.id,
            hero: self.hero@,
            field: self.field@.map_values(|o: Option<Monster>| slot_view(o)),
            hand: self.hand@.map_values(|c: CardHolder| c@),
            deck: self.deck@.map_values(|c: CardHolder| c@),
            graveyard: self.graveyard@.map_values(|c: CardHolder| c@),
            highlighted: self.highlighted,
        }
    }
}

/// The identities of `cards` after appending `c`.
pub proof fn lemma_card_ids_push(cards: Seq<CardView>, c: CardView)
    ensures
        card_ids(cards.push(c)) == card_ids(cards).push(c.id()),
        card_ids(cards.push(c)).to_multiset() == card_ids(cards).to_multiset().insert(c.id()),
{
    assert(card_ids(cards.push(c)) =~= card_ids(cards).push(c.id()));
    broadcast use vstd::seq_lib::group_to_multiset_ensures;
}

/// The identities of `cards` after removing the card at `i`.
pub proof fn lemma_card_ids_remove(cards: Seq<CardView>, i: int)
    requires
        0 <= i < cards.len(),
    ensures
        card_ids(cards.remove(i)) == card_ids(cards).remove(i),
        card_ids(cards.remove(i)).to_multiset() == card_ids(cards).to_multiset().remove(
            cards[i].id(),
        ),
{
    assert(card_ids(cards.remove(i)) =~= card_ids(cards).remove(i));
    broadcast use vstd::seq_lib::group_to_multiset_ensures;
}

/// A draw moves a card between zones and keeps every identity where the board holds it.
pub proof fn lemma_draw_keeps_ids(b: BoardView)
    ensures
        b.after_draw().ids() == b.ids(),
        b.after_draw().field == b.field,
        b.after_draw().id == b.id,
{
    if b.deck.len() > 0 {
        let c = b.deck.last();
        let d = if b.id == 0 {
            c.revealed()
        } else {
            c
        };
        assert(b.deck.drop_last().push(c) =~= b.deck);
        lemma_card_ids_push(b.deck.drop_last(), c);
        lemma_card_ids_push(b.hand, d);
        lemma_reveal_idempotent(c);
        assert(b.after_draw().ids() =~= b.ids());
    }
}

/// Filling an empty slot with a creature adds its identity to the field's identities.
pub proof fn lemma_field_ids_fill(field: Seq<Option<MonsterView>>, i: int, m: MonsterView)
    requires
        field.len() == FIELD_SLOTS,
        0 <= i < FIELD_SLOTS,
        field[i] is None,
    ensures
        field_ids(field.update(i, Some(m))) == field_ids(field).insert(m.id),
{
    let f = field.update(i, Some(m));
    assert(field_ids(f) =~= field_ids(field).insert(m.id));
}

/// Each draw takes one card off the deck and adds one to the hand while the deck
/// lasts, and changes nothing once it is empty: after `n` draws the deck has lost
/// `min(n, |deck|)` cards and the hand has gained as many.
pub proof fn lemma_deck_monotonic(b: BoardView, n: nat)
    ensures
        b.after_draws(n).deck.len() == if n <= b.deck.len() {
            b.deck.len() - n
        } else {
            0
        },
        b.after_draws(n).hand.len() == b.hand.len() + if n <= b.deck.len() {
            n as int
        } else {
            b.deck.len() as int
        },
        b.after_draws(n).deck == b.deck.subrange(0, b.after_draws(n).deck.len() as int),
    decreases n,
{
    if n > 0 {
        lemma_deck_monotonic(b, (n - 1) as nat);
        let p = b.after_draws((n - 1) as nat);
        if p.deck.len() > 0 {
            assert(p.deck.drop_last() =~= b.deck.subrange(0, p.deck.len() - 1));
        }
    }
}

/// Draws never break the board's well-formedness, and keep the identities it holds.
pub proof fn lemma_draws_keep_ids(b: BoardView, n: nat)
    requires
        b.wf(),
    ensures
        b.after_draws(n).wf(),
        b.after_draws(n).ids() == b.ids(),
    decreases n,
{
    if n > 0 {
        lemma_draws_keep_ids(b, (n - 1) as nat);
        lemma_draw_keeps_ids(b.after_draws((n - 1) as nat));
    }
}

/// On a well-formed board, every identity that the board holds is in exactly one
/// of deck, hand, field and graveyard, and there only once.
pub proof fn lemma_zone_exclusive(b: BoardView, x: u32)
    requires
        b.wf(),
        b.ids().contains(x),
    ensures
        b.zones_holding(x) == 1,
        b.ids().count(x) == 1,
{
    broadcast use vstd::seq_lib::group_to_multiset_ensures;
    assert(b.ids().count(x) <= 1);
}

/// A play on an occupied friendly slot changes nothing and hands nothing back.
pub proof fn lemma_occupied_slot_refuses(b: BoardView, card: usize, slot: usize)
    requires
        slot < FIELD_SLOTS,
        b.field[slot as int] is Some,
    ensures
        b.after_play(card, Target::Friendly(TargetType::Monster(slot))) == (b, None::<CardView>),
{
}

/// A drawn card lands at the end of the hand: revealed on board 0, and on board 1
/// exactly as hidden as it was on the deck.
pub proof fn lemma_drawn_card_visibility(b: BoardView)
    requires
        b.deck.len() > 0,
    ensures
        b.after_draw().hand.last().id() == b.deck.last().id(),
        b.id == 0 ==> !b.after_draw().hand.last().hidden(),
        b.id != 0 ==> b.after_draw().hand.last() == b.deck.last(),
{
    lemma_reveal_idempotent(b.deck.last());
}

/// A revealed card is no longer hidden, and revealing it again changes nothing.
pub proof fn lemma_reveal_idempotent(c: CardView)
    ensures
        !c.revealed().hidden(),
        c.revealed().revealed() == c.revealed(),
        c.revealed().id() == c.id(),
        c.revealed().name() == c.name(),
{
}

/// Whether no two of `cards` share an identity.
pub fn unique_ids(cards: &Vec<CardHolder>) -> (r: bool)
    ensures
        r == card_ids(cards@.map_values(|c: CardHolder| c@)).no_duplicates(),
{
    let ghost ids = card_ids(cards@.map_values(|c: CardHolder| c@));
    let n = cards.len();
    let mut i: usize = 0;
    while i < n
        invariant
            n == cards.len(),
            ids == card_ids(cards@.map_values(|c: CardHolder| c@)),
            i <= n,
            forall|a: int, b: int| 0 <= a < b < n && a < i ==> ids[a] != ids[b],
        decreases n - i,
    {
        let id_i = cards[i].id();
        assert(ids[i as int] == cards@[i as int]@.id());
        let mut j: usize = i + 1;
        while j < n
            invariant
                n == cards.len(),
                ids == card_ids(cards@.map_values(|c: CardHolder| c@)),
                i < n,
                i < j <= n,
                id_i == ids[i as int],
                forall|a: int, b: int| 0 <= a < b < n && a < i ==> ids[a] != ids[b],
                forall|b: int| i < b < j ==> ids[i as int] != ids[b],
            decreases n - j,
        {
            if cards[j].id() == id_i {
                assert(ids[j as int] == cards@[j as int]@.id());
                assert(ids[j as int] == ids[i as int]);
                return false;
            }
            j = j + 1;
        }
        i = i + 1;
    }
    true
}

fn clone_slot(o: &Option<Monster>) -> (r: Option<Monster>)
    ensures
        slot_view(r) == slot_view(*o),
{
    match o {
        Some(m) => Some(m.clone()),
        None => None,
    }
}

impl Monster {
    /// Places a snapshot of this creature in field slot `target` of `board`: the
    /// slot holds a creature with the same identity and current stats.
    pub fn play_card_on_field(&self, board: &mut Board, target: usize)
        requires
            old(board).wf(),
            target < FIELD_SLOTS,
            old(board)@.field[target as int] is None,
            !old(board)@.ids().contains(self@.id),
        ensures
            final(board).wf(),
            final(board)@ == (BoardView {
                field: old(board)@.field.update(target as int, Some(self@)),
                ..old(board)@
            }),
    {
        let ghost pre = board@;
        board.field[target] = Some(self.clone());
        proof {
            assert(board@.field =~= pre.field.update(target as int, Some(self@)));
            assert(board@.hand =~= pre.hand);
            assert(board@.deck =~= pre.deck);
            assert(board@.graveyard =~= pre.graveyard);
            lemma_field_ids_fill(pre.field, target as int, self@);
            assert(board@.ids() =~= pre.ids().insert(self@.id));
        }
    }
}

impl Board {
    pub open spec fn wf(&self) -> bool {
        self@.wf()
    }

    /// A board with an empty field, hand and graveyard, the given deck, and the
    /// cursor on the first card of its own hand.
    pub fn new(id: u8, hero: Hero, deck: Vec<CardHolder>) -> (r: Board)
        requires
            id <= 1,
            card_ids(deck@.map_values(|c: CardHolder| c@)).no_duplicates(),
        ensures
            r.wf(),
            r@ == (BoardView {
                id,
                hero: hero@,
                field: seq![None, None, None, None, None],
                hand: Seq::empty(),
                deck: deck@.map_values(|c: CardHolder| c@),
                graveyard: Seq::empty(),
                highlighted: (3, 0),
            }),
    {
        let r = Board {
            id,
            hero,
            field: [None, None, None, None, None],
            hand: Vec::new(),
            deck,
            graveyard: Vec::new(),
            highlighted: (3, 0),
        };
        proof {
            let v = r@;
            assert(v.field =~= seq![None, None, None, None, None]);
            assert(v.hand =~= Seq::empty());
            assert(v.graveyard =~= Seq::empty());
            assert(card_ids(v.hand) =~= Seq::empty());
            assert(card_ids(v.graveyard) =~= Seq::empty());
            card_ids(v.deck).lemma_multiset_has_no_duplicates();
            broadcast use vstd::seq_lib::group_to_multiset_ensures;
            assert(v.ids() =~= card_ids(v.deck).to_multiset());
            assert forall|x: u32| #[trigger] v.ids().count(x) <= 1 by {
                if card_ids(v.deck).to_multiset().contains(x) {
                } else {
                }
            }
        }
        r
    }

    pub fn id(&self) -> (r: u8)
        ensures
            r == self@.id,
    {
        self.id
    }

    pub fn highlighted(&self) -> (r: (u8, i32))
        ensures
            r == self@.highlighted,
    {
        self.highlighted
    }

    /// Moves the cursor; the board does not clamp it.
    pub fn change_highlighted(&mut self, new_highlighted: (u8, i32))
        requires
            old(self).wf(),
        ensures
            final(self).wf(),
            final(self)@ == (BoardView { highlighted: new_highlighted, ..old(self)@ }),
    {
        self.highlighted = new_highlighted;
        assert(self@.ids() =~= old(self)@.ids());
    }

    /// A copy of the five field slots.
    pub fn field(&self) -> (r: [Option<Monster>; 5])
        ensures
            r@.map_values(|o: Option<Monster>| slot_view(o)) == self@.field,
    {
        let r = [
            clone_slot(&self.field[0]),
            clone_slot(&self.field[1]),
            clone_slot(&self.field[2]),
            clone_slot(&self.field[3]),
            clone_slot(&self.field[4]),
        ];
        assert(r@.map_values(|o: Option<Monster>| slot_view(o)) =~= self@.field);
        r
    }

    pub fn hand(&self) -> (r: &Vec<CardHolder>)
        ensures
            r@.map_values(|c: CardHolder| c@) == self@.hand,
    {
        &self.hand
    }

    /// Plays hand card `card` on `target`. On an empty friendly slot the card
    /// leaves the hand: a creature takes the slot, a spell is handed back. An
    /// occupied slot, and every other target, leave the board as it is.
    pub fn play_card(&mut self, card: usize, target: Target) -> (r: Option<CardHolder>)
        requires
            old(self).wf(),
            old(self)@.play_allowed(card, target),
        ensures
            final(self).wf(),
            final(self)@ == old(self)@.after_play(card, target).0,
            opt_card_view(r) == old(self)@.after_play(card, target).1,
    {
        match target {
            Target::Friendly(TargetType::Monster(i)) => {
                let free = match &self.field[i] {
                    Some(_) => false,
                    None => true,
                };
                if free {
                    let ghost pre = self@;
                    let chosen = self.hand.remove(card);
                    proof {
                        assert(self@.hand =~= pre.hand.remove(card as int));
                        assert(self@.field =~= pre.field);
                        assert(self@.deck =~= pre.deck);
                        assert(self@.graveyard =~= pre.graveyard);
                        lemma_card_ids_remove(pre.hand, card as int);
                        assert(chosen@ == pre.hand[card as int]);
                        let cid = chosen@.id();
                        assert(card_ids(pre.hand)[card as int] == cid);
                        broadcast use vstd::seq_lib::group_to_multiset_ensures;
                        assert(card_ids(pre.hand).to_multiset().count(cid) > 0);
                        assert(self@.ids() =~= pre.ids().remove(cid));
                    }
                    match chosen {
                        CardHolder::MonsterCard(m) => {
                            m.play_card_on_field(self, i);
                            None
                        },
                        CardHolder::MagicCard(s) => Some(CardHolder::MagicCard(s)),
                    }
                } else {
                    None
                }
            },
            _ => None,
        }
    }

    pub fn count_deck_size(&self) -> (r: usize)
        ensures
            r == self@.deck.len(),
    {
        self.deck.len()
    }

    /// Moves the top card of the deck to the end of the hand, revealing it on
    /// board 0. Drawing from an empty deck does nothing.
    pub fn draw_card(&mut self)
        requires
            old(self).wf(),
        ensures
            final(self).wf(),
            final(self)@ == old(self)@.after_draw(),
    {
        let ghost pre = self@;
        match self.deck.pop() {
            Some(mut x) => {
                if self.id == 0 {
                    x.reveal_card();
                }
                self.hand.push(x);
                proof {
                    assert(self@.deck =~= pre.deck.drop_last());
                    assert(self@.hand =~= pre.after_draw().hand);
                    assert(self@.field =~= pre.field);
                    assert(self@.graveyard =~= pre.graveyard);
                }
            },
            None => {
                assert(self@.deck =~= pre.deck);
            },
        }
        proof {
            lemma_draw_keeps_ids(pre);
        }
    }
}

} // verus!
