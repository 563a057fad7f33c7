use vstd::prelude::*;
use vstd::string::StringExecFns;

use crate::board::card_ids;
use crate::card::{
    fresh_monster, CardHolder, CardView, DamageType, MagicSchool, Monster, MonsterData,
    MonsterDataView,
};

verus! {

/// How many cards a deck of the standard match holds.
pub const DECK_SIZE: usize = 30;

/// The creature templates of the catalog: first the Wisp, then the Orc Grunt.
pub open spec fn catalog() -> Seq<MonsterDataView> {
    seq![
        MonsterDataView {
            name: seq!['W', 'i', 's', 'p'],
            base_cost: 1,
            base_health: 1,
            base_damage: 1,
            attack_type: DamageType::new_spec(0, MagicSchool::Flame),
        },
        MonsterDataView {
            name: seq!['O', 'r', 'c', ' ', 'G', 'r', 'u', 'n', 't'],
            base_cost: 3,
            base_health: 3,
            base_damage: 3,
            attack_type: DamageType::new_spec(0, MagicSchool::Physical),
        },
    ]
}

/// The creature templates of the catalog.
pub fn initialize_card_data() -> (r: Vec<MonsterData>)
    ensures
        r@.map_values(|d: MonsterData| d@) == catalog(),
{
    let mut monsters: Vec<MonsterData> = Vec::new();
    let wisp = MonsterData::new(
        String::from_str("Wisp"),
        1,
        1,
        1,
        DamageType::new(0, MagicSchool::Flame),
    );
    let orc_grunt = MonsterData::new(
        String::from_str("Orc Grunt"),
        3,
        3,
        3,
        DamageType::new(0, MagicSchool::Physical),
    );
    monsters.push(wisp);
    monsters.push(orc_grunt);
    proof {
        reveal_strlit("Wisp");
        reveal_strlit("Orc Grunt");
        assert(monsters@[0]@.name =~= catalog()[0].name);
        assert(monsters@[1]@.name =~= catalog()[1].name);
        assert(monsters@.map_values(|d: MonsterData| d@) =~= catalog());
    }
    monsters
}

/// The card at position `i` of the deck that `rolls` give with templates
/// `templates`: an even roll gives a card of the first template with identity
/// `i`, an odd roll one of the second template with identity `i + |rolls|`.
pub open spec fn rolled_card(rolls: Seq<u8>, templates: Seq<MonsterDataView>, i: int) -> CardView {
    if rolls[i] % 2 == 0 {
        CardView::Monster(fresh_monster(i as u32, templates[0]))
    } else {
        CardView::Monster(fresh_monster((i + rolls.len()) as u32, templates[1]))
    }
}

/// The deck that `rolls` give: one card for each roll, in order.
pub open spec fn rolled_deck(rolls: Seq<u8>, templates: Seq<MonsterDataView>) -> Seq<CardView> {
    Seq::new(rolls.len(), |i: int| rolled_card(rolls, templates, i))
}

/// No two cards of a rolled deck share an identity.
pub proof fn lemma_rolled_deck_unique(rolls: Seq<u8>, templates: Seq<MonsterDataView>)
    requires
        2 * rolls.len() <= u32::MAX + 1,
    ensures
        card_ids(rolled_deck(rolls, templates)).no_duplicates(),
{
    let ids = card_ids(rolled_deck(rolls, templates));
    assert forall|i: int, j: int| 0 <= i < ids.len() && 0 <= j < ids.len() && i != j implies ids[i]
        != ids[j] by {
        assert(ids[i] == rolled_card(rolls, templates, i).id());
        assert(ids[j] == rolled_card(rolls, templates, j).id());
    }
}

/// A deck built from one roll per card; see `rolled_deck`.
pub fn deck_from_rolls(rolls: &Vec<u8>, templates: &Vec<MonsterData>) -> (r: Vec<CardHolder>)
    requires
        templates.len() >= 2,
        2 * rolls.len() <= u32::MAX + 1,
    ensures
        r@.map_values(|c: CardHolder| c@) == rolled_deck(
            rolls@,
            templates@.map_values(|d: MonsterData| d@),
        ),
        card_ids(r@.map_values(|c: CardHolder| c@)).no_duplicates(),
{
    let ghost tv = templates@.map_values(|d: MonsterData| d@);
    let n = rolls.len();
    let mut deck: Vec<CardHolder> = Vec::new();
    let mut i: usize = 0;
    while i < n
        invariant
            n == rolls.len(),
            2 * n <= u32::MAX + 1,
            i <= n,
            templates.len() >= 2,
            tv == templates@.map_values(|d: MonsterData| d@),
            deck@.map_values(|c: CardHolder| c@) == rolled_deck(rolls@, tv).take(i as int),
        decreases n - i,
    {
        let card = if rolls[i] % 2 == 0 {
            CardHolder::MonsterCard(Monster::new(i as u32, templates[0].clone()))
        } else {
            CardHolder::MonsterCard(Monster::new((i + n) as u32, templates[1].clone()))
        };
        assert(card@ == rolled_card(rolls@, tv, i as int));
        let ghost prev = deck@;
        deck.push(card);
        assert(deck@.map_values(|c: CardHolder| c@) =~= prev.map_values(|c: CardHolder| c@).push(
            rolled_card(rolls@, tv, i as int),
        ));
        i = i + 1;
        assert(deck@.map_values(|c: CardHolder| c@) =~= rolled_deck(rolls@, tv).take(i as int));
    }
    assert(rolled_deck(rolls@, tv).take(n as int) =~= rolled_deck(rolls@, tv));
    proof {
        lemma_rolled_deck_unique(rolls@, tv);
    }
    deck
}

/// Relies on rand::random: a byte from the thread-local generator. Any byte may
/// come, so nothing is stated of it.
#[verifier::external_body]
fn random_byte() -> u8 {
    rand::random::<u8>()
}

/// A deck of `size` cards, each picked from the first two templates by a random
/// roll; whatever the rolls, it is the deck that `deck_from_rolls` builds from them.
pub fn random_deck(templates: &Vec<MonsterData>, size: usize) -> (r: Vec<CardHolder>)
    requires
        templates.len() >= 2,
        2 * size <= u32::MAX + 1,
    ensures
        exists|rolls: Seq<u8>|
            rolls.len() == size && r@.map_values(|c: CardHolder| c@) == rolled_deck(
                rolls,
                templates@.map_values(|d: MonsterData| d@),
            ),
        card_ids(r@.map_values(|c: CardHolder| c@)).no_duplicates(),
{
    let mut rolls: Vec<u8> = Vec::new();
    let mut i: usize = 0;
    while i < size
        invariant
            i <= size,
            rolls.len() == i,
        decreases size - i,
    {
        rolls.push(random_byte());
        i = i + 1;
    }
    deck_from_rolls(&rolls, templates)
}

} // verus!
