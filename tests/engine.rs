use tcg::board::{unique_ids, Board, Hero, HeroClass, Target, TargetType};
use tcg::card::{CardHolder, DamageType, Effect, Magic, MagicData, MagicSchool, Monster, MonsterData};
use tcg::card_data::{deck_from_rolls, initialize_card_data, random_deck, DECK_SIZE};
use tcg::cursor::clamp_highlight;
use tcg::game::{
    change_highlight, in_play, new_game, pre_game, pre_play, Game, Turn, TurnPhase, OPENING_HAND,
};

fn template(name: &str, cost: i32, health: i32, damage: i32) -> MonsterData {
    MonsterData::new(name.to_string(), cost, health, damage, DamageType::new(2, MagicSchool::Frost))
}

fn creature(id: u32, name: &str) -> CardHolder {
    CardHolder::MonsterCard(Monster::new(id, template(name, 2, 5, 3)))
}

fn spell(id: u32) -> CardHolder {
    let effect = Effect::new(creature(100, "Caster"), vec![], 7);
    CardHolder::MagicCard(Magic::new(id, MagicData::new("Fireball".to_string(), 4, effect)))
}

fn hero(id: u8) -> Hero {
    Hero::new(id, 30, 30, HeroClass::Mage)
}

fn deck_of(n: u32) -> Vec<CardHolder> {
    (0..n).map(|i| creature(i, "Grunt")).collect()
}

fn hand_ids(board: &Board) -> Vec<u32> {
    board.hand().iter().map(|c| c.id()).collect()
}

fn field_ids(board: &Board) -> Vec<Option<u32>> {
    board.field().iter().map(|s| s.as_ref().map(|m| m.id())).collect()
}

#[test]
fn draw_moves_top_of_deck_to_hand() {
    let mut board = Board::new(1, hero(1), deck_of(3));
    board.draw_card();
    assert_eq!(board.count_deck_size(), 2);
    assert_eq!(hand_ids(&board), vec![2]);
    board.draw_card();
    assert_eq!(board.count_deck_size(), 1);
    assert_eq!(hand_ids(&board), vec![2, 1]);
}

#[test]
fn draw_from_empty_deck_does_nothing() {
    let mut board = Board::new(0, hero(0), deck_of(1));
    board.draw_card();
    board.draw_card();
    board.draw_card();
    assert_eq!(board.count_deck_size(), 0);
    assert_eq!(hand_ids(&board), vec![0]);
}

#[test]
fn deck_shrinks_by_one_per_draw_while_it_lasts() {
    let mut board = Board::new(1, hero(1), deck_of(4));
    for step in 0..7usize {
        let deck_before = board.count_deck_size();
        let hand_before = board.hand().len();
        board.draw_card();
        if deck_before > 0 {
            assert_eq!(board.count_deck_size(), deck_before - 1);
            assert_eq!(board.hand().len(), hand_before + 1);
        } else {
            assert_eq!(board.count_deck_size(), 0);
            assert_eq!(board.hand().len(), hand_before);
        }
        assert_eq!(board.count_deck_size() + board.hand().len(), 4, "step {}", step);
    }
}

#[test]
fn player_board_reveals_drawn_cards() {
    let mut board = Board::new(0, hero(0), deck_of(2));
    board.draw_card();
    assert!(!board.hand()[0].hidden());
}

#[test]
fn opponent_card_stays_hidden_until_revealed() {
    let mut board = Board::new(1, hero(1), deck_of(2));
    board.draw_card();
    assert!(board.hand()[0].hidden());
    let mut card = creature(9, "Grunt");
    assert!(card.hidden());
    card.reveal_card();
    assert!(!card.hidden());
    card.reveal_card();
    assert!(!card.hidden());
    assert_eq!(card.id(), 9);
    assert_eq!(card.name(), "Grunt");
}

#[test]
fn spell_reveal_is_one_way() {
    let mut card = spell(3);
    assert!(card.hidden());
    card.reveal_card();
    card.reveal_card();
    assert!(!card.hidden());
    assert_eq!(card.name(), "Fireball");
}

#[test]
fn play_on_occupied_slot_changes_nothing() {
    let mut board = Board::new(0, hero(0), deck_of(3));
    board.draw_card();
    board.draw_card();
    board.draw_card();
    assert!(board.play_card(0, Target::Friendly(TargetType::Monster(1))).is_none());
    let hand = hand_ids(&board);
    let field = field_ids(&board);
    assert!(board.play_card(0, Target::Friendly(TargetType::Monster(1))).is_none());
    assert_eq!(hand_ids(&board), hand);
    assert_eq!(field_ids(&board), field);
}

#[test]
fn play_creature_onto_empty_slot() {
    let a = Monster::new(10, template("Alpha", 2, 5, 3));
    let b = Monster::new(11, template("Beta", 1, 1, 1));
    let deck = vec![CardHolder::MonsterCard(b), CardHolder::MonsterCard(a)];
    let mut board = Board::new(0, hero(0), deck);
    board.draw_card();
    board.draw_card();
    assert_eq!(hand_ids(&board), vec![10, 11]);
    let back = board.play_card(0, Target::Friendly(TargetType::Monster(2)));
    assert!(back.is_none());
    assert_eq!(hand_ids(&board), vec![11]);
    let field = board.field();
    assert!(field[0].is_none() && field[1].is_none() && field[3].is_none() && field[4].is_none());
    let placed = field[2].as_ref().unwrap();
    assert_eq!(placed.id(), 10);
    assert_eq!(placed.cost(), 2);
    assert_eq!(placed.health(), 5);
    assert_eq!(placed.damage(), 3);
    assert_eq!(placed.data().name(), "Alpha");
}

#[test]
fn play_spell_on_slot_hands_it_back() {
    let mut board = Board::new(0, hero(0), vec![creature(1, "Grunt"), spell(2)]);
    board.draw_card();
    board.draw_card();
    let back = board.play_card(0, Target::Friendly(TargetType::Monster(0)));
    assert_eq!(back.map(|c| c.id()), Some(2));
    assert_eq!(hand_ids(&board), vec![1]);
    assert_eq!(field_ids(&board), vec![None, None, None, None, None]);
}

#[test]
fn hero_and_enemy_targets_change_nothing() {
    let mut board = Board::new(0, hero(0), deck_of(2));
    board.draw_card();
    for target in [
        Target::Friendly(TargetType::Hero),
        Target::Enemy(TargetType::Hero),
        Target::Enemy(TargetType::Monster(1)),
    ] {
        assert!(board.play_card(0, target).is_none());
        assert_eq!(hand_ids(&board), vec![1]);
        assert_eq!(field_ids(&board), vec![None, None, None, None, None]);
    }
}

#[test]
fn identities_stay_in_one_zone() {
    let mut board = Board::new(0, hero(0), deck_of(8));
    for _ in 0..5 {
        board.draw_card();
    }
    board.play_card(1, Target::Friendly(TargetType::Monster(0)));
    board.play_card(0, Target::Friendly(TargetType::Monster(4)));
    board.play_card(0, Target::Friendly(TargetType::Monster(4)));
    board.draw_card();
    let mut seen: Vec<u32> = hand_ids(&board);
    seen.extend(field_ids(&board).into_iter().flatten());
    let mut sorted = seen.clone();
    sorted.sort();
    sorted.dedup();
    assert_eq!(sorted.len(), seen.len());
    assert_eq!(seen.len() + board.count_deck_size(), 8);
}

#[test]
fn setup_deals_six_cards_to_each_board() {
    let board1 = Board::new(0, hero(0), deck_of(10));
    let board2 = Board::new(1, hero(1), deck_of(6));
    let mut game = Game::new(board1, board2);
    pre_game(&mut game);
    let (mine, theirs) = game.players();
    assert_eq!(mine.hand().len(), 6);
    assert_eq!(theirs.hand().len(), 6);
    assert_eq!(mine.count_deck_size(), 4);
    assert_eq!(theirs.count_deck_size(), 0);
    assert_eq!(OPENING_HAND, 6);
}

#[test]
fn cursor_column_is_clamped_to_hand() {
    assert_eq!(clamp_highlight((3, 0), 0, 5, 0, 3), (3, 2));
    assert_eq!(clamp_highlight((3, 2), 0, -7, 0, 3), (3, 0));
}

#[test]
fn cursor_on_field_rows_stays_on_slots() {
    assert_eq!(clamp_highlight((2, 3), 0, 9, 0, 0), (2, 4));
    assert_eq!(clamp_highlight((3, 4), -2, 0, 7, 7), (1, 4));
}

#[test]
fn cursor_rows_are_clamped() {
    assert_eq!(clamp_highlight((0, 0), -1, 0, 2, 2), (0, 0));
    assert_eq!(clamp_highlight((3, 0), 4, 0, 2, 2), (3, 0));
    assert_eq!(clamp_highlight((2, 4), -2, 0, 2, 5), (0, 1));
}

#[test]
fn cursor_on_empty_hand_marks_no_card() {
    assert_eq!(clamp_highlight((2, 0), 1, 0, 4, 0), (3, -1));
    assert_eq!(clamp_highlight((1, 3), -1, 0, 0, 4), (0, -1));
}

#[test]
fn change_highlight_moves_player_cursor() {
    let board1 = Board::new(0, hero(0), deck_of(10));
    let board2 = Board::new(1, hero(1), deck_of(10));
    let mut game = Game::new(board1, board2);
    pre_game(&mut game);
    assert_eq!(game.players().0.highlighted(), (3, 0));
    change_highlight(0, 9, &mut game);
    assert_eq!(game.players().0.highlighted(), (3, 5));
    change_highlight(-3, 0, &mut game);
    assert_eq!(game.players().0.highlighted(), (0, 5));
    change_highlight(1, 0, &mut game);
    assert_eq!(game.players().0.highlighted(), (1, 4));
    assert_eq!(game.players().1.highlighted(), (3, 0));
}

#[test]
fn damage_type_names() {
    assert_eq!(DamageType::new(0, MagicSchool::Flame).name(), "0R FLAME");
    assert_eq!(DamageType::new(12, MagicSchool::Physical).name(), "12R PHYS.");
    assert_eq!(DamageType::new(305, MagicSchool::Lightning).name(), "305R LIGHTN.");
    assert_eq!(DamageType::new(4294967295, MagicSchool::Shadow).name(), "4294967295R SHADOW");
    assert_eq!(DamageType::new(7, MagicSchool::Light).name(), "7R LIGHT");
    assert_eq!(DamageType::new(10, MagicSchool::Frost).name(), "10R FROST");
}

#[test]
fn damage_type_colors() {
    assert_eq!(DamageType::new(0, MagicSchool::Physical).color(), (255, 255, 255));
    assert_eq!(DamageType::new(0, MagicSchool::Flame).color(), (255, 140, 0));
    assert_eq!(DamageType::new(0, MagicSchool::Frost).color(), (0, 128, 128));
    assert_eq!(DamageType::new(0, MagicSchool::Lightning).color(), (0, 0, 139));
    assert_eq!(DamageType::new(0, MagicSchool::Shadow).color(), (128, 0, 128));
    assert_eq!(DamageType::new(0, MagicSchool::Light).color(), (250, 250, 210));
}

#[test]
fn monster_starts_from_template() {
    let data = template("Alpha", 2, 5, 3);
    assert_eq!(data.base_cost(), 2);
    assert_eq!(data.base_health(), 5);
    assert_eq!(data.base_damage(), 3);
    assert_eq!(data.attack_type(), DamageType::new(2, MagicSchool::Frost));
    let m = Monster::new(4, data);
    assert_eq!((m.id(), m.cost(), m.health(), m.damage()), (4, 2, 5, 3));
    assert!(m.hidden());
    assert_eq!(m.data().base_health(), 5);
}

#[test]
fn catalog_holds_wisp_and_orc() {
    let catalog = initialize_card_data();
    assert_eq!(catalog.len(), 2);
    assert_eq!(catalog[0].name(), "Wisp");
    assert_eq!(catalog[0].base_cost(), 1);
    assert_eq!(catalog[0].attack_type().name(), "0R FLAME");
    assert_eq!(catalog[1].name(), "Orc Grunt");
    assert_eq!(catalog[1].base_damage(), 3);
    assert_eq!(catalog[1].attack_type().name(), "0R PHYS.");
}

#[test]
fn deck_follows_rolls() {
    let catalog = initialize_card_data();
    let deck = deck_from_rolls(&vec![0, 1, 2, 255], &catalog);
    let ids: Vec<u32> = deck.iter().map(|c| c.id()).collect();
    assert_eq!(ids, vec![0, 5, 2, 7]);
    let names: Vec<String> = deck.iter().map(|c| c.name()).collect();
    assert_eq!(names, vec!["Wisp", "Orc Grunt", "Wisp", "Orc Grunt"]);
    assert!(deck.iter().all(|c| c.hidden()));
}

#[test]
fn random_deck_has_unique_ids() {
    let catalog = initialize_card_data();
    let deck = random_deck(&catalog, DECK_SIZE);
    assert_eq!(deck.len(), 30);
    assert!(unique_ids(&deck));
    for (i, card) in deck.iter().enumerate() {
        let id = card.id() as usize;
        assert!(id == i || id == i + 30);
    }
}

#[test]
fn unique_ids_spots_duplicates() {
    assert!(unique_ids(&vec![]));
    assert!(unique_ids(&vec![creature(1, "A"), creature(2, "B"), spell(3)]));
    assert!(!unique_ids(&vec![creature(1, "A"), creature(2, "B"), spell(1)]));
}

#[test]
fn turn_phases_cycle_between_boards() {
    let t = Turn::new(0);
    assert_eq!((t.player(), t.phase()), (0, TurnPhase::PrePlay));
    let t = t.next();
    assert_eq!((t.player(), t.phase()), (0, TurnPhase::InPlay));
    let t = t.next();
    assert_eq!((t.player(), t.phase()), (0, TurnPhase::PostPlay));
    let t = t.next();
    assert_eq!((t.player(), t.phase()), (1, TurnPhase::PrePlay));
    let t = t.next().next().next();
    assert_eq!((t.player(), t.phase()), (0, TurnPhase::PrePlay));
}

#[test]
fn play_phase_draws_only_at_start_of_turn() {
    let board1 = Board::new(0, hero(0), deck_of(10));
    let board2 = Board::new(1, hero(1), deck_of(10));
    let mut game = Game::new(board1, board2);
    let mut turn = Turn::new(1);
    for _ in 0..3 {
        game.play_phase(turn);
        turn = turn.next();
    }
    assert_eq!(game.players().0.hand().len(), 0);
    assert_eq!(game.players().1.hand().len(), 1);
    game.play_phase(turn);
    assert_eq!(game.players().0.hand().len(), 1);
    assert_eq!(game.turns(), 0);
}

#[test]
fn phase_functions_on_a_board() {
    let mut board = Board::new(1, hero(1), deck_of(3));
    pre_play(&mut board);
    assert_eq!(board.count_deck_size(), 2);
    in_play(&mut board);
    assert_eq!(board.count_deck_size(), 2);
    assert_eq!(board.hand().len(), 1);
}

#[test]
fn new_game_is_set_up() {
    let game = new_game();
    let (mine, theirs) = game.players();
    assert_eq!((mine.id(), theirs.id()), (0, 1));
    assert_eq!(mine.hand().len(), 6);
    assert_eq!(theirs.hand().len(), 6);
    assert_eq!(mine.count_deck_size(), 24);
    assert_eq!(theirs.count_deck_size(), 24);
    assert!(mine.hand().iter().all(|c| !c.hidden()));
    assert!(theirs.hand().iter().all(|c| c.hidden()));
}

#[test]
fn spell_effect_keeps_its_parts() {
    let effect = Effect::new(creature(5, "Caster"), vec![creature(6, "Victim")], 42);
    assert_eq!(effect.handler(), 42);
    assert_eq!(effect.source().id(), 5);
    assert_eq!(effect.targets().len(), 1);
    let data = MagicData::new("Bolt".to_string(), 3, effect);
    assert_eq!(data.effect().handler(), 42);
    let m = Magic::new(8, data);
    assert_eq!((m.id(), m.cost()), (8, 3));
    assert_eq!(m.data().name(), "Bolt");
    assert_eq!(m.data().base_cost(), 3);
}

#[test]
fn hero_keeps_its_identity() {
    assert_eq!(hero(1).id(), 1);
    let board = Board::new(1, hero(1), vec![]);
    assert_eq!(board.id(), 1);
    assert_eq!(board.highlighted(), (3, 0));
}
