//! Unit tests of the engine's components, with exact expected values.
use wingspan_gym::action::Action;
use wingspan_gym::bird_card::{
    core_card, get_deck, is_enough_food_to_play_a_card, BirdCard, BirdCardColor, BirdEffect,
    CORE_DECK_SIZE,
};
use wingspan_gym::bird_feeder::BirdFeeder;
use wingspan_gym::bonus_card::{get_bonus_deck, ScoringRule, BONUS_DECK_SIZE};
use wingspan_gym::deck_and_holder::DeckAndHolder;
use wingspan_gym::error::WingError;
use wingspan_gym::expansion::Expansion;
use wingspan_gym::food::{CostAlternative, FoodIndex};
use wingspan_gym::habitat::Habitat;
use wingspan_gym::nest::NestType;
use wingspan_gym::player::Player;
use wingspan_gym::player_mat::{MatRow, PlayerMat};
use wingspan_gym::wingspan_env::{WingspanEnv, WingspanEnvConfig};

fn plain_card(index: u16) -> BirdCard {
    BirdCard {
        index,
        color: BirdCardColor::White,
        habitats: [true, true, true],
        cost_req: [None, None, None, None, None],
        cost_total: 0,
        cost_alt: CostAlternative::No,
        egg_capacity: 2,
        wide: false,
        nest: NestType::Bowl,
        effect: BirdEffect::NoPower,
    }
}

#[test]
fn dice_sides_per_food() {
    assert_eq!(FoodIndex::Invertebrate.dice_sides(), vec![0, 5]);
    assert_eq!(FoodIndex::Seed.dice_sides(), vec![1, 5]);
    assert_eq!(FoodIndex::Fish.dice_sides(), vec![2]);
    assert_eq!(FoodIndex::Fruit.dice_sides(), vec![3]);
    assert_eq!(FoodIndex::Rodent.dice_sides(), vec![4]);
}

#[test]
fn food_index_roundtrip() {
    for v in 0..5u8 {
        assert_eq!(FoodIndex::from_u8(v).as_u8(), v);
    }
}

#[test]
fn color_unique_ids() {
    assert_eq!(BirdCardColor::Brown.unique_id(), 0);
    assert_eq!(BirdCardColor::Pink.unique_id(), 1);
    assert_eq!(BirdCardColor::Teal.unique_id(), 2);
    assert_eq!(BirdCardColor::Yellow.unique_id(), 3);
    assert_eq!(BirdCardColor::White.unique_id(), 4);
    assert_eq!(BirdCardColor::NoColor.unique_id(), 4);
}

#[test]
fn habitat_actions() {
    assert!(matches!(Habitat::Forest.action(), Action::GetFood));
    assert!(matches!(Habitat::Grassland.action(), Action::GetEgg));
    assert!(matches!(Habitat::Wetland.action(), Action::GetBirdCard));
    match Habitat::Wetland.optional_action() {
        Action::DoThen(req, reward) => {
            assert!(matches!(*req, Action::DiscardEgg));
            assert!(matches!(*reward, Action::GetBirdCard));
        }
        other => panic!("unexpected optional action {:?}", other),
    }
}

#[test]
fn enough_food_conjunctive_cost() {
    let mut card = plain_card(1);
    card.cost_req = [Some(1), None, Some(2), None, None];
    card.cost_total = 4;
    // Exactly enough: one invertebrate, two fish, one wildcard from fruit.
    assert!(is_enough_food_to_play_a_card(&card, &[1, 0, 2, 1, 0]));
    // A pinned kind short by one fails even though the total is there.
    assert!(!is_enough_food_to_play_a_card(&card, &[1, 2, 1, 2, 0]));
    // The total short by one fails even though the pinned kinds are there.
    assert!(!is_enough_food_to_play_a_card(&card, &[1, 0, 2, 0, 0]));
}

#[test]
fn enough_food_alternative_cost() {
    let mut card = plain_card(2);
    card.cost_req = [Some(2), Some(1), None, None, None];
    card.cost_total = 1;
    card.cost_alt = CostAlternative::Yes;
    // Covering either listed kind suffices.
    assert!(is_enough_food_to_play_a_card(&card, &[2, 0, 0, 0, 0]));
    assert!(is_enough_food_to_play_a_card(&card, &[0, 1, 0, 0, 0]));
    // Covering neither fails.
    assert!(!is_enough_food_to_play_a_card(&card, &[1, 0, 3, 0, 0]));
}

#[test]
fn core_deck_and_expansion_rejection() {
    let deck = get_deck(&vec![Expansion::Core]).unwrap();
    assert_eq!(deck.len(), CORE_DECK_SIZE);
    for (i, card) in deck.iter().enumerate() {
        assert_eq!(card.index, i as u16);
    }
    match get_deck(&vec![Expansion::Core, Expansion::Oceania]) {
        Err(WingError::InvalidAction) => {}
        other => panic!("expected a rejected set, got {:?}", other),
    }
}

#[test]
fn activate_scripted_shapes() {
    let mut card = plain_card(3);

    card.effect = BirdEffect::NoPower;
    let r = card.activate(&Habitat::Forest, 0).unwrap();
    assert!(r.immediate_actions.is_empty());
    assert!(r.end_of_turn_actions.is_empty());

    card.effect = BirdEffect::DrawCardThenDiscardLater;
    let r = card.activate(&Habitat::Forest, 0).unwrap();
    assert_eq!(r.immediate_actions.len(), 1);
    assert!(matches!(r.immediate_actions[0], Action::GetBirdCard));
    assert_eq!(r.end_of_turn_actions.len(), 1);
    assert!(matches!(r.end_of_turn_actions[0], Action::DiscardBirdCard));

    card.effect = BirdEffect::TuckThenLayEgg;
    let r = card.activate(&Habitat::Grassland, 1).unwrap();
    assert_eq!(r.immediate_actions.len(), 1);
    match &r.immediate_actions[0] {
        Action::DoThen(req, reward) => {
            assert!(matches!(**req, Action::TuckBirdCard(Habitat::Grassland, 1)));
            assert!(matches!(**reward, Action::LayEggAtLoc(Habitat::Grassland, 1, 1)));
        }
        other => panic!("unexpected shape {:?}", other),
    }

    card.effect = BirdEffect::GainFoodFromFeeder;
    let r = card.activate(&Habitat::Wetland, 0).unwrap();
    assert_eq!(r.immediate_actions.len(), 1);
    assert!(matches!(r.immediate_actions[0], Action::GetFood));

    card.effect = BirdEffect::Unscripted;
    match card.activate(&Habitat::Forest, 0) {
        Err(WingError::InvalidBird(_)) => {}
        other => panic!("an unscripted power must fail loudly, got {:?}", other),
    }
}

#[test]
fn mat_row_dynamic_egg_indices() {
    let row = MatRow::new_test(
        vec![0, 1, 2],
        3,
        vec![plain_card(1), plain_card(2), plain_card(3)],
        [0; 5],
        vec![[0; 5], [0; 5], [0; 5]],
        [0, 1, 1, 0, 0],
        [1, 1, 2, 0, 0],
    );
    // Columns 0 and 2 can take an egg; columns 1 and 2 can give one.
    assert_eq!(row.num_spots_to_place_eggs(), 2);
    assert_eq!(row.num_spots_to_discard_eggs(), 2);

    let mut r = row.clone();
    r.place_egg(1).unwrap();
    assert_eq!(*r.get_eggs(), [0, 1, 2, 0, 0]);
    let mut r = row.clone();
    assert_eq!(r.place_egg(2), Err(2));
    assert_eq!(*r.get_eggs(), [0, 1, 1, 0, 0]);

    let mut r = row.clone();
    r.discard_egg(0).unwrap();
    assert_eq!(*r.get_eggs(), [0, 0, 1, 0, 0]);
    let mut r = row.clone();
    r.discard_egg(1).unwrap();
    assert_eq!(*r.get_eggs(), [0, 1, 0, 0, 0]);
    assert_eq!(r.discard_egg(1), Err(1));
}

#[test]
fn wide_cards_cover_two_columns() {
    let mut row = MatRow::default();
    let mut wide = plain_card(9);
    wide.wide = true;
    wide.egg_capacity = 3;
    row.play_a_bird(wide).unwrap();
    assert_eq!(row.col_to_play(), Some(2));
    assert_eq!(row.bird_at_idx(0).unwrap().index, 9);
    assert_eq!(row.bird_at_idx(1).unwrap().index, 9);
    assert_eq!(*row.get_eggs_cap(), [3, 0, 0, 0, 0]);

    // A sideways card with one column left only takes that column.
    let mut row = MatRow::new_test(
        vec![0, 1, 2, 3],
        4,
        vec![plain_card(1), plain_card(2), plain_card(3), plain_card(4)],
        [0; 5],
        vec![[0; 5]; 4],
        [0; 5],
        [2, 2, 2, 2, 0],
    );
    row.play_a_bird(wide).unwrap();
    assert_eq!(row.col_to_play(), None);
    assert_eq!(row.get_birds().len(), 5);
}

#[test]
fn put_bird_card_charges_column_eggs() {
    let mut mat = PlayerMat::default();
    // Column c charges the ceiling of (c+1)/2 eggs: one for the first and
    // second columns, two for the third and fourth.
    let actions = mat.put_bird_card(plain_card(1), &Habitat::Forest).unwrap();
    assert_eq!(actions.len(), 1);
    assert!(matches!(actions[0], Action::DiscardEgg));
    let actions = mat.put_bird_card(plain_card(2), &Habitat::Forest).unwrap();
    assert_eq!(actions.len(), 1);
    let actions = mat.put_bird_card(plain_card(3), &Habitat::Forest).unwrap();
    assert_eq!(actions.len(), 2);
    let actions = mat.put_bird_card(plain_card(4), &Habitat::Forest).unwrap();
    assert_eq!(actions.len(), 2);
    assert_eq!(mat.get_row(&Habitat::Forest).get_birds().len(), 4);
    assert_eq!(mat.eggs_cap, 8);
}

#[test]
fn playable_habitats_respect_egg_cost() {
    let card = plain_card(7);
    // An empty mat with no eggs cannot afford any column: even the first
    // column charges one egg.
    let mat = PlayerMat::default();
    assert_eq!(mat.playable_habitats(&card).len(), 0);

    // One egg affords the other rows' first column (cost one each) but
    // not the forest's third column, which charges two.
    let forest = MatRow::new_test(
        vec![0, 1],
        2,
        vec![plain_card(1), plain_card(2)],
        [0; 5],
        vec![[0; 5], [0; 5]],
        [1, 0, 0, 0, 0],
        [2, 2, 0, 0, 0],
    );
    let mat = PlayerMat::new_test(forest, MatRow::default(), MatRow::default(), 1, 4);
    assert_eq!(mat.playable_habitats(&card), vec![Habitat::Grassland, Habitat::Wetland]);

    // A second egg covers that third column's cost of two as well.
    let forest = MatRow::new_test(
        vec![0, 1],
        2,
        vec![plain_card(1), plain_card(2)],
        [0; 5],
        vec![[0; 5], [0; 5]],
        [2, 0, 0, 0, 0],
        [2, 2, 0, 0, 0],
    );
    let mat = PlayerMat::new_test(forest, MatRow::default(), MatRow::default(), 2, 4);
    assert_eq!(mat.playable_habitats(&card).len(), 3);
}

#[test]
fn habitat_activation_action_counts() {
    let mut mat = PlayerMat::default();
    // Empty forest: one gain action, no optional extra.
    let actions = mat.get_actions_from_habitat_action(&Habitat::Forest);
    assert_eq!(actions.len(), 1);
    assert!(matches!(actions[0], Action::GetFood));
    // Empty grassland starts at two gain actions.
    let actions = mat.get_actions_from_habitat_action(&Habitat::Grassland);
    assert_eq!(actions.len(), 2);
    assert!(matches!(actions[0], Action::GetEgg));
    // An odd number of birds adds the paid optional extra.
    let _ = mat.put_bird_card(plain_card(1), &Habitat::Forest).unwrap();
    let actions = mat.get_actions_from_habitat_action(&Habitat::Forest);
    assert_eq!(actions.len(), 2);
    assert!(matches!(actions[1], Action::DoThen(_, _)));
    // Two birds: one extra gain action, no optional.
    mat.place_egg(0).unwrap();
    let _ = mat.put_bird_card(plain_card(2), &Habitat::Forest).unwrap();
    let actions = mat.get_actions_from_habitat_action(&Habitat::Forest);
    assert_eq!(actions.len(), 2);
    assert!(matches!(actions[1], Action::GetFood));
}

#[test]
fn deck_display_draws() {
    let mut cards = Vec::new();
    for i in 0..10u16 {
        cards.push(plain_card(i));
    }
    let mut deck = DeckAndHolder::new(cards);
    assert_eq!(deck.num_actions(), 1);
    deck.reset_display();
    assert_eq!(deck.display.len(), 3);
    // The display was dealt from the top of the pile: cards 9, 8, 7.
    assert_eq!(deck.display[0].index, 9);
    assert_eq!(deck.num_actions(), 4);

    // A display index takes that card.
    let card = deck.draw_card(1).unwrap();
    assert_eq!(card.index, 8);
    assert_eq!(deck.display.len(), 2);
    // The index past the display draws blind from the pile top.
    let card = deck.draw_card(2).unwrap();
    assert_eq!(card.index, 6);
    // An index beyond that is rejected.
    match deck.draw_card(5) {
        Err(WingError::InvalidAction) => {}
        other => panic!("expected InvalidAction, got {:?}", other),
    }
    deck.refill_display();
    assert_eq!(deck.display.len(), 3);
    // Refilling keeps what was displayed and tops up from the pile.
    assert_eq!(deck.display[0].index, 9);
    assert_eq!(deck.display[1].index, 7);
    assert_eq!(deck.display[2].index, 5);
}

#[test]
fn feeder_counts_and_specific_take() {
    let mut feeder = BirdFeeder {
        dice_in_birdfeeder: vec![0, 5, 2],
        dice_out_birdfeeder: vec![1, 1],
    };
    assert_eq!(feeder.count(FoodIndex::Invertebrate), 2);
    assert_eq!(feeder.count(FoodIndex::Seed), 1);
    assert_eq!(feeder.count(FoodIndex::Fish), 1);
    assert_eq!(feeder.count(FoodIndex::Rodent), 0);
    assert!(!feeder.can_reroll());
    // One choice per die in the feeder; no reroll choice while they differ.
    assert_eq!(feeder.num_actions(), 3);

    feeder.take_specific_food(FoodIndex::Fish).unwrap();
    assert_eq!(feeder.dice_in_birdfeeder, vec![0, 5]);
    assert_eq!(feeder.dice_out_birdfeeder, vec![1, 1, 2]);
    assert_eq!(feeder.num_dice_in() + feeder.num_dice_out(), 5);

    match feeder.take_specific_food(FoodIndex::Rodent) {
        Err(WingError::InvalidAction) => {}
        other => panic!("expected InvalidAction, got {:?}", other),
    }
    assert_eq!(feeder.dice_in_birdfeeder, vec![0, 5]);

    // The dual face also satisfies a seed request.
    feeder.take_specific_food(FoodIndex::Seed).unwrap();
    assert_eq!(feeder.dice_in_birdfeeder, vec![0]);
    assert_eq!(feeder.dice_out_birdfeeder, vec![1, 1, 2, 5]);
}

#[test]
fn player_food_bookkeeping() {
    let mut p = Player::new(vec![plain_card(1)], Vec::new());
    assert_eq!(*p.get_foods(), [1, 1, 1, 1, 1]);
    p.add_food(FoodIndex::Fish, 250);
    p.add_food(FoodIndex::Fish, 250);
    // The counter saturates instead of wrapping.
    assert_eq!(p.get_foods()[2], 255);
    p.discard_food(FoodIndex::Fish, 255).unwrap();
    assert_eq!(p.get_foods()[2], 0);
    match p.discard_food(FoodIndex::Fish, 1) {
        Err(WingError::InvalidAction) => {}
        other => panic!("expected InvalidAction, got {:?}", other),
    }
    // The combined discard: channels first, then the hand offset by five.
    p.discard_food_or_bird_card(1).unwrap();
    assert_eq!(p.get_foods()[1], 0);
    p.discard_food_or_bird_card(5).unwrap();
    assert_eq!(p.get_bird_cards().len(), 0);
    assert!(!p.can_discard_bird_card());
    assert!(p.can_discard_food());
}

#[test]
fn play_a_bird_card_moves_card_to_mat() {
    let card = plain_card(4);
    let habs = vec![Habitat::Forest, Habitat::Grassland, Habitat::Wetland];

    // A fresh seat holds no eggs, so no column is affordable at all.
    let mut fresh = Player::new(vec![card], Vec::new());
    assert!(!fresh.can_play_a_bird_card(&habs));

    // With an egg on the mat, every row's next column (cost one) opens.
    let grassland = MatRow::new_test(
        vec![0],
        1,
        vec![plain_card(1)],
        [0; 5],
        vec![[0; 5]],
        [1, 0, 0, 0, 0],
        [2, 0, 0, 0, 0],
    );
    let mut p = Player::new(vec![card], Vec::new());
    p.mat = PlayerMat::new_test(MatRow::default(), grassland, MatRow::default(), 1, 2);
    assert!(p.can_play_a_bird_card(&habs));
    // One free card, three affordable habitats: three combinations.
    assert_eq!(p.playable_card_hab_combos(&habs).len(), 3);

    let (played, habitat, orig_idx, followups) = p.play_a_bird_card(0, &habs).unwrap();
    assert_eq!(played.index, 4);
    assert_eq!(habitat, Habitat::Forest);
    assert_eq!(orig_idx, 0);
    // The forest's first column charges one egg, deferred as a discard.
    assert_eq!(followups.len(), 1);
    assert!(matches!(followups[0], Action::DiscardEgg));
    assert_eq!(p.get_bird_cards().len(), 0);
    assert_eq!(p.get_mat().get_row(&Habitat::Forest).get_birds().len(), 1);
    assert!(!p.can_play_a_bird_card(&habs));
    match p.play_a_bird_card(0, &habs) {
        Err(WingError::InvalidAction) => {}
        other => panic!("expected InvalidAction, got {:?}", other),
    }
}

#[test]
fn paying_costs_leaves_the_right_followups() {
    // A conjunctive cost with a wildcard: the pinned kinds are deducted on
    // the spot, the wildcard comes back as a discard decision.
    let mut card = plain_card(5);
    card.cost_req = [Some(1), None, None, None, None];
    card.cost_total = 2;
    let mut p = Player::new(Vec::new(), Vec::new());
    let followups = p.pay_bird_cost(&card).unwrap();
    assert_eq!(p.get_foods()[0], 0);
    assert_eq!(followups.len(), 1);
    assert!(matches!(followups[0], Action::DiscardFood));

    // An alternative cost with two affordable options defers the choice.
    let mut card = plain_card(6);
    card.cost_req = [Some(1), Some(1), None, None, None];
    card.cost_total = 1;
    card.cost_alt = CostAlternative::Yes;
    let mut p = Player::new(Vec::new(), Vec::new());
    let followups = p.pay_bird_cost(&card).unwrap();
    assert_eq!(*p.get_foods(), [1, 1, 1, 1, 1]);
    assert_eq!(followups.len(), 1);
    match &followups[0] {
        Action::DiscardFoodChoice(options) => {
            assert_eq!(options.len(), 2);
            assert_eq!(options[0], (FoodIndex::Invertebrate, 1));
            assert_eq!(options[1], (FoodIndex::Seed, 1));
        }
        other => panic!("expected a deferred choice, got {:?}", other),
    }

    // An alternative cost with a single affordable option pays on the spot.
    let mut p = Player::new(Vec::new(), Vec::new());
    p.discard_food(FoodIndex::Seed, 1).unwrap();
    let followups = p.pay_bird_cost(&card).unwrap();
    assert_eq!(p.get_foods()[0], 0);
    assert!(followups.is_empty());
}

#[test]
fn bonus_deck_and_dealing() {
    assert_eq!(get_bonus_deck().len(), BONUS_DECK_SIZE);
    match &get_bonus_deck()[1].rule {
        ScoringRule::Ladder(steps) => assert_eq!(steps.len(), 2),
        other => panic!("expected a ladder rule, got {:?}", other),
    }
    let mut env = WingspanEnv::try_new(WingspanEnvConfig::default()).unwrap();
    env.reset(Some(1));
    let before_deck = env.bonus_deck.len();
    let before_hand = env.players[0].bonus_cards.len();
    assert_eq!(before_hand, 2);
    env.draw_bonus_cards(2);
    assert_eq!(env.bonus_deck.len(), before_deck - 2);
    assert_eq!(env.players[0].bonus_cards.len(), 4);
}

#[test]
fn config_validation() {
    let bad_seats = WingspanEnvConfig::new(20, 0, vec![Expansion::Core]);
    assert!(WingspanEnv::try_new(bad_seats).is_err());
    let bad_set = WingspanEnvConfig::new(20, 2, vec![Expansion::European]);
    assert!(WingspanEnv::try_new(bad_set).is_err());
    let three_seats = WingspanEnvConfig::new(10, 3, vec![Expansion::Core]);
    let env = WingspanEnv::try_new(three_seats).unwrap();
    assert_eq!(env.players.len(), 3);
    assert_eq!(env.config.hand_limit, 10);
}

#[test]
fn cards_are_conserved_through_the_shuffle() {
    let mut env = WingspanEnv::try_new(WingspanEnvConfig::default()).unwrap();
    env.reset(Some(99));
    let dealt: usize = env.players.iter().map(|p| p.bird_cards.len()).sum();
    assert_eq!(env.bird_deck.deck.len() + env.bird_deck.display.len() + dealt, CORE_DECK_SIZE);
    // Distinct identifiers survive the shuffle: the pile alone holds no
    // duplicates.
    let mut seen = vec![false; CORE_DECK_SIZE];
    for card in env.bird_deck.deck.iter() {
        assert!(!seen[card.index as usize]);
        seen[card.index as usize] = true;
    }
}
