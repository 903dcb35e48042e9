//! End-to-end scenarios driving the engine through whole games.
use wingspan_gym::action::Action;
use wingspan_gym::bird_card::core_card;
use wingspan_gym::bird_feeder::{BirdFeeder, BirdFeederActionResult};
use wingspan_gym::error::WingError;
use wingspan_gym::rng::rng_from_seed;
use wingspan_gym::step_result::StepResult;
use wingspan_gym::wingspan_env::{GamePhase, WingspanEnv, WingspanEnvConfig};

fn fresh_env(seed: u64) -> WingspanEnv {
    let mut env = WingspanEnv::try_new(WingspanEnvConfig::default()).unwrap();
    env.reset(Some(seed));
    env
}

/// Pick the first legal choice of the pending prompt (zero when the prompt
/// advertises no legal choice, e.g. an empty feeder, where index zero is
/// the implicit reroll).
fn first_valid_choice(env: &WingspanEnv) -> u8 {
    let action = env.next_action().expect("a prompt should be pending");
    let va = action.valid_actions(env);
    if va.is_empty() {
        0
    } else {
        va[0]
    }
}

fn assert_egg_invariant(env: &WingspanEnv) {
    for p in env.players.iter() {
        let mut total: u32 = 0;
        for row in [&p.mat.forest, &p.mat.grassland, &p.mat.wetland] {
            for c in 0..5 {
                total += row.eggs[c] as u32;
                assert!(row.eggs[c] <= row.eggs_cap[c]);
            }
        }
        assert_eq!(total, p.mat.egg_count() as u32);
        assert!(p.mat.num_eggs <= p.mat.eggs_cap);
    }
}

fn assert_feeder_invariant(env: &WingspanEnv) {
    if env.round_idx() >= 0 {
        assert_eq!(env.bird_feeder.num_dice_in() + env.bird_feeder.num_dice_out(), 5);
    }
}

fn assert_valid_within_space(env: &WingspanEnv) {
    if let Some(action) = env.next_action() {
        let space = action.action_space_size(env);
        let va = action.valid_actions(env);
        assert!(va.len() <= space);
        for w in va.windows(2) {
            assert!(w[0] < w[1]);
        }
    }
}

#[test]
fn setup_discard_prompts_shape() {
    // The first five prompts of seat zero are the combined discard, sized
    // five food channels plus the current hand.
    let mut env = fresh_env(11);
    for _ in 0..5 {
        let hand = env.players[0].bird_cards.len();
        assert!(matches!(env.next_action().unwrap(), Action::DiscardFoodOrBirdCard));
        assert_eq!(env.action_space_size(), Some(5 + hand));
        // Resolve by giving up a card (index 5 = first hand card).
        assert!(matches!(env.step(5), Ok(StepResult::Live)));
    }
    assert_eq!(env.players[0].bird_cards.len(), 0);
}

#[test]
fn setup_discard_food_channel_zero() {
    // Submitting index zero deducts exactly one unit of food channel zero,
    // and is rejected with InvalidAction once that channel is empty.
    let mut env = fresh_env(12);
    assert_eq!(env.players[0].foods[0], 1);
    assert!(matches!(env.step(0), Ok(StepResult::Live)));
    assert_eq!(env.players[0].foods[0], 0);
    let foods_before = env.players[0].foods;
    match env.step(0) {
        Err(WingError::InvalidAction) => {}
        other => panic!("expected InvalidAction, got {:?}", other),
    }
    assert_eq!(env.players[0].foods, foods_before);
    assert!(matches!(env.next_action().unwrap(), Action::DiscardFoodOrBirdCard));
}

#[test]
fn feeder_reroll_offered_past_the_dice() {
    // A freshly rolled feeder whose five dice all show one face reports
    // five addressable choices, and index five rerolls, re-offering the
    // gain as a follow-up rather than granting food.
    let mut found = None;
    for seed in 0..100_000u64 {
        let mut rng = rng_from_seed(seed);
        let mut feeder = BirdFeeder::default();
        feeder.reroll(&mut rng);
        if feeder.can_reroll() {
            found = Some((feeder, rng));
            break;
        }
    }
    let (mut feeder, mut rng) = found.expect("some seed rolls five equal faces");
    assert!(feeder.can_reroll());
    assert_eq!(feeder.num_actions(), 5);
    assert_eq!(feeder.num_dice_in(), 5);

    match feeder.take_dice_and_update_state(&mut rng, 5) {
        Ok(BirdFeederActionResult::FollowupAction(Action::GetFood)) => {}
        other => panic!("expected a re-offered gain-food decision, got {:?}", other),
    }
    assert_eq!(feeder.num_dice_in(), 5);
    assert_eq!(feeder.num_dice_out(), 0);
    for face in feeder.dice_in_birdfeeder.iter() {
        assert!(*face < 6);
    }
}

/// Give seat zero a small played board with two separately discardable
/// eggs, keeping the mat invariant intact.
fn seed_two_eggs(env: &mut WingspanEnv) {
    let p = &mut env.players[0];
    p.mat.forest.birds = vec![core_card(0), core_card(8)];
    p.mat.forest.bird_col_idxs = vec![0, 1];
    p.mat.forest.next_col_to_play = 2;
    p.mat.forest.cached_food = vec![[0; 5], [0; 5]];
    p.mat.forest.eggs = [1, 1, 0, 0, 0];
    p.mat.forest.eggs_cap = [2, 2, 0, 0, 0];
    p.mat.num_eggs = 2;
    p.mat.eggs_cap = 4;
}

#[test]
fn do_then_decline_leaves_state_alone() {
    let mut env = fresh_env(7);
    seed_two_eggs(&mut env);
    let foods = env.players[0].foods;
    let hand = env.players[0].bird_cards.len();
    env.push_action(Action::DoThen(
        Box::new(Action::DiscardEgg),
        Box::new(Action::GetBirdCard),
    ));
    // Decline: the prompt chain ends immediately, nothing changes.
    assert!(matches!(env.step(0), Ok(StepResult::Live)));
    assert_eq!(env.players[0].foods, foods);
    assert_eq!(env.players[0].bird_cards.len(), hand);
    assert_eq!(env.players[0].mat.egg_count(), 2);
    assert!(matches!(env.next_action().unwrap(), Action::DiscardFoodOrBirdCard));
}

#[test]
fn do_then_accept_prompts_request_then_reward() {
    let mut env = fresh_env(7);
    // Two separately discardable eggs make DiscardEgg a real (two-way)
    // decision; priming the display makes GetBirdCard one too.
    seed_two_eggs(&mut env);
    env.bird_deck.reset_display();
    assert_eq!(env.bird_deck.display.len(), 3);

    env.push_action(Action::DoThen(
        Box::new(Action::DiscardEgg),
        Box::new(Action::GetBirdCard),
    ));
    // Accept: the request is prompted first.
    assert!(matches!(env.step(1), Ok(StepResult::Live)));
    assert!(matches!(env.next_action().unwrap(), Action::DiscardEgg));
    assert_eq!(env.players[0].mat.egg_count(), 2);

    // Resolving the request brings up the reward.
    assert!(matches!(env.step(0), Ok(StepResult::Live)));
    assert_eq!(env.players[0].mat.egg_count(), 1);
    assert!(matches!(env.next_action().unwrap(), Action::GetBirdCard));
}

#[test]
fn two_seat_game_terminates_at_round_four() {
    let mut env = fresh_env(3);
    let mut terminated = false;
    for _ in 0..100_000 {
        assert_egg_invariant(&env);
        assert_feeder_invariant(&env);
        assert_valid_within_space(&env);
        let choice = first_valid_choice(&env);
        match env.step(choice) {
            Ok(StepResult::Terminated) => {
                terminated = true;
                break;
            }
            Ok(StepResult::Live) => {}
            Err(e) => panic!("a choice from valid_actions was rejected: {:?}", e),
        }
    }
    assert!(terminated, "the game should end after its last round");
    assert_eq!(env.round_idx(), 4);
    assert!(matches!(env.phase, GamePhase::Terminated));
    // Once terminated, stepping keeps reporting termination.
    assert!(matches!(env.step(0), Ok(StepResult::Terminated)));
}

#[test]
fn determinism_same_seed_same_trace() {
    let mut a = fresh_env(42);
    let mut b = fresh_env(42);
    for _ in 0..20_000 {
        assert_eq!(a.round_idx(), b.round_idx());
        assert_eq!(a.current_player_idx(), b.current_player_idx());
        assert_eq!(a.action_space_size(), b.action_space_size());
        for (pa, pb) in a.players.iter().zip(b.players.iter()) {
            assert_eq!(pa.foods, pb.foods);
            assert_eq!(pa.turns_left, pb.turns_left);
            assert_eq!(pa.bird_cards(), pb.bird_cards());
            assert_eq!(pa.birds_on_mat(), pb.birds_on_mat());
            assert_eq!(pa.mat.egg_count(), pb.mat.egg_count());
        }
        assert_eq!(a.bird_feeder.dice_in_birdfeeder, b.bird_feeder.dice_in_birdfeeder);
        assert_eq!(a.bird_feeder.dice_out_birdfeeder, b.bird_feeder.dice_out_birdfeeder);
        let choice = first_valid_choice(&a);
        let ra = a.step(choice);
        let rb = b.step(choice);
        match (ra, rb) {
            (Ok(StepResult::Terminated), Ok(StepResult::Terminated)) => break,
            (Ok(StepResult::Live), Ok(StepResult::Live)) => {}
            (x, y) => panic!("traces diverged: {:?} vs {:?}", x, y),
        }
    }
}

#[test]
fn turns_left_decreases_within_a_round() {
    let mut env = fresh_env(5);
    let mut last: Option<(GamePhase, Vec<u8>)> = None;
    for _ in 0..100_000 {
        if let Some((phase, turns)) = &last {
            if *phase == env.phase {
                for (i, p) in env.players.iter().enumerate() {
                    assert!(p.turns_left <= turns[i]);
                    if p.turns_left < turns[i] {
                        assert_eq!(p.turns_left, turns[i] - 1);
                        assert_eq!(i, env.current_player_idx());
                        assert!(matches!(env.next_action().unwrap(), Action::ChooseAction));
                    }
                }
            }
        }
        last = Some((env.phase, env.players.iter().map(|p| p.turns_left).collect()));
        let choice = first_valid_choice(&env);
        match env.step(choice) {
            Ok(StepResult::Terminated) => break,
            Ok(StepResult::Live) => {}
            Err(e) => panic!("unexpected rejection: {:?}", e),
        }
    }
}

#[test]
fn invalid_choice_rejected_without_effect() {
    let mut env = fresh_env(9);
    // The setup prompt offers 5 + hand choices; far beyond that is invalid.
    let foods = env.players[0].foods;
    let hand = env.players[0].bird_cards();
    match env.step(200) {
        Err(WingError::InvalidAction) => {}
        other => panic!("expected InvalidAction, got {:?}", other),
    }
    assert_eq!(env.players[0].foods, foods);
    assert_eq!(env.players[0].bird_cards(), hand);
    assert!(matches!(env.next_action().unwrap(), Action::DiscardFoodOrBirdCard));
}
