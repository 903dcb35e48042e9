//! A deterministic, steppable engine for the turn structure of a
//! bird-themed competitive board game. A caller repeatedly submits a single
//! integer choice; the engine advances exactly one atomic decision at a time
//! and reports whether the game is live or finished.
pub mod action;
pub mod bird_card;
pub mod bird_card_callback;
pub mod bird_feeder;
pub mod bonus_card;
pub mod deck_and_holder;
pub mod error;
pub mod expansion;
pub mod food;
pub mod habitat;
pub mod nest;
pub mod player;
pub mod player_mat;
pub mod rng;
pub mod step_result;
pub mod wingspan_env;
