//! A crawler's core for ARAM matches, and the champion select state of a
//! game client.
//!
//! The crawl claims a player that is due, lists the player's recent matches,
//! drops those already stored, validates and stores the others, and
//! registers their participants as players to poll later. [`crawl`] holds the
//! crawl's transition, [`validator`] the validation of a match, [`dedup`] the
//! filter for new match ids, and [`store`] a document store in memory with
//! the claim and the insert-if-absent writes; [`store_laws`] states what
//! holds of sequences of store operations.

pub mod strings;
pub mod text;
pub mod champion;
pub mod raw_match;
pub mod match_data;
pub mod validator;
pub mod clock;
pub mod dedup;
pub mod store_model;
pub mod store_laws;
pub mod store;
pub mod crawl_model;
pub mod crawl;
pub mod messages;
pub mod champ;
pub mod champ_select;
pub mod client;
pub mod simulator;
pub mod lol_client_api;
pub mod model_input;
