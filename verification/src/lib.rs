//! The decisions of football players from one step of a match to the next.
//!
//! For each state that a forward, a midfielder or a goalkeeper can be in, a type of the same
//! name says what the player does next: `process` gives the next state and what happens on the
//! pitch, `velocity` the way to move, `process_conditions` the load on the body. What a player
//! sees of the match stands in [`context::StateProcessingContext`], what comes of a step in
//! [`outcome`] and [`movement`]. Every random draw is a value of the context, so that a decision
//! is a function of what is given to it.
//!
//! Numbers are fixed-point: see [`scalar`] and [`vector`]. Searches through the players stand in
//! [`scan`] and [`gaps`], each with the laws that hold of what it finds.
pub mod context;
pub mod counting;
pub mod forwarders;
pub mod gaps;
pub mod goalkeepers;
pub mod midfielders;
pub mod movement;
pub mod outcome;
pub mod scalar;
pub mod scan;
pub mod shot_gate_stats;
pub mod tackle_stats;
pub mod vector;
