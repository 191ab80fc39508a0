//! The states of a goalkeeper.
pub mod catching;
pub mod clearing;
pub mod distributing;
pub mod holding;
pub mod preparing_for_save;
pub mod standing;
pub mod takeball;
pub mod walking;
