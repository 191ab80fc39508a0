//! The states of a midfielder.
pub mod attack_supporting;
pub mod dribbling;
pub mod guarding;
pub mod heading;
pub mod passing;
pub mod pressing;
pub mod returning;
pub mod running;
pub mod standing;
pub mod tackling;
pub mod walking;
