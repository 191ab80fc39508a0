//! The states of a forward.
pub mod assisting;
pub mod corner_run;
pub mod creating_space;
pub mod crossing;
pub mod dribbling;
pub mod intercepting;
pub mod passing;
pub mod pressing;
pub mod returning;
pub mod running;
pub mod running_in_behind;
pub mod tackling;
pub mod walking;
