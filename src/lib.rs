pub mod cell;
pub mod protocol;
pub mod spin;
