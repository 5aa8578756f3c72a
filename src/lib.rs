//! Movement and animation-state core of a 2D platformer.
//!
//! All quantities are fixed-point integers in a unit chosen by the host
//! (for instance thousandths of a world unit); the library never rounds
//! except where a contract says so.
pub mod actor;
pub mod animation;
pub mod physics;
pub mod player;
pub mod sprite_flip;
pub mod tile;
