//! Per-frame state synchronisation for the player entity: a debug
//! invulnerability toggle, the damage intake that honours it, and the
//! on-screen indicator that mirrors it.
pub mod player;
pub mod damage;
pub mod input;
pub mod ui;
pub mod frame;
