pub mod components;
pub mod constants;
pub mod players;
pub mod animations;
pub mod ui;
pub mod random;
pub mod weapons;
pub mod items;
pub mod waves;
pub mod gems;
pub mod math_utils;
pub mod enemies;
