pub mod arcane_missile;
pub mod chain_lightning;
pub mod claw;
pub mod light_sword;
pub mod on_hit;
pub mod projectiles;
pub mod shuriken;
pub mod weapons;
