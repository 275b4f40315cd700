pub mod text;
pub mod ui_level_up;
pub mod ui_player;
pub mod ui_update_weapon_up;
