pub mod utils;
pub mod direction_picker;
pub mod map;
pub mod heads;
pub mod head_list;
pub mod backend;
pub mod frontend;
pub mod gfx_map;
pub mod game_info;
pub mod end_game_box;
pub mod startup_screen;
pub mod file_parsing;
