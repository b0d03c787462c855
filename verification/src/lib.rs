pub mod color;
pub mod combat;
pub mod mapgen;
pub mod messages;
pub mod movement;
pub mod object;
pub mod rect;
mod rng;
pub mod tile;
pub mod turn;
pub mod vision;

pub use color::Color;
pub use combat::attack_at;
pub use mapgen::create_horizontal_tunnel;
pub use mapgen::create_room;
pub use mapgen::create_vertical_tunnel;
pub use mapgen::make_map;
pub use mapgen::place_objects;
pub use messages::Messages;
pub use movement::is_blocked;
pub use movement::move_by;
pub use movement::move_towards;
pub use object::Ai;
pub use object::DeathCallback;
pub use object::Fighter;
pub use object::Game;
pub use object::Item;
pub use object::Object;
pub use object::UseResult;
pub use rect::Rect;
pub use tile::Tile;
pub use tile::TileGrid;
pub use turn::advance_turn;
pub use turn::handle_keys;
pub use turn::player_move_or_attack;
pub use turn::Key;
pub use turn::PlayerAction;
pub use vision::apply_visibility;
pub use vision::draw_order;
pub use vision::get_names_under_mouse;
pub use vision::should_recompute_fov;
pub use vision::tile_render;
pub use vision::TileLook;
pub use vision::Visibility;
