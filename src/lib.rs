//! Presentation layer of a turn-based terminal role-playing game: status
//! blocks, battle events and shop listings rendered as lines of styled text.
//!
//! Every renderer returns the lines to print as spans of text with their
//! styles; `render_line` turns a line into terminal text.

pub mod format;
pub mod gauge;
pub mod lines;
pub mod model;
pub mod order;
pub mod style;
pub mod text;

pub use format::{
    bar_display, format_attack, format_character, format_equipment, format_gold,
    format_gold_plus, format_inventory, hp_display, xp_display,
};
pub use gauge::bar_slots;
pub use lines::{
    battle_log, battle_lost, battle_won, bribe_failure, bribe_success, enemy_appears,
    enemy_attack, heal, log, long_status, plain_status, player_attack, potion, run_away_failure,
    run_away_success, shop_list, short_status, status, tombstone,
};
pub use model::{init, Attack, Character, Game, OutputMode, ShopItem};
pub use style::{render_line, text_of, Color, Span};
