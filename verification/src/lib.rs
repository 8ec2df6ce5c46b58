//! A verified tic-tac-toe core: a 3x3 board of marks, a turn counter, a
//! win/tie evaluator, and the mapping from screen clicks to board cells.
//!
//! The crate holds only the game's logic. Windowing, rendering, asset
//! loading and input event delivery belong to a host engine and stay
//! outside; the session is driven by handing it recorded click positions
//! and ticking it once per frame.

pub mod board;
pub mod game;
pub mod layout;
pub mod text;

pub use board::Board;
pub use board::Mark;
pub use board::check_win;
pub use game::GameResult;
pub use game::GameState;
pub use game::Placement;
pub use game::ScreenPos;
pub use game::Session;
pub use layout::map_click;
pub use text::banner_text;
pub use text::board_text;
