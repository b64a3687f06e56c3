pub mod game;
pub mod state;
