pub mod collision;
pub mod game;
pub mod text;
pub mod timer;
