pub mod game;
pub mod gesture;
pub mod motion;
pub mod platform;
pub mod player;
pub mod world;
