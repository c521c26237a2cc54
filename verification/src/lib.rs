pub mod effects;
pub mod enemy;
pub mod emath;
pub mod level;
pub mod rect;
pub mod spawner;
pub mod tile;
pub mod tower;
pub mod wrld;
