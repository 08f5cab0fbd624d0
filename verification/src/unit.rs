//! The units of the playing field and the points they stand on.

pub mod collectible;
pub mod direction;
pub mod enemy;
pub mod player;
pub mod point2d;
pub mod wall;

pub use collectible::Collectible;
pub use direction::Direction;
pub use enemy::Enemy;
pub use player::{Player, PlayerBuilder};
pub use point2d::Point2d;
pub use wall::Wall;
