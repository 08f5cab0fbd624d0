//! The rules of a small grid arcade game: points, headings, and the units
//! that live on the playing field.
//!
//! Static units (walls, collectibles, the score display) sit on grid cells,
//! counted in `u16`. Moving units (the player, the enemies) live in
//! continuous space, whose scalars are [`fixed::Fixed`] numbers with four
//! decimal places, so that every rule of movement is exact and can be proved.
//!
//! Nothing here reads input or draws: a frame loop calls the units' methods
//! once per tick and shows each unit's text at the unit's position.

pub mod fixed;
pub mod hud;
pub mod random;
pub mod sqrt;
pub mod text;
pub mod traits;
pub mod unit;
