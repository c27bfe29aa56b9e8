//! Rules of a neon Asteroids game: wave sizing, rock splitting, scoring
//! and bonus ships, bullet-hit resolution, ship deaths and the match and
//! menu state machines. Geometry and rendering live outside the library.

pub mod constants;
pub mod types;
pub mod achievements;
pub mod gameplay;
pub mod menu;
pub mod spawning;
