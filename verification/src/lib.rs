//! Behaviour of a boss enemy in a scrolling shooter: the stages the boss goes
//! through, how each of them moves the boss and fires, and the rule that
//! advances from one stage to the next.

pub mod geometry;
pub mod entities;
pub mod motion;
pub mod clock;
pub mod cadence;
pub mod spread;
pub mod stages;
pub mod driver;

pub use driver::{Stage, Tick};
pub use entities::{Boss, Ship, Shot};
pub use geometry::{Rect, Shape, Vec2i};
pub use motion::Direction;
pub use stages::{AppearStage, SimpleShootingDown, SpreadShooting, Targeted};
