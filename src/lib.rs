//! A snake simulation engine: an agent moving on a toroidal field, collecting
//! and shedding items, with verified movement, collision and growth rules.
//!
//! Coordinates are integers in thousandths of a pixel and elapsed time is
//! given in milliseconds, so that one millisecond at the step multiplier of
//! one hundred moves the head by exactly one hundred units.

pub mod geometry;
pub mod map_state;
mod random;
pub mod rotation;
pub mod session;
pub mod snake;

pub use geometry::{Category, Direction, Segment, FIELD_HEIGHT, FIELD_WIDTH, HALF_CELL};
pub use map_state::MapState;
pub use rotation::ROTATION_LOCK;
pub use session::{Intent, Session};
pub use snake::{
    kind_for_roll, Snake, COORD_LIMIT, DEPOSIT_CHANCE, DEPOSIT_ROLL_RANGE, GROW_MULTIPLIER,
    HAZARD_DROP_CHANCE, HAZARD_RANGE_NEXT, HEAL_DROP_CHANCE, HEAL_RANGE_TO, INITIAL_HP,
    INITIAL_SIZE, INVULNERABILITY_THRESHOLD, KIND_ROLL_RANGE, STEP_MULTIPLIER,
};
