use vstd::prelude::*;
use crate::geometry::{Direction, Segment};
use crate::map_state::MapState;
use crate::snake::{has_room, initial_model, tick, Snake, DEPOSIT_ROLL_RANGE, KIND_ROLL_RANGE};
use crate::rotation::request_rotation;

verus! {

/// What the player may ask for on a frame.
#[derive(Clone, Copy, Debug, PartialEq, Eq, Structural)]
pub enum Intent {
    Up,
    Down,
    Left,
    Right,
    /// A fresh agent on the same field.
    Respawn,
    /// A fresh agent on an empty field.
    Restart,
}

/// The direction that a turning intent asks for.
pub open spec fn intent_direction(intent: Intent) -> Option<Direction> {
    match intent {
        Intent::Up => Some(Direction::Up),
        Intent::Down => Some(Direction::Down),
        Intent::Left => Some(Direction::Left),
        Intent::Right => Some(Direction::Right),
        _ => None,
    }
}

/// One simulation session: the agent and the field it moves on.
pub struct Session {
    pub snake: Snake,
    pub map: MapState,
}

impl Session {
    pub open spec fn wf(&self) -> bool {
        self.snake.wf()
    }

    pub fn new() -> (r: Session)
        ensures
            r.wf(),
            r.snake@ == initial_model(),
            r.map.items@ == Seq::<Segment>::empty(),
    {
        Session { snake: Snake::new(), map: MapState::new() }
    }

    /// One tick of `step_size` milliseconds.
    pub fn update(&mut self, step_size: u32)
        requires
            old(self).wf(),
            has_room(old(self).snake@),
        ensures
            final(self).wf(),
            exists|deposit_roll: int, kind_roll: int|
                0 <= deposit_roll < DEPOSIT_ROLL_RANGE && 0 <= kind_roll < KIND_ROLL_RANGE && (
                final(self).snake@,
                final(self).map.items@,
            ) == tick(old(self).snake@, old(self).map.items@, step_size as int, deposit_roll, kind_roll),
    {
        self.snake.make_step(&mut self.map, step_size);
    }

    /// Acts on one intent of the player.
    pub fn btn_press(&mut self, intent: Intent)
        requires
            old(self).wf(),
        ensures
            final(self).wf(),
            intent_direction(intent) matches Some(d) ==> final(self).snake@ == old(self).snake@.with_rotation(
                request_rotation(old(self).snake@.rotation(), d),
            ) && final(self).map.items@ == old(self).map.items@,
            intent == Intent::Respawn ==> final(self).snake@ == initial_model()
                && final(self).map.items@ == old(self).map.items@,
            intent == Intent::Restart ==> final(self).snake@ == initial_model()
                && final(self).map.items@ == Seq::<Segment>::empty(),
    {
        match intent {
            Intent::Up => self.snake.new_direction(Direction::Up),
            Intent::Down => self.snake.new_direction(Direction::Down),
            Intent::Left => self.snake.new_direction(Direction::Left),
            Intent::Right => self.snake.new_direction(Direction::Right),
            Intent::Respawn => self.snake = Snake::new(),
            Intent::Restart => self.restart(),
        }
    }

    /// Empties the field and puts a fresh agent on it.
    pub fn restart(&mut self)
        ensures
            final(self).wf(),
            final(self).snake@ == initial_model(),
            final(self).map.items@ == Seq::<Segment>::empty(),
    {
        self.map.clear();
        self.snake = Snake::new();
    }
}

} // verus!
