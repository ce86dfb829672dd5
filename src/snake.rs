use vstd::prelude::*;
use std::collections::VecDeque;
use rand::rngs::ThreadRng;
use crate::geometry::{overlaps, wrapped, Category, Direction, Segment, FIELD_HEIGHT, FIELD_WIDTH, HALF_CELL};
use crate::map_state::{first_overlap, is_first_index, is_first_overlap, MapState};
use crate::random::{draw_below, thread_rng};
use crate::rotation::{promote_deferred, request_rotation, tick_rotation, Rotation, ROTATION_LOCK};

verus! {

/// Distance moved per millisecond, in thousandths of a pixel.
pub const STEP_MULTIPLIER: i64 = 100;

/// Number of tail drops that one eaten waste item suppresses.
pub const GROW_MULTIPLIER: i64 = 4;

/// Number of segments of a new agent.
pub const INITIAL_SIZE: u64 = 12;

/// Health of a new agent.
pub const INITIAL_HP: i64 = 3;

/// Body positions up to this index are never checked against the head.
pub const INVULNERABILITY_THRESHOLD: usize = 50;

/// Rolls in `0..=HAZARD_DROP_CHANCE` turn a shed tail into a hazard.
pub const HAZARD_DROP_CHANCE: u32 = 20;

/// First roll that turns a shed tail into a healing item.
pub const HAZARD_RANGE_NEXT: u32 = HAZARD_DROP_CHANCE + 1;

/// Width of the slice of rolls that give a healing item.
pub const HEAL_DROP_CHANCE: u32 = 7;

/// Last roll that turns a shed tail into a healing item; higher rolls give waste.
pub const HEAL_RANGE_TO: u32 = HAZARD_RANGE_NEXT + HEAL_DROP_CHANCE;

/// Rolls for the category of a shed tail are drawn from `0..KIND_ROLL_RANGE`.
pub const KIND_ROLL_RANGE: u32 = 100;

/// Rolls in `0..=DEPOSIT_CHANCE` add one pending deposit.
pub const DEPOSIT_CHANCE: u32 = 8;

/// Rolls for a new deposit are drawn from `0..DEPOSIT_ROLL_RANGE`.
pub const DEPOSIT_ROLL_RANGE: u32 = 1000;

/// Largest magnitude of a head coordinate from which a step can be computed.
pub const COORD_LIMIT: i64 = 4_000_000_000_000_000_000;

/// The state of an agent as plain values.
pub struct SnakeModel {
    pub direction: Direction,
    pub body: Seq<Segment>,
    pub growth: int,
    pub deposits: int,
    pub hp: int,
    pub cooldown: int,
    pub deferred: Direction,
    pub score: int,
    pub next_id: int,
}

impl SnakeModel {
    pub open spec fn rotation(self) -> Rotation {
        Rotation { direction: self.direction, cooldown: self.cooldown, deferred: self.deferred }
    }

    pub open spec fn with_rotation(self, r: Rotation) -> SnakeModel {
        SnakeModel { direction: r.direction, cooldown: r.cooldown, deferred: r.deferred, ..self }
    }

    /// A tick moves the agent only while it is alive and has a direction.
    pub open spec fn is_active(self) -> bool {
        self.hp > 0 && self.direction != Direction::Idle
    }
}

/// The body of a new agent: segments at the origin with identifiers from zero.
pub open spec fn initial_body() -> Seq<Segment> {
    Seq::new(
        INITIAL_SIZE as nat,
        |i: int| Segment { x: 0, y: 0, category: Category::BodySegment, id: i as u64 },
    )
}

pub open spec fn initial_model() -> SnakeModel {
    SnakeModel {
        direction: Direction::Idle,
        body: initial_body(),
        growth: 0,
        deposits: 0,
        hp: INITIAL_HP as int,
        cooldown: 0,
        deferred: Direction::Idle,
        score: 0,
        next_id: INITIAL_SIZE as int,
    }
}

/// The move of one tick along `dir` for a step of `step` milliseconds.
pub open spec fn displacement(dir: Direction, step: int) -> (int, int) {
    let d = step * STEP_MULTIPLIER;
    match dir {
        Direction::Up => (0, -d),
        Direction::Down => (0, d),
        Direction::Left => (-d, 0),
        Direction::Right => (d, 0),
        Direction::Idle => (0, 0),
    }
}

/// Where the head goes from `head` along `dir`, after the wrap-around.
pub open spec fn next_position(head: Segment, dir: Direction, step: int) -> (int, int) {
    let (dx, dy) = displacement(dir, step);
    wrapped(head.x + dx, head.y + dy)
}

/// The new head of a tick.
pub open spec fn next_head(s: SnakeModel, step: int) -> Segment {
    let (x, y) = next_position(s.body[0], s.direction, step);
    Segment { x: x as i64, y: y as i64, category: Category::BodySegment, id: s.next_id as u64 }
}

/// The agent with its new head in front of the body.
pub open spec fn advanced(s: SnakeModel, step: int) -> SnakeModel {
    SnakeModel { body: seq![next_head(s, step)] + s.body, next_id: s.next_id + 1, ..s }
}

/// What eating `item` does to the agent.
pub open spec fn eat_effect(s: SnakeModel, item: Segment) -> SnakeModel {
    let t = SnakeModel { score: s.score + 1, ..s };
    match item.category {
        Category::Waste => SnakeModel { growth: t.growth + GROW_MULTIPLIER, ..t },
        Category::Hazard => SnakeModel { hp: t.hp - 1, ..t },
        Category::Healing => SnakeModel { hp: t.hp + 1, ..t },
        Category::BodySegment => t,
    }
}

/// The first item under the head is eaten and leaves the field.
pub open spec fn after_eating(s: SnakeModel, map: Seq<Segment>) -> (SnakeModel, Seq<Segment>) {
    match first_overlap(map, s.body[0]) {
        Some(i) => (eat_effect(s, map[i]), map.remove(i)),
        None => (s, map),
    }
}

/// Whether the head overlaps a segment, other than itself, past the
/// invulnerability threshold.
pub open spec fn collides(body: Seq<Segment>) -> bool {
    exists|i: int|
        INVULNERABILITY_THRESHOLD < i < body.len() && #[trigger] body[i].id != body[0].id
            && overlaps(body[0], body[i])
}

pub open spec fn after_collision(s: SnakeModel) -> SnakeModel {
    if collides(s.body) {
        SnakeModel { hp: 0, ..s }
    } else {
        s
    }
}

/// A roll of `roll` in `0..DEPOSIT_ROLL_RANGE` may add one pending deposit.
pub open spec fn after_deposit_roll(s: SnakeModel, roll: int) -> SnakeModel {
    if roll <= DEPOSIT_CHANCE {
        SnakeModel { deposits: s.deposits + 1, ..s }
    } else {
        s
    }
}

/// The category of a shed tail for a roll in `0..KIND_ROLL_RANGE`.
pub open spec fn kind_of_roll(roll: int) -> Category {
    if roll <= HAZARD_DROP_CHANCE {
        Category::Hazard
    } else if HAZARD_RANGE_NEXT <= roll <= HEAL_RANGE_TO {
        Category::Healing
    } else {
        Category::Waste
    }
}

/// Tail handling: grow while growth is pending, else shed the tail onto the
/// field while a deposit is pending, else drop the tail.
pub open spec fn after_tail(s: SnakeModel, map: Seq<Segment>, kind_roll: int) -> (
    SnakeModel,
    Seq<Segment>,
) {
    if s.growth == 0 && s.deposits == 0 {
        (SnakeModel { body: s.body.drop_last(), ..s }, map)
    } else if s.growth > 0 {
        (SnakeModel { growth: s.growth - 1, ..s }, map)
    } else if s.deposits > 0 {
        let tail = s.body.last();
        (
            SnakeModel { deposits: s.deposits - 1, body: s.body.drop_last(), ..s },
            map.push(Segment { category: kind_of_roll(kind_roll), ..tail }),
        )
    } else {
        (s, map)
    }
}

/// One tick of `step` milliseconds, given the two rolls it draws.
pub open spec fn tick(
    s: SnakeModel,
    map: Seq<Segment>,
    step: int,
    deposit_roll: int,
    kind_roll: int,
) -> (SnakeModel, Seq<Segment>) {
    if !s.is_active() {
        (s, map)
    } else {
        let s1 = advanced(s.with_rotation(tick_rotation(s.rotation())), step);
        let (s2, m2) = after_eating(s1, map);
        let s3 = after_deposit_roll(after_collision(s2), deposit_roll);
        after_tail(s3, m2, kind_roll)
    }
}

/// Whether a head coordinate is small enough to take one more step from.
pub open spec fn head_in_bounds(body: Seq<Segment>) -> bool {
    body.len() >= 1 ==> -COORD_LIMIT <= body[0].x <= COORD_LIMIT && -COORD_LIMIT <= body[0].y
        <= COORD_LIMIT
}

/// The bounds under which one more tick fits the machine integers.
pub open spec fn has_room(s: SnakeModel) -> bool {
    &&& head_in_bounds(s.body)
    &&& s.next_id < u64::MAX
    &&& s.score < i64::MAX
    &&& i64::MIN < s.hp < i64::MAX
    &&& s.growth <= i64::MAX - GROW_MULTIPLIER
    &&& s.deposits < i64::MAX
    &&& s.cooldown > i64::MIN
}

/// The agent: its body with the head in front, its steering state, its
/// counters and its source of random numbers.
pub struct Snake {
    pub direction: Direction,
    pub body: VecDeque<Segment>,
    pub growth: i64,
    pub deposits: i64,
    pub hp: i64,
    pub cooldown: i64,
    pub deferred: Direction,
    pub score: i64,
    pub next_id: u64,
    pub rng: ThreadRng,
}

/// The category of a shed tail for a roll: see `kind_of_roll`.
pub fn kind_for_roll(roll: u32) -> (r: Category)
    ensures
        r == kind_of_roll(roll as int),
{
    if roll <= HAZARD_DROP_CHANCE {
        Category::Hazard
    } else if HAZARD_RANGE_NEXT <= roll && roll <= HEAL_RANGE_TO {
        Category::Healing
    } else {
        Category::Waste
    }
}

impl View for Snake {
    type V = SnakeModel;

    open spec fn view(&self) -> SnakeModel {
        SnakeModel {
            direction: self.direction,
            body: self.body@,
            growth: self.growth as int,
            deposits: self.deposits as int,
            hp: self.hp as int,
            cooldown: self.cooldown as int,
            deferred: self.deferred,
            score: self.score as int,
            next_id: self.next_id as int,
        }
    }
}

impl Snake {
    /// The body is never empty and the pending counters are never negative.
    pub open spec fn wf(&self) -> bool {
        &&& self.body@.len() >= 1
        &&& self.growth >= 0
        &&& self.deposits >= 0
    }

    pub fn new() -> (r: Snake)
        ensures
            r@ == initial_model(),
            r.wf(),
    {
        let mut snake = Snake {
            direction: Direction::Idle,
            body: VecDeque::new(),
            growth: 0,
            deposits: 0,
            hp: INITIAL_HP,
            cooldown: 0,
            deferred: Direction::Idle,
            score: 0,
            next_id: 0,
            rng: thread_rng(),
        };
        while snake.next_id < INITIAL_SIZE
            invariant
                snake.next_id <= INITIAL_SIZE,
                snake.body@.len() == snake.next_id,
                forall|i: int|
                    0 <= i < snake.next_id ==> snake.body@[i] == #[trigger] initial_body()[i],
                snake.direction == Direction::Idle,
                snake.growth == 0,
                snake.deposits == 0,
                snake.hp == INITIAL_HP,
                snake.cooldown == 0,
                snake.deferred == Direction::Idle,
                snake.score == 0,
            decreases INITIAL_SIZE - snake.next_id,
        {
            let link = Segment::new(0, 0, Category::BodySegment, snake.next_id);
            snake.body.push_back(link);
            snake.next_id = snake.next_id + 1;
        }
        assert(snake.body@ =~= initial_body());
        snake
    }

    /// A request to turn: see `request_rotation`.
    pub fn new_direction(&mut self, direction: Direction)
        ensures
            final(self)@ == old(self)@.with_rotation(request_rotation(old(self)@.rotation(), direction)),
    {
        if !self.direction.is_invert(&direction) {
            if self.cooldown <= 0 {
                self.direction = direction;
                self.cooldown = ROTATION_LOCK;
            } else {
                self.deferred = direction;
            }
        }
    }

    /// Lets a held-back turn take effect once the cooldown is over.
    pub fn make_deferred_rotation(&mut self)
        ensures
            final(self)@ == old(self)@.with_rotation(promote_deferred(old(self)@.rotation())),
    {
        if self.deferred != Direction::Idle && self.cooldown <= 0 {
            if !self.direction.is_invert(&self.deferred) {
                self.direction = self.deferred;
                self.cooldown = ROTATION_LOCK;
            }
            self.deferred = Direction::Idle;
        }
    }

    /// The position of the next head, or `None` when the agent has no
    /// direction or no body.
    pub fn next_coords(&self, step_size: u32) -> (r: Option<(i64, i64)>)
        requires
            head_in_bounds(self.body@),
        ensures
            (self.body@.len() == 0 || self.direction == Direction::Idle) ==> r is None,
            (self.body@.len() > 0 && self.direction != Direction::Idle) ==> r == Some(
                (
                    next_position(self.body@[0], self.direction, step_size as int).0 as i64,
                    next_position(self.body@[0], self.direction, step_size as int).1 as i64,
                ),
            ),
            r matches Some(p) ==> p.0 == next_position(self.body@[0], self.direction, step_size as int).0
                && p.1 == next_position(self.body@[0], self.direction, step_size as int).1,
    {
        if self.body.len() == 0 {
            return None;
        }
        let old_head = self.body[0];
        let mut new_x = old_head.x;
        let mut new_y = old_head.y;
        let d = step_size as i64 * STEP_MULTIPLIER;
        match self.direction {
            Direction::Up => new_y = new_y - d,
            Direction::Down => new_y = new_y + d,
            Direction::Left => new_x = new_x - d,
            Direction::Right => new_x = new_x + d,
            Direction::Idle => return None,
        }
        if new_x > FIELD_WIDTH - HALF_CELL {
            new_x = new_x - FIELD_WIDTH;
        } else if new_x < HALF_CELL {
            new_x = new_x + FIELD_WIDTH;
        } else if new_y > FIELD_HEIGHT - HALF_CELL {
            new_y = new_y - FIELD_HEIGHT;
        } else if new_y < HALF_CELL {
            new_y = new_y + FIELD_HEIGHT;
        }
        Some((new_x, new_y))
    }

    /// Eats the first item under the head, if any: see `after_eating`.
    pub fn find_something_to_eat(&mut self, map: &mut MapState)
        requires
            old(self).body@.len() >= 1,
            old(self).score < i64::MAX,
            i64::MIN < old(self).hp < i64::MAX,
            old(self).growth <= i64::MAX - GROW_MULTIPLIER,
        ensures
            (final(self)@, final(map).items@) == after_eating(old(self)@, old(map).items@),
    {
        let head = self.body[0];
        match map.find_overlap(&head) {
            Some(i) => {
                let item = map.items[i];
                match item.category {
                    Category::Waste => self.growth = self.growth + GROW_MULTIPLIER,
                    Category::Hazard => self.hp = self.hp - 1,
                    Category::Healing => self.hp = self.hp + 1,
                    Category::BodySegment => {},
                }
                self.score = self.score + 1;
                proof {
                    let items = old(map).items@;
                    assert(is_first_overlap(items, head, i as int));
                    assert forall|j: int| 0 <= j < i implies #[trigger] items[j] != item by {
                        assert(!overlaps(head, items[j]));
                    }
                    assert(is_first_index(items, item, i as int));
                }
                map.remove(&item);
            },
            None => {},
        }
    }

    /// Sets health to zero when the head runs into the body: see `collides`.
    pub fn check_collision_with_tail(&mut self)
        requires
            old(self).body@.len() >= 1,
        ensures
            final(self)@ == after_collision(old(self)@),
    {
        let head = self.body[0];
        let n = self.body.len();
        let mut i: usize = INVULNERABILITY_THRESHOLD + 1;
        while i < n
            invariant
                n == self.body@.len(),
                self@ == old(self)@,
                head == self.body@[0],
                INVULNERABILITY_THRESHOLD < i,
                forall|j: int|
                    INVULNERABILITY_THRESHOLD < j < i && j < n ==> !(#[trigger] self.body@[j].id
                        != head.id && overlaps(head, self.body@[j])),
            decreases n - i,
        {
            let item = self.body[i];
            if item.id != head.id && head.intersects(&item) {
                assert(collides(self.body@));
                self.hp = 0;
                return;
            }
            i = i + 1;
        }
    }

    /// Adds a pending deposit for a low roll: see `after_deposit_roll`.
    pub fn waste_generation(&mut self, roll: u32)
        requires
            old(self).deposits < i64::MAX,
        ensures
            final(self)@ == after_deposit_roll(old(self)@, roll as int),
    {
        if roll <= DEPOSIT_CHANCE {
            self.deposits = self.deposits + 1;
        }
    }

    /// Grows, sheds or drops the tail: see `after_tail`.
    pub fn drop_tail(&mut self, map: &mut MapState, kind_roll: u32)
        requires
            old(self).body@.len() >= 1,
        ensures
            (final(self)@, final(map).items@) == after_tail(old(self)@, old(map).items@, kind_roll as int),
    {
        if self.growth == 0 && self.deposits == 0 {
            self.body.pop_back();
        } else if self.growth > 0 {
            self.growth = self.growth - 1;
        } else if self.deposits > 0 {
            self.deposits = self.deposits - 1;
            match self.body.pop_back() {
                Some(tail) => {
                    let shed = Segment::new(tail.x, tail.y, kind_for_roll(kind_roll), tail.id);
                    map.add_item_to_map(shed);
                },
                None => {},
            }
        }
    }

    /// One tick of `step_size` milliseconds with the two rolls given: see `tick`.
    pub fn make_step_with(
        &mut self,
        map: &mut MapState,
        step_size: u32,
        deposit_roll: u32,
        kind_roll: u32,
    )
        requires
            old(self).wf(),
            has_room(old(self)@),
        ensures
            final(self).wf(),
            (final(self)@, final(map).items@) == tick(
                old(self)@,
                old(map).items@,
                step_size as int,
                deposit_roll as int,
                kind_roll as int,
            ),
            !old(self)@.is_active() ==> final(self)@ == old(self)@ && final(map).items@ == old(
                map,
            ).items@,
    {
        if self.is_dead() || self.direction == Direction::Idle {
            return;
        }
        self.cooldown = self.cooldown - 1;
        self.make_deferred_rotation();
        let (new_x, new_y) = match self.next_coords(step_size) {
            Some(c) => c,
            None => return,
        };
        let new_head = Segment::new(new_x, new_y, Category::BodySegment, self.next_id);
        self.next_id = self.next_id + 1;
        self.body.push_front(new_head);
        self.find_something_to_eat(map);
        self.check_collision_with_tail();
        self.waste_generation(deposit_roll);
        self.drop_tail(map, kind_roll);
    }

    /// One tick of `step_size` milliseconds, drawing its rolls from the
    /// agent's random source. The result holds for whatever the source draws.
    pub fn make_step(&mut self, map: &mut MapState, step_size: u32)
        requires
            old(self).wf(),
            has_room(old(self)@),
        ensures
            final(self).wf(),
            exists|deposit_roll: int, kind_roll: int|
                0 <= deposit_roll < DEPOSIT_ROLL_RANGE && 0 <= kind_roll < KIND_ROLL_RANGE && (
                final(self)@,
                final(map).items@,
            ) == tick(old(self)@, old(map).items@, step_size as int, deposit_roll, kind_roll),
            !old(self)@.is_active() ==> final(self)@ == old(self)@ && final(map).items@ == old(
                map,
            ).items@,
    {
        if self.is_dead() || self.direction == Direction::Idle {
            assert(tick(self@, map.items@, step_size as int, 0, 0) == (self@, map.items@));
            return;
        }
        let deposit_roll = draw_below(&mut self.rng, DEPOSIT_ROLL_RANGE);
        let kind_roll = draw_below(&mut self.rng, KIND_ROLL_RANGE);
        self.make_step_with(map, step_size, deposit_roll, kind_roll);
    }

    /// Whether one more tick fits the machine integers: see `has_room`.
    pub fn has_room_for_step(&self) -> (r: bool)
        ensures
            r == has_room(self@),
    {
        let in_bounds = self.body.len() == 0 || (-COORD_LIMIT <= self.body[0].x
            && self.body[0].x <= COORD_LIMIT && -COORD_LIMIT <= self.body[0].y && self.body[0].y
            <= COORD_LIMIT);
        in_bounds && self.next_id < u64::MAX && self.score < i64::MAX && i64::MIN < self.hp
            && self.hp < i64::MAX && self.growth <= i64::MAX - GROW_MULTIPLIER && self.deposits
            < i64::MAX && self.cooldown > i64::MIN
    }

    /// Whether health is exhausted.
    pub fn is_dead(&self) -> (r: bool)
        ensures
            r == (self.hp <= 0),
    {
        self.hp <= 0
    }
}

/// A tick of an agent that is dead or has no direction changes nothing: not
/// its body, health, score or any other part of it, nor the field.
pub proof fn lemma_inactive_tick_is_noop(
    s: SnakeModel,
    map: Seq<Segment>,
    step: int,
    deposit_roll: int,
    kind_roll: int,
)
    requires
        s.hp <= 0 || s.direction == Direction::Idle,
    ensures
        tick(s, map, step, deposit_roll, kind_roll) == (s, map),
{
}

/// A moving tick acts on the steering state exactly as `tick_rotation` does.
pub proof fn lemma_tick_steers(
    s: SnakeModel,
    map: Seq<Segment>,
    step: int,
    deposit_roll: int,
    kind_roll: int,
)
    requires
        s.is_active(),
    ensures
        tick(s, map, step, deposit_roll, kind_roll).0.rotation() == tick_rotation(s.rotation()),
{
}

/// Eating the first item under the head takes exactly that item off the
/// field and adds one to the score; a healing item adds one to health, a
/// hazard takes one away, and waste adds `GROW_MULTIPLIER` to the growth.
pub proof fn lemma_eating(s: SnakeModel, map: Seq<Segment>, i: int)
    requires
        s.body.len() >= 1,
        first_overlap(map, s.body[0]) == Some(i),
    ensures
        0 <= i < map.len(),
        after_eating(s, map).1 == map.remove(i),
        after_eating(s, map).1.len() == map.len() - 1,
        after_eating(s, map).0.score == s.score + 1,
        after_eating(s, map).0.body == s.body,
        map[i].category == Category::Healing ==> after_eating(s, map).0.hp == s.hp + 1
            && after_eating(s, map).0.growth == s.growth,
        map[i].category == Category::Hazard ==> after_eating(s, map).0.hp == s.hp - 1
            && after_eating(s, map).0.growth == s.growth,
        map[i].category == Category::Waste ==> after_eating(s, map).0.growth == s.growth
            + GROW_MULTIPLIER && after_eating(s, map).0.hp == s.hp,
{
    let c = choose|k: int| is_first_overlap(map, s.body[0], k);
    assert(is_first_overlap(map, s.body[0], c));
}

/// When the new head of a moving tick overlaps a body segment past the
/// invulnerability threshold, the tick ends with health exactly zero,
/// whatever the health was and whatever was eaten.
pub proof fn lemma_self_collision_kills(
    s: SnakeModel,
    map: Seq<Segment>,
    step: int,
    deposit_roll: int,
    kind_roll: int,
)
    requires
        s.is_active(),
        s.body.len() >= 1,
        collides(advanced(s.with_rotation(tick_rotation(s.rotation())), step).body),
    ensures
        tick(s, map, step, deposit_roll, kind_roll).0.hp == 0,
{
}

/// Tail handling does exactly one thing: with growth pending it keeps the
/// tail; else with a deposit pending it moves the tail onto the field with
/// the category of the roll; else it drops the tail.
pub proof fn lemma_tail_outcome(s: SnakeModel, map: Seq<Segment>, kind_roll: int)
    requires
        s.body.len() >= 1,
        s.growth >= 0,
        s.deposits >= 0,
    ensures
        s.growth > 0 ==> after_tail(s, map, kind_roll) == (
            SnakeModel { growth: s.growth - 1, ..s },
            map,
        ),
        s.growth == 0 && s.deposits > 0 ==> after_tail(s, map, kind_roll) == (
            SnakeModel { deposits: s.deposits - 1, body: s.body.drop_last(), ..s },
            map.push(Segment { category: kind_of_roll(kind_roll), ..s.body.last() }),
        ),
        s.growth == 0 && s.deposits == 0 ==> after_tail(s, map, kind_roll) == (
            SnakeModel { body: s.body.drop_last(), ..s },
            map,
        ),
{
}

/// The rolls of `0..KIND_ROLL_RANGE` split into three slices without gap or
/// overlap: hazard up to `HAZARD_DROP_CHANCE`, healing from
/// `HAZARD_RANGE_NEXT` to `HEAL_RANGE_TO`, waste above.
pub proof fn lemma_kind_partition(roll: int)
    requires
        0 <= roll < KIND_ROLL_RANGE,
    ensures
        (kind_of_roll(roll) == Category::Hazard) == (roll <= HAZARD_DROP_CHANCE),
        (kind_of_roll(roll) == Category::Healing) == (HAZARD_RANGE_NEXT <= roll <= HEAL_RANGE_TO),
        (kind_of_roll(roll) == Category::Waste) == (HEAL_RANGE_TO < roll),
{
}

} // verus!
