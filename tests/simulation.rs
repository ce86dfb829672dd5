use snake::{
    kind_for_roll, Category, Direction, Intent, MapState, Segment, Session, Snake,
    GROW_MULTIPLIER, INITIAL_HP, INITIAL_SIZE, ROTATION_LOCK, STEP_MULTIPLIER,
};
use std::collections::VecDeque;

const NO_DEPOSIT: u32 = 999;
const WASTE_KIND: u32 = 99;

fn body_segment(x: i64, y: i64, id: u64) -> Segment {
    Segment::new(x, y, Category::BodySegment, id)
}

/// An agent of `len` segments stacked at `(x, y)`, moving in `direction`
/// with the cooldown over.
fn snake_at(x: i64, y: i64, len: u64, direction: Direction) -> Snake {
    let mut s = Snake::new();
    let mut body = VecDeque::new();
    for i in 0..len {
        body.push_back(body_segment(x, y, 100 + i));
    }
    s.body = body;
    s.next_id = 1000;
    s.direction = direction;
    s
}

fn head(s: &Snake) -> Segment {
    s.body[0]
}

#[test]
fn new_snake_has_initial_configuration() {
    let s = Snake::new();
    assert_eq!(s.body.len() as u64, INITIAL_SIZE);
    for (i, seg) in s.body.iter().enumerate() {
        assert_eq!(*seg, body_segment(0, 0, i as u64));
    }
    assert_eq!(s.hp, INITIAL_HP);
    assert_eq!(s.next_id, INITIAL_SIZE);
    assert_eq!(s.direction, Direction::Idle);
    assert_eq!(s.deferred, Direction::Idle);
    assert_eq!((s.growth, s.deposits, s.score, s.cooldown), (0, 0, 0, 0));
    assert!(!s.is_dead());
}

#[test]
fn is_invert_matches_only_opposites() {
    assert!(Direction::Up.is_invert(&Direction::Down));
    assert!(Direction::Down.is_invert(&Direction::Up));
    assert!(Direction::Left.is_invert(&Direction::Right));
    assert!(Direction::Right.is_invert(&Direction::Left));
    assert!(!Direction::Up.is_invert(&Direction::Up));
    assert!(!Direction::Up.is_invert(&Direction::Left));
    assert!(!Direction::Idle.is_invert(&Direction::Down));
    assert!(!Direction::Right.is_invert(&Direction::Idle));
}

#[test]
fn intersects_counts_touching_edges() {
    let a = body_segment(100_000, 100_000, 1);
    assert!(a.intersects(&body_segment(110_000, 100_000, 2)));
    assert!(a.intersects(&body_segment(90_000, 110_000, 2)));
    assert!(!a.intersects(&body_segment(110_001, 100_000, 2)));
    assert!(!a.intersects(&body_segment(100_000, 89_999, 2)));
    assert!(a.intersects(&a));
}

#[test]
fn intersects_handles_extreme_coordinates() {
    let a = body_segment(i64::MAX, i64::MIN, 1);
    let b = body_segment(i64::MIN, i64::MAX, 2);
    assert!(!a.intersects(&b));
    assert!(a.intersects(&body_segment(i64::MAX - 10_000, i64::MIN, 3)));
}

#[test]
fn next_coords_moves_by_step_times_multiplier() {
    let s = snake_at(200_000, 200_000, 3, Direction::Up);
    assert_eq!(s.next_coords(10), Some((200_000, 199_000)));
    let s = snake_at(200_000, 200_000, 3, Direction::Down);
    assert_eq!(s.next_coords(10), Some((200_000, 201_000)));
    let s = snake_at(200_000, 200_000, 3, Direction::Left);
    assert_eq!(s.next_coords(10), Some((199_000, 200_000)));
    let s = snake_at(200_000, 200_000, 3, Direction::Right);
    assert_eq!(s.next_coords(10), Some((201_000, 200_000)));
    let s = snake_at(200_000, 200_000, 3, Direction::Idle);
    assert_eq!(s.next_coords(10), None);
}

#[test]
fn wrap_past_upper_edge_subtracts_extent() {
    let s = snake_at(393_000, 200_000, 3, Direction::Right);
    // 393_000 + 3_000 = 396_000 lies past 395_000
    assert_eq!(s.next_coords(30), Some((-4_000, 200_000)));
    let s = snake_at(200_000, 390_000, 3, Direction::Down);
    // 390_000 + 20_000 = 410_000 comes back within the field
    assert_eq!(s.next_coords(200), Some((200_000, 10_000)));
}

#[test]
fn wrap_below_lower_edge_adds_extent() {
    let s = snake_at(7_000, 200_000, 3, Direction::Left);
    assert_eq!(s.next_coords(30), Some((404_000, 200_000)));
    let s = snake_at(200_000, 10_000, 3, Direction::Up);
    assert_eq!(s.next_coords(200), Some((200_000, 390_000)));
}

#[test]
fn wrap_leaves_exact_bounds_alone() {
    let s = snake_at(394_000, 200_000, 3, Direction::Right);
    assert_eq!(s.next_coords(10), Some((395_000, 200_000)));
    let s = snake_at(6_000, 200_000, 3, Direction::Left);
    assert_eq!(s.next_coords(10), Some((5_000, 200_000)));
}

#[test]
fn wrap_checks_one_axis_per_tick() {
    // both axes are outside: only x is wrapped
    let s = snake_at(0, 0, 3, Direction::Right);
    assert_eq!(s.next_coords(10), Some((401_000, 0)));
}

#[test]
fn inactive_tick_changes_nothing() {
    let mut map = MapState::new();
    map.add_item_to_map(Segment::new(200_000, 200_000, Category::Healing, 7));
    let mut s = snake_at(200_000, 200_000, 5, Direction::Idle);
    s.make_step_with(&mut map, 33, 0, 0);
    assert_eq!(s.body.len(), 5);
    assert_eq!(head(&s), body_segment(200_000, 200_000, 100));
    assert_eq!((s.hp, s.score, s.cooldown, s.next_id), (INITIAL_HP, 0, 0, 1000));
    assert_eq!(map.len(), 1);

    let mut s = snake_at(200_000, 200_000, 5, Direction::Right);
    s.hp = 0;
    s.make_step(&mut map, 33);
    assert_eq!(s.body.len(), 5);
    assert_eq!(head(&s), body_segment(200_000, 200_000, 100));
    assert_eq!((s.hp, s.score, s.deposits), (0, 0, 0));
    assert_eq!(map.len(), 1);
    assert!(s.is_dead());
}

#[test]
fn reverse_request_is_ignored() {
    let mut s = snake_at(200_000, 200_000, 3, Direction::Right);
    s.new_direction(Direction::Left);
    assert_eq!(s.direction, Direction::Right);
    assert_eq!(s.deferred, Direction::Idle);
    assert_eq!(s.cooldown, 0);
    s.cooldown = 5;
    s.new_direction(Direction::Left);
    assert_eq!(s.direction, Direction::Right);
    assert_eq!(s.deferred, Direction::Idle);
}

#[test]
fn turn_is_immediate_then_held_back() {
    let mut s = snake_at(200_000, 200_000, 3, Direction::Right);
    s.new_direction(Direction::Up);
    assert_eq!(s.direction, Direction::Up);
    assert_eq!(s.cooldown, ROTATION_LOCK);
    s.new_direction(Direction::Left);
    assert_eq!(s.direction, Direction::Up);
    assert_eq!(s.deferred, Direction::Left);
    s.new_direction(Direction::Right);
    assert_eq!(s.deferred, Direction::Right);
}

#[test]
fn turns_are_spaced_by_rotation_lock() {
    let mut map = MapState::new();
    let mut s = snake_at(200_000, 200_000, 3, Direction::Right);
    s.new_direction(Direction::Up);
    let mut changes: Vec<usize> = Vec::new();
    let mut last = s.direction;
    for t in 1..=40 {
        // ask for a turn every tick
        let want = if t % 2 == 0 { Direction::Left } else { Direction::Right };
        s.new_direction(want);
        if s.direction != last {
            changes.push(t);
            last = s.direction;
        }
        s.make_step_with(&mut map, 1, NO_DEPOSIT, WASTE_KIND);
        if s.direction != last {
            changes.push(t);
            last = s.direction;
        }
    }
    assert!(!changes.is_empty());
    assert!(changes[0] >= ROTATION_LOCK as usize);
    for w in changes.windows(2) {
        assert!(w[1] - w[0] >= ROTATION_LOCK as usize - 1);
    }
}

#[test]
fn deferred_turn_takes_effect_when_cooldown_ends() {
    let mut map = MapState::new();
    let mut s = snake_at(200_000, 200_000, 3, Direction::Right);
    s.cooldown = 2;
    s.new_direction(Direction::Up);
    assert_eq!(s.deferred, Direction::Up);
    s.make_step_with(&mut map, 1, NO_DEPOSIT, WASTE_KIND);
    assert_eq!(s.direction, Direction::Right);
    assert_eq!(s.cooldown, 1);
    s.make_step_with(&mut map, 1, NO_DEPOSIT, WASTE_KIND);
    assert_eq!(s.direction, Direction::Up);
    assert_eq!(s.deferred, Direction::Idle);
    assert_eq!(s.cooldown, ROTATION_LOCK);
}

#[test]
fn deferred_reversal_is_dropped() {
    let mut s = snake_at(200_000, 200_000, 3, Direction::Right);
    s.deferred = Direction::Left;
    s.make_deferred_rotation();
    assert_eq!(s.direction, Direction::Right);
    assert_eq!(s.deferred, Direction::Idle);
    assert_eq!(s.cooldown, 0);
}

fn eat_one(category: Category) -> (Snake, MapState) {
    let mut map = MapState::new();
    map.add_item_to_map(Segment::new(50_000, 50_000, Category::Healing, 1));
    map.add_item_to_map(Segment::new(201_000, 200_000, category, 2));
    map.add_item_to_map(Segment::new(205_000, 200_000, Category::Hazard, 3));
    let mut s = snake_at(200_000, 200_000, 4, Direction::Right);
    s.make_step_with(&mut map, 10, NO_DEPOSIT, WASTE_KIND);
    (s, map)
}

#[test]
fn eating_healing_adds_health() {
    let (s, map) = eat_one(Category::Healing);
    assert_eq!(s.hp, INITIAL_HP + 1);
    assert_eq!(s.score, 1);
    assert_eq!(map.len(), 2);
    assert_eq!(map.items()[0].id, 1);
    assert_eq!(map.items()[1].id, 3);
}

#[test]
fn eating_hazard_takes_health() {
    let (s, map) = eat_one(Category::Hazard);
    assert_eq!(s.hp, INITIAL_HP - 1);
    assert_eq!(s.score, 1);
    assert_eq!(map.len(), 2);
    assert_eq!(map.items()[1].id, 3);
}

#[test]
fn eating_waste_adds_growth() {
    let (s, map) = eat_one(Category::Waste);
    assert_eq!(s.hp, INITIAL_HP);
    assert_eq!(s.score, 1);
    // one of the pending growth steps is spent on this very tick
    assert_eq!(s.growth, GROW_MULTIPLIER - 1);
    assert_eq!(s.body.len(), 5);
    assert_eq!(map.len(), 2);
}

#[test]
fn eating_last_hazard_kills() {
    let mut map = MapState::new();
    map.add_item_to_map(Segment::new(201_000, 200_000, Category::Hazard, 2));
    let mut s = snake_at(200_000, 200_000, 4, Direction::Right);
    s.hp = 1;
    s.make_step_with(&mut map, 10, NO_DEPOSIT, WASTE_KIND);
    assert!(s.is_dead());
    assert_eq!(map.len(), 0);
    s.make_step_with(&mut map, 10, NO_DEPOSIT, WASTE_KIND);
    assert_eq!(head(&s).x, 201_000);
}

#[test]
fn self_collision_past_threshold_kills() {
    let mut map = MapState::new();
    let mut s = snake_at(200_000, 200_000, 1, Direction::Right);
    for i in 1..60u64 {
        s.body.push_back(body_segment(100_000, 50_000, 200 + i));
    }
    // this one becomes index 56 once the new head is in front
    s.body[55] = body_segment(201_000, 200_000, 500);
    s.hp = 7;
    s.make_step_with(&mut map, 10, NO_DEPOSIT, WASTE_KIND);
    assert_eq!(s.hp, 0);
}

#[test]
fn segments_near_head_are_invulnerable() {
    let mut map = MapState::new();
    let mut s = snake_at(200_000, 200_000, 1, Direction::Right);
    for i in 1..60u64 {
        s.body.push_back(body_segment(100_000, 50_000, 200 + i));
    }
    // index 50 after the new head is pushed: not checked
    s.body[49] = body_segment(201_000, 200_000, 500);
    s.make_step_with(&mut map, 10, NO_DEPOSIT, WASTE_KIND);
    assert_eq!(s.hp, INITIAL_HP);
}

#[test]
fn collision_overrides_healing() {
    let mut map = MapState::new();
    map.add_item_to_map(Segment::new(201_000, 200_000, Category::Healing, 9));
    let mut s = snake_at(200_000, 200_000, 1, Direction::Right);
    for i in 1..60u64 {
        s.body.push_back(body_segment(100_000, 50_000, 200 + i));
    }
    s.body[55] = body_segment(201_000, 200_000, 500);
    s.make_step_with(&mut map, 10, NO_DEPOSIT, WASTE_KIND);
    assert_eq!(s.hp, 0);
    assert_eq!(s.score, 1);
}

#[test]
fn tail_grows_while_growth_pending() {
    let mut map = MapState::new();
    let mut s = snake_at(200_000, 200_000, 4, Direction::Right);
    s.growth = 2;
    s.deposits = 1;
    s.make_step_with(&mut map, 10, NO_DEPOSIT, WASTE_KIND);
    assert_eq!(s.body.len(), 5);
    assert_eq!((s.growth, s.deposits), (1, 1));
    assert_eq!(map.len(), 0);
}

#[test]
fn tail_is_shed_while_deposit_pending() {
    for (roll, category) in [
        (0, Category::Hazard),
        (20, Category::Hazard),
        (21, Category::Healing),
        (28, Category::Healing),
        (29, Category::Waste),
        (99, Category::Waste),
    ] {
        let mut map = MapState::new();
        let mut s = snake_at(200_000, 200_000, 4, Direction::Right);
        s.body[3] = body_segment(150_000, 200_000, 77);
        s.deposits = 1;
        s.make_step_with(&mut map, 10, NO_DEPOSIT, roll);
        assert_eq!(s.body.len(), 4);
        assert_eq!(s.deposits, 0);
        assert_eq!(map.len(), 1);
        assert_eq!(map.items()[0], Segment::new(150_000, 200_000, category, 77));
    }
}

#[test]
fn tail_is_dropped_by_default() {
    let mut map = MapState::new();
    let mut s = snake_at(200_000, 200_000, 4, Direction::Right);
    s.body[3] = body_segment(150_000, 200_000, 77);
    s.make_step_with(&mut map, 10, NO_DEPOSIT, WASTE_KIND);
    assert_eq!(s.body.len(), 4);
    assert!(s.body.iter().all(|seg| seg.id != 77));
    assert_eq!(map.len(), 0);
}

#[test]
fn low_roll_adds_deposit() {
    let mut s = Snake::new();
    s.waste_generation(8);
    assert_eq!(s.deposits, 1);
    s.waste_generation(0);
    assert_eq!(s.deposits, 2);
    s.waste_generation(9);
    s.waste_generation(999);
    assert_eq!(s.deposits, 2);
}

#[test]
fn deposit_roll_in_tick_sheds_same_tick() {
    let mut map = MapState::new();
    let mut s = snake_at(200_000, 200_000, 4, Direction::Right);
    s.make_step_with(&mut map, 10, 8, 25);
    assert_eq!(s.deposits, 0);
    assert_eq!(s.body.len(), 4);
    assert_eq!(map.len(), 1);
    assert_eq!(map.items()[0].category, Category::Healing);
}

#[test]
fn kind_for_roll_slices() {
    assert_eq!(kind_for_roll(0), Category::Hazard);
    assert_eq!(kind_for_roll(20), Category::Hazard);
    assert_eq!(kind_for_roll(21), Category::Healing);
    assert_eq!(kind_for_roll(28), Category::Healing);
    assert_eq!(kind_for_roll(29), Category::Waste);
    assert_eq!(kind_for_roll(99), Category::Waste);
}

#[test]
fn map_remove_takes_first_equal_entry() {
    let mut map = MapState::new();
    let a = Segment::new(1, 2, Category::Waste, 5);
    let b = Segment::new(3, 4, Category::Hazard, 6);
    map.add_item_to_map(a);
    map.add_item_to_map(b);
    map.add_item_to_map(a);
    map.remove(&a);
    assert_eq!(map.items().clone(), vec![b, a]);
    map.remove(&Segment::new(1, 2, Category::Waste, 99));
    assert_eq!(map.len(), 2);
    map.clear();
    assert_eq!(map.len(), 0);
    map.remove(&a);
    assert_eq!(map.len(), 0);
}

#[test]
fn restart_resets_agent_and_field() {
    let mut session = Session::new();
    let mut body = VecDeque::new();
    for i in 0..12u64 {
        body.push_back(body_segment(100_000 + 10_000 * i as i64, 200_000, i));
    }
    session.snake.body = body;
    session.snake.hp = 0;
    session.snake.score = 9;
    for i in 0..3u64 {
        session.map.add_item_to_map(Segment::new(50_000, 50_000 * i as i64, Category::Waste, 40 + i));
    }
    session.restart();
    assert_eq!(session.snake.body.len() as u64, INITIAL_SIZE);
    assert_eq!(session.map.len(), 0);
    assert_eq!(session.snake.hp, INITIAL_HP);
    assert_eq!(session.snake.score, 0);
}

#[test]
fn respawn_keeps_field_restart_clears_it() {
    let mut session = Session::new();
    session.map.add_item_to_map(Segment::new(1, 1, Category::Waste, 40));
    session.snake.hp = 0;
    session.btn_press(Intent::Respawn);
    assert_eq!(session.snake.hp, INITIAL_HP);
    assert_eq!(session.map.len(), 1);
    session.btn_press(Intent::Restart);
    assert_eq!(session.map.len(), 0);
    assert_eq!(session.snake.hp, INITIAL_HP);
}

#[test]
fn intents_steer_the_snake() {
    let mut session = Session::new();
    session.btn_press(Intent::Up);
    assert_eq!(session.snake.direction, Direction::Up);
    assert_eq!(session.snake.cooldown, ROTATION_LOCK);
    session.btn_press(Intent::Left);
    assert_eq!(session.snake.direction, Direction::Up);
    assert_eq!(session.snake.deferred, Direction::Left);
}

#[test]
fn moving_right_five_ticks() {
    let step: u32 = 33;
    let mut map = MapState::new();
    let mut s = snake_at(100_000, 200_000, 12, Direction::Right);
    for i in 0..12 {
        s.body[i] = body_segment(100_000 - 10_000 * i as i64, 200_000, 100 + i as u64);
    }
    for _ in 0..5 {
        s.make_step_with(&mut map, step, NO_DEPOSIT, WASTE_KIND);
    }
    assert_eq!(head(&s).x, 100_000 + 5 * step as i64 * STEP_MULTIPLIER);
    assert_eq!(head(&s).y, 200_000);
    assert_eq!(s.body.len(), 12);
    // the five last segments of the original body are gone
    assert_eq!(s.body[11].id, 106);
    assert_eq!(map.len(), 0);
}

#[test]
fn make_step_draws_deposits_eventually() {
    let mut map = MapState::new();
    let mut s = snake_at(200_000, 200_000, 4, Direction::Right);
    s.hp = 1_000_000;
    let mut seen = false;
    for _ in 0..5000 {
        assert!(s.has_room_for_step());
        s.make_step(&mut map, 33);
        if s.deposits > 0 || map.len() > 0 {
            seen = true;
            break;
        }
    }
    assert!(seen);
}

#[test]
fn session_update_moves_head() {
    let mut session = Session::new();
    session.snake.body[0] = body_segment(200_000, 200_000, 0);
    session.btn_press(Intent::Down);
    session.update(20);
    assert_eq!(session.snake.body[0].x, 200_000);
    assert_eq!(session.snake.body[0].y, 202_000);
    assert_eq!(session.snake.cooldown, ROTATION_LOCK - 1);
}

#[test]
fn has_room_rejects_far_head() {
    let s = snake_at(i64::MAX, 0, 3, Direction::Right);
    assert!(!s.has_room_for_step());
    let s = snake_at(200_000, 0, 3, Direction::Right);
    assert!(s.has_room_for_step());
}
