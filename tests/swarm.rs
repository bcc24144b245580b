use invaders::frame::{new_frame, Drawable};
use invaders::invaders::{Invader, Invaders};
use invaders::timer::Timer;
use invaders::{NUM_COLS, NUM_ROWS};

const MS: u64 = 1_000_000;

fn swarm(members: &[(usize, usize)], interval_ms: u64, direction: i32) -> Invaders {
    Invaders {
        army: members.iter().map(|&(x, y)| Invader { x, y }).collect(),
        move_timer: Timer::from_millis(interval_ms),
        direction,
    }
}

fn positions(s: &Invaders) -> Vec<(usize, usize)> {
    s.army.iter().map(|m| (m.x, m.y)).collect()
}

#[test]
fn new_swarm_fills_the_formation() {
    let s = Invaders::new();
    assert_eq!(s.army.len(), 72);
    assert_eq!(positions(&s)[0], (2, 2));
    assert_eq!(positions(&s)[1], (2, 4));
    assert_eq!(positions(&s)[4], (4, 2));
    assert_eq!(*positions(&s).last().unwrap(), (36, 8));
    assert_eq!(s.direction, 1);
    assert_eq!(s.move_timer.duration, 2000 * MS);
    assert!(s.army.iter().all(|m| m.x % 2 == 0 && m.y % 2 == 0 && m.y < 9 && m.x < NUM_COLS - 2));
}

#[test]
fn no_move_before_the_interval_elapses() {
    let mut s = Invaders::new();
    let before = positions(&s);
    for d in [700u64, 600, 699] {
        assert!(!s.update(d * MS));
    }
    assert_eq!(positions(&s), before);
    assert_eq!(s.direction, 1);
    assert_eq!(s.move_timer.time_left, 1 * MS);
}

#[test]
fn scenario_one_member_moves_right() {
    let mut s = swarm(&[(2, 2)], 2000, 1);
    assert!(s.update(2000 * MS));
    assert_eq!(positions(&s), vec![(3, 2)]);
    assert_eq!(s.direction, 1);
    assert_eq!(s.move_timer.duration, 2000 * MS);
    assert!(!s.move_timer.ready);
}

#[test]
fn right_edge_drops_turns_and_speeds_up() {
    let mut s = swarm(&[(NUM_COLS - 1, 3), (NUM_COLS - 3, 5)], 2000, 1);
    assert!(s.update(2000 * MS));
    assert_eq!(positions(&s), vec![(NUM_COLS - 1, 4), (NUM_COLS - 3, 6)]);
    assert_eq!(s.direction, -1);
    assert_eq!(s.move_timer.duration, 1750 * MS);
    assert_eq!(s.move_timer.time_left, 1750 * MS);
}

#[test]
fn interval_never_drops_below_the_floor() {
    let mut s = swarm(&[(NUM_COLS - 1, 3)], 400, 1);
    assert!(s.update(400 * MS));
    assert_eq!(s.move_timer.duration, 250 * MS);
    let mut t = swarm(&[(0, 3)], 250, -1);
    assert!(t.update(250 * MS));
    assert_eq!(t.move_timer.duration, 250 * MS);
    assert_eq!(t.direction, 1);
    assert_eq!(positions(&t), vec![(0, 4)]);
}

#[test]
fn left_march_steps_left() {
    let mut s = swarm(&[(5, 3), (7, 3)], 1000, -1);
    assert!(s.update(1500 * MS));
    assert_eq!(positions(&s), vec![(4, 3), (6, 3)]);
    assert_eq!(s.direction, -1);
}

#[test]
fn empty_swarm_does_not_turn() {
    let mut s = swarm(&[], 1000, -1);
    assert!(s.update(1000 * MS));
    assert_eq!(s.direction, -1);
    assert_eq!(s.move_timer.duration, 1000 * MS);
}

#[test]
fn drop_stops_at_the_bottom_row() {
    let mut s = swarm(&[(NUM_COLS - 1, NUM_ROWS - 1)], 1000, 1);
    assert!(s.update(1000 * MS));
    assert_eq!(positions(&s), vec![(NUM_COLS - 1, NUM_ROWS - 1)]);
}

#[test]
fn all_killed_only_when_empty() {
    let mut s = swarm(&[], 1000, 1);
    assert!(s.all_killed());
    s.update(1000 * MS);
    assert!(s.all_killed());
    s.update(10 * MS);
    assert!(s.all_killed());
    assert!(!Invaders::new().all_killed());
}

#[test]
fn kill_removes_one_member() {
    let mut s = swarm(&[(2, 2), (4, 2), (6, 2)], 1000, 1);
    assert!(s.kill_invader_at(4, 2));
    assert_eq!(positions(&s), vec![(2, 2), (6, 2)]);
    assert!(!s.kill_invader_at(4, 2));
    assert_eq!(positions(&s), vec![(2, 2), (6, 2)]);
}

#[test]
fn reached_bottom_on_last_row() {
    assert!(!swarm(&[(3, NUM_ROWS - 2)], 1000, 1).reached_bottom());
    assert!(swarm(&[(3, 2), (3, NUM_ROWS - 1)], 1000, 1).reached_bottom());
    assert!(!swarm(&[], 1000, 1).reached_bottom());
}

#[test]
fn members_blink_with_the_timer() {
    let mut s = swarm(&[(2, 2), (4, 6)], 1000, 1);
    let mut f = new_frame();
    s.draw(&mut f);
    assert_eq!(f.cell(2, 2), 'x');
    assert_eq!(f.cell(4, 6), 'x');
    assert_eq!(f.cell(3, 2), ' ');
    s.update(600 * MS);
    let mut g = new_frame();
    s.draw(&mut g);
    assert_eq!(g.cell(2, 2), '+');
    assert_eq!(g.cell(4, 6), '+');
}
