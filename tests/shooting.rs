use invaders::frame::{new_frame, Drawable};
use invaders::invaders::{Invader, Invaders};
use invaders::player::Player;
use invaders::shot::Shot;
use invaders::timer::Timer;
use invaders::{NUM_COLS, NUM_ROWS};

const MS: u64 = 1_000_000;

fn swarm(members: &[(usize, usize)]) -> Invaders {
    Invaders {
        army: members.iter().map(|&(x, y)| Invader { x, y }).collect(),
        move_timer: Timer::from_millis(2000),
        direction: 1,
    }
}

#[test]
fn player_starts_in_the_middle_of_the_bottom_row() {
    let p = Player::new();
    assert_eq!((p.x, p.y), (NUM_COLS / 2, NUM_ROWS - 1));
    assert!(p.shot.is_none());
}

#[test]
fn player_moves_within_the_grid() {
    let mut p = Player::new();
    p.x = 0;
    p.move_left();
    assert_eq!(p.x, 0);
    p.move_right();
    assert_eq!(p.x, 1);
    p.x = NUM_COLS - 1;
    p.move_right();
    assert_eq!(p.x, NUM_COLS - 1);
    p.move_left();
    assert_eq!(p.x, NUM_COLS - 2);
}

#[test]
fn second_shot_is_refused() {
    let mut p = Player::new();
    assert!(p.shoot());
    p.update(120 * MS);
    let first = p.shot.unwrap();
    assert!(!p.shoot());
    assert_eq!(p.shot.unwrap(), first);
}

#[test]
fn scenario_shot_reaches_the_top_without_exploding() {
    let mut p = Player::new();
    p.x = 5;
    assert!(p.shoot());
    let s = p.shot.unwrap();
    assert_eq!((s.x, s.y), (5, NUM_ROWS - 1));
    let mut shot = s;
    for _ in 0..NUM_ROWS - 2 {
        shot.update(50 * MS);
        assert!(!shot.dead());
    }
    shot.update(50 * MS);
    assert_eq!(shot.y, 0);
    assert!(shot.dead());
    assert!(!shot.exploding);
}

#[test]
fn player_releases_a_dead_shot() {
    let mut p = Player::new();
    p.shoot();
    for _ in 0..NUM_ROWS - 2 {
        p.update(50 * MS);
        assert!(p.shot.is_some());
    }
    p.update(50 * MS);
    assert!(p.shot.is_none());
    assert!(p.shoot());
}

#[test]
fn shot_moves_one_row_per_step() {
    let mut s = Shot::new(3, 10);
    s.update(49 * MS);
    assert_eq!(s.y, 10);
    s.update(1 * MS);
    assert_eq!(s.y, 9);
    assert!(!s.timer.ready);
}

#[test]
fn explosion_ends_after_its_time() {
    let mut s = Shot::new(3, 10);
    s.explode();
    assert!(s.exploding);
    s.update(249 * MS);
    assert!(!s.dead());
    assert_eq!(s.y, 10);
    s.update(1 * MS);
    assert!(s.dead());
}

#[test]
fn second_explode_restarts_the_explosion() {
    let mut s = Shot::new(3, 10);
    s.explode();
    s.update(200 * MS);
    s.explode();
    s.update(200 * MS);
    assert!(!s.dead());
    s.update(50 * MS);
    assert!(s.dead());
}

#[test]
fn hit_removes_the_member_and_explodes() {
    let mut p = Player::new();
    p.shot = Some(Shot::new(4, 2));
    let mut s = swarm(&[(2, 2), (4, 2), (6, 2)]);
    assert!(p.detect_hits(&mut s));
    assert_eq!(s.army.len(), 2);
    assert!(s.army.iter().all(|m| (m.x, m.y) != (4, 2)));
    assert!(p.shot.unwrap().exploding);
    assert!(!p.detect_hits(&mut s));
    assert_eq!(s.army.len(), 2);
}

#[test]
fn miss_changes_nothing() {
    let mut p = Player::new();
    p.shot = Some(Shot::new(5, 2));
    let mut s = swarm(&[(2, 2), (4, 2)]);
    assert!(!p.detect_hits(&mut s));
    assert_eq!(s.army.len(), 2);
    assert!(!p.shot.unwrap().exploding);
    let mut q = Player::new();
    assert!(!q.detect_hits(&mut s));
    assert_eq!(s.army.len(), 2);
}

#[test]
fn exploding_shot_hits_nothing() {
    let mut p = Player::new();
    let mut shot = Shot::new(4, 2);
    shot.explode();
    p.shot = Some(shot);
    let mut s = swarm(&[(4, 2)]);
    assert!(!p.detect_hits(&mut s));
    assert_eq!(s.army.len(), 1);
}

#[test]
fn player_and_shot_are_drawn() {
    let mut p = Player::new();
    let mut f = new_frame();
    p.draw(&mut f);
    assert_eq!(f.cell(p.x, p.y), 'A');
    p.shoot();
    p.update(50 * MS);
    let mut g = new_frame();
    p.draw(&mut g);
    assert_eq!(g.cell(p.x, p.y), 'A');
    assert_eq!(g.cell(p.x, p.y - 1), '|');
    p.shot.as_mut().unwrap().explode();
    let mut h = new_frame();
    p.draw(&mut h);
    assert_eq!(h.cell(p.x, p.y - 1), '*');
}

#[test]
fn exploding_shot_on_top_row_lives_until_explosion_ends() {
    let mut s = Shot::new(3, 0);
    assert!(s.dead());
    s.explode();
    assert!(!s.dead());
    s.update(249 * MS);
    assert!(!s.dead());
    assert_eq!(s.y, 0);
    s.update(1 * MS);
    assert!(s.dead());
}
