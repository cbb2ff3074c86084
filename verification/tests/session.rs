use hegh::state::HeghState;
use hegh::InputState;
use hegh::Pos;
use hegh::Sprite;

fn idle() -> InputState {
    InputState { fire: false, up: false, down: false, left: false, right: false }
}

fn firing() -> InputState {
    InputState { fire: true, up: false, down: false, left: false, right: false }
}

#[test]
fn spawn_timer_gates_every_enemy() {
    let mut s = HeghState::new(0);
    // Exactly the interval is not enough: the gap must exceed it.
    s.tick(1000, &idle(), 100);
    assert_eq!(s.enemies.len(), 0);
    // Once it elapses, exactly one enemy appears at (spawn_x, 0) screen
    // units — here (200, 0) in half-units — and descends once this tick.
    s.tick(1001, &idle(), 100);
    assert_eq!(s.enemies.len(), 1);
    assert_eq!(s.enemies[0].position, Pos { x: 200, y: 1 });
    assert!(s.enemies[0].on_screen);
    // The timer was reset: within the next interval nothing spawns.
    s.tick(1500, &idle(), 7);
    s.tick(2001, &idle(), 7);
    assert_eq!(s.enemies.len(), 1);
    s.tick(2002, &idle(), 7);
    assert_eq!(s.enemies.len(), 2);
    assert_eq!(s.enemies[1].position, Pos { x: 14, y: 1 });
}

#[test]
fn random_spawn_abscissa_stays_inside_the_arena() {
    // Goes through the real random draw: each spawned enemy must lie at
    // the top edge, strictly inside the arena width, at a whole number of
    // screen units.
    for round in 0..20u64 {
        let mut s = HeghState::new(round);
        s.update(round + 1001, &idle());
        assert_eq!(s.enemies.len(), 1);
        let p = s.enemies[0].position;
        assert!(0 <= p.x && p.x < 1460);
        assert_eq!(p.x % 2, 0);
        assert_eq!(p.y, 1);
    }
}

#[test]
fn quarter_second_of_held_fire_yields_exactly_two_bullets() {
    // Start: player at (300, 500) screen units, no bullets, no enemies,
    // fire key held through every tick of the first 250 ms.
    let mut s = HeghState::new(0);
    assert_eq!(s.hegh.position(), Pos { x: 600, y: 1000 });
    assert_eq!(s.hegh.bullets.len(), 0);
    assert_eq!(s.enemies.len(), 0);
    for t in 0..=250u64 {
        s.tick(t, &firing(), 0);
    }
    // Shots fell just after the cooldown elapsed (t = 101 and t = 202),
    // and both bullets have risen from the fire height since.
    assert_eq!(s.hegh.bullets.len(), 2);
    assert_eq!(s.hegh.bullets[0].position(), Pos { x: 600, y: 250 });
    assert_eq!(s.hegh.bullets[1].position(), Pos { x: 600, y: 755 });
    assert!(s.hegh.bullets[0].position().y < 1000);
    assert!(s.hegh.bullets[1].position().y < 1000);
    assert!(s.hegh.bullets[0].on_screen && s.hegh.bullets[1].on_screen);
    assert_eq!(s.enemies.len(), 0);
    // Both stay tracked until they reach the top edge, then are discarded
    // for good: the first at t = 300, culled one tick later.
    let mut t = 251u64;
    while s.hegh.bullets.len() == 2 {
        s.tick(t, &idle(), 0);
        t += 1;
        assert!(t <= 302);
    }
    assert_eq!(t, 302);
    while s.hegh.bullets.len() == 1 {
        s.tick(t, &idle(), 0);
        t += 1;
        assert!(t <= 403);
    }
    assert_eq!(t, 403);
    assert_eq!(s.hegh.bullets.len(), 0);
}

#[test]
fn drawing_twice_without_an_update_gives_identical_calls() {
    let mut s = HeghState::new(0);
    for t in 0..=1200u64 {
        s.tick(t, &firing(), 365);
    }
    assert!(s.hegh.bullets.len() > 0);
    assert!(s.enemies.len() > 0);
    let first = s.draw();
    let second = s.draw();
    assert_eq!(first, second);
    // And the frame lists the player, then the bullets, then the enemies.
    assert_eq!(first[0].sprite, Sprite::Player);
    assert_eq!(first.len(), 1 + s.hegh.bullets.len() + s.enemies.len());
    for k in 0..s.hegh.bullets.len() {
        assert_eq!(first[1 + k].sprite, Sprite::Bullet);
        assert_eq!(first[1 + k].pos, s.hegh.bullets[k].position());
    }
    for k in 0..s.enemies.len() {
        assert_eq!(first[1 + s.hegh.bullets.len() + k].sprite, Sprite::Enemy);
        assert_eq!(first[1 + s.hegh.bullets.len() + k].pos, s.enemies[k].position);
    }
}

#[test]
fn fresh_state_draws_only_the_player() {
    let s = HeghState::new(42);
    let calls = s.draw();
    assert_eq!(calls.len(), 1);
    assert_eq!(calls[0].sprite, Sprite::Player);
    assert_eq!(calls[0].pos, Pos { x: 600, y: 1000 });
}
