// Culling decision, deliberate: an entity's `on_screen` flag starts true at
// spawn and is cleared exactly when the entity crosses its exit boundary;
// owners retain an entity exactly while the flag is true. So a bullet or an
// enemy that crossed its boundary is drawn one last frame and removed at the
// start of the next tick, and a discarded entity never comes back.

use hegh::objects::Bullet;
use hegh::objects::Enemy;
use hegh::objects::Hegh;
use hegh::InputState;
use hegh::Pos;
use hegh::Sprite;

fn idle() -> InputState {
    InputState { fire: false, up: false, down: false, left: false, right: false }
}

fn held(fire: bool, up: bool, down: bool, left: bool, right: bool) -> InputState {
    InputState { fire, up, down, left, right }
}

#[test]
fn bullet_rises_exactly_two_and_a_half_units_per_tick() {
    let mut b = Bullet::new(Pos { x: 100, y: 20 });
    assert!(b.on_screen);
    assert_eq!(b.position(), Pos { x: 100, y: 20 });
    b.update();
    assert_eq!(b.position(), Pos { x: 100, y: 15 });
    assert!(b.on_screen);
    b.update();
    b.update();
    assert_eq!(b.position(), Pos { x: 100, y: 5 });
    assert!(b.on_screen);
    b.update();
    // Reaching the top edge (y <= 0) clears the flag.
    assert_eq!(b.position(), Pos { x: 100, y: 0 });
    assert!(!b.on_screen);
}

#[test]
fn enemy_descends_exactly_half_a_unit_per_tick() {
    let mut e = Enemy::new(Pos { x: 40, y: 1098 });
    assert!(e.on_screen);
    e.update();
    assert_eq!(e.draw().pos, Pos { x: 40, y: 1099 });
    assert!(e.on_screen);
    e.update();
    // Exactly at the bottom edge: still on screen.
    assert_eq!(e.draw().pos, Pos { x: 40, y: 1100 });
    assert!(e.on_screen);
    e.update();
    // Crossing the bottom edge clears the flag.
    assert_eq!(e.draw().pos, Pos { x: 40, y: 1101 });
    assert!(!e.on_screen);
}

#[test]
fn player_starts_at_300_by_500_screen_units() {
    let h = Hegh::new(0);
    assert_eq!(h.position(), Pos { x: 600, y: 1000 });
    assert_eq!(h.draw().len(), 1);
    assert_eq!(h.draw()[0].sprite, Sprite::Player);
}

#[test]
fn player_clamps_at_every_arena_edge() {
    let mut h = Hegh::new(0);
    // 600 half-units above the start lies past the top edge.
    for _ in 0..600 {
        h.update(0, &held(false, true, false, false, false));
    }
    assert_eq!(h.position(), Pos { x: 600, y: 0 });
    // Clamping at the boundary is idempotent.
    h.update(0, &held(false, true, false, false, false));
    assert_eq!(h.position(), Pos { x: 600, y: 0 });
    for _ in 0..500 {
        h.update(0, &held(false, false, false, true, false));
    }
    assert_eq!(h.position(), Pos { x: 0, y: 0 });
    for _ in 0..800 {
        h.update(0, &held(false, false, true, false, false));
    }
    assert_eq!(h.position(), Pos { x: 0, y: 1100 });
    for _ in 0..800 {
        h.update(0, &held(false, false, false, false, true));
    }
    assert_eq!(h.position(), Pos { x: 1460, y: 1100 });
    h.update(0, &held(false, false, true, false, true));
    assert_eq!(h.position(), Pos { x: 1460, y: 1100 });
}

#[test]
fn fire_cooldown_gates_every_shot() {
    let mut h = Hegh::new(0);
    // Exactly the cooldown is not enough: the gap must exceed it.
    h.update(100, &held(true, false, false, false, false));
    assert_eq!(h.bullets.len(), 0);
    h.update(101, &held(true, false, false, false, false));
    assert_eq!(h.bullets.len(), 1);
    // The bullet spawned at the player's position and advanced once.
    assert_eq!(h.bullets[0].position(), Pos { x: 600, y: 995 });
    // Within the next cooldown nothing fires, however often we ask.
    h.update(150, &held(true, false, false, false, false));
    h.update(201, &held(true, false, false, false, false));
    assert_eq!(h.bullets.len(), 1);
    // And once it elapses, exactly one more.
    h.update(202, &held(true, false, false, false, false));
    assert_eq!(h.bullets.len(), 2);
    // Holding no fire key never fires.
    h.update(5000, &idle());
    assert_eq!(h.bullets.len(), 2);
}

#[test]
fn discarded_bullet_is_removed_next_tick_and_never_returns() {
    let mut h = a_player_with_bullet_near_top();
    assert_eq!(h.bullets.len(), 1);
    // First tick: the bullet reaches y = 0 and its flag clears; it is
    // still tracked (and drawn) this frame.
    h.update(0, &idle());
    assert_eq!(h.bullets.len(), 1);
    assert_eq!(h.bullets[0].position(), Pos { x: 7, y: 0 });
    assert!(!h.bullets[0].on_screen);
    assert_eq!(h.draw().len(), 2);
    // Next tick: it is culled before anything moves, and never reappears.
    h.update(0, &idle());
    assert_eq!(h.bullets.len(), 0);
    assert_eq!(h.draw().len(), 1);
    h.update(0, &idle());
    assert_eq!(h.bullets.len(), 0);
}

fn a_player_with_bullet_near_top() -> Hegh {
    let mut h = Hegh::new(0);
    h.bullets.push(Bullet::new(Pos { x: 7, y: 5 }));
    h
}

#[test]
fn player_draw_lists_ship_then_each_bullet_in_order() {
    let mut h = Hegh::new(0);
    h.update(101, &held(true, false, false, false, false));
    h.update(202, &held(true, false, false, false, false));
    let calls = h.draw();
    assert_eq!(calls.len(), 3);
    assert_eq!(calls[0].sprite, Sprite::Player);
    assert_eq!(calls[0].pos, Pos { x: 600, y: 1000 });
    assert_eq!(calls[1].sprite, Sprite::Bullet);
    assert_eq!(calls[2].sprite, Sprite::Bullet);
    // The older bullet has risen further.
    assert!(calls[1].pos.y < calls[2].pos.y);
}
