//! The three entity kinds: the player ship (`Hegh`), the bullets it fires,
//! and the enemies that descend from the top of the screen.
//!
//! Culling semantics: each transient entity (bullet, enemy) carries an
//! `on_screen` flag that starts true at spawn and is cleared exactly when
//! the entity crosses its exit boundary (the top edge for bullets, the
//! bottom edge for enemies). An owner retains an entity exactly while the
//! flag is true, so an entity that crossed the boundary is drawn for one
//! last frame and removed at the start of the next tick; a cleared flag is
//! never set again.

use vstd::prelude::*;

use crate::ARENA_MAX_X;
use crate::ARENA_MAX_Y;
use crate::BULLET_SPEED;
use crate::DrawCall;
use crate::ENEMY_SPEED;
use crate::FIRE_RATE_MS;
use crate::InputState;
use crate::PLAYER_STEP;
use crate::Pos;
use crate::Sprite;

verus! {

/// A projectile fired by the player: it rises by a fixed speed each tick
/// until it crosses the top edge of the screen.
#[derive(Clone, Copy, PartialEq, Eq, Structural, Debug)]
pub struct Bullet {
    pub position: Pos,
    pub velocity: i64,
    pub on_screen: bool,
}

/// The bullet `Bullet::new(position)` returns.
pub open spec fn spec_new_bullet(position: Pos) -> Bullet {
    Bullet { position, velocity: BULLET_SPEED, on_screen: true }
}

/// The draw call `Bullet::draw` returns.
pub open spec fn spec_draw_bullet(b: Bullet) -> DrawCall {
    DrawCall { sprite: Sprite::Bullet, pos: b.position }
}

impl Bullet {
    /// Validity: the fixed upward speed; inside the arena horizontally;
    /// vertically between one step above the top edge and the bottom edge;
    /// and on screen only while the top edge has not been reached.
    pub open spec fn wf(self) -> bool {
        &&& self.velocity == BULLET_SPEED
        &&& 0 <= self.position.x <= ARENA_MAX_X
        &&& -BULLET_SPEED <= self.position.y <= ARENA_MAX_Y
        &&& (self.on_screen ==> self.position.y >= 0)
    }

    /// Where one tick takes a bullet that is still on screen: it rises by
    /// its velocity and stays on screen exactly while it has not reached
    /// the top edge.
    pub open spec fn step(self) -> Bullet {
        Bullet {
            position: Pos { x: self.position.x, y: (self.position.y - self.velocity) as i64 },
            velocity: self.velocity,
            on_screen: self.position.y - self.velocity > 0,
        }
    }

    /// A new bullet at `position`, on screen, rising 2.5 screen units per
    /// tick.
    pub fn new(position: Pos) -> (b: Bullet)
        requires
            0 <= position.x <= ARENA_MAX_X,
            0 <= position.y <= ARENA_MAX_Y,
        ensures
            b == spec_new_bullet(position),
            b.wf(),
    {
        Bullet { position, velocity: BULLET_SPEED, on_screen: true }
    }

    /// One tick of motion. A bullet whose flag was cleared is never
    /// updated again, so the bullet must still be on screen.
    pub fn update(&mut self)
        requires
            old(self).wf(),
            old(self).on_screen,
        ensures
            *final(self) == old(self).step(),
            final(self).wf(),
    {
        self.position.y = self.position.y - self.velocity;
        if self.position.y <= 0 {
            self.on_screen = false;
        }
    }

    /// The one draw call that shows this bullet.
    pub fn draw(&self) -> (c: DrawCall)
        ensures
            c == spec_draw_bullet(*self),
    {
        DrawCall { sprite: Sprite::Bullet, pos: self.position }
    }

    /// The bullet's current position.
    pub fn position(&self) -> (p: Pos)
        ensures
            p == self.position,
    {
        self.position
    }
}

/// An adversary that descends from the top of the screen by a fixed speed
/// each tick until it crosses the bottom edge.
#[derive(Clone, Copy, PartialEq, Eq, Structural, Debug)]
pub struct Enemy {
    pub position: Pos,
    pub on_screen: bool,
}

/// The enemy `Enemy::new(position)` returns.
pub open spec fn spec_new_enemy(position: Pos) -> Enemy {
    Enemy { position, on_screen: true }
}

/// The draw call `Enemy::draw` returns.
pub open spec fn spec_draw_enemy(e: Enemy) -> DrawCall {
    DrawCall { sprite: Sprite::Enemy, pos: e.position }
}

impl Enemy {
    /// Validity: inside the arena horizontally; vertically between the top
    /// edge and one step below the bottom edge; and on screen only while
    /// the bottom edge has not been crossed.
    pub open spec fn wf(self) -> bool {
        &&& 0 <= self.position.x <= ARENA_MAX_X
        &&& 0 <= self.position.y <= ARENA_MAX_Y + ENEMY_SPEED
        &&& (self.on_screen ==> self.position.y <= ARENA_MAX_Y)
    }

    /// Where one tick takes an enemy that is still on screen: it descends
    /// by the fixed speed and stays on screen exactly while it has not
    /// crossed the bottom edge.
    pub open spec fn step(self) -> Enemy {
        Enemy {
            position: Pos { x: self.position.x, y: (self.position.y + ENEMY_SPEED) as i64 },
            on_screen: self.position.y + ENEMY_SPEED <= ARENA_MAX_Y,
        }
    }

    /// A new enemy at `position`, on screen.
    pub fn new(position: Pos) -> (e: Enemy)
        requires
            0 <= position.x <= ARENA_MAX_X,
            0 <= position.y <= ARENA_MAX_Y,
        ensures
            e == spec_new_enemy(position),
            e.wf(),
    {
        Enemy { position, on_screen: true }
    }

    /// One tick of motion. An enemy whose flag was cleared is never
    /// updated again, so the enemy must still be on screen.
    pub fn update(&mut self)
        requires
            old(self).wf(),
            old(self).on_screen,
        ensures
            *final(self) == old(self).step(),
            final(self).wf(),
    {
        self.position.y = self.position.y + ENEMY_SPEED;
        if self.position.y > ARENA_MAX_Y {
            self.on_screen = false;
        }
    }

    /// The one draw call that shows this enemy.
    pub fn draw(&self) -> (c: DrawCall)
        ensures
            c == spec_draw_enemy(*self),
    {
        DrawCall { sprite: Sprite::Enemy, pos: self.position }
    }
}

/// The surviving bullets after one tick: those still flagged on screen, in
/// their original order, each advanced one step.
pub open spec fn advance_bullets(bs: Seq<Bullet>) -> Seq<Bullet>
    decreases bs.len(),
{
    if bs.len() == 0 {
        Seq::empty()
    } else if bs.last().on_screen {
        advance_bullets(bs.drop_last()).push(bs.last().step())
    } else {
        advance_bullets(bs.drop_last())
    }
}

/// The surviving enemies after one tick: those still flagged on screen, in
/// their original order, each advanced one step.
pub open spec fn advance_enemies(es: Seq<Enemy>) -> Seq<Enemy>
    decreases es.len(),
{
    if es.len() == 0 {
        Seq::empty()
    } else if es.last().on_screen {
        advance_enemies(es.drop_last()).push(es.last().step())
    } else {
        advance_enemies(es.drop_last())
    }
}

/// Where the held directional keys take the player in one tick: up, down,
/// left, right, in that order, each move clamped to the arena rectangle.
pub open spec fn moved_position(p: Pos, input: InputState) -> Pos {
    let y_up = if input.up {
        if p.y - PLAYER_STEP < 0 {
            0
        } else {
            (p.y - PLAYER_STEP) as i64
        }
    } else {
        p.y
    };
    let y_down = if input.down {
        if y_up + PLAYER_STEP > ARENA_MAX_Y {
            ARENA_MAX_Y
        } else {
            (y_up + PLAYER_STEP) as i64
        }
    } else {
        y_up
    };
    let x_left = if input.left {
        if p.x - PLAYER_STEP < 0 {
            0
        } else {
            (p.x - PLAYER_STEP) as i64
        }
    } else {
        p.x
    };
    let x_right = if input.right {
        if x_left + PLAYER_STEP > ARENA_MAX_X {
            ARENA_MAX_X
        } else {
            (x_left + PLAYER_STEP) as i64
        }
    } else {
        x_left
    };
    Pos { x: x_right, y: y_down }
}

/// The player ship: it moves inside the arena rectangle under the
/// directional keys and fires a bullet upward when the fire key is held
/// and the fire cooldown has elapsed.
pub struct Hegh {
    pub position: Pos,
    pub fire_rate_ms: u64,
    pub last_shot_ms: u64,
    pub bullets: Vec<Bullet>,
}

/// The mathematical model of a `Hegh`: the same fields, with the owned
/// bullets as a sequence.
#[verifier::ext_equal]
pub ghost struct HeghV {
    pub position: Pos,
    pub fire_rate_ms: u64,
    pub last_shot_ms: u64,
    pub bullets: Seq<Bullet>,
}

impl View for Hegh {
    type V = HeghV;

    open spec fn view(&self) -> HeghV {
        HeghV {
            position: self.position,
            fire_rate_ms: self.fire_rate_ms,
            last_shot_ms: self.last_shot_ms,
            bullets: self.bullets@,
        }
    }
}

/// Whether a tick at `now_ms` under `input` fires a shot: the fire key is
/// held and more than the cooldown has passed since the last shot.
pub open spec fn fires(h: HeghV, now_ms: u64, input: InputState) -> bool {
    input.fire && now_ms - h.last_shot_ms > h.fire_rate_ms
}

/// The player `Hegh::new(now_ms)` returns: at (300, 500) in screen units,
/// no bullets, the fixed fire cooldown, last shot at `now_ms`.
pub open spec fn spec_new_hegh(now_ms: u64) -> HeghV {
    HeghV {
        position: Pos { x: 600, y: 1000 },
        fire_rate_ms: FIRE_RATE_MS,
        last_shot_ms: now_ms,
        bullets: Seq::empty(),
    }
}

/// Where one tick takes the player: a bullet is appended at the player's
/// position exactly when the shot fires (which also resets the cooldown),
/// the ship moves under the directional keys, and the bullet list is
/// culled and advanced — so a bullet fired this tick also moves once.
pub open spec fn hegh_step(h: HeghV, now_ms: u64, input: InputState) -> HeghV {
    let with_shot = if fires(h, now_ms, input) {
        h.bullets.push(spec_new_bullet(h.position))
    } else {
        h.bullets
    };
    HeghV {
        position: moved_position(h.position, input),
        fire_rate_ms: h.fire_rate_ms,
        last_shot_ms: if fires(h, now_ms, input) {
            now_ms
        } else {
            h.last_shot_ms
        },
        bullets: advance_bullets(with_shot),
    }
}

/// The draw calls that show the player and then each owned bullet.
pub open spec fn hegh_draw_calls(h: HeghV) -> Seq<DrawCall> {
    seq![DrawCall { sprite: Sprite::Player, pos: h.position }] + h.bullets.map_values(
        |b: Bullet| spec_draw_bullet(b),
    )
}

impl Hegh {
    /// Validity: inside the arena rectangle, the fixed fire cooldown, and
    /// every owned bullet valid.
    pub open spec fn wf(&self) -> bool {
        &&& 0 <= self.position.x <= ARENA_MAX_X
        &&& 0 <= self.position.y <= ARENA_MAX_Y
        &&& self.fire_rate_ms == FIRE_RATE_MS
        &&& (forall|i: int| 0 <= i < self.bullets@.len() ==> self.bullets@[i].wf())
    }

    /// A new player ship, created at startup at (300, 500) screen units
    /// with no bullets and the cooldown timer started at `now_ms`.
    pub fn new(now_ms: u64) -> (h: Hegh)
        ensures
            h@ == spec_new_hegh(now_ms),
            h.wf(),
    {
        Hegh {
            position: Pos { x: 600, y: 1000 },
            fire_rate_ms: FIRE_RATE_MS,
            last_shot_ms: now_ms,
            bullets: Vec::new(),
        }
    }

    /// One tick: fire if the fire key is held and the cooldown has
    /// elapsed, move under the directional keys clamped to the arena,
    /// then cull and advance the owned bullets.
    pub fn update(&mut self, now_ms: u64, input: &InputState)
        requires
            old(self).wf(),
            now_ms >= old(self).last_shot_ms,
        ensures
            final(self)@ == hegh_step(old(self)@, now_ms, *input),
            final(self).wf(),
    {
        if input.fire && now_ms - self.last_shot_ms > self.fire_rate_ms {
            let b = Bullet::new(self.position);
            self.bullets.push(b);
            self.last_shot_ms = now_ms;
        }

        if input.up {
            if self.position.y - PLAYER_STEP < 0 {
                self.position.y = 0;
            } else {
                self.position.y = self.position.y - PLAYER_STEP;
            }
        }
        if input.down {
            if self.position.y + PLAYER_STEP > ARENA_MAX_Y {
                self.position.y = ARENA_MAX_Y;
            } else {
                self.position.y = self.position.y + PLAYER_STEP;
            }
        }
        if input.left {
            if self.position.x - PLAYER_STEP < 0 {
                self.position.x = 0;
            } else {
                self.position.x = self.position.x - PLAYER_STEP;
            }
        }
        if input.right {
            if self.position.x + PLAYER_STEP > ARENA_MAX_X {
                self.position.x = ARENA_MAX_X;
            } else {
                self.position.x = self.position.x + PLAYER_STEP;
            }
        }

        let kept = cull_and_advance_bullets(&self.bullets);
        self.bullets = kept;
    }

    /// The draw calls that show the ship and then each owned bullet.
    pub fn draw(&self) -> (calls: Vec<DrawCall>)
        ensures
            calls@ == hegh_draw_calls(self@),
    {
        let mut calls: Vec<DrawCall> = Vec::new();
        calls.push(DrawCall { sprite: Sprite::Player, pos: self.position });
        let mut i: usize = 0;
        while i < self.bullets.len()
            invariant
                i <= self.bullets@.len(),
                calls@.len() == 1 + i,
                calls@[0] == (DrawCall { sprite: Sprite::Player, pos: self.position }),
                forall|k: int| 0 <= k < i ==> calls@[k + 1] == spec_draw_bullet(self.bullets@[k]),
            decreases self.bullets@.len() - i,
        {
            let c = self.bullets[i].draw();
            calls.push(c);
            i = i + 1;
        }
        proof {
            assert(calls@ =~= hegh_draw_calls(self@));
        }
        calls
    }

    /// The player's current position.
    pub fn position(&self) -> (p: Pos)
        ensures
            p == self.position,
    {
        self.position
    }
}

/// Drop the bullets that have left the screen and advance the rest.
fn cull_and_advance_bullets(bullets: &Vec<Bullet>) -> (kept: Vec<Bullet>)
    requires
        forall|i: int| 0 <= i < bullets@.len() ==> bullets@[i].wf(),
    ensures
        kept@ == advance_bullets(bullets@),
        forall|i: int| 0 <= i < kept@.len() ==> kept@[i].wf(),
{
    let mut kept: Vec<Bullet> = Vec::new();
    let mut i: usize = 0;
    while i < bullets.len()
        invariant
            i <= bullets@.len(),
            forall|k: int| 0 <= k < bullets@.len() ==> bullets@[k].wf(),
            kept@ == advance_bullets(bullets@.subrange(0, i as int)),
            forall|k: int| 0 <= k < kept@.len() ==> kept@[k].wf(),
        decreases bullets@.len() - i,
    {
        let mut b = bullets[i];
        if b.on_screen {
            b.update();
            kept.push(b);
        }
        proof {
            assert(bullets@.subrange(0, i + 1 as int).drop_last() =~= bullets@.subrange(
                0,
                i as int,
            ));
            assert(bullets@.subrange(0, i + 1 as int).last() == bullets@[i as int]);
        }
        i = i + 1;
    }
    proof {
        assert(bullets@.subrange(0, bullets@.len() as int) =~= bullets@);
    }
    kept
}

/// Drop the enemies that have left the screen and advance the rest.
pub(crate) fn cull_and_advance_enemies(enemies: &Vec<Enemy>) -> (kept: Vec<Enemy>)
    requires
        forall|i: int| 0 <= i < enemies@.len() ==> enemies@[i].wf(),
    ensures
        kept@ == advance_enemies(enemies@),
        forall|i: int| 0 <= i < kept@.len() ==> kept@[i].wf(),
{
    let mut kept: Vec<Enemy> = Vec::new();
    let mut i: usize = 0;
    while i < enemies.len()
        invariant
            i <= enemies@.len(),
            forall|k: int| 0 <= k < enemies@.len() ==> enemies@[k].wf(),
            kept@ == advance_enemies(enemies@.subrange(0, i as int)),
            forall|k: int| 0 <= k < kept@.len() ==> kept@[k].wf(),
        decreases enemies@.len() - i,
    {
        let mut e = enemies[i];
        if e.on_screen {
            e.update();
            kept.push(e);
        }
        proof {
            assert(enemies@.subrange(0, i + 1 as int).drop_last() =~= enemies@.subrange(
                0,
                i as int,
            ));
            assert(enemies@.subrange(0, i + 1 as int).last() == enemies@[i as int]);
        }
        i = i + 1;
    }
    proof {
        assert(enemies@.subrange(0, enemies@.len() as int) =~= enemies@);
    }
    kept
}

} // verus!
