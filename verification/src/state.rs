//! The top-level game state: it owns the player and the enemies and drives
//! one fixed-order tick per frame — advance the player (which advances its
//! bullets), spawn an enemy when the spawn interval has elapsed, then cull
//! and advance the enemies.

use rand::Rng;
use vstd::prelude::*;

use crate::DrawCall;
use crate::ENEMY_SPAWN_RATE_MS;
use crate::InputState;
use crate::Pos;
use crate::SCALE;
use crate::SPAWN_X_RANGE;
use crate::objects::Enemy;
use crate::objects::Hegh;
use crate::objects::HeghV;
use crate::objects::advance_enemies;
use crate::objects::cull_and_advance_enemies;
use crate::objects::hegh_draw_calls;
use crate::objects::hegh_step;
use crate::objects::spec_draw_enemy;
use crate::objects::spec_new_enemy;
use crate::objects::spec_new_hegh;

verus! {

/// The whole game: the player, the active enemies, and the enemy spawn
/// timer.
pub struct HeghState {
    pub hegh: Hegh,
    pub enemies: Vec<Enemy>,
    pub enemy_spawn_rate_ms: u64,
    pub enemy_spawn_last_ms: u64,
}

/// The mathematical model of a `HeghState`: the same fields, with the
/// enemies as a sequence.
#[verifier::ext_equal]
pub ghost struct HeghStateV {
    pub hegh: HeghV,
    pub enemies: Seq<Enemy>,
    pub enemy_spawn_rate_ms: u64,
    pub enemy_spawn_last_ms: u64,
}

impl View for HeghState {
    type V = HeghStateV;

    open spec fn view(&self) -> HeghStateV {
        HeghStateV {
            hegh: self.hegh@,
            enemies: self.enemies@,
            enemy_spawn_rate_ms: self.enemy_spawn_rate_ms,
            enemy_spawn_last_ms: self.enemy_spawn_last_ms,
        }
    }
}

/// Whether a tick at `now_ms` spawns an enemy: more than the spawn
/// interval has passed since the last spawn.
pub open spec fn spawns(s: HeghStateV, now_ms: u64) -> bool {
    now_ms - s.enemy_spawn_last_ms > s.enemy_spawn_rate_ms
}

/// Where an enemy drawn at abscissa `spawn_x` (in screen units) appears:
/// at the top edge, converted to half-units.
pub open spec fn spec_spawn_pos(spawn_x: u64) -> Pos {
    Pos { x: ((spawn_x as int) * (SCALE as int)) as i64, y: 0 }
}

/// The state `HeghState::new(now_ms)` returns: a fresh player, no
/// enemies, the fixed spawn interval, last spawn at `now_ms`.
pub open spec fn spec_new_state(now_ms: u64) -> HeghStateV {
    HeghStateV {
        hegh: spec_new_hegh(now_ms),
        enemies: Seq::empty(),
        enemy_spawn_rate_ms: ENEMY_SPAWN_RATE_MS,
        enemy_spawn_last_ms: now_ms,
    }
}

/// Where one tick takes the whole game: the player steps first; an enemy
/// is appended at the top of the screen exactly when the spawn interval
/// has elapsed (which also resets the spawn timer); then the enemy list is
/// culled and advanced — so an enemy spawned this tick also moves once.
pub open spec fn state_step(s: HeghStateV, now_ms: u64, input: InputState, spawn_x: u64) -> HeghStateV {
    let with_spawn = if spawns(s, now_ms) {
        s.enemies.push(spec_new_enemy(spec_spawn_pos(spawn_x)))
    } else {
        s.enemies
    };
    HeghStateV {
        hegh: hegh_step(s.hegh, now_ms, input),
        enemies: advance_enemies(with_spawn),
        enemy_spawn_rate_ms: s.enemy_spawn_rate_ms,
        enemy_spawn_last_ms: if spawns(s, now_ms) {
            now_ms
        } else {
            s.enemy_spawn_last_ms
        },
    }
}

/// The draw calls of one frame: the player, then each of its bullets, then
/// each enemy.
pub open spec fn state_draw_calls(s: HeghStateV) -> Seq<DrawCall> {
    hegh_draw_calls(s.hegh) + s.enemies.map_values(|e: Enemy| spec_draw_enemy(e))
}

/// Relies on `rand::thread_rng` and `Rng::gen_range`: a sample drawn
/// uniformly from `[0, SPAWN_X_RANGE)`, which never panics since the range
/// is not empty. Nothing relates two calls: every outcome below the bound
/// is possible.
#[verifier::external_body]
fn random_spawn_x() -> (x: u64)
    ensures
        x < SPAWN_X_RANGE,
{
    rand::thread_rng().gen_range(0..SPAWN_X_RANGE)
}

impl HeghState {
    /// Validity: the player valid, the fixed spawn interval, and every
    /// active enemy valid.
    pub open spec fn wf(&self) -> bool {
        &&& self.hegh.wf()
        &&& self.enemy_spawn_rate_ms == ENEMY_SPAWN_RATE_MS
        &&& (forall|i: int| 0 <= i < self.enemies@.len() ==> self.enemies@[i].wf())
    }

    /// The startup state: a fresh player, no enemies, and both timers
    /// started at `now_ms`.
    pub fn new(now_ms: u64) -> (s: HeghState)
        ensures
            s@ == spec_new_state(now_ms),
            s.wf(),
    {
        HeghState {
            hegh: Hegh::new(now_ms),
            enemies: Vec::new(),
            enemy_spawn_rate_ms: ENEMY_SPAWN_RATE_MS,
            enemy_spawn_last_ms: now_ms,
        }
    }

    /// One tick with the spawn abscissa passed in: advance the player,
    /// spawn an enemy at `(spawn_x, 0)` screen units if the spawn interval
    /// has elapsed, then cull and advance the enemies. The clock is
    /// monotonic, so `now_ms` is no earlier than either timer.
    pub fn tick(&mut self, now_ms: u64, input: &InputState, spawn_x: u64)
        requires
            old(self).wf(),
            now_ms >= old(self).hegh.last_shot_ms,
            now_ms >= old(self).enemy_spawn_last_ms,
            spawn_x < SPAWN_X_RANGE,
        ensures
            final(self)@ == state_step(old(self)@, now_ms, *input, spawn_x),
            final(self).wf(),
    {
        self.hegh.update(now_ms, input);

        if now_ms - self.enemy_spawn_last_ms > self.enemy_spawn_rate_ms {
            let x: i64 = (spawn_x as i64) * SCALE;
            let e = Enemy::new(Pos { x, y: 0 });
            self.enemies.push(e);
            self.enemy_spawn_last_ms = now_ms;
        }

        let kept = cull_and_advance_enemies(&self.enemies);
        self.enemies = kept;
    }

    /// One tick with the spawn abscissa drawn at random, as the frame loop
    /// calls it: some abscissa below the bound is used, and everything
    /// else is exactly one `tick`.
    pub fn update(&mut self, now_ms: u64, input: &InputState)
        requires
            old(self).wf(),
            now_ms >= old(self).hegh.last_shot_ms,
            now_ms >= old(self).enemy_spawn_last_ms,
        ensures
            final(self).wf(),
            exists|x: u64|
                x < SPAWN_X_RANGE && final(self)@ == state_step(old(self)@, now_ms, *input, x),
    {
        let x = random_spawn_x();
        self.tick(now_ms, input, x);
        proof {
            assert(self@ == state_step(old(self)@, now_ms, *input, x));
        }
    }

    /// The draw calls of one frame: the player, then each of its bullets,
    /// then each enemy. Pure: the state is only read.
    pub fn draw(&self) -> (calls: Vec<DrawCall>)
        ensures
            calls@ == state_draw_calls(self@),
    {
        let mut calls = self.hegh.draw();
        let ghost player_calls = hegh_draw_calls(self.hegh@);
        let mut i: usize = 0;
        while i < self.enemies.len()
            invariant
                i <= self.enemies@.len(),
                calls@.len() == player_calls.len() + i,
                calls@.subrange(0, player_calls.len() as int) == player_calls,
                forall|k: int|
                    0 <= k < i ==> calls@[player_calls.len() + k] == spec_draw_enemy(
                        self.enemies@[k],
                    ),
            decreases self.enemies@.len() - i,
        {
            let c = self.enemies[i].draw();
            calls.push(c);
            proof {
                assert(calls@.subrange(0, player_calls.len() as int) =~= calls@.drop_last()
                    .subrange(0, player_calls.len() as int));
            }
            i = i + 1;
        }
        proof {
            assert(calls@ =~= state_draw_calls(self@));
        }
        calls
    }
}

} // verus!
