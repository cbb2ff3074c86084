//! The laws the game obeys, stated over the step functions that the update
//! methods are proved to implement.

use vstd::prelude::*;

use crate::ARENA_MAX_X;
use crate::ARENA_MAX_Y;
use crate::DrawCall;
use crate::InputState;
use crate::SPAWN_X_RANGE;
use crate::objects::Bullet;
use crate::objects::Enemy;
use crate::objects::HeghV;
use crate::objects::advance_bullets;
use crate::objects::advance_enemies;
use crate::objects::fires;
use crate::objects::hegh_step;
use crate::objects::spec_new_bullet;
use crate::objects::spec_new_enemy;
use crate::state::HeghStateV;
use crate::state::spawns;
use crate::state::spec_spawn_pos;
use crate::state::state_draw_calls;
use crate::state::state_step;

verus! {

/// Culling and advancing distributes over appending one bullet: the
/// appended bullet survives, advanced once, exactly when it is on screen.
pub proof fn lemma_advance_bullets_push(bs: Seq<Bullet>, b: Bullet)
    ensures
        b.on_screen ==> advance_bullets(bs.push(b)) == advance_bullets(bs).push(b.step()),
        !b.on_screen ==> advance_bullets(bs.push(b)) == advance_bullets(bs),
{
    assert(bs.push(b).drop_last() =~= bs);
    assert(bs.push(b).last() == b);
}

/// Culling and advancing distributes over appending one enemy: the
/// appended enemy survives, advanced once, exactly when it is on screen.
pub proof fn lemma_advance_enemies_push(es: Seq<Enemy>, e: Enemy)
    ensures
        e.on_screen ==> advance_enemies(es.push(e)) == advance_enemies(es).push(e.step()),
        !e.on_screen ==> advance_enemies(es.push(e)) == advance_enemies(es),
{
    assert(es.push(e).drop_last() =~= es);
    assert(es.push(e).last() == e);
}

/// However many ticks are applied and whatever keys are held, the player
/// never leaves the arena rectangle: one step from any position inside it
/// ends inside it (so clamping at a boundary is idempotent, and by
/// induction over ticks the bounds hold forever).
pub proof fn lemma_player_stays_in_arena(h: HeghV, now_ms: u64, input: InputState)
    requires
        0 <= h.position.x <= ARENA_MAX_X,
        0 <= h.position.y <= ARENA_MAX_Y,
    ensures
        0 <= hegh_step(h, now_ms, input).position.x <= ARENA_MAX_X,
        0 <= hegh_step(h, now_ms, input).position.y <= ARENA_MAX_Y,
{
}

/// The fire cooldown gates the bullets. While it has not elapsed (or the
/// fire key is not held) a tick adds no bullet and leaves the cooldown
/// timer alone; once it has elapsed, a tick with the fire key held adds
/// exactly one bullet, spawned at the player's position at fire time and
/// advanced once with the rest, and resets the cooldown timer — so the
/// next shot needs a further full cooldown.
pub proof fn lemma_fire_cooldown(h: HeghV, now_ms: u64, input: InputState)
    ensures
        !fires(h, now_ms, input) ==> hegh_step(h, now_ms, input).bullets == advance_bullets(
            h.bullets,
        ) && hegh_step(h, now_ms, input).last_shot_ms == h.last_shot_ms,
        fires(h, now_ms, input) ==> hegh_step(h, now_ms, input).bullets == advance_bullets(
            h.bullets,
        ).push(spec_new_bullet(h.position).step()) && hegh_step(h, now_ms, input).last_shot_ms
            == now_ms,
        fires(h, now_ms, input) ==> hegh_step(h, now_ms, input).bullets.len() == advance_bullets(
            h.bullets,
        ).len() + 1,
{
    if fires(h, now_ms, input) {
        lemma_advance_bullets_push(h.bullets, spec_new_bullet(h.position));
    }
}

/// `out[j]` is an on-screen bullet of `bs`, advanced exactly one step.
pub open spec fn bullet_arose_on_screen(bs: Seq<Bullet>, out: Seq<Bullet>, j: int) -> bool {
    exists|i: int| 0 <= i < bs.len() && bs[i].on_screen && out[j] == #[trigger] (bs[i].step())
}

/// Every bullet that exists after a tick arose from a bullet that was on
/// screen before it, advanced exactly one step: a discarded bullet never
/// reappears and is never advanced again.
pub proof fn lemma_surviving_bullets_from_on_screen(bs: Seq<Bullet>)
    ensures
        forall|j: int|
            0 <= j < advance_bullets(bs).len() ==> #[trigger] bullet_arose_on_screen(
                bs,
                advance_bullets(bs),
                j,
            ),
    decreases bs.len(),
{
    if bs.len() > 0 {
        lemma_surviving_bullets_from_on_screen(bs.drop_last());
        let rest = advance_bullets(bs.drop_last());
        assert forall|j: int| 0 <= j < advance_bullets(bs).len() implies #[trigger] bullet_arose_on_screen(
            bs,
            advance_bullets(bs),
            j,
        ) by {
            if j < rest.len() {
                assert(bullet_arose_on_screen(bs.drop_last(), rest, j));
                let i = choose|i: int|
                    0 <= i < bs.drop_last().len() && bs.drop_last()[i].on_screen && rest[j]
                        == #[trigger] (bs.drop_last()[i].step());
                assert(bs[i] == bs.drop_last()[i]);
                assert(advance_bullets(bs)[j] == bs[i].step());
            } else {
                assert(bs.last().on_screen);
                assert(advance_bullets(bs)[j] == bs[bs.len() - 1].step());
            }
        }
    }
}

/// `out[j]` is an on-screen enemy of `es`, advanced exactly one step.
pub open spec fn enemy_arose_on_screen(es: Seq<Enemy>, out: Seq<Enemy>, j: int) -> bool {
    exists|i: int| 0 <= i < es.len() && es[i].on_screen && out[j] == #[trigger] (es[i].step())
}

/// Every enemy that exists after a tick arose from an enemy that was on
/// screen before it, advanced exactly one step: a discarded enemy never
/// reappears and is never advanced again.
pub proof fn lemma_surviving_enemies_from_on_screen(es: Seq<Enemy>)
    ensures
        forall|j: int|
            0 <= j < advance_enemies(es).len() ==> #[trigger] enemy_arose_on_screen(
                es,
                advance_enemies(es),
                j,
            ),
    decreases es.len(),
{
    if es.len() > 0 {
        lemma_surviving_enemies_from_on_screen(es.drop_last());
        let rest = advance_enemies(es.drop_last());
        assert forall|j: int| 0 <= j < advance_enemies(es).len() implies #[trigger] enemy_arose_on_screen(
            es,
            advance_enemies(es),
            j,
        ) by {
            if j < rest.len() {
                assert(enemy_arose_on_screen(es.drop_last(), rest, j));
                let i = choose|i: int|
                    0 <= i < es.drop_last().len() && es.drop_last()[i].on_screen && rest[j]
                        == #[trigger] (es.drop_last()[i].step());
                assert(es[i] == es.drop_last()[i]);
                assert(advance_enemies(es)[j] == es[i].step());
            } else {
                assert(es.last().on_screen);
                assert(advance_enemies(es)[j] == es[es.len() - 1].step());
            }
        }
    }
}

/// The spawn timer gates the enemies. While the spawn interval has not
/// elapsed a tick adds no enemy and leaves the spawn timer alone; once it
/// has, a tick adds exactly one enemy, spawned at `(spawn_x, 0)` screen
/// units inside the arena and advanced once with the rest, and resets the
/// spawn timer.
pub proof fn lemma_spawn_timer(s: HeghStateV, now_ms: u64, input: InputState, spawn_x: u64)
    requires
        spawn_x < SPAWN_X_RANGE,
    ensures
        !spawns(s, now_ms) ==> state_step(s, now_ms, input, spawn_x).enemies == advance_enemies(
            s.enemies,
        ) && state_step(s, now_ms, input, spawn_x).enemy_spawn_last_ms == s.enemy_spawn_last_ms,
        spawns(s, now_ms) ==> state_step(s, now_ms, input, spawn_x).enemies == advance_enemies(
            s.enemies,
        ).push(spec_new_enemy(spec_spawn_pos(spawn_x)).step()) && state_step(
            s,
            now_ms,
            input,
            spawn_x,
        ).enemy_spawn_last_ms == now_ms,
        spawns(s, now_ms) ==> state_step(s, now_ms, input, spawn_x).enemies.len()
            == advance_enemies(s.enemies).len() + 1,
        spec_spawn_pos(spawn_x).y == 0 && 0 <= spec_spawn_pos(spawn_x).x < ARENA_MAX_X,
{
    if spawns(s, now_ms) {
        lemma_advance_enemies_push(s.enemies, spec_new_enemy(spec_spawn_pos(spawn_x)));
    }
}

/// Rendering is a pure projection of the state: two draws of one state,
/// with no update between them, give identical draw calls.
pub proof fn lemma_draw_pure(s: HeghStateV, first: Seq<DrawCall>, second: Seq<DrawCall>)
    requires
        first == state_draw_calls(s),
        second == state_draw_calls(s),
    ensures
        first == second,
{
}

} // verus!

