//! The movement integrator: advances every entity's position by its velocity
//! scaled by a fixed speed constant and the elapsed tick time.
//!
//! Positions and velocities are thousandths of a world unit; elapsed time is
//! in milliseconds, so one coordinate advances by
//! `velocity * speed * elapsed_ms / 1000` thousandths per tick, the quotient
//! truncated toward zero and the sum clamped to the `i64` range.

use vstd::prelude::*;
use crate::messages::Position;
use crate::store::{Entity, EntityStore};

verus! {

/// The fixed scalar applied uniformly to every velocity.
pub const PLAYER_SPEED: u32 = 300;

/// The signed displacement of one coordinate over one tick: the velocity
/// scaled by the speed constant and the elapsed milliseconds, divided by the
/// thousand milliseconds of a second, truncated toward zero.
pub open spec fn vel_step(v: int, speed: int, elapsed_ms: int) -> int {
    if v >= 0 {
        (v * speed * elapsed_ms) / 1000
    } else {
        -(((-v) * speed * elapsed_ms) / 1000)
    }
}

/// `x` clamped to the representable `i64` range.
pub open spec fn clamp_coord(x: int) -> int {
    if x < i64::MIN {
        i64::MIN as int
    } else if x > i64::MAX {
        i64::MAX as int
    } else {
        x
    }
}

/// One coordinate after one tick of integration.
pub open spec fn step_coord_spec(p: int, v: int, speed: int, elapsed_ms: int) -> int {
    clamp_coord(p + vel_step(v, speed, elapsed_ms))
}

/// `e` after one tick of integration: position advanced, id and velocity
/// untouched.
pub open spec fn integrate_entity(e: Entity, speed: u32, elapsed_ms: u32) -> Entity {
    Entity {
        position: Position {
            x: step_coord_spec(e.position.x as int, e.velocity.dx as int, speed as int, elapsed_ms as int) as i64,
            y: step_coord_spec(e.position.y as int, e.velocity.dy as int, speed as int, elapsed_ms as int) as i64,
        },
        ..e
    }
}

/// A whole store after one tick of integration, entity by entity.
pub open spec fn integrate_all(s: Seq<Entity>, speed: u32, elapsed_ms: u32) -> Seq<Entity> {
    s.map(|i: int, e: Entity| integrate_entity(e, speed, elapsed_ms))
}

/// One coordinate advanced by its scaled velocity, exactly as
/// `step_coord_spec` states.
fn step_coord(p: i64, v: i64, speed: u32, elapsed_ms: u32) -> (r: i64)
    ensures
        r == step_coord_spec(p as int, v as int, speed as int, elapsed_ms as int),
{
    let mag: u128 = if v >= 0 { v as u128 } else { (-(v as i128)) as u128 };
    proof {
        assert(mag <= 0x8000_0000_0000_0000u128);
        assert(mag * (speed as u128) <= 0x8000_0000_0000_0000u128 * 0xFFFF_FFFFu128)
            by (nonlinear_arith)
            requires
                mag <= 0x8000_0000_0000_0000u128,
                speed <= 0xFFFF_FFFFu32,
        ;
        assert(mag * (speed as u128) * (elapsed_ms as u128)
            <= 0x8000_0000_0000_0000u128 * 0xFFFF_FFFFu128 * 0xFFFF_FFFFu128)
            by (nonlinear_arith)
            requires
                mag * (speed as u128) <= 0x8000_0000_0000_0000u128 * 0xFFFF_FFFFu128,
                elapsed_ms <= 0xFFFF_FFFFu32,
        ;
    }
    let scaled: u128 = mag * (speed as u128) * (elapsed_ms as u128) / 1000;
    let delta: i128 = if v >= 0 { scaled as i128 } else { -(scaled as i128) };
    proof {
        if v >= 0 {
            assert(delta == vel_step(v as int, speed as int, elapsed_ms as int));
        } else {
            assert(mag == -(v as int));
            assert(delta == vel_step(v as int, speed as int, elapsed_ms as int));
        }
    }
    let moved: i128 = (p as i128) + delta;
    if moved < i64::MIN as i128 {
        i64::MIN
    } else if moved > i64::MAX as i128 {
        i64::MAX
    } else {
        moved as i64
    }
}

/// The movement integrator: every entity's position advances by its velocity
/// scaled by `PLAYER_SPEED` and the elapsed tick time; ids, velocities, the
/// number of entities and their order are untouched.
pub fn movement_system(store: &mut EntityStore, elapsed_ms: u32)
    requires
        old(store).wf(),
    ensures
        final(store).wf(),
        final(store)@ == integrate_all(old(store)@, PLAYER_SPEED, elapsed_ms),
{
    integrate(store, PLAYER_SPEED, elapsed_ms);
}

/// Advance every entity's position by its velocity scaled by `speed` and the
/// elapsed tick time.
pub fn integrate(store: &mut EntityStore, speed: u32, elapsed_ms: u32)
    requires
        old(store).wf(),
    ensures
        final(store).wf(),
        final(store)@ == integrate_all(old(store)@, speed, elapsed_ms),
{
    let n = store.len();
    let mut i: usize = 0;
    while i < n
        invariant
            store.wf(),
            n == store@.len(),
            n == old(store)@.len(),
            i <= n,
            forall|j: int| 0 <= j < i
                ==> store@[j] == integrate_entity(old(store)@[j], speed, elapsed_ms),
            forall|j: int| i <= j < n ==> store@[j] == old(store)@[j],
        decreases n - i,
    {
        let e = *store.get(i);
        let x = step_coord(e.position.x, e.velocity.dx, speed, elapsed_ms);
        let y = step_coord(e.position.y, e.velocity.dy, speed, elapsed_ms);
        store.set_position(i, Position { x, y });
        i = i + 1;
    }
    proof {
        assert(store@ =~= integrate_all(old(store)@, speed, elapsed_ms));
    }
}

} // verus!
