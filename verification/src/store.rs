//! The entity store: the authoritative table of simulated players.
//!
//! The store is owned by the tick driver's execution context alone; no method
//! blocks or fails from contention. At every tick boundary it holds at most
//! one entity per player id.

use vstd::prelude::*;
use crate::messages::{Player, Position, Velocity};

verus! {

/// One simulated entity: a player together with its spatial state.
#[derive(Clone, Copy, PartialEq, Eq, Structural, Debug)]
pub struct Entity {
    pub player: Player,
    pub position: Position,
    pub velocity: Velocity,
}

/// Whether some entity in `s` carries the id `id`.
pub open spec fn contains_id(s: Seq<Entity>, id: u128) -> bool {
    exists|i: int| 0 <= i < s.len() && s[i].player.id == id
}

/// The index of the entity carrying `id`; meaningful only when
/// `contains_id(s, id)` holds, and unique under `ids_unique(s)`.
pub open spec fn index_of_id(s: Seq<Entity>, id: u128) -> int {
    choose|i: int| 0 <= i < s.len() && s[i].player.id == id
}

/// No two entities of `s` carry the same player id.
pub open spec fn ids_unique(s: Seq<Entity>) -> bool {
    forall|i: int, j: int| 0 <= i < j < s.len() ==> s[i].player.id != s[j].player.id
}

/// A freshly spawned entity: at the origin, with zero velocity.
pub open spec fn origin_entity(id: u128) -> Entity {
    Entity {
        player: Player { id },
        position: Position { x: 0, y: 0 },
        velocity: Velocity { dx: 0, dy: 0 },
    }
}

/// The store after a spawn of `id`: a present entity is reset to the origin
/// in place; an absent one is appended.
pub open spec fn spawn_spec(s: Seq<Entity>, id: u128) -> Seq<Entity> {
    if contains_id(s, id) {
        s.update(index_of_id(s, id), origin_entity(id))
    } else {
        s.push(origin_entity(id))
    }
}

/// The store after a despawn of `id`: the matching entity is removed; an
/// absent id leaves the store unchanged.
pub open spec fn despawn_spec(s: Seq<Entity>, id: u128) -> Seq<Entity> {
    if contains_id(s, id) {
        s.remove(index_of_id(s, id))
    } else {
        s
    }
}

/// `e` with its velocity replaced.
pub open spec fn with_velocity(e: Entity, dx: i64, dy: i64) -> Entity {
    Entity { velocity: Velocity { dx, dy }, ..e }
}

/// The store after a velocity update for `id`: the matching entity's velocity
/// is replaced; an absent id leaves the store unchanged.
pub open spec fn velocity_spec(s: Seq<Entity>, id: u128, dx: i64, dy: i64) -> Seq<Entity> {
    if contains_id(s, id) {
        s.update(index_of_id(s, id), with_velocity(s[index_of_id(s, id)], dx, dy))
    } else {
        s
    }
}

/// The authoritative table of simulated entities, in spawn order.
pub struct EntityStore {
    entities: Vec<Entity>,
}

impl View for EntityStore {
    type V = Seq<Entity>;

    closed spec fn view(&self) -> Seq<Entity> {
        self.entities@
    }
}

impl EntityStore {
    /// The store's invariant: at most one entity per player id.
    pub open spec fn wf(&self) -> bool {
        ids_unique(self@)
    }

    /// An empty store.
    pub fn new() -> (s: Self)
        ensures
            s@ == Seq::<Entity>::empty(),
            s.wf(),
    {
        EntityStore { entities: Vec::new() }
    }

    /// How many entities are present.
    pub fn len(&self) -> (n: usize)
        ensures
            n == self@.len(),
    {
        self.entities.len()
    }

    /// The entity at index `i`, in spawn order.
    pub fn get(&self, i: usize) -> (e: &Entity)
        requires
            i < self@.len(),
        ensures
            *e == self@[i as int],
    {
        &self.entities[i]
    }

    /// The index of the entity carrying `id`, if one is present.
    fn find(&self, id: u128) -> (r: Option<usize>)
        ensures
            match r {
                Some(i) => i < self@.len() && self@[i as int].player.id == id,
                None => !contains_id(self@, id),
            },
    {
        let n = self.entities.len();
        let mut i: usize = 0;
        while i < n
            invariant
                n == self@.len(),
                i <= n,
                forall|j: int| 0 <= j < i ==> self@[j].player.id != id,
            decreases n - i,
        {
            if self.entities[i].player.id == id {
                return Some(i);
            }
            i = i + 1;
        }
        None
    }

    /// Spawn the player `player_id` at the origin with zero velocity. If an
    /// entity with that id is already present it is reset in place, so the
    /// store never holds two entities for one id.
    pub fn insert(&mut self, player_id: u128)
        requires
            old(self).wf(),
        ensures
            final(self).wf(),
            final(self)@ == spawn_spec(old(self)@, player_id),
            contains_id(final(self)@, player_id),
    {
        match self.find(player_id) {
            Some(i) => {
                proof {
                    let k = index_of_id(self@, player_id);
                    assert(0 <= k < self@.len() && self@[k].player.id == player_id);
                    assert(k == i as int);
                }
                self.entities.set(i, Entity {
                    player: Player { id: player_id },
                    position: Position { x: 0, y: 0 },
                    velocity: Velocity { dx: 0, dy: 0 },
                });
                proof {
                    let s = self@;
                    assert(s[i as int].player.id == player_id);
                    assert(ids_unique(s));
                    assert(contains_id(s, player_id));
                }
            }
            None => {
                self.entities.push(Entity {
                    player: Player { id: player_id },
                    position: Position { x: 0, y: 0 },
                    velocity: Velocity { dx: 0, dy: 0 },
                });
                proof {
                    let s = self@;
                    assert(s[s.len() - 1].player.id == player_id);
                    assert(ids_unique(s));
                }
            }
        }
    }

    /// Despawn the player `player_id`: remove its entity if present; a
    /// despawn of an absent id leaves the store unchanged.
    pub fn remove(&mut self, player_id: u128)
        requires
            old(self).wf(),
        ensures
            final(self).wf(),
            final(self)@ == despawn_spec(old(self)@, player_id),
            !contains_id(final(self)@, player_id),
    {
        match self.find(player_id) {
            Some(i) => {
                proof {
                    let k = index_of_id(self@, player_id);
                    assert(0 <= k < self@.len() && self@[k].player.id == player_id);
                    assert(k == i as int);
                }
                let ghost s0 = self@;
                self.entities.remove(i);
                proof {
                    let s = self@;
                    assert(s == s0.remove(i as int));
                    assert forall|p: int, q: int| 0 <= p < q < s.len()
                        implies s[p].player.id != s[q].player.id
                    by {
                        let p0 = if p < i as int { p } else { p + 1 };
                        let q0 = if q < i as int { q } else { q + 1 };
                        assert(s[p] == s0[p0]);
                        assert(s[q] == s0[q0]);
                    }
                    assert forall|p: int| 0 <= p < s.len()
                        implies s[p].player.id != player_id
                    by {
                        let p0 = if p < i as int { p } else { p + 1 };
                        assert(s[p] == s0[p0]);
                    }
                }
            }
            None => {}
        }
    }

    /// Replace the position of the entity at index `i`, leaving its id and
    /// velocity untouched.
    pub fn set_position(&mut self, i: usize, p: Position)
        requires
            i < old(self)@.len(),
        ensures
            final(self)@ == old(self)@.update(
                i as int,
                (Entity { position: p, ..old(self)@[i as int] }),
            ),
            old(self).wf() ==> final(self).wf(),
    {
        let e = self.entities[i];
        let ghost s0 = self@;
        self.entities.set(i, Entity {
            player: e.player,
            position: p,
            velocity: e.velocity,
        });
        proof {
            let s = self@;
            if ids_unique(s0) {
                assert forall|p0: int, q0: int| 0 <= p0 < q0 < s.len()
                    implies s[p0].player.id != s[q0].player.id
                by {
                    assert(s[p0].player.id == s0[p0].player.id);
                    assert(s[q0].player.id == s0[q0].player.id);
                }
            }
        }
    }

    /// Set the velocity of the player `player_id`; an update for an absent id
    /// leaves the store unchanged.
    pub fn set_velocity(&mut self, player_id: u128, dx: i64, dy: i64)
        requires
            old(self).wf(),
        ensures
            final(self).wf(),
            final(self)@ == velocity_spec(old(self)@, player_id, dx, dy),
    {
        match self.find(player_id) {
            Some(i) => {
                proof {
                    let k = index_of_id(self@, player_id);
                    assert(0 <= k < self@.len() && self@[k].player.id == player_id);
                    assert(k == i as int);
                }
                let e = self.entities[i];
                self.entities.set(i, Entity {
                    player: e.player,
                    position: e.position,
                    velocity: Velocity { dx, dy },
                });
            }
            None => {}
        }
    }
}

} // verus!
