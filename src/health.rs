use vstd::prelude::*;

use crate::entity::EntityId;

verus! {

/// Hit points of an entity. Healing stops at `max`; damage has no floor, a
/// value at or below zero meaning dead.
#[derive(Clone, Copy, Debug, PartialEq, Eq, Structural)]
pub struct Health {
    pub current: i32,
    pub max: i32,
}

/// Asks to add `amount` (negative for damage) to the health of `target_entity`.
#[derive(Clone, Copy, Debug, PartialEq, Eq, Structural)]
pub struct ApplyHealthEvent {
    pub amount: i32,
    pub target_entity: EntityId,
    pub caster_entity: EntityId,
}

/// A hitbox that forwards hits to the entity owning the health.
#[derive(Clone, Copy, Debug, PartialEq, Eq, Structural)]
pub struct HealthRoot {
    pub entity: EntityId,
}

/// Health after adding `delta`: clamped above at `max`, unclamped below.
pub open spec fn added(current: int, max: int, delta: int) -> int {
    if current + delta > max {
        max
    } else {
        current + delta
    }
}

impl Health {
    /// Healing never leaves the health above its maximum.
    pub open spec fn wf(self) -> bool {
        self.current <= self.max
    }

    /// Whether adding `delta` stays within the machine range.
    pub open spec fn can_add(self, delta: int) -> bool {
        i32::MIN <= self.current + delta
    }

    pub open spec fn spec_added(self, delta: int) -> Health {
        Health { current: added(self.current as int, self.max as int, delta) as i32, max: self.max }
    }

    pub fn new(health: i32) -> (r: Health)
        ensures
            r.current == health,
            r.max == health,
            r.wf(),
    {
        Health { current: health, max: health }
    }

    pub fn is_dead(&self) -> (r: bool)
        ensures
            r == (self.current <= 0),
    {
        self.current <= 0
    }

    /// Share of the maximum that remains, in whole percent, clamped to `0..=100`.
    pub fn percent(&self) -> (r: u32)
        requires
            self.max > 0,
        ensures
            r == (if self.current <= 0 {
                0int
            } else if self.current >= self.max {
                100int
            } else {
                (self.current * 100) / (self.max as int)
            }),
    {
        if self.current <= 0 {
            0
        } else if self.current >= self.max {
            100
        } else {
            let p = (self.current as i64 * 100) / (self.max as i64);
            proof {
                assert(0 <= p <= 100) by (nonlinear_arith)
                    requires
                        0 < self.current < self.max,
                        p == (self.current * 100) / (self.max as int),
                ;
            }
            p as u32
        }
    }

    /// Adds `rhs`, clamping the result at `max`.
    pub fn add(self, rhs: i32) -> (r: Health)
        requires
            self.can_add(rhs as int),
        ensures
            r == self.spec_added(rhs as int),
    {
        let sum = self.current as i64 + rhs as i64;
        if sum > self.max as i64 {
            Health { current: self.max, max: self.max }
        } else {
            Health { current: sum as i32, max: self.max }
        }
    }

    /// Subtracts `rhs` without any floor.
    pub fn sub(self, rhs: i32) -> (r: Health)
        requires
            i32::MIN <= self.current - rhs <= i32::MAX,
        ensures
            r.current == self.current - rhs,
            r.max == self.max,
    {
        Health { current: self.current - rhs, max: self.max }
    }

    /// Adds `rhs` in place, clamping the result at `max`.
    pub fn add_assign(&mut self, rhs: i32)
        requires
            old(self).can_add(rhs as int),
        ensures
            *final(self) == old(self).spec_added(rhs as int),
    {
        *self = self.add(rhs);
    }

    /// Subtracts `rhs` in place without any floor.
    pub fn sub_assign(&mut self, rhs: i32)
        requires
            i32::MIN <= old(self).current - rhs <= i32::MAX,
        ensures
            final(self).current == old(self).current - rhs,
            final(self).max == old(self).max,
    {
        self.current = self.current - rhs;
    }
}

/// After any sequence of heals (non-negative amounts), health is at most its
/// maximum, which never changes, and no lower than where it started unless
/// capped at the maximum.
pub proof fn lemma_heal_never_exceeds_max(h: Health, deltas: Seq<i32>)
    requires
        h.wf(),
        forall|i: int| 0 <= i < deltas.len() ==> deltas[i] >= 0,
    ensures
        healed(h, deltas).current <= h.max,
        healed(h, deltas).max == h.max,
        healed(h, deltas).current >= h.current || healed(h, deltas).current == h.max,
    decreases deltas.len(),
{
    if deltas.len() > 0 {
        lemma_heal_never_exceeds_max(h, deltas.drop_last());
    }
}

/// Damage is applied in full: there is no lower bound on the result.
pub proof fn lemma_damage_unclamped(h: Health, d: i32)
    requires
        h.wf(),
        d > 0,
        h.can_add(-d),
    ensures
        h.spec_added(-d).current == h.current - d,
        h.spec_added(-d).current < h.current,
{
}

/// The health that results from applying `deltas` in order.
pub open spec fn healed(h: Health, deltas: Seq<i32>) -> Health
    decreases deltas.len(),
{
    if deltas.len() == 0 {
        h
    } else {
        healed(h, deltas.drop_last()).spec_added(deltas.last() as int)
    }
}

/// One event applied to a table of health components: every entry whose
/// entity is the target receives the amount.
pub open spec fn apply_event(
    table: Seq<(EntityId, Health)>,
    e: ApplyHealthEvent,
) -> Seq<(EntityId, Health)> {
    table.map_values(
        |p: (EntityId, Health)|
            if p.0 == e.target_entity {
                (p.0, p.1.spec_added(e.amount as int))
            } else {
                p
            },
    )
}

pub open spec fn event_fits(table: Seq<(EntityId, Health)>, e: ApplyHealthEvent) -> bool {
    forall|i: int|
        0 <= i < table.len() && #[trigger] table[i].0 == e.target_entity ==> table[i].1.can_add(
            e.amount as int,
        )
}

/// The table after applying `events` in emission order.
pub open spec fn apply_events(
    table: Seq<(EntityId, Health)>,
    events: Seq<ApplyHealthEvent>,
) -> Seq<(EntityId, Health)>
    decreases events.len(),
{
    if events.len() == 0 {
        table
    } else {
        apply_event(apply_events(table, events.drop_last()), events.last())
    }
}

/// Whether applying `events` in order stays within the machine range.
pub open spec fn events_fit(table: Seq<(EntityId, Health)>, events: Seq<ApplyHealthEvent>) -> bool
    decreases events.len(),
{
    if events.len() == 0 {
        true
    } else {
        events_fit(table, events.drop_last()) && event_fits(
            apply_events(table, events.drop_last()),
            events.last(),
        )
    }
}

proof fn lemma_events_fit_prefix(
    table: Seq<(EntityId, Health)>,
    events: Seq<ApplyHealthEvent>,
    i: int,
)
    requires
        events_fit(table, events),
        0 <= i <= events.len(),
    ensures
        events_fit(table, events.take(i)),
    decreases events.len(),
{
    if i < events.len() {
        assert(events.drop_last().take(i) =~= events.take(i));
        lemma_events_fit_prefix(table, events.drop_last(), i);
    } else {
        assert(events.take(i) =~= events);
    }
}

/// Applies each event to the health of its target, in order; an event whose
/// target has no health entry is skipped.
pub fn apply_health_events(table: &mut Vec<(EntityId, Health)>, events: &Vec<ApplyHealthEvent>)
    requires
        events_fit(old(table)@, events@),
    ensures
        final(table)@ == apply_events(old(table)@, events@),
{
    let ghost orig = table@;
    let mut k: usize = 0;
    while k < events.len()
        invariant
            0 <= k <= events.len(),
            events_fit(orig, events@),
            table@ == apply_events(orig, events@.take(k as int)),
        decreases events.len() - k,
    {
        let e = events[k];
        proof {
            lemma_events_fit_prefix(orig, events@, k + 1);
            assert(events@.take(k + 1).drop_last() =~= events@.take(k as int));
        }
        let ghost before = table@;
        let mut j: usize = 0;
        while j < table.len()
            invariant
                0 <= j <= table.len(),
                table.len() == before.len(),
                event_fits(before, e),
                forall|i: int|
                    0 <= i < j ==> #[trigger] table@[i] == apply_event(before, e)[i],
                forall|i: int| j <= i < table.len() ==> #[trigger] table@[i] == before[i],
            decreases table.len() - j,
        {
            if table[j].0 == e.target_entity {
                let (id, h) = table[j];
                assert(before[j as int].0 == e.target_entity);
                table.set(j, (id, h.add(e.amount)));
            }
            j = j + 1;
        }
        assert(table@ =~= apply_event(before, e));
        k = k + 1;
    }
    assert(events@.take(events.len() as int) =~= events@);
}

/// The entities whose health is at or below zero, in table order.
pub open spec fn dead_entities(table: Seq<(EntityId, Health)>) -> Seq<EntityId>
    decreases table.len(),
{
    if table.len() == 0 {
        Seq::empty()
    } else {
        let rest = dead_entities(table.drop_last());
        if table.last().1.current <= 0 {
            rest.push(table.last().0)
        } else {
            rest
        }
    }
}

/// Lists the entities to remove because their health reached zero.
pub fn despawn_dead(table: &Vec<(EntityId, Health)>) -> (r: Vec<EntityId>)
    ensures
        r@ == dead_entities(table@),
{
    let mut out: Vec<EntityId> = Vec::new();
    let mut i: usize = 0;
    while i < table.len()
        invariant
            0 <= i <= table.len(),
            out@ == dead_entities(table@.take(i as int)),
        decreases table.len() - i,
    {
        assert(table@.take(i + 1).drop_last() =~= table@.take(i as int));
        if table[i].1.is_dead() {
            out.push(table[i].0);
        }
        i = i + 1;
    }
    assert(table@.take(table.len() as int) =~= table@);
    out
}

} // verus!
