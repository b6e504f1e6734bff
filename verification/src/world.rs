//! The spatial arena: a strongly-typed entity store keyed by stable integer
//! handles, holding each entity's transform, optional components and render
//! visibility. Components are attached and detached explicitly, and the
//! attach operation reports success or failure instead of overwriting.
//!
//! Handles stay valid forever: despawning clears the alive flag but never
//! reuses or shifts indices.

use vstd::prelude::*;
use crate::animator::MoveThisCard;
use crate::cards::{CardBack, CardDraggable, CardFront, CardSlot, CardVisual};
use crate::geom::Transform;

verus! {

/// Stable handle of one entity: its index in the arena.
#[derive(Clone, Copy, Debug, PartialEq, Eq, Structural)]
pub struct Entity(pub usize);

/// Render flag written by the orientation rule and consumed by the host
/// renderer.
#[derive(Clone, Copy, Debug, PartialEq, Eq, Structural)]
pub enum Visibility {
    Visible,
    Hidden,
}

/// One arena record: the spatial state plus every optional component an
/// entity can carry. The `directive` slot holding at most one value is what
/// makes "at most one active move directive per entity" structural.
#[derive(Clone, Copy, Debug)]
pub struct EntityRec {
    pub alive: bool,
    pub transform: Transform,
    pub directive: Option<MoveThisCard>,
    pub draggable: Option<CardDraggable>,
    pub visual: Option<CardVisual>,
    pub slot: Option<CardSlot>,
    pub front: Option<CardFront>,
    pub back: Option<CardBack>,
    pub parent: Option<Entity>,
    pub visibility: Visibility,
}

impl EntityRec {
    /// The record's spatial state is inside the arena bounds and any attached
    /// directive is itself well-formed.
    pub open spec fn wf(self) -> bool {
        &&& self.transform.wf()
        &&& match self.directive {
            Option::Some(d) => d.wf(),
            Option::None => true,
        }
    }

    /// A live record with no components at the given transform.
    pub open spec fn blank_spec(transform: Transform) -> EntityRec {
        EntityRec {
            alive: true,
            transform,
            directive: Option::None,
            draggable: Option::None,
            visual: Option::None,
            slot: Option::None,
            front: Option::None,
            back: Option::None,
            parent: Option::None,
            visibility: Visibility::Visible,
        }
    }

    /// Builds a live record with no components at the given transform.
    pub fn blank(transform: Transform) -> (r: EntityRec)
        ensures
            r == EntityRec::blank_spec(transform),
    {
        EntityRec {
            alive: true,
            transform,
            directive: None,
            draggable: None,
            visual: None,
            slot: None,
            front: None,
            back: None,
            parent: None,
            visibility: Visibility::Visible,
        }
    }
}

/// Every record in the store is well-formed.
pub open spec fn wf_seq(s: Seq<EntityRec>) -> bool {
    forall|i: int| 0 <= i < s.len() ==> (#[trigger] s[i]).wf()
}

/// When attaching directive `d` to entity `e` succeeds: the handle names a
/// live entity with an empty directive slot, and the directive is
/// well-formed.
pub open spec fn attach_ok(s: Seq<EntityRec>, e: Entity, d: MoveThisCard) -> bool {
    &&& e.0 < s.len()
    &&& s[e.0 as int].alive
    &&& s[e.0 as int].directive is None
    &&& d.wf()
}

/// The store after a successful attach of `d` to `e`.
pub open spec fn attach_result(s: Seq<EntityRec>, e: Entity, d: MoveThisCard) -> Seq<EntityRec> {
    s.update(e.0 as int, EntityRec { directive: Option::Some(d), ..s[e.0 as int] })
}

/// The entity store.
#[derive(Clone, Debug)]
pub struct World {
    pub entities: Vec<EntityRec>,
}

impl World {
    /// Every record in the store is well-formed.
    pub open spec fn wf(self) -> bool {
        wf_seq(self.entities@)
    }

    /// An empty arena.
    pub fn new() -> (w: World)
        ensures
            w.wf(),
            w.entities@.len() == 0,
    {
        World { entities: Vec::new() }
    }

    /// Number of handles ever created (live or despawned).
    pub fn entity_count(&self) -> (n: usize)
        ensures
            n == self.entities@.len(),
    {
        self.entities.len()
    }

    /// Adds a record and returns its fresh, stable handle.
    pub fn spawn(&mut self, rec: EntityRec) -> (e: Entity)
        requires
            old(self).wf(),
            rec.wf(),
        ensures
            final(self).wf(),
            e.0 == old(self).entities@.len(),
            final(self).entities@ == old(self).entities@.push(rec),
    {
        let e = Entity(self.entities.len());
        self.entities.push(rec);
        e
    }

    /// Whether `e` names a live entity.
    pub fn is_alive(&self, e: Entity) -> (r: bool)
        ensures
            r == (e.0 < self.entities@.len() && self.entities@[e.0 as int].alive),
    {
        e.0 < self.entities.len() && self.entities[e.0].alive
    }

    /// The full record of a live entity.
    pub fn record(&self, e: Entity) -> (r: Option<EntityRec>)
        ensures
            r == if e.0 < self.entities@.len() && self.entities@[e.0 as int].alive {
                Option::Some(self.entities@[e.0 as int])
            } else {
                Option::None::<EntityRec>
            },
    {
        if e.0 < self.entities.len() && self.entities[e.0].alive {
            Some(self.entities[e.0])
        } else {
            None
        }
    }

    /// The transform of a live entity.
    pub fn transform_of(&self, e: Entity) -> (r: Option<Transform>)
        ensures
            r == if e.0 < self.entities@.len() && self.entities@[e.0 as int].alive {
                Option::Some(self.entities@[e.0 as int].transform)
            } else {
                Option::None::<Transform>
            },
    {
        if e.0 < self.entities.len() && self.entities[e.0].alive {
            Some(self.entities[e.0].transform)
        } else {
            None
        }
    }

    /// The move directive currently attached to a live entity.
    pub fn directive_of(&self, e: Entity) -> (r: Option<MoveThisCard>)
        ensures
            r == if e.0 < self.entities@.len() && self.entities@[e.0 as int].alive
                && self.entities@[e.0 as int].directive is Some {
                self.entities@[e.0 as int].directive
            } else {
                Option::None::<MoveThisCard>
            },
    {
        if e.0 < self.entities.len() && self.entities[e.0].alive {
            self.entities[e.0].directive
        } else {
            None
        }
    }

    /// Marks an entity dead. Its record and handle remain; every later
    /// lookup treats it as absent. Fails on an unknown or already dead
    /// handle.
    pub fn despawn(&mut self, e: Entity) -> (ok: bool)
        requires
            old(self).wf(),
        ensures
            final(self).wf(),
            ok == (e.0 < old(self).entities@.len() && old(self).entities@[e.0 as int].alive),
            ok ==> final(self).entities@ == old(self).entities@.update(
                e.0 as int,
                EntityRec { alive: false, ..old(self).entities@[e.0 as int] },
            ),
            !ok ==> final(self).entities@ == old(self).entities@,
    {
        if e.0 < self.entities.len() && self.entities[e.0].alive {
            let rec = self.entities[e.0];
            self.entities.set(e.0, EntityRec { alive: false, ..rec });
            true
        } else {
            false
        }
    }

    /// Attaches a move directive as a transient tag. Fails (and leaves the
    /// store untouched) on an unknown or dead handle, on an entity already
    /// carrying a directive, or on an ill-formed directive; so a directive
    /// can never be re-attached over an in-flight one.
    pub fn attach_directive(&mut self, e: Entity, d: MoveThisCard) -> (ok: bool)
        requires
            old(self).wf(),
        ensures
            final(self).wf(),
            ok == attach_ok(old(self).entities@, e, d),
            ok ==> final(self).entities@ == attach_result(old(self).entities@, e, d),
            !ok ==> final(self).entities@ == old(self).entities@,
    {
        if e.0 < self.entities.len() && self.entities[e.0].alive && d.check_wf() {
            let rec = self.entities[e.0];
            if rec.directive.is_none() {
                self.entities.set(e.0, EntityRec { directive: Some(d), ..rec });
                return true;
            }
        }
        false
    }

    /// Detaches the move directive of a live entity. Fails when the handle is
    /// unknown or dead or no directive is attached.
    pub fn detach_directive(&mut self, e: Entity) -> (ok: bool)
        requires
            old(self).wf(),
        ensures
            final(self).wf(),
            ok == (e.0 < old(self).entities@.len() && old(self).entities@[e.0 as int].alive
                && old(self).entities@[e.0 as int].directive is Some),
            ok ==> final(self).entities@ == old(self).entities@.update(
                e.0 as int,
                EntityRec { directive: Option::None, ..old(self).entities@[e.0 as int] },
            ),
            !ok ==> final(self).entities@ == old(self).entities@,
    {
        if e.0 < self.entities.len() && self.entities[e.0].alive {
            let rec = self.entities[e.0];
            if rec.directive.is_some() {
                self.entities.set(e.0, EntityRec { directive: None, ..rec });
                return true;
            }
        }
        false
    }
}

} // verus!
