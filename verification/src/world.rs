//! The simulation world: a registry of bodies, the forces asked for since the
//! last step, and the contact events that the last step produced.
//!
//! The world does not integrate anything itself. `step` closes a tick and
//! hands out the forces that were applied during it; whoever integrates them
//! reports the result through `finish_step`. Between the two calls the world
//! is simply waiting, and nothing in it depends on how long that takes.

use vstd::prelude::*;
use crate::geometry::{Pose, Vector2};

verus! {

/// An opaque, copyable key into the registry of the world that issued it.
///
/// A handle owns nothing. The state of the body it names lives in the world
/// and has to be looked up there each time.
#[derive(Clone, Copy, Debug, PartialEq, Eq, Structural)]
pub struct BodyHandle {
    world: u64,
    index: usize,
}

impl BodyHandle {
    pub closed spec fn spec_world(&self) -> u64 {
        self.world
    }

    pub closed spec fn spec_index(&self) -> usize {
        self.index
    }

    /// The identity of the world that issued this handle.
    #[verifier::when_used_as_spec(spec_world)]
    pub fn world(&self) -> (id: u64)
        ensures
            id == self.spec_world(),
    {
        self.world
    }

    /// The position of the body in the issuing world's registry.
    #[verifier::when_used_as_spec(spec_index)]
    pub fn index(&self) -> (i: usize)
        ensures
            i == self.spec_index(),
    {
        self.index
    }

    /// Two handles with the same world and index are the same handle.
    pub proof fn lemma_same_fields_same_handle(a: BodyHandle, b: BodyHandle)
        requires
            a.world() == b.world(),
            a.index() == b.index(),
        ensures
            a == b,
    {
    }
}

/// An axis-aligned box, given by half its width and half its height.
#[derive(Clone, Copy, Debug, PartialEq, Eq, Structural)]
pub struct Cuboid {
    pub half_extents: Vector2,
}

/// How a force acts on the body it is applied to.
#[derive(Clone, Copy, Debug, PartialEq, Eq, Structural)]
pub enum ForceType {
    /// A continuous force, scaled by mass and by the length of the step.
    Force,
    /// An impulse, scaled by mass only.
    Impulse,
    /// A direct change of acceleration.
    AccelerationChange,
    /// A direct, instantaneous change of velocity.
    VelocityChange,
}

/// One registered body with its collider.
#[derive(Clone, Copy, Debug, PartialEq, Eq, Structural)]
pub struct Body {
    pub shape: Cuboid,
    pub density: i64,
    pub friction: i64,
    pub restitution: i64,
    /// A static body has infinite mass: it never moves and ignores forces.
    pub is_static: bool,
    /// Where the body was when it was created or when the last step ended.
    pub pose: Pose,
}

/// A force that was applied to a body during the current tick.
#[derive(Clone, Copy, Debug, PartialEq, Eq, Structural)]
pub struct AppliedForce {
    pub body: BodyHandle,
    pub force: Vector2,
    pub kind: ForceType,
}

/// Two colliders started or stopped touching during a step. The numbers
/// identify colliders, not bodies or game entities.
#[derive(Clone, Copy, Debug, PartialEq, Eq, Structural)]
pub enum ContactEvent {
    Started(usize, usize),
    Stopped(usize, usize),
}

/// What one integration step produced: the pose of each body, in registry
/// order, and the contact events of the step, in the order they occurred.
#[derive(Debug)]
pub struct StepOutcome {
    pub poses: Vec<Pose>,
    pub contacts: Vec<ContactEvent>,
}

/// The outcome of a step as a mathematical value.
pub struct StepOutcomeView {
    pub poses: Seq<Pose>,
    pub contacts: Seq<ContactEvent>,
}

impl View for StepOutcome {
    type V = StepOutcomeView;

    open spec fn view(&self) -> StepOutcomeView {
        StepOutcomeView { poses: self.poses@, contacts: self.contacts@ }
    }
}

/// The world as a mathematical value.
pub struct WorldView {
    pub id: u64,
    pub gravity: Vector2,
    pub bodies: Seq<Body>,
    pub forces: Seq<AppliedForce>,
    pub contacts: Seq<ContactEvent>,
}

/// The body at position `i` after a step that reported `poses`: a dynamic
/// body with a reported pose takes it, every other body stays as it is.
pub open spec fn moved_body(body: Body, poses: Seq<Pose>, i: int) -> Body {
    if i < poses.len() && !body.is_static {
        Body { pose: poses[i], ..body }
    } else {
        body
    }
}

impl WorldView {
    /// A fresh world: no bodies, nothing pending.
    pub open spec fn empty(id: u64, gravity: Vector2) -> WorldView {
        WorldView { id, gravity, bodies: Seq::empty(), forces: Seq::empty(), contacts: Seq::empty() }
    }

    /// Whether `h` was issued by a world with this identity.
    pub open spec fn issued(self, h: BodyHandle) -> bool {
        h.world() == self.id
    }

    /// Whether `h` names a body of this world.
    pub open spec fn resolves(self, h: BodyHandle) -> bool {
        self.issued(h) && h.index() < self.bodies.len()
    }

    /// The body that `h` names, if it names one.
    pub open spec fn body_of(self, h: BodyHandle) -> Option<Body> {
        if self.resolves(h) {
            Some(self.bodies[h.index() as int])
        } else {
            None
        }
    }

    /// The pose of the body that `h` names, if it names one.
    pub open spec fn pose_of(self, h: BodyHandle) -> Option<Pose> {
        match self.body_of(h) {
            Some(body) => Some(body.pose),
            None => None,
        }
    }

    /// Whether a force applied through `h` reaches a body that can move.
    pub open spec fn accepts_force(self, h: BodyHandle) -> bool {
        self.resolves(h) && !self.bodies[h.index() as int].is_static
    }

    /// Every pending force targets a dynamic body of this world.
    pub open spec fn wf(self) -> bool {
        forall|i: int|
            0 <= i < self.forces.len() ==> self.accepts_force(#[trigger] self.forces[i].body)
    }

    /// The world after registering `body`.
    pub open spec fn with_body(self, body: Body) -> WorldView {
        WorldView { bodies: self.bodies.push(body), ..self }
    }

    /// The world after applying `force` through `h`. A handle that does not
    /// resolve, or that names a static body, leaves the world as it is.
    pub open spec fn with_force(self, h: BodyHandle, force: Vector2, kind: ForceType) -> WorldView {
        if self.accepts_force(h) {
            WorldView { forces: self.forces.push(AppliedForce { body: h, force, kind }), ..self }
        } else {
            self
        }
    }

    /// The world after its contact events were read.
    pub open spec fn drained(self) -> WorldView {
        WorldView { contacts: Seq::empty(), ..self }
    }

    /// The world after a tick was closed: the pending forces are handed out,
    /// and contact events that nobody read are gone.
    pub open spec fn stepped(self) -> WorldView {
        WorldView { forces: Seq::empty(), contacts: Seq::empty(), ..self }
    }

    /// The world after the result of a step came back: the bodies stand
    /// where the step left them, and its contact events wait to be read.
    pub open spec fn integrated(self, outcome: StepOutcomeView) -> WorldView {
        WorldView {
            bodies: Seq::new(
                self.bodies.len(),
                |i: int| moved_body(self.bodies[i], outcome.poses, i),
            ),
            contacts: outcome.contacts,
            ..self
        }
    }
}

/// The sum of the velocity changes in `forces` that target `h`, as a pair
/// `(x, y)`. Forces of the other kinds do not count: what they do to a
/// velocity depends on mass and on the length of the step.
pub open spec fn velocity_change(forces: Seq<AppliedForce>, h: BodyHandle) -> (int, int)
    decreases forces.len(),
{
    if forces.len() == 0 {
        (0, 0)
    } else {
        let rest = velocity_change(forces.drop_last(), h);
        let f = forces.last();
        if f.body == h && f.kind == ForceType::VelocityChange {
            (rest.0 + f.force.x, rest.1 + f.force.y)
        } else {
            rest
        }
    }
}

/// The velocity change of a concatenation is the sum of the parts.
pub proof fn lemma_velocity_change_concat(a: Seq<AppliedForce>, b: Seq<AppliedForce>, h: BodyHandle)
    ensures
        velocity_change(a + b, h).0 == velocity_change(a, h).0 + velocity_change(b, h).0,
        velocity_change(a + b, h).1 == velocity_change(a, h).1 + velocity_change(b, h).1,
    decreases b.len(),
{
    if b.len() == 0 {
        assert(a + b =~= a);
    } else {
        assert((a + b).drop_last() =~= a + b.drop_last());
        assert((a + b).last() == b.last());
        lemma_velocity_change_concat(a, b.drop_last(), h);
    }
}

/// A handle that resolves keeps resolving, and keeps naming the same body,
/// whatever is done to the world: bodies are never removed or reordered.
/// Only the end of a step changes a body, and only its pose.
pub proof fn lemma_handles_stay_valid(
    w: WorldView,
    h: BodyHandle,
    body: Body,
    target: BodyHandle,
    force: Vector2,
    kind: ForceType,
    outcome: StepOutcomeView,
)
    requires
        w.resolves(h),
    ensures
        w.with_body(body).body_of(h) == w.body_of(h),
        w.with_force(target, force, kind).body_of(h) == w.body_of(h),
        w.drained().body_of(h) == w.body_of(h),
        w.stepped().body_of(h) == w.body_of(h),
        w.integrated(outcome).resolves(h),
        w.integrated(outcome).body_of(h) == Some(
            moved_body(w.bodies[h.index() as int], outcome.poses, h.index() as int),
        ),
{
}

/// A handle issued by one world is absent from every world with another
/// identity, whatever that world holds.
pub proof fn lemma_foreign_handle_is_absent(issuer: WorldView, other: WorldView, h: BodyHandle)
    requires
        issuer.issued(h),
        issuer.id != other.id,
    ensures
        !other.resolves(h),
        other.body_of(h) is None,
        other.pose_of(h) is None,
        !other.accepts_force(h),
{
}

/// The simulation world.
pub struct World {
    id: u64,
    gravity: Vector2,
    bodies: Vec<Body>,
    forces: Vec<AppliedForce>,
    contacts: Vec<ContactEvent>,
}

impl View for World {
    type V = WorldView;

    closed spec fn view(&self) -> WorldView {
        WorldView {
            id: self.id,
            gravity: self.gravity,
            bodies: self.bodies@,
            forces: self.forces@,
            contacts: self.contacts@,
        }
    }
}

impl World {
    /// An empty world with the given identity and gravity. Gravity is an
    /// acceleration; a positive `y` points down.
    ///
    /// Handles are told apart by the identity of the world that issued
    /// them, so two worlds that are alive together need different ones.
    pub fn new(id: u64, gravity: Vector2) -> (w: World)
        ensures
            w@ == WorldView::empty(id, gravity),
            w@.wf(),
    {
        World { id, gravity, bodies: Vec::new(), forces: Vec::new(), contacts: Vec::new() }
    }

    pub fn id(&self) -> (id: u64)
        ensures
            id == self@.id,
    {
        self.id
    }

    pub fn gravity(&self) -> (g: Vector2)
        ensures
            g == self@.gravity,
    {
        self.gravity
    }

    /// The registry, in the order in which the bodies were created.
    pub fn bodies(&self) -> (bodies: &Vec<Body>)
        ensures
            bodies@ == self@.bodies,
    {
        &self.bodies
    }

    /// The forces applied since the last step, oldest first.
    pub fn pending_forces(&self) -> (forces: &Vec<AppliedForce>)
        ensures
            forces@ == self@.forces,
    {
        &self.forces
    }

    /// Registers a body with its collider at `position` and returns its
    /// handle. Nothing else in the world changes, so every handle issued
    /// before still names the body it named.
    pub fn create_body(
        &mut self,
        shape: Cuboid,
        position: Vector2,
        density: i64,
        friction: i64,
        restitution: i64,
        is_static: bool,
    ) -> (h: BodyHandle)
        requires
            old(self)@.wf(),
        ensures
            final(self)@.wf(),
            final(self)@ == old(self)@.with_body(
                Body {
                    shape,
                    density,
                    friction,
                    restitution,
                    is_static,
                    pose: Pose { translation: position, rotation: 0 },
                },
            ),
            old(self)@.issued(h),
            h.index() == old(self)@.bodies.len(),
            final(self)@.resolves(h),
            !old(self)@.resolves(h),
    {
        let index: usize = self.bodies.len();
        self.bodies.push(
            Body {
                shape,
                density,
                friction,
                restitution,
                is_static,
                pose: Pose { translation: position, rotation: 0 },
            },
        );
        BodyHandle { world: self.id, index }
    }

    /// The body that `h` names, or `None` if `h` does not resolve here.
    pub fn body(&self, h: BodyHandle) -> (body: Option<Body>)
        ensures
            body == self@.body_of(h),
    {
        if h.world == self.id && h.index < self.bodies.len() {
            Some(self.bodies[h.index])
        } else {
            None
        }
    }

    /// The pose of the body that `h` names, or `None` if `h` does not
    /// resolve here. A stale or foreign handle is never an error.
    pub fn get_body_pose(&self, h: BodyHandle) -> (pose: Option<Pose>)
        ensures
            pose == self@.pose_of(h),
    {
        match self.body(h) {
            Some(body) => Some(body.pose),
            None => None,
        }
    }

    /// Applies `force` to the body that `h` names and says whether `h`
    /// resolved. Forces are not merged: applying the same force twice in a
    /// tick queues it twice.
    pub fn apply_force(&mut self, h: BodyHandle, force: Vector2, kind: ForceType) -> (resolved: bool)
        requires
            old(self)@.wf(),
        ensures
            final(self)@.wf(),
            resolved == old(self)@.resolves(h),
            final(self)@ == old(self)@.with_force(h, force, kind),
    {
        if h.world == self.id && h.index < self.bodies.len() {
            if !self.bodies[h.index].is_static {
                self.forces.push(AppliedForce { body: h, force, kind });
            }
            true
        } else {
            false
        }
    }

    /// Hands out the contact events of the last step, in order. They can be
    /// read once: the world forgets them here.
    pub fn drain_contact_events(&mut self) -> (events: Vec<ContactEvent>)
        requires
            old(self)@.wf(),
        ensures
            final(self)@.wf(),
            events@ == old(self)@.contacts,
            final(self)@ == old(self)@.drained(),
    {
        let mut events: Vec<ContactEvent> = Vec::new();
        std::mem::swap(&mut self.contacts, &mut events);
        events
    }

    /// Closes the tick. Returns the forces applied during it, oldest first,
    /// for the integrator to apply before it advances time by one fixed
    /// step. Contact events of the step before that were not read are lost.
    pub fn step(&mut self) -> (request: Vec<AppliedForce>)
        requires
            old(self)@.wf(),
        ensures
            final(self)@.wf(),
            request@ == old(self)@.forces,
            final(self)@ == old(self)@.stepped(),
            forall|i: int|
                0 <= i < request@.len() ==> final(self)@.accepts_force(#[trigger] request@[i].body),
    {
        let mut request: Vec<AppliedForce> = Vec::new();
        std::mem::swap(&mut self.forces, &mut request);
        self.contacts.clear();
        request
    }

    /// Takes in what the integrator produced for the step just requested.
    /// `outcome.poses[i]` is the new pose of body `i`. Static bodies keep
    /// their pose, and so does a body for which no pose was reported.
    pub fn finish_step(&mut self, outcome: StepOutcome)
        requires
            old(self)@.wf(),
        ensures
            final(self)@.wf(),
            final(self)@ == old(self)@.integrated(outcome@),
    {
        let StepOutcome { poses, contacts } = outcome;
        let n: usize = self.bodies.len();
        let mut i: usize = 0;
        while i < n
            invariant
                i <= n,
                n == self.bodies@.len(),
                n == old(self)@.bodies.len(),
                self.id == old(self).id,
                self.gravity == old(self).gravity,
                self.forces == old(self).forces,
                self.contacts == old(self).contacts,
                forall|j: int|
                    0 <= j < i ==> self.bodies@[j] == moved_body(
                        #[trigger] old(self)@.bodies[j],
                        poses@,
                        j,
                    ),
                forall|j: int| i <= j < n ==> self.bodies@[j] == #[trigger] old(self)@.bodies[j],
            decreases n - i,
        {
            if i < poses.len() && !self.bodies[i].is_static {
                let body: Body = self.bodies[i];
                self.bodies.set(i, Body { pose: poses[i], ..body });
            }
            i += 1;
        }
        self.contacts = contacts;
        assert(self@.bodies =~= old(self)@.integrated(outcome@).bodies);
    }
}

} // verus!
