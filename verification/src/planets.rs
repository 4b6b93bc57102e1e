//! The bodies of the simulation: their records, their identities, the edits
//! that are admitted, and the hand-over of staged velocities on resume.

use crate::scalar::{Scalar, Vec2};
use crate::schedule::{step_len, Stepper, PREDICTION_STEPS};
use crate::trajectory::Predictor;
use crate::world::{Game, GameState, Signal, Work};
use vstd::prelude::*;

verus! {

/// Pattern of 10, the strength of a newly spawned body.
pub const DEFAULT_GRAVITY_BITS: u32 = 0x4120_0000;

/// Pattern of 100, the radius of a newly spawned body.
pub const DEFAULT_RADIUS_BITS: u32 = 0x42c8_0000;

/// One simulated mass. Its mass is not stored: it derives from `gravity` and
/// `radius`.
#[derive(Clone, Copy, Debug, PartialEq, Eq, Structural)]
pub struct Planet {
    /// Identity of the body: its number in order of creation, from 1.
    pub id: u32,
    pub position: Vec2,
    pub velocity: Vec2,
    /// The acceleration that the last integration step computed.
    pub acceleration: Vec2,
    /// A velocity staged while paused, to be added once on resume.
    pub initial_velocity: Vec2,
    pub gravity: Scalar,
    pub radius: Scalar,
}

/// Why an operation on the bodies was refused.
#[derive(Clone, Copy, Debug, PartialEq, Eq, Structural)]
pub enum EditError {
    /// No body has the given identity.
    UnknownPlanet,
    /// A strength or radius does not denote a finite number above zero.
    NotPositive,
    /// A coordinate does not denote a finite number.
    NotFinite,
    /// Motion can be stored only while the simulation runs.
    NotRunning,
    /// The bodies handed in are not the stored bodies after some motion.
    Mismatch,
    /// The identities have run out.
    Full,
}

/// What a toggle of the clock did.
#[derive(Debug)]
pub enum Transition {
    /// The simulation was running and is now paused.
    Suspended,
    /// The simulation was paused and now runs. `staged` holds, body by body,
    /// the velocity that was staged and is now to be added to the body's
    /// velocity; the stored staged velocities are zero again.
    Resumed { staged: Vec<Vec2> },
}

impl Planet {
    /// The body that a spawn at `position` creates under identity `id`: at
    /// rest, nothing staged, default strength and radius.
    pub open spec fn fresh(id: u32, position: Vec2) -> Planet {
        Planet {
            id,
            position,
            velocity: Vec2::zero_value(),
            acceleration: Vec2::zero_value(),
            initial_velocity: Vec2::zero_value(),
            gravity: Scalar { bits: DEFAULT_GRAVITY_BITS },
            radius: Scalar { bits: DEFAULT_RADIUS_BITS },
        }
    }

    /// Every coordinate denotes a finite number, and strength and radius
    /// denote finite numbers above zero.
    pub open spec fn sound(self) -> bool {
        &&& self.position.denotes_finite()
        &&& self.velocity.denotes_finite()
        &&& self.acceleration.denotes_finite()
        &&& self.initial_velocity.denotes_finite()
        &&& self.gravity.denotes_positive()
        &&& self.radius.denotes_positive()
    }

    /// `self` is `other` after some motion: all but position, velocity and
    /// acceleration agree.
    pub open spec fn moved_from(self, other: Planet) -> bool {
        &&& self.id == other.id
        &&& self.initial_velocity == other.initial_velocity
        &&& self.gravity == other.gravity
        &&& self.radius == other.radius
    }

    /// The body with nothing staged.
    pub open spec fn committed(self) -> Planet {
        Planet { initial_velocity: Vec2::zero_value(), ..self }
    }

    /// The body as an integration step finds it: no force has acted on it
    /// yet, so its acceleration is zero.
    pub open spec fn unforced(self) -> Planet {
        Planet { acceleration: Vec2::zero_value(), ..self }
    }

    pub fn is_sound(&self) -> (r: bool)
        ensures
            r == self.sound(),
    {
        self.position.is_finite() && self.velocity.is_finite() && self.acceleration.is_finite()
            && self.initial_velocity.is_finite() && self.gravity.is_positive()
            && self.radius.is_positive()
    }

    pub fn is_moved_from(&self, other: &Planet) -> (r: bool)
        ensures
            r == self.moved_from(*other),
    {
        self.id == other.id && self.initial_velocity == other.initial_velocity && self.gravity
            == other.gravity && self.radius == other.radius
    }
}

/// The staged velocities of `planets`, body by body.
pub open spec fn staged_of(planets: Seq<Planet>) -> Seq<Vec2> {
    Seq::new(planets.len(), |i: int| planets[i].initial_velocity)
}

/// `planets` with nothing staged.
pub open spec fn committed_all(planets: Seq<Planet>) -> Seq<Planet> {
    Seq::new(planets.len(), |i: int| planets[i].committed())
}

/// `planets` as an integration step finds them, every acceleration zero.
pub open spec fn all_unforced(planets: Seq<Planet>) -> Seq<Planet> {
    Seq::new(planets.len(), |i: int| planets[i].unforced())
}

/// `after` holds the bodies of `before`, each after some motion.
pub open spec fn all_moved_from(after: Seq<Planet>, before: Seq<Planet>) -> bool {
    &&& after.len() == before.len()
    &&& forall|i: int| 0 <= i < after.len() ==> (#[trigger] after[i]).moved_from(before[i])
}

/// Every body of `planets` is sound.
pub open spec fn all_sound(planets: Seq<Planet>) -> bool {
    forall|i: int| 0 <= i < planets.len() ==> (#[trigger] planets[i]).sound()
}

/// The bodies are numbered 1, 2, 3, ... in order.
pub open spec fn numbered(planets: Seq<Planet>) -> bool {
    forall|i: int| 0 <= i < planets.len() ==> (#[trigger] planets[i]).id == i + 1
}

/// After a commit nothing is staged, and a second commit hands out zero for
/// every body and changes nothing.
pub proof fn second_commit_adds_nothing(planets: Seq<Planet>)
    ensures
        staged_of(committed_all(planets)).len() == planets.len(),
        forall|i: int|
            0 <= i < planets.len() ==> #[trigger] staged_of(committed_all(planets))[i]
                == Vec2::zero_value(),
        committed_all(committed_all(planets)) =~= committed_all(planets),
{
}

/// A commit touches nothing but what was staged: each body is its former
/// self after no motion at all, and sound bodies stay sound.
pub proof fn commit_keeps_motion(planets: Seq<Planet>)
    ensures
        forall|i: int|
            0 <= i < planets.len() ==> {
                &&& (#[trigger] committed_all(planets)[i]).id == planets[i].id
                &&& committed_all(planets)[i].position == planets[i].position
                &&& committed_all(planets)[i].velocity == planets[i].velocity
                &&& committed_all(planets)[i].acceleration == planets[i].acceleration
                &&& committed_all(planets)[i].gravity == planets[i].gravity
                &&& committed_all(planets)[i].radius == planets[i].radius
            },
        all_sound(planets) ==> all_sound(committed_all(planets)),
        numbered(planets) ==> numbered(committed_all(planets)),
{
}

/// Bodies numbered in order carry pairwise distinct identities.
pub proof fn identities_are_distinct(planets: Seq<Planet>, i: int, j: int)
    requires
        numbered(planets),
        0 <= i < planets.len(),
        0 <= j < planets.len(),
        i != j,
    ensures
        planets[i].id != planets[j].id,
{
}

/// The live simulation: its clock, its settings and its bodies.
#[derive(Debug)]
pub struct Sandbox {
    game: Game,
    state: GameState,
    planets: Vec<Planet>,
}

impl Sandbox {
    /// The bodies, in order of creation.
    pub closed spec fn planets(&self) -> Seq<Planet> {
        self.planets@
    }

    pub closed spec fn state_value(&self) -> GameState {
        self.state
    }

    pub closed spec fn game_value(&self) -> Game {
        self.game
    }

    /// The settings count the bodies, which are numbered in order and sound,
    /// and the step size is the fixed one.
    pub open spec fn wf(&self) -> bool {
        &&& self.game_value().wf()
        &&& self.game_value().count() == self.planets().len()
        &&& numbered(self.planets())
        &&& all_sound(self.planets())
    }

    /// Whether `id` names a body.
    pub open spec fn knows(&self, id: u32) -> bool {
        1 <= id <= self.planets().len()
    }

    /// A paused simulation without bodies.
    pub fn new() -> (r: Sandbox)
        ensures
            r.wf(),
            r.planets().len() == 0,
            r.state_value() == GameState::Paused,
            r.game_value().speed_value().bits == crate::world::INITIAL_SPEED_BITS,
    {
        Sandbox { game: Game::new(), state: GameState::initial(), planets: Vec::new() }
    }

    pub fn state(&self) -> (r: GameState)
        ensures
            r == self.state_value(),
    {
        self.state
    }

    pub fn game(&self) -> (r: Game)
        ensures
            r == self.game_value(),
    {
        self.game
    }

    pub fn planet_count(&self) -> (r: u32)
        requires
            self.wf(),
        ensures
            r == self.planets().len(),
    {
        self.game.planet_count()
    }

    /// The body with identity `id`, if there is one.
    pub fn planet(&self, id: u32) -> (r: Option<Planet>)
        requires
            self.wf(),
        ensures
            self.knows(id) ==> r == Some(self.planets()[id - 1]) && r.unwrap().id == id,
            !self.knows(id) ==> r.is_none(),
    {
        if id >= 1 && id <= self.game.planet_count() {
            Some(self.planets[(id - 1) as usize])
        } else {
            None
        }
    }

    /// A detached copy of all bodies. The simulation is left untouched.
    pub fn snapshot(&self) -> (r: Vec<Planet>)
        ensures
            r@ == self.planets(),
    {
        let mut copy: Vec<Planet> = Vec::new();
        let mut i: usize = 0;
        while i < self.planets.len()
            invariant
                i <= self.planets.len(),
                copy@ == self.planets@.take(i as int),
            decreases self.planets.len() - i,
        {
            copy.push(self.planets[i]);
            assert(self.planets@.take(i + 1) =~= self.planets@.take(i as int).push(
                self.planets@[i as int],
            ));
            i = i + 1;
        }
        assert(self.planets@.take(i as int) =~= self.planets@);
        copy
    }

    /// The bodies as a tick starts on them: a detached copy of all bodies in
    /// which every acceleration is zero, so that the accelerations which the
    /// step accumulates pair by pair are those of this step alone. The
    /// simulation is left untouched.
    pub fn begin_step(&self) -> (r: Vec<Planet>)
        ensures
            r@ == all_unforced(self.planets()),
            all_moved_from(r@, self.planets()),
    {
        let mut copy: Vec<Planet> = Vec::new();
        let mut i: usize = 0;
        while i < self.planets.len()
            invariant
                i <= self.planets.len(),
                copy@ == all_unforced(self.planets@).take(i as int),
            decreases self.planets.len() - i,
        {
            let planet = self.planets[i];
            copy.push(Planet { acceleration: Vec2::zero(), ..planet });
            assert(all_unforced(self.planets@).take(i + 1) =~= all_unforced(self.planets@).take(
                i as int,
            ).push(self.planets@[i as int].unforced()));
            i = i + 1;
        }
        assert(all_unforced(self.planets@).take(i as int) =~= all_unforced(self.planets@));
        copy
    }

    /// Sets the tick rate, clamped to its bounds. Nothing else changes; in
    /// particular the step size does not.
    pub fn set_speed(&mut self, requested: Scalar)
        requires
            old(self).wf(),
        ensures
            final(self).wf(),
            final(self).game_value().speed_value() == crate::world::clamped_speed(requested),
            final(self).game_value().stepsize_value() == old(self).game_value().stepsize_value(),
            final(self).planets() == old(self).planets(),
            final(self).state_value() == old(self).state_value(),
    {
        self.game.set_speed(requested);
    }

    /// Creates a body at `position` and returns its identity, the number of
    /// bodies that now exist. Refused when the position is not finite, and
    /// when the identities have run out.
    pub fn spawn_planet(&mut self, position: Vec2) -> (r: Result<u32, EditError>)
        requires
            old(self).wf(),
        ensures
            final(self).wf(),
            final(self).state_value() == old(self).state_value(),
            final(self).game_value().speed_value() == old(self).game_value().speed_value(),
            match r {
                Ok(id) => {
                    &&& position.denotes_finite()
                    &&& old(self).planets().len() < u32::MAX
                    &&& id == old(self).planets().len() + 1
                    &&& final(self).planets() == old(self).planets().push(
                        Planet::fresh(id, position),
                    )
                },
                Err(e) => {
                    &&& final(self).planets() == old(self).planets()
                    &&& e == EditError::NotFinite <==> !position.denotes_finite()
                    &&& e == EditError::Full <==> {
                        &&& position.denotes_finite()
                        &&& old(self).planets().len() >= u32::MAX
                    }
                    &&& e == EditError::NotFinite || e == EditError::Full
                },
            },
    {
        if !position.is_finite() {
            return Err(EditError::NotFinite);
        }
        match self.game.count_planet() {
            None => Err(EditError::Full),
            Some(id) => {
                let planet = Planet {
                    id,
                    position,
                    velocity: Vec2::zero(),
                    acceleration: Vec2::zero(),
                    initial_velocity: Vec2::zero(),
                    gravity: Scalar::from_bits(DEFAULT_GRAVITY_BITS),
                    radius: Scalar::from_bits(DEFAULT_RADIUS_BITS),
                };
                assert(planet == Planet::fresh(id, position));
                self.planets.push(planet);
                Ok(id)
            },
        }
    }

    fn replace(&mut self, id: u32, planet: Planet)
        requires
            old(self).wf(),
            old(self).knows(id),
            planet.id == id,
            planet.sound(),
        ensures
            final(self).wf(),
            final(self).planets() == old(self).planets().update(id - 1, planet),
            final(self).state_value() == old(self).state_value(),
            final(self).game_value() == old(self).game_value(),
    {
        self.planets.set((id - 1) as usize, planet);
    }

    /// Stages a velocity for body `id`, to be added to its velocity on the
    /// next resume. The clock is not consulted: a velocity staged while
    /// running lies inert until the next resume.
    pub fn stage_velocity(&mut self, id: u32, velocity: Vec2) -> (r: Result<(), EditError>)
        requires
            old(self).wf(),
        ensures
            final(self).wf(),
            final(self).state_value() == old(self).state_value(),
            final(self).game_value() == old(self).game_value(),
            !old(self).knows(id) ==> r == Err::<(), EditError>(EditError::UnknownPlanet),
            old(self).knows(id) && !velocity.denotes_finite() ==> r == Err::<(), EditError>(
                EditError::NotFinite,
            ),
            old(self).knows(id) && velocity.denotes_finite() ==> r.is_ok(),
            r.is_err() ==> final(self).planets() == old(self).planets(),
            r.is_ok() ==> final(self).planets() == old(self).planets().update(
                id - 1,
                (Planet { initial_velocity: velocity, ..old(self).planets()[id - 1] }),
            ),
    {
        match self.planet(id) {
            None => Err(EditError::UnknownPlanet),
            Some(planet) => {
                if !velocity.is_finite() {
                    return Err(EditError::NotFinite);
                }
                self.replace(id, Planet { initial_velocity: velocity, ..planet });
                Ok(())
            },
        }
    }

    /// Sets the strength of body `id`. Only a finite strength above zero is
    /// admitted: no mass derives from a zero, a negative or a missing one.
    pub fn set_gravity(&mut self, id: u32, gravity: Scalar) -> (r: Result<(), EditError>)
        requires
            old(self).wf(),
        ensures
            final(self).wf(),
            final(self).state_value() == old(self).state_value(),
            final(self).game_value() == old(self).game_value(),
            !old(self).knows(id) ==> r == Err::<(), EditError>(EditError::UnknownPlanet),
            old(self).knows(id) && !gravity.denotes_positive() ==> r == Err::<(), EditError>(
                EditError::NotPositive,
            ),
            old(self).knows(id) && gravity.denotes_positive() ==> r.is_ok(),
            r.is_err() ==> final(self).planets() == old(self).planets(),
            r.is_ok() ==> final(self).planets() == old(self).planets().update(
                id - 1,
                (Planet { gravity, ..old(self).planets()[id - 1] }),
            ),
    {
        match self.planet(id) {
            None => Err(EditError::UnknownPlanet),
            Some(planet) => {
                if !gravity.is_positive() {
                    return Err(EditError::NotPositive);
                }
                self.replace(id, Planet { gravity, ..planet });
                Ok(())
            },
        }
    }

    /// Sets the radius of body `id`. Only a finite radius above zero is
    /// admitted: no mass derives from a zero, a negative or a missing one.
    pub fn set_radius(&mut self, id: u32, radius: Scalar) -> (r: Result<(), EditError>)
        requires
            old(self).wf(),
        ensures
            final(self).wf(),
            final(self).state_value() == old(self).state_value(),
            final(self).game_value() == old(self).game_value(),
            !old(self).knows(id) ==> r == Err::<(), EditError>(EditError::UnknownPlanet),
            old(self).knows(id) && !radius.denotes_positive() ==> r == Err::<(), EditError>(
                EditError::NotPositive,
            ),
            old(self).knows(id) && radius.denotes_positive() ==> r.is_ok(),
            r.is_err() ==> final(self).planets() == old(self).planets(),
            r.is_ok() ==> final(self).planets() == old(self).planets().update(
                id - 1,
                (Planet { radius, ..old(self).planets()[id - 1] }),
            ),
    {
        match self.planet(id) {
            None => Err(EditError::UnknownPlanet),
            Some(planet) => {
                if !radius.is_positive() {
                    return Err(EditError::NotPositive);
                }
                self.replace(id, Planet { radius, ..planet });
                Ok(())
            },
        }
    }

    /// Flips the clock, as a toggle signal does. On the move from paused to
    /// running the staged velocities are handed out and reset to zero in the
    /// same call, so that no tick can see them half applied and no later
    /// resume hands them out again. On the move from running to paused no
    /// body changes.
    pub fn toggle(&mut self) -> (r: Transition)
        requires
            old(self).wf(),
        ensures
            final(self).wf(),
            final(self).state_value() == old(self).state_value().after(Signal::Toggle),
            final(self).game_value() == old(self).game_value(),
            r is Resumed <==> old(self).state_value().work_on(Signal::Toggle) == Work::CommitStaged,
            r is Suspended ==> final(self).planets() == old(self).planets(),
            r is Resumed ==> r->staged@ == staged_of(old(self).planets()) && final(self).planets()
                == committed_all(old(self).planets()),
    {
        let (next, work) = self.state.react(Signal::Toggle);
        self.state = next;
        match work {
            Work::CommitStaged => {
                let staged = self.take_staged();
                Transition::Resumed { staged }
            },
            _ => Transition::Suspended,
        }
    }

    /// What `signal` sets in motion in the present state of the clock. The
    /// clock itself moves only by `toggle`.
    pub fn work_on(&self, signal: Signal) -> (r: Work)
        ensures
            r == self.state_value().work_on(signal),
    {
        self.state.react(signal).1
    }

    /// A cursor over the one step of a tick of the bodies as they are.
    pub fn stepper(&self) -> (r: Stepper)
        ensures
            r.wf(),
            r.bodies() == self.planets().len(),
            r.steps() == 1,
            r.step() == 0,
            r.offset() == 0,
            r.remaining() == 1 * step_len(self.planets().len()),
    {
        Stepper::for_tick(self.planets.len())
    }

    /// A look-ahead over the bodies as they are, with empty paths. It holds
    /// nothing of the simulation but the number of its bodies.
    pub fn predictor(&self) -> (r: Predictor)
        ensures
            r.wf(),
            r.cursor().bodies() == self.planets().len(),
            r.cursor().steps() == PREDICTION_STEPS,
            r.cursor().step() == 0,
            r.cursor().offset() == 0,
            r.cursor().remaining() == PREDICTION_STEPS * step_len(self.planets().len()),
            r.paths() == Seq::new(self.planets().len(), |k: int| Seq::<Vec2>::empty()),
    {
        Predictor::new(self.planets.len())
    }

    fn take_staged(&mut self) -> (staged: Vec<Vec2>)
        requires
            old(self).wf(),
        ensures
            final(self).wf(),
            final(self).state_value() == old(self).state_value(),
            final(self).game_value() == old(self).game_value(),
            staged@ == staged_of(old(self).planets()),
            final(self).planets() == committed_all(old(self).planets()),
    {
        let ghost before = self.planets@;
        let mut staged: Vec<Vec2> = Vec::new();
        let mut i: usize = 0;
        while i < self.planets.len()
            invariant
                i <= self.planets.len(),
                self.planets@.len() == before.len(),
                self.game == old(self).game,
                self.state == old(self).state,
                staged@ == staged_of(before).take(i as int),
                forall|k: int|
                    0 <= k < i ==> self.planets@[k] == (#[trigger] before[k]).committed(),
                forall|k: int| i <= k < before.len() ==> self.planets@[k] == #[trigger] before[k],
            decreases self.planets.len() - i,
        {
            let planet = self.planets[i];
            staged.push(planet.initial_velocity);
            self.planets.set(i, Planet { initial_velocity: Vec2::zero(), ..planet });
            assert(staged_of(before).take(i + 1) =~= staged_of(before).take(i as int).push(
                before[i as int].initial_velocity,
            ));
            i = i + 1;
        }
        assert(staged_of(before).take(i as int) =~= staged_of(before));
        assert(self.planets@ =~= committed_all(before));
        proof {
            commit_keeps_motion(before);
        }
        staged
    }

    /// Stores the outcome of motion: `bodies` replace the stored bodies.
    /// Admitted only while the simulation runs, only if `bodies` are the
    /// stored bodies after some motion, and only if every coordinate is
    /// still finite; otherwise nothing changes.
    pub fn store_motion(&mut self, bodies: &Vec<Planet>) -> (r: Result<(), EditError>)
        requires
            old(self).wf(),
        ensures
            final(self).wf(),
            final(self).state_value() == old(self).state_value(),
            final(self).game_value() == old(self).game_value(),
            r == crate::planets::motion_verdict(
                old(self).state_value(),
                old(self).planets(),
                bodies@,
            ),
            r.is_ok() ==> final(self).planets() == bodies@,
            r.is_err() ==> final(self).planets() == old(self).planets(),
    {
        if !self.state.is_running() {
            return Err(EditError::NotRunning);
        }
        if bodies.len() != self.planets.len() {
            return Err(EditError::Mismatch);
        }
        let mut matching: bool = true;
        let mut finite: bool = true;
        let mut i: usize = 0;
        while i < bodies.len()
            invariant
                i <= bodies.len(),
                bodies.len() == self.planets.len(),
                matching == all_moved_from(bodies@.take(i as int), self.planets@.take(i as int)),
                finite == all_sound(bodies@.take(i as int)),
            decreases bodies.len() - i,
        {
            let ghost prefix = bodies@.take(i as int);
            let ghost longer = bodies@.take(i + 1);
            let ghost stored = self.planets@.take(i as int);
            let ghost stored_longer = self.planets@.take(i + 1);
            let same = bodies[i].is_moved_from(&self.planets[i]);
            let sound = bodies[i].is_sound();
            proof {
                assert(longer[i as int] == bodies@[i as int]);
                assert(stored_longer[i as int] == self.planets@[i as int]);
                assert forall|k: int| 0 <= k < i implies longer[k] == prefix[k] && stored_longer[k]
                    == stored[k] by {}
                if matching && same {
                    assert(all_moved_from(longer, stored_longer));
                } else if !same {
                    assert(!longer[i as int].moved_from(stored_longer[i as int]));
                } else {
                    let k = choose|k: int|
                        0 <= k < prefix.len() && !(#[trigger] prefix[k]).moved_from(stored[k]);
                    assert(!longer[k].moved_from(stored_longer[k]));
                }
                if finite && sound {
                    assert(all_sound(longer));
                } else if !sound {
                    assert(!longer[i as int].sound());
                } else {
                    let k = choose|k: int| 0 <= k < prefix.len() && !(#[trigger] prefix[k]).sound();
                    assert(!longer[k].sound());
                }
            }
            matching = matching && same;
            finite = finite && sound;
            i = i + 1;
        }
        assert(bodies@.take(i as int) =~= bodies@);
        assert(self.planets@.take(i as int) =~= self.planets@);
        if !matching {
            return Err(EditError::Mismatch);
        }
        if !finite {
            return Err(EditError::NotFinite);
        }
        self.planets = bodies.clone();
        Ok(())
    }
}

/// The answer to a request to store `bodies` as the outcome of motion of
/// `stored` in clock state `state`.
pub open spec fn motion_verdict(state: GameState, stored: Seq<Planet>, bodies: Seq<Planet>)
    -> Result<(), EditError> {
    if state != GameState::Running {
        Err(EditError::NotRunning)
    } else if !all_moved_from(bodies, stored) {
        Err(EditError::Mismatch)
    } else if !all_sound(bodies) {
        Err(EditError::NotFinite)
    } else {
        Ok(())
    }
}

} // verus!
