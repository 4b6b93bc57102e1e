//! The order of work within an integration step.
//!
//! A step over `n` bodies first lets every unordered pair of bodies exchange
//! force exactly once, and only then moves every body by its velocity. The
//! host performs the arithmetic of each action; the [`Stepper`] decides which
//! action is due, so that the order is the same on the live bodies and on a
//! detached look-ahead copy of them.

use crate::scalar::{Scalar, Vec2};
use vstd::prelude::*;

verus! {

/// Number of integration steps that a look-ahead simulates.
pub const PREDICTION_STEPS: usize = 5000;

/// One unit of work that the host performs on its bodies.
#[derive(Clone, Copy, Debug, PartialEq, Eq, Structural)]
pub enum Action {
    /// Bodies `first` and `second` exchange one force: `first` is pulled
    /// towards `second`, `second` by the opposite force towards `first`.
    /// Each adds its share to its acceleration, and its velocity takes up
    /// that share at once.
    Interact { first: usize, second: usize },
    /// Body `body` moves by its velocity times the step size.
    Advance { body: usize },
    /// No work is left.
    Finished,
}

/// Whether the force between two bodies is defined: they stand at different
/// places, the square of their distance is a finite number above zero, and
/// so is each mass. A pair for which it is not exchanges no force in that
/// step, so that no division by zero and no missing number enters any
/// velocity.
pub open spec fn force_defined(
    first: Vec2,
    second: Vec2,
    distance_squared: Scalar,
    first_mass: Scalar,
    second_mass: Scalar,
) -> bool {
    &&& !first.same_point(second)
    &&& distance_squared.denotes_positive()
    &&& first_mass.denotes_positive()
    &&& second_mass.denotes_positive()
}

/// Decides whether the pair at `first` and `second` exchanges force.
pub fn exchanges_force(
    first: Vec2,
    second: Vec2,
    distance_squared: Scalar,
    first_mass: Scalar,
    second_mass: Scalar,
) -> (r: bool)
    ensures
        r == force_defined(first, second, distance_squared, first_mass, second_mass),
{
    !first.coincides(second) && distance_squared.is_positive() && first_mass.is_positive()
        && second_mass.is_positive()
}

/// Number of unordered pairs among `n` bodies.
pub open spec fn pair_count(n: nat) -> nat
    decreases n,
{
    if n == 0 {
        0
    } else {
        pair_count((n - 1) as nat) + (n - 1) as nat
    }
}

/// The pairs among the first `n` bodies in the order in which they meet: the
/// pairs among the first `n - 1` bodies, then the last body with each earlier
/// one. The later body of a pair stands first.
pub open spec fn pairs(n: nat) -> Seq<(nat, nat)>
    decreases n,
{
    if n == 0 {
        Seq::empty()
    } else {
        pairs((n - 1) as nat) + Seq::new((n - 1) as nat, |j: int| ((n - 1) as nat, j as nat))
    }
}

/// Position, among the pairs of a step, of the pair of body `later` with the
/// body `earlier` that precedes it.
pub open spec fn pair_index(later: nat, earlier: nat) -> int {
    (pair_count(later) + earlier) as int
}

/// Number of actions in one step over `n` bodies.
pub open spec fn step_len(n: nat) -> nat {
    pair_count(n) + n
}

/// The actions of one step over `n` bodies: every pair, then every body.
pub open spec fn step_actions(n: nat) -> Seq<Action> {
    Seq::new(
        step_len(n),
        |k: int|
            if k < pair_count(n) {
                Action::Interact {
                    first: pairs(n)[k].0 as usize,
                    second: pairs(n)[k].1 as usize,
                }
            } else {
                Action::Advance { body: (k - pair_count(n)) as usize }
            },
    )
}

proof fn lemma_pairs_len(n: nat)
    ensures
        pairs(n).len() == pair_count(n),
    decreases n,
{
    if n > 0 {
        lemma_pairs_len((n - 1) as nat);
    }
}

proof fn lemma_pair_count_grows(a: nat, b: nat)
    requires
        a <= b,
    ensures
        pair_count(a) <= pair_count(b),
    decreases b,
{
    if a < b {
        lemma_pair_count_grows(a, (b - 1) as nat);
    }
}

/// Where the pair of `later` and `earlier` stands among the pairs of `n`.
proof fn lemma_pair_position(n: nat, later: nat, earlier: nat)
    requires
        earlier < later < n,
    ensures
        pair_index(later, earlier) < pair_count(n),
        pairs(n).len() == pair_count(n),
        pairs(n)[pair_index(later, earlier)] == (later, earlier),
    decreases n,
{
    let m = (n - 1) as nat;
    lemma_pairs_len(n);
    lemma_pairs_len(m);
    if later == m {
    } else {
        lemma_pair_position(m, later, earlier);
    }
}

/// Which pair stands at position `k` among the pairs of `n`.
proof fn lemma_pair_at(n: nat, k: int)
    requires
        0 <= k < pair_count(n),
    ensures
        pairs(n).len() == pair_count(n),
        pairs(n)[k].1 < pairs(n)[k].0 < n,
        k == pair_index(pairs(n)[k].0, pairs(n)[k].1),
    decreases n,
{
    let m = (n - 1) as nat;
    lemma_pairs_len(n);
    lemma_pairs_len(m);
    if k < pair_count(m) {
        lemma_pair_at(m, k);
    }
}

/// Twice the number of pairs among `n` bodies is `n * (n - 1)`.
pub proof fn pair_count_closed_form(n: nat)
    ensures
        2 * pair_count(n) == n * (n - 1),
    decreases n,
{
    if n == 0 {
        assert(n * (n - 1) == 0) by (nonlinear_arith)
            requires
                n == 0,
        ;
    } else {
        let m = (n - 1) as nat;
        pair_count_closed_form(m);
        let half = pair_count(m);
        assert(2 * (half + m) == n * (n - 1)) by (nonlinear_arith)
            requires
                n == m + 1,
                2 * half == m * (m - 1),
        ;
    }
}

/// Within a step every unordered pair of distinct bodies exchanges force
/// exactly once: each listed pair names two bodies of the step, the later
/// one first; no pair is listed twice; and every two bodies are listed.
pub proof fn every_pair_meets_once(n: nat)
    ensures
        pairs(n).len() == pair_count(n),
        forall|k: int| 0 <= k < pairs(n).len() ==> (#[trigger] pairs(n)[k]).1 < pairs(n)[k].0 < n,
        forall|k: int, l: int|
            0 <= k < pairs(n).len() && 0 <= l < pairs(n).len() && k != l ==> #[trigger] pairs(
                n,
            )[k] != #[trigger] pairs(n)[l],
        forall|later: nat, earlier: nat|
            earlier < later < n ==> 0 <= #[trigger] pair_index(later, earlier) < pairs(n).len()
                && pairs(n)[pair_index(later, earlier)] == (later, earlier),
{
    lemma_pairs_len(n);
    assert forall|k: int| 0 <= k < pairs(n).len() implies (#[trigger] pairs(n)[k]).1 < pairs(
        n,
    )[k].0 < n by {
        lemma_pair_at(n, k);
    }
    assert forall|k: int, l: int|
        0 <= k < pairs(n).len() && 0 <= l < pairs(n).len() && k != l implies #[trigger] pairs(
        n,
    )[k] != #[trigger] pairs(n)[l] by {
        lemma_pair_at(n, k);
        lemma_pair_at(n, l);
    }
    assert forall|later: nat, earlier: nat| earlier < later < n implies 0 <= #[trigger] pair_index(
        later,
        earlier,
    ) < pairs(n).len() && pairs(n)[pair_index(later, earlier)] == (later, earlier) by {
        lemma_pair_position(n, later, earlier);
    }
}

/// A step is two passes: all exchanges of force come before any motion, and
/// the second pass moves every body exactly once, in order. No body ever
/// exchanges force with itself.
pub proof fn forces_precede_motion(n: nat)
    requires
        n <= usize::MAX,
    ensures
        step_actions(n).len() == pair_count(n) + n,
        forall|k: int|
            0 <= k < pair_count(n) ==> (#[trigger] step_actions(n)[k]) is Interact
                && step_actions(n)[k]->second < step_actions(n)[k]->first < n,
        forall|b: int|
            0 <= b < n ==> #[trigger] step_actions(n)[pair_count(n) + b] == (Action::Advance {
                body: b as usize,
            }),
{
    assert forall|k: int| 0 <= k < pair_count(n) implies (#[trigger] step_actions(n)[k]) is Interact
        && step_actions(n)[k]->second < step_actions(n)[k]->first < n by {
        lemma_pair_at(n, k);
    }
}

/// A lone body feels no force: its step is a single motion. A step over no
/// bodies holds no work at all.
pub proof fn lone_body_only_drifts()
    ensures
        step_actions(0).len() == 0,
        step_actions(1) =~= seq![Action::Advance { body: 0 }],
{
    reveal_with_fuel(pair_count, 3);
}

/// A cursor over the actions of a run of integration steps.
#[derive(Clone, Copy, Debug)]
pub struct Stepper {
    bodies: usize,
    steps: usize,
    step: usize,
    outer: usize,
    inner: usize,
}

impl Stepper {
    /// Number of bodies in every step of the run.
    pub closed spec fn bodies(&self) -> nat {
        self.bodies as nat
    }

    /// Number of steps in the run.
    pub closed spec fn steps(&self) -> nat {
        self.steps as nat
    }

    /// Number of steps completed so far.
    pub closed spec fn step(&self) -> nat {
        self.step as nat
    }

    /// Number of actions already handed out within the current step.
    pub closed spec fn offset(&self) -> nat {
        pair_count(self.outer as nat) + self.inner as nat
    }

    /// No action is left: all steps are done, or there are no bodies.
    pub open spec fn finished(&self) -> bool {
        self.step() >= self.steps() || self.bodies() == 0
    }

    /// The cursor points at an action of its run.
    pub closed spec fn wf(&self) -> bool {
        &&& self.step <= self.steps
        &&& self.finished() ==> self.outer == 1 && self.inner == 0
        &&& !self.finished() ==> {
            &&& 1 <= self.outer <= self.bodies
            &&& self.outer < self.bodies ==> self.inner < self.outer
            &&& self.outer == self.bodies ==> self.inner < self.bodies
        }
    }

    /// Number of actions that are still to be handed out.
    pub open spec fn remaining(&self) -> nat {
        if self.finished() {
            0
        } else {
            ((self.steps() - self.step()) * step_len(self.bodies()) - self.offset()) as nat
        }
    }

    /// `self` is `prev` moved past one action: one further within the step,
    /// or at the start of the next step after the last action of a step.
    pub open spec fn follows(&self, prev: &Stepper) -> bool {
        &&& self.bodies() == prev.bodies()
        &&& self.steps() == prev.steps()
        &&& prev.offset() + 1 < step_len(prev.bodies()) ==> self.step() == prev.step()
            && self.offset() == prev.offset() + 1
        &&& prev.offset() + 1 >= step_len(prev.bodies()) ==> self.step() == prev.step() + 1
            && self.offset() == 0
    }

    /// A cursor over at least one body that has no work left stands at the
    /// end of its last step.
    pub proof fn finished_at_boundary(&self)
        requires
            self.wf(),
            self.finished(),
            self.bodies() > 0,
        ensures
            self.step() == self.steps(),
            self.offset() == 0,
    {
        reveal_with_fuel(pair_count, 2);
    }

    /// Completing a step lowers the work that is left by the length of a
    /// step.
    proof fn one_step_costs_its_length(&self)
        requires
            self.step() < self.steps(),
        ensures
            (self.steps() - self.step()) * step_len(self.bodies()) == (self.steps() - (self.step()
                + 1)) * step_len(self.bodies()) + step_len(self.bodies()),
            self.step() + 1 == self.steps() ==> (self.steps() - self.step()) * step_len(
                self.bodies(),
            ) == step_len(self.bodies()),
    {
        let left = self.steps() - self.step();
        let len = step_len(self.bodies());
        assert(left * len == (left - 1) * len + len) by (nonlinear_arith);
        assert(left == 1 ==> left * len == len) by (nonlinear_arith);
    }

    /// Work is left exactly as long as the cursor is not finished, so a host
    /// that asks for one action after the other comes to an end after
    /// `remaining()` of them.
    pub proof fn work_is_left_until_finished(&self)
        requires
            self.wf(),
        ensures
            self.remaining() == 0 <==> self.finished(),
    {
        if !self.finished() {
            self.offset_in_step();
            let left = self.steps() - self.step();
            let len = step_len(self.bodies());
            assert(left * len >= len) by (nonlinear_arith)
                requires
                    left >= 1,
                    len >= 0,
            ;
        }
    }

    /// While work is left the offset stays within the step.
    pub proof fn offset_in_step(&self)
        requires
            self.wf(),
            !self.finished(),
        ensures
            self.offset() < step_len(self.bodies()),
    {
        if self.outer < self.bodies {
            lemma_pair_position(self.bodies as nat, self.outer as nat, self.inner as nat);
        }
    }

    /// A cursor at the start of a run of `steps` steps over `bodies` bodies.
    pub fn new(bodies: usize, steps: usize) -> (r: Stepper)
        ensures
            r.wf(),
            r.bodies() == bodies,
            r.steps() == steps,
            r.step() == 0,
            r.offset() == 0,
            r.remaining() == steps * step_len(bodies as nat),
    {
        proof {
            reveal_with_fuel(pair_count, 2);
            assert(bodies == 0 ==> steps * step_len(bodies as nat) == 0) by (nonlinear_arith)
                requires
                    bodies == 0 ==> step_len(bodies as nat) == 0,
            ;
            assert(steps == 0 ==> steps * step_len(bodies as nat) == 0) by (nonlinear_arith);
        }
        Stepper { bodies, steps, step: 0, outer: 1, inner: 0 }
    }

    /// A cursor over the single step of one tick of the live simulation.
    pub fn for_tick(bodies: usize) -> (r: Stepper)
        ensures
            r.wf(),
            r.bodies() == bodies,
            r.steps() == 1,
            r.step() == 0,
            r.offset() == 0,
            r.remaining() == 1 * step_len(bodies as nat),
    {
        Stepper::new(bodies, 1)
    }

    /// A cursor over the steps of one look-ahead.
    pub fn for_prediction(bodies: usize) -> (r: Stepper)
        ensures
            r.wf(),
            r.bodies() == bodies,
            r.steps() == PREDICTION_STEPS,
            r.step() == 0,
            r.offset() == 0,
            r.remaining() == PREDICTION_STEPS * step_len(bodies as nat),
    {
        Stepper::new(bodies, PREDICTION_STEPS)
    }

    pub fn body_count(&self) -> (r: usize)
        ensures
            r == self.bodies(),
    {
        self.bodies
    }

    pub fn total_steps(&self) -> (r: usize)
        ensures
            r == self.steps(),
    {
        self.steps
    }

    pub fn completed_steps(&self) -> (r: usize)
        ensures
            r == self.step(),
    {
        self.step
    }

    pub fn is_finished(&self) -> (r: bool)
        ensures
            r == self.finished(),
    {
        self.step >= self.steps || self.bodies == 0
    }

    /// The action that is due, without moving the cursor.
    pub fn peek(&self) -> (action: Action)
        requires
            self.wf(),
        ensures
            self.finished() ==> action == Action::Finished,
            !self.finished() ==> self.offset() < step_len(self.bodies()) && action == step_actions(
                self.bodies(),
            )[self.offset() as int],
            action is Interact ==> action->second < action->first < self.bodies() && self.offset()
                == pair_index(action->first as nat, action->second as nat),
            action is Advance ==> action->body < self.bodies() && self.offset() == pair_count(
                self.bodies(),
            ) + action->body,
    {
        if self.step >= self.steps || self.bodies == 0 {
            Action::Finished
        } else if self.outer < self.bodies {
            proof {
                lemma_pair_position(self.bodies as nat, self.outer as nat, self.inner as nat);
            }
            Action::Interact { first: self.outer, second: self.inner }
        } else {
            Action::Advance { body: self.inner }
        }
    }

    /// Hands out the action that is due and moves the cursor past it. A
    /// finished cursor stays where it is and answers `Finished`.
    pub fn next(&mut self) -> (action: Action)
        requires
            old(self).wf(),
        ensures
            final(self).wf(),
            final(self).bodies() == old(self).bodies(),
            final(self).steps() == old(self).steps(),
            old(self).finished() ==> action == Action::Finished && *final(self) == *old(self),
            !old(self).finished() ==> {
                &&& old(self).offset() < step_len(old(self).bodies())
                &&& action == step_actions(old(self).bodies())[old(self).offset() as int]
                &&& final(self).follows(old(self))
                &&& final(self).remaining() == old(self).remaining() - 1
            },
            action is Interact ==> {
                &&& action->second < action->first < old(self).bodies()
                &&& old(self).offset() == pair_index(action->first as nat, action->second as nat)
            },
            action is Advance ==> action->body < old(self).bodies() && old(self).offset()
                == pair_count(old(self).bodies()) + action->body,
    {
        let action = self.peek();
        proof {
            reveal_with_fuel(pair_count, 2);
            if !self.finished() {
                self.one_step_costs_its_length();
            }
        }
        if self.step >= self.steps || self.bodies == 0 {
        } else if self.outer < self.bodies {
            proof {
                lemma_pair_position(self.bodies as nat, self.outer as nat, self.inner as nat);
                lemma_pair_count_grows((self.outer + 1) as nat, self.bodies as nat);
            }
            if self.inner + 1 < self.outer {
                self.inner = self.inner + 1;
            } else {
                self.outer = self.outer + 1;
                self.inner = 0;
            }
        } else {
            if self.inner + 1 < self.bodies {
                self.inner = self.inner + 1;
            } else {
                self.step = self.step + 1;
                self.outer = 1;
                self.inner = 0;
            }
        }
        action
    }
}

} // verus!
