//! The look-ahead: predicted paths of all bodies, collected while the host
//! integrates a detached copy of them.
//!
//! A [`Predictor`] never sees the live simulation. It is made from a number
//! of bodies alone, tells the host which action is due, and files each
//! position that the host reports under the body that reached it.

use crate::scalar::Vec2;
use crate::schedule::{pair_count, step_actions, step_len, Action, Stepper, PREDICTION_STEPS};
use vstd::prelude::*;

verus! {

/// The state of one look-ahead.
#[derive(Debug)]
pub struct Predictor {
    stepper: Stepper,
    paths: Vec<Vec<Vec2>>,
}

/// Number of positions that body `body` has reached when `step` steps are
/// complete and `offset` actions of the next one are done, in a run over
/// `bodies` bodies.
pub open spec fn points_due(bodies: nat, step: nat, offset: nat, body: nat) -> nat {
    if offset > pair_count(bodies) + body {
        step + 1
    } else {
        step
    }
}

impl Predictor {
    /// The cursor over the actions of the look-ahead.
    pub closed spec fn cursor(&self) -> Stepper {
        self.stepper
    }

    /// The paths so far: entry `k` holds, in order, the positions reached by
    /// the body with identity `k + 1`.
    pub closed spec fn paths(&self) -> Seq<Seq<Vec2>> {
        Seq::new(self.paths@.len(), |k: int| self.paths@[k]@)
    }

    /// There is one path per body, and each holds one position per motion
    /// that the body has made.
    pub open spec fn wf(&self) -> bool {
        &&& self.cursor().wf()
        &&& self.paths().len() == self.cursor().bodies()
        &&& forall|k: int|
            0 <= k < self.paths().len() ==> (#[trigger] self.paths()[k]).len() == points_due(
                self.cursor().bodies(),
                self.cursor().step(),
                self.cursor().offset(),
                k as nat,
            )
    }

    /// The action that is due in the state of `self`.
    pub open spec fn due(&self) -> Action {
        if self.cursor().finished() {
            Action::Finished
        } else {
            step_actions(self.cursor().bodies())[self.cursor().offset() as int]
        }
    }

    /// A look-ahead of `steps` steps over `bodies` bodies, with empty paths.
    pub fn with_steps(bodies: usize, steps: usize) -> (r: Predictor)
        ensures
            r.wf(),
            r.cursor().bodies() == bodies,
            r.cursor().steps() == steps,
            r.cursor().step() == 0,
            r.cursor().offset() == 0,
            r.cursor().remaining() == steps * step_len(bodies as nat),
            r.paths() == Seq::new(bodies as nat, |k: int| Seq::<Vec2>::empty()),
    {
        let stepper = Stepper::new(bodies, steps);
        let mut paths: Vec<Vec<Vec2>> = Vec::new();
        let mut k: usize = 0;
        while k < bodies
            invariant
                k <= bodies,
                paths@.len() == k,
                forall|j: int| 0 <= j < k ==> (#[trigger] paths@[j])@ == Seq::<Vec2>::empty(),
            decreases bodies - k,
        {
            paths.push(Vec::new());
            k = k + 1;
        }
        let r = Predictor { stepper, paths };
        assert(r.paths() =~= Seq::new(bodies as nat, |k: int| Seq::<Vec2>::empty()));
        r
    }

    /// A look-ahead of the usual length over `bodies` bodies.
    pub fn new(bodies: usize) -> (r: Predictor)
        ensures
            r.wf(),
            r.cursor().bodies() == bodies,
            r.cursor().steps() == PREDICTION_STEPS,
            r.cursor().step() == 0,
            r.cursor().offset() == 0,
            r.cursor().remaining() == PREDICTION_STEPS * step_len(bodies as nat),
            r.paths() == Seq::new(bodies as nat, |k: int| Seq::<Vec2>::empty()),
    {
        Predictor::with_steps(bodies, PREDICTION_STEPS)
    }

    /// The action that the host has to perform next on its copy of the
    /// bodies.
    pub fn pending(&self) -> (action: Action)
        requires
            self.wf(),
        ensures
            action == self.due(),
    {
        self.stepper.peek()
    }

    pub fn is_finished(&self) -> (r: bool)
        ensures
            r == self.cursor().finished(),
    {
        self.stepper.is_finished()
    }

    /// Reports that the two bodies of the pending interaction have exchanged
    /// their force. Answers whether an interaction was pending; if none was,
    /// nothing changes.
    pub fn interaction_done(&mut self) -> (r: bool)
        requires
            old(self).wf(),
        ensures
            final(self).wf(),
            r == (old(self).due() is Interact),
            final(self).paths() == old(self).paths(),
            r ==> {
                &&& final(self).cursor().follows(&old(self).cursor())
                &&& final(self).cursor().remaining() == old(self).cursor().remaining() - 1
            },
            !r ==> final(self).cursor() == old(self).cursor(),
    {
        match self.stepper.peek() {
            Action::Interact { first, second } => {
                self.stepper.next();
                true
            },
            _ => false,
        }
    }

    /// Reports the position that the body of the pending motion has reached,
    /// and appends it to that body's path. Answers whether a motion was
    /// pending; if none was, nothing changes.
    pub fn record(&mut self, reached: Vec2) -> (r: bool)
        requires
            old(self).wf(),
        ensures
            final(self).wf(),
            r == (old(self).due() is Advance),
            r ==> {
                &&& final(self).cursor().follows(&old(self).cursor())
                &&& final(self).cursor().remaining() == old(self).cursor().remaining() - 1
                &&& old(self).due()->body < old(self).paths().len()
                &&& final(self).paths() == old(self).paths().update(
                    old(self).due()->body as int,
                    old(self).paths()[old(self).due()->body as int].push(reached),
                )
            },
            !r ==> {
                &&& final(self).cursor() == old(self).cursor()
                &&& final(self).paths() == old(self).paths()
            },
    {
        match self.stepper.peek() {
            Action::Advance { body } => {
                let ghost before = self.paths();
                let ghost bodies = self.cursor().bodies();
                let ghost offset = self.cursor().offset();
                let ghost step = self.cursor().step();
                assert(offset == pair_count(bodies) + body && body < bodies);
                assert(before[body as int].len() == self.paths@[body as int]@.len());
                let mut path: Vec<Vec2> = Vec::new();
                std::mem::swap(&mut path, &mut self.paths[body]);
                path.push(reached);
                self.paths.set(body, path);
                self.stepper.next();
                assert(self.paths() =~= before.update(
                    body as int,
                    before[body as int].push(reached),
                ));
                assert forall|k: int| 0 <= k < self.paths().len() implies (
                #[trigger] self.paths()[k]).len() == points_due(
                    self.cursor().bodies(),
                    self.cursor().step(),
                    self.cursor().offset(),
                    k as nat,
                ) by {
                    assert(before[k].len() == points_due(bodies, step, offset, k as nat));
                }
                true
            },
            _ => false,
        }
    }

    /// The number of positions on the path of body `id`, if there is such a
    /// body.
    pub fn path_len(&self, id: u32) -> (r: Option<usize>)
        requires
            self.wf(),
        ensures
            1 <= id <= self.paths().len() ==> r == Some(self.paths()[id - 1].len() as usize),
            !(1 <= id <= self.paths().len()) ==> r.is_none(),
    {
        if id >= 1 && ((id - 1) as usize) < self.paths.len() {
            assert(self.paths()[id - 1] == self.paths@[id - 1]@);
            Some(self.paths[(id - 1) as usize].len())
        } else {
            None
        }
    }

    /// Position number `index` on the path of body `id`, if there is one.
    pub fn point(&self, id: u32, index: usize) -> (r: Option<Vec2>)
        requires
            self.wf(),
        ensures
            1 <= id <= self.paths().len() && index < self.paths()[id - 1].len() ==> r == Some(
                self.paths()[id - 1][index as int],
            ),
            !(1 <= id <= self.paths().len() && index < self.paths()[id - 1].len())
                ==> r.is_none(),
    {
        if id >= 1 && ((id - 1) as usize) < self.paths.len() {
            assert(self.paths()[id - 1] == self.paths@[id - 1]@);
            let path = &self.paths[(id - 1) as usize];
            if index < path.len() {
                Some(path[index])
            } else {
                None
            }
        } else {
            None
        }
    }

    /// Gives up the look-ahead for its paths: entry `k` is the path of the
    /// body with identity `k + 1`.
    pub fn into_paths(self) -> (r: Vec<Vec<Vec2>>)
        ensures
            r@.len() == self.paths().len(),
            forall|k: int| 0 <= k < r@.len() ==> (#[trigger] r@[k])@ == self.paths()[k],
    {
        self.paths
    }

    /// A finished look-ahead holds, for every body, exactly one position per
    /// step.
    pub proof fn finished_paths_are_complete(&self)
        requires
            self.wf(),
            self.cursor().finished(),
        ensures
            forall|k: int|
                0 <= k < self.paths().len() ==> (#[trigger] self.paths()[k]).len()
                    == self.cursor().steps(),
    {
        if self.cursor().bodies() > 0 {
            self.cursor().finished_at_boundary();
        }
    }
}

} // verus!
