//! An ordered list of waypoints with a cursor.
use vstd::prelude::*;

verus! {

/// Why no further goal could be handed out.
#[derive(Clone, Copy, Debug, PartialEq, Eq, Structural)]
pub enum PlannerError {
    /// The cursor has passed the last waypoint.
    Exhausted,
}

/// A path planner: a start pose, the waypoints to drive through, and the
/// index of the next waypoint to hand out.
///
/// Coordinates are in micrometres, the start heading in microdegrees.
#[derive(Debug)]
pub struct Planner {
    pub start: (i64, i64, i64),
    pub points: Vec<(i64, i64)>,
    pub pos: usize,
}

/// Creates a path planner that starts at `init` and drives through `points`
/// in order.
pub fn from_points(init: (i64, i64, i64), points: &[(i64, i64)]) -> (r: Planner)
    ensures
        r.wf(),
        r.start == init,
        r.points@ == points@,
        r.pos == 0,
{
    let mut planner = Planner::new(init);
    let mut i: usize = 0;
    while i < points.len()
        invariant
            i <= points@.len(),
            planner.start == init,
            planner.pos == 0,
            planner.points@ == points@.subrange(0, i as int),
        decreases points@.len() - i,
    {
        planner.push(points[i].0, points[i].1);
        i = i + 1;
    }
    assert(planner.points@ =~= points@);
    planner
}

/// The planner and the result after one call of `next_goal`.
pub open spec fn next_goal_spec(p: Planner) -> (Planner, Result<(i64, i64), PlannerError>) {
    if p.pos < p.points@.len() {
        (Planner { pos: (p.pos + 1) as usize, ..p }, Ok(p.points@[p.pos as int]))
    } else {
        (p, Err(PlannerError::Exhausted))
    }
}

/// The results of `n` calls of `next_goal`, in order.
pub open spec fn goals(p: Planner, n: nat) -> Seq<Result<(i64, i64), PlannerError>>
    decreases n,
{
    if n == 0 {
        Seq::empty()
    } else {
        let (q, r) = next_goal_spec(p);
        seq![r] + goals(q, (n - 1) as nat)
    }
}

/// Waypoints come back in the order they were pushed: from a rewound
/// planner, the first `len` calls of `next_goal` give the waypoints one by
/// one, every further call fails with `Exhausted`, and after `restart` the
/// first waypoint comes again.
pub proof fn lemma_waypoints_in_order(p: Planner, extra: nat)
    requires
        p.pos == 0,
        p.points@.len() <= usize::MAX,
    ensures
        goals(p, p.points@.len() + extra).len() == p.points@.len() + extra,
        forall|i: int|
            0 <= i < p.points@.len() ==> #[trigger] goals(p, p.points@.len() + extra)[i] == Ok::<
                (i64, i64),
                PlannerError,
            >(p.points@[i]),
        forall|i: int|
            p.points@.len() <= i < p.points@.len() + extra ==> #[trigger] goals(p, p.points@.len() + extra)[i]
                == Err::<(i64, i64), PlannerError>(PlannerError::Exhausted),
        p.points@.len() > 0 ==> next_goal_spec(Planner { pos: 0, ..p }).1 == Ok::<
            (i64, i64),
            PlannerError,
        >(p.points@[0]),
{
    lemma_goals_from(p, (p.points@.len() + extra) as nat);
}

proof fn lemma_goals_from(p: Planner, n: nat)
    requires
        p.pos <= p.points@.len(),
        p.points@.len() <= usize::MAX,
    ensures
        goals(p, n).len() == n,
        forall|i: int|
            0 <= i < n ==> #[trigger] goals(p, n)[i] == (if p.pos + i < p.points@.len() {
                Ok::<(i64, i64), PlannerError>(p.points@[p.pos + i])
            } else {
                Err::<(i64, i64), PlannerError>(PlannerError::Exhausted)
            }),
    decreases n,
{
    if n > 0 {
        let (q, r) = next_goal_spec(p);
        lemma_goals_from(q, (n - 1) as nat);
        assert forall|i: int| 0 <= i < n implies goals(p, n)[i] == (if p.pos + i < p.points@.len() {
            Ok::<(i64, i64), PlannerError>(p.points@[p.pos + i])
        } else {
            Err::<(i64, i64), PlannerError>(PlannerError::Exhausted)
        }) by {
            assert(goals(p, n) == seq![r] + goals(q, (n - 1) as nat));
            if i > 0 {
                assert(goals(p, n)[i] == goals(q, (n - 1) as nat)[i - 1]);
                assert(q.points@ == p.points@);

            } else {
                assert(goals(p, n)[i] == r);
            }
        }
    }
}

impl Planner {
    /// The cursor never passes the end of the waypoints.
    pub open spec fn wf(&self) -> bool {
        self.pos <= self.points@.len()
    }

    /// A planner that starts at `init`, with no waypoints yet.
    pub fn new(init: (i64, i64, i64)) -> (r: Planner)
        ensures
            r.wf(),
            r.start == init,
            r.points@ == Seq::<(i64, i64)>::empty(),
            r.pos == 0,
    {
        Planner { start: init, points: Vec::new(), pos: 0 }
    }

    /// Adds a point to the end of the list.
    pub fn push(&mut self, x: i64, y: i64)
        ensures
            final(self).points@ == old(self).points@.push((x, y)),
            final(self).start == old(self).start,
            final(self).pos == old(self).pos,
            old(self).wf() ==> final(self).wf(),
    {
        self.points.push((x, y));
    }

    /// The start position and heading.
    pub fn start(&self) -> (r: (i64, i64, i64))
        ensures
            r == self.start,
    {
        self.start
    }

    /// Rewinds the planner: the next goal is the first waypoint again.
    pub fn restart(&mut self)
        ensures
            *final(self) == (Planner { pos: 0, ..*old(self) }),
            final(self).wf(),
    {
        self.pos = 0;
    }

    /// Hands out the waypoint at the cursor and advances the cursor; fails
    /// with `Exhausted` once every waypoint was handed out.
    pub fn next_goal(&mut self) -> (r: Result<(i64, i64), PlannerError>)
        requires
            old(self).wf(),
        ensures
            final(self).wf(),
            (*final(self), r) == next_goal_spec(*old(self)),
            old(self).pos < old(self).points@.len() ==> {
                &&& r == Ok::<(i64, i64), PlannerError>(old(self).points@[old(self).pos as int])
                &&& *final(self) == (Planner { pos: (old(self).pos + 1) as usize, ..*old(self) })
            },
            old(self).pos == old(self).points@.len() ==> {
                &&& r == Err::<(i64, i64), PlannerError>(PlannerError::Exhausted)
                &&& *final(self) == *old(self)
            },
    {
        if self.pos < self.points.len() {
            let index = self.pos;
            self.pos = self.pos + 1;
            Ok(self.points[index])
        } else {
            Err(PlannerError::Exhausted)
        }
    }
}

} // verus!
