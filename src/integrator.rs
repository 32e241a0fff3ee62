//! The light-transport integrator as a state machine.
//!
//! A path starts with a budget of bounces. While budget is left the scene is
//! queried; a miss ends the path in the sky gradient, a hit with no material
//! or an absorbing material ends it black, and a scattering material spends
//! one unit of budget and continues with the scattered ray. Once the budget is
//! spent the path ends black without querying the scene again. The colour of
//! a path is the product of the attenuations collected on the way times the
//! colour of its end.
use vstd::prelude::*;

verus! {

/// What one scene query, followed by the hit surface's scattering, produced.
#[derive(Clone, Copy, Debug, PartialEq, Eq, Structural)]
pub enum Surface {
    /// Nothing was hit within the valid parametric interval.
    Miss,
    /// The nearest hit has no material attached.
    Bare,
    /// The material absorbed the ray.
    Absorbed,
    /// The material scattered the ray with some attenuation.
    Scattered,
}

/// The colour at which a light path ends.
#[derive(Clone, Copy, Debug, PartialEq, Eq, Structural)]
pub enum Radiance {
    /// No light is gathered.
    Black,
    /// The background gradient for the last ray's direction.
    Sky,
}

/// What the integrator does after one scene query.
#[derive(Clone, Copy, Debug, PartialEq, Eq, Structural)]
pub enum Step {
    /// The path ends with the given colour.
    Stop(Radiance),
    /// The attenuation is collected and the scattered ray is traced.
    Bounce,
}

/// The step that a query outcome calls for, when budget is left.
pub open spec fn step_of(s: Surface) -> Step {
    match s {
        Surface::Miss => Step::Stop(Radiance::Sky),
        Surface::Bare => Step::Stop(Radiance::Black),
        Surface::Absorbed => Step::Stop(Radiance::Black),
        Surface::Scattered => Step::Bounce,
    }
}

/// Adds `k` collected attenuations in front of a path's end.
pub open spec fn shifted(end: Option<(Radiance, nat)>, k: nat) -> Option<(Radiance, nat)> {
    match end {
        Some((r, n)) => Some((r, n + k)),
        None => None,
    }
}

/// How a path with `depth` bounces of budget ends when its successive scene
/// queries give `events`: the end colour and the number of attenuations
/// collected; `None` when the path would query the scene past `events`.
pub open spec fn path_end(depth: int, events: Seq<Surface>) -> Option<(Radiance, nat)>
    decreases events.len(),
{
    if depth <= 0 {
        Some((Radiance::Black, 0))
    } else if events.len() == 0 {
        None
    } else {
        match step_of(events[0]) {
            Step::Stop(r) => Some((r, 0)),
            Step::Bounce => shifted(path_end(depth - 1, events.drop_first()), 1),
        }
    }
}

/// The state of one light path: the budget left and the attenuations collected.
pub struct Path {
    pub remaining: i32,
    pub bounces: u32,
}

impl Path {
    /// The budget already spent and the budget left fit the budget type.
    pub open spec fn wf(&self) -> bool {
        self.bounces as int + self.remaining as int <= i32::MAX
    }

    /// A fresh path with `max_depth` bounces of budget.
    pub fn new(max_depth: i32) -> (r: Path)
        ensures
            r.wf(),
            r.remaining == max_depth,
            r.bounces == 0,
    {
        Path { remaining: max_depth, bounces: 0 }
    }

    /// Whether the scene is still to be queried; once this is false the path
    /// has ended black.
    pub fn live(&self) -> (r: bool)
        ensures
            r == (self.remaining > 0),
    {
        self.remaining > 0
    }

    /// Takes the outcome of the scene query for the current ray.
    pub fn record(&mut self, s: Surface) -> (r: Step)
        requires
            old(self).wf(),
            old(self).remaining > 0,
        ensures
            final(self).wf(),
            r == step_of(s),
            r == Step::Bounce ==> final(self).remaining == old(self).remaining - 1
                && final(self).bounces == old(self).bounces + 1,
            r != Step::Bounce ==> *final(self) == *old(self),
    {
        match s {
            Surface::Miss => Step::Stop(Radiance::Sky),
            Surface::Bare => Step::Stop(Radiance::Black),
            Surface::Absorbed => Step::Stop(Radiance::Black),
            Surface::Scattered => {
                self.remaining = self.remaining - 1;
                self.bounces = self.bounces + 1;
                Step::Bounce
            },
        }
    }
}

/// Runs a path with `max_depth` bounces of budget against the recorded query
/// outcomes `events`; `None` when the path would query past them.
pub fn trace(max_depth: i32, events: &Vec<Surface>) -> (r: Option<(Radiance, u32)>)
    ensures
        match path_end(max_depth as int, events@) {
            Some((e, n)) => r == Some((e, n as u32)),
            None => r.is_none(),
        },
{
    let mut p = Path::new(max_depth);
    let mut k: usize = 0;
    assert(events@.skip(0) =~= events@);
    while p.live()
        invariant
            p.wf(),
            k == p.bounces,
            k <= events@.len(),
            shifted(path_end(p.remaining as int, events@.skip(k as int)), k as nat)
                == path_end(max_depth as int, events@),
        decreases events@.len() - k,
    {
        if k == events.len() {
            assert(events@.skip(k as int).len() == 0);
            return None;
        }
        let ghost rest = events@.skip(k as int);
        assert(rest[0] == events@[k as int]);
        assert(rest.drop_first() =~= events@.skip(k + 1));
        match p.record(events[k]) {
            Step::Stop(e) => {
                return Some((e, p.bounces));
            },
            Step::Bounce => {
                k = k + 1;
            },
        }
    }
    Some((Radiance::Black, p.bounces))
}

/// A path whose budget is spent ends black, having collected no attenuation,
/// whatever the scene would answer.
pub proof fn lemma_spent_budget_is_black(depth: int, events: Seq<Surface>)
    requires
        depth <= 0,
    ensures
        path_end(depth, events) == Some((Radiance::Black, 0nat)),
{
}

/// A path with budget left whose first query misses ends in the sky gradient
/// for its ray, unattenuated, whatever the later queries would answer.
pub proof fn lemma_miss_is_sky(depth: int, events: Seq<Surface>)
    requires
        depth > 0,
        events.len() > 0,
        events[0] == Surface::Miss,
    ensures
        path_end(depth, events) == Some((Radiance::Sky, 0nat)),
{
}

} // verus!
