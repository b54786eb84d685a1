use vstd::prelude::*;

use crate::raster::strokes;

verus! {

/// One step of a replay, for the host to perform.
#[derive(Clone, Copy, Debug, PartialEq, Eq, Structural)]
pub enum Action {
    /// Move the pointer to an absolute screen position.
    MoveTo(i32, i32),
    /// Press the primary button.
    Press,
    /// Release the primary button.
    Release,
    /// The short wait after each point, so that every point registers as motion.
    PointPause,
    /// The longer wait after each stroke: the pen lift.
    StrokePause,
}

/// Moves through the given points, each followed by the short pause.
pub open spec fn moves(c: Seq<(i32, i32)>) -> Seq<Action>
    decreases c.len(),
{
    if c.len() == 0 {
        Seq::empty()
    } else {
        moves(c.drop_last()) + seq![Action::MoveTo(c.last().0, c.last().1), Action::PointPause]
    }
}

/// One stroke: move to the first point, press, walk the remaining points,
/// release, and lift the pen.
pub open spec fn stroke_actions(c: Seq<(i32, i32)>) -> Seq<Action>
    recommends
        c.len() >= 1,
{
    seq![Action::MoveTo(c[0].0, c[0].1), Action::Press, Action::PointPause] + moves(c.subrange(1, c.len() as int))
        + seq![Action::Release, Action::StrokePause]
}

/// The whole replay: the strokes in stored order, leaving out each one whose
/// point count does not exceed `min_points`.
pub open spec fn plan_of(cs: Seq<Seq<(i32, i32)>>, min_points: int) -> Seq<Action>
    decreases cs.len(),
{
    if cs.len() == 0 {
        Seq::empty()
    } else {
        plan_of(cs.drop_last(), min_points) + if cs.last().len() > min_points {
            stroke_actions(cs.last())
        } else {
            Seq::empty()
        }
    }
}

/// Whether the button is down after the given actions.
pub open spec fn held(s: Seq<Action>) -> bool
    decreases s.len(),
{
    if s.len() == 0 {
        false
    } else {
        match s.last() {
            Action::Press => true,
            Action::Release => false,
            _ => held(s.drop_last()),
        }
    }
}

proof fn lemma_held_after_stroke(prefix: Seq<Action>, c: Seq<(i32, i32)>)
    requires
        c.len() >= 1,
    ensures
        !held(prefix + stroke_actions(c)),
{
    let s = prefix + stroke_actions(c);
    assert(s.last() == Action::StrokePause);
    assert(s.drop_last().last() == Action::Release);
    assert(!held(s.drop_last()));
    assert(held(s) == held(s.drop_last()));
}

/// A full replay leaves the button up.
proof fn lemma_plan_ends_released(cs: Seq<Seq<(i32, i32)>>, min_points: int)
    requires
        min_points >= 0,
    ensures
        !held(plan_of(cs, min_points)),
    decreases cs.len(),
{
    if cs.len() > 0 {
        lemma_plan_ends_released(cs.drop_last(), min_points);
        if cs.last().len() > min_points {
            lemma_held_after_stroke(plan_of(cs.drop_last(), min_points), cs.last());
        } else {
            assert(plan_of(cs, min_points) =~= plan_of(cs.drop_last(), min_points));
        }
    }
}

/// The actions of one stroke with at least one point.
fn stroke(c: &Vec<(i32, i32)>) -> (r: Vec<Action>)
    requires
        c.len() >= 1,
    ensures
        r@ == stroke_actions(c@),
{
    let mut out: Vec<Action> = Vec::new();
    out.push(Action::MoveTo(c[0].0, c[0].1));
    out.push(Action::Press);
    out.push(Action::PointPause);
    let ghost head = out@;
    let mut j: usize = 1;
    while j < c.len()
        invariant
            1 <= j <= c.len(),
            out@ == head + moves(c@.subrange(1, j as int)),
        decreases c.len() - j,
    {
        let p = c[j];
        assert(c@.subrange(1, j + 1).drop_last() =~= c@.subrange(1, j as int));
        out.push(Action::MoveTo(p.0, p.1));
        out.push(Action::PointPause);
        assert(out@ =~= head + moves(c@.subrange(1, j + 1)));
        j += 1;
    }
    out.push(Action::Release);
    out.push(Action::StrokePause);
    assert(out@ =~= stroke_actions(c@));
    out
}

/// Lays out the replay of `contours` as a list of actions.
pub fn plan(contours: &Vec<Vec<(i32, i32)>>, min_points: usize) -> (r: Vec<Action>)
    ensures
        r@ == plan_of(strokes(contours@), min_points as int),
{
    let ghost cs = strokes(contours@);
    let mut out: Vec<Action> = Vec::new();
    let mut i: usize = 0;
    while i < contours.len()
        invariant
            0 <= i <= contours.len(),
            cs == strokes(contours@),
            out@ == plan_of(cs.take(i as int), min_points as int),
        decreases contours.len() - i,
    {
        let c = &contours[i];
        assert(cs.take(i + 1).drop_last() =~= cs.take(i as int));
        assert(cs.take(i + 1).last() == c@);
        if c.len() > min_points {
            let s = stroke(c);
            let ghost before = out@;
            let mut k: usize = 0;
            while k < s.len()
                invariant
                    0 <= k <= s.len(),
                    out@ == before + s@.take(k as int),
                decreases s.len() - k,
            {
                out.push(s[k]);
                assert(s@.take(k + 1) =~= s@.take(k as int).push(s@[k as int]));
                assert(out@ =~= before + s@.take(k + 1));
                k += 1;
            }
            assert(s@.take(s.len() as int) =~= s@);
        } else {
            assert(out@ =~= plan_of(cs.take(i + 1), min_points as int));
        }
        i += 1;
    }
    assert(cs.take(contours.len() as int) =~= cs);
    out
}

proof fn lemma_plan_concat(a: Seq<Seq<(i32, i32)>>, b: Seq<Seq<(i32, i32)>>, min_points: int)
    ensures
        plan_of(a + b, min_points) == plan_of(a, min_points) + plan_of(b, min_points),
    decreases b.len(),
{
    if b.len() == 0 {
        assert(a + b =~= a);
        assert(plan_of(a, min_points) + plan_of(b, min_points) =~= plan_of(a, min_points));
    } else {
        assert((a + b).drop_last() =~= a + b.drop_last());
        lemma_plan_concat(a, b.drop_last(), min_points);
        let tail = if b.last().len() > min_points { stroke_actions(b.last()) } else { Seq::empty() };
        assert(plan_of(a, min_points) + plan_of(b.drop_last(), min_points) + tail =~= plan_of(a, min_points) + (
        plan_of(b.drop_last(), min_points) + tail));
    }
}

/// The pass-points filter acts at replay time only: a stroke with no more than
/// `min_points` points contributes nothing to the replay, so the replay of the
/// stored strokes equals the replay of the strokes without it. The stored
/// strokes themselves are only read by `plan`.
pub proof fn lemma_short_strokes_skipped(cs: Seq<Seq<(i32, i32)>>, min_points: int, i: int)
    requires
        0 <= i < cs.len(),
        cs[i].len() <= min_points,
    ensures
        plan_of(cs, min_points) == plan_of(cs.remove(i), min_points),
{
    let a = cs.take(i);
    let b = cs.skip(i + 1);
    let one = seq![cs[i]];
    assert(cs =~= a + one + b);
    assert(cs.remove(i) =~= a + b);
    lemma_plan_concat(a + one, b, min_points);
    lemma_plan_concat(a, one, min_points);
    lemma_plan_concat(a, b, min_points);
    assert(one.drop_last() =~= Seq::<Seq<(i32, i32)>>::empty());
    assert(plan_of(one.drop_last(), min_points) =~= Seq::<Action>::empty());
    assert(one.last() == cs[i]);
    assert(plan_of(one, min_points) =~= Seq::<Action>::empty());
    assert(plan_of(a, min_points) + plan_of(one, min_points) =~= plan_of(a, min_points));
}

/// A replay session: the planned actions and how far it has come.
#[derive(Debug)]
pub struct Replay {
    pub actions: Vec<Action>,
    pub next: usize,
    pub pressed: bool,
    pub finished: bool,
}

impl Replay {
    /// The position is within the plan, `pressed` follows the actions handed
    /// out, and a finished session has the button up.
    pub open spec fn wf(&self) -> bool {
        &&& self.next <= self.actions.len()
        &&& !held(self.actions@)
        &&& self.finished ==> !self.pressed
        &&& !self.finished ==> self.pressed == held(self.actions@.take(self.next as int))
    }

    /// A session over the strokes in their stored order.
    pub fn new(contours: &Vec<Vec<(i32, i32)>>, min_points: usize) -> (r: Replay)
        ensures
            r.wf(),
            r.actions@ == plan_of(strokes(contours@), min_points as int),
            r.next == 0,
            !r.pressed,
            !r.finished,
    {
        let actions = plan(contours, min_points);
        proof {
            lemma_plan_ends_released(strokes(contours@), min_points as int);
            assert(actions@.take(0) =~= Seq::<Action>::empty());
        }
        Replay { actions, next: 0, pressed: false, finished: false }
    }

    /// Hands out the next action. `stop` is the stop request seen before the
    /// step: it ends the session at once, releasing the button first if it is
    /// down. `None` means that the session is over, with the button up.
    pub fn step(&mut self, stop: bool) -> (r: Option<Action>)
        requires
            old(self).wf(),
        ensures
            final(self).wf(),
            final(self).actions@ == old(self).actions@,
            old(self).finished ==> r.is_none() && final(self).finished && final(self).next == old(self).next,
            !old(self).finished && stop ==> {
                &&& final(self).finished
                &&& final(self).next == old(self).next
                &&& r == if old(self).pressed { Some(Action::Release) } else { None::<Action> }
            },
            !old(self).finished && !stop && old(self).next == old(self).actions.len() ==> {
                &&& final(self).finished
                &&& final(self).next == old(self).next
                &&& r.is_none()
            },
            !old(self).finished && !stop && old(self).next < old(self).actions.len() ==> {
                &&& !final(self).finished
                &&& final(self).next == old(self).next + 1
                &&& r == Some(old(self).actions@[old(self).next as int])
            },
            r.is_none() ==> final(self).finished && !final(self).pressed,
    {
        if self.finished {
            return None;
        }
        if stop {
            let was_pressed = self.pressed;
            self.finished = true;
            self.pressed = false;
            return if was_pressed { Some(Action::Release) } else { None };
        }
        if self.next == self.actions.len() {
            proof {
                assert(self.actions@.take(self.next as int) =~= self.actions@);
            }
            self.finished = true;
            return None;
        }
        let a = self.actions[self.next];
        proof {
            let t = self.actions@.take(self.next + 1);
            assert(t.drop_last() =~= self.actions@.take(self.next as int));
            assert(t.last() == a);
        }
        match a {
            Action::Press => self.pressed = true,
            Action::Release => self.pressed = false,
            _ => {},
        }
        self.next = self.next + 1;
        Some(a)
    }
}

} // verus!
