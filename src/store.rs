//! Per-body trail slots, addressed by stable integer handles.
use vstd::prelude::*;
use crate::state::Controller;
use crate::trail::{latest, Trail};

verus! {

/// The points a slot's trail holds, or none when it has no trail yet.
pub open spec fn held<P>(t: Option<Seq<P>>) -> Seq<P> {
    match t {
        Some(s) => s,
        None => Seq::empty(),
    }
}

/// One body's entry: its trail capacity and, once recording began, its trail.
struct Slot<P> {
    capacity: usize,
    trail: Option<Trail<P>>,
}

impl<P> Slot<P> {
    closed spec fn view(&self) -> (nat, Option<Seq<P>>) {
        (
            self.capacity as nat,
            match self.trail {
                Some(t) => Some(t@),
                None => None,
            },
        )
    }

    closed spec fn wf(&self) -> bool {
        match self.trail {
            Some(t) => t.cap() == self.capacity as nat,
            None => true,
        }
    }
}

/// Trails of all spawned bodies. A body's handle is its index; at most one
/// trail exists per body, made on its first record and never dropped.
pub struct TrailStore<P> {
    slots: Vec<Slot<P>>,
}

impl<P> View for TrailStore<P> {
    /// Per handle: the trail capacity, and the trail's points if it exists.
    type V = Seq<(nat, Option<Seq<P>>)>;

    closed spec fn view(&self) -> Seq<(nat, Option<Seq<P>>)> {
        self.slots@.map_values(|s: Slot<P>| s.view())
    }
}

impl<P> TrailStore<P> {
    /// Every existing trail has the capacity of its body.
    pub closed spec fn wf(&self) -> bool {
        forall|i: int| 0 <= i < self.slots@.len() ==> (#[trigger] self.slots@[i]).wf()
    }

    /// A store with no bodies.
    pub fn new() -> (r: TrailStore<P>)
        ensures
            r.wf(),
            r@ == Seq::<(nat, Option<Seq<P>>)>::empty(),
    {
        let r = TrailStore { slots: Vec::new() };
        assert(r@ =~= Seq::<(nat, Option<Seq<P>>)>::empty());
        r
    }

    /// How many bodies have been spawned.
    pub fn len(&self) -> (r: usize)
        ensures
            r == self@.len(),
    {
        self.slots.len()
    }

    /// Registers a new body whose trail keeps `trail_capacity` points, and
    /// returns its handle. The body has no trail until its first record.
    pub fn spawn(&mut self, trail_capacity: usize) -> (h: usize)
        requires
            old(self).wf(),
        ensures
            final(self).wf(),
            h == old(self)@.len(),
            final(self)@ == old(self)@.push((trail_capacity as nat, None::<Seq<P>>)),
    {
        let h = self.slots.len();
        self.slots.push(Slot { capacity: trail_capacity, trail: None });
        assert(self@ =~= old(self)@.push((trail_capacity as nat, None::<Seq<P>>)));
        h
    }

    /// Records `p` in body `h`'s trail, making the trail first if the body
    /// has none. The trail then holds the latest points up to its capacity.
    pub fn record(&mut self, h: usize, p: P)
        requires
            old(self).wf(),
            h < old(self)@.len(),
        ensures
            final(self).wf(),
            final(self)@ == old(self)@.update(
                h as int,
                (
                    old(self)@[h as int].0,
                    Some(latest(held(old(self)@[h as int].1).push(p), old(self)@[h as int].0)),
                ),
            ),
    {
        let cap = self.slots[h].capacity;
        let mut slot = self.slots.remove(h);
        let ghost prior = slot.view();
        let t = match slot.trail {
            Some(mut t) => {
                t.record(p);
                t
            },
            None => {
                proof {
                    assert(Seq::<P>::empty().push(p) =~= seq![p]);
                }
                Trail::seeded(cap, p)
            },
        };
        self.slots.insert(h, Slot { capacity: cap, trail: Some(t) });
        proof {
            assert(self.slots@ =~= old(self).slots@.update(h as int, self.slots@[h as int]));
            assert(self@ =~= old(self)@.update(
                h as int,
                (prior.0, Some(latest(held(prior.1).push(p), prior.0))),
            ));
        }
    }

    /// Records `p` in body `h`'s trail only while the controller lets trails
    /// advance (running, and trails shown); otherwise changes nothing.
    pub fn record_gated(&mut self, control: &Controller, h: usize, p: P)
        requires
            old(self).wf(),
            h < old(self)@.len(),
        ensures
            final(self).wf(),
            control.trails_on() ==> final(self)@ == old(self)@.update(
                h as int,
                (
                    old(self)@[h as int].0,
                    Some(latest(held(old(self)@[h as int].1).push(p), old(self)@[h as int].0)),
                ),
            ),
            !control.trails_on() ==> final(self)@ == old(self)@,
    {
        if control.trails_enabled() {
            self.record(h, p);
        }
    }

    /// Body `h`'s trail points, oldest first, or `None` before its first record.
    pub fn snapshot(&self, h: usize) -> (r: Option<&Vec<P>>)
        requires
            self.wf(),
            h < self@.len(),
        ensures
            match r {
                Some(v) => self@[h as int].1 == Some(v@),
                None => self@[h as int].1 is None,
            },
    {
        match &self.slots[h].trail {
            Some(t) => Some(t.points()),
            None => None,
        }
    }

    /// Body `h`'s trail capacity.
    pub fn capacity(&self, h: usize) -> (r: usize)
        requires
            h < self@.len(),
        ensures
            r == self@[h as int].0,
    {
        self.slots[h].capacity
    }
}

} // verus!
