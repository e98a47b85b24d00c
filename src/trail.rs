//! Fixed-capacity, oldest-first-evicted position history of one body.
use vstd::prelude::*;

verus! {

/// The last `n` elements of `s`, or all of `s` when it is no longer.
pub open spec fn latest<P>(s: Seq<P>, n: nat) -> Seq<P> {
    if s.len() <= n {
        s
    } else {
        s.subrange(s.len() - n, s.len() as int)
    }
}

/// What a trail of capacity `cap` holds after recording each point of `h`
/// in turn, starting empty.
pub open spec fn replay<P>(cap: nat, h: Seq<P>) -> Seq<P>
    decreases h.len(),
{
    if h.len() == 0 {
        Seq::empty()
    } else {
        latest(replay(cap, h.drop_last()).push(h.last()), cap)
    }
}

/// A bounded history of points, in the order they were recorded.
pub struct Trail<P> {
    capacity: usize,
    points: Vec<P>,
}

impl<P> View for Trail<P> {
    type V = Seq<P>;

    closed spec fn view(&self) -> Seq<P> {
        self.points@
    }
}

impl<P> Trail<P> {
    /// The most points the trail keeps.
    pub closed spec fn cap(&self) -> nat {
        self.capacity as nat
    }

    /// An empty trail keeping at most `capacity` points.
    pub fn new(capacity: usize) -> (r: Trail<P>)
        ensures
            r@ == Seq::<P>::empty(),
            r.cap() == capacity,
    {
        Trail { capacity, points: Vec::new() }
    }

    /// A trail seeded with `first` as its sole point (none when the capacity
    /// is zero).
    pub fn seeded(capacity: usize, first: P) -> (r: Trail<P>)
        ensures
            r@ == latest(seq![first], capacity as nat),
            r.cap() == capacity,
            r@.len() <= r.cap(),
    {
        let mut t = Trail::new(capacity);
        t.record(first);
        proof {
            assert(Seq::<P>::empty().push(first) =~= seq![first]);
        }
        t
    }

    /// The most points the trail keeps.
    pub fn capacity(&self) -> (r: usize)
        ensures
            r == self.cap(),
    {
        self.capacity
    }

    /// How many points the trail holds.
    pub fn len(&self) -> (r: usize)
        ensures
            r == self@.len(),
    {
        self.points.len()
    }

    /// The points, oldest first.
    pub fn points(&self) -> (r: &Vec<P>)
        ensures
            r@ == self@,
    {
        &self.points
    }

    /// Appends `p`, dropping the oldest points until at most `cap()` remain.
    pub fn record(&mut self, p: P)
        ensures
            final(self)@ == latest(old(self)@.push(p), old(self).cap()),
            final(self).cap() == old(self).cap(),
            final(self)@.len() <= final(self).cap(),
    {
        self.points.push(p);
        let ghost full = self.points@;
        let ghost cap = self.capacity as nat;
        while self.points.len() > self.capacity
            invariant
                self.capacity as nat == cap,
                self.points@.len() <= full.len(),
                self.points@ == full.subrange(full.len() - self.points@.len(), full.len() as int),
                full.len() > cap ==> self.points@.len() >= cap,
                full.len() <= cap ==> self.points@.len() == full.len(),
            decreases self.points.len(),
        {
            self.points.remove(0);
        }
        proof {
            if full.len() <= cap {
                assert(self.points@ =~= full);
            }
        }
    }
}

/// The colour a trail is drawn in: its own, else its body's, else `neutral`.
pub fn trail_color<C>(trail: Option<C>, body: Option<C>, neutral: C) -> (r: C)
    ensures
        r == match trail {
            Some(c) => c,
            None => match body {
                Some(c) => c,
                None => neutral,
            },
        },
{
    match trail {
        Some(c) => c,
        None => match body {
            Some(c) => c,
            None => neutral,
        },
    }
}

/// Recording into an already trimmed history keeps the same points as
/// recording into the whole history.
pub proof fn lemma_latest_push<P>(s: Seq<P>, p: P, n: nat)
    ensures
        latest(latest(s, n).push(p), n) == latest(s.push(p), n),
{
    if s.len() > n {
        assert(latest(latest(s, n).push(p), n) =~= latest(s.push(p), n));
    }
}

/// A trail of capacity `cap` that has recorded the points of `h`, in order,
/// holds exactly the last `cap` of them (all of them when there are fewer),
/// and so never more than `cap`.
pub proof fn lemma_trail_keeps_latest<P>(cap: nat, h: Seq<P>)
    ensures
        replay(cap, h) == latest(h, cap),
        replay(cap, h).len() <= cap,
    decreases h.len(),
{
    if h.len() > 0 {
        lemma_trail_keeps_latest(cap, h.drop_last());
        lemma_latest_push(h.drop_last(), h.last(), cap);
        assert(h.drop_last().push(h.last()) =~= h);
    }
}

} // verus!
