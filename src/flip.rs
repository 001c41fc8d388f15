use vstd::prelude::*;

verus! {

/// Two interchangeable alternatives of one type, exactly one of which is
/// active at any time.
pub struct Flip<T> {
    first: T,
    second: T,
    state: bool,
}

impl<T> Flip<T> {
    /// The alternative that was given first.
    pub closed spec fn first(&self) -> T {
        self.first
    }

    /// The alternative that was given second.
    pub closed spec fn second(&self) -> T {
        self.second
    }

    /// Whether the second alternative is the active one.
    pub closed spec fn is_flipped(&self) -> bool {
        self.state
    }

    /// The alternative that `get` hands out.
    pub open spec fn active(&self) -> T {
        if self.is_flipped() {
            self.second()
        } else {
            self.first()
        }
    }

    /// `next` holds the same two alternatives as `self`, with the other one
    /// active.
    pub open spec fn flips_to(&self, next: Self) -> bool {
        &&& next.first() == self.first()
        &&& next.second() == self.second()
        &&& next.is_flipped() == !self.is_flipped()
    }

    /// A selector whose active alternative is `first`.
    pub fn new(first: T, second: T) -> (r: Flip<T>)
        ensures
            r.first() == first,
            r.second() == second,
            !r.is_flipped(),
    {
        Flip { first, second, state: false }
    }

    /// Makes the other alternative the active one.
    pub fn flip(&mut self)
        ensures
            old(self).flips_to(*final(self)),
    {
        self.state = !self.state;
    }

    /// The active alternative.
    pub fn get(&self) -> (r: &T)
        ensures
            *r == self.active(),
    {
        if self.state {
            &self.second
        } else {
            &self.first
        }
    }
}

/// A fresh selector shows its first alternative, one flip later its second,
/// and two flips later its first again.
pub proof fn lemma_flip_alternates<T>(a: T, b: T, s0: Flip<T>, s1: Flip<T>, s2: Flip<T>)
    requires
        s0.first() == a,
        s0.second() == b,
        !s0.is_flipped(),
        s0.flips_to(s1),
        s1.flips_to(s2),
    ensures
        s0.active() == a,
        s1.active() == b,
        s2.active() == a,
{
}

/// From any state, one flip changes the active alternative (where the two
/// differ) and a second flip restores it.
pub proof fn lemma_flip_twice<T>(s0: Flip<T>, s1: Flip<T>, s2: Flip<T>)
    requires
        s0.flips_to(s1),
        s1.flips_to(s2),
    ensures
        s0.first() != s0.second() ==> s1.active() != s0.active(),
        s2.active() == s0.active(),
{
}

} // verus!
