//! Small duplicate-free containers keyed by user id, used for the admin, ban
//! and mute sets and for the per-user last-message clock of a room.

use vstd::prelude::*;

verus! {

/// A set of user ids, kept as a vector without duplicates.
#[derive(Debug, PartialEq)]
pub struct UserSet {
    pub items: Vec<String>,
}

impl View for UserSet {
    type V = Set<Seq<char>>;

    open spec fn view(&self) -> Set<Seq<char>> {
        Set::new(|u: Seq<char>| exists|i: int| 0 <= i < self.items@.len() && self.items@[i]@ == u)
    }
}

impl UserSet {
    /// No user id occurs twice.
    pub open spec fn wf(self) -> bool {
        forall|i: int, j: int|
            0 <= i < j < self.items@.len() ==> self.items@[i]@ != self.items@[j]@
    }

    pub fn new() -> (r: UserSet)
        ensures
            r.wf(),
            r@ == Set::<Seq<char>>::empty(),
            r.items@.len() == 0,
    {
        let r = UserSet { items: Vec::new() };
        proof {
            assert(r@ =~= Set::<Seq<char>>::empty());
        }
        r
    }

    /// Builds the set from a list of ids, dropping duplicates.
    pub fn from_vec(v: Vec<String>) -> (r: UserSet)
        ensures
            r.wf(),
            forall|u: Seq<char>|
                r@.contains(u) <==> exists|i: int| 0 <= i < v@.len() && v@[i]@ == u,
    {
        let mut r = UserSet::new();
        let mut k: usize = 0;
        while k < v.len()
            invariant
                k <= v.len(),
                r.wf(),
                forall|u: Seq<char>|
                    r@.contains(u) <==> exists|i: int| 0 <= i < k && v@[i]@ == u,
            decreases v.len() - k,
        {
            let e = v[k].clone();
            r.insert(e);
            proof {
                assert forall|u: Seq<char>| r@.contains(u) implies exists|i: int|
                    0 <= i < k + 1 && v@[i]@ == u by {
                    if u == v@[k as int]@ {
                        assert(v@[k as int]@ == u);
                    }
                }
                assert forall|u: Seq<char>|
                    (exists|i: int| 0 <= i < k + 1 && v@[i]@ == u) implies r@.contains(u) by {}
            }
            k += 1;
        }
        r
    }

    pub fn contains(&self, u: &String) -> (r: bool)
        ensures
            r == self@.contains(u@),
    {
        let mut k: usize = 0;
        while k < self.items.len()
            invariant
                k <= self.items.len(),
                forall|i: int| 0 <= i < k ==> self.items@[i]@ != u@,
            decreases self.items.len() - k,
        {
            if self.items[k].eq(u) {
                return true;
            }
            k += 1;
        }
        false
    }

    /// Adds an id; a second add of the same id leaves the set untouched.
    pub fn insert(&mut self, u: String)
        requires
            old(self).wf(),
        ensures
            final (self).wf(),
            final (self)@ == old(self)@.insert(u@),
            old(self)@.contains(u@) ==> *final (self) == *old(self),
            !old(self)@.contains(u@) ==> final (self).items@ == old(self).items@.push(u),
    {
        let ghost uv = u@;
        if !self.contains(&u) {
            self.items.push(u);
            proof {
                let pre = old(self).items@;
                let n = pre.len() as int;
                assert(self.items@[n]@ == uv);
                assert forall|i: int, j: int|
                    0 <= i < j < self.items@.len() implies self.items@[i]@
                    != self.items@[j]@ by {
                    if j < n {
                        assert(pre[i]@ != pre[j]@);
                    } else {
                        assert(self.items@[i]@ == pre[i]@);
                        assert(!old(self)@.contains(uv));
                        assert(pre[i]@ != uv);
                    }
                }
                assert forall|w: Seq<char>| self@.contains(w) implies old(self)@.insert(
                    uv,
                ).contains(w) by {
                    let i = choose|i: int| 0 <= i < self.items@.len() && self.items@[i]@ == w;
                    if i < n {
                        assert(pre[i]@ == w);
                    }
                }
                assert forall|w: Seq<char>| old(self)@.insert(uv).contains(w) implies
                    self@.contains(w) by {
                    if w == uv {
                        assert(self.items@[n]@ == w);
                    } else {
                        let i = choose|i: int| 0 <= i < pre.len() && pre[i]@ == w;
                        assert(self.items@[i]@ == w);
                    }
                }
                assert(self@ =~= old(self)@.insert(uv));
            }
        } else {
            proof {
                assert(self@ =~= old(self)@.insert(uv));
            }
        }
    }

    /// Removes an id if present.
    pub fn remove(&mut self, u: &String)
        requires
            old(self).wf(),
        ensures
            final (self).wf(),
            final (self)@ == old(self)@.remove(u@),
    {
        let mut k: usize = 0;
        while k < self.items.len()
            invariant
                k <= self.items.len(),
                old(self).wf(),
                *self == *old(self),
                forall|i: int| 0 <= i < k ==> self.items@[i]@ != u@,
            decreases self.items.len() - k,
        {
            if self.items[k].eq(u) {
                self.items.remove(k);
                proof {
                    assert forall|i: int, j: int|
                        0 <= i < j < self.items@.len() implies self.items@[i]@
                        != self.items@[j]@ by {
                        if j < k {
                            assert(old(self).items@[i]@ != old(self).items@[j]@);
                        } else if i < k {
                            assert(old(self).items@[i]@ != old(self).items@[j + 1]@);
                        } else {
                            assert(old(self).items@[i + 1]@ != old(self).items@[j + 1]@);
                        }
                    }
                    assert forall|w: Seq<char>| self@.contains(w) implies old(self)@.remove(
                        u@,
                    ).contains(w) by {
                        let i = choose|i: int|
                            0 <= i < self.items@.len() && self.items@[i]@ == w;
                        if i < k {
                            assert(old(self).items@[i]@ == w);
                        } else {
                            assert(old(self).items@[i + 1]@ == w);
                        }
                    }
                    assert forall|w: Seq<char>| old(self)@.remove(u@).contains(w) implies
                        self@.contains(w) by {
                        let i = choose|i: int|
                            0 <= i < old(self).items@.len() && old(self).items@[i]@ == w;
                        if i < k {
                            assert(self.items@[i]@ == w);
                        } else {
                            assert(i != k);
                            assert(self.items@[i - 1]@ == w);
                        }
                    }
                    assert(self@ =~= old(self)@.remove(u@));
                }
                return ;
            }
            k += 1;
        }
        proof {
            assert(!self@.contains(u@));
            assert(self@ =~= old(self)@.remove(u@));
        }
    }

    /// The ids as a vector, for handing outward.
    pub fn to_vec(&self) -> (r: Vec<String>)
        ensures
            r@ == self.items@,
    {
        let mut r: Vec<String> = Vec::new();
        let mut k: usize = 0;
        while k < self.items.len()
            invariant
                k <= self.items.len(),
                r@ == self.items@.subrange(0, k as int),
            decreases self.items.len() - k,
        {
            r.push(self.items[k].clone());
            proof {
                assert(r@ =~= self.items@.subrange(0, k + 1 as int));
            }
            k += 1;
        }
        proof {
            assert(r@ =~= self.items@);
        }
        r
    }
}

/// The instant each user last sent a chat message, zero when the user has
/// never sent one. Backs the per-user rate limit.
#[derive(Debug)]
pub struct SendTimes {
    pub entries: Vec<(String, i64)>,
}

impl SendTimes {
    pub open spec fn wf(self) -> bool {
        forall|i: int, j: int|
            0 <= i < j < self.entries@.len() ==> self.entries@[i].0@ != self.entries@[j].0@
    }

    pub open spec fn has(self, u: Seq<char>) -> bool {
        exists|i: int| 0 <= i < self.entries@.len() && self.entries@[i].0@ == u
    }

    /// The recorded instant, or zero when none was recorded.
    pub open spec fn time_of(self, u: Seq<char>) -> i64 {
        if self.has(u) {
            let i = choose|i: int| 0 <= i < self.entries@.len() && self.entries@[i].0@ == u;
            self.entries@[i].1
        } else {
            0
        }
    }

    pub fn new() -> (r: SendTimes)
        ensures
            r.wf(),
            forall|u: Seq<char>| r.time_of(u) == 0i64,
    {
        SendTimes { entries: Vec::new() }
    }

    pub fn get(&self, u: &String) -> (r: i64)
        requires
            self.wf(),
        ensures
            r == self.time_of(u@),
    {
        let mut k: usize = 0;
        while k < self.entries.len()
            invariant
                k <= self.entries.len(),
                self.wf(),
                forall|i: int| 0 <= i < k ==> self.entries@[i].0@ != u@,
            decreases self.entries.len() - k,
        {
            if self.entries[k].0.eq(u) {
                proof {
                    let i = choose|i: int|
                        0 <= i < self.entries@.len() && self.entries@[i].0@ == u@;
                    assert(i == k);
                }
                return self.entries[k].1;
            }
            k += 1;
        }
        0
    }

    /// Records `t` as the last-send instant of `u`, leaving other users'
    /// entries as they were.
    pub fn set(&mut self, u: &String, t: i64)
        requires
            old(self).wf(),
        ensures
            final (self).wf(),
            final (self).time_of(u@) == t,
            forall|v: Seq<char>| v != u@ ==> final (self).time_of(v) == old(self).time_of(v),
    {
        let mut k: usize = 0;
        while k < self.entries.len()
            invariant
                k <= self.entries.len(),
                old(self).wf(),
                *self == *old(self),
                forall|i: int| 0 <= i < k ==> self.entries@[i].0@ != u@,
            decreases self.entries.len() - k,
        {
            if self.entries[k].0.eq(u) {
                let nm = self.entries[k].0.clone();
                self.entries.set(k, (nm, t));
                proof {
                    assert forall|i: int|
                        0 <= i < self.entries@.len() implies self.entries@[i].0@ == old(
                        self,
                    ).entries@[i].0@ by {}
                    assert forall|i: int, j: int|
                        0 <= i < j < self.entries@.len() implies self.entries@[i].0@
                        != self.entries@[j].0@ by {
                        assert(old(self).entries@[i].0@ != old(self).entries@[j].0@);
                    }
                    let i = choose|i: int|
                        0 <= i < self.entries@.len() && self.entries@[i].0@ == u@;
                    assert(i == k);
                    assert forall|v: Seq<char>| v != u@ implies final (self).time_of(v) == old(
                        self,
                    ).time_of(v) by {
                        if final (self).has(v) {
                            let a = choose|a: int|
                                0 <= a < self.entries@.len() && self.entries@[a].0@ == v;
                            assert(old(self).entries@[a].0@ == v);
                            let b = choose|b: int|
                                0 <= b < old(self).entries@.len() && old(self).entries@[b].0@
                                    == v;
                            assert(a == b);
                            assert(a != k);
                        } else {
                            if old(self).has(v) {
                                let b = choose|b: int|
                                    0 <= b < old(self).entries@.len() && old(
                                        self,
                                    ).entries@[b].0@ == v;
                                assert(self.entries@[b].0@ == v);
                            }
                        }
                    }
                }
                return ;
            }
            k += 1;
        }
        let nm = u.clone();
        self.entries.push((nm, t));
        proof {
            let n = old(self).entries@.len() as int;
            assert(self.entries@[n].0@ == u@);
            assert forall|i: int, j: int|
                0 <= i < j < self.entries@.len() implies self.entries@[i].0@
                != self.entries@[j].0@ by {
                if j < n {
                    assert(old(self).entries@[i].0@ != old(self).entries@[j].0@);
                } else {
                    assert(old(self).entries@[i].0@ != u@);
                }
            }
            let i = choose|i: int| 0 <= i < self.entries@.len() && self.entries@[i].0@ == u@;
            assert(i == n);
            assert forall|v: Seq<char>| v != u@ implies final (self).time_of(v) == old(
                self,
            ).time_of(v) by {
                if final (self).has(v) {
                    let a = choose|a: int|
                        0 <= a < self.entries@.len() && self.entries@[a].0@ == v;
                    assert(a != n);
                    assert(old(self).entries@[a].0@ == v);
                    let b = choose|b: int|
                        0 <= b < old(self).entries@.len() && old(self).entries@[b].0@ == v;
                    assert(a == b);
                } else {
                    if old(self).has(v) {
                        let b = choose|b: int|
                            0 <= b < old(self).entries@.len() && old(self).entries@[b].0@ == v;
                        assert(self.entries@[b].0@ == v);
                    }
                }
            }
        }
    }
}

} // verus!
