//! The backend registry: the set of backends eligible for traffic, replaced
//! whole on each discovery cycle and read by round-robin selection.
use vstd::prelude::*;
use vstd::arithmetic::div_mod::{
    lemma_add_mod_noop,
    lemma_fundamental_div_mod_converse,
    lemma_small_mod,
};
use crate::backend::{Backend, BackendView, views};

verus! {

/// Whether some backend of `s` has address `a`.
pub open spec fn has_addr(s: Seq<BackendView>, a: Seq<char>) -> bool {
    exists|i: int| 0 <= i < s.len() && #[trigger] s[i].0 == a
}

/// No two backends of `s` share an address.
pub open spec fn distinct_addrs(s: Seq<BackendView>) -> bool {
    forall|i: int, j: int|
        0 <= i < s.len() && 0 <= j < s.len() && i != j ==> #[trigger] s[i].0 != #[trigger] s[j].0
}

/// `s` with every backend whose address occurred earlier left out.
pub open spec fn dedup_by_addr(s: Seq<BackendView>) -> Seq<BackendView>
    decreases s.len(),
{
    if s.len() == 0 {
        Seq::empty()
    } else {
        let d = dedup_by_addr(s.drop_last());
        if has_addr(d, s.last().0) {
            d
        } else {
            d.push(s.last())
        }
    }
}

/// The backend chosen by the `k`-th selection (counting from 0) from a
/// registry holding `backends` with its cursor at `cursor`.
pub open spec fn nth_selection(backends: Seq<BackendView>, cursor: nat, k: nat) -> BackendView {
    backends[selection_index(backends.len(), cursor, k)]
}

/// The position that the `k`-th selection reads among `len` backends.
pub open spec fn selection_index(len: nat, cursor: nat, k: nat) -> int {
    ((cursor + k) % len) as int
}

/// Within `backends.len()` selections from `cursor`, one reads position `i`.
pub open spec fn reached_within(backends: Seq<BackendView>, cursor: nat, i: int) -> bool {
    exists|k: nat|
        k < backends.len() && #[trigger] selection_index(backends.len(), cursor, k) == i
            && nth_selection(backends, cursor, k) == backends[i]
}

/// Every backend of `dedup_by_addr(s)` comes from `s`, and an address of `s`
/// is kept exactly when it occurs.
pub proof fn lemma_dedup_members(s: Seq<BackendView>)
    ensures
        distinct_addrs(dedup_by_addr(s)),
        forall|a: Seq<char>|
            #![trigger has_addr(dedup_by_addr(s), a)]
            #![trigger has_addr(s, a)]
            has_addr(dedup_by_addr(s), a) <==> has_addr(s, a),
        forall|i: int|
            0 <= i < dedup_by_addr(s).len() ==> s.contains(#[trigger] dedup_by_addr(s)[i]),
    decreases s.len(),
{
    if s.len() > 0 {
        let p = s.drop_last();
        lemma_dedup_members(p);
        let d = dedup_by_addr(p);
        let e = dedup_by_addr(s);
        assert forall|a: Seq<char>| has_addr(e, a) <==> has_addr(s, a) by {
            if has_addr(e, a) {
                let j = choose|j: int| 0 <= j < e.len() && #[trigger] e[j].0 == a;
                if j < d.len() {
                    assert(d[j].0 == a);
                    assert(has_addr(d, a));
                    assert(has_addr(p, a));
                    let i = choose|i: int| 0 <= i < p.len() && #[trigger] p[i].0 == a;
                    assert(s[i].0 == a);
                } else {
                    assert(s[s.len() - 1].0 == a);
                }
            }
            if has_addr(s, a) {
                let i = choose|i: int| 0 <= i < s.len() && #[trigger] s[i].0 == a;
                if i < p.len() {
                    assert(p[i].0 == a);
                    assert(has_addr(d, a));
                    let j = choose|j: int| 0 <= j < d.len() && #[trigger] d[j].0 == a;
                    assert(e[j].0 == a);
                } else if !has_addr(d, a) {
                    assert(e[d.len() as int].0 == a);
                } else {
                    let j = choose|j: int| 0 <= j < d.len() && #[trigger] d[j].0 == a;
                    assert(e[j].0 == a);
                }
            }
        }
        assert forall|i: int| 0 <= i < dedup_by_addr(s).len() implies s.contains(
            #[trigger] dedup_by_addr(s)[i],
        ) by {
            if i < d.len() {
                let j = choose|j: int| 0 <= j < p.len() && p[j] == d[i];
                assert(s[j] == d[i]);
            } else {
                assert(s[s.len() - 1] == dedup_by_addr(s)[i]);
            }
        }
    }
}

/// Removing repeated addresses from a sequence that has none changes nothing.
pub proof fn lemma_dedup_of_distinct(s: Seq<BackendView>)
    requires
        distinct_addrs(s),
    ensures
        dedup_by_addr(s) == s,
    decreases s.len(),
{
    if s.len() > 0 {
        let p = s.drop_last();
        assert(distinct_addrs(p)) by {
            assert forall|i: int, j: int|
                0 <= i < p.len() && 0 <= j < p.len() && i != j implies #[trigger] p[i].0
                != #[trigger] p[j].0 by {
                assert(s[i] == p[i] && s[j] == p[j]);
            }
        }
        lemma_dedup_of_distinct(p);
        if has_addr(p, s.last().0) {
            let i = choose|i: int| 0 <= i < p.len() && #[trigger] p[i].0 == s.last().0;
            assert(s[i] == p[i]);
        }
        assert(p.push(s.last()) =~= s);
    }
}

/// Removing repeated addresses twice is the same as once: a set published
/// again from the same candidates is the set already published.
pub proof fn lemma_dedup_idempotent(s: Seq<BackendView>)
    ensures
        dedup_by_addr(dedup_by_addr(s)) == dedup_by_addr(s),
{
    lemma_dedup_members(s);
    lemma_dedup_of_distinct(dedup_by_addr(s));
}

/// Round-robin fairness: from any cursor, the first `n` selections over `n`
/// backends pick every backend once, each from its own position.
pub proof fn lemma_round_robin_fair(backends: Seq<BackendView>, cursor: nat)
    requires
        backends.len() > 0,
        cursor < backends.len(),
    ensures
        forall|i: int| 0 <= i < backends.len() ==> #[trigger] reached_within(backends, cursor, i),
        forall|k1: nat, k2: nat|
            k1 < k2 < backends.len() ==> #[trigger] selection_index(backends.len(), cursor, k1)
                != #[trigger] selection_index(backends.len(), cursor, k2),
{
    let n = backends.len();
    assert forall|i: int| 0 <= i < backends.len() implies #[trigger] reached_within(
        backends,
        cursor,
        i,
    ) by {
        let k = lemma_steps_to(backends, cursor, i);
        assert(selection_index(n, cursor, k) == i);
    }
    assert forall|k1: nat, k2: nat| k1 < k2 < n implies #[trigger] selection_index(n, cursor, k1)
        != #[trigger] selection_index(n, cursor, k2) by {
        lemma_wrap(cursor + k1, n);
        lemma_wrap(cursor + k2, n);
    }
}

/// The number of selections after which the cursor reaches position `i`.
proof fn lemma_steps_to(backends: Seq<BackendView>, cursor: nat, i: int) -> (k: nat)
    requires
        backends.len() > 0,
        cursor < backends.len(),
        0 <= i < backends.len(),
    ensures
        k < backends.len(),
        nth_selection(backends, cursor, k) == backends[i],
        (cursor + k) % backends.len() == i,
{
    let n = backends.len();
    let k: nat = if i >= cursor {
        (i - cursor) as nat
    } else {
        (i + n - cursor) as nat
    };
    lemma_wrap(cursor + k, n);
    k
}

/// A position below `2 * n` wraps around `n` at most once.
proof fn lemma_wrap(x: nat, n: nat)
    requires
        0 < n,
        x < 2 * n,
    ensures
        x % n == if x < n { x } else { (x - n) as nat },
{
    if x < n {
        lemma_small_mod(x, n);
    } else {
        lemma_fundamental_div_mod_converse(x as int, n as int, 1, x - n);
    }
}

/// After one selection the order of the later ones is kept: the `k`-th
/// selection from the advanced cursor is the `k + 1`-th from the old one.
pub proof fn lemma_selection_shift(backends: Seq<BackendView>, cursor: nat, k: nat)
    requires
        backends.len() > 0,
    ensures
        nth_selection(backends, (cursor + 1) % backends.len(), k) == nth_selection(
            backends,
            cursor,
            k + 1,
        ),
{
    let n = backends.len() as int;
    let x = cursor as int + 1;
    let y = k as int;
    lemma_add_mod_noop(x, y, n);
    lemma_add_mod_noop(x % n, y, n);
    lemma_small_mod((x % n) as nat, n as nat);
}

/// The backends currently eligible for traffic and the round-robin cursor.
pub struct BackendRegistry {
    backends: Vec<Backend>,
    cursor: usize,
}

impl BackendRegistry {
    /// The published backends, no two with one address.
    pub closed spec fn backends(&self) -> Seq<BackendView> {
        views(self.backends@)
    }

    /// The position of the backend that the next selection returns.
    pub closed spec fn cursor(&self) -> nat {
        self.cursor as nat
    }

    pub open spec fn wf(&self) -> bool {
        &&& distinct_addrs(self.backends())
        &&& if self.backends().len() == 0 {
            self.cursor() == 0
        } else {
            self.cursor() < self.backends().len()
        }
    }

    /// An empty registry, as at process start.
    pub fn new() -> (r: BackendRegistry)
        ensures
            r.wf(),
            r.backends() == Seq::<BackendView>::empty(),
            r.cursor() == 0,
    {
        BackendRegistry { backends: Vec::new(), cursor: 0 }
    }

    /// Swaps in a new set in one step: the registry then holds `new_set`
    /// with repeated addresses left out, and selection starts at its first
    /// backend.
    pub fn replace(&mut self, new_set: Vec<Backend>)
        ensures
            final(self).wf(),
            final(self).backends() == dedup_by_addr(views(new_set@)),
            final(self).cursor() == 0,
    {
        let fresh = dedup_by_address(new_set);
        proof {
            lemma_dedup_members(views(new_set@));
        }
        self.backends = fresh;
        self.cursor = 0;
    }

    /// Round-robin selection. On an empty registry: `None`, nothing changes.
    /// Otherwise: the backend under the cursor, a whole member of the set
    /// published now, and the cursor moves on by one, wrapping at the end.
    pub fn select(&mut self) -> (r: Option<Backend>)
        requires
            old(self).wf(),
        ensures
            final(self).wf(),
            final(self).backends() == old(self).backends(),
            old(self).backends().len() == 0 ==> r is None && final(self).cursor() == old(
                self,
            ).cursor(),
            old(self).backends().len() > 0 ==> r is Some && r->Some_0@ == nth_selection(
                old(self).backends(),
                old(self).cursor(),
                0,
            ) && final(self).cursor() == (old(self).cursor() + 1) % old(self).backends().len(),
            r matches Some(b) ==> old(self).backends().contains(b@),
    {
        let n = self.backends.len();
        if n == 0 {
            return None;
        }
        let b = self.backends[self.cursor].clone();
        proof {
            lemma_small_mod(self.cursor as nat, n as nat);
            let c = self.cursor as int;
            assert(nth_selection(views(self.backends@), self.cursor as nat, 0) == self.backends@[
                c
            ]@);
        }
        self.cursor = if self.cursor + 1 == n {
            0
        } else {
            self.cursor + 1
        };
        proof {
            lemma_wrap((old(self).cursor + 1) as nat, n as nat);
        }
        Some(b)
    }

    /// How many backends are published.
    pub fn len(&self) -> (r: usize)
        ensures
            r == self.backends().len(),
    {
        self.backends.len()
    }

    /// Whether no backend is published.
    pub fn is_empty(&self) -> (r: bool)
        ensures
            r == (self.backends().len() == 0),
    {
        self.backends.len() == 0
    }

    /// A copy of the published backends, in selection order.
    pub fn snapshot(&self) -> (r: Vec<Backend>)
        ensures
            views(r@) == self.backends(),
    {
        let mut out: Vec<Backend> = Vec::new();
        let mut i: usize = 0;
        while i < self.backends.len()
            invariant
                i <= self.backends@.len(),
                views(out@) == views(self.backends@).subrange(0, i as int),
            decreases self.backends@.len() - i,
        {
            let ghost before = out@;
            out.push(self.backends[i].clone());
            proof {
                assert(views(out@) =~= views(before).push(self.backends@[i as int]@));
                assert(views(out@) =~= views(self.backends@).subrange(0, i as int + 1));
            }
            i = i + 1;
        }
        proof {
            assert(views(self.backends@).subrange(0, i as int) =~= views(self.backends@));
        }
        out
    }
}

/// Whether `v` holds a backend with the address `addr`.
fn contains_addr(v: &Vec<Backend>, addr: &String) -> (r: bool)
    ensures
        r == has_addr(views(v@), addr@),
{
    let mut i: usize = 0;
    while i < v.len()
        invariant
            i <= v@.len(),
            forall|j: int| 0 <= j < i ==> #[trigger] views(v@)[j].0 != addr@,
        decreases v@.len() - i,
    {
        if v[i].addr == *addr {
            proof {
                assert(views(v@)[i as int].0 == addr@);
            }
            return true;
        }
        i = i + 1;
    }
    false
}

/// Keeps the first backend of each address, in order.
pub fn dedup_by_address(v: Vec<Backend>) -> (r: Vec<Backend>)
    ensures
        views(r@) == dedup_by_addr(views(v@)),
{
    let mut out: Vec<Backend> = Vec::new();
    let mut i: usize = 0;
    while i < v.len()
        invariant
            i <= v@.len(),
            views(out@) == dedup_by_addr(views(v@).subrange(0, i as int)),
        decreases v@.len() - i,
    {
        proof {
            assert(views(v@).subrange(0, i as int + 1).drop_last() =~= views(v@).subrange(
                0,
                i as int,
            ));
            assert(views(v@).subrange(0, i as int + 1).last() == v@[i as int]@);
        }
        if !contains_addr(&out, &v[i].addr) {
            let ghost before = out@;
            out.push(v[i].clone());
            proof {
                assert(views(out@) =~= views(before).push(v@[i as int]@));
            }
        }
        i = i + 1;
    }
    proof {
        assert(views(v@).subrange(0, i as int) =~= views(v@));
    }
    out
}

} // verus!
