use vstd::prelude::*;

verus! {

/// An endpoint of the server that serves incoming traffic once started.
pub trait Listener: Sized {
    /// What one call of `listen` does: how the listener `after` the call
    /// relates to the listener `before` it, given the call's `result`. A
    /// listener that says nothing of itself leaves it `true`.
    open spec fn listened(before: Self, after: Self, result: Option<bool>) -> bool {
        true
    }

    /// Serves on the endpoint; what the result means is up to the listener.
    fn listen(&mut self) -> (result: Option<bool>)
        ensures
            Self::listened(*old(self), *final(self), result),
    ;
}

/// `after` is what `listen` made of `before`, whatever it returned.
pub open spec fn was_started<L: Listener>(before: L, after: L) -> bool {
    exists|result: Option<bool>| #[trigger] L::listened(before, after, result)
}

/// `after` is the pool `before` once the listener at `idx` has been started,
/// if there is one: the pool keeps its length, that listener has made one
/// `listen` step, and every other listener is as it was.
pub open spec fn start_post<L: Listener>(before: Seq<L>, after: Seq<L>, idx: int) -> bool {
    &&& after.len() == before.len()
    &&& 0 <= idx < before.len() ==> was_started(before[idx], after[idx])
    &&& forall|i: int| 0 <= i < before.len() && i != idx ==> after[i] == before[i]
}

/// `after` is the pool `before` once every listener has made one `listen`
/// step.
pub open spec fn start_all_post<L: Listener>(before: Seq<L>, after: Seq<L>) -> bool {
    &&& after.len() == before.len()
    &&& forall|i: int| 0 <= i < before.len() ==> #[trigger] was_started(before[i], after[i])
}

/// The pool part-way through starting every listener: the first `j`
/// listeners as they are in `after`, the rest as they are in `before`.
pub open spec fn started_prefix<L>(before: Seq<L>, after: Seq<L>, j: int) -> Seq<L> {
    after.take(j) + before.skip(j)
}

/// Starting every listener is starting each index in turn: a run of `start`
/// on the indices `0, 1, ..., n - 1` (each step as `start` states it) ends in
/// a pool that `start_all` may also leave.
pub proof fn law_starts_in_turn_are_start_all<L: Listener>(states: Seq<Seq<L>>)
    requires
        states.len() >= 1,
        states.len() == states[0].len() + 1,
        forall|j: int| 0 <= j < states[0].len() ==> #[trigger] start_post(states[j], states[j + 1], j),
    ensures
        start_all_post(states[0], states[states.len() - 1]),
{
    let n = states[0].len() as int;
    // After `j` starts, the first `j` listeners have made their step and the
    // rest are untouched.
    assert forall|j: int| 0 <= j <= n implies {
        &&& (#[trigger] states[j]).len() == n
        &&& forall|i: int| 0 <= i < j ==> was_started(states[0][i], states[j][i])
        &&& forall|i: int| j <= i < n ==> states[j][i] == states[0][i]
    } by {
        lemma_starts_prefix(states, j);
    }
    assert forall|i: int| 0 <= i < n implies #[trigger] was_started(states[0][i], states[n][i]) by {
        assert(states[n].len() == n);
    }
}

proof fn lemma_starts_prefix<L: Listener>(states: Seq<Seq<L>>, j: int)
    requires
        states.len() >= 1,
        states.len() == states[0].len() + 1,
        forall|k: int| 0 <= k < states[0].len() ==> #[trigger] start_post(states[k], states[k + 1], k),
        0 <= j <= states[0].len(),
    ensures
        states[j].len() == states[0].len(),
        forall|i: int| 0 <= i < j ==> was_started(states[0][i], states[j][i]),
        forall|i: int| j <= i < states[0].len() ==> states[j][i] == states[0][i],
    decreases j,
{
    if j > 0 {
        lemma_starts_prefix(states, j - 1);
        assert(start_post(states[j - 1], states[(j - 1) + 1], j - 1));
        assert forall|i: int| 0 <= i < j implies was_started(states[0][i], states[j][i]) by {
            if i < j - 1 {
                assert(states[j][i] == states[j - 1][i]);
            }
        }
    }
}

/// Conversely, whatever `start_all` leaves can be reached by starting each
/// index in turn: the pools part-way through (`started_prefix`) form such a
/// run from `before` to `after`.
pub proof fn law_start_all_is_starts_in_turn<L: Listener>(before: Seq<L>, after: Seq<L>)
    requires
        start_all_post(before, after),
    ensures
        started_prefix(before, after, 0) == before,
        started_prefix(before, after, before.len() as int) == after,
        forall|j: int|
            0 <= j < before.len() ==> #[trigger] start_post(
                started_prefix(before, after, j),
                started_prefix(before, after, j + 1),
                j,
            ),
{
    let n = before.len() as int;
    assert(started_prefix(before, after, 0) =~= before);
    assert(started_prefix(before, after, n) =~= after);
    assert forall|j: int| 0 <= j < n implies #[trigger] start_post(
        started_prefix(before, after, j),
        started_prefix(before, after, j + 1),
        j,
    ) by {
        let a = started_prefix(before, after, j);
        let b = started_prefix(before, after, j + 1);
        assert(a.len() == n && b.len() == n);
        assert(a[j] == before[j] && b[j] == after[j]);
        assert(was_started(before[j], after[j]));
        assert forall|i: int| 0 <= i < n && i != j implies b[i] == a[i] by {
            if i < j {
                assert(a[i] == after[i] && b[i] == after[i]);
            } else {
                assert(a[i] == before[i] && b[i] == before[i]);
            }
        }
    }
}

/// A pool that starts empty and is given the listeners of `added` one after
/// another (each step as `add` states it) holds exactly those listeners, in
/// that order, so its length counts the additions.
pub proof fn law_len_counts_additions<L>(states: Seq<Seq<L>>, added: Seq<L>)
    requires
        states.len() == added.len() + 1,
        states[0] == Seq::<L>::empty(),
        forall|j: int| 0 <= j < added.len() ==> #[trigger] states[j + 1] == states[j].push(added[j]),
    ensures
        states[states.len() - 1] == added,
        states[states.len() - 1].len() == added.len(),
{
    lemma_added_prefix(states, added, added.len() as int);
}

proof fn lemma_added_prefix<L>(states: Seq<Seq<L>>, added: Seq<L>, j: int)
    requires
        states.len() == added.len() + 1,
        states[0] == Seq::<L>::empty(),
        forall|k: int| 0 <= k < added.len() ==> #[trigger] states[k + 1] == states[k].push(added[k]),
        0 <= j <= added.len(),
    ensures
        states[j] == added.take(j),
    decreases j,
{
    if j == 0 {
        assert(added.take(0) =~= Seq::<L>::empty());
    } else {
        lemma_added_prefix(states, added, j - 1);
        assert(states[j] == states[j - 1].push(added[j - 1]));
        assert(added.take(j) =~= added.take(j - 1).push(added[j - 1]));
    }
}

/// The pool of listeners of the server, in the order they were added; a
/// listener's position in the pool is its index.
pub struct Listeners<L> {
    pool: Vec<L>,
}

impl<L> View for Listeners<L> {
    type V = Seq<L>;

    closed spec fn view(&self) -> Seq<L> {
        self.pool@
    }
}

impl<L: Listener> Listeners<L> {
    /// An empty pool.
    pub fn new() -> (pool: Listeners<L>)
        ensures
            pool@ == Seq::<L>::empty(),
    {
        Listeners { pool: Vec::new() }
    }

    /// An empty pool with room for `capacity` listeners.
    pub fn with_capacity(capacity: usize) -> (pool: Listeners<L>)
        ensures
            pool@ == Seq::<L>::empty(),
    {
        Listeners { pool: Vec::with_capacity(capacity) }
    }

    /// The number of listeners in the pool.
    pub fn len(&self) -> (n: usize)
        ensures
            n == self@.len(),
    {
        self.pool.len()
    }

    /// Adds a listener at the end of the pool and returns its index.
    pub fn add(&mut self, listener: L) -> (index: usize)
        ensures
            index == old(self)@.len(),
            final(self)@ == old(self)@.push(listener),
    {
        let index = self.pool.len();
        self.pool.push(listener);
        index
    }

    /// Starts the listener at `idx`, if there is one; the other listeners are
    /// left as they were. The result is always `None`.
    pub fn start(&mut self, idx: usize) -> (r: Option<bool>)
        ensures
            r is None,
            start_post(old(self)@, final(self)@, idx as int),
            idx >= old(self)@.len() ==> final(self)@ == old(self)@,
    {
        if idx < self.pool.len() {
            let res = self.pool[idx].listen();
            assert(L::listened(old(self)@[idx as int], self.pool@[idx as int], res));
        }
        None
    }

    /// Starts every listener of the pool once, in order.
    pub fn start_all(&mut self)
        ensures
            start_all_post(old(self)@, final(self)@),
    {
        let n = self.pool.len();
        let ghost before = self.pool@;
        for i in 0..n
            invariant
                n == before.len(),
                self.pool@.len() == n,
                forall|j: int| i <= j < n ==> self.pool@[j] == before[j],
                forall|j: int| 0 <= j < i ==> #[trigger] was_started(before[j], self.pool@[j]),
        {
            let res = self.pool[i].listen();
            assert(L::listened(before[i as int], self.pool@[i as int], res));
        }
    }
}

} // verus!
