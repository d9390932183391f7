use vstd::prelude::*;

verus! {

/// What one submission hands to the engine: a keep-alive handle on the sample data and the
/// caller's context value.
pub struct Envelope<A, C> {
    pub audio: A,
    pub context: C,
}

/// The number of occupied slots.
pub open spec fn occupied<E>(s: Seq<Option<E>>) -> nat
    decreases s.len(),
{
    if s.len() == 0 {
        0
    } else {
        occupied(s.drop_last()) + if s.last() is Some { 1nat } else { 0nat }
    }
}

/// The envelopes held, in slot order.
pub open spec fn occupants<E>(s: Seq<Option<E>>) -> Seq<E>
    decreases s.len(),
{
    if s.len() == 0 {
        Seq::empty()
    } else {
        match s.last() {
            Some(e) => occupants(s.drop_last()).push(e),
            None => occupants(s.drop_last()),
        }
    }
}

proof fn lemma_occupants_len<E>(s: Seq<Option<E>>)
    ensures
        occupants(s).len() == occupied(s),
    decreases s.len(),
{
    if s.len() > 0 {
        lemma_occupants_len(s.drop_last());
    }
}

/// The slot a new envelope takes: the first free one, or a new one at the end.
pub open spec fn first_free<E>(s: Seq<Option<E>>) -> int {
    if exists|i: int| 0 <= i < s.len() && s[i] is None {
        choose|i: int|
            0 <= i < s.len() && s[i] is None && forall|j: int| 0 <= j < i ==> s[j] is Some
    } else {
        s.len() as int
    }
}

/// The slots after `e` is placed at `token`.
pub open spec fn placed<E>(s: Seq<Option<E>>, token: int, e: E) -> Seq<Option<E>> {
    if token == s.len() {
        s.push(Some(e))
    } else {
        s.update(token, Some(e))
    }
}

/// What slot `token` holds; `None` for a token that was never handed out.
pub open spec fn slot<E>(s: Seq<Option<E>>, token: int) -> Option<E> {
    if 0 <= token < s.len() {
        s[token]
    } else {
        None
    }
}

/// The slots after slot `token` is emptied.
pub open spec fn cleared<E>(s: Seq<Option<E>>, token: int) -> Seq<Option<E>> {
    if 0 <= token < s.len() {
        s.update(token, None)
    } else {
        s
    }
}

proof fn lemma_occupied_update<E>(s: Seq<Option<E>>, i: int, x: Option<E>)
    requires
        0 <= i < s.len(),
    ensures
        occupied(s.update(i, x)) + (if s[i] is Some { 1int } else { 0int })
            == occupied(s) + (if x is Some { 1int } else { 0int }),
    decreases s.len(),
{
    let t = s.update(i, x);
    if i == s.len() - 1 {
        assert(t.drop_last() =~= s.drop_last());
    } else {
        assert(t.drop_last() =~= s.drop_last().update(i, x));
        lemma_occupied_update(s.drop_last(), i, x);
    }
}

proof fn lemma_occupied_push<E>(s: Seq<Option<E>>, x: Option<E>)
    ensures
        occupied(s.push(x)) == occupied(s) + (if x is Some { 1nat } else { 0nat }),
{
    assert(s.push(x).drop_last() =~= s);
}

proof fn lemma_occupied_bound<E>(s: Seq<Option<E>>)
    ensures
        occupied(s) <= s.len(),
    decreases s.len(),
{
    if s.len() > 0 {
        lemma_occupied_bound(s.drop_last());
    }
}

proof fn lemma_none_free<E>(s: Seq<Option<E>>)
    requires
        forall|i: int| 0 <= i < s.len() ==> s[i] is None,
    ensures
        occupied(s) == 0,
    decreases s.len(),
{
    if s.len() > 0 {
        lemma_none_free(s.drop_last());
    }
}

/// The envelopes that the engine holds on behalf of one voice, each under the token that was
/// handed to the engine with it.
///
/// A token is reclaimed at most once: reclaiming takes the envelope out of its slot, so a
/// second reclaim of the same token finds nothing. Every envelope that was transferred is
/// either still held or was reclaimed, as `submitted == reclaimed + held` records.
pub struct EnvelopeStore<A, C> {
    slots: Vec<Option<Envelope<A, C>>>,
    submitted: u64,
    reclaimed: u64,
}

impl<A, C> View for EnvelopeStore<A, C> {
    type V = Seq<Option<Envelope<A, C>>>;

    closed spec fn view(&self) -> Seq<Option<Envelope<A, C>>> {
        self.slots@
    }
}

impl<A, C> EnvelopeStore<A, C> {
    /// The count of envelopes ever transferred into the store.
    pub closed spec fn submitted_count(&self) -> nat {
        self.submitted as nat
    }

    /// The count of envelopes ever reclaimed from the store.
    pub closed spec fn reclaimed_count(&self) -> nat {
        self.reclaimed as nat
    }

    /// Every transferred envelope is held or was reclaimed.
    pub open spec fn wf(&self) -> bool {
        self.submitted_count() == self.reclaimed_count() + occupied(self@)
    }

    pub fn new() -> (r: Self)
        ensures
            r.wf(),
            r@ == Seq::<Option<Envelope<A, C>>>::empty(),
            r.submitted_count() == 0,
            r.reclaimed_count() == 0,
    {
        EnvelopeStore { slots: Vec::new(), submitted: 0, reclaimed: 0 }
    }

    pub fn submitted(&self) -> (r: u64)
        ensures
            r == self.submitted_count(),
    {
        self.submitted
    }

    pub fn reclaimed(&self) -> (r: u64)
        ensures
            r == self.reclaimed_count(),
    {
        self.reclaimed
    }

    /// The count of envelopes the store holds now.
    pub fn held(&self) -> (r: u64)
        requires
            self.wf(),
        ensures
            r == occupied(self@),
    {
        self.submitted - self.reclaimed
    }

    /// Moves an envelope into the store and returns the token under which the engine will
    /// hand it back.
    pub fn transfer(&mut self, audio: A, context: C) -> (token: usize)
        requires
            old(self).wf(),
            old(self).submitted_count() < u64::MAX,
        ensures
            final(self).wf(),
            token == first_free(old(self)@),
            final(self)@ == placed(old(self)@, token as int, Envelope { audio, context }),
            final(self).submitted_count() == old(self).submitted_count() + 1,
            final(self).reclaimed_count() == old(self).reclaimed_count(),
    {
        let ghost s = self.slots@;
        let mut i: usize = 0;
        while i < self.slots.len()
            invariant
                self.slots@ == s,
                0 <= i <= s.len(),
                forall|j: int| 0 <= j < i ==> s[j] is Some,
            ensures
                self.slots@ == s,
                0 <= i <= s.len(),
                forall|j: int| 0 <= j < i ==> s[j] is Some,
                i < s.len() ==> s[i as int] is None,
            decreases s.len() - i,
        {
            if self.slots[i].is_none() {
                break;
            }
            i = i + 1;
        }
        proof {
            if i < s.len() {
                assert(s[i as int] is None);
                let k = first_free(s);
                assert(0 <= k < s.len() && s[k] is None && forall|j: int| 0 <= j < k ==> s[j] is Some);
                if k < i {
                    assert(s[k] is Some);
                }
                if i < k {
                    assert(s[i as int] is Some);
                }
                lemma_occupied_update(s, i as int, Some(Envelope { audio, context }));
            } else {
                assert(!(exists|j: int| 0 <= j < s.len() && s[j] is None));
                lemma_occupied_push(s, Some(Envelope { audio, context }));
            }
        }
        if i < self.slots.len() {
            self.slots.set(i, Some(Envelope { audio, context }));
        } else {
            self.slots.push(Some(Envelope { audio, context }));
        }
        self.submitted = self.submitted + 1;
        i
    }

    /// Lends the context of the envelope under `token`, as the non-terminal per-buffer
    /// callbacks need it; the envelope stays in the store.
    pub fn borrow(&self, token: usize) -> (r: Option<&C>)
        ensures
            r == match slot(self@, token as int) {
                Some(e) => Some(&e.context),
                None => None,
            },
    {
        if token < self.slots.len() {
            match &self.slots[token] {
                Some(e) => Some(&e.context),
                None => None,
            }
        } else {
            None
        }
    }

    /// Takes the envelope under `token` out of the store: the terminal callback's reclaim.
    ///
    /// A token that holds nothing (never handed out, or reclaimed already) gives `None` and
    /// changes nothing.
    pub fn reclaim(&mut self, token: usize) -> (r: Option<Envelope<A, C>>)
        requires
            old(self).wf(),
        ensures
            final(self).wf(),
            r == slot(old(self)@, token as int),
            final(self)@ == cleared(old(self)@, token as int),
            final(self).submitted_count() == old(self).submitted_count(),
            final(self).reclaimed_count() == old(self).reclaimed_count() + if r is Some { 1nat } else { 0nat },
    {
        if token >= self.slots.len() {
            return None;
        }
        let ghost s = self.slots@;
        proof {
            lemma_occupied_update(s, token as int, None);
        }
        let r = self.slots[token].take();
        proof {
            assert(self.slots@ =~= s.update(token as int, None));
        }
        if r.is_some() {
            proof {
                lemma_occupied_bound(s);
            }
            self.reclaimed = self.reclaimed + 1;
        }
        r
    }

    /// Takes back the envelope under `token` when the engine refused the submission it came
    /// with: the submission was never accepted, so it counts neither as submitted nor as
    /// reclaimed.
    pub fn retract(&mut self, token: usize) -> (r: Envelope<A, C>)
        requires
            old(self).wf(),
            slot(old(self)@, token as int) is Some,
        ensures
            final(self).wf(),
            Some(r) == slot(old(self)@, token as int),
            final(self)@ == cleared(old(self)@, token as int),
            final(self).submitted_count() + 1 == old(self).submitted_count(),
            final(self).reclaimed_count() == old(self).reclaimed_count(),
    {
        let ghost s = self.slots@;
        proof {
            lemma_occupied_update(s, token as int, None);
        }
        let r = self.slots[token].take();
        proof {
            assert(self.slots@ =~= s.update(token as int, None));
        }
        proof {
            lemma_occupied_bound(s);
        }
        self.submitted = self.submitted - 1;
        r.unwrap()
    }

    /// Reclaims every envelope the store holds, in token order, as the terminal callbacks of a
    /// flush do: afterwards every transferred envelope has been reclaimed exactly once.
    pub fn reclaim_all(&mut self) -> (r: Vec<Envelope<A, C>>)
        requires
            old(self).wf(),
        ensures
            final(self).wf(),
            r@ == occupants(old(self)@),
            r@.len() == occupied(old(self)@),
            occupied(final(self)@) == 0,
            final(self)@.len() == old(self)@.len(),
            final(self).submitted_count() == old(self).submitted_count(),
            final(self).reclaimed_count() == final(self).submitted_count(),
    {
        let mut out: Vec<Envelope<A, C>> = Vec::new();
        let n = self.slots.len();
        let mut i: usize = 0;
        while i < n
            invariant
                self.wf(),
                n == self.slots@.len(),
                n == old(self)@.len(),
                0 <= i <= n,
                forall|j: int| 0 <= j < i ==> self.slots@[j] is None,
                forall|j: int| i <= j < n ==> self.slots@[j] == old(self)@[j],
                self.submitted_count() == old(self).submitted_count(),
                out@.len() + occupied(self@) == occupied(old(self)@),
                out@ == occupants(old(self)@.subrange(0, i as int)),
            decreases n - i,
        {
            let ghost before = self.slots@;
            proof {
                assert(old(self)@.subrange(0, i + 1).drop_last() =~= old(self)@.subrange(0, i as int));
            }
            if let Some(e) = self.reclaim(i) {
                out.push(e);
            }
            proof {
                assert(self.slots@ =~= before.update(i as int, None));
            }
            i = i + 1;
        }
        proof {
            lemma_none_free(self.slots@);
            assert(old(self)@.subrange(0, n as int) =~= old(self)@);
            lemma_occupants_len(old(self)@);
        }
        out
    }
}

/// Reclaiming a token twice hands its envelope out once: the second reclaim finds nothing.
pub proof fn lemma_reclaim_once<E>(s: Seq<Option<E>>, token: int)
    ensures
        slot(cleared(s, token), token) is None,
        cleared(cleared(s, token), token) == cleared(s, token),
{
    if 0 <= token < s.len() {
        assert(cleared(cleared(s, token), token) =~= cleared(s, token));
    }
}

/// Once a store holds nothing, whether drained by terminal callbacks one by one or by a
/// flush, the count of terminal reclaims equals the count of accepted submissions.
pub proof fn lemma_drained_store_is_balanced<A, C>(store: EnvelopeStore<A, C>)
    requires
        store.wf(),
        occupied(store@) == 0,
    ensures
        store.reclaimed_count() == store.submitted_count(),
{
}

} // verus!
