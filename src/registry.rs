use vstd::prelude::*;

verus! {

/// The engine-level callback objects registered with one engine, keyed by the identity of the
/// interface object handed to the engine (its address).
///
/// Registering an object that is registered already, and unregistering one that is not, change
/// nothing: each reports `false`, and only a `true` is forwarded to the engine.
pub struct CallbackRegistry {
    ids: Vec<usize>,
}

impl View for CallbackRegistry {
    type V = Set<usize>;

    closed spec fn view(&self) -> Set<usize> {
        self.ids@.to_set()
    }
}

/// The registrations after registering `id`.
pub open spec fn registered(s: Set<usize>, id: usize) -> Set<usize> {
    s.insert(id)
}

/// The registrations after unregistering `id`.
pub open spec fn unregistered(s: Set<usize>, id: usize) -> Set<usize> {
    s.remove(id)
}

impl CallbackRegistry {
    #[verifier::type_invariant]
    spec fn no_duplicates(self) -> bool {
        self.ids@.no_duplicates()
    }

    pub fn new() -> (r: Self)
        ensures
            r@ == Set::<usize>::empty(),
    {
        let r = CallbackRegistry { ids: Vec::new() };
        proof {
            assert(r.ids@.to_set() =~= Set::<usize>::empty());
        }
        r
    }

    fn position(&self, id: usize) -> (r: Option<usize>)
        ensures
            r matches Some(i) ==> i < self.ids@.len() && self.ids@[i as int] == id,
            r is None ==> !self.ids@.contains(id),
    {
        let mut i: usize = 0;
        while i < self.ids.len()
            invariant
                0 <= i <= self.ids@.len(),
                forall|j: int| 0 <= j < i ==> self.ids@[j] != id,
            decreases self.ids@.len() - i,
        {
            if self.ids[i] == id {
                return Some(i);
            }
            i = i + 1;
        }
        None
    }

    pub fn is_registered(&self, id: usize) -> (r: bool)
        ensures
            r == self@.contains(id),
    {
        self.position(id).is_some()
    }

    /// Records the registration of `id`. Returns whether it is new, that is whether the engine
    /// is to be told.
    pub fn register(&mut self, id: usize) -> (changed: bool)
        ensures
            final(self)@ == registered(old(self)@, id),
            changed == !old(self)@.contains(id),
    {
        proof {
            use_type_invariant(&*self);
        }
        match self.position(id) {
            Some(_) => {
                proof {
                    assert(self.ids@.to_set().insert(id) =~= self.ids@.to_set());
                }
                false
            },
            None => {
                let ghost before = self.ids@;
                let mut ids = Vec::new();
                std::mem::swap(&mut ids, &mut self.ids);
                ids.push(id);
                proof {
                    assert(ids@ == before.push(id));
                    assert forall|a: int, b: int| 0 <= a < b < ids@.len() implies ids@[a] != ids@[b] by {
                        assert(ids@[a] == before[a]);
                        if b == ids@.len() - 1 {
                            if before[a] == id {
                                assert(before.contains(id));
                            }
                        } else {
                            assert(ids@[b] == before[b]);
                        }
                    }
                    assert forall|x: usize| ids@.to_set().contains(x) <==> before.to_set().insert(id).contains(x) by {
                        if ids@.contains(x) {
                            let k = choose|k: int| 0 <= k < ids@.len() && ids@[k] == x;
                            if k < before.len() {
                                assert(before[k] == x);
                            }
                        }
                        if before.contains(x) {
                            let k = choose|k: int| 0 <= k < before.len() && before[k] == x;
                            assert(ids@[k] == x);
                        }
                        if x == id {
                            assert(ids@[before.len() as int] == x);
                        }
                    }
                    assert(ids@.to_set() =~= before.to_set().insert(id));
                }
                self.ids = ids;
                true
            },
        }
    }

    /// Records that `id` is no longer registered. Returns whether it was, that is whether the
    /// engine is to be told; unregistering an object that is not registered is a no-op.
    pub fn unregister(&mut self, id: usize) -> (changed: bool)
        ensures
            final(self)@ == unregistered(old(self)@, id),
            changed == old(self)@.contains(id),
    {
        proof {
            use_type_invariant(&*self);
        }
        match self.position(id) {
            None => {
                proof {
                    assert(self.ids@.to_set().remove(id) =~= self.ids@.to_set());
                }
                false
            },
            Some(i) => {
                let ghost before = self.ids@;
                let mut ids = Vec::new();
                std::mem::swap(&mut ids, &mut self.ids);
                ids.remove(i);
                proof {
                    assert(ids@ == before.remove(i as int));
                    assert forall|a: int, b: int| 0 <= a < b < ids@.len() implies ids@[a] != ids@[b] by {
                        let a0 = if a < i { a } else { a + 1 };
                        let b0 = if b < i { b } else { b + 1 };
                        assert(ids@[a] == before[a0]);
                        assert(ids@[b] == before[b0]);
                    }
                    assert forall|x: usize| ids@.to_set().contains(x) <==> before.to_set().remove(id).contains(x) by {
                        if ids@.contains(x) {
                            let k = choose|k: int| 0 <= k < ids@.len() && ids@[k] == x;
                            let k0 = if k < i { k } else { k + 1 };
                            assert(before[k0] == x);
                            assert(k0 != i);
                        }
                        if before.contains(x) && x != id {
                            let k = choose|k: int| 0 <= k < before.len() && before[k] == x;
                            assert(k != i);
                            let k1 = if k < i { k } else { k - 1 };
                            assert(ids@[k1] == x);
                        }
                    }
                    assert(ids@.to_set() =~= before.to_set().remove(id));
                }
                self.ids = ids;
                true
            },
        }
    }
}

/// Registration is idempotent and so is unregistration: registering twice, then unregistering
/// three times, leaves the same registrations as one registration and one unregistration, and
/// unregistering an object that is not registered changes nothing.
pub proof fn lemma_registration_idempotent(s: Set<usize>, id: usize)
    ensures
        registered(registered(s, id), id) == registered(s, id),
        unregistered(unregistered(s, id), id) == unregistered(s, id),
        !s.contains(id) ==> unregistered(s, id) == s,
        unregistered(unregistered(unregistered(registered(registered(s, id), id), id), id), id)
            == unregistered(registered(s, id), id),
{
    assert(registered(registered(s, id), id) =~= registered(s, id));
    assert(unregistered(unregistered(s, id), id) =~= unregistered(s, id));
    if !s.contains(id) {
        assert(unregistered(s, id) =~= s);
    }
    assert(unregistered(unregistered(unregistered(registered(registered(s, id), id), id), id), id)
        =~= unregistered(registered(s, id), id));
}

} // verus!
