use vstd::prelude::*;

verus! {

/// Makes an interface value from its dispatch table, so that a struct whose first field is that
/// value can stand for an object implementing the interface.
///
/// The table must match the engine's layout of the interface, entry for entry.
pub trait FromVtable: Sized {
    /// The dispatch table type.
    type Vtable;

    fn from_vtable(vtable: &'static Self::Vtable) -> Self;
}

/// An interface value: a reference to its dispatch table, as the engine's objects begin with.
pub struct Interface<V: 'static> {
    vtable: &'static V,
}

impl<V: 'static> Interface<V> {
    /// The dispatch table this interface value points to.
    pub fn vtable(&self) -> (r: &'static V)
        ensures
            *r == *self.table(),
    {
        self.vtable
    }

    pub closed spec fn table(&self) -> &'static V {
        self.vtable
    }
}

impl<V: 'static> FromVtable for Interface<V> {
    type Vtable = V;

    fn from_vtable(vtable: &'static V) -> Interface<V> {
        Interface { vtable }
    }
}

/// The entries of an interface's dispatch table, by method name, in table order: the base
/// interface's entries first, then the interface's own.
pub struct VtableLayout {
    slots: Vec<String>,
}

impl View for VtableLayout {
    type V = Seq<String>;

    closed spec fn view(&self) -> Seq<String> {
        self.slots@
    }
}

/// The first entry named `name`, if any.
pub open spec fn slot_view(table: Seq<String>, name: Seq<char>) -> Option<int>
    decreases table.len(),
{
    if table.len() == 0 {
        None
    } else {
        match slot_view(table.drop_last(), name) {
            Some(i) => Some(i),
            None => if table.last()@ == name { Some(table.len() - 1) } else { None },
        }
    }
}

/// Whether `base` is a prefix of `derived`, which makes a derived interface value usable as
/// its base.
pub open spec fn prefix_view(base: Seq<String>, derived: Seq<String>) -> bool {
    base.len() <= derived.len() && forall|j: int| 0 <= j < base.len() ==> #[trigger] derived[j]@ == base[j]@
}

proof fn lemma_slot_extend(a: Seq<String>, b: Seq<String>, name: Seq<char>)
    requires
        slot_view(a, name) is Some,
    ensures
        slot_view(a + b, name) == slot_view(a, name),
    decreases b.len(),
{
    if b.len() == 0 {
        assert(a + b =~= a);
    } else {
        assert((a + b).drop_last() =~= a + b.drop_last());
        lemma_slot_extend(a, b.drop_last(), name);
    }
}

proof fn lemma_slot_none_prefix(t: Seq<String>, i: int, name: Seq<char>)
    requires
        0 <= i < t.len(),
        slot_view(t.subrange(0, i), name) is None,
        t[i]@ != name,
    ensures
        slot_view(t.subrange(0, i + 1), name) is None,
{
    assert(t.subrange(0, i + 1).drop_last() =~= t.subrange(0, i));
}

impl VtableLayout {
    /// The table of an interface with no base: its own methods, in order.
    pub fn root(methods: Vec<String>) -> (r: Self)
        ensures
            r@ == methods@,
    {
        VtableLayout { slots: methods }
    }

    /// The table of an interface deriving from `base`: the base's table, then `methods`.
    pub fn derive(base: &VtableLayout, methods: Vec<String>) -> (r: Self)
        ensures
            r@ == base@ + methods@,
    {
        let mut slots: Vec<String> = Vec::new();
        let mut i: usize = 0;
        while i < base.slots.len()
            invariant
                0 <= i <= base.slots@.len(),
                slots@ == base.slots@.subrange(0, i as int),
            decreases base.slots@.len() - i,
        {
            slots.push(base.slots[i].clone());
            proof {
                assert(slots@ =~= base.slots@.subrange(0, i + 1));
            }
            i = i + 1;
        }
        let mut j: usize = 0;
        while j < methods.len()
            invariant
                0 <= j <= methods@.len(),
                slots@ == base.slots@ + methods@.subrange(0, j as int),
            decreases methods@.len() - j,
        {
            slots.push(methods[j].clone());
            proof {
                assert(slots@ =~= base.slots@ + methods@.subrange(0, j + 1));
            }
            j = j + 1;
        }
        proof {
            assert(base.slots@.subrange(0, base.slots@.len() as int) =~= base.slots@);
            assert(methods@.subrange(0, methods@.len() as int) =~= methods@);
        }
        VtableLayout { slots }
    }

    pub fn len(&self) -> (r: usize)
        ensures
            r == self@.len(),
    {
        self.slots.len()
    }

    /// The entry a forwarding method for `name` calls through.
    pub fn slot(&self, name: &String) -> (r: Option<usize>)
        ensures
            r matches Some(i) ==> slot_view(self@, name@) == Some(i as int),
            r is None ==> slot_view(self@, name@) is None,
    {
        let mut i: usize = 0;
        proof {
            assert(self.slots@.subrange(0, 0) =~= Seq::<String>::empty());
        }
        while i < self.slots.len()
            invariant
                0 <= i <= self.slots@.len(),
                slot_view(self.slots@.subrange(0, i as int), name@) is None,
            decreases self.slots@.len() - i,
        {
            if self.slots[i].eq(name) {
                proof {
                    let t = self.slots@;
                    assert(t.subrange(0, i + 1).drop_last() =~= t.subrange(0, i as int));
                    assert(slot_view(t.subrange(0, i + 1), name@) == Some(i as int));
                    lemma_slot_extend(t.subrange(0, i + 1), t.subrange(i + 1, t.len() as int), name@);
                    assert(t.subrange(0, i + 1) + t.subrange(i + 1, t.len() as int) =~= t);
                }
                return Some(i);
            }
            proof {
                lemma_slot_none_prefix(self.slots@, i as int, name@);
            }
            i = i + 1;
        }
        proof {
            assert(self.slots@.subrange(0, self.slots@.len() as int) =~= self.slots@);
        }
        None
    }

    /// Whether a value of the interface with table `derived` may be read as one of this
    /// interface: this table must be a prefix of `derived`.
    pub fn is_prefix_of(&self, derived: &VtableLayout) -> (r: bool)
        ensures
            r == prefix_view(self@, derived@),
    {
        if self.slots.len() > derived.slots.len() {
            return false;
        }
        let mut i: usize = 0;
        while i < self.slots.len()
            invariant
                self.slots@.len() <= derived.slots@.len(),
                0 <= i <= self.slots@.len(),
                forall|j: int| 0 <= j < i ==> #[trigger] derived@[j]@ == self@[j]@,
            decreases self.slots@.len() - i,
        {
            if !self.slots[i].eq(&derived.slots[i]) {
                proof {
                    assert(derived@[i as int]@ != self@[i as int]@);
                }
                return false;
            }
            i = i + 1;
        }
        true
    }
}

/// A derived interface's table begins with its base's table, so every method of the base is
/// dispatched through the same entry whether the value is read as the base or as the derived
/// interface: reading a derived value as its base is a pure reinterpretation.
pub proof fn lemma_upcast_preserves_dispatch(base: Seq<String>, own: Seq<String>, name: Seq<char>)
    requires
        slot_view(base, name) is Some,
    ensures
        prefix_view(base, base + own),
        slot_view(base + own, name) == slot_view(base, name),
{
    assert forall|j: int| 0 <= j < base.len() implies #[trigger] (base + own)[j]@ == base[j]@ by {
        assert((base + own)[j] == base[j]);
    }
    lemma_slot_extend(base, own, name);
}

} // verus!
