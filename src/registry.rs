use vstd::prelude::*;

verus! {

/// The static metadata that identifies a capability to clients.
pub struct Descriptor {
    pub name: String,
    pub description: Option<String>,
    /// The accepted arguments, as JSON text: an input schema for a tool, an
    /// argument list for a prompt.
    pub schema: String,
}

impl Descriptor {
    /// An equal copy of this descriptor.
    pub fn duplicate(&self) -> (r: Descriptor)
        ensures
            r == *self,
    {
        let description = match &self.description {
            Some(d) => Some(d.clone()),
            None => None,
        };
        Descriptor { name: self.name.clone(), description, schema: self.schema.clone() }
    }
}

/// A registered capability: its descriptor and the handle of its behaviour.
pub struct Capability<B> {
    pub descriptor: Descriptor,
    pub behavior: B,
}

/// Returned by `register` when the name is already taken in the registry.
pub struct DuplicateName {
    pub name: String,
}

/// Does some record of `s` carry the name `n`?
pub open spec fn names_in<B>(s: Seq<Capability<B>>, n: Seq<char>) -> bool {
    exists|i: int| 0 <= i < s.len() && (#[trigger] s[i]).descriptor.name@ == n
}

/// No two records of `s` carry the same name.
pub open spec fn unique_names<B>(s: Seq<Capability<B>>) -> bool {
    forall|i: int, j: int|
        0 <= i < s.len() && 0 <= j < s.len() && i != j ==> (#[trigger] s[i]).descriptor.name@
            != (#[trigger] s[j]).descriptor.name@
}

/// The record of `s` named `n`, if there is one.
pub open spec fn lookup_in<B>(s: Seq<Capability<B>>, n: Seq<char>) -> Option<Capability<B>> {
    if names_in(s, n) {
        Some(s[choose|i: int| 0 <= i < s.len() && (#[trigger] s[i]).descriptor.name@ == n])
    } else {
        None
    }
}

/// What registering `c` in a registry holding `s` leaves: `s` unchanged where
/// the name is taken, else `s` with `c` appended.
pub open spec fn register_in<B>(s: Seq<Capability<B>>, c: Capability<B>) -> Seq<Capability<B>> {
    if names_in(s, c.descriptor.name@) {
        s
    } else {
        s.push(c)
    }
}

/// The descriptors of `s`, in registration order.
pub open spec fn descriptors_of<B>(s: Seq<Capability<B>>) -> Seq<Descriptor> {
    s.map_values(|c: Capability<B>| c.descriptor)
}

/// After a capability is registered under a new name, looking that name up
/// gives back exactly the record registered, and every name registered before
/// still gives back its own record.
pub proof fn lemma_lookup_after_register<B>(s: Seq<Capability<B>>, c: Capability<B>)
    requires
        unique_names(s),
        !names_in(s, c.descriptor.name@),
    ensures
        lookup_in(register_in(s, c), c.descriptor.name@) == Some(c),
        forall|i: int|
            0 <= i < s.len() ==> lookup_in(register_in(s, c), (#[trigger] s[i]).descriptor.name@)
                == Some(s[i]),
{
    let t = register_in(s, c);
    assert(t == s.push(c));
    assert(unique_names(t)) by {
        assert forall|i: int, j: int|
            0 <= i < t.len() && 0 <= j < t.len() && i != j implies (#[trigger] t[i]).descriptor.name@
                != (#[trigger] t[j]).descriptor.name@ by {
            if i < s.len() && j < s.len() {
                assert(s[i] == t[i] && s[j] == t[j]);
            } else if i < s.len() {
                assert(s[i] == t[i]);
            } else {
                assert(s[j] == t[j]);
            }
        }
    }
    lemma_lookup_registered(t, t.len() - 1);
    assert forall|i: int| 0 <= i < s.len() implies lookup_in(t, (#[trigger] s[i]).descriptor.name@)
        == Some(s[i]) by {
        assert(t[i] == s[i]);
        lemma_lookup_registered(t, i);
    }
}

/// In a registry with unique names, every registered name looks up to its
/// own record.
pub proof fn lemma_lookup_registered<B>(s: Seq<Capability<B>>, i: int)
    requires
        unique_names(s),
        0 <= i < s.len(),
    ensures
        lookup_in(s, s[i].descriptor.name@) == Some(s[i]),
{
    let n = s[i].descriptor.name@;
    assert(names_in(s, n));
    let k = choose|k: int| 0 <= k < s.len() && (#[trigger] s[k]).descriptor.name@ == n;
    assert(k == i);
}

/// Lookups leave a registry as it is (`lookup` takes it by shared
/// reference), so any number of them, made in any order or interleaving,
/// each give back the record registered under the name asked for.
pub proof fn lemma_lookups_in_any_order<B>(s: Seq<Capability<B>>, picks: Seq<int>)
    requires
        unique_names(s),
        forall|j: int| 0 <= j < picks.len() ==> 0 <= #[trigger] picks[j] < s.len(),
    ensures
        forall|j: int|
            0 <= j < picks.len() ==> lookup_in(s, s[#[trigger] picks[j]].descriptor.name@)
                == Some(s[picks[j]]),
{
    assert forall|j: int| 0 <= j < picks.len() implies lookup_in(
        s,
        s[#[trigger] picks[j]].descriptor.name@,
    ) == Some(s[picks[j]]) by {
        lemma_lookup_registered(s, picks[j]);
    }
}

/// Looking up a name that no registration carried gives nothing.
pub proof fn lemma_lookup_unregistered<B>(s: Seq<Capability<B>>, n: Seq<char>)
    requires
        forall|i: int| 0 <= i < s.len() ==> (#[trigger] s[i]).descriptor.name@ != n,
    ensures
        lookup_in(s, n) is None,
{
}

/// A registry filled by registrations under distinct names lists one
/// descriptor per registration, each equal to the one registered, in
/// registration order.
pub proof fn lemma_list_after_registrations<B>(cs: Seq<Capability<B>>)
    requires
        unique_names(cs),
    ensures
        registered_all(Seq::empty(), cs) == cs,
        descriptors_of(registered_all(Seq::empty(), cs)).len() == cs.len(),
        forall|i: int|
            0 <= i < cs.len() ==> descriptors_of(registered_all(Seq::empty(), cs))[i]
                == (#[trigger] cs[i]).descriptor,
    decreases cs.len(),
{
    if cs.len() > 0 {
        let front = cs.drop_last();
        assert(unique_names(front)) by {
            assert forall|i: int, j: int|
                0 <= i < front.len() && 0 <= j < front.len() && i != j implies (#[trigger] front[i]).descriptor.name@
                    != (#[trigger] front[j]).descriptor.name@ by {
                assert(front[i] == cs[i] && front[j] == cs[j]);
            }
        }
        lemma_list_after_registrations(front);
        let last = cs.last();
        assert(!names_in(front, last.descriptor.name@)) by {
            if names_in(front, last.descriptor.name@) {
                let k = choose|k: int| 0 <= k < front.len() && (#[trigger] front[k]).descriptor.name@ == last.descriptor.name@;
                assert(front[k] == cs[k]);
            }
        }
        assert(front.push(last) == cs);
    }
}

/// The records left by registering each of `cs` in turn, starting from `s`.
pub open spec fn registered_all<B>(s: Seq<Capability<B>>, cs: Seq<Capability<B>>) -> Seq<Capability<B>>
    decreases cs.len(),
{
    if cs.len() == 0 {
        s
    } else {
        register_in(registered_all(s, cs.drop_last()), cs.last())
    }
}

/// The capabilities of one kind, by unique name, in registration order.
pub struct Registry<B> {
    entries: Vec<Capability<B>>,
}

impl<B> View for Registry<B> {
    type V = Seq<Capability<B>>;

    closed spec fn view(&self) -> Seq<Capability<B>> {
        self.entries@
    }
}

impl<B> Registry<B> {
    pub open spec fn wf(&self) -> bool {
        unique_names(self@)
    }

    pub fn new() -> (r: Self)
        ensures
            r.wf(),
            r@ == Seq::<Capability<B>>::empty(),
    {
        Registry { entries: Vec::new() }
    }

    pub fn len(&self) -> (r: usize)
        ensures
            r == self@.len(),
    {
        self.entries.len()
    }

    /// The position of the record named `name`, if there is one.
    fn position(&self, name: &String) -> (r: Option<usize>)
        ensures
            r is None <==> !names_in(self@, name@),
            r matches Some(i) ==> i < self@.len() && self@[i as int].descriptor.name@ == name@,
    {
        let mut i: usize = 0;
        while i < self.entries.len()
            invariant
                i <= self@.len(),
                forall|k: int| 0 <= k < i ==> (#[trigger] self@[k]).descriptor.name@ != name@,
            decreases self@.len() - i,
        {
            if self.entries[i].descriptor.name == *name {
                return Some(i);
            }
            i = i + 1;
        }
        None
    }

    /// Adds `c` under its name. A name that is taken is refused and the
    /// registry is left as it was.
    pub fn register(&mut self, c: Capability<B>) -> (r: Result<(), DuplicateName>)
        requires
            old(self).wf(),
        ensures
            final(self).wf(),
            final(self)@ == register_in(old(self)@, c),
            r is Err <==> names_in(old(self)@, c.descriptor.name@),
            r matches Err(e) ==> e.name@ == c.descriptor.name@,
    {
        match self.position(&c.descriptor.name) {
            Some(_) => Err(DuplicateName { name: c.descriptor.name }),
            None => {
                proof {
                    let s = self@.push(c);
                    assert forall|i: int, j: int|
                        0 <= i < s.len() && 0 <= j < s.len() && i != j implies (#[trigger] s[i]).descriptor.name@
                            != (#[trigger] s[j]).descriptor.name@ by {
                        if i == s.len() - 1 {
                            assert(self@[j] == s[j]);
                        } else if j == s.len() - 1 {
                            assert(self@[i] == s[i]);
                        } else {
                            assert(self@[i] == s[i] && self@[j] == s[j]);
                        }
                    }
                }
                self.entries.push(c);
                Ok(())
            },
        }
    }

    /// The record registered under `name`, if there is one.
    pub fn lookup(&self, name: &String) -> (r: Option<&Capability<B>>)
        requires
            self.wf(),
        ensures
            r is None <==> lookup_in(self@, name@) is None,
            r matches Some(c) ==> lookup_in(self@, name@) == Some(*c),
    {
        match self.position(name) {
            Some(i) => {
                proof {
                    let k = choose|k: int| 0 <= k < self@.len() && (#[trigger] self@[k]).descriptor.name@ == name@;
                    assert(k == i as int);
                }
                Some(&self.entries[i])
            },
            None => None,
        }
    }

    /// The descriptors of all records, in registration order.
    pub fn list(&self) -> (r: Vec<Descriptor>)
        ensures
            r@ == descriptors_of(self@),
    {
        let mut out: Vec<Descriptor> = Vec::new();
        let mut i: usize = 0;
        while i < self.entries.len()
            invariant
                i <= self@.len(),
                out@ == descriptors_of(self@.subrange(0, i as int)),
            decreases self@.len() - i,
        {
            out.push(self.entries[i].descriptor.duplicate());
            proof {
                assert(self@.subrange(0, i + 1) == self@.subrange(0, i as int).push(self@[i as int]));
            }
            i = i + 1;
        }
        proof {
            assert(self@.subrange(0, self@.len() as int) == self@);
        }
        out
    }
}

} // verus!
