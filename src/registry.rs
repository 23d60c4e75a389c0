//! One capability class: a set of providers keyed by a string identifier.
use vstd::prelude::*;

verus! {

/// One entry of a registry: the identifier, the provider behind it and
/// whether it is enabled by default.
pub struct Registration<P> {
    pub id: String,
    pub provider: P,
    pub enabled_by_default: bool,
}

/// What an entry stands for: its identifier as characters, its provider and
/// its default.
pub struct RegistrationView<P> {
    pub id: Seq<char>,
    pub provider: P,
    pub enabled_by_default: bool,
}

impl<P> View for Registration<P> {
    type V = RegistrationView<P>;

    open spec fn view(&self) -> RegistrationView<P> {
        RegistrationView {
            id: self.id@,
            provider: self.provider,
            enabled_by_default: self.enabled_by_default,
        }
    }
}

/// Whether some entry of `s` carries the identifier `id`.
pub open spec fn has_id<P>(s: Seq<RegistrationView<P>>, id: Seq<char>) -> bool {
    exists|i: int| 0 <= i < s.len() && (#[trigger] s[i]).id == id
}

/// No identifier occurs twice in `s`.
pub open spec fn unique_ids<P>(s: Seq<RegistrationView<P>>) -> bool {
    forall|i: int, j: int|
        0 <= i < s.len() && 0 <= j < s.len() && (#[trigger] s[i]).id == (#[trigger] s[j]).id
            ==> i == j
}

/// The position of the entry for `id`, where there is one.
pub open spec fn position_of<P>(s: Seq<RegistrationView<P>>, id: Seq<char>) -> int {
    choose|i: int| 0 <= i < s.len() && (#[trigger] s[i]).id == id
}

/// The entries after registering `r`: an entry with the same identifier is
/// replaced in place, otherwise `r` is appended.
pub open spec fn with_registration<P>(s: Seq<RegistrationView<P>>, r: RegistrationView<P>) -> Seq<RegistrationView<P>> {
    if has_id(s, r.id) {
        s.update(position_of(s, r.id), r)
    } else {
        s.push(r)
    }
}

/// The entries after unregistering `id`: its entry is removed, if any.
pub open spec fn without_id<P>(s: Seq<RegistrationView<P>>, id: Seq<char>) -> Seq<RegistrationView<P>> {
    if has_id(s, id) {
        s.remove(position_of(s, id))
    } else {
        s
    }
}

/// The identifiers of `s`, in order.
pub open spec fn ids_of<P>(s: Seq<RegistrationView<P>>) -> Seq<Seq<char>> {
    s.map_values(|r: RegistrationView<P>| r.id)
}

/// Registering `r` keeps identifiers unique, leaves exactly one entry under
/// `r`'s identifier, namely `r`, and keeps every other identifier's presence.
pub proof fn lemma_with_registration<P>(s: Seq<RegistrationView<P>>, r: RegistrationView<P>)
    requires
        unique_ids(s),
    ensures
        unique_ids(with_registration(s, r)),
        has_id(with_registration(s, r), r.id),
        forall|i: int|
            0 <= i < with_registration(s, r).len() && (#[trigger] with_registration(s, r)[i]).id
                == r.id ==> with_registration(s, r)[i] == r,
        forall|id: Seq<char>| id != r.id ==> has_id(with_registration(s, r), id) == has_id(s, id),
{
    let t = with_registration(s, r);
    if has_id(s, r.id) {
        let k = position_of(s, r.id);
        assert(s[k].id == r.id);
        assert(t[k] == r);
        assert forall|id: Seq<char>| id != r.id implies has_id(t, id) == has_id(s, id) by {
            if has_id(s, id) {
                let j = choose|j: int| 0 <= j < s.len() && (#[trigger] s[j]).id == id;
                assert(t[j] == s[j]);
            }
            if has_id(t, id) {
                let j = choose|j: int| 0 <= j < t.len() && (#[trigger] t[j]).id == id;
                assert(t[j] == s[j]);
            }
        }
    } else {
        assert(t[s.len() as int] == r);
        assert forall|id: Seq<char>| id != r.id implies has_id(t, id) == has_id(s, id) by {
            if has_id(s, id) {
                let j = choose|j: int| 0 <= j < s.len() && (#[trigger] s[j]).id == id;
                assert(t[j] == s[j]);
            }
            if has_id(t, id) {
                let j = choose|j: int| 0 <= j < t.len() && (#[trigger] t[j]).id == id;
                assert(t[j] == s[j]);
            }
        }
    }
}

/// Unregistering `id` keeps identifiers unique, removes `id`, and keeps every
/// other identifier's presence.
pub proof fn lemma_without_id<P>(s: Seq<RegistrationView<P>>, id: Seq<char>)
    requires
        unique_ids(s),
    ensures
        unique_ids(without_id(s, id)),
        !has_id(without_id(s, id), id),
        forall|other: Seq<char>| other != id ==> has_id(without_id(s, id), other) == has_id(s, other),
{
    let t = without_id(s, id);
    if has_id(s, id) {
        let k = position_of(s, id);
        assert(s[k].id == id);
        assert forall|a: int| 0 <= a < t.len() implies #[trigger] t[a] == s[if a < k { a } else { a + 1 }] by {}
        assert forall|a: int, b: int|
            0 <= a < t.len() && 0 <= b < t.len() && (#[trigger] t[a]).id == (#[trigger] t[b]).id
                implies a == b by {
            assert(t[a] == s[if a < k { a } else { a + 1 }]);
            assert(t[b] == s[if b < k { b } else { b + 1 }]);
        }
        if has_id(t, id) {
            let j = choose|j: int| 0 <= j < t.len() && (#[trigger] t[j]).id == id;
            assert(t[j] == s[if j < k { j } else { j + 1 }]);
        }
        assert forall|other: Seq<char>| other != id implies has_id(t, other) == has_id(s, other) by {
            if has_id(s, other) {
                let j = choose|j: int| 0 <= j < s.len() && (#[trigger] s[j]).id == other;
                assert(j != k);
                let a = if j < k { j } else { j - 1 };
                assert(t[a] == s[j]);
            }
            if has_id(t, other) {
                let j = choose|j: int| 0 <= j < t.len() && (#[trigger] t[j]).id == other;
                assert(t[j] == s[if j < k { j } else { j + 1 }]);
            }
        }
    }
}

/// Registering twice under one identifier leaves exactly one entry under it,
/// and that entry is the second registration.
pub proof fn lemma_register_last_write_wins<P>(
    s: Seq<RegistrationView<P>>,
    first: RegistrationView<P>,
    second: RegistrationView<P>,
)
    requires
        unique_ids(s),
        first.id == second.id,
    ensures
        unique_ids(with_registration(with_registration(s, first), second)),
        has_id(with_registration(with_registration(s, first), second), second.id),
        forall|i: int|
            0 <= i < with_registration(with_registration(s, first), second).len() && (#[trigger] with_registration(
                with_registration(s, first),
                second,
            )[i]).id == second.id ==> with_registration(with_registration(s, first), second)[i]
                == second,
{
    lemma_with_registration(s, first);
    lemma_with_registration(with_registration(s, first), second);
}

/// After unregistering `id`, listing the registry never yields `id`, whether
/// or not it was registered before.
pub proof fn lemma_unregister_then_list<P>(s: Seq<RegistrationView<P>>, id: Seq<char>)
    requires
        unique_ids(s),
    ensures
        !ids_of(without_id(s, id)).contains(id),
{
    lemma_without_id(s, id);
    let t = without_id(s, id);
    if ids_of(t).contains(id) {
        let j = choose|j: int| 0 <= j < ids_of(t).len() && ids_of(t)[j] == id;
        assert(t[j].id == id);
    }
}

/// The providers of one capability class. Identifiers are unique: a second
/// registration under an identifier replaces the first.
pub struct ProviderRegistry<P> {
    entries: Vec<Registration<P>>,
}

impl<P> View for ProviderRegistry<P> {
    type V = Seq<RegistrationView<P>>;

    closed spec fn view(&self) -> Seq<RegistrationView<P>> {
        self.entries@.map_values(|r: Registration<P>| r@)
    }
}

impl<P> ProviderRegistry<P> {
    /// The registry's invariant: every identifier occurs at most once.
    pub open spec fn wf(&self) -> bool {
        unique_ids(self@)
    }

    /// Whether an entry for `id` is registered.
    pub open spec fn contains_spec(&self, id: Seq<char>) -> bool {
        has_id(self@, id)
    }

    /// An empty registry.
    pub fn new() -> (r: Self)
        ensures
            r.wf(),
            r@ == Seq::<RegistrationView<P>>::empty(),
    {
        ProviderRegistry { entries: Vec::new() }
    }

    /// The position of the entry for `id`, or `None` where there is none.
    fn find(&self, id: &String) -> (r: Option<usize>)
        ensures
            match r {
                Some(i) => i < self@.len() && self@[i as int].id == id@,
                None => !has_id(self@, id@),
            },
    {
        let mut i: usize = 0;
        while i < self.entries.len()
            invariant
                i <= self.entries@.len(),
                forall|j: int| 0 <= j < i ==> (#[trigger] self.entries@[j]).id@ != id@,
            decreases self.entries@.len() - i,
        {
            if self.entries[i].id == *id {
                return Some(i);
            }
            i = i + 1;
        }
        None
    }

    /// Registers `provider` under `id`, replacing the entry already there.
    pub fn register(&mut self, id: String, provider: P, enabled_by_default: bool)
        requires
            old(self).wf(),
        ensures
            final(self).wf(),
            final(self)@ == with_registration(
                old(self)@,
                (RegistrationView { id: id@, provider, enabled_by_default }),
            ),
    {
        let ghost r = RegistrationView { id: id@, provider, enabled_by_default };
        match self.find(&id) {
            Some(i) => {
                proof {
                    let k = position_of(self@, id@);
                    assert(has_id(self@, id@));
                    assert(self@[k].id == id@);
                }
                self.entries.set(i, Registration { id, provider, enabled_by_default });
            },
            None => {
                self.entries.push(Registration { id, provider, enabled_by_default });
            },
        }
        proof {
            assert(self@ == with_registration(old(self)@, r));
        }
    }

    /// Removes the entry for `id`; nothing changes where there is none.
    pub fn unregister(&mut self, id: &String)
        requires
            old(self).wf(),
        ensures
            final(self).wf(),
            final(self)@ == without_id(old(self)@, id@),
    {
        match self.find(id) {
            Some(i) => {
                proof {
                    let k = position_of(self@, id@);
                    assert(has_id(self@, id@));
                    assert(self@[k].id == id@);
                }
                self.entries.remove(i);
                proof {
                    assert forall|a: int, b: int|
                        0 <= a < self@.len() && 0 <= b < self@.len() && (#[trigger] self@[a]).id
                            == (#[trigger] self@[b]).id implies a == b by {
                        let a0 = if a < i { a } else { a + 1 };
                        let b0 = if b < i { b } else { b + 1 };
                        assert(old(self)@[a0] == self@[a]);
                        assert(old(self)@[b0] == self@[b]);
                    }
                }
            },
            None => {},
        }
    }

    /// Whether an entry for `id` is registered.
    pub fn contains(&self, id: &String) -> (r: bool)
        ensures
            r == has_id(self@, id@),
    {
        self.find(id).is_some()
    }

    /// The identifiers registered now, in order.
    pub fn list(&self) -> (r: Vec<String>)
        ensures
            r@.map_values(|x: String| x@) == ids_of(self@),
    {
        let mut out: Vec<String> = Vec::new();
        let mut i: usize = 0;
        while i < self.entries.len()
            invariant
                i <= self.entries@.len(),
                out@.len() == i,
                forall|j: int| 0 <= j < i ==> (#[trigger] out@[j])@ == self.entries@[j].id@,
            decreases self.entries@.len() - i,
        {
            out.push(self.entries[i].id.clone());
            i = i + 1;
        }
        assert(out@.map_values(|x: String| x@) =~= ids_of(self@));
        out
    }

    /// The number of entries.
    pub fn len(&self) -> (r: usize)
        ensures
            r == self@.len(),
    {
        self.entries.len()
    }

    /// The entry for `id`, where there is one.
    pub fn get(&self, id: &String) -> (r: Option<&Registration<P>>)
        requires
            self.wf(),
        ensures
            match r {
                Some(e) => has_id(self@, id@) && e@ == self@[position_of(self@, id@)],
                None => !has_id(self@, id@),
            },
    {
        match self.find(id) {
            Some(i) => {
                proof {
                    let k = position_of(self@, id@);
                    assert(has_id(self@, id@));
                    assert(self@[k].id == id@);
                }
                Some(&self.entries[i])
            },
            None => None,
        }
    }
}

} // verus!
