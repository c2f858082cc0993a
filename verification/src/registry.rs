//! The store behind a host: one slot per event name.

use vstd::prelude::*;
use vstd::hash_map::StringHashMap;
use crate::callback::CallbackType;
use crate::event::Event;
use crate::observable::Observable;

verus! {

/// What a lookup of `name` in `m` gives.
pub open spec fn lookup<V>(m: Map<Seq<char>, V>, name: Seq<char>) -> Option<V> {
    if m.contains_key(name) {
        Some(m[name])
    } else {
        None
    }
}

/// A map from event names to callbacks with at most one callback per name.
/// Its view is that map.
#[verifier::reject_recursive_types(Callback)]
#[verifier::reject_recursive_types(MutCallback)]
pub struct Registry<Callback, MutCallback> {
    slots: StringHashMap<CallbackType<Callback, MutCallback>>,
}

impl<Callback, MutCallback> View for Registry<Callback, MutCallback> {
    type V = Map<Seq<char>, CallbackType<Callback, MutCallback>>;

    closed spec fn view(&self) -> Self::V {
        self.slots@
    }
}

impl<Callback, MutCallback> Registry<Callback, MutCallback> {
    /// A registry with no callback in it.
    pub fn new() -> (r: Self)
        ensures
            r@ == Map::<Seq<char>, CallbackType<Callback, MutCallback>>::empty(),
    {
        Registry { slots: StringHashMap::new() }
    }

    /// A copy of the callback stored under `name`, if there is one.
    pub fn get(&self, name: &str) -> (cb: Option<CallbackType<Callback, MutCallback>>) where
        Callback: Copy,
        MutCallback: Copy,

        ensures
            cb == lookup(self@, name@),
    {
        match self.slots.get(name) {
            Some(CallbackType::Immutable(f)) => Some(CallbackType::Immutable(*f)),
            Some(CallbackType::Mutable(f)) => Some(CallbackType::Mutable(*f)),
            None => None,
        }
    }

    /// Stores `cb` under `name`; what was stored there before is dropped.
    pub fn set(&mut self, name: &str, cb: CallbackType<Callback, MutCallback>)
        ensures
            final(self)@ == old(self)@.insert(name@, cb),
    {
        self.slots.insert(name.to_string(), cb);
    }

    /// Empties the slot of `name`. Where it was empty, nothing changes.
    pub fn remove(&mut self, name: &str)
        ensures
            final(self)@ == old(self)@.remove(name@),
            !old(self)@.contains_key(name@) ==> final(self)@ == old(self)@,
    {
        proof {
            law_remove_absent(self@, name@);
        }
        self.slots.remove(name);
    }
}

/// A registry is itself a host, the smallest one: its callbacks see the
/// registry and nothing else.
impl<Evt, Callback, MutCallback> Observable<Evt, Callback, MutCallback> for Registry<
    Callback,
    MutCallback,
> where
    Callback: Fn(Event<Evt, &Self>) + Copy,
    MutCallback: Fn(Event<Evt, &mut Self>) + Copy,
 {
    open spec fn callbacks(&self) -> Map<Seq<char>, CallbackType<Callback, MutCallback>> {
        self@
    }

    fn get_callback(&self, event_name: &str) -> (cb: Option<CallbackType<Callback, MutCallback>>) {
        self.get(event_name)
    }

    fn push_callback(&mut self, event: &str, cb: CallbackType<Callback, MutCallback>) {
        self.set(event, cb)
    }

    fn remove_callback(&mut self, event: &str) {
        self.remove(event)
    }
}

/// Of two registrations under one name only the second is left: the registry
/// is the one that the second registration alone would have given, and a
/// lookup of the name gives the second callback.
pub proof fn law_set_replaces<V>(m: Map<Seq<char>, V>, name: Seq<char>, first: V, second: V)
    ensures
        m.insert(name, first).insert(name, second) == m.insert(name, second),
        lookup(m.insert(name, first).insert(name, second), name) == Some(second),
{
    assert(m.insert(name, first).insert(name, second) =~= m.insert(name, second));
}

/// Removing a name that has no callback changes nothing, and removing twice
/// is removing once.
pub proof fn law_remove_absent<V>(m: Map<Seq<char>, V>, name: Seq<char>)
    ensures
        !m.contains_key(name) ==> m.remove(name) == m,
        m.remove(name).remove(name) == m.remove(name),
        lookup(m.remove(name), name) is None,
{
    if !m.contains_key(name) {
        assert(m.remove(name) =~= m);
    }
    assert(m.remove(name).remove(name) =~= m.remove(name));
}

/// A registration or a removal under one name leaves every other name's slot
/// as it was.
pub proof fn law_other_names_untouched<V>(
    m: Map<Seq<char>, V>,
    name: Seq<char>,
    other: Seq<char>,
    v: V,
)
    requires
        other != name,
    ensures
        lookup(m.insert(name, v), other) == lookup(m, other),
        lookup(m.remove(name), other) == lookup(m, other),
{
}

} // verus!
