//! The host's side of the registry, and dispatch on top of it.

use vstd::prelude::*;
use crate::callback::{accepts, ran_mutable, ran_readonly, CallbackType};
use crate::event::Event;
use crate::registry::{law_remove_absent, lookup};

verus! {

/// A host that stores at most one callback per event name. The library never
/// looks into the store: it reads and changes it through these three methods.
pub trait Observable<
    Evt,
    Callback = fn(Event<Evt, &Self>),
    MutCallback = fn(Event<Evt, &mut Self>),
> where
    Callback: Fn(Event<Evt, &Self>),
    MutCallback: Fn(Event<Evt, &mut Self>),
    Self: Sized,
 {
    /// The callbacks that the host holds, by name. A verified host states
    /// this over its own fields; the default serves hosts that are not
    /// verified and have nothing to state.
    open spec fn callbacks(&self) -> Map<Seq<char>, CallbackType<Callback, MutCallback>> {
        Map::empty()
    }

    /// A copy of the callback stored under `event_name`, if there is one.
    fn get_callback(&self, event_name: &str) -> (cb: Option<CallbackType<Callback, MutCallback>>)
        ensures
            cb == lookup(self.callbacks(), event_name@),
    ;

    /// Stores `cb` under `event`, in place of what was stored there.
    fn push_callback(&mut self, event: &str, cb: CallbackType<Callback, MutCallback>)
        ensures
            final(self).callbacks() == old(self).callbacks().insert(event@, cb),
    ;

    /// Empties the slot of `event`.
    fn remove_callback(&mut self, event: &str)
        ensures
            final(self).callbacks() == old(self).callbacks().remove(event@),
    ;
}

/// The callback stored under `name` on `host`, if there is one, may be called
/// for a dispatch of `name` with `payload`.
pub open spec fn ready<Evt, C, M, H>(host: H, name: Seq<char>, payload: Option<Evt>) -> bool where
    C: Fn(Event<Evt, &H>),
    M: Fn(Event<Evt, &mut H>),
    H: Observable<Evt, C, M>,
 {
    match lookup(host.callbacks(), name) {
        Some(cb) => accepts(cb, host, name, payload),
        None => true,
    }
}

/// What every host offers on top of its store: registration, removal and
/// dispatch. No host implements this itself; each has it from `Observable`.
pub trait ObservableInterface<
    Evt,
    Callback = fn(Event<Evt, &Self>),
    MutCallback = fn(Event<Evt, &mut Self>),
> where
    Callback: Fn(Event<Evt, &Self>),
    MutCallback: Fn(Event<Evt, &mut Self>),
    Self: Observable<Evt, Callback, MutCallback>,
 {
    /// Registers the read-only callback `f` for `event`, in place of any
    /// callback registered for it before.
    fn on(&mut self, event: &str, f: Callback)
        ensures
            final(self).callbacks() == old(self).callbacks().insert(
                event@,
                CallbackType::Immutable(f),
            ),
    {
        self.push_callback(event, CallbackType::Immutable(f))
    }

    /// Removes the callback of `event`, of whichever kind it is. Where
    /// there is none, the callbacks stay as they are.
    fn off(&mut self, event: &str)
        ensures
            final(self).callbacks() == old(self).callbacks().remove(event@),
            !old(self).callbacks().contains_key(event@) ==> final(self).callbacks() == old(
                self,
            ).callbacks(),
    {
        proof {
            law_remove_absent(self.callbacks(), event@);
        }
        self.remove_callback(event)
    }

    /// Registers the mutating callback `f` for `event`, in place of any
    /// callback registered for it before.
    fn on_mut(&mut self, event: &str, f: MutCallback)
        ensures
            final(self).callbacks() == old(self).callbacks().insert(
                event@,
                CallbackType::Mutable(f),
            ),
    {
        self.push_callback(event, CallbackType::Mutable(f))
    }

    /// Does what `off` does: the kind of the callback does not matter.
    fn off_mut(&mut self, event: &str)
        ensures
            final(self).callbacks() == old(self).callbacks().remove(event@),
            !old(self).callbacks().contains_key(event@) ==> final(self).callbacks() == old(
                self,
            ).callbacks(),
    {
        proof {
            law_remove_absent(self.callbacks(), event@);
        }
        self.remove_callback(event)
    }

    /// The host with the read-only callback `f` registered for `event`, for
    /// building a host in one expression.
    fn with_callback(self, event: &str, f: Callback) -> (host: Self)
        ensures
            host.callbacks() == self.callbacks().insert(event@, CallbackType::Immutable(f)),
    {
        let mut host = self;
        host.on(event, f);
        host
    }

    /// The host with the mutating callback `f` registered for `event`.
    fn with_callback_mut(self, event: &str, f: MutCallback) -> (host: Self)
        ensures
            host.callbacks() == self.callbacks().insert(event@, CallbackType::Mutable(f)),
    {
        let mut host = self;
        host.on_mut(event, f);
        host
    }

    /// Looks up `event_name` and calls what it finds, once, on an event that
    /// carries the name, the payload and the host. Reports whether there was
    /// anything to call; where there was not, the host is left as it was, and
    /// a read-only callback leaves it as it was too.
    fn dispatch(&mut self, event_name: &str, evt: Option<Evt>) -> (handled: bool)
        requires
            ready::<Evt, Callback, MutCallback, Self>(*old(self), event_name@, evt),
        ensures
            handled == old(self).callbacks().contains_key(event_name@),
            match lookup(old(self).callbacks(), event_name@) {
                None => *final(self) == *old(self),
                Some(CallbackType::Immutable(f)) => *final(self) == *old(self) && exists|
                    e: Event<Evt, &Self>,
                | ran_readonly(f, e, *old(self), event_name@, evt),
                Some(CallbackType::Mutable(f)) => exists|e: Event<Evt, &mut Self>|
                    ran_mutable(f, e, *old(self), event_name@, evt) && mut_ref_future(e.src)
                        == *final(self),
            },
    {
        let cb = self.get_callback(event_name);
        match cb {
            Some(CallbackType::Immutable(im)) => {
                let e = Event::new(&*self, event_name, evt.as_ref());
                let ghost ge = e;
                assert(ge.carries(event_name@, evt));
                im(e);
                assert(ran_readonly(im, ge, *old(self), event_name@, evt));
                true
            },
            Some(CallbackType::Mutable(mt)) => {
                let e = Event::new(&mut *self, event_name, evt.as_ref());
                let ghost ge = e;
                assert(ge.carries(event_name@, evt));
                mt(e);
                assert(ran_mutable(mt, ge, *old(self), event_name@, evt));
                true
            },
            None => false,
        }
    }
}

impl<Evt, Callback, MutCallback, T: Observable<Evt, Callback, MutCallback>> ObservableInterface<
    Evt,
    Callback,
    MutCallback,
> for T where Callback: Fn(Event<Evt, &Self>), MutCallback: Fn(Event<Evt, &mut Self>) {

}

} // verus!
