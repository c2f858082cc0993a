//! Callbacks come in two kinds: one that may only read the host and one that
//! may change it.

use vstd::prelude::*;
use crate::event::Event;

verus! {

/// A registered callback. An `Immutable` one is handed the host behind a
/// shared reference, a `Mutable` one behind a mutable reference.
#[derive(Clone)]
pub enum CallbackType<Callback, MutCallback> {
    Immutable(Callback),
    Mutable(MutCallback),
}

/// `cb` may be called for a dispatch of `name` with `payload` on `host`.
pub open spec fn accepts<Evt, H, C, M>(
    cb: CallbackType<C, M>,
    host: H,
    name: Seq<char>,
    payload: Option<Evt>,
) -> bool where C: Fn(Event<Evt, &H>), M: Fn(Event<Evt, &mut H>) {
    match cb {
        CallbackType::Immutable(f) => forall|e: Event<Evt, &H>|
            e.carries(name, payload) && *e.src == host ==> call_requires(f, (e,)),
        CallbackType::Mutable(f) => forall|e: Event<Evt, &mut H>|
            e.carries(name, payload) && mut_ref_current(e.src) == host ==> call_requires(
                f,
                (e,),
            ),
    }
}

/// The call of the read-only callback `f` on the event `e` is one that a
/// dispatch of `name` with `payload` on `host` makes, and it has returned.
pub open spec fn ran_readonly<Evt, H, C>(
    f: C,
    e: Event<Evt, &H>,
    host: H,
    name: Seq<char>,
    payload: Option<Evt>,
) -> bool where C: Fn(Event<Evt, &H>) {
    e.carries(name, payload) && *e.src == host && call_ensures(f, (e,), ())
}

/// The call of the mutating callback `f` on the event `e` is one that a
/// dispatch of `name` with `payload` makes, it found the host as `host`, and
/// it has returned. What it left behind is the final value of `e.src`.
pub open spec fn ran_mutable<Evt, H, M>(
    f: M,
    e: Event<Evt, &mut H>,
    host: H,
    name: Seq<char>,
    payload: Option<Evt>,
) -> bool where M: Fn(Event<Evt, &mut H>) {
    e.carries(name, payload) && mut_ref_current(e.src) == host && call_ensures(f, (e,), ())
}

} // verus!
