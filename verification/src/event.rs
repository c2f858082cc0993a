//! The record a callback receives, and the bundle an emitting operation
//! produces.

use vstd::prelude::*;

verus! {

/// What a callback sees of one dispatch: the name under which it was found,
/// the payload (borrowed for the duration of the call) and the host, behind a
/// shared or a mutable reference depending on the kind of callback.
#[derive(Debug, Clone)]
pub struct Event<'a, EvtType, T> {
    pub event_name: String,
    pub event: Option<&'a EvtType>,
    pub src: T,
}

impl<'a, EvtType, T> Event<'a, EvtType, T> {
    /// The event named `event_name` with the payload `event`, on `src`.
    pub fn new(src: T, event_name: &str, event: Option<&'a EvtType>) -> (e: Self)
        ensures
            e.event_name@ == event_name@,
            e.event == event,
            e.src == src,
    {
        Self { event_name: event_name.to_string(), event, src }
    }

    /// The record carries exactly `name` and `payload`.
    pub open spec fn carries(self, name: Seq<char>, payload: Option<EvtType>) -> bool {
        &&& self.event_name@ == name
        &&& match payload {
            Some(p) => self.event == Some(&p),
            None => self.event is None,
        }
    }
}

/// The two results of one run of an emitting operation: `evt` goes to the
/// observers, `ret` goes back to the caller.
pub struct Return<Evt, Ret> {
    pub evt: Evt,
    pub ret: Ret,
}

impl<Evt, Ret> Return<Evt, Ret> {
    /// The bundle of the payload `evt` and the result `ret`.
    pub fn new(evt: Evt, ret: Ret) -> (r: Self)
        ensures
            r.evt == evt,
            r.ret == ret,
    {
        Self { evt, ret }
    }
}

} // verus!
