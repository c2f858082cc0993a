//! What holds of every host, by the contracts of registration and dispatch.
//!
//! Each law speaks of calls that have returned. A call that took the host
//! from `pre` to `post` is a mutable borrow of the host whose current value
//! is `pre` and whose final value is `post`, and that the called function's
//! contract relates to the other arguments and to the result.

use vstd::prelude::*;
use crate::callback::{ran_mutable, ran_readonly, CallbackType};
use crate::event::{Event, Return};
use crate::instrument::{event_return, try_event_return};
use crate::observable::{Observable, ObservableInterface};
use crate::registry::{law_remove_absent, law_set_replaces, lookup};

verus! {

/// A dispatch of a name under which nothing is registered reports that
/// nothing was called and leaves the host as it was.
pub proof fn law_absent_name_is_quiet<Evt, C, M, H>(
    pre: H,
    post: H,
    name: &str,
    payload: Option<Evt>,
    handled: bool,
) where C: Fn(Event<Evt, &H>), M: Fn(Event<Evt, &mut H>), H: Observable<Evt, C, M>
    requires
        !pre.callbacks().contains_key(name@),
        exists|s: &mut H|
            mut_ref_current(s) == pre && mut_ref_future(s) == post && #[trigger] call_ensures(
                <H as ObservableInterface<Evt, C, M>>::dispatch,
                (s, name, payload),
                handled,
            ),
    ensures
        !handled,
        post == pre,
{
}

/// A registration replaces what was registered under the name before. After
/// two registrations under one name, each by `on` or by `on_mut`, the host
/// holds what the second alone would have left, so a lookup of the name
/// gives the second callback and the first is gone.
pub proof fn law_last_registration_wins<Evt, C, M, H>(
    pre: H,
    mid: H,
    post: H,
    name: &str,
    first: CallbackType<C, M>,
    second: CallbackType<C, M>,
) where C: Fn(Event<Evt, &H>), M: Fn(Event<Evt, &mut H>), H: Observable<Evt, C, M>
    requires
        exists|s: &mut H|
            mut_ref_current(s) == pre && mut_ref_future(s) == mid && match first {
                CallbackType::Immutable(_) => call_ensures(
                    <H as ObservableInterface<Evt, C, M>>::on,
                    (s, name, first->Immutable_0),
                    (),
                ),
                CallbackType::Mutable(_) => call_ensures(
                    <H as ObservableInterface<Evt, C, M>>::on_mut,
                    (s, name, first->Mutable_0),
                    (),
                ),
            },
        exists|s: &mut H|
            mut_ref_current(s) == mid && mut_ref_future(s) == post && match second {
                CallbackType::Immutable(_) => call_ensures(
                    <H as ObservableInterface<Evt, C, M>>::on,
                    (s, name, second->Immutable_0),
                    (),
                ),
                CallbackType::Mutable(_) => call_ensures(
                    <H as ObservableInterface<Evt, C, M>>::on_mut,
                    (s, name, second->Mutable_0),
                    (),
                ),
            },
    ensures
        post.callbacks() == pre.callbacks().insert(name@, second),
        lookup(post.callbacks(), name@) == Some(second),
{
    law_set_replaces(pre.callbacks(), name@, first, second);
}

/// Removing, by `off` or by `off_mut`, a name under which nothing is
/// registered leaves the host's callbacks as they were.
pub proof fn law_off_absent_changes_nothing<Evt, C, M, H>(pre: H, post: H, name: &str) where
    C: Fn(Event<Evt, &H>),
    M: Fn(Event<Evt, &mut H>),
    H: Observable<Evt, C, M>,

    requires
        !pre.callbacks().contains_key(name@),
        exists|s: &mut H|
            mut_ref_current(s) == pre && mut_ref_future(s) == post && (#[trigger] call_ensures(
                <H as ObservableInterface<Evt, C, M>>::off,
                (s, name),
                (),
            ) || #[trigger] call_ensures(
                <H as ObservableInterface<Evt, C, M>>::off_mut,
                (s, name),
                (),
            )),
    ensures
        post.callbacks() == pre.callbacks(),
{
    law_remove_absent(pre.callbacks(), name@);
}

/// After `off` or `off_mut` of a name, a dispatch of that name finds nothing,
/// whatever was registered under it before.
pub proof fn law_off_silences<Evt, C, M, H>(
    pre: H,
    mid: H,
    post: H,
    name: &str,
    payload: Option<Evt>,
    handled: bool,
) where C: Fn(Event<Evt, &H>), M: Fn(Event<Evt, &mut H>), H: Observable<Evt, C, M>
    requires
        exists|s: &mut H|
            mut_ref_current(s) == pre && mut_ref_future(s) == mid && (#[trigger] call_ensures(
                <H as ObservableInterface<Evt, C, M>>::off,
                (s, name),
                (),
            ) || #[trigger] call_ensures(
                <H as ObservableInterface<Evt, C, M>>::off_mut,
                (s, name),
                (),
            )),
        exists|s: &mut H|
            mut_ref_current(s) == mid && mut_ref_future(s) == post && #[trigger] call_ensures(
                <H as ObservableInterface<Evt, C, M>>::dispatch,
                (s, name, payload),
                handled,
            ),
    ensures
        !handled,
        post == mid,
{
}

/// Registering the mutating callback `writer` under a name and then
/// dispatching that name calls `writer`, on an event that bears the name and
/// the payload, and the host is left as that call left it.
pub proof fn law_round_trip_mutable<Evt, C, M, H>(
    pre: H,
    mid: H,
    post: H,
    name: &str,
    writer: M,
    payload: Option<Evt>,
    handled: bool,
) where C: Fn(Event<Evt, &H>), M: Fn(Event<Evt, &mut H>), H: Observable<Evt, C, M>
    requires
        exists|s: &mut H|
            mut_ref_current(s) == pre && mut_ref_future(s) == mid && #[trigger] call_ensures(
                <H as ObservableInterface<Evt, C, M>>::on_mut,
                (s, name, writer),
                (),
            ),
        exists|s: &mut H|
            mut_ref_current(s) == mid && mut_ref_future(s) == post && #[trigger] call_ensures(
                <H as ObservableInterface<Evt, C, M>>::dispatch,
                (s, name, payload),
                handled,
            ),
    ensures
        handled,
        exists|e: Event<Evt, &mut H>|
            e.event_name@ == name@ && #[trigger] ran_mutable(writer, e, mid, name@, payload)
                && mut_ref_future(e.src) == post,
{
}

/// Registering the read-only callback `reader` under a name and then
/// dispatching that name calls `reader`, on an event that bears the name and
/// the payload, and the host is left unchanged: a read-only callback cannot
/// change it.
pub proof fn law_round_trip_readonly<Evt, C, M, H>(
    pre: H,
    mid: H,
    post: H,
    name: &str,
    reader: C,
    payload: Option<Evt>,
    handled: bool,
) where C: Fn(Event<Evt, &H>), M: Fn(Event<Evt, &mut H>), H: Observable<Evt, C, M>
    requires
        exists|s: &mut H|
            mut_ref_current(s) == pre && mut_ref_future(s) == mid && #[trigger] call_ensures(
                <H as ObservableInterface<Evt, C, M>>::on,
                (s, name, reader),
                (),
            ),
        exists|s: &mut H|
            mut_ref_current(s) == mid && mut_ref_future(s) == post && #[trigger] call_ensures(
                <H as ObservableInterface<Evt, C, M>>::dispatch,
                (s, name, payload),
                handled,
            ),
    ensures
        handled,
        post == mid,
        exists|e: Event<Evt, &H>|
            e.event_name@ == name@ && #[trigger] ran_readonly(reader, e, mid, name@, payload),
{
}

/// The two halves of a bundle go separate ways. Where every run of `body`
/// yields the payload `payload` and the result `result`, and leaves `writer`
/// registered under the name, a call of `event_return` hands `result` to its
/// caller, and `writer` is called on an event that carries `payload`: the one
/// of this run, and never the result.
pub proof fn law_payload_to_observer_result_to_caller<Evt, C, M, H, Ret, B>(
    pre: H,
    post: H,
    name: &str,
    body: B,
    payload: Evt,
    result: Ret,
    writer: M,
    ret: Ret,
) where
    C: Fn(Event<Evt, &H>),
    M: Fn(Event<Evt, &mut H>),
    H: Observable<Evt, C, M>,
    B: FnOnce(&mut H) -> Return<Evt, Ret>,

    requires
        forall|h: &mut H, out: Return<Evt, Ret>|
            mut_ref_current(h) == pre && #[trigger] call_ensures(body, (h,), out) ==> {
                &&& out.evt == payload
                &&& out.ret == result
                &&& lookup(mut_ref_future(h).callbacks(), name@) == Some(
                    CallbackType::<C, M>::Mutable(writer),
                )
            },
        exists|s: &mut H|
            mut_ref_current(s) == pre && mut_ref_future(s) == post && #[trigger] call_ensures(
                event_return::<Evt, C, M, H, Ret, B>,
                (s, name, body),
                ret,
            ),
    ensures
        ret == result,
        exists|e: Event<Evt, &mut H>|
            {
                &&& e.event_name@ == name@
                &&& e.event == Some(&payload)
                &&& #[trigger] call_ensures(writer, (e,), ())
                &&& mut_ref_future(e.src) == post
            },
{
}

/// An operation that fails sends nothing: where every run of `body` fails, a
/// call of `try_event_return` hands the error of this run to its caller, and
/// the host is as `body` left it.
pub proof fn law_failure_sends_nothing<Evt, C, M, H, Ret, Fail, B>(
    pre: H,
    post: H,
    name: &str,
    body: B,
    ret: Result<Ret, Fail>,
) where
    C: Fn(Event<Evt, &H>),
    M: Fn(Event<Evt, &mut H>),
    H: Observable<Evt, C, M>,
    B: FnOnce(&mut H) -> Result<Return<Evt, Ret>, Fail>,

    requires
        forall|h: &mut H, out: Result<Return<Evt, Ret>, Fail>|
            mut_ref_current(h) == pre && #[trigger] call_ensures(body, (h,), out) ==> out is Err,
        exists|s: &mut H|
            mut_ref_current(s) == pre && mut_ref_future(s) == post && #[trigger] call_ensures(
                try_event_return::<Evt, C, M, H, Ret, Fail, B>,
                (s, name, body),
                ret,
            ),
    ensures
        ret is Err,
        exists|h: &mut H|
            {
                &&& mut_ref_current(h) == pre
                &&& mut_ref_future(h) == post
                &&& #[trigger] call_ensures(body, (h,), Err::<Return<Evt, Ret>, Fail>(ret->Err_0))
            },
{
    let (h, res) = choose|h: &mut H, res: Result<Return<Evt, Ret>, Fail>|
        {
            &&& mut_ref_current(h) == pre
            &&& #[trigger] call_ensures(body, (h,), res)
            &&& res is Err
            &&& ret == Err::<Ret, Fail>(res->Err_0)
            &&& post == mut_ref_future(h)
        };
    assert(res == Err::<Return<Evt, Ret>, Fail>(ret->Err_0));
}

} // verus!
