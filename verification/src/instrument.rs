//! Turning a plain operation on a host into one that notifies the host's
//! observers after it ran.

use vstd::prelude::*;
use crate::callback::{ran_mutable, ran_readonly, CallbackType};
use crate::event::{Event, Return};
use crate::observable::{ready, Observable, ObservableInterface};
use crate::registry::lookup;

verus! {

/// Runs `body` on the host, dispatches `name` with the payload that this run
/// produced, and hands back the other half of the bundle.
pub fn event_return<Evt, C, M, H, Ret, B>(host: &mut H, name: &str, body: B) -> (ret: Ret) where
    C: Fn(Event<Evt, &H>),
    M: Fn(Event<Evt, &mut H>),
    H: Observable<Evt, C, M>,
    B: FnOnce(&mut H) -> Return<Evt, Ret>,

    requires
        forall|h: &mut H| mut_ref_current(h) == *old(host) ==> call_requires(body, (h,)),
        forall|h: &mut H, out: Return<Evt, Ret>|
            mut_ref_current(h) == *old(host) && call_ensures(body, (h,), out) ==> ready::<
                Evt,
                C,
                M,
                H,
            >(mut_ref_future(h), name@, Some(out.evt)),
    ensures
        exists|h: &mut H, out: Return<Evt, Ret>|
            {
                &&& mut_ref_current(h) == *old(host)
                &&& call_ensures(body, (h,), out)
                &&& ret == out.ret
                &&& match lookup(mut_ref_future(h).callbacks(), name@) {
                    None => *final(host) == mut_ref_future(h),
                    Some(CallbackType::Immutable(f)) => *final(host) == mut_ref_future(h)
                        && exists|e: Event<Evt, &H>|
                        ran_readonly(f, e, mut_ref_future(h), name@, Some(out.evt)),
                    Some(CallbackType::Mutable(f)) => exists|e: Event<Evt, &mut H>|
                        ran_mutable(f, e, mut_ref_future(h), name@, Some(out.evt))
                            && mut_ref_future(e.src) == *final(host),
                }
            },
{
    let Return { evt, ret } = body(&mut *host);
    host.dispatch(name, Some(evt));
    ret
}

/// Runs `body` on the host, dispatches `name` without a payload, and hands
/// back what `body` returned.
pub fn event<Evt, C, M, H, Ret, B>(host: &mut H, name: &str, body: B) -> (ret: Ret) where
    C: Fn(Event<Evt, &H>),
    M: Fn(Event<Evt, &mut H>),
    H: Observable<Evt, C, M>,
    B: FnOnce(&mut H) -> Ret,

    requires
        forall|h: &mut H| mut_ref_current(h) == *old(host) ==> call_requires(body, (h,)),
        forall|h: &mut H, out: Ret|
            mut_ref_current(h) == *old(host) && call_ensures(body, (h,), out) ==> ready::<
                Evt,
                C,
                M,
                H,
            >(mut_ref_future(h), name@, None),
    ensures
        exists|h: &mut H|
            {
                &&& mut_ref_current(h) == *old(host)
                &&& call_ensures(body, (h,), ret)
                &&& match lookup(mut_ref_future(h).callbacks(), name@) {
                    None => *final(host) == mut_ref_future(h),
                    Some(CallbackType::Immutable(f)) => *final(host) == mut_ref_future(h)
                        && exists|e: Event<Evt, &H>|
                        ran_readonly(f, e, mut_ref_future(h), name@, None),
                    Some(CallbackType::Mutable(f)) => exists|e: Event<Evt, &mut H>|
                        ran_mutable(f, e, mut_ref_future(h), name@, None) && mut_ref_future(e.src)
                            == *final(host),
                }
            },
{
    let ret = body(&mut *host);
    host.dispatch(name, None);
    ret
}

/// As `event_return`, for an operation that can fail. Where `body` fails, its
/// error goes back to the caller as it is and nothing is dispatched.
pub fn try_event_return<Evt, C, M, H, Ret, Fail, B>(host: &mut H, name: &str, body: B) -> (ret:
    Result<Ret, Fail>) where
    C: Fn(Event<Evt, &H>),
    M: Fn(Event<Evt, &mut H>),
    H: Observable<Evt, C, M>,
    B: FnOnce(&mut H) -> Result<Return<Evt, Ret>, Fail>,

    requires
        forall|h: &mut H| mut_ref_current(h) == *old(host) ==> call_requires(body, (h,)),
        forall|h: &mut H, out: Return<Evt, Ret>|
            mut_ref_current(h) == *old(host) && call_ensures(body, (h,), Ok(out)) ==> ready::<
                Evt,
                C,
                M,
                H,
            >(mut_ref_future(h), name@, Some(out.evt)),
    ensures
        exists|h: &mut H, res: Result<Return<Evt, Ret>, Fail>|
            {
                &&& mut_ref_current(h) == *old(host)
                &&& call_ensures(body, (h,), res)
                &&& match res {
                    Err(err) => ret == Err::<Ret, Fail>(err) && *final(host) == mut_ref_future(h),
                    Ok(out) => {
                        &&& ret == Ok::<Ret, Fail>(out.ret)
                        &&& match lookup(mut_ref_future(h).callbacks(), name@) {
                            None => *final(host) == mut_ref_future(h),
                            Some(CallbackType::Immutable(f)) => *final(host) == mut_ref_future(h)
                                && exists|e: Event<Evt, &H>|
                                ran_readonly(f, e, mut_ref_future(h), name@, Some(out.evt)),
                            Some(CallbackType::Mutable(f)) => exists|e: Event<Evt, &mut H>|
                                ran_mutable(f, e, mut_ref_future(h), name@, Some(out.evt))
                                    && mut_ref_future(e.src) == *final(host),
                        }
                    },
                }
            },
{
    match body(&mut *host) {
        Ok(Return { evt, ret }) => {
            host.dispatch(name, Some(evt));
            Ok(ret)
        },
        Err(err) => Err(err),
    }
}

/// As `event`, for an operation that can fail. Where `body` fails, its error
/// goes back to the caller as it is and nothing is dispatched.
pub fn try_event<Evt, C, M, H, Ret, Fail, B>(host: &mut H, name: &str, body: B) -> (ret: Result<Ret, Fail>) where
    C: Fn(Event<Evt, &H>),
    M: Fn(Event<Evt, &mut H>),
    H: Observable<Evt, C, M>,
    B: FnOnce(&mut H) -> Result<Ret, Fail>,

    requires
        forall|h: &mut H| mut_ref_current(h) == *old(host) ==> call_requires(body, (h,)),
        forall|h: &mut H, out: Ret|
            mut_ref_current(h) == *old(host) && call_ensures(body, (h,), Ok(out)) ==> ready::<
                Evt,
                C,
                M,
                H,
            >(mut_ref_future(h), name@, None),
    ensures
        exists|h: &mut H|
            {
                &&& mut_ref_current(h) == *old(host)
                &&& call_ensures(body, (h,), ret)
                &&& match ret {
                    Err(_) => *final(host) == mut_ref_future(h),
                    Ok(_) => match lookup(mut_ref_future(h).callbacks(), name@) {
                        None => *final(host) == mut_ref_future(h),
                        Some(CallbackType::Immutable(f)) => *final(host) == mut_ref_future(h)
                            && exists|e: Event<Evt, &H>|
                            ran_readonly(f, e, mut_ref_future(h), name@, None),
                        Some(CallbackType::Mutable(f)) => exists|e: Event<Evt, &mut H>|
                            ran_mutable(f, e, mut_ref_future(h), name@, None)
                                && mut_ref_future(e.src) == *final(host),
                    },
                }
            },
{
    match body(&mut *host) {
        Ok(ret) => {
            host.dispatch(name, None);
            Ok(ret)
        },
        Err(err) => Err(err),
    }
}

} // verus!
