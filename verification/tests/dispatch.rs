use observable::{
    event, event_return, try_event, try_event_return, CallbackType, Event, Observable,
    ObservableInterface, Registry, Return,
};
use std::cell::RefCell;

type Reader = fn(Event<u32, &Meter>);
type Writer = fn(Event<u32, &mut Meter>);

struct Meter {
    slots: Registry<Reader, Writer>,
    total: u32,
    calls: u32,
    seen: RefCell<Vec<String>>,
}

impl Observable<u32> for Meter {
    fn get_callback(&self, event_name: &str) -> Option<CallbackType<Reader, Writer>> {
        self.slots.get(event_name)
    }

    fn push_callback(&mut self, event: &str, cb: CallbackType<Reader, Writer>) {
        self.slots.set(event, cb);
    }

    fn remove_callback(&mut self, event: &str) {
        self.slots.remove(event);
    }
}

fn meter() -> Meter {
    Meter { slots: Registry::new(), total: 0, calls: 0, seen: RefCell::new(Vec::new()) }
}

fn add_payload(e: Event<u32, &mut Meter>) {
    e.src.calls += 1;
    e.src.total += *e.event.unwrap_or(&0);
}

fn add_hundred(e: Event<u32, &mut Meter>) {
    e.src.calls += 1;
    e.src.total += 100;
}

fn note(e: Event<u32, &Meter>) {
    e.src.seen.borrow_mut().push(format!("{}={:?}", e.event_name, e.event));
}

fn note_twice(e: Event<u32, &Meter>) {
    e.src.seen.borrow_mut().push(format!("{0}{0}", e.event_name));
}

#[test]
fn dispatch_without_callback_returns_false() {
    let mut m = meter();
    assert!(!m.dispatch("Tick", Some(5)));
    assert!(!m.dispatch("Tick", None));
    assert_eq!(m.total, 0);
    assert_eq!(m.calls, 0);
    assert!(m.seen.borrow().is_empty());
}

#[test]
fn dispatch_of_another_name_finds_nothing() {
    let mut m = meter();
    m.on_mut("Tick", add_payload);
    assert!(!m.dispatch("Tock", Some(5)));
    assert_eq!(m.total, 0);
    assert_eq!(m.calls, 0);
}

#[test]
fn dispatch_calls_the_callback_once() {
    let mut m = meter();
    m.on_mut("Tick", add_payload);
    assert!(m.dispatch("Tick", Some(5)));
    assert_eq!(m.calls, 1);
    assert_eq!(m.total, 5);
    assert!(m.dispatch("Tick", Some(7)));
    assert_eq!(m.calls, 2);
    assert_eq!(m.total, 12);
}

#[test]
fn callback_sees_the_name_it_was_registered_under() {
    let mut m = meter();
    m.on("Tick", note);
    assert!(m.dispatch("Tick", Some(3)));
    assert!(m.dispatch("Tick", None));
    assert_eq!(*m.seen.borrow(), vec!["Tick=Some(3)".to_string(), "Tick=None".to_string()]);
}

#[test]
fn read_only_callback_leaves_the_host_fields() {
    let mut m = meter();
    m.total = 9;
    m.on("Tick", note);
    assert!(m.dispatch("Tick", Some(3)));
    assert_eq!(m.total, 9);
    assert_eq!(m.calls, 0);
}

#[test]
fn last_registration_wins() {
    let mut m = meter();
    m.on_mut("Tick", add_payload);
    m.on_mut("Tick", add_hundred);
    assert!(m.dispatch("Tick", Some(5)));
    assert_eq!(m.calls, 1);
    assert_eq!(m.total, 100);
}

#[test]
fn registration_of_the_other_kind_replaces_too() {
    let mut m = meter();
    m.on_mut("Tick", add_payload);
    m.on("Tick", note);
    assert!(m.dispatch("Tick", Some(5)));
    assert_eq!(m.calls, 0);
    assert_eq!(m.total, 0);
    assert_eq!(*m.seen.borrow(), vec!["Tick=Some(5)".to_string()]);
    m.on("Tick", note_twice);
    m.on_mut("Tick", add_hundred);
    assert!(m.dispatch("Tick", Some(5)));
    assert_eq!(m.total, 100);
    assert_eq!(m.seen.borrow().len(), 1);
}

#[test]
fn off_removes_either_kind() {
    let mut m = meter();
    m.on_mut("Tick", add_payload);
    m.on("Tock", note);
    m.off("Tick");
    m.off_mut("Tock");
    assert!(!m.dispatch("Tick", Some(5)));
    assert!(!m.dispatch("Tock", Some(5)));
    assert_eq!(m.total, 0);
    assert!(m.seen.borrow().is_empty());
}

#[test]
fn off_of_an_absent_name_is_a_no_op() {
    let mut m = meter();
    m.off("Tick");
    m.off_mut("Tick");
    m.on_mut("Tock", add_payload);
    m.off("Tick");
    m.off("Tick");
    assert!(m.dispatch("Tock", Some(2)));
    assert_eq!(m.total, 2);
    assert!(!m.dispatch("Tick", Some(2)));
    assert_eq!(m.total, 2);
}

#[test]
fn builders_register_and_hand_the_host_back() {
    let mut m = meter().with_callback("Tick", note).with_callback_mut("Tock", add_payload);
    assert!(m.dispatch("Tick", None));
    assert!(m.dispatch("Tock", Some(4)));
    assert_eq!(m.total, 4);
    assert_eq!(*m.seen.borrow(), vec!["Tick=None".to_string()]);
}

#[test]
fn callback_may_change_the_registrations() {
    fn once(e: Event<u32, &mut Meter>) {
        e.src.calls += 1;
        e.src.off("Tick");
    }
    let mut m = meter();
    m.on_mut("Tick", once);
    assert!(m.dispatch("Tick", None));
    assert!(!m.dispatch("Tick", None));
    assert_eq!(m.calls, 1);
}

#[test]
fn return_new_keeps_both_halves() {
    let r = Return::new(3u32, "kept");
    assert_eq!(r.evt, 3);
    assert_eq!(r.ret, "kept");
}

#[test]
fn event_new_keeps_its_parts() {
    let payload = 8u32;
    let e = Event::new(5u8, "Tick", Some(&payload));
    assert_eq!(e.event_name, "Tick");
    assert_eq!(e.event, Some(&8));
    assert_eq!(e.src, 5);
    let bare: Event<u32, u8> = Event::new(6u8, "Tock", None);
    assert_eq!(bare.event_name, "Tock");
    assert_eq!(bare.event, None);
    assert_eq!(bare.src, 6);
}

#[test]
fn event_return_hands_back_the_return_half() {
    let mut m = meter();
    m.on_mut("Tick", add_payload);
    let got = event_return(&mut m, "Tick", |_h: &mut Meter| Return::new(5u32, 40u64));
    assert_eq!(got, 40);
    assert_eq!(m.total, 5);
    assert_eq!(m.calls, 1);
}

#[test]
fn event_return_hands_back_the_return_half_without_observer() {
    let mut m = meter();
    let got = event_return(&mut m, "Tick", |h: &mut Meter| {
        h.total = 1;
        Return::new(5u32, "done")
    });
    assert_eq!(got, "done");
    assert_eq!(m.total, 1);
    assert_eq!(m.calls, 0);
}

#[test]
fn payload_is_the_one_of_this_run() {
    let mut m = meter();
    m.on("Tick", note);
    for n in [4u32, 9, 2] {
        let got = event_return(&mut m, "Tick", |_h: &mut Meter| Return::new(n, n + 1));
        assert_eq!(got, n + 1);
    }
    assert_eq!(
        *m.seen.borrow(),
        vec!["Tick=Some(4)".to_string(), "Tick=Some(9)".to_string(), "Tick=Some(2)".to_string()]
    );
}

#[test]
fn operation_runs_before_the_callback() {
    fn double(e: Event<u32, &mut Meter>) {
        e.src.total *= 2;
    }
    let mut m = meter();
    m.on_mut("Tick", double);
    event(&mut m, "Tick", |h: &mut Meter| h.total += 3);
    assert_eq!(m.total, 6);
}

#[test]
fn event_sends_no_payload() {
    let mut m = meter();
    m.on("Tick", note);
    let got = event(&mut m, "Tick", |h: &mut Meter| {
        h.total = 11;
        h.total + 1
    });
    assert_eq!(got, 12);
    assert_eq!(*m.seen.borrow(), vec!["Tick=None".to_string()]);
}

#[test]
fn failed_operation_sends_nothing() {
    let mut m = meter();
    m.on_mut("Tick", add_hundred);
    let got: Result<u8, String> = try_event_return(&mut m, "Tick", |h: &mut Meter| {
        h.total = 1;
        Err("refused".to_string())
    });
    assert_eq!(got, Err("refused".to_string()));
    assert_eq!(m.calls, 0);
    assert_eq!(m.total, 1);
    let got: Result<u8, i32> = try_event(&mut m, "Tick", |_h: &mut Meter| Err(-3));
    assert_eq!(got, Err(-3));
    assert_eq!(m.calls, 0);
}

#[test]
fn successful_fallible_operation_sends_the_event() {
    let mut m = meter();
    m.on_mut("Tick", add_payload);
    let got: Result<&str, String> =
        try_event_return(&mut m, "Tick", |_h: &mut Meter| Ok(Return::new(6u32, "fine")));
    assert_eq!(got, Ok("fine"));
    assert_eq!(m.total, 6);
    let got: Result<u8, String> = try_event(&mut m, "Tick", |_h: &mut Meter| Ok(2));
    assert_eq!(got, Ok(2));
    assert_eq!(m.calls, 2);
    assert_eq!(m.total, 6);
}
