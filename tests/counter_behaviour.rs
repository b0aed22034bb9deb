use counter_app::{increment, resolve, AppError, Event, Phase, Registry, Surface};

#[test]
fn fresh_surface_reads_zero() {
    let s = Surface::new();
    assert_eq!(s.get_counter(), 0);
    assert_eq!(s.phase(), Phase::Idle);
    assert!(!s.redraw_pending());
}

#[test]
fn one_press_reads_one() {
    let mut s = Surface::new();
    assert_eq!(s.press(), Ok(1));
    assert_eq!(s.get_counter(), 1);
}

#[test]
fn five_presses_read_five() {
    let mut s = Surface::new();
    for _ in 0..5 {
        s.press().unwrap();
    }
    assert_eq!(s.get_counter(), 5);
}

#[test]
fn n_presses_read_n() {
    for n in 0..50 {
        let mut s = Surface::new();
        for _ in 0..n {
            s.handle(Event::ButtonPressed).unwrap();
        }
        assert_eq!(s.get_counter(), n);
    }
}

#[test]
fn run_does_not_change_counter() {
    let mut s = Surface::new();
    s.press().unwrap();
    s.handle(Event::Run).unwrap();
    assert_eq!(s.phase(), Phase::Running);
    assert_eq!(s.get_counter(), 1);
    s.handle(Event::Run).unwrap();
    assert_eq!(s.phase(), Phase::Running);
    assert_eq!(s.get_counter(), 1);
    s.press().unwrap();
    assert_eq!(s.get_counter(), 2);
}

#[test]
fn counter_never_decreases() {
    let events = [
        Event::ButtonPressed,
        Event::Run,
        Event::ButtonPressed,
        Event::Run,
        Event::ButtonPressed,
    ];
    let mut s = Surface::new();
    let mut last = s.get_counter();
    for e in events {
        s.handle(e).unwrap();
        let now = s.get_counter();
        assert!(now >= last);
        if e == Event::Run {
            assert_eq!(now, last);
        } else {
            assert_eq!(now, last + 1);
        }
        last = now;
    }
    assert_eq!(last, 3);
}

#[test]
fn increment_raises_by_one() {
    assert_eq!(increment(0), Ok(1));
    assert_eq!(increment(41), Ok(42));
    assert_eq!(increment(-1), Ok(0));
    assert_eq!(increment(i32::MAX - 1), Ok(i32::MAX));
}

#[test]
fn increment_at_largest_value_overflows() {
    assert_eq!(increment(i32::MAX), Err(AppError::CounterOverflow));
}

#[test]
fn press_at_largest_value_keeps_state() {
    let mut s = Surface::new();
    s.set_counter(i32::MAX);
    s.take_redraw();
    assert_eq!(s.press(), Err(AppError::CounterOverflow));
    assert_eq!(s.get_counter(), i32::MAX);
    assert!(!s.redraw_pending());
    assert_eq!(s.handle(Event::ButtonPressed), Err(AppError::CounterOverflow));
}

#[test]
fn set_counter_requests_redraw() {
    let mut s = Surface::new();
    assert_eq!(s.take_redraw(), None);
    s.set_counter(7);
    assert!(s.redraw_pending());
    assert_eq!(s.take_redraw(), Some(7));
    assert!(!s.redraw_pending());
    assert_eq!(s.take_redraw(), None);
    assert_eq!(s.get_counter(), 7);
}

#[test]
fn press_requests_redraw_of_new_value() {
    let mut s = Surface::new();
    s.press().unwrap();
    s.press().unwrap();
    assert_eq!(s.take_redraw(), Some(2));
}

#[test]
fn resolve_live_and_gone() {
    assert_eq!(resolve(Some(3u8)), Ok(3u8));
    assert_eq!(resolve::<u8>(None), Err(AppError::InstanceGone));
}

#[test]
fn registry_dispatches_through_handle() {
    let mut reg = Registry::new();
    let h = reg.create();
    assert!(reg.is_live(h));
    assert_eq!(reg.get_counter(h), Ok(0));
    reg.dispatch(h, Event::ButtonPressed).unwrap();
    reg.dispatch(h, Event::Run).unwrap();
    reg.dispatch(h, Event::ButtonPressed).unwrap();
    assert_eq!(reg.get_counter(h), Ok(2));
}

#[test]
fn registry_keeps_instances_apart() {
    let mut reg = Registry::new();
    let a = reg.create();
    let b = reg.create();
    assert_ne!(a, b);
    reg.dispatch(a, Event::ButtonPressed).unwrap();
    assert_eq!(reg.get_counter(a), Ok(1));
    assert_eq!(reg.get_counter(b), Ok(0));
    reg.destroy(a);
    assert_eq!(reg.get_counter(b), Ok(0));
    reg.dispatch(b, Event::ButtonPressed).unwrap();
    assert_eq!(reg.get_counter(b), Ok(1));
}

#[test]
fn destroyed_instance_fails_on_callback() {
    let mut reg = Registry::new();
    let h = reg.create();
    reg.dispatch(h, Event::ButtonPressed).unwrap();
    reg.destroy(h);
    assert!(!reg.is_live(h));
    assert_eq!(
        reg.dispatch(h, Event::ButtonPressed),
        Err(AppError::InstanceGone)
    );
    assert_eq!(reg.get_counter(h), Err(AppError::InstanceGone));
}

#[test]
fn handle_never_issued_fails() {
    let mut reg = Registry::new();
    let h = reg.create();
    let stray = counter_app::WeakHandle { slot: h.slot + 1 };
    assert!(!reg.is_live(stray));
    assert_eq!(reg.dispatch(stray, Event::Run), Err(AppError::InstanceGone));
    reg.destroy(stray);
    assert_eq!(reg.get_counter(h), Ok(0));
}
