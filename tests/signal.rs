use command_channel::signal::{IdleSignal, Signal, SignalResult, SignallableData};
use std::time::Duration;

#[test]
fn signal_result_carries_value() {
    assert!(SignalResult::SignalOk(true).is_signalled());
    assert!(!SignalResult::SignalOk(false).is_signalled());
    assert!(SignalResult::SignalPoisoned(true).is_signalled());
    assert!(!SignalResult::SignalPoisoned(false).is_signalled());
}

#[test]
fn idle_signal_set_returns_previous() {
    let mut s = IdleSignal::new();
    assert!(!s.is_signalled());
    assert!(!s.set_signal(true));
    assert!(s.is_signalled());
    assert!(s.set_signal(true));
    assert_eq!(s.wait_for_signal(), Ok(()));
    assert!(s.set_signal(false));
    assert!(!s.is_signalled());
}

#[test]
fn lock_writes_reach_the_value() {
    let mut d = SignallableData::new(3u32);
    {
        let g = d.lock().unwrap();
        assert!(!g.is_signalled());
        *g.data = 9;
    }
    assert_eq!(*d.value_ref(), 9);
    d.set_signal(true);
    assert_eq!(d.into_inner(), Ok((9, true)));
}

#[test]
fn poisoned_state_reports_flag() {
    let mut d = SignallableData::new(1u8);
    d.set_signal(true);
    d.mark_poisoned();
    assert!(matches!(d.lock(), Err(SignalResult::SignalPoisoned(true))));
    assert!(matches!(d.try_lock(), Err(SignalResult::SignalPoisoned(true))));
    assert_eq!(d.wait_for_signal(), Err(SignalResult::SignalPoisoned(true)));
    assert!(d.is_signalled());
    assert_eq!(d.into_inner(), Err((1, true)));
}

#[test]
fn wait_while_timeout_gives_none_while_condition_holds() {
    let mut d = SignallableData::new(0u32);
    assert!(matches!(
        d.lock_wait_while_timeout(Duration::from_millis(1), |v: &u32, _s: &bool| *v == 0),
        Ok(None)
    ));
    match d.lock_wait_while_timeout(Duration::from_millis(1), |v: &u32, _s: &bool| *v != 0) {
        Ok(Some(g)) => *g.data = 4,
        _ => panic!("expected access"),
    }
    match d.lock_wait_while(|v: &u32, s: &bool| *v == 0 && !*s) {
        Ok(g) => assert_eq!(*g.data, 4),
        Err(_) => panic!("expected access"),
    }
}

#[test]
fn lock_wait_for_signal_after_set() {
    let mut d = SignallableData::new(String::from("x"));
    d.set_signal(true);
    match d.lock_wait_for_signal() {
        Ok(g) => {
            assert!(g.is_signalled());
            g.data.push('y');
        }
        Err(_) => panic!("expected access"),
    }
    assert_eq!(d.value_ref(), "xy");
}
