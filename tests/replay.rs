use icmt::event::{Event, EventInfo, UserInfo};
use icmt::replay::ReplayDriver;

fn rec(i: u64) -> EventInfo {
    EventInfo {
        user_info: UserInfo { user_name: "r".to_string(), text_color: ((0, 0, 0), (0, 0, 0)) },
        nonce: Some(i),
        date_time_utc: format!("utc-{}", i),
        date_time_local: format!("local-{}", i),
        event: Event::ClipBoard(format!("{}", i)),
    }
}

fn log(n: u64) -> Vec<EventInfo> {
    (0..n).map(rec).collect()
}

fn nonces(f: &[EventInfo]) -> Vec<u64> {
    f.iter().map(|e| e.nonce.unwrap()).collect()
}

#[test]
fn frames_have_frame_size_events_but_the_last() {
    let mut d = ReplayDriver::new(log(7), 3);
    assert_eq!(nonces(&d.next_frame().unwrap()), vec![0, 1, 2]);
    assert_eq!(nonces(&d.next_frame().unwrap()), vec![3, 4, 5]);
    assert_eq!(nonces(&d.next_frame().unwrap()), vec![6]);
    assert!(d.is_done());
    assert!(d.next_frame().is_none());
}

#[test]
fn short_log_is_one_frame() {
    let mut d = ReplayDriver::new(log(2), 6);
    assert_eq!(nonces(&d.next_frame().unwrap()), vec![0, 1]);
    assert!(d.next_frame().is_none());
}

#[test]
fn exact_multiple_of_frame_size() {
    let mut d = ReplayDriver::new(log(4), 2);
    assert_eq!(nonces(&d.next_frame().unwrap()), vec![0, 1]);
    assert_eq!(nonces(&d.next_frame().unwrap()), vec![2, 3]);
    assert!(d.next_frame().is_none());
}

#[test]
fn empty_log_has_no_frame() {
    let mut d = ReplayDriver::new(vec![], 6);
    assert!(d.is_done());
    assert!(d.next_frame().is_none());
}
