use button_fetch::config::HEARTBEAT_MILLIS;
use button_fetch::heartbeat::{Heartbeat, HeartbeatAction};

#[test]
fn the_heartbeat_starts_with_a_reminder() {
    let mut heartbeat = Heartbeat::new(HEARTBEAT_MILLIS);
    assert_eq!(heartbeat.step(), HeartbeatAction::Remind);
}

#[test]
fn reminders_and_rests_alternate() {
    let mut heartbeat = Heartbeat::new(HEARTBEAT_MILLIS);
    for _ in 0..50 {
        assert_eq!(heartbeat.step(), HeartbeatAction::Remind);
        assert_eq!(heartbeat.step(), HeartbeatAction::Rest { millis: 3000 });
    }
}

#[test]
fn the_rest_lasts_for_the_configured_period() {
    let mut heartbeat = Heartbeat::new(42);
    heartbeat.step();
    assert_eq!(heartbeat.step(), HeartbeatAction::Rest { millis: 42 });
}
