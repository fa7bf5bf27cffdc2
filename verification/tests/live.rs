use haretropanel::live::{live_step, LiveAction, LiveEvent, LIVE_REFRESH_SECS};

#[test]
fn live_feed_steps() {
    assert_eq!(LIVE_REFRESH_SECS, 5);
    assert_eq!(live_step(&LiveEvent::Tick), LiveAction::SendSnapshot);
    assert_eq!(live_step(&LiveEvent::Received), LiveAction::Continue);
    assert_eq!(live_step(&LiveEvent::SnapshotFailed), LiveAction::Continue);
    assert_eq!(live_step(&LiveEvent::Closed), LiveAction::Stop);
    assert_eq!(live_step(&LiveEvent::ReceiveFailed), LiveAction::Stop);
    assert_eq!(live_step(&LiveEvent::SendFailed), LiveAction::Stop);
}
