use buzzkey::discovery::{Discovery, Notification, Phase, Report};

#[test]
fn connection_lost_keeps_scanning() {
    let mut d = Discovery::new();
    assert_eq!(d.phase(), Phase::Idle);
    assert!(d.begin_scan());
    assert_eq!(d.handle(Notification::ConnectionLost), Report::ConnectionLost);
    assert_eq!(d.phase(), Phase::Scanning);
    assert_eq!(d.handle(Notification::Other), Report::Ignored);
    assert!(d.is_scanning());
    assert_eq!(d.handle(Notification::ScanComplete), Report::Finished);
    assert_eq!(d.phase(), Phase::Stopped);
}

#[test]
fn added_devices_are_recorded_until_stop() {
    let mut d = Discovery::new();
    d.begin_scan();
    assert_eq!(d.handle(Notification::DeviceAdded { id: 3 }), Report::Added { id: 3 });
    assert_eq!(d.handle(Notification::DeviceAdded { id: 5 }), Report::Added { id: 5 });
    assert_eq!(d.phase(), Phase::Scanning);
    d.request_stop();
    assert_eq!(d.phase(), Phase::Stopped);
    assert_eq!(d.handle(Notification::DeviceAdded { id: 6 }), Report::Ignored);
    assert_eq!(d.added(), &vec![3, 5]);
    assert!(!d.begin_scan());
}

#[test]
fn stream_end_counts_as_completion() {
    let mut d = Discovery::new();
    d.begin_scan();
    d.handle(Notification::DeviceAdded { id: 1 });
    assert_eq!(d.stream_ended(), Report::Finished);
    assert_eq!(d.phase(), Phase::Stopped);
    assert_eq!(d.added(), &vec![1]);
}

#[test]
fn idle_discovery_ignores_notifications() {
    let mut d = Discovery::new();
    assert_eq!(d.handle(Notification::ScanComplete), Report::Ignored);
    d.request_stop();
    assert_eq!(d.phase(), Phase::Idle);
}
