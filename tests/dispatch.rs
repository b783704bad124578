use buzzkey::dispatch::{plan_dispatch, plan_shutdown, Capabilities, Capability, Command, Device};
use buzzkey::notes::Signal;

fn dev(id: u32, intensity: bool) -> Device {
    Device { id, caps: Capabilities { intensity, rotation: !intensity, linear: false } }
}

#[test]
fn device_without_intensity_gets_no_command() {
    let devices = vec![dev(4, false)];
    let r = plan_dispatch(Signal { sum: 100, level: 100 }, &devices);
    assert!(r.is_empty());
}

#[test]
fn each_capable_device_gets_one_command() {
    let devices = vec![dev(1, true), dev(2, false), dev(3, true)];
    let r = plan_dispatch(Signal { sum: 300, level: 254 }, &devices);
    assert_eq!(
        r,
        vec![
            Command::SetIntensity { device: 1, level: 254 },
            Command::SetIntensity { device: 3, level: 254 },
        ]
    );
}

#[test]
fn shutdown_stops_every_device_once() {
    let devices = vec![dev(7, true), dev(8, false), dev(9, true)];
    for level in [10u32, 20, 30] {
        let _ = plan_dispatch(Signal { sum: level, level }, &devices);
    }
    let r = plan_shutdown(&devices);
    assert_eq!(
        r,
        vec![Command::Stop { device: 7 }, Command::Stop { device: 8 }, Command::Stop { device: 9 }]
    );
    assert!(plan_shutdown(&Vec::new()).is_empty());
}

#[test]
fn capabilities_answer_by_kind() {
    let c = Capabilities { intensity: false, rotation: true, linear: false };
    assert!(!c.supports(Capability::Intensity));
    assert!(c.supports(Capability::Rotation));
    assert!(!c.supports(Capability::Linear));
}
