use nezumi::hotplug::{process_udev_event, EventType, HotplugEvent, UdevEventError};
use nezumi::locate::{find_first_mouse, wrap_opened, DeviceInfo, Located};
use nezumi::mouse::{BatteryStatus, Driver};
use nezumi::profile::{check_models, MouseProfile};
use nezumi::reconnect::{initial_state, locate_event, poll_event, step, Event, Output, State};
use nezumi::status::status_line;

fn wired_table() -> Vec<(String, MouseProfile)> {
    vec![(
        "aerox9".to_string(),
        MouseProfile {
            model: "steelseries_aerox_9_wired".to_string(),
            product: 0x1836,
            vendor: 0x1038,
            endpoint: 0,
        },
    )]
}

fn poll(mouse: &Driver<u32>, response: Result<[u8; 2], String>) -> Event {
    poll_event(mouse, &response)
}

fn located_mouse() -> (State, Driver<u32>) {
    let table = wired_table();
    assert_eq!(check_models(&table), Ok(()));
    let devices = [DeviceInfo { vendor_id: 0x1038, product_id: 0x1836, interface_number: 0 }];
    let state = initial_state();
    assert_eq!(state, State::Locate);
    let found = find_first_mouse(&table, &devices).unwrap();
    assert_eq!(found, Located { profile: 0, device: 0 });
    let opened = wrap_opened(&table[found.profile].1, Ok(11u32));
    let answer = step(state, locate_event(&opened));
    let mouse = opened.unwrap();
    assert_eq!(answer.next, State::Poll);
    (answer.next, mouse)
}

#[test]
fn wired_mouse_at_level_thirteen_prints_sixty_percent() {
    let (state, mouse) = located_mouse();
    assert_eq!(mouse.battery_request(), [0x00, 0x92]);
    let answer = step(state, poll(&mouse, Ok([0x00, 0x0d])));
    assert_eq!(answer.next, State::Poll);
    let status = BatteryStatus { is_charging: false, percent: 60 };
    assert_eq!(answer.output, Output::Status(status));
    assert_eq!(status_line(&status), "\u{f8cc} 60%");
}

#[test]
fn wired_mouse_answering_0x0e_prints_sixty_five_percent() {
    let (state, mouse) = located_mouse();
    let answer = step(state, poll(&mouse, Ok([0x00, 0x0e])));
    assert_eq!(answer.next, State::Poll);
    let status = BatteryStatus { is_charging: false, percent: 65 };
    assert_eq!(answer.output, Output::Status(status));
    assert_eq!(status_line(&status), "\u{f8cc} 65%");
}

#[test]
fn sentinel_while_charging_keeps_polling() {
    let (state, mouse) = located_mouse();
    let event = poll(&mouse, Ok([0x00, 0xff]));
    assert_eq!(event, Event::Reading(None));
    let answer = step(state, event);
    assert_eq!(answer.next, State::Poll);
    assert_eq!(answer.output, Output::Nothing);
    assert!(answer.rearm);
}

#[test]
fn read_timeout_leads_to_the_watch() {
    let (state, mouse) = located_mouse();
    let event = poll(&mouse, Err("timed out".to_string()));
    assert_eq!(event, Event::ConnectionLost);
    let answer = step(state, event);
    assert_eq!(answer.output, Output::Blank);
    assert_eq!(answer.next, State::Idle);
    let answer = step(answer.next, Event::Subscribed);
    assert_eq!(answer.next, State::Watch);
    assert_eq!(answer.output, Output::Nothing);

    let table = wired_table();
    let other = HotplugEvent {
        event_type: EventType::Bind,
        id_vendor: Some(b"046d".to_vec()),
        id_product: Some(b"c08b".to_vec()),
    };
    let answer = step(State::Watch, Event::Hotplug(process_udev_event(&other, &table)));
    assert_eq!(answer.next, State::Watch);
    let unplug = HotplugEvent {
        event_type: EventType::Unbind,
        id_vendor: Some(b"1038".to_vec()),
        id_product: Some(b"1836".to_vec()),
    };
    let answer = step(State::Watch, Event::Hotplug(process_udev_event(&unplug, &table)));
    assert_eq!(answer.next, State::Watch);
    let broken = HotplugEvent { event_type: EventType::Bind, id_vendor: None, id_product: None };
    let relevance = process_udev_event(&broken, &table);
    assert_eq!(relevance, Err(UdevEventError::MissingVendor));
    let answer = step(State::Watch, Event::Hotplug(relevance));
    assert_eq!(answer.next, State::Watch);
    let plug = HotplugEvent {
        event_type: EventType::Bind,
        id_vendor: Some(b"1038".to_vec()),
        id_product: Some(b"1836".to_vec()),
    };
    let answer = step(State::Watch, Event::Hotplug(process_udev_event(&plug, &table)));
    assert_eq!(answer.next, State::Locate);
}
