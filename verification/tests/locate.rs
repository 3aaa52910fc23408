use nezumi::locate::{
    find_first_mouse, first_device_of, wrap_opened, DeviceInfo, Located, OpenFirstMouseError,
};
use nezumi::mouse::{Driver, GetMouseError};
use nezumi::profile::{check_models, MouseProfile};

fn profile(model: &str, vendor: u16, product: u16, endpoint: i32) -> MouseProfile {
    MouseProfile { model: model.to_string(), product, vendor, endpoint }
}

fn device(vendor_id: u16, product_id: u16, interface_number: i32) -> DeviceInfo {
    DeviceInfo { vendor_id, product_id, interface_number }
}

fn a() -> (String, MouseProfile) {
    ("A".to_string(), profile("steelseries_aerox_9_wired", 0x1038, 0x1836, 0))
}

fn b() -> (String, MouseProfile) {
    ("B".to_string(), profile("steelseries_aerox_9_wireless", 0x1038, 0x1838, 3))
}

#[test]
fn only_b_is_plugged_in() {
    let devices = [device(0x046d, 0xc08b, 0), device(0x1038, 0x1838, 3)];
    assert_eq!(
        find_first_mouse(&[a(), b()], &devices),
        Ok(Located { profile: 1, device: 1 })
    );
    assert_eq!(
        find_first_mouse(&[b(), a()], &devices),
        Ok(Located { profile: 0, device: 1 })
    );
}

#[test]
fn nothing_matches() {
    let devices = [device(0x046d, 0xc08b, 0), device(0x1038, 0x1836, 1), device(0x1038, 0x1839, 3)];
    assert_eq!(find_first_mouse(&[a(), b()], &devices), Err(OpenFirstMouseError::NotFound));
    assert_eq!(find_first_mouse(&[a(), b()], &[]), Err(OpenFirstMouseError::NotFound));
    assert_eq!(find_first_mouse(&[], &devices), Err(OpenFirstMouseError::NotFound));
    assert_eq!(find_first_mouse(&[], &[]), Err(OpenFirstMouseError::NotFound));
}

#[test]
fn all_three_numbers_must_agree() {
    assert_eq!(find_first_mouse(&[a()], &[device(0x1038, 0x1836, 1)]), Err(OpenFirstMouseError::NotFound));
    assert_eq!(find_first_mouse(&[a()], &[device(0x1038, 0x1837, 0)]), Err(OpenFirstMouseError::NotFound));
    assert_eq!(find_first_mouse(&[a()], &[device(0x1039, 0x1836, 0)]), Err(OpenFirstMouseError::NotFound));
    assert_eq!(find_first_mouse(&[a()], &[device(0x1836, 0x1038, 0)]), Err(OpenFirstMouseError::NotFound));
    assert_eq!(find_first_mouse(&[a()], &[device(0x1038, 0x1836, -1)]), Err(OpenFirstMouseError::NotFound));
    assert_eq!(
        find_first_mouse(&[a()], &[device(0x1038, 0x1836, 0)]),
        Ok(Located { profile: 0, device: 0 })
    );
}

#[test]
fn table_order_decides_between_profiles() {
    let devices = [device(0x1038, 0x1838, 3), device(0x1038, 0x1836, 0)];
    assert_eq!(
        find_first_mouse(&[a(), b()], &devices),
        Ok(Located { profile: 0, device: 1 })
    );
    assert_eq!(
        find_first_mouse(&[b(), a()], &devices),
        Ok(Located { profile: 0, device: 0 })
    );
}

#[test]
fn enumeration_order_decides_between_devices() {
    let devices = [
        device(0x1038, 0x1836, 1),
        device(0x1038, 0x1836, 0),
        device(0x1038, 0x1836, 0),
    ];
    assert_eq!(find_first_mouse(&[a()], &devices), Ok(Located { profile: 0, device: 1 }));
    assert_eq!(first_device_of(&a().1, &devices), Some(1));
    assert_eq!(first_device_of(&b().1, &devices), None);
}

#[test]
fn opened_device_is_bound_to_its_driver() {
    let mouse = wrap_opened(&a().1, Ok(5u8)).unwrap();
    assert!(matches!(mouse, Driver::Wired(_)));
    assert_eq!(*mouse.device(), 5);
    let mouse = wrap_opened(&b().1, Ok(6u8)).unwrap();
    assert!(matches!(mouse, Driver::Wireless(_)));
    assert_eq!(*mouse.device(), 6);
}

#[test]
fn failure_to_open_is_handed_on() {
    let outcome = wrap_opened::<u8>(&a().1, Err("permission denied".to_string()));
    assert_eq!(
        outcome.err(),
        Some(OpenFirstMouseError::OpenMouse("permission denied".to_string()))
    );
}

#[test]
fn failure_to_open_comes_before_the_model() {
    let odd = profile("trackball", 1, 2, 3);
    let outcome = wrap_opened::<u8>(&odd, Err("busy".to_string()));
    assert_eq!(outcome.err(), Some(OpenFirstMouseError::OpenMouse("busy".to_string())));
}

#[test]
fn unknown_model_of_an_opened_device() {
    let odd = profile("trackball", 1, 2, 3);
    let outcome = wrap_opened(&odd, Ok(1u8));
    assert_eq!(
        outcome.err(),
        Some(OpenFirstMouseError::WrapMouse(GetMouseError("trackball".to_string())))
    );
}

#[test]
fn locator_error_texts() {
    assert_eq!(OpenFirstMouseError::NotFound.message(), "No mouse found");
    assert_eq!(
        OpenFirstMouseError::OpenMouse("hid_error".to_string()).message(),
        "Error opening the found mouse: hid_error"
    );
    assert_eq!(
        OpenFirstMouseError::WrapMouse(GetMouseError("trackball".to_string())).message(),
        "Error wrapping the mouse device: Invalid model: trackball"
    );
}

#[test]
fn models_are_checked_in_table_order() {
    assert_eq!(check_models(&[a(), b()]), Ok(()));
    assert_eq!(check_models(&[]), Ok(()));
    let table = vec![
        a(),
        ("C".to_string(), profile("trackball", 1, 2, 3)),
        b(),
        ("D".to_string(), profile("tablet", 1, 2, 3)),
    ];
    assert_eq!(check_models(&table), Err(GetMouseError("trackball".to_string())));
}
