use evdev::{AbsoluteAxisType, AttributeSet, Key};
use rinertia::device_discovery::{
    find_touchpad, find_touchpad_button_device, get_phys, DeviceInfo, DiscoveryError, Found,
};
use rinertia::instance_lock::{bind_failure, LockError, INSTANCE_NAME};

struct Fake {
    name: Option<&'static str>,
    phys: Option<&'static str>,
    keys: Option<AttributeSet<Key>>,
    axes: Option<AttributeSet<AbsoluteAxisType>>,
    is_touchpad: bool,
}

fn keys(codes: &[Key]) -> Option<AttributeSet<Key>> {
    Some(codes.iter().collect())
}

fn axes(codes: &[AbsoluteAxisType]) -> Option<AttributeSet<AbsoluteAxisType>> {
    Some(codes.iter().collect())
}

fn infos(fakes: &[Fake]) -> Vec<DeviceInfo<'_>> {
    fakes
        .iter()
        .map(|fake| DeviceInfo {
            name: fake.name,
            phys: fake.phys,
            keys: fake.keys.as_deref(),
            axes: fake.axes.as_deref(),
            is_touchpad: fake.is_touchpad,
        })
        .collect()
}

fn mouse() -> Fake {
    Fake {
        name: Some("Some Mouse"),
        phys: Some("usb-1"),
        keys: keys(&[Key::BTN_LEFT, Key::BTN_RIGHT]),
        axes: None,
        is_touchpad: false,
    }
}

fn touchpad(name: &'static str, multitouch: bool) -> Fake {
    Fake {
        name: Some(name),
        phys: Some("i2c-7"),
        keys: keys(&[Key::BTN_TOOL_FINGER, Key::BTN_TOUCH, Key::BTN_LEFT]),
        axes: if multitouch {
            axes(&[AbsoluteAxisType::ABS_X, AbsoluteAxisType::ABS_MT_POSITION_X])
        } else {
            axes(&[AbsoluteAxisType::ABS_X, AbsoluteAxisType::ABS_Y])
        },
        is_touchpad: false,
    }
}

fn nameless() -> Fake {
    Fake { name: None, phys: None, keys: None, axes: None, is_touchpad: false }
}

#[test]
fn given_path_wins() {
    let fakes = [touchpad("ELAN", true)];
    let devices = infos(&fakes);
    assert_eq!(find_touchpad(Some("/dev/x"), true, Some("ELAN"), &devices), Ok(Found::Given));
    assert_eq!(
        find_touchpad(Some("/dev/x"), false, Some("ELAN"), &devices),
        Err(DiscoveryError::PathMissing)
    );
}

#[test]
fn name_filter_takes_the_first_match() {
    let fakes = [nameless(), mouse(), touchpad("ELAN 1", true), touchpad("ELAN 2", true)];
    let devices = infos(&fakes);
    assert_eq!(find_touchpad(None, false, Some("ELAN"), &devices), Ok(Found::Listed(2)));
    assert_eq!(find_touchpad(None, false, Some("Mouse"), &devices), Ok(Found::Listed(1)));
    assert_eq!(find_touchpad(None, false, Some("LAN 2"), &devices), Ok(Found::Listed(3)));
    assert_eq!(find_touchpad(None, false, Some(""), &devices), Ok(Found::Listed(0)));
    assert_eq!(
        find_touchpad(None, false, Some("elan"), &devices),
        Err(DiscoveryError::NoNameMatch)
    );
}

#[test]
fn multitouch_touchpads_are_preferred() {
    let fakes = [mouse(), touchpad("old", false), touchpad("new", true), touchpad("newer", true)];
    assert_eq!(find_touchpad(None, false, None, &infos(&fakes)), Ok(Found::Listed(2)));
    let fakes = [mouse(), touchpad("old", false), touchpad("older", false)];
    assert_eq!(find_touchpad(None, false, None, &infos(&fakes)), Ok(Found::Listed(1)));
}

#[test]
fn touchpad_needs_both_keys() {
    let mut pen = touchpad("pen", true);
    pen.keys = keys(&[Key::BTN_TOUCH]);
    let mut finger = touchpad("finger", true);
    finger.keys = keys(&[Key::BTN_TOOL_FINGER]);
    let fakes = [nameless(), mouse(), pen, finger];
    assert_eq!(
        find_touchpad(None, false, None, &infos(&fakes)),
        Err(DiscoveryError::NoTouchpad)
    );
}

#[test]
fn buttons_are_found_at_the_same_place() {
    let mut chosen = touchpad("pad", true);
    chosen.is_touchpad = true;
    let mut ours = mouse();
    ours.name = Some("rinertia virtual pointer");
    ours.phys = Some("i2c-7");
    let mut node = mouse();
    node.name = None;
    node.phys = Some("i2c-7");
    let mut keyboard = mouse();
    keyboard.phys = Some("i2c-7");
    keyboard.keys = keys(&[Key::KEY_A]);
    let fakes = [chosen, nameless(), mouse(), touchpad("pad", true), ours, keyboard, node];
    let devices = infos(&fakes);
    assert_eq!(find_touchpad_button_device(Some("i2c-7"), &devices), Some(6));
    assert_eq!(find_touchpad_button_device(Some("usb-1"), &devices), Some(2));
    assert_eq!(find_touchpad_button_device(Some("usb-2"), &devices), None);
    assert_eq!(find_touchpad_button_device(None, &devices), None);
}

#[test]
fn touchpad_is_not_its_own_button_device() {
    let mut chosen = mouse();
    chosen.is_touchpad = true;
    assert_eq!(find_touchpad_button_device(Some("usb-1"), &infos(&[chosen])), None);
}

#[test]
fn phys_is_handed_out() {
    let fakes = [mouse(), nameless()];
    let devices = infos(&fakes);
    assert_eq!(get_phys(&devices[0]).as_deref(), Some("usb-1"));
    assert_eq!(get_phys(&devices[1]), None);
}

#[test]
fn discovery_errors_in_words() {
    assert_eq!(
        DiscoveryError::PathMissing.message("/dev/x", "f"),
        "Device path does not exist: /dev/x"
    );
    assert_eq!(
        DiscoveryError::NoNameMatch.message("/dev/x", "f"),
        "No device found matching name filter: \"f\""
    );
    assert_eq!(
        DiscoveryError::NoTouchpad.message("/dev/x", "f"),
        "No touchpad device found (looked for BTN_TOOL_FINGER + BTN_TOUCH)"
    );
}

#[test]
fn lock_errors_in_words() {
    assert_eq!(INSTANCE_NAME, "rinertia-single-instance");
    assert_eq!(bind_failure(true), LockError::AlreadyRunning);
    assert_eq!(bind_failure(false), LockError::Bind);
    assert_eq!(
        LockError::AlreadyRunning.message(),
        "another rinertia instance is already running"
    );
    assert_eq!(LockError::Bind.message(), "could not acquire rinertia instance lock");
    assert_eq!(
        LockError::Address.message(),
        "could not create rinertia instance-lock address"
    );
}
