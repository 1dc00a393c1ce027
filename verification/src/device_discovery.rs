//! Which input device is the touchpad, and which one carries its buttons.

use crate::input::{ABS_MT_POSITION_X, BTN_LEFT, BTN_TOOL_FINGER, BTN_TOUCH};
use vstd::prelude::*;

verus! {

/// `evdev::AttributeSetRef`, a set of keys or axes that a device supports.
#[verifier::external_type_specification]
#[verifier::external_body]
#[verifier::reject_recursive_types(T)]
pub struct ExAttributeSetRef<T>(evdev::AttributeSetRef<T>);

/// `evdev::Key`, the code of a key or button.
#[verifier::external_type_specification]
#[verifier::external_body]
pub struct ExKey(evdev::Key);

/// `evdev::AbsoluteAxisType`, the code of an absolute axis.
#[verifier::external_type_specification]
#[verifier::external_body]
pub struct ExAbsoluteAxisType(evdev::AbsoluteAxisType);

/// The codes of the keys in a set.
pub uninterp spec fn key_codes(keys: &evdev::AttributeSetRef<evdev::Key>) -> Set<u16>;

/// The codes of the axes in a set.
pub uninterp spec fn axis_codes(axes: &evdev::AttributeSetRef<evdev::AbsoluteAxisType>) -> Set<u16>;

/// Asks `evdev::AttributeSetRef::contains` for a key.
///
/// The claim: it answers whether the key's code is one of the codes in the set.
#[verifier::external_body]
fn has_key(keys: &evdev::AttributeSetRef<evdev::Key>, code: u16) -> (found: bool)
    ensures
        found == key_codes(keys).contains(code),
{
    keys.contains(evdev::Key::new(code))
}

/// Asks `evdev::AttributeSetRef::contains` for an absolute axis.
///
/// The claim: it answers whether the axis's code is one of the codes in the set.
#[verifier::external_body]
fn has_axis(axes: &evdev::AttributeSetRef<evdev::AbsoluteAxisType>, code: u16) -> (found: bool)
    ensures
        found == axis_codes(axes).contains(code),
{
    axes.contains(evdev::AbsoluteAxisType(code))
}

/// Whether a text holds another one somewhere.
pub open spec fn holds(text: Seq<char>, part: Seq<char>) -> bool {
    exists|i: int|
        0 <= i <= text.len() - part.len() && #[trigger] text.subrange(i, i + part.len()) == part
}

/// Asks `str::contains` for a part of a text.
///
/// The claim: it answers whether some stretch of the text's characters is the part.
#[verifier::external_body]
fn text_holds(text: &str, part: &str) -> (found: bool)
    ensures
        found == holds(text@, part@),
{
    text.contains(part)
}

/// What is known of an input device.
pub struct DeviceInfo<'a> {
    pub name: Option<&'a str>,
    /// Where the device is plugged in.
    pub phys: Option<&'a str>,
    pub keys: Option<&'a evdev::AttributeSetRef<evdev::Key>>,
    pub axes: Option<&'a evdev::AttributeSetRef<evdev::AbsoluteAxisType>>,
    /// Whether this is the device that was taken for the touchpad.
    pub is_touchpad: bool,
}

impl<'a> DeviceInfo<'a> {
    /// The device's name; empty where it has none.
    pub open spec fn shown_name(self) -> Seq<char> {
        match self.name {
            Some(name) => name@,
            None => Seq::empty(),
        }
    }

    /// Whether the device supports a key.
    pub open spec fn supports_key(self, code: u16) -> bool {
        self.keys matches Some(keys) && key_codes(keys).contains(code)
    }

    /// Whether the device may be a touchpad.
    pub open spec fn touchpad_like(self) -> bool {
        self.supports_key(BTN_TOOL_FINGER) && self.supports_key(BTN_TOUCH)
    }

    /// Whether the device reports several fingers.
    pub open spec fn multitouch(self) -> bool {
        self.axes matches Some(axes) && axis_codes(axes).contains(ABS_MT_POSITION_X)
    }

    /// Whether the device carries the buttons of the touchpad that is plugged in at a
    /// place: it is another device there, which has a left button and no finger tool.
    pub open spec fn carries_buttons(self, touchpad_phys: Seq<char>) -> bool {
        &&& !self.is_touchpad
        &&& !holds(self.shown_name(), "rinertia"@)
        &&& self.phys matches Some(phys) && phys@ == touchpad_phys
        &&& self.supports_key(BTN_LEFT)
        &&& !self.supports_key(BTN_TOOL_FINGER)
    }

    fn key(&self, code: u16) -> (found: bool)
        ensures
            found == self.supports_key(code),
    {
        match self.keys {
            Some(keys) => has_key(keys, code),
            None => false,
        }
    }

    fn name_holds(&self, part: &str) -> (found: bool)
        ensures
            found == holds(self.shown_name(), part@),
    {
        proof {
            reveal_strlit("");
            assert(""@ =~= Seq::empty());
        }
        match self.name {
            Some(name) => text_holds(name, part),
            None => text_holds("", part),
        }
    }
}

/// The device that was found.
#[derive(Clone, Copy, Debug, PartialEq, Eq, Structural)]
pub enum Found {
    /// The one whose path was given.
    Given,
    /// The one at this index among all devices.
    Listed(usize),
}

/// Why no touchpad was found.
#[derive(Clone, Copy, Debug, PartialEq, Eq, Structural)]
pub enum DiscoveryError {
    /// There is nothing at the given path.
    PathMissing,
    /// No device has such a name.
    NoNameMatch,
    /// No device looks like a touchpad.
    NoTouchpad,
}

/// The index of the first device with a property.
pub open spec fn is_first(
    devices: Seq<DeviceInfo>,
    index: int,
    property: spec_fn(DeviceInfo) -> bool,
) -> bool {
    &&& 0 <= index < devices.len()
    &&& property(devices[index])
    &&& forall|i: int| 0 <= i < index ==> !property(#[trigger] devices[i])
}

/// Whether no device has a property.
pub open spec fn is_none(
    devices: Seq<DeviceInfo>,
    property: spec_fn(DeviceInfo) -> bool,
) -> bool {
    forall|i: int| 0 <= i < devices.len() ==> !property(#[trigger] devices[i])
}

/// Whether the search for the touchpad comes out like this.
pub open spec fn is_touchpad_found(
    found: Result<Found, DiscoveryError>,
    path_given: bool,
    path_exists: bool,
    name_filter: Option<Seq<char>>,
    devices: Seq<DeviceInfo>,
) -> bool {
    if path_given {
        found == if path_exists {
            Ok(Found::Given)
        } else {
            Err(DiscoveryError::PathMissing)
        }
    } else {
        match name_filter {
            Some(filter) => {
                let matching = |d: DeviceInfo| holds(d.shown_name(), filter);
                match found {
                    Ok(Found::Listed(index)) => is_first(devices, index as int, matching),
                    Ok(Found::Given) => false,
                    Err(e) => e == DiscoveryError::NoNameMatch && is_none(devices, matching),
                }
            },
            None => {
                let touchpad = |d: DeviceInfo| d.touchpad_like();
                let multitouch = |d: DeviceInfo| d.touchpad_like() && d.multitouch();
                match found {
                    Ok(Found::Listed(index)) => is_first(devices, index as int, multitouch) || (
                    is_none(devices, multitouch) && is_first(devices, index as int, touchpad)),
                    Ok(Found::Given) => false,
                    Err(e) => e == DiscoveryError::NoTouchpad && is_none(devices, touchpad),
                }
            },
        }
    }
}

/// Whether the search for the device with the touchpad's buttons comes out like this.
pub open spec fn is_button_device_found(
    found: Option<usize>,
    touchpad_phys: Option<Seq<char>>,
    devices: Seq<DeviceInfo>,
) -> bool {
    match touchpad_phys {
        None => found is None,
        Some(phys) => {
            let carrier = |d: DeviceInfo| d.carries_buttons(phys);
            match found {
                Some(index) => is_first(devices, index as int, carrier),
                None => is_none(devices, carrier),
            }
        },
    }
}

/// Finds the touchpad: the device at the given path; else the first one whose name holds
/// the filter; else the first one that looks like a touchpad and reports several
/// fingers; else the first one that looks like a touchpad.
///
/// `path_exists` says whether there is something at the given path. The devices are of
/// account only where no path is given.
pub fn find_touchpad(
    device_path: Option<&str>,
    path_exists: bool,
    name_filter: Option<&str>,
    devices: &Vec<DeviceInfo>,
) -> (found: Result<Found, DiscoveryError>)
    ensures
        is_touchpad_found(
            found,
            device_path is Some,
            path_exists,
            match name_filter {
                Some(filter) => Some(filter@),
                None => None,
            },
            devices@,
        ),
{
    if device_path.is_some() {
        if !path_exists {
            return Err(DiscoveryError::PathMissing);
        }
        return Ok(Found::Given);
    }
    match name_filter {
        Some(filter) => match first_named(filter, devices) {
            Some(index) => Ok(Found::Listed(index)),
            None => Err(DiscoveryError::NoNameMatch),
        },
        None => match first_touchpad(devices) {
            Some(index) => Ok(Found::Listed(index)),
            None => Err(DiscoveryError::NoTouchpad),
        },
    }
}

/// The first device whose name holds the filter.
fn first_named(filter: &str, devices: &Vec<DeviceInfo>) -> (found: Option<usize>)
    ensures
        ({
            let matching = |d: DeviceInfo| holds(d.shown_name(), filter@);
            match found {
                Some(index) => is_first(devices@, index as int, matching),
                None => is_none(devices@, matching),
            }
        }),
{
    let mut i: usize = 0;
    while i < devices.len()
        invariant
            i <= devices@.len(),
            forall|j: int| 0 <= j < i ==> !holds((#[trigger] devices@[j]).shown_name(), filter@),
        decreases devices.len() - i,
    {
        if devices[i].name_holds(filter) {
            return Some(i);
        }
        i = i + 1;
    }
    None
}

/// The first device that looks like a touchpad and reports several fingers, or else the
/// first one that looks like a touchpad.
fn first_touchpad(devices: &Vec<DeviceInfo>) -> (found: Option<usize>)
    ensures
        ({
            let touchpad = |d: DeviceInfo| d.touchpad_like();
            let multitouch = |d: DeviceInfo| d.touchpad_like() && d.multitouch();
            match found {
                Some(index) => is_first(devices@, index as int, multitouch) || (is_none(
                    devices@,
                    multitouch,
                ) && is_first(devices@, index as int, touchpad)),
                None => is_none(devices@, touchpad),
            }
        }),
{
    let mut best: Option<usize> = None;
    let mut i: usize = 0;
    while i < devices.len()
        invariant
            i <= devices@.len(),
            forall|j: int|
                0 <= j < i ==> !((#[trigger] devices@[j]).touchpad_like()
                    && devices@[j].multitouch()),
            match best {
                Some(b) => b < i && devices@[b as int].touchpad_like() && (forall|j: int|
                    0 <= j < b ==> !(#[trigger] devices@[j]).touchpad_like()),
                None => forall|j: int| 0 <= j < i ==> !(#[trigger] devices@[j]).touchpad_like(),
            },
        decreases devices.len() - i,
    {
        let device = &devices[i];
        if device.key(BTN_TOOL_FINGER) && device.key(BTN_TOUCH) {
            let multitouch = match device.axes {
                Some(axes) => has_axis(axes, ABS_MT_POSITION_X),
                None => false,
            };
            if multitouch {
                return Some(i);
            }
            if best.is_none() {
                best = Some(i);
            }
        }
        i = i + 1;
    }
    best
}

/// The place where a device is plugged in.
pub fn get_phys(device: &DeviceInfo) -> (phys: Option<String>)
    ensures
        phys is Some <==> device.phys is Some,
        phys matches Some(p) ==> p@ == device.phys->0@,
{
    match device.phys {
        Some(phys) => Some(phys.to_owned()),
        None => None,
    }
}

/// Finds the device that carries the touchpad's buttons: the first such one. A touchpad of
/// which it is not known where it is plugged in has none.
pub fn find_touchpad_button_device(
    touchpad_phys: Option<&str>,
    devices: &Vec<DeviceInfo>,
) -> (found: Option<usize>)
    ensures
        is_button_device_found(
            found,
            match touchpad_phys {
                Some(phys) => Some(phys@),
                None => None,
            },
            devices@,
        ),
{
    match touchpad_phys {
        Some(phys) => first_button_carrier(phys, devices),
        None => None,
    }
}

/// The first device that carries the buttons of the touchpad that is plugged in at a place.
fn first_button_carrier(touchpad_phys: &str, devices: &Vec<DeviceInfo>) -> (found: Option<usize>)
    ensures
        ({
            let carrier = |d: DeviceInfo| d.carries_buttons(touchpad_phys@);
            match found {
                Some(index) => is_first(devices@, index as int, carrier),
                None => is_none(devices@, carrier),
            }
        }),
{
    let mut i: usize = 0;
    while i < devices.len()
        invariant
            i <= devices@.len(),
            forall|j: int|
                0 <= j < i ==> !(#[trigger] devices@[j]).carries_buttons(touchpad_phys@),
        decreases devices.len() - i,
    {
        let device = &devices[i];
        let same_place = match device.phys {
            Some(phys) => same_text(phys, touchpad_phys),
            None => false,
        };
        if !device.is_touchpad && !device.name_holds("rinertia") && same_place && !device.key(
            BTN_TOOL_FINGER,
        ) && device.key(BTN_LEFT) {
            return Some(i);
        }
        i = i + 1;
    }
    None
}

/// Whether two texts are the same.
fn same_text(a: &str, b: &str) -> (same: bool)
    ensures
        same == (a@ == b@),
{
    a.to_owned() == b.to_owned()
}

/// The text of the error.
pub open spec fn discovery_message(
    error: DiscoveryError,
    path: Seq<char>,
    filter: Seq<char>,
) -> Seq<char> {
    match error {
        DiscoveryError::PathMissing => "Device path does not exist: "@ + path,
        DiscoveryError::NoNameMatch => "No device found matching name filter: \""@ + filter
            + "\""@,
        DiscoveryError::NoTouchpad =>
            "No touchpad device found (looked for BTN_TOOL_FINGER + BTN_TOUCH)"@,
    }
}

impl DiscoveryError {
    /// The text of the error, given the path and the filter that were asked for.
    pub fn message(&self, path: &str, filter: &str) -> (text: String)
        ensures
            text@ == discovery_message(*self, path@, filter@),
    {
        match self {
            DiscoveryError::PathMissing => {
                let mut out = "Device path does not exist: ".to_owned();
                out.append(path);
                out
            },
            DiscoveryError::NoNameMatch => {
                let mut out = "No device found matching name filter: \"".to_owned();
                out.append(filter);
                out.append("\"");
                out
            },
            DiscoveryError::NoTouchpad => {
                "No touchpad device found (looked for BTN_TOOL_FINGER + BTN_TOUCH)".to_owned()
            },
        }
    }
}

/// A part that is held stands somewhere in the text, with the rest of the text before and behind it.
pub proof fn law_held_parts_stand_in_the_text(before: Seq<char>, part: Seq<char>, behind: Seq<char>)
    ensures
        holds(before + part + behind, part),
        holds(part, part),
        holds(part, Seq::empty()),
        part.len() < behind.len() ==> !holds(part, behind),
{
    let text = before + part + behind;
    let at = before.len() as int;
    assert(text.subrange(at, at + part.len()) =~= part);
    let (none, zero) = (Seq::<char>::empty(), 0int);
    assert(part.subrange(zero, zero + part.len()) =~= part);
    assert(part.subrange(zero, zero + none.len()) =~= none);
}

/// A given path decides alone: it is taken if there is something there, whatever devices and names
/// there are.
pub proof fn law_given_path_decides(
    found: Result<Found, DiscoveryError>,
    path_exists: bool,
    name_filter: Option<Seq<char>>,
    devices: Seq<DeviceInfo>,
)
    requires
        is_touchpad_found(found, true, path_exists, name_filter, devices),
    ensures
        path_exists ==> found == Ok::<Found, DiscoveryError>(Found::Given),
        !path_exists ==> found == Err::<Found, DiscoveryError>(DiscoveryError::PathMissing),
{
}

/// Whether a device has a key.
pub open spec fn carries_key(device: DeviceInfo, code: u16) -> bool {
    device.keys matches Some(keys) && key_codes(keys).contains(code)
}

/// Whether a device reports several fingers.
pub open spec fn reports_fingers(device: DeviceInfo) -> bool {
    device.axes matches Some(axes) && axis_codes(axes).contains(0x35)
}

/// Among the devices, without a path and a name: what is found is a touchpad, that is a device with
/// a finger tool and a touch; no touchpad before it reports several fingers, and none at all does
/// unless the found one does; and something is found as soon as there is a touchpad.
pub proof fn law_found_touchpad(
    found: Result<Found, DiscoveryError>,
    path_exists: bool,
    devices: Seq<DeviceInfo>,
    other: int,
)
    requires
        is_touchpad_found(found, false, path_exists, None, devices),
        0 <= other < devices.len(),
    ensures
        found matches Err(e) ==> e == DiscoveryError::NoTouchpad && !(carries_key(devices[other], 0x145)
            && carries_key(devices[other], 0x14a)),
        found matches Ok(device) ==> device is Listed,
        found matches Ok(Found::Listed(index)) ==> {
            let pad = carries_key(devices[other], 0x145) && carries_key(devices[other], 0x14a);
            &&& index < devices.len()
            &&& carries_key(devices[index as int], 0x145) && carries_key(devices[index as int], 0x14a)
            &&& pad && reports_fingers(devices[other]) ==> reports_fingers(devices[index as int])
                && index <= other
            &&& pad && !reports_fingers(devices[index as int]) ==> index <= other
        },
{
    if let Ok(Found::Listed(index)) = found {
        let d = devices[other];
        let e = devices[index as int];
        assert(d.touchpad_like() == (carries_key(d, 0x145) && carries_key(d, 0x14a)));
        assert(e.touchpad_like() == (carries_key(e, 0x145) && carries_key(e, 0x14a)));
    }
}

/// Among the devices, with a name: what is found is the first device whose name, which is empty
/// where there is none, holds it, and something is found as soon as there is one.
pub proof fn law_found_by_name(
    found: Result<Found, DiscoveryError>,
    path_exists: bool,
    filter: Seq<char>,
    devices: Seq<DeviceInfo>,
    other: int,
)
    requires
        is_touchpad_found(found, false, path_exists, Some(filter), devices),
        0 <= other < devices.len(),
    ensures
        ({
            let named = |d: DeviceInfo|
                match d.name {
                    Some(name) => holds(name@, filter),
                    None => filter.len() == 0,
                };
            &&& found matches Err(e) ==> e == DiscoveryError::NoNameMatch && !named(devices[other])
            &&& found matches Ok(device) ==> device is Listed
            &&& found matches Ok(Found::Listed(index)) ==> index < devices.len() && named(
                devices[index as int],
            ) && (named(devices[other]) ==> index <= other)
        }),
{
    law_held_parts_stand_in_the_text(Seq::empty(), Seq::empty(), filter);
    assert(filter.len() == 0 ==> filter =~= Seq::<char>::empty());
}

/// The device with the buttons is another one at the touchpad's place, not one of our own, with a
/// left button and without a finger tool; it is the first of that kind, and it is found as soon as
/// there is one. Of a touchpad whose place is not known there is none.
pub proof fn law_found_button_device(
    found: Option<usize>,
    touchpad_phys: Option<Seq<char>>,
    devices: Seq<DeviceInfo>,
    other: int,
)
    requires
        is_button_device_found(found, touchpad_phys, devices),
        0 <= other < devices.len(),
    ensures
        touchpad_phys is None ==> found is None,
        touchpad_phys matches Some(phys) ==> {
            let fits = |d: DeviceInfo|
                {
                    &&& !d.is_touchpad
                    &&& d.name matches Some(name) ==> !holds(name@, "rinertia"@)
                    &&& d.phys matches Some(place) && place@ == phys
                    &&& carries_key(d, 0x110) && !carries_key(d, 0x145)
                };
            &&& found is None ==> !fits(devices[other])
            &&& found matches Some(index) ==> index < devices.len() && fits(devices[index as int])
                && (fits(devices[other]) ==> index <= other)
        },
{
    reveal_strlit("rinertia");
    law_held_parts_stand_in_the_text(Seq::empty(), Seq::empty(), "rinertia"@);
    if let Some(phys) = touchpad_phys {
        let d = devices[other];
        assert(d.name is None ==> !holds(d.shown_name(), "rinertia"@));
        if let Some(index) = found {
            let e = devices[index as int];
            assert(e.carries_buttons(phys));
        }
    }
}

} // verus!
