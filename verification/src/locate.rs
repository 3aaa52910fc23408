//! Finding the mouse to open among the devices that are plugged in.
//!
//! The table is searched in its own order, and for each profile the
//! devices in the order of their enumeration. The first pair that agrees
//! in vendor, product and interface is the one to open; what opening it
//! gave then decides between a driver and an error.

use vstd::prelude::*;
use vstd::string::*;
use crate::mouse::{get_mouse, model_named, Driver, GetMouseError};
use crate::profile::MouseProfile;

verus! {

/// What the enumeration tells of one device.
#[derive(Debug, Clone, Copy, PartialEq, Eq, Structural)]
pub struct DeviceInfo {
    pub vendor_id: u16,
    pub product_id: u16,
    pub interface_number: i32,
}

/// The places of a profile in the table and of a device in the
/// enumeration.
#[derive(Debug, Clone, Copy, PartialEq, Eq, Structural)]
pub struct Located {
    pub profile: usize,
    pub device: usize,
}

/// Why no driver came out of the search.
#[derive(Debug, Clone, PartialEq, Eq)]
pub enum OpenFirstMouseError {
    /// No device is a mouse of the table.
    NotFound,
    /// The device that was found could not be opened; the text says why.
    OpenMouse(String),
    /// The device was opened, but its model has no driver.
    WrapMouse(GetMouseError),
}

impl OpenFirstMouseError {
    /// The text of the error.
    pub fn message(&self) -> (text: String)
        ensures
            text@ == match *self {
                OpenFirstMouseError::NotFound => "No mouse found"@,
                OpenFirstMouseError::OpenMouse(cause) => "Error opening the found mouse: "@
                    + cause@,
                OpenFirstMouseError::WrapMouse(cause) => "Error wrapping the mouse device: "@
                    + ("Invalid model: "@ + cause.0@),
            },
    {
        match self {
            OpenFirstMouseError::NotFound => "No mouse found".to_owned(),
            OpenFirstMouseError::OpenMouse(cause) => {
                let prefix: String = "Error opening the found mouse: ".to_owned();
                prefix.concat(cause.as_str())
            },
            OpenFirstMouseError::WrapMouse(cause) => {
                let prefix: String = "Error wrapping the mouse device: ".to_owned();
                prefix.concat(cause.message().as_str())
            },
        }
    }
}

impl MouseProfile {
    /// A device is the one a profile describes when vendor, product and
    /// interface agree.
    pub open spec fn describes(&self, device: DeviceInfo) -> bool {
        &&& device.vendor_id == self.vendor
        &&& device.product_id == self.product
        &&& device.interface_number == self.endpoint
    }

    /// Whether the profile describes the device.
    pub fn is_profile_of(&self, device: &DeviceInfo) -> (answer: bool)
        ensures
            answer == self.describes(*device),
    {
        device.vendor_id == self.vendor && device.product_id == self.product
            && device.interface_number == self.endpoint
    }
}

/// Whether the profile describes one of the devices.
pub open spec fn describes_some(profile: MouseProfile, devices: Seq<DeviceInfo>) -> bool {
    exists|j: int| 0 <= j < devices.len() && profile.describes(#[trigger] devices[j])
}

/// Whether `j` is the first device that the profile describes.
pub open spec fn is_first_described(profile: MouseProfile, devices: Seq<DeviceInfo>, j: int) -> bool {
    &&& 0 <= j < devices.len()
    &&& profile.describes(devices[j])
    &&& forall|k: int| 0 <= k < j ==> !profile.describes(#[trigger] devices[k])
}

/// Whether some profile of the table describes some device.
pub open spec fn any_match(table: Seq<(String, MouseProfile)>, devices: Seq<DeviceInfo>) -> bool {
    exists|i: int| 0 <= i < table.len() && describes_some((#[trigger] table[i]).1, devices)
}

/// Whether `found` is the match that wins: its profile is the first of
/// the table that describes any device, and its device the first that
/// this profile describes.
pub open spec fn is_first_match(
    table: Seq<(String, MouseProfile)>,
    devices: Seq<DeviceInfo>,
    found: Located,
) -> bool {
    &&& found.profile < table.len()
    &&& is_first_described(table[found.profile as int].1, devices, found.device as int)
    &&& forall|i: int|
        0 <= i < found.profile ==> !describes_some((#[trigger] table[i]).1, devices)
}

/// The place of the first device that the profile describes.
pub fn first_device_of(profile: &MouseProfile, devices: &[DeviceInfo]) -> (place: Option<usize>)
    ensures
        match place {
            Some(j) => is_first_described(*profile, devices@, j as int),
            None => !describes_some(*profile, devices@),
        },
{
    let mut j: usize = 0;
    while j < devices.len()
        invariant
            j <= devices.len(),
            forall|k: int| 0 <= k < j ==> !profile.describes(#[trigger] devices@[k]),
        decreases devices.len() - j,
    {
        if profile.is_profile_of(&devices[j]) {
            return Some(j);
        }
        j += 1;
    }
    None
}

/// Finds the mouse to open: the first profile, in table order, that
/// describes a device, with the first device that it describes. Where no
/// profile describes any device the answer is `NotFound`, and nothing
/// else: the search itself cannot fail.
pub fn find_first_mouse(table: &[(String, MouseProfile)], devices: &[DeviceInfo]) -> (found:
    Result<Located, OpenFirstMouseError>)
    ensures
        match found {
            Ok(located) => is_first_match(table@, devices@, located),
            Err(error) => error is NotFound && !any_match(table@, devices@),
        },
        found is Ok <==> any_match(table@, devices@),
{
    let mut i: usize = 0;
    while i < table.len()
        invariant
            i <= table.len(),
            forall|k: int| 0 <= k < i ==> !describes_some((#[trigger] table@[k]).1, devices@),
        decreases table.len() - i,
    {
        match first_device_of(&table[i].1, devices) {
            Some(j) => {
                assert(any_match(table@, devices@)) by {
                    assert(describes_some(table@[i as int].1, devices@));
                }
                return Ok(Located { profile: i, device: j });
            },
            None => {},
        }
        i += 1;
    }
    Err(OpenFirstMouseError::NotFound)
}

/// What the search comes to once the device that was found has been
/// tried: a failure to open is handed on as it is, and an opened device
/// is bound to the driver of the profile's model.
pub open spec fn opened_outcome<D>(
    profile: MouseProfile,
    opened: Result<D, String>,
    mouse: Result<Driver<D>, OpenFirstMouseError>,
) -> bool {
    match opened {
        Err(cause) => mouse == Err::<Driver<D>, _>(OpenFirstMouseError::OpenMouse(cause)),
        Ok(device) => match model_named(profile.model@) {
            Some(model) => mouse matches Ok(driver) && driver.model() == model && driver.handle()
                == device,
            None => mouse matches Err(OpenFirstMouseError::WrapMouse(error)) && error.0@
                == profile.model@,
        },
    }
}

/// Turns the result of opening the device that was found into a driver.
/// No other profile is tried after a failure.
pub fn wrap_opened<D>(profile: &MouseProfile, opened: Result<D, String>) -> (mouse: Result<
    Driver<D>,
    OpenFirstMouseError,
>)
    ensures
        opened_outcome(*profile, opened, mouse),
        mouse is Ok <==> opened is Ok && model_named(profile.model@) is Some,
{
    match opened {
        Err(cause) => Err(OpenFirstMouseError::OpenMouse(cause)),
        Ok(device) => match get_mouse(profile.model.as_str(), device) {
            Ok(driver) => Ok(driver),
            Err(error) => Err(OpenFirstMouseError::WrapMouse(error)),
        },
    }
}

/// A match that wins is the only one that does.
pub proof fn lemma_first_match_unique(
    table: Seq<(String, MouseProfile)>,
    devices: Seq<DeviceInfo>,
    a: Located,
    b: Located,
)
    requires
        is_first_match(table, devices, a),
        is_first_match(table, devices, b),
    ensures
        a == b,
{
    assert(describes_some(table[a.profile as int].1, devices));
    assert(describes_some(table[b.profile as int].1, devices));
}

/// Where only one profile of the table describes any device, the match
/// that wins is that profile, wherever in the table it stands, with the
/// first device that it describes.
pub proof fn lemma_sole_profile_wins(
    table: Seq<(String, MouseProfile)>,
    devices: Seq<DeviceInfo>,
    only: int,
    found: Located,
)
    requires
        0 <= only < table.len(),
        describes_some(table[only].1, devices),
        forall|i: int|
            0 <= i < table.len() && i != only ==> !describes_some((#[trigger] table[i]).1, devices),
        is_first_match(table, devices, found),
    ensures
        any_match(table, devices),
        found.profile == only,
        is_first_described(table[only].1, devices, found.device as int),
{
    assert(describes_some(table[found.profile as int].1, devices));
}

} // verus!
