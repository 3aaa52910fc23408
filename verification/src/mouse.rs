//! The driver registry and the reading that every driver produces.
//!
//! A driver owns the handle of the device it speaks to, but never touches
//! it: it says which bytes to send and what the answer means. Whoever
//! holds the driver does the sending and the receiving.

use vstd::prelude::*;
use vstd::string::*;

pub mod aerox9;

use crate::mouse::aerox9::{Wired, Wireless};

verus! {

/// A battery reading: whether the device is charging, and the charge in
/// percent.
#[derive(Debug, Clone, Copy, PartialEq, Eq, Structural)]
pub struct BatteryStatus {
    pub is_charging: bool,
    pub percent: u16,
}

impl BatteryStatus {
    /// A reading is well formed when its charge is a multiple of five
    /// between 0 and 100.
    pub open spec fn wf(self) -> bool {
        self.percent <= 100 && self.percent % 5 == 0
    }
}

/// What every driver can do with the device handle `D` that it owns.
pub trait Mouse<D>: Sized {
    /// The handle that the driver owns.
    spec fn handle(&self) -> D;

    /// The bytes of the battery request.
    spec fn request(&self) -> Seq<u8>;

    /// What a response means.
    spec fn reading(&self, response: Seq<u8>) -> Option<BatteryStatus>;

    /// Binds a driver to an opened device.
    fn new(device: D) -> (mouse: Self)
        ensures
            mouse.handle() == device,
    ;

    /// The device that the driver is bound to.
    fn device(&self) -> (device: &D)
        ensures
            *device == self.handle(),
    ;

    /// The request to write to the device before reading its answer.
    fn battery_request(&self) -> (request: [u8; 2])
        ensures
            request@ == self.request(),
    ;

    /// Decodes the answer that the device gave to the battery request.
    fn battery(&self, response: &[u8; 2]) -> (status: Option<BatteryStatus>)
        ensures
            status == self.reading(response@),
            status matches Some(s) ==> s.wf(),
    ;
}

/// The name of a model that has no driver.
#[derive(Debug, Clone, PartialEq, Eq)]
pub struct GetMouseError(pub String);

impl GetMouseError {
    /// The text of the error: a fixed prefix, then the offending name.
    pub fn message(&self) -> (text: String)
        ensures
            text@ == "Invalid model: "@ + self.0@,
    {
        let prefix: String = "Invalid model: ".to_owned();
        prefix.concat(self.0.as_str())
    }
}

/// The models that have a driver.
#[derive(Debug, Clone, Copy, PartialEq, Eq, Structural)]
pub enum Model {
    Aerox9Wired,
    Aerox9Wireless,
}

/// The model that a name stands for, if any.
pub open spec fn model_named(name: Seq<char>) -> Option<Model> {
    if name == "steelseries_aerox_9_wired"@ {
        Some(Model::Aerox9Wired)
    } else if name == "steelseries_aerox_9_wireless"@ {
        Some(Model::Aerox9Wireless)
    } else {
        None
    }
}

/// Looks a model up by its name.
pub fn find_model(name: &str) -> (model: Option<Model>)
    ensures
        model == model_named(name@),
{
    let name: String = name.to_owned();
    if name == "steelseries_aerox_9_wired".to_owned() {
        Some(Model::Aerox9Wired)
    } else if name == "steelseries_aerox_9_wireless".to_owned() {
        Some(Model::Aerox9Wireless)
    } else {
        None
    }
}

/// A driver of one of the supported models, bound to a device.
pub enum Driver<D> {
    Wired(Wired<D>),
    Wireless(Wireless<D>),
}

impl<D> Driver<D> {
    /// The model that the driver speaks for.
    pub open spec fn model(&self) -> Model {
        match self {
            Driver::Wired(_) => Model::Aerox9Wired,
            Driver::Wireless(_) => Model::Aerox9Wireless,
        }
    }

    /// The handle that the driver owns.
    pub open spec fn handle(&self) -> D {
        match self {
            Driver::Wired(mouse) => mouse.handle(),
            Driver::Wireless(mouse) => mouse.handle(),
        }
    }

    /// The bytes of the battery request.
    pub open spec fn request(&self) -> Seq<u8> {
        match self {
            Driver::Wired(mouse) => mouse.request(),
            Driver::Wireless(mouse) => mouse.request(),
        }
    }

    /// What a response means.
    pub open spec fn reading(&self, response: Seq<u8>) -> Option<BatteryStatus> {
        match self {
            Driver::Wired(mouse) => mouse.reading(response),
            Driver::Wireless(mouse) => mouse.reading(response),
        }
    }

    /// The device that the driver is bound to.
    pub fn device(&self) -> (device: &D)
        ensures
            *device == self.handle(),
    {
        match self {
            Driver::Wired(mouse) => mouse.device(),
            Driver::Wireless(mouse) => mouse.device(),
        }
    }

    /// The request to write to the device before reading its answer.
    pub fn battery_request(&self) -> (request: [u8; 2])
        ensures
            request@ == self.request(),
    {
        match self {
            Driver::Wired(mouse) => mouse.battery_request(),
            Driver::Wireless(mouse) => mouse.battery_request(),
        }
    }

    /// Decodes the answer that the device gave to the battery request.
    pub fn battery(&self, response: &[u8; 2]) -> (status: Option<BatteryStatus>)
        ensures
            status == self.reading(response@),
            status == aerox9::decode(response@[1]),
            status matches Some(s) ==> s.wf(),
    {
        match self {
            Driver::Wired(mouse) => mouse.battery(response),
            Driver::Wireless(mouse) => mouse.battery(response),
        }
    }
}

/// Binds the driver of the named model to an opened device. A name that
/// no driver answers to comes back in the error, and the device is
/// released.
pub fn get_mouse<D>(model: &str, device: D) -> (mouse: Result<Driver<D>, GetMouseError>)
    ensures
        match mouse {
            Ok(driver) => model_named(model@) == Some(driver.model()) && driver.handle() == device,
            Err(error) => model_named(model@) is None && error.0@ == model@,
        },
{
    match find_model(model) {
        Some(Model::Aerox9Wired) => Ok(Driver::Wired(Wired::new(device))),
        Some(Model::Aerox9Wireless) => Ok(Driver::Wireless(Wireless::new(device))),
        None => Err(GetMouseError(model.to_owned())),
    }
}

} // verus!
