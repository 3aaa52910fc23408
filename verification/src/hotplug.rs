//! Hot-plug events, and which of them announce a mouse of the table.

use vstd::prelude::*;
use crate::ident::{hex_id, parse_id};
use crate::profile::{first_profile_with, some_profile_has, DeviceIdentity, MouseProfile};

verus! {

/// What happened to a device.
#[derive(Debug, Clone, Copy, PartialEq, Eq, Structural)]
pub enum EventType {
    Add,
    Change,
    Remove,
    Bind,
    Unbind,
    Unknown,
}

impl EventType {
    /// Whether the event tells of a device that was attached: only then
    /// are the attributes of the device of any interest.
    pub fn is_attach(&self) -> (attach: bool)
        ensures
            attach == (*self == EventType::Bind),
    {
        match self {
            EventType::Bind => true,
            _ => false,
        }
    }
}

/// A hot-plug event, with the two attributes of its device that matter:
/// the bytes of `idVendor` and of `idProduct`, where the device has them.
#[derive(Debug, Clone, PartialEq, Eq)]
pub struct HotplugEvent {
    pub event_type: EventType,
    pub id_vendor: Option<Vec<u8>>,
    pub id_product: Option<Vec<u8>>,
}

/// Why an attach event could not be read.
#[derive(Debug, Clone, Copy, PartialEq, Eq, Structural)]
pub enum UdevEventError {
    /// The event has no vendor identity.
    MissingVendor,
    /// The vendor identity is not four hex digits.
    InvalidVendor,
    /// The event has no product identity.
    MissingProduct,
    /// The product identity is not four hex digits.
    InvalidProduct,
}

impl UdevEventError {
    /// The text of the error.
    pub fn message(&self) -> (text: String)
        ensures
            text@ == match *self {
                UdevEventError::MissingVendor => "Event missing vendor id"@,
                UdevEventError::InvalidVendor => "Vendor id not in proper format"@,
                UdevEventError::MissingProduct => "Event missing product id"@,
                UdevEventError::InvalidProduct => "Product id not in proper format"@,
            },
    {
        match self {
            UdevEventError::MissingVendor => "Event missing vendor id".to_owned(),
            UdevEventError::InvalidVendor => "Vendor id not in proper format".to_owned(),
            UdevEventError::MissingProduct => "Event missing product id".to_owned(),
            UdevEventError::InvalidProduct => "Product id not in proper format".to_owned(),
        }
    }
}

/// One attribute read as an identity: `missing` where the device has no
/// such attribute, `invalid` where its bytes are not four hex digits.
pub open spec fn attribute_id(
    attribute: Option<Vec<u8>>,
    missing: UdevEventError,
    invalid: UdevEventError,
) -> Result<u16, UdevEventError> {
    match attribute {
        None => Err(missing),
        Some(text) => match hex_id(text@) {
            Some(id) => Ok(id),
            None => Err(invalid),
        },
    }
}

/// The identity that an event carries. The vendor is read first, so a
/// fault in it hides any fault in the product.
pub open spec fn event_identity(event: HotplugEvent) -> Result<DeviceIdentity, UdevEventError> {
    match attribute_id(
        event.id_vendor,
        UdevEventError::MissingVendor,
        UdevEventError::InvalidVendor,
    ) {
        Err(error) => Err(error),
        Ok(vendor_id) => match attribute_id(
            event.id_product,
            UdevEventError::MissingProduct,
            UdevEventError::InvalidProduct,
        ) {
            Err(error) => Err(error),
            Ok(product_id) => Ok(DeviceIdentity { vendor_id, product_id }),
        },
    }
}

/// Whether an event announces a mouse of the table. Only a `Bind` event
/// can; no other event has its attributes looked at.
pub open spec fn event_relevance(
    event: HotplugEvent,
    table: Seq<(String, MouseProfile)>,
) -> Result<bool, UdevEventError> {
    if event.event_type == EventType::Bind {
        match event_identity(event) {
            Err(error) => Err(error),
            Ok(identity) => Ok(some_profile_has(table, identity)),
        }
    } else {
        Ok(false)
    }
}

fn read_attribute(
    attribute: &Option<Vec<u8>>,
    missing: UdevEventError,
    invalid: UdevEventError,
) -> (id: Result<u16, UdevEventError>)
    ensures
        id == attribute_id(*attribute, missing, invalid),
{
    match attribute {
        None => Err(missing),
        Some(text) => match parse_id(text.as_slice()) {
            Some(id) => Ok(id),
            None => Err(invalid),
        },
    }
}

/// Reads the identity of the device that an event speaks of.
pub fn identity_of_event(event: &HotplugEvent) -> (identity: Result<
    DeviceIdentity,
    UdevEventError,
>)
    ensures
        identity == event_identity(*event),
        event.id_vendor is None ==> identity == Err::<DeviceIdentity, _>(
            UdevEventError::MissingVendor,
        ),
{
    let vendor_id = match read_attribute(
        &event.id_vendor,
        UdevEventError::MissingVendor,
        UdevEventError::InvalidVendor,
    ) {
        Ok(id) => id,
        Err(error) => { return Err(error); },
    };
    let product_id = match read_attribute(
        &event.id_product,
        UdevEventError::MissingProduct,
        UdevEventError::InvalidProduct,
    ) {
        Ok(id) => id,
        Err(error) => { return Err(error); },
    };
    Ok(DeviceIdentity { vendor_id, product_id })
}

/// Tells whether a hot-plug event announces a mouse of the table.
///
/// An event of any type but `Bind` is of no interest, whatever its
/// attributes. A `Bind` event whose identity cannot be read is an error.
/// Otherwise the answer is whether some profile has the vendor and the
/// product of the event; the interface is not looked at.
pub fn process_udev_event(event: &HotplugEvent, table: &[(String, MouseProfile)]) -> (relevant:
    Result<bool, UdevEventError>)
    ensures
        relevant == event_relevance(*event, table@),
        event.event_type != EventType::Bind ==> relevant == Ok::<bool, UdevEventError>(false),
        event.event_type == EventType::Bind && event.id_vendor is None ==> relevant == Err::<
            bool,
            _,
        >(UdevEventError::MissingVendor),
        relevant == Ok::<bool, UdevEventError>(true) <==> event.event_type == EventType::Bind
            && event_identity(*event) is Ok && some_profile_has(
            table@,
            event_identity(*event)->Ok_0,
        ),
        relevant is Err <==> event.event_type == EventType::Bind && event_identity(*event) is Err,
{
    if !event.event_type.is_attach() {
        return Ok(false);
    }
    let identity = match identity_of_event(event) {
        Ok(identity) => identity,
        Err(error) => { return Err(error); },
    };
    Ok(first_profile_with(table, &identity).is_some())
}

/// An attach event whose vendor and product spell, in hex, those of a
/// profile of the table is relevant, whatever the interface of that
/// profile and wherever in the table it stands.
pub proof fn lemma_attach_of_profile_is_relevant(
    event: HotplugEvent,
    table: Seq<(String, MouseProfile)>,
    i: int,
)
    requires
        event.event_type == EventType::Bind,
        0 <= i < table.len(),
        event.id_vendor matches Some(text) && hex_id(text@) == Some(table[i].1.vendor),
        event.id_product matches Some(text) && hex_id(text@) == Some(table[i].1.product),
    ensures
        event_relevance(event, table) == Ok::<bool, UdevEventError>(true),
{
    let identity = DeviceIdentity { vendor_id: table[i].1.vendor, product_id: table[i].1.product };
    assert(event_identity(event) == Ok::<DeviceIdentity, UdevEventError>(identity));
    assert(table[i].1.has_identity(identity));
}

/// An event that is no attach is never relevant and never an error,
/// whatever its attributes hold or lack.
pub proof fn lemma_other_events_are_ignored(
    event: HotplugEvent,
    table: Seq<(String, MouseProfile)>,
)
    requires
        event.event_type != EventType::Bind,
    ensures
        event_relevance(event, table) == Ok::<bool, UdevEventError>(false),
{
}

/// An attach event without a vendor is an error, and so matches no
/// profile, whatever else it holds.
pub proof fn lemma_attach_without_vendor_is_malformed(
    event: HotplugEvent,
    table: Seq<(String, MouseProfile)>,
)
    requires
        event.event_type == EventType::Bind,
        event.id_vendor is None,
    ensures
        event_relevance(event, table) == Err::<bool, _>(UdevEventError::MissingVendor),
        event_relevance(event, table) != Ok::<bool, UdevEventError>(true),
{
}

} // verus!
