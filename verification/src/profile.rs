//! Profiles: which devices to look for, and in which order.

use vstd::prelude::*;
use crate::mouse::{find_model, model_named, GetMouseError};

verus! {

/// What is known of a mouse before it is plugged in.
#[derive(Debug, Clone, PartialEq, Eq)]
pub struct MouseProfile {
    /// Name of the model, by which its driver is found.
    pub model: String,
    /// Product identity.
    pub product: u16,
    /// Vendor identity.
    pub vendor: u16,
    /// Number of the interface to open.
    pub endpoint: i32,
}

/// The vendor and product of a device on the bus.
#[derive(Debug, Clone, Copy, PartialEq, Eq, Structural)]
pub struct DeviceIdentity {
    pub vendor_id: u16,
    pub product_id: u16,
}

impl MouseProfile {
    /// A profile answers to an identity when vendor and product agree;
    /// the interface plays no part.
    pub open spec fn has_identity(&self, identity: DeviceIdentity) -> bool {
        self.vendor == identity.vendor_id && self.product == identity.product_id
    }

    /// Whether the profile answers to the identity.
    pub fn answers_to(&self, identity: &DeviceIdentity) -> (answer: bool)
        ensures
            answer == self.has_identity(*identity),
    {
        self.vendor == identity.vendor_id && self.product == identity.product_id
    }
}

/// Whether some profile of the table answers to the identity.
pub open spec fn some_profile_has(
    table: Seq<(String, MouseProfile)>,
    identity: DeviceIdentity,
) -> bool {
    exists|i: int| 0 <= i < table.len() && (#[trigger] table[i]).1.has_identity(identity)
}

/// Whether `i` is the first place in the table whose profile answers to
/// the identity.
pub open spec fn is_first_with(
    table: Seq<(String, MouseProfile)>,
    identity: DeviceIdentity,
    i: int,
) -> bool {
    &&& 0 <= i < table.len()
    &&& table[i].1.has_identity(identity)
    &&& forall|k: int| 0 <= k < i ==> !(#[trigger] table[k]).1.has_identity(identity)
}

/// The place of the first profile, in table order, that answers to the
/// identity.
pub fn first_profile_with(table: &[(String, MouseProfile)], identity: &DeviceIdentity) -> (place:
    Option<usize>)
    ensures
        match place {
            Some(i) => is_first_with(table@, *identity, i as int),
            None => !some_profile_has(table@, *identity),
        },
{
    let mut i: usize = 0;
    while i < table.len()
        invariant
            i <= table.len(),
            forall|k: int| 0 <= k < i ==> !(#[trigger] table@[k]).1.has_identity(*identity),
        decreases table.len() - i,
    {
        if table[i].1.answers_to(identity) {
            return Some(i);
        }
        i += 1;
    }
    None
}

/// Whether every model that the table names has a driver.
pub open spec fn all_models_known(table: Seq<(String, MouseProfile)>) -> bool {
    forall|i: int| 0 <= i < table.len() ==> model_named((#[trigger] table[i]).1.model@) is Some
}

/// Whether `i` is the first place in the table whose model has no driver.
pub open spec fn is_first_unknown(table: Seq<(String, MouseProfile)>, i: int) -> bool {
    &&& 0 <= i < table.len()
    &&& model_named(table[i].1.model@) is None
    &&& forall|k: int| 0 <= k < i ==> model_named((#[trigger] table[k]).1.model@) is Some
}

/// Checks, before anything is opened, that every model of the table has
/// a driver. The error names the first model that has none.
pub fn check_models(table: &[(String, MouseProfile)]) -> (checked: Result<(), GetMouseError>)
    ensures
        checked is Ok <==> all_models_known(table@),
        checked matches Err(error) ==> exists|i: int| #[trigger]
            is_first_unknown(table@, i) && error.0@ == table@[i].1.model@,
{
    let mut i: usize = 0;
    while i < table.len()
        invariant
            i <= table.len(),
            forall|k: int| 0 <= k < i ==> model_named((#[trigger] table@[k]).1.model@) is Some,
        decreases table.len() - i,
    {
        if find_model(table[i].1.model.as_str()).is_none() {
            assert(is_first_unknown(table@, i as int));
            return Err(GetMouseError(table[i].1.model.clone()));
        }
        i += 1;
    }
    Ok(())
}

} // verus!
