//! The target schema of client events, and their converters.

use vstd::prelude::*;
use crate::primitive::{
    client_id_from, client_type_from, client_type_of, height_from, height_of,
    is_supported_client_type, ClientId, ClientType, Height,
};
use crate::source::{IbcAttributes, IbcCreateClient};

verus! {

/// The payload of a "client created" event.
#[derive(Clone, Debug, PartialEq)]
pub struct Attributes {
    pub height: Height,
    pub client_id: ClientId,
    pub client_type: ClientType,
    pub consensus_height: Height,
}

/// Whether `r` is the conversion of `a`: each field of `r` is the
/// conversion of the same field of `a`.
pub open spec fn attributes_converted(a: IbcAttributes, r: Attributes) -> bool {
    &&& r.height == height_of(a.height)
    &&& r.client_id@ == a.client_id@
    &&& client_type_of(a.client_type) == Some(r.client_type)
    &&& r.consensus_height == height_of(a.consensus_height)
}

/// Converts an attributes bundle, field by field.
pub fn attributes_from(a: IbcAttributes) -> (r: Attributes)
    requires
        is_supported_client_type(a.client_type),
    ensures
        attributes_converted(a, r),
{
    let IbcAttributes { height, client_id, client_type, consensus_height } = a;
    Attributes {
        height: height_from(height),
        client_id: client_id_from(client_id),
        client_type: client_type_from(client_type),
        consensus_height: height_from(consensus_height),
    }
}

/// Converting an attributes bundle as a whole gives, in each field, what
/// converting that field of the source alone gives.
pub proof fn attributes_from_is_fieldwise(
    a: IbcAttributes,
    r: Attributes,
    height: Height,
    client_id: ClientId,
    client_type: ClientType,
    consensus_height: Height,
)
    requires
        attributes_converted(a, r),
        height == height_of(a.height),
        client_id@ == a.client_id@,
        client_type_of(a.client_type) == Some(client_type),
        consensus_height == height_of(a.consensus_height),
    ensures
        r.height == height,
        r.client_id@ == client_id@,
        r.client_type == client_type,
        r.consensus_height == consensus_height,
{
}

/// The "client created" event of the target schema.
#[derive(Clone, Debug, PartialEq)]
pub struct CreateClient(Attributes);

impl CreateClient {
    /// The attributes bundle that the event carries.
    pub closed spec fn spec_attributes(&self) -> Attributes {
        self.0
    }

    /// Wraps an attributes bundle.
    pub fn new(attributes: Attributes) -> (r: CreateClient)
        ensures
            r.spec_attributes() == attributes,
    {
        CreateClient(attributes)
    }

    /// The attributes bundle that the event carries.
    pub fn attributes(&self) -> (r: &Attributes)
        ensures
            *r == self.spec_attributes(),
    {
        &self.0
    }
}

/// Whether `r` is the conversion of `c`.
pub open spec fn create_client_converted(c: IbcCreateClient, r: CreateClient) -> bool {
    attributes_converted(c.0, r.spec_attributes())
}

/// Converts a "client created" event by converting its attributes bundle.
pub fn create_client_from(c: IbcCreateClient) -> (r: CreateClient)
    requires
        is_supported_client_type(c.0.client_type),
    ensures
        create_client_converted(c, r),
{
    let IbcCreateClient(attributes) = c;
    CreateClient(attributes_from(attributes))
}

} // verus!
