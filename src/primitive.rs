//! Leaf values of the target schema, and their converters.

use vstd::prelude::*;
use vstd::std_specs::cmp::PartialEqSpec;
use crate::source::{IbcClientId, IbcClientType, IbcHeight};

verus! {

/// A chain height, copied field for field from the source.
#[derive(Clone, Copy, Debug, PartialEq, Eq, Structural)]
pub struct Height {
    /// Previously known as "epoch"
    pub revision_number: u64,
    /// The height of a block
    pub revision_height: u64,
}

/// The target height for a source height.
pub open spec fn height_of(h: IbcHeight) -> Height {
    Height { revision_number: h.revision_number, revision_height: h.revision_height }
}

/// Converts a source height: both fields are kept as they are.
pub fn height_from(h: IbcHeight) -> (r: Height)
    ensures
        r == height_of(h),
        r.revision_number == h.revision_number,
        r.revision_height == h.revision_height,
{
    Height { revision_number: h.revision_number, revision_height: h.revision_height }
}

/// The consensus algorithm tag of the target schema.
#[derive(Clone, Copy, Debug, PartialEq, Eq, Structural)]
pub enum ClientType {
    Tendermint,
}

/// The target tag for a source tag, or `None` where no mapping exists.
pub open spec fn client_type_of(t: IbcClientType) -> Option<ClientType> {
    match t {
        IbcClientType::Tendermint => Some(ClientType::Tendermint),
        IbcClientType::Mock => None,
    }
}

/// Whether a source tag has a mapping.
pub open spec fn is_supported_client_type(t: IbcClientType) -> bool {
    client_type_of(t) is Some
}

/// Converts a source tag that has a mapping.
pub fn client_type_from(t: IbcClientType) -> (r: ClientType)
    requires
        is_supported_client_type(t),
    ensures
        client_type_of(t) == Some(r),
{
    match t {
        IbcClientType::Tendermint => ClientType::Tendermint,
        IbcClientType::Mock => vstd::pervasive::unreached(),
    }
}

/// Tells whether a source tag has a mapping.
pub fn supports_client_type(t: &IbcClientType) -> (r: bool)
    ensures
        r == is_supported_client_type(*t),
{
    match t {
        IbcClientType::Tendermint => true,
        IbcClientType::Mock => false,
    }
}

/// A client identifier, held as its characters.
#[derive(Clone, Debug)]
pub struct ClientId(String);

impl View for ClientId {
    type V = Seq<char>;

    closed spec fn view(&self) -> Seq<char> {
        self.0@
    }
}

impl ClientId {
    /// Wraps an identifier string as it is.
    pub fn new(id: String) -> (r: ClientId)
        ensures
            r@ == id@,
    {
        ClientId(id)
    }

    /// The identifier's characters.
    pub fn as_str(&self) -> (r: &str)
        ensures
            r@ == self@,
    {
        self.0.as_str()
    }
}

impl PartialEq for ClientId {
    fn eq(&self, o: &ClientId) -> (r: bool) {
        self.0 == o.0
    }
}

impl vstd::std_specs::cmp::PartialEqSpecImpl for ClientId {
    open spec fn obeys_eq_spec() -> bool {
        true
    }

    open spec fn eq_spec(&self, o: &ClientId) -> bool {
        self@ == o@
    }
}

/// Converts a source identifier: its characters are kept as they are.
pub fn client_id_from(id: IbcClientId) -> (r: ClientId)
    ensures
        r@ == id@,
{
    ClientId(id.0)
}

/// Two conversions of the same source identifier give equal identifiers.
pub proof fn client_id_from_is_deterministic(id: IbcClientId, r1: ClientId, r2: ClientId)
    requires
        r1@ == id@,
        r2@ == id@,
    ensures
        r1@ == r2@,
        r1.eq_spec(&r2),
{
}

} // verus!
