//! Conversion of IBC protocol events into a compact, encodable event schema
//! for a ledger's event log.
//!
//! The source side (`source`) models the protocol library's event values as
//! plain data. The target side (`primitive`, `client_event` and
//! [`SubstrateEvent`]) is the schema written to the log. Each converter
//! states exactly which target value it yields. A source value with no
//! mapping is excluded by `requires`. [`try_substrate_event_from`] reports it
//! as [`ConversionError::UnsupportedVariant`] instead.

pub mod source;
pub mod primitive;
pub mod client_event;

use vstd::prelude::*;
use crate::client_event::{create_client_converted, create_client_from, CreateClient};
use crate::primitive::{is_supported_client_type, supports_client_type};
use crate::source::{IbcCreateClient, IbcEvent};

verus! {

/// The one way a conversion can fail: the source value has a tag for which
/// no mapping exists yet.
#[derive(Clone, Copy, Debug, PartialEq, Eq, Structural)]
pub enum ConversionError {
    UnsupportedVariant,
}

/// The events that the ledger's event log holds.
#[derive(Clone, Debug, PartialEq)]
pub enum SubstrateEvent {
    CreateClient(CreateClient),
}

/// Whether a source event has a mapping: it is a "client created" event
/// whose client type has a mapping.
pub open spec fn is_supported_event(e: IbcEvent) -> bool {
    match e {
        IbcEvent::CreateClient(c) => is_supported_client_type(c.0.client_type),
        _ => false,
    }
}

/// Whether `r` is the conversion of `e`: both are "client created" events,
/// and the payload of `r` is the conversion of that of `e`.
pub open spec fn event_converted(e: IbcEvent, r: SubstrateEvent) -> bool {
    match e {
        IbcEvent::CreateClient(c) => match r {
            SubstrateEvent::CreateClient(rc) => create_client_converted(c, rc),
        },
        _ => false,
    }
}

/// Converts a "client created" event into the log's event.
pub fn substrate_event_from_create_client(c: IbcCreateClient) -> (r: SubstrateEvent)
    requires
        is_supported_client_type(c.0.client_type),
    ensures
        event_converted(IbcEvent::CreateClient(c), r),
{
    SubstrateEvent::CreateClient(create_client_from(c))
}

/// Converts a source event that has a mapping.
pub fn substrate_event_from(e: IbcEvent) -> (r: SubstrateEvent)
    requires
        is_supported_event(e),
    ensures
        event_converted(e, r),
{
    match e {
        IbcEvent::CreateClient(c) => SubstrateEvent::CreateClient(create_client_from(c)),
        _ => vstd::pervasive::unreached(),
    }
}

/// Tells whether a source event has a mapping.
pub fn supports_event(e: &IbcEvent) -> (r: bool)
    ensures
        r == is_supported_event(*e),
{
    match e {
        IbcEvent::CreateClient(c) => supports_client_type(&c.0.client_type),
        _ => false,
    }
}

/// Converts a source event, or reports that it has no mapping.
pub fn try_substrate_event_from(e: IbcEvent) -> (r: Result<SubstrateEvent, ConversionError>)
    ensures
        is_supported_event(e) <==> r is Ok,
        r is Ok ==> event_converted(e, r->Ok_0),
        r is Err ==> r->Err_0 == ConversionError::UnsupportedVariant,
{
    if supports_event(&e) {
        Ok(substrate_event_from(e))
    } else {
        Err(ConversionError::UnsupportedVariant)
    }
}

/// A "client created" event whose client type has a mapping always has a
/// conversion, and every conversion of it is a "client created" event that
/// carries the converted payload.
pub proof fn create_client_event_always_converts(c: IbcCreateClient)
    requires
        is_supported_client_type(c.0.client_type),
    ensures
        is_supported_event(IbcEvent::CreateClient(c)),
        forall|r: SubstrateEvent| #[trigger]
            event_converted(IbcEvent::CreateClient(c), r) ==> (r is CreateClient
                && create_client_converted(c, r->CreateClient_0)),
{
}

/// A source event of any kind but "client created" has no mapping, and no
/// event of the log is its conversion.
pub proof fn other_event_kinds_are_unsupported(e: IbcEvent)
    requires
        !(e is CreateClient),
    ensures
        !is_supported_event(e),
        forall|r: SubstrateEvent| !#[trigger] event_converted(e, r),
{
}

} // verus!
