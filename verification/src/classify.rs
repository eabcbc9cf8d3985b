//! Role and direction classification: decides, from the exporter-reported
//! direction code, which endpoint is the client and which the server, and
//! whether the observation is download (inbound toward the client) or
//! upload (outbound from it). The code is reported relative to the
//! exporter's own observation point: code zero means ingress there, which
//! is download traffic for the client behind it.

use vstd::prelude::*;

use crate::flow::{FlowObservation, IpAddress};

verus! {

/// The client/server assignment of one observation.
#[derive(Clone, Copy, PartialEq, Eq, Structural, Debug)]
pub struct RoleAssignment {
    pub client_address: IpAddress,
    pub client_port: u16,
    pub server_address: IpAddress,
    pub server_port: u16,
    pub is_download: bool,
}

/// The assignment an observation classifies to: download exactly when the
/// direction code is zero; on download the destination side is the client,
/// otherwise the source side is.
pub open spec fn spec_classify(obs: FlowObservation) -> RoleAssignment {
    if obs.direction == 0 {
        RoleAssignment {
            client_address: obs.destination_address,
            client_port: obs.destination_port,
            server_address: obs.source_address,
            server_port: obs.source_port,
            is_download: true,
        }
    } else {
        RoleAssignment {
            client_address: obs.source_address,
            client_port: obs.source_port,
            server_address: obs.destination_address,
            server_port: obs.destination_port,
            is_download: false,
        }
    }
}

/// Classifies one observation. For every observation, the result is
/// download exactly on direction code zero; on download the client is the
/// destination side, on upload the source side.
pub fn classify(obs: &FlowObservation) -> (role: RoleAssignment)
    ensures
        role == spec_classify(*obs),
        role.is_download == (obs.direction == 0),
        role.is_download ==> role.client_address == obs.destination_address
            && role.client_port == obs.destination_port && role.server_address
            == obs.source_address && role.server_port == obs.source_port,
        !role.is_download ==> role.client_address == obs.source_address && role.client_port
            == obs.source_port && role.server_address == obs.destination_address
            && role.server_port == obs.destination_port,
{
    if obs.direction == 0 {
        RoleAssignment {
            client_address: obs.destination_address,
            client_port: obs.destination_port,
            server_address: obs.source_address,
            server_port: obs.source_port,
            is_download: true,
        }
    } else {
        RoleAssignment {
            client_address: obs.source_address,
            client_port: obs.source_port,
            server_address: obs.destination_address,
            server_port: obs.destination_port,
            is_download: false,
        }
    }
}

} // verus!
