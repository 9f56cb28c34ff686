//! Response envelopes handed back to callers, and the functions that build
//! them. The envelopes carry a `status` text of `"success"` or `"fail"`,
//! mirroring what the surrounding application serialises onto the wire.

use vstd::prelude::*;
use vstd::string::StringExecFns;

use crate::ip::Ip;

verus! {

/// A status plus a human-readable message; used for the health check and
/// for failure replies.
pub struct GenericResponse {
    pub status: String,
    pub message: String,
}

/// Wrapper around a single record, as carried inside [`SingleIpResponse`].
pub struct IpData {
    pub ip: Ip,
}

/// Reply to a successful create: the record as stored.
pub struct SingleIpResponse {
    pub status: String,
    pub data: IpData,
}

/// Reply to a listing request: the page of records together with its length.
pub struct IpListResponse {
    pub status: String,
    pub results: usize,
    pub ips: Vec<Ip>,
}

/// Message reported when a create finds the address already taken.
pub open spec fn conflict_message(addr: Seq<char>) -> Seq<char> {
    "Ip with IPV4: "@ + addr + " already exists"@
}

/// Message reported when a delete finds no record for the address.
pub open spec fn not_found_message(addr: Seq<char>) -> Seq<char> {
    "Ip with IPV4: "@ + addr + " not found"@
}

/// The reply of the health check: always a success with a fixed message.
pub fn health_response() -> (r: GenericResponse)
    ensures
        r.status@ == "success"@,
        r.message@ == "Build Simple CRUD API with Rust and Actix Web"@,
{
    GenericResponse {
        status: String::from_str("success"),
        message: String::from_str("Build Simple CRUD API with Rust and Actix Web"),
    }
}

/// Reply for a record that was just created: a success envelope around it.
pub fn created_response(ip: Ip) -> (r: SingleIpResponse)
    ensures
        r.status@ == "success"@,
        r.data.ip == ip,
{
    SingleIpResponse { status: String::from_str("success"), data: IpData { ip } }
}

/// Failure reply for a create that hit an address already present.
pub fn conflict_response(address: &String) -> (r: GenericResponse)
    ensures
        r.status@ == "fail"@,
        r.message@ == conflict_message(address@),
{
    let mut m = String::from_str("Ip with IPV4: ");
    m.append(address.as_str());
    m.append(" already exists");
    proof {
        assert(m@ =~= conflict_message(address@));
    }
    GenericResponse { status: String::from_str("fail"), message: m }
}

/// Failure reply for a delete of an address the store does not list.
pub fn not_found_response(address: &String) -> (r: GenericResponse)
    ensures
        r.status@ == "fail"@,
        r.message@ == not_found_message(address@),
{
    let mut m = String::from_str("Ip with IPV4: ");
    m.append(address.as_str());
    m.append(" not found");
    proof {
        assert(m@ =~= not_found_message(address@));
    }
    GenericResponse { status: String::from_str("fail"), message: m }
}

} // verus!
