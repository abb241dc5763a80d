//! A small concrete service over the runtime: the `test.TestAPI` service
//! with a `Ping` method that echoes its input (suffixed with the ambient
//! request identifier when middleware has set one) and a `Boom` method that
//! always fails. It exercises every dispatcher step on real values.

use crate::error::{internal, TwirpError};
use crate::json::{append_json_string, json_string};
use crate::server::Context;
use vstd::prelude::*;
use vstd::utf8::encode_utf8;

verus! {

/// The input message of `Ping`.
pub struct PingRequest {
    pub name: String,
}

/// The output message of `Ping`.
pub struct PingResponse {
    pub name: String,
}

/// The ambient key middleware uses for the request identifier.
pub fn request_id_key() -> (r: String)
    ensures
        r@ == "x-request-id"@,
{
    String::from_str("x-request-id")
}

/// What `Ping` answers: the request's name, with `-{id}` appended when the
/// context carries an ambient request identifier.
pub open spec fn spec_ping_name(inbound: Map<Seq<char>, Seq<char>>, name: Seq<char>) -> Seq<char> {
    if inbound.contains_key("x-request-id"@) {
        name + "-"@ + inbound["x-request-id"@]
    } else {
        name
    }
}

/// The `Ping` handler: echoes the name, suffixed with the ambient request
/// identifier when one was set. It never fails.
pub fn ping_handler(ctx: &Context, req: PingRequest) -> (r: Result<PingResponse, TwirpError>)
    ensures
        r is Ok,
        r->Ok_0.name@ == spec_ping_name(ctx.spec_inbound(), req.name@),
{
    let key = request_id_key();
    match ctx.get(&key) {
        Some(rid) => {
            let mut name = req.name;
            name.append("-");
            name.append(rid.as_str());
            proof {
                assert(name@ =~= spec_ping_name(ctx.spec_inbound(), req.name@));
            }
            Ok(PingResponse { name })
        },
        None => Ok(PingResponse { name: req.name }),
    }
}

/// The `Boom` handler: always fails with the internal error `boom!`.
pub fn boom_handler(_ctx: &Context, _req: PingRequest) -> (r: Result<PingResponse, TwirpError>)
    ensures
        r is Err,
        crate::error::is_fresh_error(r->Err_0, crate::error::ErrorCode::Internal, "boom!"@),
{
    Err(internal("boom!"))
}

/// The JSON projection of a `Ping` message: one string member `name`.
pub open spec fn spec_ping_json(name: Seq<char>) -> Seq<char> {
    "{\"name\":"@ + json_string(name) + "}"@
}

/// Encodes a `Ping` response in the JSON projection.
pub fn encode_ping_json(resp: &PingResponse) -> (r: Vec<u8>)
    ensures
        r@ == encode_utf8(spec_ping_json(resp.name@)),
{
    let mut out = String::from_str("{\"name\":");
    append_json_string(&mut out, &resp.name);
    out.append("}");
    proof {
        assert(out@ =~= spec_ping_json(resp.name@));
    }
    out.as_str().as_bytes_vec()
}

} // verus!
