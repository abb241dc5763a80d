//! The request-handling runtime: timing instrumentation, the per-request
//! context, route matching, and the translation of every outcome — decode
//! failure, handler result, encode failure — into a wire-correct response.
//!
//! The unverified shell around this library performs the transport reads
//! and the message-codec calls, and hands the outcomes in as plain values;
//! every decision between those steps is made here.

use crate::error::{
    bad_route, malformed, spec_error_json, spec_http_status, unknown, ErrorCode, TwirpError,
};
use crate::strmap::StrMap;
use crate::BodyFormat;
use vstd::prelude::*;
use vstd::utf8::encode_utf8;

verus! {

/// Whether two optionally-present instants are in order.
pub open spec fn le_opt(a: Option<u64>, b: Option<u64>) -> bool {
    match (a, b) {
        (Some(x), Some(y)) => x <= y,
        _ => true,
    }
}

/// Timing information of one request: the start instant and four optional
/// instants set once each as the request progresses. Instants are plain
/// monotonic-clock readings handed in by the caller.
#[derive(Debug, Clone, Copy)]
pub struct Timings {
    pub start: u64,
    pub request_received: Option<u64>,
    pub request_parsed: Option<u64>,
    pub response_handled: Option<u64>,
    pub response_written: Option<u64>,
}

impl Timings {
    /// Every present instant respects the pipeline order
    /// start, received, parsed, handled, written.
    pub open spec fn wf(&self) -> bool {
        &&& le_opt(Some(self.start), self.request_received)
        &&& le_opt(Some(self.start), self.request_parsed)
        &&& le_opt(Some(self.start), self.response_handled)
        &&& le_opt(Some(self.start), self.response_written)
        &&& le_opt(self.request_received, self.request_parsed)
        &&& le_opt(self.request_received, self.response_handled)
        &&& le_opt(self.request_received, self.response_written)
        &&& le_opt(self.request_parsed, self.response_handled)
        &&& le_opt(self.request_parsed, self.response_written)
        &&& le_opt(self.response_handled, self.response_written)
    }

    /// A fresh record: only the start instant is set.
    pub fn new(start: u64) -> (r: Timings)
        ensures
            r.start == start,
            r.request_received is None,
            r.request_parsed is None,
            r.response_handled is None,
            r.response_written is None,
            r.wf(),
    {
        Timings {
            start,
            request_received: None,
            request_parsed: None,
            response_handled: None,
            response_written: None,
        }
    }

    /// Records when the request body had been read, once.
    pub fn set_received(&mut self, now: u64)
        requires
            old(self).wf(),
            old(self).request_received is None,
            old(self).request_parsed is None,
            old(self).response_handled is None,
            old(self).response_written is None,
            now >= old(self).start,
        ensures
            *final(self) == (Timings { request_received: Some(now), ..*old(self) }),
            final(self).wf(),
    {
        self.request_received = Some(now);
    }

    /// Records when the request body had been decoded, once.
    pub fn set_parsed(&mut self, now: u64)
        requires
            old(self).wf(),
            old(self).request_received is Some,
            old(self).request_parsed is None,
            old(self).response_handled is None,
            old(self).response_written is None,
            now >= old(self).request_received->0,
        ensures
            *final(self) == (Timings { request_parsed: Some(now), ..*old(self) }),
            final(self).wf(),
    {
        self.request_parsed = Some(now);
    }

    /// Records when the handler returned, once.
    pub fn set_response_handled(&mut self, now: u64)
        requires
            old(self).wf(),
            old(self).request_parsed is Some,
            old(self).response_handled is None,
            old(self).response_written is None,
            now >= old(self).request_parsed->0,
        ensures
            *final(self) == (Timings { response_handled: Some(now), ..*old(self) }),
            final(self).wf(),
    {
        self.response_handled = Some(now);
    }

    /// Records when the response had been written, once.
    pub fn set_response_written(&mut self, now: u64)
        requires
            old(self).wf(),
            old(self).response_handled is Some,
            old(self).response_written is None,
            now >= old(self).response_handled->0,
        ensures
            *final(self) == (Timings { response_written: Some(now), ..*old(self) }),
            final(self).wf(),
    {
        self.response_written = Some(now);
    }

    /// Time from the start until the body was read, if recorded.
    pub fn received(&self) -> (r: Option<u64>)
        requires
            self.wf(),
        ensures
            r == match self.request_received {
                Some(x) => Some((x - self.start) as u64),
                None => None,
            },
    {
        match self.request_received {
            Some(x) => Some(x - self.start),
            None => None,
        }
    }

    /// Time from body read to decode, if both were recorded.
    pub fn parsed(&self) -> (r: Option<u64>)
        requires
            self.wf(),
        ensures
            r == match (self.request_parsed, self.request_received) {
                (Some(p), Some(c)) => Some((p - c) as u64),
                _ => None,
            },
    {
        match (self.request_parsed, self.request_received) {
            (Some(p), Some(c)) => Some(p - c),
            _ => None,
        }
    }

    /// Time from decode to the handler's return, if both were recorded.
    pub fn response_handled(&self) -> (r: Option<u64>)
        requires
            self.wf(),
        ensures
            r == match (self.response_handled, self.request_parsed) {
                (Some(h), Some(p)) => Some((h - p) as u64),
                _ => None,
            },
    {
        match (self.response_handled, self.request_parsed) {
            (Some(h), Some(p)) => Some(h - p),
            _ => None,
        }
    }

    /// Time from the handler's return to the write of the response; when
    /// the handler instant is absent, the latest earlier instant serves as
    /// the base.
    pub fn response_written(&self) -> (r: Option<u64>)
        requires
            self.wf(),
        ensures
            r == match (self.response_written, self.response_handled) {
                (Some(w), Some(h)) => Some((w - h) as u64),
                (Some(w), None) => match self.request_parsed {
                    Some(p) => Some((w - p) as u64),
                    None => match self.request_received {
                        Some(c) => Some((w - c) as u64),
                        None => None,
                    },
                },
                _ => None,
            },
    {
        match (self.response_written, self.response_handled) {
            (Some(w), Some(h)) => Some(w - h),
            (Some(w), None) => match self.request_parsed {
                Some(p) => Some(w - p),
                None => match self.request_received {
                    Some(c) => Some(w - c),
                    None => None,
                },
            },
            _ => None,
        }
    }

    /// The time from the start until `now`.
    pub fn total_duration(&self, now: u64) -> (r: u64)
        requires
            now >= self.start,
        ensures
            r == now - self.start,
    {
        now - self.start
    }
}

/// Law: on a well-formed record every present instant is at or after the
/// start, and the four optional instants respect the pipeline order
/// received, parsed, handled, written between every present pair.
pub proof fn lemma_timings_monotone(t: Timings)
    requires
        t.wf(),
    ensures
        t.request_received is Some ==> t.start <= t.request_received->0,
        t.request_parsed is Some ==> t.start <= t.request_parsed->0,
        t.response_handled is Some ==> t.start <= t.response_handled->0,
        t.response_written is Some ==> t.start <= t.response_written->0,
        t.request_received is Some && t.request_parsed is Some ==> t.request_received->0
            <= t.request_parsed->0,
        t.request_parsed is Some && t.response_handled is Some ==> t.request_parsed->0
            <= t.response_handled->0,
        t.response_handled is Some && t.response_written is Some ==> t.response_handled->0
            <= t.response_written->0,
        t.request_received is Some && t.response_written is Some ==> t.request_received->0
            <= t.response_written->0,
{
}

/// The per-request carrier: ambient data set by middleware before dispatch,
/// read-only for the handler, and an outbound bag the handler fills, merged
/// into the response afterwards. The unverified shell owns any sharing of
/// the outbound bag; here it is a plain value with one writer.
pub struct Context {
    inbound: StrMap,
    outbound: StrMap,
}

impl Context {
    /// The ambient data the request carried in.
    pub closed spec fn spec_inbound(&self) -> Map<Seq<char>, Seq<char>> {
        self.inbound.as_map()
    }

    /// What the handler has put in the outbound bag so far.
    pub closed spec fn spec_outbound(&self) -> Map<Seq<char>, Seq<char>> {
        self.outbound.as_map()
    }

    /// A fresh context over the request's ambient data, with an empty
    /// outbound bag.
    pub fn new(inbound: StrMap) -> (r: Context)
        ensures
            r.spec_inbound() == inbound.as_map(),
            r.spec_outbound() == Map::<Seq<char>, Seq<char>>::empty(),
    {
        Context { inbound, outbound: StrMap::new() }
    }

    /// Reads one ambient value set by middleware.
    pub fn get(&self, k: &String) -> (r: Option<&String>)
        ensures
            match r {
                Some(v) => self.spec_inbound().contains_key(k@) && v@ == self.spec_inbound()[k@],
                None => !self.spec_inbound().contains_key(k@),
            },
    {
        self.inbound.get(k)
    }

    /// Adds one outbound value for the response.
    pub fn insert(&mut self, k: String, v: String)
        ensures
            final(self).spec_inbound() == old(self).spec_inbound(),
            final(self).spec_outbound() == old(self).spec_outbound().insert(k@, v@),
    {
        self.outbound.insert(k, v);
    }

    /// Hands the outbound bag to the dispatcher for the response merge.
    pub fn outbound(&self) -> (r: &StrMap)
        ensures
            r.as_map() == self.spec_outbound(),
    {
        &self.outbound
    }
}

/// One HTTP response as the runtime shapes it: status, content type, body
/// bytes, the ambient response bag, and the request's timings once attached.
pub struct WireResponse {
    pub status: u16,
    pub content_type: String,
    pub body: Vec<u8>,
    pub extensions: StrMap,
    pub timings: Option<Timings>,
}

/// What an error turns into on the wire: its mapped status, a JSON content
/// type whatever format the request negotiated, and the fixed JSON body.
pub open spec fn is_error_response(r: WireResponse, code: ErrorCode, msg: Seq<char>, meta: Seq<
    (Seq<char>, Seq<char>),
>) -> bool {
    &&& r.status == spec_http_status(code)
    &&& r.content_type@ == "application/json"@
    &&& r.body@ == encode_utf8(spec_error_json(code, msg, meta))
    &&& r.extensions@ == Seq::<(Seq<char>, Seq<char>)>::empty()
    &&& r.timings is None
}

/// Builds the wire response of an error: the taxonomy's HTTP status and the
/// JSON error body.
pub fn error_response(err: &TwirpError) -> (r: WireResponse)
    ensures
        is_error_response(r, err.code, err.message@, err.meta@),
{
    let body = err.to_json();
    WireResponse {
        status: err.http_status(),
        content_type: crate::content_type_json(),
        body: body.as_str().as_bytes_vec(),
        extensions: StrMap::new(),
        timings: None,
    }
}

/// The terminal handler for any path the router could not match: the
/// protocol's structured `bad_route` error rather than a bare 404.
pub fn not_found_handler() -> (r: WireResponse)
    ensures
        is_error_response(
            r,
            ErrorCode::BadRoute,
            "not found"@,
            Seq::<(Seq<char>, Seq<char>)>::empty(),
        ),
        r.status == 404,
{
    error_response(&bad_route("not found"))
}

/// The metadata an error carries about an underlying failure text.
pub open spec fn error_meta(detail: Seq<char>) -> Seq<(Seq<char>, Seq<char>)> {
    seq![("error"@, detail)]
}

/// Accepts the body-decode outcome: a decoded value passes through, and a
/// decode failure short-circuits into the `malformed` response, the parser's
/// message under `meta["error"]`.
pub fn decode_step<T>(decoded: Result<T, String>) -> (r: Result<T, WireResponse>)
    ensures
        match r {
            Ok(v) => decoded is Ok && v == decoded->Ok_0,
            Err(resp) => decoded is Err && is_error_response(
                resp,
                ErrorCode::Malformed,
                "bad request"@,
                error_meta(decoded->Err_0@),
            ),
        },
{
    match decoded {
        Ok(v) => Ok(v),
        Err(e) => {
            let mut err = malformed("bad request");
            err.insert_meta(String::from_str("error"), e);
            proof {
                assert(err.meta@ =~= error_meta(e@));
            }
            Err(error_response(&err))
        },
    }
}

/// Turns the handler outcome into the response. A successfully encoded
/// output becomes the 200 response in the negotiated format; an encode
/// failure degrades to the `unknown` error; a handler error becomes its own
/// error response. Every outcome yields a well-formed response.
pub fn write_response(outcome: Result<Result<Vec<u8>, String>, TwirpError>, format: BodyFormat) -> (r:
    WireResponse)
    ensures
        match outcome {
            Ok(encoded) => match encoded {
                Ok(data) => r.status == 200 && r.content_type@ == format.spec_media_type()
                    && r.body@ == data@ && r.extensions@ == Seq::<(Seq<char>, Seq<char>)>::empty()
                    && r.timings is None,
                Err(e) => is_error_response(
                    r,
                    ErrorCode::Unknown,
                    "error serializing response"@,
                    error_meta(e@),
                ),
            },
            Err(err) => is_error_response(r, err.code, err.message@, err.meta@),
        },
{
    match outcome {
        Ok(encoded) => match encoded {
            Ok(data) => WireResponse {
                status: 200,
                content_type: format.media_type(),
                body: data,
                extensions: StrMap::new(),
                timings: None,
            },
            Err(e) => {
                let mut err = unknown("error serializing response");
                err.insert_meta(String::from_str("error"), e);
                proof {
                    assert(err.meta@ =~= error_meta(e@));
                }
                error_response(&err)
            },
        },
        Err(err) => error_response(&err),
    }
}

/// Merges the handler's outbound bag into the response's ambient bag and
/// attaches the timings, as the last step of dispatch.
pub fn finalize_response(resp: &mut WireResponse, outbound: &StrMap, timings: Timings)
    ensures
        final(resp).status == old(resp).status,
        final(resp).content_type == old(resp).content_type,
        final(resp).body == old(resp).body,
        final(resp).extensions.as_map() == old(resp).extensions.as_map().union_prefer_right(
            outbound.as_map(),
        ),
        final(resp).timings == Some(timings),
{
    resp.extensions.merge_from(outbound);
    resp.timings = Some(timings);
}

/// The canonical path of one method below the routing prefix.
pub open spec fn spec_method_path(fqn: Seq<char>, wire: Seq<char>) -> Seq<char> {
    fqn + "/"@ + wire
}

/// The full routed path of one method: prefix, service, wire name.
pub open spec fn spec_route_path(prefix: Seq<char>, fqn: Seq<char>, wire: Seq<char>) -> Seq<char> {
    prefix + "/"@ + spec_method_path(fqn, wire)
}

/// Builds `{fqn}/{wire}`, the method path both sides agree on.
pub fn method_path(fqn: &String, wire: &String) -> (r: String)
    ensures
        r@ == spec_method_path(fqn@, wire@),
{
    let mut s = fqn.clone();
    s.append("/");
    s.append(wire.as_str());
    s
}

/// Builds the full routed path `{prefix}/{fqn}/{wire}`.
pub fn route_path(prefix: &String, fqn: &String, wire: &String) -> (r: String)
    ensures
        r@ == spec_route_path(prefix@, fqn@, wire@),
{
    let mut s = prefix.clone();
    s.append("/");
    s.append(method_path(fqn, wire).as_str());
    proof {
        assert(s@ =~= spec_route_path(prefix@, fqn@, wire@));
    }
    s
}

/// Finds which method, if any, a request addresses: a `POST` to the
/// method's routed path. Wire names are unique within a service, so at most
/// one method matches.
#[verifier::loop_isolation(false)]
pub fn match_route(
    method: &String,
    path: &String,
    prefix: &String,
    fqn: &String,
    wires: &Vec<String>,
) -> (r: Option<usize>)
    requires
        forall|i: int, j: int| 0 <= i < j < wires@.len() ==> wires@[i]@ != wires@[j]@,
    ensures
        match r {
            Some(i) => i < wires@.len() && method@ == "POST"@ && path@ == spec_route_path(
                prefix@,
                fqn@,
                wires@[i as int]@,
            ),
            None => method@ != "POST"@ || forall|i: int|
                0 <= i < wires@.len() ==> path@ != spec_route_path(prefix@, fqn@, wires@[i]@),
        },
{
    if !(*method == String::from_str("POST")) {
        return None;
    }
    let n = wires.len();
    let mut i: usize = 0;
    while i < n
        invariant
            n == wires@.len(),
            i <= n,
            forall|j: int| 0 <= j < i ==> path@ != spec_route_path(prefix@, fqn@, wires@[j]@),
        decreases n - i,
    {
        let candidate = route_path(prefix, fqn, &wires[i]);
        if *path == candidate {
            return Some(i);
        }
        i = i + 1;
    }
    None
}

} // verus!
