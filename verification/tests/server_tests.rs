//! Scenario tests for the dispatcher pipeline: routing, negotiation,
//! decode failures, handler outcomes, and ambient-data flow.

use twirp::demo::{boom_handler, encode_ping_json, ping_handler, PingRequest, PingResponse};
use twirp::error::{bad_route, internal, malformed};
use twirp::server::{
    decode_step, error_response, finalize_response, match_route, method_path, not_found_handler,
    route_path, write_response, Context, Timings,
};
use twirp::strmap::StrMap;
use twirp::BodyFormat;

use prost::Message;

/// The app-side JSON decode of a `Ping` message, as the unverified shell
/// performs it: any parse or shape failure is reported as the parser's text.
fn decode_ping_json(body: &[u8]) -> Result<PingRequest, String> {
    let v: serde_json::Value = serde_json::from_slice(body).map_err(|e| e.to_string())?;
    let name = v
        .get("name")
        .and_then(|x| x.as_str())
        .ok_or_else(|| String::from("missing field `name`"))?;
    Ok(PingRequest {
        name: name.to_string(),
    })
}

fn demo_wires() -> Vec<String> {
    vec![String::from("Ping"), String::from("Boom")]
}

#[test]
fn test_bad_route() {
    // A GET to an unrouted path falls through to the not-found handler.
    let m = match_route(
        &String::from("GET"),
        &String::from("/nothing"),
        &String::from("/twirp"),
        &String::from("test.TestAPI"),
        &demo_wires(),
    );
    assert!(m.is_none());
    let resp = not_found_handler();
    assert_eq!(resp.status, 404);
    assert_eq!(
        String::from_utf8(resp.body).unwrap(),
        "{\"code\":\"bad_route\",\"msg\":\"not found\"}"
    );
    // The body is exactly the wire form of `bad_route("not found")`.
    let expected = error_response(&bad_route("not found"));
    assert_eq!(expected.status, 404);
}

#[test]
fn test_ping_success() {
    let m = match_route(
        &String::from("POST"),
        &String::from("/twirp/test.TestAPI/Ping"),
        &String::from("/twirp"),
        &String::from("test.TestAPI"),
        &demo_wires(),
    );
    assert_eq!(m, Some(0));
    let format = BodyFormat::from_content_type(&Some(String::from("application/json")));
    assert!(matches!(format, BodyFormat::JsonPb));
    let decoded = decode_ping_json(b"{\"name\":\"hi\"}");
    let req = match decode_step(decoded) {
        Ok(req) => req,
        Err(_) => panic!("valid body must decode"),
    };
    let ctx = Context::new(StrMap::new());
    let out = ping_handler(&ctx, req).unwrap();
    assert_eq!(out.name, "hi");
    let resp = write_response(Ok(Ok(encode_ping_json(&out))), format);
    assert_eq!(resp.status, 200);
    assert_eq!(resp.content_type, "application/json");
    assert_eq!(String::from_utf8(resp.body).unwrap(), "{\"name\":\"hi\"}");
}

#[test]
fn test_ping_invalid_request() {
    // An empty body fails the JSON parse; the response is the `malformed`
    // error carrying the parser's message under meta["error"].
    let decoded = decode_ping_json(b"");
    let err_text = decoded.as_ref().err().unwrap().clone();
    assert_eq!(err_text, "EOF while parsing a value at line 1 column 0");
    let resp = match decode_step(decoded) {
        Ok(_) => panic!("empty body must not decode"),
        Err(resp) => resp,
    };
    assert_eq!(resp.status, 400);
    let mut expected = malformed("bad request");
    expected.insert_meta(
        "error".to_string(),
        "EOF while parsing a value at line 1 column 0".to_string(),
    );
    assert_eq!(
        String::from_utf8(resp.body).unwrap(),
        String::from_utf8(error_response(&expected).body).unwrap()
    );
    assert_eq!(
        String::from_utf8(error_response(&expected).body).unwrap(),
        "{\"code\":\"malformed\",\"msg\":\"bad request\",\"meta\":{\"error\":\"EOF while parsing a value at line 1 column 0\"}}"
    );
}

#[test]
fn test_boom() {
    let req = decode_ping_json(b"{\"name\":\"hi\"}").unwrap();
    let ctx = Context::new(StrMap::new());
    let err = match boom_handler(&ctx, req) {
        Ok(_) => panic!("boom must fail"),
        Err(e) => e,
    };
    assert_eq!(err, internal("boom!"));
    let resp = write_response(Err(err), BodyFormat::JsonPb);
    assert_eq!(resp.status, 500);
    assert_eq!(
        String::from_utf8(resp.body).unwrap(),
        "{\"code\":\"internal\",\"msg\":\"boom!\"}"
    );
}

#[test]
fn test_middleware() {
    // Without the header the handler echoes the name unchanged.
    let ctx = Context::new(StrMap::new());
    let out = ping_handler(
        &ctx,
        PingRequest {
            name: String::from("hi"),
        },
    )
    .unwrap();
    assert_eq!(out.name, "hi");

    // Middleware put the request identifier in the ambient bag; the
    // handler reads it through the context and suffixes its output.
    let mut inbound = StrMap::new();
    inbound.insert("x-request-id".to_string(), "abcd".to_string());
    let ctx = Context::new(inbound);
    let out = ping_handler(
        &ctx,
        PingRequest {
            name: String::from("hello"),
        },
    )
    .unwrap();
    assert_eq!(out.name, "hello-abcd");
}

#[test]
fn test_content_negotiation() {
    assert!(matches!(
        BodyFormat::from_content_type(&Some(String::from("application/protobuf"))),
        BodyFormat::Pb
    ));
    assert!(matches!(
        BodyFormat::from_content_type(&Some(String::from("application/json"))),
        BodyFormat::JsonPb
    ));
    assert!(matches!(
        BodyFormat::from_content_type(&Some(String::from("APPLICATION/PROTOBUF"))),
        BodyFormat::JsonPb
    ));
    assert!(matches!(
        BodyFormat::from_content_type(&None),
        BodyFormat::JsonPb
    ));
    // A success response mirrors the negotiated format's media type.
    let r = write_response(Ok(Ok(vec![1u8, 2u8])), BodyFormat::Pb);
    assert_eq!(r.content_type, "application/protobuf");
    assert_eq!(r.body, vec![1u8, 2u8]);
    let r = write_response(Ok(Ok(Vec::new())), BodyFormat::JsonPb);
    assert_eq!(r.content_type, "application/json");
}

#[test]
fn test_encode_failure_degrades_to_unknown() {
    let r = write_response(
        Ok(Err(String::from("cannot serialize"))),
        BodyFormat::JsonPb,
    );
    assert_eq!(r.status, 500);
    assert_eq!(
        String::from_utf8(r.body).unwrap(),
        "{\"code\":\"unknown\",\"msg\":\"error serializing response\",\"meta\":{\"error\":\"cannot serialize\"}}"
    );
}

#[test]
fn test_decode_step_passes_values_through() {
    match decode_step::<u32>(Ok(7)) {
        Ok(v) => assert_eq!(v, 7),
        Err(_) => panic!("a decoded value must pass through"),
    }
}

#[test]
fn test_paths() {
    assert_eq!(
        method_path(&String::from("test.TestAPI"), &String::from("Ping")),
        "test.TestAPI/Ping"
    );
    assert_eq!(
        route_path(
            &String::from("/twirp"),
            &String::from("test.TestAPI"),
            &String::from("Ping")
        ),
        "/twirp/test.TestAPI/Ping"
    );
    let m = match_route(
        &String::from("POST"),
        &String::from("/twirp/test.TestAPI/Boom"),
        &String::from("/twirp"),
        &String::from("test.TestAPI"),
        &demo_wires(),
    );
    assert_eq!(m, Some(1));
    let m = match_route(
        &String::from("POST"),
        &String::from("/twirp/test.TestAPI/Pong"),
        &String::from("/twirp"),
        &String::from("test.TestAPI"),
        &demo_wires(),
    );
    assert!(m.is_none());
}

#[test]
fn test_timings_pipeline() {
    let mut t = Timings::new(10);
    t.set_received(15);
    t.set_parsed(18);
    t.set_response_handled(30);
    t.set_response_written(31);
    assert_eq!(t.received(), Some(5));
    assert_eq!(t.parsed(), Some(3));
    assert_eq!(t.response_handled(), Some(12));
    assert_eq!(t.response_written(), Some(1));
    assert_eq!(t.total_duration(50), 40);
}

#[test]
fn test_timings_absent_instants() {
    let t = Timings::new(10);
    assert_eq!(t.received(), None);
    assert_eq!(t.parsed(), None);
    assert_eq!(t.response_handled(), None);
    assert_eq!(t.response_written(), None);
    // An inherited record may lack the handler instant; the write duration
    // then bases on the latest earlier instant.
    let t = Timings {
        start: 0,
        request_received: Some(4),
        request_parsed: Some(7),
        response_handled: None,
        response_written: Some(9),
    };
    assert_eq!(t.response_written(), Some(2));
    let t = Timings {
        start: 0,
        request_received: Some(4),
        request_parsed: None,
        response_handled: None,
        response_written: Some(9),
    };
    assert_eq!(t.response_written(), Some(5));
}

#[test]
fn test_finalize_response_merges_outbound_and_timings() {
    let mut ctx = Context::new(StrMap::new());
    ctx.insert("span".to_string(), "s1".to_string());
    let mut resp = write_response(Ok(Ok(Vec::new())), BodyFormat::JsonPb);
    let mut t = Timings::new(1);
    t.set_received(2);
    t.set_parsed(3);
    t.set_response_handled(4);
    t.set_response_written(5);
    finalize_response(&mut resp, ctx.outbound(), t);
    assert_eq!(
        resp.extensions.get(&String::from("span")),
        Some(&String::from("s1"))
    );
    let attached = resp.timings.unwrap();
    assert_eq!(attached.received(), Some(1));
    assert_eq!(attached.response_written(), Some(1));
}

#[test]
fn test_round_trip_json() {
    // Encoding a message and decoding it yields an equal value.
    for name in ["", "hi", "héllo wörld", "a\"b\\c\nd", "x\u{1}y"] {
        let encoded = encode_ping_json(&PingResponse {
            name: String::from(name),
        });
        let back = decode_ping_json(&encoded).unwrap();
        assert_eq!(back.name, name);
    }
}

#[test]
fn test_round_trip_proto_binary() {
    // The binary codec round-trips a message: prost models a lone String
    // as a message with one field.
    for name in ["", "hi", "héllo wörld"] {
        let msg = String::from(name);
        let mut buf: Vec<u8> = Vec::new();
        msg.encode(&mut buf).unwrap();
        let back = <String as prost::Message>::decode(&buf[..]).unwrap();
        assert_eq!(back, msg);
    }
}
