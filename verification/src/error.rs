//! The Twirp error taxonomy: a closed set of machine-readable codes, each
//! with a fixed HTTP status, carried together with a human message and a
//! string-keyed metadata map, and serialized as the JSON object
//! `{"code":...,"msg":...,"meta":{...}}` (the `meta` member is omitted when
//! the map is empty).

use crate::json::{append_json_string, json_string};
use crate::strmap::StrMap;
use vstd::prelude::*;

verus! {

/// The taxonomy of error codes.
#[derive(Debug, Clone, Copy, PartialEq, Eq, Structural)]
pub enum ErrorCode {
    Canceled,
    Unknown,
    InvalidArgument,
    Malformed,
    DeadlineExceeded,
    NotFound,
    BadRoute,
    AlreadyExists,
    PermissionDenied,
    Unauthenticated,
    ResourceExhausted,
    FailedPrecondition,
    Aborted,
    OutOfRange,
    Unimplemented,
    Internal,
    Unavailable,
    DataLoss,
}

/// The wire name of each code, as it appears in the JSON body.
pub open spec fn spec_code_name(c: ErrorCode) -> Seq<char> {
    match c {
        ErrorCode::Canceled => "canceled"@,
        ErrorCode::Unknown => "unknown"@,
        ErrorCode::InvalidArgument => "invalid_argument"@,
        ErrorCode::Malformed => "malformed"@,
        ErrorCode::DeadlineExceeded => "deadline_exceeded"@,
        ErrorCode::NotFound => "not_found"@,
        ErrorCode::BadRoute => "bad_route"@,
        ErrorCode::AlreadyExists => "already_exists"@,
        ErrorCode::PermissionDenied => "permission_denied"@,
        ErrorCode::Unauthenticated => "unauthenticated"@,
        ErrorCode::ResourceExhausted => "resource_exhausted"@,
        ErrorCode::FailedPrecondition => "failed_precondition"@,
        ErrorCode::Aborted => "aborted"@,
        ErrorCode::OutOfRange => "out_of_range"@,
        ErrorCode::Unimplemented => "unimplemented"@,
        ErrorCode::Internal => "internal"@,
        ErrorCode::Unavailable => "unavailable"@,
        ErrorCode::DataLoss => "data_loss"@,
    }
}

/// The HTTP status each code maps to; the mapping is total and fixed.
pub open spec fn spec_http_status(c: ErrorCode) -> u16 {
    match c {
        ErrorCode::Canceled => 408,
        ErrorCode::Unknown => 500,
        ErrorCode::InvalidArgument => 400,
        ErrorCode::Malformed => 400,
        ErrorCode::DeadlineExceeded => 504,
        ErrorCode::NotFound => 404,
        ErrorCode::BadRoute => 404,
        ErrorCode::AlreadyExists => 409,
        ErrorCode::PermissionDenied => 403,
        ErrorCode::Unauthenticated => 401,
        ErrorCode::ResourceExhausted => 429,
        ErrorCode::FailedPrecondition => 412,
        ErrorCode::Aborted => 409,
        ErrorCode::OutOfRange => 400,
        ErrorCode::Unimplemented => 501,
        ErrorCode::Internal => 500,
        ErrorCode::Unavailable => 503,
        ErrorCode::DataLoss => 500,
    }
}

/// One `"key":"value"` member per metadata entry, in insertion order,
/// joined by commas.
pub open spec fn spec_meta_members(s: Seq<(Seq<char>, Seq<char>)>) -> Seq<char>
    decreases s.len(),
{
    if s.len() == 0 {
        Seq::empty()
    } else if s.len() == 1 {
        json_string(s[0].0) + seq![':'] + json_string(s[0].1)
    } else {
        spec_meta_members(s.drop_last()) + seq![','] + json_string(s.last().0) + seq![':']
            + json_string(s.last().1)
    }
}

/// The full JSON body of an error: code and message always, the metadata
/// object only when the map is not empty.
pub open spec fn spec_error_json(c: ErrorCode, msg: Seq<char>, meta: Seq<(Seq<char>, Seq<char>)>) -> Seq<
    char,
> {
    "{\"code\":"@ + json_string(spec_code_name(c)) + ",\"msg\":"@ + json_string(msg) + (if meta.len()
        == 0 {
        Seq::<char>::empty()
    } else {
        ",\"meta\":{"@ + spec_meta_members(meta) + "}"@
    }) + "}"@
}

/// A structured Twirp error: taxonomy code, human message, metadata.
#[derive(Debug)]
pub struct TwirpError {
    pub code: ErrorCode,
    pub message: String,
    pub meta: StrMap,
}

impl TwirpError {
    /// An error with the given code and message and no metadata.
    pub fn new(code: ErrorCode, message: &str) -> (r: TwirpError)
        ensures
            r.code == code,
            r.message@ == message@,
            r.meta@ == Seq::<(Seq<char>, Seq<char>)>::empty(),
            r.meta.as_map() == Map::<Seq<char>, Seq<char>>::empty(),
    {
        TwirpError { code, message: String::from_str(message), meta: StrMap::new() }
    }

    /// Adds or overwrites one metadata entry.
    pub fn insert_meta(&mut self, key: String, value: String)
        ensures
            final(self).code == old(self).code,
            final(self).message == old(self).message,
            final(self).meta.as_map() == old(self).meta.as_map().insert(key@, value@),
            !old(self).meta.as_map().contains_key(key@) ==> final(self).meta@ == old(
                self,
            ).meta@.push((key@, value@)),
    {
        self.meta.insert(key, value);
    }

    /// The wire name of this error's code.
    pub fn code_name(&self) -> (r: String)
        ensures
            r@ == spec_code_name(self.code),
    {
        match self.code {
            ErrorCode::Canceled => String::from_str("canceled"),
            ErrorCode::Unknown => String::from_str("unknown"),
            ErrorCode::InvalidArgument => String::from_str("invalid_argument"),
            ErrorCode::Malformed => String::from_str("malformed"),
            ErrorCode::DeadlineExceeded => String::from_str("deadline_exceeded"),
            ErrorCode::NotFound => String::from_str("not_found"),
            ErrorCode::BadRoute => String::from_str("bad_route"),
            ErrorCode::AlreadyExists => String::from_str("already_exists"),
            ErrorCode::PermissionDenied => String::from_str("permission_denied"),
            ErrorCode::Unauthenticated => String::from_str("unauthenticated"),
            ErrorCode::ResourceExhausted => String::from_str("resource_exhausted"),
            ErrorCode::FailedPrecondition => String::from_str("failed_precondition"),
            ErrorCode::Aborted => String::from_str("aborted"),
            ErrorCode::OutOfRange => String::from_str("out_of_range"),
            ErrorCode::Unimplemented => String::from_str("unimplemented"),
            ErrorCode::Internal => String::from_str("internal"),
            ErrorCode::Unavailable => String::from_str("unavailable"),
            ErrorCode::DataLoss => String::from_str("data_loss"),
        }
    }

    /// The HTTP status this error's response carries.
    pub fn http_status(&self) -> (r: u16)
        ensures
            r == spec_http_status(self.code),
    {
        match self.code {
            ErrorCode::Canceled => 408,
            ErrorCode::Unknown => 500,
            ErrorCode::InvalidArgument => 400,
            ErrorCode::Malformed => 400,
            ErrorCode::DeadlineExceeded => 504,
            ErrorCode::NotFound => 404,
            ErrorCode::BadRoute => 404,
            ErrorCode::AlreadyExists => 409,
            ErrorCode::PermissionDenied => 403,
            ErrorCode::Unauthenticated => 401,
            ErrorCode::ResourceExhausted => 429,
            ErrorCode::FailedPrecondition => 412,
            ErrorCode::Aborted => 409,
            ErrorCode::OutOfRange => 400,
            ErrorCode::Unimplemented => 501,
            ErrorCode::Internal => 500,
            ErrorCode::Unavailable => 503,
            ErrorCode::DataLoss => 500,
        }
    }

    /// The JSON wire body of this error.
    #[verifier::loop_isolation(false)]
    pub fn to_json(&self) -> (r: String)
        ensures
            r@ == spec_error_json(self.code, self.message@, self.meta@),
    {
        let mut out = String::from_str("{\"code\":");
        append_json_string(&mut out, &self.code_name());
        out.append(",\"msg\":");
        append_json_string(&mut out, &self.message);
        let n = self.meta.len();
        if n > 0 {
            out.append(",\"meta\":{");
            let mut i: usize = 0;
            while i < n
                invariant
                    n == self.meta@.len(),
                    0 < n,
                    i <= n,
                    out@ == "{\"code\":"@ + json_string(spec_code_name(self.code)) + ",\"msg\":"@
                        + json_string(self.message@) + ",\"meta\":{"@ + spec_meta_members(
                        self.meta@.take(i as int),
                    ),
                decreases n - i,
            {
                if i > 0 {
                    out.append(",");
                    proof {
                        reveal_strlit(",");
                        assert(","@ =~= seq![',']);
                    }
                }
                let (k, v) = self.meta.entry_at(i);
                append_json_string(&mut out, k);
                out.append(":");
                proof {
                    reveal_strlit(":");
                    assert(":"@ =~= seq![':']);
                }
                append_json_string(&mut out, v);
                proof {
                    assert(self.meta@.take(i + 1).drop_last() =~= self.meta@.take(i as int));
                    assert(self.meta@.take(i + 1).last() == self.meta@[i as int]);
                    assert(spec_meta_members(self.meta@.take(i + 1)) =~= spec_meta_members(
                        self.meta@.take(i as int),
                    ) + (if i == 0 {
                        Seq::<char>::empty()
                    } else {
                        seq![',']
                    }) + json_string(self.meta@[i as int].0) + seq![':'] + json_string(
                        self.meta@[i as int].1,
                    ));
                }
                i = i + 1;
            }
            out.append("}");
            proof {
                assert(self.meta@.take(n as int) =~= self.meta@);
            }
        }
        out.append("}");
        proof {
            assert(out@ =~= spec_error_json(self.code, self.message@, self.meta@));
        }
        out
    }
}

impl vstd::std_specs::cmp::PartialEqSpecImpl for TwirpError {
    open spec fn obeys_eq_spec() -> bool {
        true
    }

    open spec fn eq_spec(&self, other: &TwirpError) -> bool {
        self.code == other.code && self.message@ == other.message@ && self.meta.as_map()
            == other.meta.as_map()
    }
}

impl PartialEq for TwirpError {
    /// Value equality: same code, same message, same metadata map. The
    /// insertion order of the metadata does not matter.
    fn eq(&self, other: &TwirpError) -> (r: bool) {
        self.code == other.code && self.message == other.message && self.meta.map_equal(
            &other.meta,
        )
    }
}

impl Eq for TwirpError {

}

/// Law: two errors are equal exactly when their codes, their messages, and
/// their full metadata maps are equal.
pub proof fn lemma_error_eq_structural(a: &TwirpError, b: &TwirpError)
    ensures
        vstd::std_specs::cmp::PartialEqSpec::eq_spec(a, b) <==> (a.code == b.code && a.message@
            == b.message@ && a.meta.as_map() == b.meta.as_map()),
{
}

/// What every named constructor returns: the given code and message, no
/// metadata.
pub open spec fn is_fresh_error(r: TwirpError, code: ErrorCode, msg: Seq<char>) -> bool {
    &&& r.code == code
    &&& r.message@ == msg
    &&& r.meta@ == Seq::<(Seq<char>, Seq<char>)>::empty()
}

pub fn canceled(msg: &str) -> (r: TwirpError)
    ensures
        is_fresh_error(r, ErrorCode::Canceled, msg@),
{
    TwirpError::new(ErrorCode::Canceled, msg)
}

pub fn unknown(msg: &str) -> (r: TwirpError)
    ensures
        is_fresh_error(r, ErrorCode::Unknown, msg@),
{
    TwirpError::new(ErrorCode::Unknown, msg)
}

pub fn invalid_argument(msg: &str) -> (r: TwirpError)
    ensures
        is_fresh_error(r, ErrorCode::InvalidArgument, msg@),
{
    TwirpError::new(ErrorCode::InvalidArgument, msg)
}

pub fn malformed(msg: &str) -> (r: TwirpError)
    ensures
        is_fresh_error(r, ErrorCode::Malformed, msg@),
{
    TwirpError::new(ErrorCode::Malformed, msg)
}

pub fn deadline_exceeded(msg: &str) -> (r: TwirpError)
    ensures
        is_fresh_error(r, ErrorCode::DeadlineExceeded, msg@),
{
    TwirpError::new(ErrorCode::DeadlineExceeded, msg)
}

pub fn not_found(msg: &str) -> (r: TwirpError)
    ensures
        is_fresh_error(r, ErrorCode::NotFound, msg@),
{
    TwirpError::new(ErrorCode::NotFound, msg)
}

pub fn bad_route(msg: &str) -> (r: TwirpError)
    ensures
        is_fresh_error(r, ErrorCode::BadRoute, msg@),
{
    TwirpError::new(ErrorCode::BadRoute, msg)
}

pub fn already_exists(msg: &str) -> (r: TwirpError)
    ensures
        is_fresh_error(r, ErrorCode::AlreadyExists, msg@),
{
    TwirpError::new(ErrorCode::AlreadyExists, msg)
}

pub fn permission_denied(msg: &str) -> (r: TwirpError)
    ensures
        is_fresh_error(r, ErrorCode::PermissionDenied, msg@),
{
    TwirpError::new(ErrorCode::PermissionDenied, msg)
}

pub fn unauthenticated(msg: &str) -> (r: TwirpError)
    ensures
        is_fresh_error(r, ErrorCode::Unauthenticated, msg@),
{
    TwirpError::new(ErrorCode::Unauthenticated, msg)
}

pub fn resource_exhausted(msg: &str) -> (r: TwirpError)
    ensures
        is_fresh_error(r, ErrorCode::ResourceExhausted, msg@),
{
    TwirpError::new(ErrorCode::ResourceExhausted, msg)
}

pub fn failed_precondition(msg: &str) -> (r: TwirpError)
    ensures
        is_fresh_error(r, ErrorCode::FailedPrecondition, msg@),
{
    TwirpError::new(ErrorCode::FailedPrecondition, msg)
}

pub fn aborted(msg: &str) -> (r: TwirpError)
    ensures
        is_fresh_error(r, ErrorCode::Aborted, msg@),
{
    TwirpError::new(ErrorCode::Aborted, msg)
}

pub fn out_of_range(msg: &str) -> (r: TwirpError)
    ensures
        is_fresh_error(r, ErrorCode::OutOfRange, msg@),
{
    TwirpError::new(ErrorCode::OutOfRange, msg)
}

pub fn unimplemented(msg: &str) -> (r: TwirpError)
    ensures
        is_fresh_error(r, ErrorCode::Unimplemented, msg@),
{
    TwirpError::new(ErrorCode::Unimplemented, msg)
}

pub fn internal(msg: &str) -> (r: TwirpError)
    ensures
        is_fresh_error(r, ErrorCode::Internal, msg@),
{
    TwirpError::new(ErrorCode::Internal, msg)
}

pub fn unavailable(msg: &str) -> (r: TwirpError)
    ensures
        is_fresh_error(r, ErrorCode::Unavailable, msg@),
{
    TwirpError::new(ErrorCode::Unavailable, msg)
}

pub fn data_loss(msg: &str) -> (r: TwirpError)
    ensures
        is_fresh_error(r, ErrorCode::DataLoss, msg@),
{
    TwirpError::new(ErrorCode::DataLoss, msg)
}

} // verus!
