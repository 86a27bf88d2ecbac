//! The transport dispatcher's decision rules.
//!
//! One remote call is one HTTP round trip.  The transport outside the
//! library sends the request and hands back the numeric status, the raw
//! body text and the decoded body; [`interpret_response`] then applies
//! the dispatcher's fixed rules: unwrap the `{success, code, data}`
//! envelope on a 200/201, report `NotFound` on a 404, and report
//! `InvalidArgument` with the status and raw body on anything else.

use vstd::prelude::*;
use vstd::string::StringExecFns;

use crate::error::Error;
use crate::json::JsonValue;
use crate::json::get_field;
use crate::json::lookup_field;
use crate::json::jv_get;
use crate::numstr::spec_dec;
use crate::numstr::u16_to_string;

verus! {

/// The fixed configuration of a client: where to call and the token
/// that every request carries in its `x-token` header.
pub struct Config {
    pub base_url: String,
    pub token: String,
}

impl Config {
    pub fn new(base_url: String, token: &str) -> (c: Config)
        ensures
            c.base_url@ == base_url@,
            c.token@ == token@,
    {
        Config { base_url, token: token.to_owned() }
    }
}

/// The shared dispatcher handle: configuration fixed at construction,
/// no other state.
pub struct Client {
    pub config: Config,
}

/// Whether a decoded 200/201 body is a well-formed response envelope:
/// an object carrying `data`, a boolean `success` and a numeric `code`.
pub open spec fn envelope_ok(v: JsonValue) -> bool {
    &&& get_field(v, "data"@) is Some
    &&& (match get_field(v, "success"@) {
        Some(JsonValue::Bool(_)) => true,
        _ => false,
    })
    &&& (match get_field(v, "code"@) {
        Some(JsonValue::Num(n)) => i32::MIN <= n <= i32::MAX,
        _ => false,
    })
}

/// The message reported when a 200/201 body has no `data` member.
pub open spec fn incomplete_msg(status: u16, body: Seq<char>) -> Seq<char> {
    "Incomplete response. Status: "@ + spec_dec(status as nat) + ". Body: "@ + body
}

/// The message reported for any status other than 200, 201 and 404.
pub open spec fn failed_msg(status: u16, body: Seq<char>) -> Seq<char> {
    "Request failed. Status: "@ + spec_dec(status as nat) + ". Body: "@ + body
}

/// The message reported when a body cannot be read as JSON, or when an
/// envelope member has the wrong shape; `detail` says which.
pub open spec fn decode_msg(detail: Seq<char>) -> Seq<char> {
    "failed to parse json: "@ + detail
}

/// The detail used when `data` is present but `success` or `code` is
/// missing or of the wrong shape.
pub open spec fn envelope_detail() -> Seq<char> {
    "response envelope is malformed"@
}

fn incomplete_message(status: u16, body: &str) -> (m: String)
    ensures
        m@ == incomplete_msg(status, body@),
{
    let num = u16_to_string(status);
    "Incomplete response. Status: ".to_owned().concat(num.as_str()).concat(". Body: ").concat(body)
}

fn failed_message(status: u16, body: &str) -> (m: String)
    ensures
        m@ == failed_msg(status, body@),
{
    let num = u16_to_string(status);
    "Request failed. Status: ".to_owned().concat(num.as_str()).concat(". Body: ").concat(body)
}

fn decode_message(detail: &str) -> (m: String)
    ensures
        m@ == decode_msg(detail@),
{
    "failed to parse json: ".to_owned().concat(detail)
}

impl Client {
    pub fn new(config: Config) -> (c: Client)
        ensures
            c.config == config,
    {
        Client { config }
    }

    /// The full URL of a request: the fixed base followed by the path,
    /// which may be empty for operations on the collection root.
    pub fn url_for(&self, path: &str) -> (u: String)
        ensures
            u@ == self.config.base_url@ + path@,
    {
        self.config.base_url.clone().concat(path)
    }

    /// The token every request carries.
    pub fn token(&self) -> (t: &String)
        ensures
            t@ == self.config.token@,
    {
        &self.config.token
    }
}

/// Applies the dispatcher's classification to one response.
///
/// `status` and `body` are what the transport received; `decoded` is
/// the body read as JSON, or the decoder's message when it could not
/// be.  On 200/201 a well-formed envelope yields its `data` member;
/// a body without `data` is malformed, never an empty success.  A 404
/// is `NotFound` whatever the body holds.  Every other status is
/// `InvalidArgument` carrying the status and the body verbatim.
#[verifier::loop_isolation(false)]
pub fn interpret_response(status: u16, body: &str, decoded: Result<JsonValue, String>) -> (r:
    Result<JsonValue, Error>)
    ensures
        status == 404 ==> (r matches Err(Error::NotFound(m)) && m@ == "Resource not found"@),
        !(status == 200 || status == 201 || status == 404) ==> (r matches Err(
            Error::InvalidArgument(m),
        ) && m@ == failed_msg(status, body@)),
        (status == 200 || status == 201) ==> (match decoded {
            Ok(v) => {
                if envelope_ok(v) {
                    r matches Ok(d) && Some(d) == get_field(v, "data"@)
                } else if get_field(v, "data"@) is None {
                    r matches Err(Error::InvalidArgument(m)) && m@ == incomplete_msg(status, body@)
                } else {
                    r matches Err(Error::InvalidArgument(m)) && m@ == decode_msg(envelope_detail())
                }
            },
            Err(d) => r matches Err(Error::InvalidArgument(m)) && m@ == decode_msg(d@),
        }),
{
    if status == 200 || status == 201 {
        match decoded {
            Ok(v) => {
                let has_data = jv_get(&v, "data").is_some();
                if !has_data {
                    return Err(Error::InvalidArgument(incomplete_message(status, body)));
                }
                let success_ok = match jv_get(&v, "success") {
                    Some(JsonValue::Bool(_)) => true,
                    _ => false,
                };
                let code_ok = match jv_get(&v, "code") {
                    Some(JsonValue::Num(n)) => i32::MIN as i64 <= *n && *n <= i32::MAX as i64,
                    _ => false,
                };
                if !(success_ok && code_ok) {
                    return Err(
                        Error::InvalidArgument(decode_message("response envelope is malformed")),
                    );
                }
                match v {
                    JsonValue::Obj(mut fields) => {
                        let key = "data".to_owned();
                        let n = fields.len();
                        let mut i: usize = 0;
                        proof {
                            assert(fields@.skip(0) =~= fields@);
                        }
                        while i < n
                            invariant
                                0 <= i <= n,
                                n == fields@.len(),
                                key@ == "data"@,
                                lookup_field(fields@.skip(i as int), "data"@) == get_field(
                                    v,
                                    "data"@,
                                ),
                            decreases n - i,
                        {
                            if fields[i].0 == key {
                                proof {
                                    assert(fields@.skip(i as int)[0] == fields@[i as int]);
                                }
                                let data = fields.swap_remove(i);
                                return Ok(data.1);
                            }
                            proof {
                                assert(fields@.skip(i as int).drop_first() =~= fields@.skip(i + 1));
                                assert(fields@.skip(i as int)[0] == fields@[i as int]);
                            }
                            i += 1;
                        }
                        // Unreachable: the object was just seen to have a
                        // `data` member.
                        proof {
                            assert(fields@.skip(n as int)
                                =~= Seq::<(String, JsonValue)>::empty());
                            assert(false);
                        }
                        Err(Error::InvalidArgument(String::new()))
                    },
                    _ => {
                        // Unreachable: only an object can have a `data` member.
                        proof {
                            assert(false);
                        }
                        Err(Error::InvalidArgument(String::new()))
                    },
                }
            },
            Err(d) => Err(Error::InvalidArgument(decode_message(d.as_str()))),
        }
    } else if status == 404 {
        Err(Error::NotFound("Resource not found".to_owned()))
    } else {
        Err(Error::InvalidArgument(failed_message(status, body)))
    }
}

} // verus!
