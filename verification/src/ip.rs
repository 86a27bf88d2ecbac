//! The per-product IP availability check.
//!
//! A point check scoped to one product id, not a resource with an
//! identity of its own.

use vstd::prelude::*;
use vstd::string::StringExecFns;

use crate::error::Error;
use crate::error::shape_error;
use crate::json::JsonValue;
use crate::json::jv_field_bool;
use crate::json::spec_field_bool;
use crate::numstr::spec_dec;
use crate::numstr::u32_to_string;

verus! {

/// The answer of the availability endpoint.
#[derive(Debug)]
pub struct IpResource {
    pub available: bool,
}

/// How a decoded `data` value reads as an availability answer: a
/// boolean `available` member, required.
pub open spec fn spec_parse_ip(v: JsonValue) -> Option<bool> {
    spec_field_bool(v, "available"@)
}

/// Reads a decoded `data` value as an availability answer.
pub fn parse_ip(v: &JsonValue) -> (r: Result<IpResource, Error>)
    ensures
        match r {
            Ok(ip) => spec_parse_ip(*v) == Some(ip.available),
            Err(e) => spec_parse_ip(*v) is None && e matches Error::InvalidArgument(_),
        },
{
    match jv_field_bool(v, "available") {
        Some(b) => Ok(IpResource { available: b }),
        None => Err(shape_error("ip availability")),
    }
}

/// The path that checks IP availability for the product `product_id`.
pub fn ip_availability_path(product_id: u32) -> (p: String)
    ensures
        p@ == "/products/"@ + spec_dec(product_id as nat) + "/ip-availability"@,
{
    let num = u32_to_string(product_id);
    "/products/".to_owned().concat(num.as_str()).concat("/ip-availability")
}

} // verus!
